//! The metric registry: a closed catalogue of metric definitions, and the
//! measurements that one completed request gives rise to.

use vstd::prelude::*;

verus! {

/// The metrics that this service can emit. The set is closed: a metric that
/// is not listed here cannot be recorded.
#[derive(Clone, Copy, Debug, PartialEq, Eq, Structural)]
pub enum Metric {
    HttpRequestsTotal,
    HttpRequestsDurationSeconds,
}

/// The name of a metric.
pub open spec fn metric_name(metric: Metric) -> Seq<char> {
    match metric {
        Metric::HttpRequestsTotal => "http_requests_total"@,
        Metric::HttpRequestsDurationSeconds => "http_requests_duration_seconds"@,
    }
}

/// What a metric measures, in words.
pub open spec fn metric_description(metric: Metric) -> Seq<char> {
    match metric {
        Metric::HttpRequestsTotal => "Total number of HTTP requests"@,
        Metric::HttpRequestsDurationSeconds => "Duration of HTTP requests in seconds"@,
    }
}

/// The unit in which a metric is measured.
pub open spec fn metric_unit(metric: Metric) -> Seq<char> {
    match metric {
        Metric::HttpRequestsTotal => "requests"@,
        Metric::HttpRequestsDurationSeconds => "seconds"@,
    }
}

impl Metric {
    /// The name under which the metric is exported.
    pub fn name(&self) -> (name: &'static str)
        ensures
            name@ == metric_name(*self),
    {
        match self {
            Metric::HttpRequestsTotal => "http_requests_total",
            Metric::HttpRequestsDurationSeconds => "http_requests_duration_seconds",
        }
    }

    /// What the metric measures, in words.
    pub fn description(&self) -> (description: &'static str)
        ensures
            description@ == metric_description(*self),
    {
        match self {
            Metric::HttpRequestsTotal => "Total number of HTTP requests",
            Metric::HttpRequestsDurationSeconds => "Duration of HTTP requests in seconds",
        }
    }

    /// The unit in which the metric is measured.
    pub fn unit(&self) -> (unit: &'static str)
        ensures
            unit@ == metric_unit(*self),
    {
        match self {
            Metric::HttpRequestsTotal => "requests",
            Metric::HttpRequestsDurationSeconds => "seconds",
        }
    }
}

/// The kind of instrument that takes a measurement.
#[derive(Clone, Copy, Debug, PartialEq, Eq, Structural)]
pub enum Instrument {
    Counter,
    Gauge,
    Histogram,
}

/// A measured value. Durations are kept as whole microseconds; the
/// conversion to seconds is left to the recorder.
#[derive(Clone, Copy, Debug, PartialEq, Eq, Structural)]
pub enum Reading {
    Count(u64),
    Micros(u64),
}

/// One label of a measurement.
#[derive(Clone, Debug)]
pub struct Label {
    pub key: String,
    pub value: String,
}

impl View for Label {
    type V = (Seq<char>, Seq<char>);

    open spec fn view(&self) -> (Seq<char>, Seq<char>) {
        (self.key@, self.value@)
    }
}

/// One measurement to record.
#[derive(Clone, Debug)]
pub struct Measurement {
    pub metric: Metric,
    pub instrument: Instrument,
    pub reading: Reading,
    pub labels: Vec<Label>,
}

/// The mathematical content of a [`Measurement`].
pub struct MeasurementView {
    pub metric: Metric,
    pub instrument: Instrument,
    pub reading: Reading,
    pub labels: Seq<(Seq<char>, Seq<char>)>,
}

/// The labels of a list as pairs of texts.
pub open spec fn label_list(labels: Seq<Label>) -> Seq<(Seq<char>, Seq<char>)> {
    Seq::new(labels.len(), |i: int| labels[i]@)
}

impl View for Measurement {
    type V = MeasurementView;

    open spec fn view(&self) -> MeasurementView {
        MeasurementView {
            metric: self.metric,
            instrument: self.instrument,
            reading: self.reading,
            labels: label_list(self.labels@),
        }
    }
}

/// The class of an HTTP status code: `1xx` to `5xx` by its hundreds, `other`
/// for a code outside 100 to 599.
pub open spec fn status_class_text(status: int) -> Seq<char> {
    if 100 <= status < 200 {
        "1xx"@
    } else if 200 <= status < 300 {
        "2xx"@
    } else if 300 <= status < 400 {
        "3xx"@
    } else if 400 <= status < 500 {
        "4xx"@
    } else if 500 <= status < 600 {
        "5xx"@
    } else {
        "other"@
    }
}

/// The labels of a request's measurements: its route and the class of its
/// status.
pub open spec fn request_label_list(route: Seq<char>, status: int) -> Seq<(Seq<char>, Seq<char>)> {
    seq![("route"@, route), ("status_class"@, status_class_text(status))]
}

/// The measurements of one completed request: one increment of the request
/// count and one observation of the duration, under the same labels.
pub open spec fn request_measurement_list(
    route: Seq<char>,
    status: int,
    elapsed_micros: int,
) -> Seq<MeasurementView> {
    seq![
        MeasurementView {
            metric: Metric::HttpRequestsTotal,
            instrument: Instrument::Counter,
            reading: Reading::Count(1),
            labels: request_label_list(route, status),
        },
        MeasurementView {
            metric: Metric::HttpRequestsDurationSeconds,
            instrument: Instrument::Histogram,
            reading: Reading::Micros(elapsed_micros as u64),
            labels: request_label_list(route, status),
        },
    ]
}

/// The views of a list of measurements.
pub open spec fn measurement_list(measurements: Seq<Measurement>) -> Seq<MeasurementView> {
    Seq::new(measurements.len(), |i: int| measurements[i]@)
}

/// Classifies a status code by its hundreds.
pub fn status_class(status: u16) -> (class: &'static str)
    ensures
        class@ == status_class_text(status as int),
{
    if 100 <= status && status < 200 {
        "1xx"
    } else if 200 <= status && status < 300 {
        "2xx"
    } else if 300 <= status && status < 400 {
        "3xx"
    } else if 400 <= status && status < 500 {
        "4xx"
    } else if 500 <= status && status < 600 {
        "5xx"
    } else {
        "other"
    }
}

/// The labels under which a request is counted.
pub fn request_labels(route: &str, status: u16) -> (labels: Vec<Label>)
    ensures
        label_list(labels@) == request_label_list(route@, status as int),
{
    let mut labels: Vec<Label> = Vec::new();
    labels.push(Label { key: String::from_str("route"), value: String::from_str(route) });
    labels.push(
        Label {
            key: String::from_str("status_class"),
            value: String::from_str(status_class(status)),
        },
    );
    assert(label_list(labels@) =~= request_label_list(route@, status as int));
    labels
}

/// What to record for a request that completed with `status` on `route`
/// after `elapsed_micros` microseconds.
pub fn request_measurements(route: &str, status: u16, elapsed_micros: u64) -> (measurements: Vec<
    Measurement,
>)
    ensures
        measurement_list(measurements@) == request_measurement_list(
            route@,
            status as int,
            elapsed_micros as int,
        ),
{
    let mut measurements: Vec<Measurement> = Vec::new();
    measurements.push(
        Measurement {
            metric: Metric::HttpRequestsTotal,
            instrument: Instrument::Counter,
            reading: Reading::Count(1),
            labels: request_labels(route, status),
        },
    );
    measurements.push(
        Measurement {
            metric: Metric::HttpRequestsDurationSeconds,
            instrument: Instrument::Histogram,
            reading: Reading::Micros(elapsed_micros),
            labels: request_labels(route, status),
        },
    );
    assert(measurement_list(measurements@) =~= request_measurement_list(
        route@,
        status as int,
        elapsed_micros as int,
    ));
    measurements
}

} // verus!
