use starlight_axum::meter::{
    request_labels, request_measurements, status_class, Instrument, Metric, Reading,
};
use starlight_axum::oltp::{
    get_env_or_default, log_directive, log_directory, require_env, shutdown_oltp, ShutdownAction,
    ShutdownEvent, METRIC_EXPORT_INTERVAL_SECONDS,
};
use starlight_axum::path::trim_slash_path;
use starlight_axum::registry::{InitPlan, ProviderRegistry, SignalKind};
use starlight_axum::resource::get_resource;

fn complete_registry() -> ProviderRegistry<u32> {
    let mut registry = ProviderRegistry::new();
    assert!(registry.install(SignalKind::Trace, "http://collector:4317", 1));
    assert!(registry.install(SignalKind::Log, "http://collector:4317", 2));
    assert!(registry.install(SignalKind::Metric, "http://collector:4317", 3));
    registry
}

#[test]
fn a_new_registry_holds_nothing() {
    let registry: ProviderRegistry<u32> = ProviderRegistry::new();
    for kind in [SignalKind::Trace, SignalKind::Metric, SignalKind::Log] {
        assert!(!registry.has_provider(kind));
        assert!(registry.find_provider(kind).is_none());
        assert!(!registry.is_shut_down(kind));
        assert_eq!(registry.plan_init(kind, "http://collector:4317"), InitPlan::Build);
    }
    assert!(!registry.is_complete());
}

#[test]
fn the_first_provider_of_a_kind_wins() {
    let mut registry: ProviderRegistry<String> = ProviderRegistry::new();
    assert!(registry.install(SignalKind::Trace, "http://a:4317", "first".to_string()));
    assert!(!registry.install(SignalKind::Trace, "http://a:4317", "second".to_string()));
    assert!(!registry.install(SignalKind::Trace, "http://b:4317", "third".to_string()));
    assert_eq!(registry.get_provider(SignalKind::Trace), "first");
    assert_eq!(registry.find_provider(SignalKind::Trace), Some(&"first".to_string()));
    assert!(!registry.has_provider(SignalKind::Metric));
    assert!(!registry.has_provider(SignalKind::Log));
}

#[test]
fn both_calls_see_the_identical_instance() {
    let mut registry: ProviderRegistry<std::rc::Rc<u8>> = ProviderRegistry::new();
    let built = std::rc::Rc::new(7);
    registry.install(SignalKind::Metric, "http://a:4317", built.clone());
    let first = registry.get_provider(SignalKind::Metric).clone();
    registry.install(SignalKind::Metric, "http://a:4317", std::rc::Rc::new(7));
    let second = registry.get_provider(SignalKind::Metric).clone();
    assert!(std::rc::Rc::ptr_eq(&first, &second));
    assert!(std::rc::Rc::ptr_eq(&first, &built));
}

#[test]
fn a_provider_that_was_shut_down_stays_in_the_registry() {
    let mut registry: ProviderRegistry<u32> = ProviderRegistry::new();
    assert!(!registry.is_shut_down(SignalKind::Trace));
    registry.install(SignalKind::Trace, "http://a:4317", 1);
    assert!(!registry.is_shut_down(SignalKind::Trace));
    registry.shutdown_provider(SignalKind::Trace);
    assert!(registry.is_shut_down(SignalKind::Trace));
    assert_eq!(registry.find_provider(SignalKind::Trace), Some(&1));
    assert!(!registry.install(SignalKind::Trace, "http://a:4317", 2));
    assert_eq!(*registry.get_provider(SignalKind::Trace), 1);
}

#[test]
fn a_later_endpoint_is_reported_and_not_used() {
    let mut registry: ProviderRegistry<u32> = ProviderRegistry::new();
    registry.install(SignalKind::Log, "http://a:4317", 1);
    assert_eq!(registry.plan_init(SignalKind::Log, "http://a:4317"), InitPlan::Reuse);
    assert_eq!(registry.plan_init(SignalKind::Log, "http://b:4317"), InitPlan::ReuseOtherEndpoint);
    assert_eq!(registry.plan_init(SignalKind::Trace, "http://b:4317"), InitPlan::Build);
}

#[test]
fn shutdown_closes_tracer_then_meter_then_logger() {
    let mut registry = complete_registry();
    assert!(registry.is_complete());
    let mut order = Vec::new();
    let mut action = shutdown_oltp(&mut registry, ShutdownEvent::Begin);
    loop {
        match action {
            ShutdownAction::Close(kind) => {
                assert!(!registry.is_shut_down(kind));
                order.push(kind);
                action = shutdown_oltp(&mut registry, ShutdownEvent::Closed(kind));
                assert!(registry.is_shut_down(kind));
            }
            ShutdownAction::Complete => break,
            ShutdownAction::Incomplete(kind, reason) => panic!("{:?}: {}", kind, reason),
        }
    }
    assert_eq!(order, vec![SignalKind::Trace, SignalKind::Metric, SignalKind::Log]);
    assert_eq!(*registry.get_provider(SignalKind::Trace), 1);
}

#[test]
fn shutdown_goes_on_after_a_failure() {
    let mut registry = complete_registry();
    let first = shutdown_oltp(&mut registry, ShutdownEvent::Begin);
    assert!(matches!(first, ShutdownAction::Close(SignalKind::Trace)));
    let second = shutdown_oltp(
        &mut registry,
        ShutdownEvent::Failed(SignalKind::Trace, "collector unreachable".to_string()),
    );
    assert!(matches!(second, ShutdownAction::Close(SignalKind::Metric)));
    let third = shutdown_oltp(&mut registry, ShutdownEvent::Closed(SignalKind::Metric));
    assert!(matches!(third, ShutdownAction::Close(SignalKind::Log)));
    let last = shutdown_oltp(&mut registry, ShutdownEvent::Closed(SignalKind::Log));
    match last {
        ShutdownAction::Incomplete(kind, reason) => {
            assert_eq!(kind, SignalKind::Trace);
            assert_eq!(reason, "collector unreachable");
        }
        _ => panic!("the failure was not reported"),
    }
    assert!(!registry.is_shut_down(SignalKind::Trace));
    assert!(registry.is_shut_down(SignalKind::Metric));
    assert!(registry.is_shut_down(SignalKind::Log));
}

#[test]
fn shutdown_reports_the_first_of_several_failures() {
    let mut registry = complete_registry();
    shutdown_oltp(&mut registry, ShutdownEvent::Begin);
    shutdown_oltp(&mut registry, ShutdownEvent::Closed(SignalKind::Trace));
    let after_meter = shutdown_oltp(
        &mut registry,
        ShutdownEvent::Failed(SignalKind::Metric, "meter stuck".to_string()),
    );
    assert!(matches!(after_meter, ShutdownAction::Close(SignalKind::Log)));
    let last = shutdown_oltp(
        &mut registry,
        ShutdownEvent::Failed(SignalKind::Log, "logger stuck".to_string()),
    );
    match last {
        ShutdownAction::Incomplete(kind, reason) => {
            assert_eq!(kind, SignalKind::Metric);
            assert_eq!(reason, "meter stuck");
        }
        _ => panic!("the failure was not reported"),
    }
    assert!(registry.is_shut_down(SignalKind::Trace));
    assert!(!registry.is_shut_down(SignalKind::Metric));
    assert!(!registry.is_shut_down(SignalKind::Log));
    assert_eq!(
        registry.first_failure(),
        Some((SignalKind::Metric, "meter stuck".to_string()))
    );
}

#[test]
fn a_later_close_clears_the_recorded_failure() {
    let mut registry = complete_registry();
    assert_eq!(registry.first_failure(), None);
    registry.record_close_failure(SignalKind::Log, "busy".to_string());
    assert_eq!(registry.first_failure(), Some((SignalKind::Log, "busy".to_string())));
    registry.record_close_failure(SignalKind::Trace, "down".to_string());
    assert_eq!(registry.first_failure(), Some((SignalKind::Trace, "down".to_string())));
    registry.shutdown_provider(SignalKind::Trace);
    assert_eq!(registry.first_failure(), Some((SignalKind::Log, "busy".to_string())));
    registry.shutdown_provider(SignalKind::Log);
    assert_eq!(registry.first_failure(), None);
}

#[test]
fn configured_values_and_defaults() {
    assert_eq!(get_env_or_default(Some("info".to_string()), "debug".to_string()), "info");
    assert_eq!(get_env_or_default(None, "debug".to_string()), "debug");
    assert_eq!(log_directive(None), "debug,axum_web_server=debug,tower_http=trace");
    assert_eq!(log_directive(Some("warn".to_string())), "warn");
    assert_eq!(log_directory(), ".logs");
    assert_eq!(METRIC_EXPORT_INTERVAL_SECONDS, 5);
}

#[test]
fn a_required_variable_that_is_not_set_is_named() {
    assert_eq!(
        require_env("CARGO_PKG_NAME", Some("orders".to_string())).unwrap(),
        "orders"
    );
    let missing = require_env("CARGO_PKG_NAME", None).unwrap_err();
    assert_eq!(missing.variable, "CARGO_PKG_NAME");
    assert_eq!(missing.message(), "CARGO_PKG_NAME is not set");
}

#[test]
fn get_or_init_builds_once() {
    let mut registry: ProviderRegistry<String> = ProviderRegistry::new();
    let mut built = 0;
    let first = registry
        .get_or_init_provider(SignalKind::Trace, "http://a:4317", || {
            built += 1;
            "first".to_string()
        })
        .clone();
    let second = registry
        .get_or_init_provider(SignalKind::Trace, "http://b:4317", || {
            built += 1;
            "second".to_string()
        })
        .clone();
    assert_eq!(first, "first");
    assert_eq!(second, "first");
    assert_eq!(built, 1);
    assert!(!registry.has_provider(SignalKind::Log));
}

#[test]
fn resource_defaults_to_development() {
    let resource = get_resource("orders", "1.2.3", None);
    assert_eq!(resource.service_name, "orders");
    assert_eq!(resource.service_version, "1.2.3");
    assert_eq!(resource.environment, "development");
    let resource = get_resource("orders", "1.2.3", Some("production".to_string()));
    assert_eq!(resource.environment, "production");
}

#[test]
fn the_catalogue_of_metrics() {
    assert_eq!(Metric::HttpRequestsTotal.name(), "http_requests_total");
    assert_eq!(Metric::HttpRequestsTotal.description(), "Total number of HTTP requests");
    assert_eq!(Metric::HttpRequestsTotal.unit(), "requests");
    assert_eq!(Metric::HttpRequestsDurationSeconds.name(), "http_requests_duration_seconds");
    assert_eq!(
        Metric::HttpRequestsDurationSeconds.description(),
        "Duration of HTTP requests in seconds"
    );
    assert_eq!(Metric::HttpRequestsDurationSeconds.unit(), "seconds");
}

#[test]
fn status_classes() {
    assert_eq!(status_class(100), "1xx");
    assert_eq!(status_class(199), "1xx");
    assert_eq!(status_class(200), "2xx");
    assert_eq!(status_class(204), "2xx");
    assert_eq!(status_class(301), "3xx");
    assert_eq!(status_class(404), "4xx");
    assert_eq!(status_class(500), "5xx");
    assert_eq!(status_class(599), "5xx");
    assert_eq!(status_class(600), "other");
    assert_eq!(status_class(99), "other");
    assert_eq!(status_class(0), "other");
}

#[test]
fn trailing_slashes_are_trimmed() {
    assert_eq!(trim_slash_path("/orders/"), "/orders");
    assert_eq!(trim_slash_path("/orders"), "/orders");
    assert_eq!(trim_slash_path("/orders///"), "/orders");
    assert_eq!(trim_slash_path("/a/b/"), "/a/b");
    assert_eq!(trim_slash_path("/"), "/");
    assert_eq!(trim_slash_path("///"), "/");
    assert_eq!(trim_slash_path("//orders"), "/orders");
    assert_eq!(trim_slash_path("//a//b//"), "/a//b");
    assert_eq!(trim_slash_path(""), "");
    assert_eq!(trim_slash_path("orders/"), "/orders");
    assert_eq!(trim_slash_path("/a//b"), "/a//b");
}

#[test]
fn a_request_with_trailing_slash_is_routed_and_measured_as_the_canonical_route() {
    let route = trim_slash_path("/orders/");
    assert_eq!(route, "/orders");
    let measurements = request_measurements(&route, 200, 42_000);
    assert_eq!(measurements.len(), 2);
    let count = &measurements[0];
    assert_eq!(count.metric, Metric::HttpRequestsTotal);
    assert_eq!(count.instrument, Instrument::Counter);
    assert_eq!(count.reading, Reading::Count(1));
    let duration = &measurements[1];
    assert_eq!(duration.metric, Metric::HttpRequestsDurationSeconds);
    assert_eq!(duration.instrument, Instrument::Histogram);
    assert_eq!(duration.reading, Reading::Micros(42_000));
    match duration.reading {
        Reading::Micros(micros) => assert!((micros as f64 / 1e6 - 0.042).abs() < 1e-9),
        Reading::Count(_) => panic!("a duration is no count"),
    }
    for measurement in &measurements {
        assert_eq!(measurement.labels.len(), 2);
        assert_eq!(measurement.labels[0].key, "route");
        assert_eq!(measurement.labels[0].value, "/orders");
        assert_eq!(measurement.labels[1].key, "status_class");
        assert_eq!(measurement.labels[1].value, "2xx");
    }
    let labels = request_labels("/orders", 404);
    assert_eq!(labels[1].value, "4xx");
}
