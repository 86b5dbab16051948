use starlight_axum::headers::{find_header, redact_headers, set_header, Header};
use starlight_axum::middleware::{make_span, on_failure, on_response, FailureClass};
use starlight_axum::propagation::{accept_context, extract, inject, SpanContext};
use starlight_axum::request::RequestHead;

const TRACE: u128 = 0x4bf9_2f35_77b3_4da6_a3ce_929d_0e0e_4736;
const SPAN: u64 = 0x00f0_67aa_0ba9_02b7;

fn head_with(headers: Vec<Header>) -> RequestHead {
    RequestHead {
        method: "GET".to_string(),
        path: "/orders".to_string(),
        query: None,
        version: "HTTP/1.1".to_string(),
        headers,
        peer: None,
    }
}

#[test]
fn inject_writes_the_traceparent_field() {
    let mut headers = vec![Header::new("accept", "*/*")];
    inject(&SpanContext { trace_id: TRACE, span_id: SPAN, sampled: true }, &mut headers);
    assert_eq!(headers.len(), 2);
    assert_eq!(headers[0].name, "accept");
    assert_eq!(headers[1].name, "traceparent");
    assert_eq!(headers[1].value, "00-4bf92f3577b34da6a3ce929d0e0e4736-00f067aa0ba902b7-01");
}

#[test]
fn inject_pads_identifiers_and_clears_the_flag() {
    let mut headers = Vec::new();
    inject(&SpanContext { trace_id: 42, span_id: 42, sampled: false }, &mut headers);
    assert_eq!(headers.len(), 1);
    assert_eq!(headers[0].value, "00-0000000000000000000000000000002a-000000000000002a-00");
}

#[test]
fn inject_replaces_an_earlier_field() {
    let mut headers = vec![
        Header::new("Traceparent", "stale"),
        Header::new("accept", "*/*"),
        Header::new("traceparent", "staler"),
    ];
    inject(&SpanContext { trace_id: 1, span_id: 2, sampled: true }, &mut headers);
    assert_eq!(headers.len(), 2);
    assert_eq!(headers[0].name, "accept");
    assert_eq!(headers[1].value, "00-00000000000000000000000000000001-0000000000000002-01");
}

#[test]
fn inject_of_an_invalid_context_changes_nothing() {
    let mut headers = vec![Header::new("accept", "*/*")];
    inject(&SpanContext { trace_id: 0, span_id: SPAN, sampled: true }, &mut headers);
    assert_eq!(headers.len(), 1);
    inject(&SpanContext { trace_id: TRACE, span_id: 0, sampled: true }, &mut headers);
    assert_eq!(headers.len(), 1);
    assert_eq!(headers[0].name, "accept");
}

#[test]
fn extract_reads_what_inject_wrote() {
    let context = SpanContext { trace_id: TRACE, span_id: SPAN, sampled: true };
    let mut headers = vec![Header::new("accept", "*/*")];
    inject(&context, &mut headers);
    assert_eq!(extract(&headers), Some(context));
    let unsampled = SpanContext { trace_id: 7, span_id: 9, sampled: false };
    let mut headers = Vec::new();
    inject(&unsampled, &mut headers);
    assert_eq!(extract(&headers), Some(unsampled));
}

#[test]
fn extract_without_the_field_gives_none() {
    assert_eq!(extract(&Vec::new()), None);
    assert_eq!(extract(&vec![Header::new("accept", "*/*")]), None);
}

#[test]
fn extract_of_a_malformed_field_gives_none() {
    for value in [
        "",
        "garbage",
        "00-4bf92f3577b34da6a3ce929d0e0e4736-00f067aa0ba902b7",
        "00-00000000000000000000000000000000-00f067aa0ba902b7-01",
        "00-4bf92f3577b34da6a3ce929d0e0e4736-0000000000000000-01",
        "00-4BF92F3577B34DA6A3CE929D0E0E4736-00f067aa0ba902b7-01",
        "ff-4bf92f3577b34da6a3ce929d0e0e4736-00f067aa0ba902b7-01",
    ] {
        assert_eq!(extract(&vec![Header::new("traceparent", value)]), None, "{}", value);
    }
}

#[test]
fn extract_ignores_the_case_of_the_field_name_and_takes_the_first() {
    let headers = vec![
        Header::new("TraceParent", "00-4bf92f3577b34da6a3ce929d0e0e4736-00f067aa0ba902b7-00"),
        Header::new("traceparent", "00-00000000000000000000000000000001-0000000000000002-01"),
    ];
    assert_eq!(extract(&headers), Some(SpanContext { trace_id: TRACE, span_id: SPAN, sampled: false }));
}

#[test]
fn accept_context_keeps_valid_contexts_only() {
    let valid = SpanContext { trace_id: 1, span_id: 1, sampled: false };
    assert_eq!(accept_context(valid), Some(valid));
    assert_eq!(accept_context(SpanContext { trace_id: 0, span_id: 1, sampled: true }), None);
    assert_eq!(accept_context(SpanContext { trace_id: 1, span_id: 0, sampled: true }), None);
    assert!(valid.is_valid());
}

#[test]
fn span_of_a_request_without_context_is_a_root() {
    let span = make_span(&head_with(vec![Header::new("accept", "*/*")]));
    assert_eq!(span.name, "http.request");
    assert_eq!(span.parent, None);
    assert_eq!(span.method, "GET");
    assert_eq!(span.uri, "/orders");
    assert_eq!(span.version, "HTTP/1.1");
}

#[test]
fn span_of_a_request_with_context_continues_the_trace() {
    let span = make_span(&head_with(vec![
        Header::new("traceparent", "00-4bf92f3577b34da6a3ce929d0e0e4736-00f067aa0ba902b7-01"),
        Header::new("authorization", "Bearer secret-token"),
    ]));
    let parent = span.parent.unwrap();
    assert_eq!(parent.trace_id, TRACE);
    assert_eq!(parent.span_id, SPAN);
    assert!(parent.sampled);
    assert_eq!(span.headers[1].value, "****************************");
}

#[test]
fn response_is_recorded_with_status_and_latency() {
    let fields = on_response(200, 42_000);
    assert_eq!(fields.len(), 2);
    assert_eq!((fields[0].name.as_str(), fields[0].value.as_str()), ("http.status_code", "200"));
    assert_eq!((fields[1].name.as_str(), fields[1].value.as_str()), ("latency", "42000us"));
}

#[test]
fn failure_is_recorded_with_its_class() {
    let fields = on_failure(&FailureClass::StatusCode(503));
    assert_eq!(fields.len(), 1);
    assert_eq!((fields[0].name.as_str(), fields[0].value.as_str()), ("error", "Status code: 503"));
    let fields = on_failure(&FailureClass::Error("connection reset".to_string()));
    assert_eq!((fields[0].name.as_str(), fields[0].value.as_str()), ("error", "Error: connection reset"));
}

#[test]
fn header_lookup_and_update() {
    let headers = vec![
        Header::new("Accept", "text/html"),
        Header::new("accept", "*/*"),
        Header::new("host", "example.org"),
    ];
    assert_eq!(find_header(&headers, "ACCEPT"), Some("text/html".to_string()));
    assert_eq!(find_header(&headers, "cookie"), None);
    assert!(headers[0].is_named("accept"));
    assert!(!headers[0].is_named("accep"));
    let updated = set_header(&headers, "accept", "application/json");
    assert_eq!(updated.len(), 2);
    assert_eq!(updated[0].name, "host");
    assert_eq!(updated[1].name, "accept");
    assert_eq!(updated[1].value, "application/json");
    let copy = headers[2].duplicate();
    assert_eq!((copy.name.as_str(), copy.value.as_str()), ("host", "example.org"));
}

#[test]
fn redaction_masks_credentials_only() {
    let headers = vec![
        Header::new("Authorization", "Bearer secret-token"),
        Header::new("accept", "*/*"),
        Header::new("authorization", "Basic dXNlcjpwYXNz"),
    ];
    let shown = redact_headers(&headers);
    assert_eq!(shown.len(), 3);
    assert_eq!(shown[0].name, "Authorization");
    assert_eq!(shown[0].value, "****************************");
    assert_eq!(shown[1].value, "*/*");
    assert_eq!(shown[2].value, "****************************");
}
