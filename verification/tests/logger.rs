use starlight_axum::headers::Header;
use starlight_axum::log_lines::{failure_log, request_log, response_log};
use starlight_axum::logger::{
    buffer_and_print_request, buffer_and_print_response, print_request_response, BodyRead,
    LoggerAction, LoggerEvent, LoggerState,
};
use starlight_axum::middleware::{
    apply_request_id, assign_request_id, common_middleware, make_span, propagate_request_id,
    request_id_header,
};
use starlight_axum::request::RequestHead;

fn head() -> RequestHead {
    RequestHead {
        method: "POST".to_string(),
        path: "/orders".to_string(),
        query: Some("limit=2".to_string()),
        version: "HTTP/1.1".to_string(),
        headers: vec![
            Header::new("user-agent", "curl/8.5.0"),
            Header::new("Authorization", "Bearer secret-token"),
            Header::new("forwarded", "for=192.0.2.60"),
        ],
        peer: Some("192.0.2.1".to_string()),
    }
}

fn receiving() -> LoggerState {
    LoggerState::ReceivingRequestBody { head: head() }
}

#[test]
fn request_is_logged_line_by_line() {
    let lines = request_log(&head(), "{\"item\":\"tea\"}");
    assert_eq!(
        lines,
        vec![
            "----- Start Request".to_string(),
            "headers: {user-agent: \"curl/8.5.0\", Authorization: \"****************************\", \
             forwarded: \"for=192.0.2.60\"}"
                .to_string(),
            "user-agent: \"curl/8.5.0\"".to_string(),
            "forwarded: \"for=192.0.2.60\"".to_string(),
            "ip: \"192.0.2.1\"".to_string(),
            "authorization: \"****************************\"".to_string(),
            "uri: POST /orders?limit=2".to_string(),
            "version: HTTP/1.1".to_string(),
            "request payload: \"{\\\"item\\\":\\\"tea\\\"}\"".to_string(),
        ]
    );
}

#[test]
fn request_without_optional_parts_is_logged_in_five_lines() {
    let bare = RequestHead {
        method: "GET".to_string(),
        path: "/".to_string(),
        query: None,
        version: "HTTP/2.0".to_string(),
        headers: Vec::new(),
        peer: None,
    };
    let lines = request_log(&bare, "");
    assert_eq!(
        lines,
        vec![
            "----- Start Request".to_string(),
            "headers: {}".to_string(),
            "uri: GET /".to_string(),
            "version: HTTP/2.0".to_string(),
            "request payload: \"\"".to_string(),
        ]
    );
}

#[test]
fn credentials_never_reach_the_log() {
    let lines = request_log(&head(), "");
    assert!(lines.iter().all(|line| !line.contains("secret-token")));
    assert!(lines.iter().any(|line| line.contains("****************************")));
    let mut other = head();
    other.headers[1].value = "Basic b3RoZXI6c2VjcmV0".to_string();
    assert_eq!(request_log(&other, ""), lines);
}

#[test]
fn response_is_logged_with_the_closing_line() {
    let lines = response_log("ok\n", 42);
    assert_eq!(
        lines,
        vec![
            "response payload: \"ok\\n\"".to_string(),
            "----- END Request in 42 ms".to_string(),
        ]
    );
}

#[test]
fn body_is_logged_as_lossy_text() {
    let (_, action) =
        buffer_and_print_response(BodyRead::Complete(vec![b'o', b'k', 0xff, b'!']), 42);
    match action {
        LoggerAction::Log(lines) => assert_eq!(lines[0], "response payload: \"ok\u{fffd}!\""),
        _ => panic!("the response was not logged"),
    }
    let (_, action) = buffer_and_print_response(
        BodyRead::Complete("gr\u{fc}n \u{2713}".as_bytes().to_vec()),
        42,
    );
    match action {
        LoggerAction::Log(lines) => {
            assert_eq!(lines[0], "response payload: \"gr\u{fc}n \u{2713}\"")
        }
        _ => panic!("the response was not logged"),
    }
}

#[test]
fn a_request_passes_through_all_states() {
    let request_body: Vec<u8> = (0..=255).collect();
    let response_body: Vec<u8> = (0..=255).rev().collect();

    let (state, action) = print_request_response(
        receiving(),
        LoggerEvent::RequestBody { read: BodyRead::Complete(request_body.clone()), elapsed_ms: 1 },
    );
    assert!(matches!(state, LoggerState::LoggedRequest { .. }));
    match action {
        LoggerAction::Log(lines) => assert_eq!(
            lines,
            request_log(&head(), &String::from_utf8_lossy(&request_body))
        ),
        _ => panic!("the request was not logged"),
    }

    let (state, action) = print_request_response(state, LoggerEvent::Proceed);
    assert!(matches!(state, LoggerState::DelegatedToHandler));
    match action {
        LoggerAction::Forward(body) => assert_eq!(body, request_body),
        _ => panic!("the request was not forwarded"),
    }

    let (state, action) = print_request_response(state, LoggerEvent::HandlerReturned);
    assert!(matches!(state, LoggerState::ReceivingResponseBody));
    assert!(matches!(action, LoggerAction::ReadResponseBody));

    let (state, action) = print_request_response(
        state,
        LoggerEvent::ResponseBody { read: BodyRead::Complete(response_body.clone()), elapsed_ms: 42 },
    );
    assert!(matches!(state, LoggerState::LoggedResponse { .. }));
    match action {
        LoggerAction::Log(lines) => {
            assert_eq!(lines, response_log(&String::from_utf8_lossy(&response_body), 42));
            assert_eq!(lines.last().unwrap(), "----- END Request in 42 ms");
        }
        _ => panic!("the response was not logged"),
    }

    let (state, action) = print_request_response(state, LoggerEvent::Proceed);
    assert!(matches!(state, LoggerState::Complete));
    match action {
        LoggerAction::Respond(body) => assert_eq!(body, response_body),
        _ => panic!("the response was not handed on"),
    }

    let (state, action) = print_request_response(state, LoggerEvent::Proceed);
    assert!(matches!(state, LoggerState::Complete));
    assert!(matches!(action, LoggerAction::Abandon));
}

#[test]
fn a_request_body_that_breaks_off_is_rejected() {
    let (state, action) = print_request_response(
        receiving(),
        LoggerEvent::RequestBody {
            read: BodyRead::Failed("connection reset after 10 of 50 bytes".to_string()),
            elapsed_ms: 7,
        },
    );
    assert!(matches!(state, LoggerState::Failed));
    match action {
        LoggerAction::Reject { status, message, log } => {
            assert_eq!(status, 400);
            assert_eq!(message, "failed to read request body");
            assert_eq!(
                log,
                vec!["----- END Request in 7 ms: failed to read request body: \"connection \
                      reset after 10 of 50 bytes\""
                    .to_string()]
            );
        }
        _ => panic!("the request was not rejected"),
    }
    for event in [LoggerEvent::Proceed, LoggerEvent::HandlerReturned, LoggerEvent::Cancelled] {
        let (state, action) = print_request_response(LoggerState::Failed, event);
        assert!(matches!(state, LoggerState::Failed));
        assert!(matches!(action, LoggerAction::Abandon));
    }
}

#[test]
fn a_response_body_that_breaks_off_is_rejected() {
    let (state, action) =
        buffer_and_print_response(BodyRead::Failed("broken pipe".to_string()), 1234);
    assert!(matches!(state, LoggerState::Failed));
    match action {
        LoggerAction::Reject { status, message, log } => {
            assert_eq!(status, 400);
            assert_eq!(message, "failed to parse response body");
            assert_eq!(
                log,
                vec!["----- END Request in 1234 ms: failed to parse response body: \"broken pipe\""
                    .to_string()]
            );
        }
        _ => panic!("the response was not rejected"),
    }
}

#[test]
fn the_two_halves_agree_with_the_machine() {
    let (state, action) =
        buffer_and_print_request(&head(), BodyRead::Complete(b"abc".to_vec()), 3);
    match (state, action) {
        (LoggerState::LoggedRequest { body }, LoggerAction::Log(lines)) => {
            assert_eq!(body, b"abc".to_vec());
            assert_eq!(lines.last().unwrap(), "request payload: \"abc\"");
        }
        _ => panic!("the request was not logged"),
    }
    let (state, action) = buffer_and_print_response(BodyRead::Complete(b"xyz".to_vec()), 3);
    match (state, action) {
        (LoggerState::LoggedResponse { body }, LoggerAction::Log(lines)) => {
            assert_eq!(body, b"xyz".to_vec());
            assert_eq!(lines[0], "response payload: \"xyz\"");
        }
        _ => panic!("the response was not logged"),
    }
}

#[test]
fn cancellation_and_unexpected_events_abandon_the_request() {
    let (state, action) = print_request_response(receiving(), LoggerEvent::Cancelled);
    assert!(matches!(state, LoggerState::Failed));
    assert!(matches!(action, LoggerAction::Abandon));
    let (state, action) = print_request_response(receiving(), LoggerEvent::HandlerReturned);
    assert!(matches!(state, LoggerState::Failed));
    assert!(matches!(action, LoggerAction::Abandon));
    let (state, action) = print_request_response(
        LoggerState::LoggedRequest { body: vec![1, 2, 3] },
        LoggerEvent::Cancelled,
    );
    assert!(matches!(state, LoggerState::Failed));
    assert!(matches!(action, LoggerAction::Abandon));
    let (state, action) = print_request_response(
        LoggerState::DelegatedToHandler,
        LoggerEvent::ResponseBody { read: BodyRead::Complete(Vec::new()), elapsed_ms: 0 },
    );
    assert!(matches!(state, LoggerState::Failed));
    assert!(matches!(action, LoggerAction::Abandon));
}

#[test]
fn an_inbound_request_id_is_kept_and_echoed() {
    assert_eq!(request_id_header(), "x-request-id");
    let mut request = vec![Header::new("X-Request-Id", "abc-123"), Header::new("accept", "*/*")];
    let id = assign_request_id(&mut request);
    assert_eq!(id, Some("abc-123".to_string()));
    assert_eq!(request.len(), 2);
    assert_eq!(request[0].value, "abc-123");
    let mut response = vec![Header::new("x-request-id", "from-handler")];
    propagate_request_id(&id, &mut response);
    assert_eq!(response.len(), 1);
    assert_eq!(response[0].name, "x-request-id");
    assert_eq!(response[0].value, "abc-123");
}

#[test]
fn a_missing_request_id_is_generated_and_echoed() {
    let mut request = vec![Header::new("accept", "*/*")];
    let id = assign_request_id(&mut request).unwrap();
    assert_eq!(id.len(), 36);
    assert_eq!(request.len(), 2);
    assert_eq!(request[1].name, "x-request-id");
    assert_eq!(request[1].value, id);
    let mut response = Vec::new();
    propagate_request_id(&Some(id.clone()), &mut response);
    assert_eq!(response[0].value, id);
    let mut second = vec![Header::new("accept", "*/*")];
    assert_ne!(assign_request_id(&mut second).unwrap(), id);
}

#[test]
fn apply_request_id_prefers_the_inbound_identifier() {
    let mut request = vec![Header::new("x-request-id", "inbound")];
    assert_eq!(
        apply_request_id(&mut request, Some("fresh".to_string())),
        Some("inbound".to_string())
    );
    assert_eq!(request.len(), 1);
    let mut request = Vec::new();
    assert_eq!(apply_request_id(&mut request, Some("fresh".to_string())), Some("fresh".to_string()));
    assert_eq!(request[0].value, "fresh");
    let mut request = vec![Header::new("accept", "*/*")];
    assert_eq!(apply_request_id(&mut request, None), None);
    assert_eq!(request.len(), 1);
    let mut response = vec![Header::new("accept", "*/*")];
    propagate_request_id(&None, &mut response);
    assert_eq!(response.len(), 1);
}

#[test]
fn the_first_two_stages_identify_and_normalize() {
    let mut request = RequestHead {
        method: "GET".to_string(),
        path: "/orders/".to_string(),
        query: Some("limit=2".to_string()),
        version: "HTTP/1.1".to_string(),
        headers: vec![Header::new("x-request-id", "abc-123")],
        peer: None,
    };
    let id = common_middleware(&mut request);
    assert_eq!(id, Some("abc-123".to_string()));
    assert_eq!(request.path, "/orders");
    assert_eq!(request.query, Some("limit=2".to_string()));
    assert_eq!(request.target(), "/orders?limit=2");
    assert_eq!(request.headers.len(), 1);
    let span = make_span(&request);
    assert_eq!(span.uri, "/orders?limit=2");

    let mut request = RequestHead {
        method: "GET".to_string(),
        path: "/orders".to_string(),
        query: None,
        version: "HTTP/1.1".to_string(),
        headers: Vec::new(),
        peer: None,
    };
    let id = common_middleware(&mut request).unwrap();
    assert_eq!(id.len(), 36);
    assert_eq!(request.path, "/orders");
    assert_eq!(request.target(), "/orders");
    assert_eq!(request.headers.len(), 1);
    assert_eq!(request.headers[0].name, "x-request-id");
    assert_eq!(request.headers[0].value, id);
}

#[test]
fn nothing_a_client_sends_can_forge_a_line() {
    let mut request = head();
    request.headers.push(Header::new("x-note", "first\n----- END Request in 0 ms"));
    request.peer = Some("192.0.2.1\nforged".to_string());
    let lines = request_log(&request, "payload\r\nforged line");
    assert!(lines.iter().all(|line| !line.contains('\n')));
    assert_eq!(lines.last().unwrap(), "request payload: \"payload\\r\\nforged line\"");
    let lines = failure_log(3, "failed to read request body", "reset\nforged");
    assert_eq!(
        lines,
        vec!["----- END Request in 3 ms: failed to read request body: \"reset\\nforged\""
            .to_string()]
    );
}
