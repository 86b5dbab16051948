//! The decisions of the instrumentation middleware stages that surround a
//! request: which request identifier it bears, under which span it runs, and
//! what is recorded on that span when it ends.

use tower_http::request_id::MakeRequestId;
use vstd::prelude::*;
use crate::headers::{
    find_header, first_value, header_list, lemma_lookup_ignores_credentials,
    lemma_redaction_hides_credentials, lemma_set_then_find, redact_headers, redacted, set_header,
    with_header, Header, HeaderView,
};
use crate::propagation::{carries, extract, propagated, traceparent_name, SpanContext};
use crate::path::{normalized_path, trim_slash_path};
use crate::request::{same_but_credentials_head, target_text, RequestHead, RequestHeadView};
use crate::text::{decimal, decimal_string};

verus! {

/// The name of the header field that carries the request identifier.
pub open spec fn request_id_name() -> Seq<char> {
    "x-request-id"@
}

/// The name of the header field that carries the request identifier.
pub fn request_id_header() -> (name: &'static str)
    ensures
        name@ == request_id_name(),
{
    "x-request-id"
}

/// Calls `tower_http`'s `MakeRequestUuid::make_request_id`, which draws a
/// random UUID, on an empty request, and copies the identifier's text. The
/// text differs from call to call; what holds of every call is that there is
/// one, the hyphenated form of a UUID with its 36 characters.
#[verifier::external_body]
fn fresh_request_id() -> (id: Option<String>)
    ensures
        match id {
            Some(text) => text@.len() == 36,
            None => false,
        },
{
    let request = axum::http::Request::new(());
    let made = tower_http::request_id::MakeRequestUuid.make_request_id(&request)?;
    made.header_value().to_str().ok().map(|text| text.to_string())
}

/// The identifier of a request: the one it came with, else the fresh one.
pub open spec fn chosen_request_id(
    inbound: Option<Seq<char>>,
    fresh: Option<Seq<char>>,
) -> Option<Seq<char>> {
    match inbound {
        Some(id) => Some(id),
        None => fresh,
    }
}

/// The headers of a request after identifier assignment: untouched where
/// the request came with an identifier or none could be made, else with the
/// fresh identifier set.
pub open spec fn with_request_id(
    headers: Seq<HeaderView>,
    fresh: Option<Seq<char>>,
) -> Seq<HeaderView> {
    match (first_value(headers, request_id_name()), fresh) {
        (None, Some(id)) => with_header(headers, request_id_name(), id),
        _ => headers,
    }
}

/// The headers of a response after the request's identifier was propagated
/// to it.
pub open spec fn with_propagated_id(
    response: Seq<HeaderView>,
    request_id: Option<Seq<char>>,
) -> Seq<HeaderView> {
    match request_id {
        Some(id) => with_header(response, request_id_name(), id),
        None => response,
    }
}

/// The view of a text that may be absent.
pub open spec fn id_view(id: Option<String>) -> Option<Seq<char>> {
    match id {
        Some(text) => Some(text@),
        None => None,
    }
}

/// Gives the request the identifier `fresh` unless it came with one, and
/// returns the identifier that it then bears.
pub fn apply_request_id(headers: &mut Vec<Header>, fresh: Option<String>) -> (id: Option<String>)
    ensures
        header_list(final(headers)@) == with_request_id(header_list(old(headers)@), id_view(fresh)),
        id_view(id) == chosen_request_id(
            first_value(header_list(old(headers)@), request_id_name()),
            id_view(fresh),
        ),
{
    match find_header(headers, "x-request-id") {
        Some(inbound) => Some(inbound),
        None => match fresh {
            Some(made) => {
                let updated = set_header(headers, "x-request-id", made.as_str());
                *headers = updated;
                Some(made)
            },
            None => None,
        },
    }
}

/// Request-identifier assignment: a request that comes with an identifier
/// keeps it and is left as it is; one that comes without is given a newly
/// generated identifier, the 36 characters of a UUID, under the
/// request-identifier field. The result is the identifier that the request
/// bears afterwards, and there always is one.
pub fn assign_request_id(headers: &mut Vec<Header>) -> (id: Option<String>)
    ensures
        id is Some,
        first_value(header_list(final(headers)@), request_id_name()) == id_view(id),
        first_value(header_list(old(headers)@), request_id_name()) is None ==> id_view(
            id,
        ).unwrap().len() == 36,
        match first_value(header_list(old(headers)@), request_id_name()) {
            Some(inbound) => id_view(id) == Some(inbound) && header_list(final(headers)@)
                == header_list(old(headers)@),
            None => header_list(final(headers)@) == with_request_id(
                header_list(old(headers)@),
                id_view(id),
            ),
        },
{
    match find_header(headers, "x-request-id") {
        Some(inbound) => Some(inbound),
        None => {
            let fresh = fresh_request_id();
            proof {
                lemma_set_then_find(
                    header_list(headers@),
                    request_id_name(),
                    id_view(fresh).unwrap(),
                );
            }
            apply_request_id(headers, fresh)
        },
    }
}

/// Request-identifier propagation: the response is given the request's
/// identifier under the same field name, in place of any value that the
/// field had.
pub fn propagate_request_id(request_id: &Option<String>, response: &mut Vec<Header>)
    ensures
        header_list(final(response)@) == with_propagated_id(
            header_list(old(response)@),
            id_view(*request_id),
        ),
{
    match request_id {
        Some(id) => {
            let updated = set_header(response, "x-request-id", id.as_str());
            *response = updated;
        },
        None => {},
    }
}

/// The identifier that a response shows is the one that the request came
/// with: for a request that bears an identifier, assignment keeps it, and
/// after propagation the response's request-identifier field holds it,
/// whatever the handler put there and whatever a generator would have made.
pub proof fn lemma_response_echoes_inbound_id(
    request: Seq<HeaderView>,
    inbound: Seq<char>,
    fresh: Option<Seq<char>>,
    response: Seq<HeaderView>,
)
    requires
        first_value(request, request_id_name()) == Some(inbound),
    ensures
        with_request_id(request, fresh) == request,
        chosen_request_id(first_value(request, request_id_name()), fresh) == Some(inbound),
        first_value(with_propagated_id(response, Some(inbound)), request_id_name()) == Some(
            inbound,
        ),
{
    lemma_set_then_find(response, request_id_name(), inbound);
}

/// The identifier that a response shows for a request that came without
/// one is the generated identifier, and the handler saw the same.
pub proof fn lemma_response_echoes_generated_id(
    request: Seq<HeaderView>,
    fresh: Seq<char>,
    response: Seq<HeaderView>,
)
    requires
        first_value(request, request_id_name()) is None,
    ensures
        first_value(with_request_id(request, Some(fresh)), request_id_name()) == Some(fresh),
        first_value(with_propagated_id(response, Some(fresh)), request_id_name()) == Some(fresh),
{
    lemma_set_then_find(request, request_id_name(), fresh);
    lemma_set_then_find(response, request_id_name(), fresh);
}

/// A request after the two stages that come first, in their order:
/// identifier assignment with the fresh identifier `fresh`, then path
/// normalization.
pub open spec fn prepared(head: RequestHeadView, fresh: Option<Seq<char>>) -> RequestHeadView {
    let identified = RequestHeadView { headers: with_request_id(head.headers, fresh), ..head };
    RequestHeadView { path: normalized_path(identified.path), ..identified }
}

/// The first two stages of the stack on the way in: the request is given an
/// identifier unless it came with one, then its path is mapped onto the
/// canonical form. The result is the identifier that the request bears.
pub fn common_middleware(head: &mut RequestHead) -> (id: Option<String>)
    ensures
        id is Some,
        first_value(final(head)@.headers, request_id_name()) == id_view(id),
        first_value(old(head)@.headers, request_id_name()) is None ==> id_view(id).unwrap().len()
            == 36,
        match first_value(old(head)@.headers, request_id_name()) {
            Some(inbound) => id_view(id) == Some(inbound) && final(head)@ == prepared(
                old(head)@,
                None,
            ),
            None => final(head)@ == prepared(old(head)@, id_view(id)),
        },
{
    let id = assign_request_id(&mut head.headers);
    let path = trim_slash_path(head.path.as_str());
    head.path = path;
    id
}

/// What a span is started with.
#[derive(Clone, Debug)]
pub struct SpanStart {
    pub name: String,
    /// The propagated context under which the span runs; a span without one
    /// is the root of a new trace.
    pub parent: Option<SpanContext>,
    pub method: String,
    pub uri: String,
    pub version: String,
    /// The request's header fields as they may be shown.
    pub headers: Vec<Header>,
}

/// The mathematical content of a [`SpanStart`].
pub struct SpanStartView {
    pub name: Seq<char>,
    pub parent: Option<SpanContext>,
    pub method: Seq<char>,
    pub uri: Seq<char>,
    pub version: Seq<char>,
    pub headers: Seq<HeaderView>,
}

impl View for SpanStart {
    type V = SpanStartView;

    open spec fn view(&self) -> SpanStartView {
        SpanStartView {
            name: self.name@,
            parent: self.parent,
            method: self.method@,
            uri: self.uri@,
            version: self.version@,
            headers: header_list(self.headers@),
        }
    }
}

/// The span of a request: named `http.request`, child of the context that
/// the request's headers propagate or root where they propagate none, with
/// method, target and version as the request has them and the headers
/// redacted.
pub open spec fn span_start(head: RequestHeadView) -> SpanStartView {
    SpanStartView {
        name: "http.request"@,
        parent: propagated(head.headers),
        method: head.method,
        uri: target_text(head.path, head.query),
        version: head.version,
        headers: redacted(head.headers),
    }
}

/// Decides under which span a request runs. A request without a
/// `traceparent` field gets a root span; one that carries the encoding of a
/// valid context gets a span whose parent is that context.
pub fn make_span(head: &RequestHead) -> (span: SpanStart)
    ensures
        span@ == span_start(head@),
        first_value(head@.headers, traceparent_name()) is None ==> span.parent is None,
        forall|context: SpanContext|
            context.valid() && #[trigger] carries(head@.headers, context) ==> span.parent == Some(
                context,
            ),
{
    SpanStart {
        name: String::from_str("http.request"),
        parent: extract(&head.headers),
        method: String::from_str(head.method.as_str()),
        uri: head.target(),
        version: String::from_str(head.version.as_str()),
        headers: redact_headers(&head.headers),
    }
}

/// The span of a request does not depend on the values of its credentials
/// fields: two requests that differ only there are given the same span.
pub proof fn lemma_span_hides_credentials(a: RequestHeadView, b: RequestHeadView)
    requires
        same_but_credentials_head(a, b),
    ensures
        span_start(a) == span_start(b),
{
    reveal_strlit("traceparent");
    reveal_strlit("authorization");
    lemma_redaction_hides_credentials(a.headers, b.headers);
    lemma_lookup_ignores_credentials(a.headers, b.headers, traceparent_name());
}

/// One field recorded on a span.
#[derive(Clone, Debug)]
pub struct SpanField {
    pub name: String,
    pub value: String,
}

impl View for SpanField {
    type V = (Seq<char>, Seq<char>);

    open spec fn view(&self) -> (Seq<char>, Seq<char>) {
        (self.name@, self.value@)
    }
}

/// The fields of a list as pairs of texts.
pub open spec fn field_list(fields: Seq<SpanField>) -> Seq<(Seq<char>, Seq<char>)> {
    Seq::new(fields.len(), |i: int| fields[i]@)
}

/// What is recorded on the span of a request that was answered: the status
/// code, and the latency in microseconds.
pub open spec fn response_fields(status: int, latency_micros: int) -> Seq<(Seq<char>, Seq<char>)> {
    seq![
        ("http.status_code"@, decimal(status as nat)),
        ("latency"@, decimal(latency_micros as nat) + "us"@),
    ]
}

/// The fields to record on a span when its request has been answered.
pub fn on_response(status: u16, latency_micros: u64) -> (fields: Vec<SpanField>)
    ensures
        field_list(fields@) == response_fields(status as int, latency_micros as int),
{
    let mut latency = decimal_string(latency_micros);
    latency.append("us");
    let mut fields: Vec<SpanField> = Vec::new();
    fields.push(
        SpanField {
            name: String::from_str("http.status_code"),
            value: decimal_string(status as u64),
        },
    );
    fields.push(SpanField { name: String::from_str("latency"), value: latency });
    assert(field_list(fields@) =~= response_fields(status as int, latency_micros as int));
    fields
}

/// How a request failed: with a server-error status, or without a response.
#[derive(Clone, Debug)]
pub enum FailureClass {
    StatusCode(u16),
    Error(String),
}

/// The mathematical content of a [`FailureClass`].
pub enum FailureClassView {
    StatusCode(int),
    Error(Seq<char>),
}

impl View for FailureClass {
    type V = FailureClassView;

    open spec fn view(&self) -> FailureClassView {
        match self {
            FailureClass::StatusCode(code) => FailureClassView::StatusCode(*code as int),
            FailureClass::Error(message) => FailureClassView::Error(message@),
        }
    }
}

/// What is recorded on the span of a request that failed: its
/// classification, under `error`.
pub open spec fn failure_fields(class: FailureClassView) -> Seq<(Seq<char>, Seq<char>)> {
    seq![
        (
            "error"@,
            match class {
                FailureClassView::StatusCode(code) => "Status code: "@ + decimal(code as nat),
                FailureClassView::Error(message) => "Error: "@ + message,
            },
        ),
    ]
}

/// The fields to record on a span when its request has failed. The failure
/// is recorded and goes no further.
pub fn on_failure(class: &FailureClass) -> (fields: Vec<SpanField>)
    ensures
        field_list(fields@) == failure_fields(class@),
{
    let mut text;
    match class {
        FailureClass::StatusCode(code) => {
            text = String::from_str("Status code: ");
            let digits = decimal_string(*code as u64);
            text.append(digits.as_str());
        },
        FailureClass::Error(message) => {
            text = String::from_str("Error: ");
            text.append(message.as_str());
        },
    }
    let mut fields: Vec<SpanField> = Vec::new();
    fields.push(SpanField { name: String::from_str("error"), value: text });
    assert(field_list(fields@) =~= failure_fields(class@));
    fields
}

} // verus!
