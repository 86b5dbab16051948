//! Trace-context propagation across the HTTP boundary: a span context is
//! written into, and read from, the `traceparent` header field.

use std::collections::HashMap;
use opentelemetry::propagation::TextMapPropagator;
use opentelemetry::trace::TraceContextExt;
use vstd::prelude::*;
use crate::headers::{
    find_header, first_value, header_list, lemma_set_then_find, set_header, with_header, Header,
    HeaderView,
};
use crate::text::padded_hex;

verus! {

/// The part of a span's identity that travels between processes.
#[derive(Clone, Copy, Debug, PartialEq, Eq, Structural)]
pub struct SpanContext {
    pub trace_id: u128,
    pub span_id: u64,
    pub sampled: bool,
}

impl SpanContext {
    /// A context is valid when neither identifier is zero.
    pub open spec fn valid(self) -> bool {
        self.trace_id != 0 && self.span_id != 0
    }

    /// Whether the context identifies a span.
    pub fn is_valid(&self) -> (valid: bool)
        ensures
            valid == self.valid(),
    {
        self.trace_id != 0 && self.span_id != 0
    }
}

/// The name of the header field that carries the context.
pub open spec fn traceparent_name() -> Seq<char> {
    "traceparent"@
}

/// The value of the `traceparent` field for a context: version `00`, the
/// trace identifier in 32 digits of base 16, the span identifier in 16, and
/// the flags `01` (sampled) or `00`, joined by hyphens.
pub open spec fn traceparent_text(context: SpanContext) -> Seq<char> {
    "00-"@ + padded_hex(context.trace_id as nat, 32) + "-"@ + padded_hex(
        context.span_id as nat,
        16,
    ) + "-"@ + (if context.sampled {
        "01"@
    } else {
        "00"@
    })
}

/// Calls `opentelemetry_sdk`'s `TraceContextPropagator::inject_context` on a
/// fresh context that holds the given span context, with an empty map as the
/// carrier, and hands back what it stored under `traceparent`. The contract
/// states the crate's format string (`{:02x}-{}-{}-{:02x}` over version 0,
/// the two identifiers and the sampled bit) and that nothing is stored for an
/// invalid context; it is taken from the crate's source and not proved here.
#[verifier::external_body]
fn encode_traceparent(context: SpanContext) -> (out: Option<String>)
    ensures
        match out {
            Some(text) => context.valid() && text@ == traceparent_text(context),
            None => !context.valid(),
        },
{
    let flags = opentelemetry::trace::TraceFlags::default().with_sampled(context.sampled);
    let inner = opentelemetry::trace::SpanContext::new(
        opentelemetry::trace::TraceId::from(context.trace_id),
        opentelemetry::trace::SpanId::from(context.span_id),
        flags,
        false,
        opentelemetry::trace::TraceState::default(),
    );
    let cx = opentelemetry::Context::new().with_remote_span_context(inner);
    let mut carrier: HashMap<String, String> = HashMap::new();
    opentelemetry_sdk::propagation::TraceContextPropagator::new().inject_context(&cx, &mut carrier);
    carrier.remove("traceparent")
}

/// What `opentelemetry_sdk`'s propagator reads from a `traceparent` value:
/// trace identifier, span identifier and the sampled flag, all zero and
/// false where it accepts nothing.
pub uninterp spec fn extracted_context(traceparent: Seq<char>) -> (u128, u64, bool);

/// Calls `opentelemetry_sdk`'s `TraceContextPropagator::extract_with_context`
/// on an empty context, with a map that holds the given value under
/// `traceparent` as the carrier, and copies the three parts of the span
/// context that comes back. The result is named, not described: which values
/// the propagator accepts is the crate's grammar. One fact is stated beside
/// the name, as the crate's source shows it: the propagator reads back what
/// it writes, so the value that encodes a valid context gives that context.
#[verifier::external_body]
fn decode_traceparent(value: &str) -> (out: SpanContext)
    ensures
        (out.trace_id, out.span_id, out.sampled) == extracted_context(value@),
        forall|context: SpanContext|
            context.valid() && value@ == #[trigger] traceparent_text(context) ==> out == context,
{
    let mut carrier: HashMap<String, String> = HashMap::new();
    carrier.insert("traceparent".to_string(), value.to_string());
    let cx = opentelemetry_sdk::propagation::TraceContextPropagator::new().extract_with_context(
        &opentelemetry::Context::new(),
        &carrier,
    );
    let span = cx.span();
    let found = span.span_context();
    SpanContext {
        trace_id: u128::from_be_bytes(found.trace_id().to_bytes()),
        span_id: u64::from_be_bytes(found.span_id().to_bytes()),
        sampled: found.is_sampled(),
    }
}

/// The context that a decoded triple stands for: none where it is not valid.
pub open spec fn accepted(raw: (u128, u64, bool)) -> Option<SpanContext> {
    let context = SpanContext { trace_id: raw.0, span_id: raw.1, sampled: raw.2 };
    if context.valid() {
        Some(context)
    } else {
        None
    }
}

/// The context that a request's headers propagate: that of the first
/// `traceparent` field, where there is one and its value is accepted.
pub open spec fn propagated(headers: Seq<HeaderView>) -> Option<SpanContext> {
    match first_value(headers, traceparent_name()) {
        Some(value) => accepted(extracted_context(value)),
        None => None,
    }
}

/// Keeps a decoded context only if it is valid.
pub fn accept_context(raw: SpanContext) -> (out: Option<SpanContext>)
    ensures
        out == accepted((raw.trace_id, raw.span_id, raw.sampled)),
{
    if raw.is_valid() {
        Some(raw)
    } else {
        None
    }
}

/// Whether the first `traceparent` field of the headers holds the encoding
/// of the context.
pub open spec fn carries(headers: Seq<HeaderView>, context: SpanContext) -> bool {
    first_value(headers, traceparent_name()) == Some(traceparent_text(context))
}

/// Reads the propagated span context from inbound headers. An absent or
/// unacceptable `traceparent` field gives `None`: the request starts a new
/// trace. Headers that carry the encoding of a valid context give that
/// context: the same trace, the same span, the same flag.
pub fn extract(headers: &Vec<Header>) -> (out: Option<SpanContext>)
    ensures
        out == propagated(header_list(headers@)),
        first_value(header_list(headers@), traceparent_name()) is None ==> out is None,
        forall|context: SpanContext|
            context.valid() && #[trigger] carries(header_list(headers@), context) ==> out == Some(
                context,
            ),
{
    match find_header(headers, "traceparent") {
        Some(value) => accept_context(decode_traceparent(value.as_str())),
        None => None,
    }
}

/// Writes a span context into outbound headers: a valid context replaces any
/// `traceparent` field by its own encoding, an invalid one leaves the headers
/// as they are.
pub fn inject(context: &SpanContext, headers: &mut Vec<Header>)
    ensures
        context.valid() ==> header_list(final(headers)@) == with_header(
            header_list(old(headers)@),
            traceparent_name(),
            traceparent_text(*context),
        ),
        !context.valid() ==> final(headers)@ == old(headers)@,
{
    match encode_traceparent(*context) {
        Some(value) => {
            let updated = set_header(headers, "traceparent", value.as_str());
            *headers = updated;
        },
        None => {},
    }
}

/// Headers into which a context was injected carry it: together with the
/// contracts of [`inject`] and [`extract`] this is the round trip of a valid
/// context through the `traceparent` field.
pub proof fn lemma_injected_is_carried(headers: Seq<HeaderView>, context: SpanContext)
    ensures
        carries(with_header(headers, traceparent_name(), traceparent_text(context)), context),
{
    lemma_set_then_find(headers, traceparent_name(), traceparent_text(context));
}

/// A request without a `traceparent` field propagates no context.
pub proof fn lemma_missing_header_is_root(headers: Seq<HeaderView>)
    requires
        first_value(headers, traceparent_name()) is None,
    ensures
        propagated(headers) is None,
{
}

/// A request whose `traceparent` field is accepted propagates exactly the
/// context read from it: the same trace, the same span, the same flag.
pub proof fn lemma_accepted_header_is_parent(headers: Seq<HeaderView>, value: Seq<char>)
    requires
        first_value(headers, traceparent_name()) == Some(value),
        accepted(extracted_context(value)) is Some,
    ensures
        propagated(headers) matches Some(parent) && parent.trace_id == extracted_context(value).0
            && parent.span_id == extracted_context(value).1 && parent.sampled
            == extracted_context(value).2,
{
}

} // verus!
