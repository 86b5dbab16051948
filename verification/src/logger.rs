//! The body-buffering request/response logger. The middleware drains the
//! body of a request, logs the request, hands an equal body on to the
//! handler, and does the same with the response on the way back. The
//! waiting is the caller's; what is logged, forwarded and answered at each
//! point is decided here, as a state machine.

use vstd::prelude::*;
use crate::log_lines::{
    failure_lines, failure_log, line_list, request_lines, request_log, response_lines,
    response_log,
};
use crate::request::{RequestHead, RequestHeadView};
use crate::text::{decode_lossy, utf8_lossy};

verus! {

/// What the client is told when the request's body could not be read.
pub open spec fn request_failure_message() -> Seq<char> {
    "failed to read request body"@
}

/// What the client is told when the response's body could not be read.
pub open spec fn response_failure_message() -> Seq<char> {
    "failed to parse response body"@
}

/// The status of the response that reports a body that could not be read.
pub open spec fn failure_status() -> int {
    400
}

/// The outcome of draining a body.
#[derive(Clone, Debug)]
pub enum BodyRead {
    /// The whole body, as it came.
    Complete(Vec<u8>),
    /// The transport failed before the end of the body.
    Failed(String),
}

/// The mathematical content of a [`BodyRead`].
pub enum BodyReadView {
    Complete(Seq<u8>),
    Failed(Seq<char>),
}

impl View for BodyRead {
    type V = BodyReadView;

    open spec fn view(&self) -> BodyReadView {
        match self {
            BodyRead::Complete(bytes) => BodyReadView::Complete(bytes@),
            BodyRead::Failed(reason) => BodyReadView::Failed(reason@),
        }
    }
}

/// Where one request stands in the logger.
#[derive(Clone, Debug)]
pub enum LoggerState {
    ReceivingRequestBody { head: RequestHead },
    LoggedRequest { body: Vec<u8> },
    DelegatedToHandler,
    ReceivingResponseBody,
    LoggedResponse { body: Vec<u8> },
    Complete,
    Failed,
}

/// The mathematical content of a [`LoggerState`].
pub enum LoggerStateView {
    ReceivingRequestBody { head: RequestHeadView },
    LoggedRequest { body: Seq<u8> },
    DelegatedToHandler,
    ReceivingResponseBody,
    LoggedResponse { body: Seq<u8> },
    Complete,
    Failed,
}

impl View for LoggerState {
    type V = LoggerStateView;

    open spec fn view(&self) -> LoggerStateView {
        match self {
            LoggerState::ReceivingRequestBody { head } => LoggerStateView::ReceivingRequestBody {
                head: head@,
            },
            LoggerState::LoggedRequest { body } => LoggerStateView::LoggedRequest { body: body@ },
            LoggerState::DelegatedToHandler => LoggerStateView::DelegatedToHandler,
            LoggerState::ReceivingResponseBody => LoggerStateView::ReceivingResponseBody,
            LoggerState::LoggedResponse { body } => LoggerStateView::LoggedResponse {
                body: body@,
            },
            LoggerState::Complete => LoggerStateView::Complete,
            LoggerState::Failed => LoggerStateView::Failed,
        }
    }
}

/// What the caller reports to the logger.
#[derive(Clone, Debug)]
pub enum LoggerEvent {
    /// Draining the request's body has ended, `elapsed_ms` milliseconds after
    /// the request arrived.
    RequestBody { read: BodyRead, elapsed_ms: u64 },
    /// The lines of the last action have been written.
    Proceed,
    /// The handler has returned a response.
    HandlerReturned,
    /// Draining the response's body has ended, `elapsed_ms` milliseconds
    /// after the request arrived.
    ResponseBody { read: BodyRead, elapsed_ms: u64 },
    /// The client has gone away.
    Cancelled,
}

/// The mathematical content of a [`LoggerEvent`].
pub enum LoggerEventView {
    RequestBody { read: BodyReadView, elapsed_ms: nat },
    Proceed,
    HandlerReturned,
    ResponseBody { read: BodyReadView, elapsed_ms: nat },
    Cancelled,
}

impl View for LoggerEvent {
    type V = LoggerEventView;

    open spec fn view(&self) -> LoggerEventView {
        match self {
            LoggerEvent::RequestBody { read, elapsed_ms } => LoggerEventView::RequestBody {
                read: read@,
                elapsed_ms: *elapsed_ms as nat,
            },
            LoggerEvent::Proceed => LoggerEventView::Proceed,
            LoggerEvent::HandlerReturned => LoggerEventView::HandlerReturned,
            LoggerEvent::ResponseBody { read, elapsed_ms } => LoggerEventView::ResponseBody {
                read: read@,
                elapsed_ms: *elapsed_ms as nat,
            },
            LoggerEvent::Cancelled => LoggerEventView::Cancelled,
        }
    }
}

/// What the logger asks of the caller.
#[derive(Clone, Debug)]
pub enum LoggerAction {
    /// Write these lines to the log, then report `Proceed`.
    Log(Vec<String>),
    /// Call the handler with a request that carries this body.
    Forward(Vec<u8>),
    /// Drain the body of the handler's response.
    ReadResponseBody,
    /// Answer with the handler's response, carrying this body.
    Respond(Vec<u8>),
    /// Write these lines to the log and answer with this status and message;
    /// the handler is not called.
    Reject { status: u16, message: String, log: Vec<String> },
    /// Drop the request and everything buffered for it.
    Abandon,
}

/// The mathematical content of a [`LoggerAction`].
pub enum LoggerActionView {
    Log(Seq<Seq<char>>),
    Forward(Seq<u8>),
    ReadResponseBody,
    Respond(Seq<u8>),
    Reject { status: int, message: Seq<char>, log: Seq<Seq<char>> },
    Abandon,
}

impl View for LoggerAction {
    type V = LoggerActionView;

    open spec fn view(&self) -> LoggerActionView {
        match self {
            LoggerAction::Log(lines) => LoggerActionView::Log(line_list(lines@)),
            LoggerAction::Forward(body) => LoggerActionView::Forward(body@),
            LoggerAction::ReadResponseBody => LoggerActionView::ReadResponseBody,
            LoggerAction::Respond(body) => LoggerActionView::Respond(body@),
            LoggerAction::Reject { status, message, log } => LoggerActionView::Reject {
                status: *status as int,
                message: message@,
                log: line_list(log@),
            },
            LoggerAction::Abandon => LoggerActionView::Abandon,
        }
    }
}

/// The rejection of a request one of whose bodies could not be read.
pub open spec fn rejection(elapsed_ms: nat, message: Seq<char>, reason: Seq<char>) -> (
    LoggerStateView,
    LoggerActionView,
) {
    (
        LoggerStateView::Failed,
        LoggerActionView::Reject {
            status: failure_status(),
            message,
            log: failure_lines(elapsed_ms, message, reason),
        },
    )
}

/// The transition relation of the logger, as a function: the state after an
/// event, and the action that the event calls for.
///
/// A request goes from receiving its body, through logged, delegated,
/// receiving the response's body and logged again, to complete. A body that
/// cannot be read leads from either receiving state to the failed state,
/// with a rejection and one closing line. A cancellation, or an event that
/// the state does not expect, leads to the failed state with nothing to do;
/// the two final states are never left.
pub open spec fn step(state: LoggerStateView, event: LoggerEventView) -> (
    LoggerStateView,
    LoggerActionView,
) {
    match state {
        LoggerStateView::ReceivingRequestBody { head } => match event {
            LoggerEventView::RequestBody { read: BodyReadView::Complete(body), .. } => (
                LoggerStateView::LoggedRequest { body },
                LoggerActionView::Log(request_lines(head, utf8_lossy(body))),
            ),
            LoggerEventView::RequestBody { read: BodyReadView::Failed(reason), elapsed_ms } =>
                rejection(elapsed_ms, request_failure_message(), reason),
            _ => (LoggerStateView::Failed, LoggerActionView::Abandon),
        },
        LoggerStateView::LoggedRequest { body } => match event {
            LoggerEventView::Proceed => (
                LoggerStateView::DelegatedToHandler,
                LoggerActionView::Forward(body),
            ),
            _ => (LoggerStateView::Failed, LoggerActionView::Abandon),
        },
        LoggerStateView::DelegatedToHandler => match event {
            LoggerEventView::HandlerReturned => (
                LoggerStateView::ReceivingResponseBody,
                LoggerActionView::ReadResponseBody,
            ),
            _ => (LoggerStateView::Failed, LoggerActionView::Abandon),
        },
        LoggerStateView::ReceivingResponseBody => match event {
            LoggerEventView::ResponseBody { read: BodyReadView::Complete(body), elapsed_ms } => (
                LoggerStateView::LoggedResponse { body },
                LoggerActionView::Log(response_lines(utf8_lossy(body), elapsed_ms)),
            ),
            LoggerEventView::ResponseBody { read: BodyReadView::Failed(reason), elapsed_ms } =>
                rejection(elapsed_ms, response_failure_message(), reason),
            _ => (LoggerStateView::Failed, LoggerActionView::Abandon),
        },
        LoggerStateView::LoggedResponse { body } => match event {
            LoggerEventView::Proceed => (LoggerStateView::Complete, LoggerActionView::Respond(body)),
            _ => (LoggerStateView::Failed, LoggerActionView::Abandon),
        },
        LoggerStateView::Complete => (LoggerStateView::Complete, LoggerActionView::Abandon),
        LoggerStateView::Failed => (LoggerStateView::Failed, LoggerActionView::Abandon),
    }
}

/// Rejects a request one of whose bodies could not be read.
fn reject(elapsed_ms: u64, message: &str, reason: &str) -> (out: (LoggerState, LoggerAction))
    ensures
        (out.0@, out.1@) == rejection(elapsed_ms as nat, message@, reason@),
{
    let log = failure_log(elapsed_ms, message, reason);
    (
        LoggerState::Failed,
        LoggerAction::Reject { status: 400, message: String::from_str(message), log },
    )
}

/// The inbound half of the logger: what follows the end of draining the
/// request's body. A body that was read in full is logged with the
/// request's head and kept for the handler; a failed read rejects the
/// request.
pub fn buffer_and_print_request(head: &RequestHead, read: BodyRead, elapsed_ms: u64) -> (out: (
    LoggerState,
    LoggerAction,
))
    ensures
        (out.0@, out.1@) == step(
            LoggerStateView::ReceivingRequestBody { head: head@ },
            LoggerEventView::RequestBody { read: read@, elapsed_ms: elapsed_ms as nat },
        ),
{
    match read {
        BodyRead::Complete(body) => {
            let payload = decode_lossy(body.as_slice());
            let lines = request_log(head, payload.as_str());
            (LoggerState::LoggedRequest { body }, LoggerAction::Log(lines))
        },
        BodyRead::Failed(reason) => reject(
            elapsed_ms,
            "failed to read request body",
            reason.as_str(),
        ),
    }
}

/// The outbound half of the logger: what follows the end of draining the
/// response's body. A body that was read in full is logged, with the closing
/// line, and kept for the client; a failed read rejects the request.
pub fn buffer_and_print_response(read: BodyRead, elapsed_ms: u64) -> (out: (
    LoggerState,
    LoggerAction,
))
    ensures
        (out.0@, out.1@) == step(
            LoggerStateView::ReceivingResponseBody,
            LoggerEventView::ResponseBody { read: read@, elapsed_ms: elapsed_ms as nat },
        ),
{
    match read {
        BodyRead::Complete(body) => {
            let payload = decode_lossy(body.as_slice());
            let lines = response_log(payload.as_str(), elapsed_ms);
            (LoggerState::LoggedResponse { body }, LoggerAction::Log(lines))
        },
        BodyRead::Failed(reason) => reject(
            elapsed_ms,
            "failed to parse response body",
            reason.as_str(),
        ),
    }
}

/// One step of the logger for one request: takes the state and what the
/// caller reports, and gives the next state and what the caller is to do.
/// The caller starts in `ReceivingRequestBody` and stops in `Complete` or
/// `Failed`.
pub fn print_request_response(state: LoggerState, event: LoggerEvent) -> (out: (
    LoggerState,
    LoggerAction,
))
    ensures
        (out.0@, out.1@) == step(state@, event@),
{
    match state {
        LoggerState::ReceivingRequestBody { head } => match event {
            LoggerEvent::RequestBody { read, elapsed_ms } => buffer_and_print_request(
                &head,
                read,
                elapsed_ms,
            ),
            _ => (LoggerState::Failed, LoggerAction::Abandon),
        },
        LoggerState::LoggedRequest { body } => match event {
            LoggerEvent::Proceed => (LoggerState::DelegatedToHandler, LoggerAction::Forward(body)),
            _ => (LoggerState::Failed, LoggerAction::Abandon),
        },
        LoggerState::DelegatedToHandler => match event {
            LoggerEvent::HandlerReturned => (
                LoggerState::ReceivingResponseBody,
                LoggerAction::ReadResponseBody,
            ),
            _ => (LoggerState::Failed, LoggerAction::Abandon),
        },
        LoggerState::ReceivingResponseBody => match event {
            LoggerEvent::ResponseBody { read, elapsed_ms } => buffer_and_print_response(
                read,
                elapsed_ms,
            ),
            _ => (LoggerState::Failed, LoggerAction::Abandon),
        },
        LoggerState::LoggedResponse { body } => match event {
            LoggerEvent::Proceed => (LoggerState::Complete, LoggerAction::Respond(body)),
            _ => (LoggerState::Failed, LoggerAction::Abandon),
        },
        LoggerState::Complete => (LoggerState::Complete, LoggerAction::Abandon),
        LoggerState::Failed => (LoggerState::Failed, LoggerAction::Abandon),
    }
}

/// Round trip of the request's body: the body that is forwarded to the
/// handler is, byte for byte, the body that was read.
pub proof fn lemma_request_body_round_trip(head: RequestHeadView, body: Seq<u8>, elapsed_ms: nat)
    ensures
        ({
            let logged = step(
                LoggerStateView::ReceivingRequestBody { head },
                LoggerEventView::RequestBody { read: BodyReadView::Complete(body), elapsed_ms },
            );
            step(logged.0, LoggerEventView::Proceed) == (
                LoggerStateView::DelegatedToHandler,
                LoggerActionView::Forward(body),
            )
        }),
{
}

/// Round trip of the response's body: the body that the client is answered
/// with is, byte for byte, the body that the handler produced.
pub proof fn lemma_response_body_round_trip(body: Seq<u8>, elapsed_ms: nat)
    ensures
        ({
            let logged = step(
                LoggerStateView::ReceivingResponseBody,
                LoggerEventView::ResponseBody { read: BodyReadView::Complete(body), elapsed_ms },
            );
            step(logged.0, LoggerEventView::Proceed) == (
                LoggerStateView::Complete,
                LoggerActionView::Respond(body),
            )
        }),
{
}

/// A body that cannot be read ends the request: the answer is a rejection
/// with status 400 and exactly one line, the closing line with the elapsed
/// time and the failure; the state is final, and no later event makes the
/// logger forward anything to the handler.
pub proof fn lemma_failed_read_rejects(
    head: RequestHeadView,
    reason: Seq<char>,
    elapsed_ms: nat,
    later: LoggerEventView,
)
    ensures
        ({
            let failed = step(
                LoggerStateView::ReceivingRequestBody { head },
                LoggerEventView::RequestBody { read: BodyReadView::Failed(reason), elapsed_ms },
            );
            &&& failed.0 == LoggerStateView::Failed
            &&& failed.1 == LoggerActionView::Reject {
                status: 400,
                message: request_failure_message(),
                log: failure_lines(elapsed_ms, request_failure_message(), reason),
            }
            &&& step(failed.0, later) == (LoggerStateView::Failed, LoggerActionView::Abandon)
        }),
{
}

/// The handler is called only with a body that was read in full and
/// logged: the logger forwards a body only from the logged-request state,
/// and then the body that this state holds.
pub proof fn lemma_forward_needs_logged_request(state: LoggerStateView, event: LoggerEventView)
    ensures
        step(state, event).1 matches LoggerActionView::Forward(body) ==> state
            == (LoggerStateView::LoggedRequest { body }) && event == LoggerEventView::Proceed,
        step(state, event).1 matches LoggerActionView::Respond(body) ==> state
            == (LoggerStateView::LoggedResponse { body }) && event == LoggerEventView::Proceed,
{
}

/// The two final states are never left, and nothing is asked of the caller
/// once one of them is reached.
pub proof fn lemma_final_states_are_final(event: LoggerEventView)
    ensures
        step(LoggerStateView::Complete, event) == (
            LoggerStateView::Complete,
            LoggerActionView::Abandon,
        ),
        step(LoggerStateView::Failed, event) == (
            LoggerStateView::Failed,
            LoggerActionView::Abandon,
        ),
{
}

/// A cancellation before the end ends the request without a call of the
/// handler and without an answer.
pub proof fn lemma_cancellation_abandons(state: LoggerStateView)
    requires
        state != LoggerStateView::Complete,
    ensures
        step(state, LoggerEventView::Cancelled) == (
            LoggerStateView::Failed,
            LoggerActionView::Abandon,
        ),
{
}

} // verus!
