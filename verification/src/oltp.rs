//! Start-up defaults and the orderly shutdown of the three providers.

use vstd::prelude::*;
use crate::registry::{ProviderRegistry, RegistryView, SignalKind};

verus! {

/// A configured value, or the default where none was configured.
pub open spec fn value_or(configured: Option<Seq<char>>, default: Seq<char>) -> Seq<char> {
    match configured {
        Some(value) => value,
        None => default,
    }
}

/// The view of a text that may be absent.
pub open spec fn text_view(text: Option<String>) -> Option<Seq<char>> {
    match text {
        Some(t) => Some(t@),
        None => None,
    }
}

/// The log verbosity directive that applies where none is configured.
pub open spec fn default_log_directive() -> Seq<char> {
    "debug,axum_web_server=debug,tower_http=trace"@
}

/// Picks the configured value, or the default where the variable is not set.
pub fn get_env_or_default(configured: Option<String>, default: String) -> (value: String)
    ensures
        value@ == value_or(text_view(configured), default@),
{
    match configured {
        Some(value) => value,
        None => default,
    }
}

/// The log verbosity directive in force: the configured one, or
/// `debug,axum_web_server=debug,tower_http=trace`.
pub fn log_directive(configured: Option<String>) -> (directive: String)
    ensures
        directive@ == value_or(text_view(configured), default_log_directive()),
{
    get_env_or_default(
        configured,
        String::from_str("debug,axum_web_server=debug,tower_http=trace"),
    )
}

/// The seconds between two exports of the collected metrics.
pub const METRIC_EXPORT_INTERVAL_SECONDS: u64 = 5;

/// The directory of the rolling log files.
pub fn log_directory() -> (directory: &'static str)
    ensures
        directory@ == ".logs"@,
{
    ".logs"
}

/// A variable that must be set and is not.
#[derive(Clone, Debug)]
pub struct MissingVariable {
    pub variable: String,
}

/// What is reported for a variable that must be set and is not.
pub open spec fn missing_message(variable: Seq<char>) -> Seq<char> {
    variable + " is not set"@
}

impl MissingVariable {
    /// The report: the variable's name, followed by ` is not set`.
    pub fn message(&self) -> (message: String)
        ensures
            message@ == missing_message(self.variable@),
    {
        let mut message = String::from_str(self.variable.as_str());
        message.append(" is not set");
        message
    }
}

/// Takes the value of a variable that must be set: the configured value, or
/// the error that names the variable where none is configured.
pub fn require_env(variable: &str, configured: Option<String>) -> (out: Result<
    String,
    MissingVariable,
>)
    ensures
        match text_view(configured) {
            Some(value) => out matches Ok(taken) && taken@ == value,
            None => out matches Err(missing) && missing.variable@ == variable@,
        },
{
    match configured {
        Some(value) => Ok(value),
        None => Err(MissingVariable { variable: String::from_str(variable) }),
    }
}

/// What the caller reports to the shutdown procedure.
pub enum ShutdownEvent {
    /// The process is about to exit; nothing has been closed yet.
    Begin,
    /// The provider of the kind was flushed and closed.
    Closed(SignalKind),
    /// Closing the provider of the kind failed, for the given reason.
    Failed(SignalKind, String),
}

/// The mathematical content of a [`ShutdownEvent`].
pub enum ShutdownEventView {
    Begin,
    Closed(SignalKind),
    Failed(SignalKind, Seq<char>),
}

impl View for ShutdownEvent {
    type V = ShutdownEventView;

    open spec fn view(&self) -> ShutdownEventView {
        match self {
            ShutdownEvent::Begin => ShutdownEventView::Begin,
            ShutdownEvent::Closed(kind) => ShutdownEventView::Closed(*kind),
            ShutdownEvent::Failed(kind, reason) => ShutdownEventView::Failed(*kind, reason@),
        }
    }
}

/// What the shutdown procedure asks of the caller.
pub enum ShutdownAction {
    /// Flush and close the provider of the kind, then report back.
    Close(SignalKind),
    /// All three providers have been closed.
    Complete,
    /// All three providers have been asked to close, and at least one could
    /// not be closed: the first of them in the order, and the reason of its
    /// failure.
    Incomplete(SignalKind, String),
}

/// The mathematical content of a [`ShutdownAction`].
pub enum ShutdownActionView {
    Close(SignalKind),
    Complete,
    Incomplete(SignalKind, Seq<char>),
}

impl View for ShutdownAction {
    type V = ShutdownActionView;

    open spec fn view(&self) -> ShutdownActionView {
        match self {
            ShutdownAction::Close(kind) => ShutdownActionView::Close(*kind),
            ShutdownAction::Complete => ShutdownActionView::Complete,
            ShutdownAction::Incomplete(kind, reason) => ShutdownActionView::Incomplete(
                *kind,
                reason@,
            ),
        }
    }
}

/// The kind whose provider is closed after that of `kind`: the order is
/// tracer, meter, logger.
pub open spec fn following(kind: SignalKind) -> Option<SignalKind> {
    match kind {
        SignalKind::Trace => Some(SignalKind::Metric),
        SignalKind::Metric => Some(SignalKind::Log),
        SignalKind::Log => None,
    }
}

/// The registry after an event: a closed provider is marked as closed, a
/// failure to close is recorded with the provider.
pub open spec fn after_event<H>(
    registry: RegistryView<H>,
    event: ShutdownEventView,
) -> RegistryView<H> {
    match event {
        ShutdownEventView::Begin => registry,
        ShutdownEventView::Closed(kind) => registry.closed(kind),
        ShutdownEventView::Failed(kind, reason) => registry.close_failed(kind, reason),
    }
}

/// What ends the procedure, given the registry as it then is: the first
/// recorded failure, or completion where none is recorded.
pub open spec fn outcome<H>(registry: RegistryView<H>) -> ShutdownActionView {
    match registry.first_failure() {
        Some((kind, reason)) => ShutdownActionView::Incomplete(kind, reason),
        None => ShutdownActionView::Complete,
    }
}

/// The step that follows an event, given the registry after the event. The
/// providers are asked to close in the order tracer, meter, logger, each
/// after the attempt on the one before has ended, whether it was closed or
/// not: a failure does not keep the later providers from being closed. After
/// the attempt on the logger the procedure ends with its outcome.
pub open spec fn next_action<H>(
    registry: RegistryView<H>,
    event: ShutdownEventView,
) -> ShutdownActionView {
    match event {
        ShutdownEventView::Begin => ShutdownActionView::Close(SignalKind::Trace),
        ShutdownEventView::Closed(kind) | ShutdownEventView::Failed(kind, _) => match following(
            kind,
        ) {
            Some(next) => ShutdownActionView::Close(next),
            None => outcome(registry),
        },
    }
}

/// The shutdown procedure, one step at a time. The caller starts with
/// [`ShutdownEvent::Begin`], carries out each [`ShutdownAction::Close`] on the
/// provider that the registry holds, and reports whether the provider was
/// closed, until the answer is `Complete` or `Incomplete`. All three
/// providers are asked to close, in the order tracer, meter, logger; the
/// answer at the end reports the first that could not be closed. All three
/// providers must have been installed.
pub fn shutdown_oltp<H>(registry: &mut ProviderRegistry<H>, event: ShutdownEvent) -> (action:
    ShutdownAction)
    requires
        old(registry)@.complete(),
    ensures
        final(registry)@ == after_event(old(registry)@, event@),
        action@ == next_action(final(registry)@, event@),
        final(registry)@.complete(),
{
    let ended = match event {
        ShutdownEvent::Begin => {
            return ShutdownAction::Close(SignalKind::Trace);
        },
        ShutdownEvent::Closed(kind) => {
            registry.shutdown_provider(kind);
            kind
        },
        ShutdownEvent::Failed(kind, reason) => {
            registry.record_close_failure(kind, reason);
            kind
        },
    };
    match ended {
        SignalKind::Trace => ShutdownAction::Close(SignalKind::Metric),
        SignalKind::Metric => ShutdownAction::Close(SignalKind::Log),
        SignalKind::Log => match registry.first_failure() {
            Some((kind, reason)) => ShutdownAction::Incomplete(kind, reason),
            None => ShutdownAction::Complete,
        },
    }
}

/// Whichever way the attempts end, the procedure asks for the tracer, then
/// the meter, then the logger, and ends only after the attempt on the
/// logger.
pub proof fn lemma_shutdown_order<H>(registry: RegistryView<H>, reason: Seq<char>)
    ensures
        next_action(registry, ShutdownEventView::Begin) == ShutdownActionView::Close(
            SignalKind::Trace,
        ),
        next_action(registry, ShutdownEventView::Closed(SignalKind::Trace))
            == ShutdownActionView::Close(SignalKind::Metric),
        next_action(registry, ShutdownEventView::Failed(SignalKind::Trace, reason))
            == ShutdownActionView::Close(SignalKind::Metric),
        next_action(registry, ShutdownEventView::Closed(SignalKind::Metric))
            == ShutdownActionView::Close(SignalKind::Log),
        next_action(registry, ShutdownEventView::Failed(SignalKind::Metric, reason))
            == ShutdownActionView::Close(SignalKind::Log),
        next_action(registry, ShutdownEventView::Closed(SignalKind::Log)) == outcome(registry),
        next_action(registry, ShutdownEventView::Failed(SignalKind::Log, reason)) == outcome(
            registry,
        ),
{
}

/// A shutdown in which every provider closes ends with `Complete` and with
/// all three providers closed.
pub proof fn lemma_shutdown_completes<H>(registry: RegistryView<H>)
    requires
        registry.complete(),
    ensures
        ({
            let end = registry.closed(SignalKind::Trace).closed(SignalKind::Metric).closed(
                SignalKind::Log,
            );
            &&& next_action(end, ShutdownEventView::Closed(SignalKind::Log))
                == ShutdownActionView::Complete
            &&& forall|kind: SignalKind| (#[trigger] end.entry(kind)) matches Some(provider)
                && provider.shut_down
        }),
{
}

/// A provider that cannot be closed does not keep the others open: where
/// the tracer fails and meter and logger close, both are closed at the end,
/// and the procedure ends by reporting the tracer's failure.
pub proof fn lemma_shutdown_goes_on_after_failure<H>(registry: RegistryView<H>, reason: Seq<char>)
    requires
        registry.complete(),
    ensures
        ({
            let end = registry.close_failed(SignalKind::Trace, reason).closed(
                SignalKind::Metric,
            ).closed(SignalKind::Log);
            &&& next_action(end, ShutdownEventView::Closed(SignalKind::Log))
                == ShutdownActionView::Incomplete(SignalKind::Trace, reason)
            &&& end.entry(SignalKind::Metric) matches Some(meter) && meter.shut_down
            &&& end.entry(SignalKind::Log) matches Some(logger) && logger.shut_down
        }),
{
}

/// The outcome names the first failure in the order of the kinds, however
/// many providers could not be closed.
pub proof fn lemma_outcome_is_first_failure<H>(
    registry: RegistryView<H>,
    first: Seq<char>,
    second: Seq<char>,
)
    requires
        registry.complete(),
    ensures
        outcome(
            registry.close_failed(SignalKind::Metric, first).close_failed(SignalKind::Log, second),
        ) == if registry.failure_of(SignalKind::Trace) is Some {
            outcome(registry)
        } else {
            ShutdownActionView::Incomplete(SignalKind::Metric, first)
        },
{
}

} // verus!
