//! The provider registry: at most one provider per signal kind, created by
//! the first caller, kept for the life of the process, and shut down in a
//! fixed order. The registry holds the handles and takes the decisions; the
//! caller builds, flushes and closes the providers that the handles refer to.

use vstd::prelude::*;

verus! {

/// The three kinds of telemetry signal.
#[derive(Clone, Copy, Debug, PartialEq, Eq, Structural)]
pub enum SignalKind {
    Trace,
    Metric,
    Log,
}

/// A provider as the registry holds it.
pub struct Provider<H> {
    /// The caller's handle to the live provider.
    pub handle: H,
    /// The collector endpoint that the provider was built for.
    pub endpoint: String,
    /// Whether the provider has been flushed and closed.
    pub shut_down: bool,
    /// Why the last attempt to close the provider failed, if it did.
    pub close_failure: Option<String>,
}

/// The mathematical content of a [`Provider`].
pub struct ProviderView<H> {
    pub handle: H,
    pub endpoint: Seq<char>,
    pub shut_down: bool,
    pub close_failure: Option<Seq<char>>,
}

impl<H> View for Provider<H> {
    type V = ProviderView<H>;

    open spec fn view(&self) -> ProviderView<H> {
        ProviderView {
            handle: self.handle,
            endpoint: self.endpoint@,
            shut_down: self.shut_down,
            close_failure: match self.close_failure {
                Some(reason) => Some(reason@),
                None => None,
            },
        }
    }
}

/// The registry of the three providers.
pub struct ProviderRegistry<H> {
    tracer: Option<Provider<H>>,
    meter: Option<Provider<H>>,
    logger: Option<Provider<H>>,
}

/// The mathematical content of a [`ProviderRegistry`]: for each signal kind
/// the provider that was installed, if any.
pub struct RegistryView<H> {
    pub tracer: Option<ProviderView<H>>,
    pub meter: Option<ProviderView<H>>,
    pub logger: Option<ProviderView<H>>,
}

/// The view of a slot.
pub open spec fn slot_view<H>(slot: Option<Provider<H>>) -> Option<ProviderView<H>> {
    match slot {
        Some(provider) => Some(provider@),
        None => None,
    }
}

impl<H> RegistryView<H> {
    /// The registry in which nothing has been installed.
    pub open spec fn empty() -> Self {
        RegistryView { tracer: None, meter: None, logger: None }
    }

    /// The provider of a kind.
    pub open spec fn entry(self, kind: SignalKind) -> Option<ProviderView<H>> {
        match kind {
            SignalKind::Trace => self.tracer,
            SignalKind::Metric => self.meter,
            SignalKind::Log => self.logger,
        }
    }

    /// The registry with the slot of one kind replaced.
    pub open spec fn with_entry(self, kind: SignalKind, entry: Option<ProviderView<H>>) -> Self {
        match kind {
            SignalKind::Trace => RegistryView { tracer: entry, ..self },
            SignalKind::Metric => RegistryView { meter: entry, ..self },
            SignalKind::Log => RegistryView { logger: entry, ..self },
        }
    }

    /// Whether a provider of the kind has been installed.
    pub open spec fn has(self, kind: SignalKind) -> bool {
        self.entry(kind) is Some
    }

    /// Whether all three providers have been installed.
    pub open spec fn complete(self) -> bool {
        self.has(SignalKind::Trace) && self.has(SignalKind::Metric) && self.has(SignalKind::Log)
    }

    /// The registry after an attempt to install a provider: the first
    /// provider of a kind stays, a later one is not taken.
    pub open spec fn installed(self, kind: SignalKind, endpoint: Seq<char>, handle: H) -> Self {
        if self.has(kind) {
            self
        } else {
            self.with_entry(
                kind,
                Some(ProviderView { handle, endpoint, shut_down: false, close_failure: None }),
            )
        }
    }

    /// The registry after the provider of a kind has been closed.
    pub open spec fn closed(self, kind: SignalKind) -> Self {
        match self.entry(kind) {
            Some(provider) => self.with_entry(
                kind,
                Some(ProviderView { shut_down: true, close_failure: None, ..provider }),
            ),
            None => self,
        }
    }

    /// The registry after closing the provider of a kind has failed for the
    /// given reason.
    pub open spec fn close_failed(self, kind: SignalKind, reason: Seq<char>) -> Self {
        match self.entry(kind) {
            Some(provider) => self.with_entry(
                kind,
                Some(ProviderView { close_failure: Some(reason), ..provider }),
            ),
            None => self,
        }
    }

    /// The failure to close the provider of a kind, if one is recorded.
    pub open spec fn failure_of(self, kind: SignalKind) -> Option<(SignalKind, Seq<char>)> {
        match self.entry(kind) {
            Some(provider) => match provider.close_failure {
                Some(reason) => Some((kind, reason)),
                None => None,
            },
            None => None,
        }
    }

    /// The first recorded failure to close a provider, in the order tracer,
    /// meter, logger.
    pub open spec fn first_failure(self) -> Option<(SignalKind, Seq<char>)> {
        if self.failure_of(SignalKind::Trace) is Some {
            self.failure_of(SignalKind::Trace)
        } else if self.failure_of(SignalKind::Metric) is Some {
            self.failure_of(SignalKind::Metric)
        } else {
            self.failure_of(SignalKind::Log)
        }
    }
}

impl<H> View for ProviderRegistry<H> {
    type V = RegistryView<H>;

    closed spec fn view(&self) -> RegistryView<H> {
        RegistryView {
            tracer: slot_view(self.tracer),
            meter: slot_view(self.meter),
            logger: slot_view(self.logger),
        }
    }
}

/// What a caller that asks for a provider has to do.
#[derive(Clone, Copy, Debug, PartialEq, Eq, Structural)]
pub enum InitPlan {
    /// No provider of the kind exists: build one and install it.
    Build,
    /// A provider of the kind exists and was built for the same endpoint.
    Reuse,
    /// A provider of the kind exists, built for another endpoint: it is used
    /// all the same, and the caller may report the mismatch.
    ReuseOtherEndpoint,
}

/// The plan for a request of a provider of `kind` at `endpoint`.
pub open spec fn init_plan<H>(
    registry: RegistryView<H>,
    kind: SignalKind,
    endpoint: Seq<char>,
) -> InitPlan {
    match registry.entry(kind) {
        None => InitPlan::Build,
        Some(provider) => if provider.endpoint == endpoint {
            InitPlan::Reuse
        } else {
            InitPlan::ReuseOtherEndpoint
        },
    }
}

/// Compares two texts.
fn same_text(a: &str, b: &str) -> (same: bool)
    ensures
        same == (a@ == b@),
{
    let left = String::from_str(a);
    let right = String::from_str(b);
    left == right
}

impl<H> ProviderRegistry<H> {
    /// A registry without providers.
    pub fn new() -> (registry: Self)
        ensures
            registry@ == RegistryView::<H>::empty(),
    {
        ProviderRegistry { tracer: None, meter: None, logger: None }
    }

    fn slot(&self, kind: SignalKind) -> (slot: &Option<Provider<H>>)
        ensures
            slot_view(*slot) == self@.entry(kind),
    {
        match kind {
            SignalKind::Trace => &self.tracer,
            SignalKind::Metric => &self.meter,
            SignalKind::Log => &self.logger,
        }
    }

    fn put(&mut self, kind: SignalKind, provider: Provider<H>)
        ensures
            final(self)@ == old(self)@.with_entry(kind, Some(provider@)),
    {
        match kind {
            SignalKind::Trace => {
                self.tracer = Some(provider);
            },
            SignalKind::Metric => {
                self.meter = Some(provider);
            },
            SignalKind::Log => {
                self.logger = Some(provider);
            },
        }
    }

    /// Whether a provider of the kind has been installed.
    pub fn has_provider(&self, kind: SignalKind) -> (has: bool)
        ensures
            has == self@.has(kind),
    {
        self.slot(kind).is_some()
    }

    /// Whether all three providers have been installed.
    pub fn is_complete(&self) -> (complete: bool)
        ensures
            complete == self@.complete(),
    {
        self.has_provider(SignalKind::Trace) && self.has_provider(SignalKind::Metric)
            && self.has_provider(SignalKind::Log)
    }

    /// Decides what a request for the provider of `kind` at `endpoint` comes
    /// to: building one, or using the one that is there.
    pub fn plan_init(&self, kind: SignalKind, endpoint: &str) -> (plan: InitPlan)
        ensures
            plan == init_plan(self@, kind, endpoint@),
    {
        match self.slot(kind) {
            None => InitPlan::Build,
            Some(provider) => if same_text(provider.endpoint.as_str(), endpoint) {
                InitPlan::Reuse
            } else {
                InitPlan::ReuseOtherEndpoint
            },
        }
    }

    /// Installs a provider unless one of its kind is there already. The
    /// result says whether the handle was taken; where it was not, the
    /// registry is unchanged and the handle is dropped.
    pub fn install(&mut self, kind: SignalKind, endpoint: &str, handle: H) -> (taken: bool)
        ensures
            final(self)@ == old(self)@.installed(kind, endpoint@, handle),
            taken == !old(self)@.has(kind),
    {
        if self.has_provider(kind) {
            false
        } else {
            self.put(
                kind,
                Provider {
                    handle,
                    endpoint: String::from_str(endpoint),
                    shut_down: false,
                    close_failure: None,
                },
            );
            true
        }
    }

    /// The provider-initialization entry point: hands out the provider of
    /// `kind`, building it with `build` if none exists yet. The first call
    /// for a kind installs what `build` returns, for the given endpoint;
    /// every later call leaves the registry as it is, does not call `build`,
    /// and hands out the provider that the first call installed, whatever
    /// endpoint it is given. `build` has to be callable only where no
    /// provider of the kind exists: where one exists it is never run, so
    /// nothing is built a second time.
    pub fn get_or_init_provider<F: FnOnce() -> H>(
        &mut self,
        kind: SignalKind,
        endpoint: &str,
        build: F,
    ) -> (handle: &H)
        requires
            !old(self)@.has(kind) ==> build.requires(()),
        ensures
            final(self)@.entry(kind) matches Some(provider) && provider.handle == *handle,
            old(self)@.has(kind) ==> final(self)@ == old(self)@,
            !old(self)@.has(kind) ==> build.ensures((), *handle) && final(self)@ == old(
                self,
            )@.installed(kind, endpoint@, *handle),
    {
        if !self.has_provider(kind) {
            let handle = build();
            self.install(kind, endpoint, handle);
        }
        self.get_provider(kind)
    }

    /// The handle of the provider of a kind. The provider must have been
    /// installed.
    pub fn get_provider(&self, kind: SignalKind) -> (handle: &H)
        requires
            self@.has(kind),
        ensures
            self@.entry(kind) matches Some(provider) && provider.handle == *handle,
    {
        match self.slot(kind) {
            Some(provider) => &provider.handle,
            None => vstd::pervasive::unreached(),
        }
    }

    /// The handle of the provider of a kind, if one has been installed.
    pub fn find_provider(&self, kind: SignalKind) -> (handle: Option<&H>)
        ensures
            match self@.entry(kind) {
                Some(provider) => handle matches Some(found) && provider.handle == *found,
                None => handle is None,
            },
    {
        match self.slot(kind) {
            Some(provider) => Some(&provider.handle),
            None => None,
        }
    }

    /// Whether the provider of a kind has been closed.
    pub fn is_shut_down(&self, kind: SignalKind) -> (closed: bool)
        ensures
            closed == (self@.entry(kind) matches Some(provider) && provider.shut_down),
    {
        match self.slot(kind) {
            Some(provider) => provider.shut_down,
            None => false,
        }
    }

    /// Records the shutdown of the provider of a kind: the caller has flushed
    /// and closed it. The handle stays in the registry. The provider must
    /// have been installed.
    pub fn shutdown_provider(&mut self, kind: SignalKind)
        requires
            old(self)@.has(kind),
        ensures
            final(self)@ == old(self)@.closed(kind),
    {
        match kind {
            SignalKind::Trace => {
                if let Some(provider) = &mut self.tracer {
                    provider.shut_down = true;
                    provider.close_failure = None;
                }
            },
            SignalKind::Metric => {
                if let Some(provider) = &mut self.meter {
                    provider.shut_down = true;
                    provider.close_failure = None;
                }
            },
            SignalKind::Log => {
                if let Some(provider) = &mut self.logger {
                    provider.shut_down = true;
                    provider.close_failure = None;
                }
            },
        }
    }

    /// Records that closing the provider of a kind has failed, and why. The
    /// provider must have been installed.
    pub fn record_close_failure(&mut self, kind: SignalKind, reason: String)
        requires
            old(self)@.has(kind),
        ensures
            final(self)@ == old(self)@.close_failed(kind, reason@),
    {
        match kind {
            SignalKind::Trace => {
                if let Some(provider) = &mut self.tracer {
                    provider.close_failure = Some(reason);
                }
            },
            SignalKind::Metric => {
                if let Some(provider) = &mut self.meter {
                    provider.close_failure = Some(reason);
                }
            },
            SignalKind::Log => {
                if let Some(provider) = &mut self.logger {
                    provider.close_failure = Some(reason);
                }
            },
        }
    }

    /// The recorded failure to close the provider of a kind.
    fn failure_of(&self, kind: SignalKind) -> (failure: Option<(SignalKind, String)>)
        ensures
            match self@.failure_of(kind) {
                Some((failed, reason)) => failure matches Some((found, text)) && found == failed
                    && text@ == reason,
                None => failure is None,
            },
    {
        match self.slot(kind) {
            Some(provider) => match &provider.close_failure {
                Some(reason) => Some((kind, String::from_str(reason.as_str()))),
                None => None,
            },
            None => None,
        }
    }

    /// The first recorded failure to close a provider, in the order tracer,
    /// meter, logger.
    pub fn first_failure(&self) -> (failure: Option<(SignalKind, String)>)
        ensures
            match self@.first_failure() {
                Some((failed, reason)) => failure matches Some((found, text)) && found == failed
                    && text@ == reason,
                None => failure is None,
            },
    {
        let tracer = self.failure_of(SignalKind::Trace);
        if tracer.is_some() {
            return tracer;
        }
        let meter = self.failure_of(SignalKind::Metric);
        if meter.is_some() {
            return meter;
        }
        self.failure_of(SignalKind::Log)
    }
}

/// Installing twice is installing once: the second handle is not taken, and
/// the registry holds the provider that the first call installed.
pub proof fn lemma_install_is_idempotent<H>(
    registry: RegistryView<H>,
    kind: SignalKind,
    first_endpoint: Seq<char>,
    first: H,
    second_endpoint: Seq<char>,
    second: H,
)
    ensures
        registry.installed(kind, first_endpoint, first).installed(kind, second_endpoint, second)
            == registry.installed(kind, first_endpoint, first),
        registry.installed(kind, first_endpoint, first).has(kind),
        !registry.has(kind) ==> registry.installed(kind, first_endpoint, first).entry(kind) == Some(
            ProviderView {
                handle: first,
                endpoint: first_endpoint,
                shut_down: false,
                close_failure: None,
            },
        ),
{
}

} // verus!
