//! The tracing fairing: its state, what it decides when the server starts, and
//! what it does to the span of a request when the request comes in and when
//! the response goes out.

use crate::rate::SampleRate;
use crate::request::{request_to_transaction_name, transaction_name, Request};
use crate::sdk::guard_is_enabled;
use crate::span::{
    invalid_transaction, set_transaction_request, snapshot_of, start_transaction, started,
    RequestSnapshotView, TraceSpan, TraceSpanView, INVALID_TRANSACTION_NAME,
};
use crate::status::{map_status, status_of_code, SpanStatus};
use vstd::prelude::*;

verus! {

/// The name under which the fairing registers.
pub const FAIRING_NAME: &'static str = "rocket-sentry";

/// The profile that the server selects in a debug build.
pub const DEBUG_PROFILE: &'static str = "debug";

/// The profile that the server selects in a release build.
pub const RELEASE_PROFILE: &'static str = "release";

/// The environment that stands for the debug profile.
pub const DEVELOPMENT_ENVIRONMENT: &'static str = "development";

/// The environment that stands for the release profile.
pub const PRODUCTION_ENVIRONMENT: &'static str = "production";

/// The environment under which the client reports, for a profile of the
/// server: the two default profiles have environments of their own, and the
/// name of any other profile is its environment.
pub open spec fn environment_of(profile: Seq<char>) -> Seq<char> {
    if profile == DEBUG_PROFILE@ {
        DEVELOPMENT_ENVIRONMENT@
    } else if profile == RELEASE_PROFILE@ {
        PRODUCTION_ENVIRONMENT@
    } else {
        profile
    }
}

/// The environment under which the client reports, for a profile of the
/// server.
pub fn profile_to_environment(profile: &str) -> (environment: String)
    ensures
        environment@ == environment_of(profile@),
{
    let profile = profile.to_owned();
    if profile == DEBUG_PROFILE.to_owned() {
        DEVELOPMENT_ENVIRONMENT.to_owned()
    } else if profile == RELEASE_PROFILE.to_owned() {
        PRODUCTION_ENVIRONMENT.to_owned()
    } else {
        profile
    }
}

/// The settings that the fairing reads when the server starts.
#[derive(Debug)]
pub struct Config {
    /// The connection string of the monitoring backend. Absent or empty:
    /// monitoring is switched off.
    pub sentry_dsn: Option<String>,
    /// The sampling rate of transactions. Absent: zero, so that no
    /// transaction is sent.
    pub sentry_traces_sample_rate: Option<SampleRate>,
}

/// What is to be done when the server starts.
#[derive(Debug)]
pub enum IgniteAction {
    /// The settings could not be read. Nothing is started.
    NotConfigured { error: figment::Error },
    /// The settings hold no connection string, or an empty one. Nothing is
    /// started.
    Disabled,
    /// The client is to be started with these settings.
    Initialize { dsn: String, traces_sample_rate: SampleRate, environment: String },
}

/// Whether the settings hold a connection string that is not empty.
pub open spec fn has_dsn(config: Config) -> bool {
    config.sentry_dsn is Some && config.sentry_dsn.unwrap()@.len() > 0
}

/// The sampling rate that the settings give: zero where they give none.
pub open spec fn configured_rate(rate: Option<SampleRate>) -> SampleRate {
    match rate {
        Some(rate) => rate,
        None => SampleRate::zero_rate(),
    }
}

/// Whether starting the client switches transactions on: the client has to be
/// enabled, and either the rate is above zero or a sampler was supplied.
pub open spec fn init_enables(has_sampler: bool, client_enabled: bool, rate: SampleRate) -> bool {
    client_enabled && (rate.is_positive() || has_sampler)
}

/// What a fairing asks of the server: to be called when the server starts,
/// for each request and for each response, and to be the only fairing of its
/// type.
#[derive(Clone, Copy, Debug, PartialEq, Eq, Structural)]
pub struct Kind {
    pub ignite: bool,
    pub singleton: bool,
    pub request: bool,
    pub response: bool,
}

/// How a fairing presents itself to the server.
#[derive(Clone, Copy, Debug)]
pub struct Info {
    pub name: &'static str,
    pub kind: Kind,
}

/// The slot of one request, in which its span is kept from the moment the
/// request comes in until the response goes out.
#[derive(Debug)]
pub struct RequestContext {
    span: Option<TraceSpan>,
}

impl RequestContext {
    /// The span in the slot.
    pub closed spec fn spec_span(&self) -> Option<TraceSpan> {
        self.span
    }

    /// The span in the slot, as plain values.
    pub open spec fn span_view(&self) -> Option<TraceSpanView> {
        match self.spec_span() {
            Some(span) => Some(span@),
            None => None,
        }
    }

    /// The context of a new request: its slot is empty.
    pub fn new() -> (context: RequestContext)
        ensures
            context.spec_span() is None,
    {
        RequestContext { span: None }
    }

    /// The span in the slot.
    pub fn span(&self) -> (span: Option<&TraceSpan>)
        ensures
            match span {
                Some(span) => self.spec_span() == Some(*span),
                None => self.spec_span() is None,
            },
    {
        self.span.as_ref()
    }
}

/// What the response hook did with the slot of its request.
#[derive(Clone, Copy, Debug, PartialEq, Eq, Structural)]
pub enum Finished {
    /// Requests are not traced: nothing was finished.
    Nothing,
    /// The span that was started when the request came in.
    RequestSpan,
    /// A stand-in, because the slot held no span. It bears a name of its own,
    /// by which it can be told apart wherever it shows up.
    StandIn,
}

/// What the response hook finishes, for the slot as it finds it.
pub open spec fn finished_for(tracing: bool, slot: Option<TraceSpanView>) -> Finished {
    if !tracing {
        Finished::Nothing
    } else if slot is Some {
        Finished::RequestSpan
    } else {
        Finished::StandIn
    }
}

/// The slot after the request hook: where requests are traced and the slot is
/// empty, it holds a span started under the given name; else it is as it was.
pub open spec fn slot_after_request(
    tracing: bool,
    slot: Option<TraceSpanView>,
    name: Seq<char>,
) -> Option<TraceSpanView> {
    if tracing && slot is None {
        Some(started(name))
    } else {
        slot
    }
}

/// The slot after the response hook: where requests are traced, it holds the
/// span that it held, or a stand-in where it held none, with the status and
/// the snapshot, finished; else it is as it was.
pub open spec fn slot_after_response(
    tracing: bool,
    slot: Option<TraceSpanView>,
    status: SpanStatus,
    request: RequestSnapshotView,
) -> Option<TraceSpanView> {
    if tracing {
        let base = match slot {
            Some(span) => span,
            None => started(INVALID_TRANSACTION_NAME@),
        };
        Some(TraceSpanView { status: Some(status), request: Some(request), finished: true, ..base })
    } else {
        slot
    }
}

/// The request hook run twice leaves what it leaves when run once: the span
/// that the first run put in the slot stays, whatever the second run would
/// have named its own.
pub proof fn lemma_request_hook_idempotent(
    tracing: bool,
    slot: Option<TraceSpanView>,
    first: Seq<char>,
    second: Seq<char>,
)
    ensures
        slot_after_request(tracing, slot_after_request(tracing, slot, first), second)
            == slot_after_request(tracing, slot, first),
        tracing ==> finished_for(
            tracing,
            slot_after_request(tracing, slot_after_request(tracing, slot, first), second),
        ) == Finished::RequestSpan,
{
}

/// The span that the response hook finishes is the one that the request hook
/// started for the same request: it bears the name that the request hook gave
/// it, and the status and snapshot that the response hook gave it.
pub proof fn lemma_response_finishes_request_span(
    name: Seq<char>,
    status: SpanStatus,
    request: RequestSnapshotView,
)
    ensures
        slot_after_response(true, slot_after_request(true, None, name), status, request) == Some(
            TraceSpanView {
                status: Some(status),
                request: Some(request),
                finished: true,
                ..started(name)
            },
        ),
{
}

/// Where requests are not traced, neither hook touches the slot.
pub proof fn lemma_hooks_inert_without_tracing(
    slot: Option<TraceSpanView>,
    name: Seq<char>,
    status: SpanStatus,
    request: RequestSnapshotView,
)
    ensures
        slot_after_request(false, slot, name) == slot,
        slot_after_response(false, slot, status, request) == slot,
{
}

/// The fairing: the guard of the monitoring client, whether requests are
/// traced, and the sampler that the application supplied, if any.
pub struct RocketSentry<S> {
    guard: Option<sentry::ClientInitGuard>,
    transactions_enabled: bool,
    traces_sampler: Option<S>,
}

impl<S> RocketSentry<S> {
    /// Whether requests are traced.
    pub closed spec fn tracing(&self) -> bool {
        self.transactions_enabled
    }

    /// The sampler that the application supplied.
    pub closed spec fn spec_sampler(&self) -> Option<S> {
        self.traces_sampler
    }

    /// The guard of the client, once a client was started and is enabled.
    pub closed spec fn spec_guard(&self) -> Option<sentry::ClientInitGuard> {
        self.guard
    }

    /// The fairing after it took in the guard of a client that was started
    /// with the given sampling rate and is enabled or not.
    pub closed spec fn after_init(
        self,
        guard: sentry::ClientInitGuard,
        client_enabled: bool,
        traces_sample_rate: SampleRate,
    ) -> RocketSentry<S> {
        RocketSentry {
            guard: if client_enabled {
                Some(guard)
            } else {
                self.guard
            },
            transactions_enabled: self.transactions_enabled || init_enables(
                self.traces_sampler is Some,
                client_enabled,
                traces_sample_rate,
            ),
            traces_sampler: self.traces_sampler,
        }
    }

    /// What taking in a guard changes: the guard of an enabled client takes
    /// the place of any earlier one, transactions are switched on where the
    /// client is enabled and the rate is above zero or a sampler was
    /// supplied, and the sampler stays.
    pub proof fn lemma_after_init(
        self,
        guard: sentry::ClientInitGuard,
        client_enabled: bool,
        traces_sample_rate: SampleRate,
    )
        ensures
            self.after_init(guard, client_enabled, traces_sample_rate).tracing() == (self.tracing()
                || init_enables(self.spec_sampler() is Some, client_enabled, traces_sample_rate)),
            self.after_init(guard, client_enabled, traces_sample_rate).spec_guard()
                == if client_enabled {
                Some(guard)
            } else {
                self.spec_guard()
            },
            self.after_init(guard, client_enabled, traces_sample_rate).spec_sampler()
                == self.spec_sampler(),
    {
    }

    /// On a fairing that does not trace yet, an enabled client switches
    /// transactions on exactly when the sampling rate is above zero or a
    /// sampler was supplied: not at rate zero without a sampler, at any rate
    /// above zero, and with a sampler at any rate, zero too. A client that is
    /// not enabled switches nothing on.
    pub proof fn lemma_sampling_enablement(
        self,
        guard: sentry::ClientInitGuard,
        traces_sample_rate: SampleRate,
    )
        requires
            !self.tracing(),
        ensures
            self.spec_sampler() is None && !traces_sample_rate.is_positive() ==> !self.after_init(
                guard,
                true,
                traces_sample_rate,
            ).tracing(),
            self.spec_sampler() is None ==> !self.after_init(
                guard,
                true,
                SampleRate::zero_rate(),
            ).tracing(),
            traces_sample_rate.is_positive() ==> self.after_init(
                guard,
                true,
                traces_sample_rate,
            ).tracing(),
            self.spec_sampler() is Some ==> self.after_init(
                guard,
                true,
                traces_sample_rate,
            ).tracing(),
            self.spec_sampler() is Some ==> self.after_init(
                guard,
                true,
                SampleRate::zero_rate(),
            ).tracing(),
            !self.after_init(guard, false, traces_sample_rate).tracing(),
    {
        SampleRate::lemma_zero_rate();
    }

    /// Once requests are traced, no later client switches that off.
    pub proof fn lemma_tracing_stays_on(
        self,
        guard: sentry::ClientInitGuard,
        client_enabled: bool,
        traces_sample_rate: SampleRate,
    )
        requires
            self.tracing(),
        ensures
            self.after_init(guard, client_enabled, traces_sample_rate).tracing(),
    {
    }

    /// A fairing without a sampler.
    #[must_use]
    pub fn fairing() -> (fairing: RocketSentry<S>)
        ensures
            !fairing.tracing(),
            fairing.spec_sampler() is None,
            fairing.spec_guard() is None,
    {
        RocketSentry::builder().build()
    }

    /// A builder, with which a sampler can be supplied.
    #[must_use]
    pub fn builder() -> (builder: RocketSentryBuilder<S>)
        ensures
            builder.spec_sampler() is None,
    {
        RocketSentryBuilder::new()
    }

    /// Whether requests are traced.
    pub fn transactions_enabled(&self) -> (enabled: bool)
        ensures
            enabled == self.tracing(),
    {
        self.transactions_enabled
    }

    /// The sampler that the application supplied.
    pub fn sampler(&self) -> (sampler: Option<&S>)
        ensures
            match sampler {
                Some(sampler) => self.spec_sampler() == Some(*sampler),
                None => self.spec_sampler() is None,
            },
    {
        self.traces_sampler.as_ref()
    }

    /// Whether the fairing holds the guard of a client.
    pub fn has_guard(&self) -> (held: bool)
        ensures
            held == (self.spec_guard() is Some),
    {
        self.guard.is_some()
    }

    /// How the fairing presents itself to the server: under its name, and
    /// for the start of the server, once, and for each request and response.
    pub fn info(&self) -> (info: Info)
        ensures
            info.name@ == FAIRING_NAME@,
            info.kind == (Kind { ignite: true, singleton: true, request: true, response: true }),
    {
        Info {
            name: FAIRING_NAME,
            kind: Kind { ignite: true, singleton: true, request: true, response: true },
        }
    }

    /// Decides what is to be done when the server starts, from the settings
    /// as they were read and the profile that the server selected.
    pub fn on_ignite(
        &self,
        config: Result<Config, figment::Error>,
        profile: &str,
    ) -> (action: IgniteAction)
        ensures
            match config {
                Err(error) => action == (IgniteAction::NotConfigured { error }),
                Ok(config) => if !has_dsn(config) {
                    action == IgniteAction::Disabled
                } else {
                    &&& action is Initialize
                    &&& action->dsn@ == config.sentry_dsn.unwrap()@
                    &&& action->traces_sample_rate == configured_rate(
                        config.sentry_traces_sample_rate,
                    )
                    &&& action->environment@ == environment_of(profile@)
                },
            },
    {
        match config {
            Ok(config) => {
                let traces_sample_rate = match config.sentry_traces_sample_rate {
                    Some(rate) => rate,
                    None => SampleRate::zero(),
                };
                match config.sentry_dsn {
                    Some(dsn) => {
                        if dsn.as_str().is_empty() {
                            IgniteAction::Disabled
                        } else {
                            IgniteAction::Initialize {
                                dsn,
                                traces_sample_rate,
                                environment: profile_to_environment(profile),
                            }
                        }
                    },
                    None => IgniteAction::Disabled,
                }
            },
            Err(error) => IgniteAction::NotConfigured { error },
        }
    }

    /// Takes in the guard of a client that was started with the given
    /// sampling rate, once it is known whether that client is enabled. The
    /// guard of an enabled client is kept in place of any earlier one, and
    /// transactions are switched on if the rate is above zero or a sampler was
    /// supplied. They are never switched off again.
    pub fn record_init(
        &mut self,
        guard: sentry::ClientInitGuard,
        client_enabled: bool,
        traces_sample_rate: SampleRate,
    )
        ensures
            *final(self) == old(self).after_init(guard, client_enabled, traces_sample_rate),
            final(self).tracing() == (old(self).tracing() || init_enables(
                old(self).spec_sampler() is Some,
                client_enabled,
                traces_sample_rate,
            )),
            final(self).spec_guard() == if client_enabled {
                Some(guard)
            } else {
                old(self).spec_guard()
            },
            final(self).spec_sampler() == old(self).spec_sampler(),
    {
        if client_enabled {
            self.guard = Some(guard);
            if traces_sample_rate.positive() || self.traces_sampler.is_some() {
                self.transactions_enabled = true;
            }
        }
    }

    /// Takes in the guard of a client that was started with the given
    /// sampling rate, and returns whether the client is enabled.
    pub fn init(
        &mut self,
        guard: sentry::ClientInitGuard,
        traces_sample_rate: SampleRate,
    ) -> (enabled: bool)
        ensures
            *final(self) == old(self).after_init(guard, enabled, traces_sample_rate),
            final(self).tracing() == (old(self).tracing() || init_enables(
                old(self).spec_sampler() is Some,
                enabled,
                traces_sample_rate,
            )),
            final(self).spec_guard() == if enabled {
                Some(guard)
            } else {
                old(self).spec_guard()
            },
            final(self).spec_sampler() == old(self).spec_sampler(),
    {
        let enabled = guard_is_enabled(&guard);
        self.record_init(guard, enabled, traces_sample_rate);
        enabled
    }

    /// The hook for a request that comes in. Where requests are traced and the
    /// slot is empty, a span named after the request is started and put in
    /// the slot. A span that is in the slot already stays.
    pub fn on_request(&self, context: &mut RequestContext, request: &Request)
        ensures
            final(context).span_view() == slot_after_request(
                self.tracing(),
                old(context).span_view(),
                transaction_name(request.method@, request.path@),
            ),
            !self.tracing() || old(context).spec_span() is Some ==> *final(context) == *old(
                context,
            ),
    {
        if self.transactions_enabled {
            if context.span.is_none() {
                let name = request_to_transaction_name(request);
                context.span = Some(start_transaction(name.as_str()));
            }
        }
    }

    /// The hook for a response that goes out. Where requests are traced, the
    /// span in the slot, or a stand-in where the slot is empty, gets the
    /// status of the response and the snapshot of the request and is
    /// finished; it stays in the slot. The stand-in is handed to the SDK like
    /// any other span. The result says which of the two was finished.
    pub fn on_response(
        &self,
        context: &mut RequestContext,
        request: &Request,
        status: u16,
    ) -> (finished: Finished)
        ensures
            finished == finished_for(self.tracing(), old(context).span_view()),
            final(context).span_view() == slot_after_response(
                self.tracing(),
                old(context).span_view(),
                status_of_code(status as int),
                snapshot_of(*request),
            ),
            !self.tracing() ==> *final(context) == *old(context),
            self.tracing() && old(context).spec_span() is Some ==> final(context).spec_span()
                is Some && final(context).spec_span().unwrap().spec_transaction() == old(
                context,
            ).spec_span().unwrap().spec_transaction(),
    {
        if self.transactions_enabled {
            let (mut span, finished) = match context.span.take() {
                Some(span) => (span, Finished::RequestSpan),
                None => (invalid_transaction(), Finished::StandIn),
            };
            span.set_status(map_status(status));
            set_transaction_request(&mut span, request);
            span.finish();
            context.span = Some(span);
            finished
        } else {
            Finished::Nothing
        }
    }
}

/// Builds a fairing, with or without a sampler.
pub struct RocketSentryBuilder<S> {
    traces_sampler: Option<S>,
}

impl<S> Default for RocketSentryBuilder<S> {
    fn default() -> (builder: RocketSentryBuilder<S>)
        ensures
            builder.spec_sampler() is None,
    {
        RocketSentryBuilder { traces_sampler: None }
    }
}

impl<S> RocketSentryBuilder<S> {
    /// The sampler that was supplied.
    pub closed spec fn spec_sampler(&self) -> Option<S> {
        self.traces_sampler
    }

    /// A builder without a sampler.
    #[must_use]
    pub fn new() -> (builder: RocketSentryBuilder<S>)
        ensures
            builder.spec_sampler() is None,
    {
        RocketSentryBuilder { traces_sampler: None }
    }

    /// Supplies the sampler, in place of any that was supplied before.
    #[must_use]
    pub fn traces_sampler(self, traces_sampler: S) -> (builder: RocketSentryBuilder<S>)
        ensures
            builder.spec_sampler() == Some(traces_sampler),
    {
        RocketSentryBuilder { traces_sampler: Some(traces_sampler) }
    }

    /// The fairing: no client started yet, requests not traced, and the
    /// sampler as it was supplied.
    #[must_use]
    pub fn build(self) -> (fairing: RocketSentry<S>)
        ensures
            !fairing.tracing(),
            fairing.spec_guard() is None,
            fairing.spec_sampler() == self.spec_sampler(),
    {
        RocketSentry {
            guard: None,
            transactions_enabled: false,
            traces_sampler: self.traces_sampler,
        }
    }
}

} // verus!
