//! Composite adapter: a primary and a secondary provider behind one policy and
//! one circuit breaker.
//!
//! | Trigger       | Condition                                   | Effect                                  |
//! |---------------|---------------------------------------------|-----------------------------------------|
//! | out of memory | the primary reports it                      | falls back at once; opens the breaker   |
//! | slow start    | no first item within the threshold          | retries on the secondary                |
//! | rate limit    | the primary asks for a pause                | retries on the secondary                |
//! | failures      | as many in a row as the window              | opens the breaker and falls back        |
//! | breaker open  | until the cooldown ends                     | goes straight to the secondary          |
//! | recovery      | the primary is ready once the cooldown ends | closes the breaker; back to the primary |
//!
//! A stream that began is never continued by the other provider; every
//! effective change of provider is reported; under `LocalOnly` every trigger is
//! a visible error; a cancellation never counts as a failure.
//!
//! The adapter decides; whoever drives it asks for health, makes the attempts
//! and hands back what came of them. Instants are milliseconds of a monotonic
//! clock.

use vstd::prelude::*;

use crate::llm::{ProviderError, StreamItem};
use crate::protocol::api::{ProviderHealth, ProviderStatus, Thresholds};
use crate::protocol::events::FallbackTrigger;
use crate::protocol::ids::ProviderId;
use crate::text;

verus! {

/// Which providers may be used.
#[derive(Debug, Clone, Copy, PartialEq, Eq, Structural)]
pub enum ModelPolicy {
    LocalFirst,
    LocalOnly,
    ExternalOnly,
}

/// Effective change of provider.
#[derive(Debug, PartialEq)]
pub struct SwitchInfo {
    pub from: ProviderId,
    pub to: ProviderId,
    pub trigger: FallbackTrigger,
}

/// Who served a call, and whether that is a change.
#[derive(Debug, PartialEq)]
pub struct GenerationOutcome {
    pub provider_id: ProviderId,
    pub switch: Option<SwitchInfo>,
}

/// State of the circuit breaker.
#[derive(Debug, PartialEq)]
pub struct BreakerState {
    pub consecutive_failures: u32,
    /// When set, the breaker is open until then.
    pub open_until: Option<u64>,
    /// A stream broke: the next call goes to the secondary.
    pub force_secondary_next: bool,
    /// Provider that served last.
    pub current: ProviderId,
    /// Last probe of the primary while the breaker was open.
    pub last_health_probe: Option<u64>,
}

/// Pause between two probes of the primary while the breaker is open.
pub const HEALTH_PROBE_INTERVAL_MS: u64 = 15_000;

/// Where a call goes.
#[derive(Debug, Clone, Copy, PartialEq, Eq, Structural)]
pub enum Route {
    Primary,
    Secondary(FallbackTrigger),
}

/// One of the two providers.
#[derive(Debug, Clone, Copy, PartialEq, Eq, Structural)]
pub enum Side {
    Primary,
    Secondary,
}

/// An attempt to generate, and what its failure will mean.
#[derive(Debug, Clone, Copy, PartialEq, Eq, Structural)]
pub enum Attempt {
    /// The only attempt of the call.
    Direct(Side, FallbackTrigger),
    /// The primary, whose errors the machine classifies.
    Primary,
    /// The secondary, after the primary failed.
    Fallback(FallbackTrigger),
}

/// What to do next with a call.
#[derive(Debug, PartialEq)]
pub enum Next {
    /// Ask the primary how it is.
    AskHealth,
    /// Try to generate.
    Try(Attempt),
    /// The stream began: hand it on.
    Served(GenerationOutcome),
    /// The call failed, visibly.
    Failed(ProviderError),
}

/// What came of waiting for the first item of a stream.
#[derive(Debug, PartialEq)]
pub enum FirstItem {
    /// Nothing came within the threshold.
    Elapsed,
    /// The stream ended.
    Ended,
    Failed(ProviderError),
    Item(StreamItem),
}

/// Whether two providers go by the same name.
pub open spec fn same_provider(a: ProviderId, b: ProviderId) -> bool {
    a.0@ == b.0@
}

/// Whether a cooldown that starts at an instant ends within the clock's range.
pub open spec fn clock_fits(now: u64, cooldown_s: u32) -> bool {
    now + cooldown_s * 1000 <= u64::MAX
}

impl Attempt {
    /// The provider that the attempt goes to.
    pub open spec fn side_of(self) -> Side {
        match self {
            Attempt::Direct(side, _) => side,
            Attempt::Primary => Side::Primary,
            Attempt::Fallback(_) => Side::Secondary,
        }
    }

    /// The provider that the attempt goes to.
    pub fn side(&self) -> (r: Side)
        ensures
            r == self.side_of(),
    {
        match self {
            Attempt::Direct(side, _) => *side,
            Attempt::Primary => Side::Primary,
            Attempt::Fallback(_) => Side::Secondary,
        }
    }
}

impl BreakerState {
    /// The breaker opens for a cooldown.
    pub open spec fn opened(self, now: u64, cooldown_s: u32) -> Self {
        BreakerState {
            open_until: Some((now + cooldown_s * 1000) as u64),
            last_health_probe: None,
            ..self
        }
    }

    /// Whether one more failure can be counted: it fits in the counter and, if
    /// it opens the breaker, the cooldown fits in the clock.
    pub open spec fn can_count(self, th: Thresholds, now: u64) -> bool {
        &&& self.consecutive_failures < u32::MAX
        &&& self.consecutive_failures + 1 >= th.failure_window ==> clock_fits(now, th.cooldown_s)
    }

    /// Whether an error of the primary can be noted.
    pub open spec fn can_note(self, err: ProviderError, th: Thresholds, now: u64) -> bool {
        match err {
            ProviderError::OutOfMemory => clock_fits(now, th.cooldown_s),
            ProviderError::Transport(_) | ProviderError::InvalidResponse(_) => self.can_count(
                th,
                now,
            ),
            _ => true,
        }
    }

    /// One more failure; the breaker opens when they fill the window.
    pub open spec fn counted(self, th: Thresholds, now: u64) -> Self {
        let more = BreakerState {
            consecutive_failures: (self.consecutive_failures + 1) as u32,
            ..self
        };
        if self.consecutive_failures + 1 >= th.failure_window {
            more.opened(now, th.cooldown_s)
        } else {
            more
        }
    }

    /// The primary recovered.
    pub open spec fn recovered(self) -> Self {
        BreakerState {
            open_until: None,
            consecutive_failures: 0,
            last_health_probe: None,
            ..self
        }
    }

    /// A provider began to serve.
    pub open spec fn served(self, provider: ProviderId) -> Self {
        BreakerState {
            consecutive_failures: 0,
            current: if same_provider(self.current, provider) { self.current } else { provider },
            ..self
        }
    }

    /// The change that a serving provider makes, if any.
    pub open spec fn change(self, provider: ProviderId, trigger: FallbackTrigger) -> Option<SwitchInfo> {
        if same_provider(self.current, provider) {
            None
        } else {
            Some(SwitchInfo { from: self.current, to: provider, trigger })
        }
    }

    /// A stream that had begun broke off.
    pub open spec fn broken(self, err: ProviderError, th: Thresholds, now: u64) -> Self {
        if err is Cancelled {
            self
        } else {
            (BreakerState { force_secondary_next: true, ..self }).counted(th, now)
        }
    }

    /// Whether the breaker is open and the primary is due a probe.
    pub open spec fn probe_due(self, now: u64) -> bool {
        match self.open_until {
            None => false,
            Some(until) => now >= until || (match self.last_health_probe {
                None => true,
                Some(t) => now - t >= HEALTH_PROBE_INTERVAL_MS,
            }),
        }
    }

    /// What routing a call leaves behind: the order to use the secondary is
    /// spent, and a probe during the cooldown is noted.
    pub open spec fn routed(self, policy: ModelPolicy, now: u64) -> Self {
        if policy is LocalFirst {
            BreakerState {
                force_secondary_next: false,
                last_health_probe: if (self.open_until matches Some(until) && now < until)
                    && self.probe_due(now) {
                    Some(now)
                } else {
                    self.last_health_probe
                },
                ..self
            }
        } else {
            self
        }
    }

    /// Where a call goes; none when the primary's health decides.
    pub open spec fn route_of(self, policy: ModelPolicy, now: u64, later: u64) -> Option<Route> {
        match policy {
            ModelPolicy::ExternalOnly => Some(Route::Secondary(FallbackTrigger::Manual)),
            ModelPolicy::LocalOnly => Some(Route::Primary),
            ModelPolicy::LocalFirst => if self.force_secondary_next {
                Some(Route::Secondary(FallbackTrigger::Failures))
            } else {
                match self.open_until {
                    None => Some(Route::Primary),
                    Some(until) => if self.probe_due(now) && later >= until {
                        None
                    } else {
                        Some(Route::Secondary(FallbackTrigger::Failures))
                    },
                }
            },
        }
    }
}

/// What an error of the primary triggers; the failures so far decide for the
/// errors that count.
pub open spec fn trigger_of(err: ProviderError, failures: u32, window: u32) -> Option<FallbackTrigger> {
    match err {
        ProviderError::OutOfMemory => Some(FallbackTrigger::Oom),
        ProviderError::RateLimited { .. } => Some(FallbackTrigger::RateLimited),
        ProviderError::Timeout { .. } => Some(FallbackTrigger::TtftExceeded),
        ProviderError::Transport(_) | ProviderError::InvalidResponse(_) =>
            if failures + 1 >= window { Some(FallbackTrigger::Failures) } else { None },
        ProviderError::Cancelled => None,
    }
}

/// The breaker once the primary failed an attempt.
pub open spec fn after_primary_error(
    st: BreakerState,
    err: ProviderError,
    th: Thresholds,
    now: u64,
) -> BreakerState {
    match err {
        ProviderError::OutOfMemory => st.opened(now, th.cooldown_s),
        ProviderError::Transport(_) | ProviderError::InvalidResponse(_) => st.counted(th, now),
        _ => st,
    }
}

/// The adapter: its two providers and the state of its breaker.
#[derive(Debug, PartialEq)]
pub struct FallbackAdapter {
    pub primary: ProviderId,
    pub secondary: ProviderId,
    pub state: BreakerState,
}

/// How a call begins: the first step, and the adapter after it.
pub open spec fn begins(
    before: FallbackAdapter,
    policy: ModelPolicy,
    now: u64,
    later: u64,
    r: Next,
    after: FallbackAdapter,
) -> bool {
    &&& r == (match before.state.route_of(policy, now, later) {
        Some(route) => Next::Try(before.attempt_on(route)),
        None => Next::AskHealth,
    })
    &&& after == before.with(before.state.routed(policy, now))
}

/// What the health of the primary leads to.
pub open spec fn probes(
    before: FallbackAdapter,
    health: ProviderHealth,
    r: Next,
    after: FallbackAdapter,
) -> bool {
    &&& health is Ready ==> {
        &&& r == Next::Try(before.attempt_on(Route::Primary))
        &&& after == before.with(before.state.recovered())
    }
    &&& !(health is Ready) ==> {
        &&& r == Next::Try(before.attempt_on(Route::Secondary(FallbackTrigger::Failures)))
        &&& after == before
    }
}

/// Whether this is the side whose provider served last.
pub open spec fn is_in_use(adapter: FallbackAdapter, r: Side) -> bool {
    r == (if same_provider(adapter.state.current, adapter.secondary) {
        Side::Secondary
    } else {
        Side::Primary
    })
}

impl FallbackAdapter {
    /// The name of a provider.
    pub open spec fn name_of(self, side: Side) -> ProviderId {
        match side {
            Side::Primary => self.primary,
            Side::Secondary => self.secondary,
        }
    }

    /// The first attempt along a route. A primary that goes by the secondary's
    /// name gets the only attempt of its call.
    pub open spec fn attempt_on(self, route: Route) -> Attempt {
        match route {
            Route::Secondary(trigger) => Attempt::Direct(Side::Secondary, trigger),
            Route::Primary => if same_provider(self.primary, self.secondary) {
                Attempt::Direct(Side::Primary, FallbackTrigger::Manual)
            } else {
                Attempt::Primary
            },
        }
    }

    /// The adapter with another breaker.
    pub open spec fn with(self, state: BreakerState) -> Self {
        FallbackAdapter { state, ..self }
    }

    /// What an attempt leads to, once it began to stream or failed: the next
    /// step, and the adapter after it.
    pub open spec fn goes_on(
        self,
        attempt: Attempt,
        policy: ModelPolicy,
        th: Thresholds,
        result: Result<(), ProviderError>,
        now: u64,
        next: Next,
        after: Self,
    ) -> bool {
        match result {
            Ok(()) => {
                let trigger = match attempt {
                    Attempt::Direct(_, trigger) => trigger,
                    Attempt::Primary => FallbackTrigger::Manual,
                    Attempt::Fallback(trigger) => trigger,
                };
                let provider = self.name_of(attempt.side_of());
                &&& next == Next::Served(
                    GenerationOutcome {
                        provider_id: provider,
                        switch: self.state.change(provider, trigger),
                    },
                )
                &&& after == self.with(self.state.served(provider))
            },
            Err(err) => match attempt {
                Attempt::Primary => {
                    let trigger = trigger_of(
                        err,
                        self.state.consecutive_failures,
                        th.failure_window,
                    );
                    &&& after == self.with(after_primary_error(self.state, err, th, now))
                    &&& next == if trigger is Some && !(policy is LocalOnly) {
                        Next::Try(Attempt::Fallback(trigger->0))
                    } else {
                        Next::Failed(err)
                    }
                },
                _ => after == self && next == Next::Failed(err),
            },
        }
    }

    /// An adapter whose breaker is closed and whose primary serves.
    pub fn new(primary: ProviderId, secondary: ProviderId) -> (r: Self)
        ensures
            r.primary == primary,
            r.secondary == secondary,
            r.state == (BreakerState {
                consecutive_failures: 0,
                open_until: None,
                force_secondary_next: false,
                current: primary,
                last_health_probe: None,
            }),
    {
        let current = primary.clone();
        FallbackAdapter {
            primary,
            secondary,
            state: BreakerState {
                consecutive_failures: 0,
                open_until: None,
                force_secondary_next: false,
                current,
                last_health_probe: None,
            },
        }
    }

    /// The provider that served last.
    pub fn id(&self) -> (r: ProviderId)
        ensures
            r == self.state.current,
    {
        self.state.current.clone()
    }

    /// The provider whose health is the adapter's: the one that served last.
    pub fn status_side(&self) -> (r: Side)
        ensures
            is_in_use(*self, r),
    {
        if text::same(self.state.current.0.as_str(), self.secondary.0.as_str()) {
            Side::Secondary
        } else {
            Side::Primary
        }
    }

    /// The adapter's status, given the health of the provider that
    /// `status_side` names.
    pub fn status(&self, health: ProviderHealth) -> (r: ProviderStatus)
        ensures
            r.id == self.state.current.0,
            r.health == health,
            r.reason is None,
    {
        ProviderStatus { id: self.state.current.0.clone(), health, reason: None }
    }

    /// Decides where a call goes, from the policy and the breaker. `now` is
    /// read first, `later` when the probe is considered. None asks for the
    /// primary's health.
    pub fn route(&mut self, policy: ModelPolicy, now: u64, later: u64) -> (r: Option<Route>)
        ensures
            r == old(self).state.route_of(policy, now, later),
            *final(self) == old(self).with(old(self).state.routed(policy, now)),
    {
        match policy {
            ModelPolicy::ExternalOnly => Some(Route::Secondary(FallbackTrigger::Manual)),
            ModelPolicy::LocalOnly => Some(Route::Primary),
            ModelPolicy::LocalFirst => {
                let forced = self.state.force_secondary_next;
                self.state.force_secondary_next = false;
                match self.state.open_until {
                    None => if forced {
                        Some(Route::Secondary(FallbackTrigger::Failures))
                    } else {
                        Some(Route::Primary)
                    },
                    Some(until) => {
                        let due = now >= until || (match self.state.last_health_probe {
                            None => true,
                            Some(t) => now >= t && now - t >= HEALTH_PROBE_INTERVAL_MS,
                        });
                        if now < until && due {
                            self.state.last_health_probe = Some(now);
                        }
                        if !forced && due && later >= until {
                            None
                        } else {
                            Some(Route::Secondary(FallbackTrigger::Failures))
                        }
                    },
                }
            },
        }
    }

    /// The first attempt along a route.
    fn first_attempt(&self, route: Route) -> (r: Attempt)
        ensures
            r == self.attempt_on(route),
    {
        match route {
            Route::Secondary(trigger) => Attempt::Direct(Side::Secondary, trigger),
            Route::Primary => if text::same(self.primary.0.as_str(), self.secondary.0.as_str()) {
                Attempt::Direct(Side::Primary, FallbackTrigger::Manual)
            } else {
                Attempt::Primary
            },
        }
    }

    /// Starts a call: the first attempt, or a question about the primary's
    /// health.
    pub fn generate_with_info(&mut self, policy: ModelPolicy, now: u64, later: u64) -> (r: Next)
        ensures
            begins(*old(self), policy, now, later, r, *final(self)),
    {
        match self.route(policy, now, later) {
            Some(route) => Next::Try(self.first_attempt(route)),
            None => Next::AskHealth,
        }
    }

    /// Goes on once the primary's health is known: a ready primary closes the
    /// breaker and gets the call.
    pub fn after_health(&mut self, health: ProviderHealth) -> (r: Next)
        ensures
            probes(*old(self), health, r, *final(self)),
    {
        if health == ProviderHealth::Ready {
            self.state.open_until = None;
            self.state.consecutive_failures = 0;
            self.state.last_health_probe = None;
            Next::Try(self.first_attempt(Route::Primary))
        } else {
            Next::Try(self.first_attempt(Route::Secondary(FallbackTrigger::Failures)))
        }
    }

    /// Opens the breaker for a cooldown.
    fn open_breaker(&mut self, now: u64, cooldown_s: u32)
        requires
            clock_fits(now, cooldown_s),
        ensures
            *final(self) == old(self).with(old(self).state.opened(now, cooldown_s)),
    {
        self.state.open_until = Some(now + cooldown_s as u64 * 1000);
        self.state.last_health_probe = None;
    }

    /// Counts a failure, and answers whether that opened the breaker.
    fn count_failure(&mut self, th: Thresholds, now: u64) -> (r: bool)
        requires
            old(self).state.can_count(th, now),
        ensures
            r == (old(self).state.consecutive_failures + 1 >= th.failure_window),
            *final(self) == old(self).with(old(self).state.counted(th, now)),
    {
        self.state.consecutive_failures = self.state.consecutive_failures + 1;
        let opened = self.state.consecutive_failures >= th.failure_window;
        if opened {
            self.open_breaker(now, th.cooldown_s);
        }
        opened
    }

    /// Notes that a provider began to serve, and reports the change.
    fn note_success(&mut self, side: Side, trigger: FallbackTrigger) -> (r: GenerationOutcome)
        ensures
            r.provider_id == old(self).name_of(side),
            r.switch == old(self).state.change(old(self).name_of(side), trigger),
            *final(self) == old(self).with(old(self).state.served(old(self).name_of(side))),
    {
        let provider_id = match side {
            Side::Primary => self.primary.clone(),
            Side::Secondary => self.secondary.clone(),
        };
        self.state.consecutive_failures = 0;
        if text::same(self.state.current.0.as_str(), provider_id.0.as_str()) {
            GenerationOutcome { provider_id, switch: None }
        } else {
            let from = self.state.current.clone();
            self.state.current = provider_id.clone();
            let to = provider_id.clone();
            GenerationOutcome { provider_id, switch: Some(SwitchInfo { from, to, trigger }) }
        }
    }

    /// Goes on once an attempt began to stream or failed.
    pub fn after_attempt(
        &mut self,
        attempt: Attempt,
        policy: ModelPolicy,
        th: Thresholds,
        result: Result<(), ProviderError>,
        now: u64,
    ) -> (r: Next)
        requires
            attempt is Primary && result is Err ==> old(self).state.can_note(
                result->Err_0,
                th,
                now,
            ),
        ensures
            old(self).goes_on(attempt, policy, th, result, now, r, *final(self)),
    {
        match result {
            Ok(()) => {
                let trigger = match attempt {
                    Attempt::Direct(_, trigger) => trigger,
                    Attempt::Primary => FallbackTrigger::Manual,
                    Attempt::Fallback(trigger) => trigger,
                };
                Next::Served(self.note_success(attempt.side(), trigger))
            },
            Err(err) => match attempt {
                Attempt::Primary => {
                    let trigger = match &err {
                        ProviderError::OutOfMemory => {
                            self.open_breaker(now, th.cooldown_s);
                            Some(FallbackTrigger::Oom)
                        },
                        ProviderError::RateLimited { .. } => Some(FallbackTrigger::RateLimited),
                        ProviderError::Timeout { .. } => Some(FallbackTrigger::TtftExceeded),
                        ProviderError::Transport(_) | ProviderError::InvalidResponse(_) => {
                            if self.count_failure(th, now) {
                                Some(FallbackTrigger::Failures)
                            } else {
                                None
                            }
                        },
                        ProviderError::Cancelled => None,
                    };
                    match trigger {
                        Some(trigger) if policy != ModelPolicy::LocalOnly => {
                            Next::Try(Attempt::Fallback(trigger))
                        },
                        _ => Next::Failed(err),
                    }
                },
                _ => Next::Failed(err),
            },
        }
    }

    /// Takes note of an error in a stream that had begun: it counts, and the
    /// next call goes to the secondary. A cancellation leaves no trace.
    pub fn stream_failed(&mut self, err: &ProviderError, th: Thresholds, now: u64)
        requires
            !(err is Cancelled) ==> old(self).state.can_count(th, now),
        ensures
            *final(self) == old(self).with(old(self).state.broken(*err, th, now)),
    {
        match err {
            ProviderError::Cancelled => {},
            _ => {
                self.state.force_secondary_next = true;
                self.count_failure(th, now);
            },
        }
    }
}

/// What waiting for a first item comes to.
pub open spec fn comes_to(
    first: FirstItem,
    ttft_ms: u64,
    r: Result<StreamItem, ProviderError>,
) -> bool {
    match first {
        FirstItem::Elapsed => r == Err::<StreamItem, ProviderError>(
            ProviderError::Timeout { after_ms: ttft_ms },
        ),
        FirstItem::Ended => r matches Err(ProviderError::InvalidResponse(detail))
            && detail@ == "stream vacío del proveedor"@,
        FirstItem::Failed(err) => r == Err::<StreamItem, ProviderError>(err),
        FirstItem::Item(item) => r == Ok::<StreamItem, ProviderError>(item),
    }
}

/// What an attempt comes to, given what came of waiting for its first item:
/// that item, or the error to classify.
pub fn attempt_result(first: FirstItem, ttft_ms: u64) -> (r: Result<StreamItem, ProviderError>)
    ensures
        comes_to(first, ttft_ms, r),
{
    match first {
        FirstItem::Elapsed => Err(ProviderError::Timeout { after_ms: ttft_ms }),
        FirstItem::Ended => {
            Err(ProviderError::InvalidResponse("stream vacío del proveedor".to_owned()))
        },
        FirstItem::Failed(err) => Err(err),
        FirstItem::Item(item) => Ok(item),
    }
}

/// Law: a stream that broke is never continued elsewhere, and the next call
/// under `LocalFirst` goes to the secondary, whatever the breaker says.
pub proof fn law_broken_stream_moves_next_call(
    st: BreakerState,
    err: ProviderError,
    th: Thresholds,
    at: u64,
    now: u64,
    later: u64,
)
    requires
        !(err is Cancelled),
    ensures
        st.broken(err, th, at).route_of(ModelPolicy::LocalFirst, now, later) == Some(
            Route::Secondary(FallbackTrigger::Failures),
        ),
        !st.broken(err, th, at).routed(ModelPolicy::LocalFirst, now).force_secondary_next,
{
}

/// Law: a cancellation never counts, neither before nor during a stream, and
/// triggers nothing.
pub proof fn law_cancellation_never_counts(
    st: BreakerState,
    th: Thresholds,
    now: u64,
    failures: u32,
)
    ensures
        after_primary_error(st, ProviderError::Cancelled, th, now) == st,
        st.broken(ProviderError::Cancelled, th, now) == st,
        trigger_of(ProviderError::Cancelled, failures, th.failure_window) is None,
{
}

/// Law: under `LocalOnly` a call starts at the primary, under `ExternalOnly`
/// at the secondary, whatever the breaker says, and neither touches it.
pub proof fn law_fixed_policies_ignore_breaker(st: BreakerState, now: u64, later: u64)
    ensures
        st.route_of(ModelPolicy::LocalOnly, now, later) == Some(Route::Primary),
        st.route_of(ModelPolicy::ExternalOnly, now, later) == Some(
            Route::Secondary(FallbackTrigger::Manual),
        ),
        st.routed(ModelPolicy::LocalOnly, now) == st,
        st.routed(ModelPolicy::ExternalOnly, now) == st,
{
}

/// Law: while the breaker is open, no call under `LocalFirst` reaches the
/// primary and none asks for its health.
pub proof fn law_open_breaker_uses_secondary(st: BreakerState, until: u64, now: u64, later: u64)
    requires
        st.open_until == Some(until),
        now < until,
        later < until,
    ensures
        st.route_of(ModelPolicy::LocalFirst, now, later) == Some(
            Route::Secondary(FallbackTrigger::Failures),
        ),
        st.routed(ModelPolicy::LocalFirst, now).open_until == Some(until),
{
}

/// Law: once the cooldown ended the primary's health decides, unless a broken
/// stream orders the secondary; a recovered breaker is closed, and the next
/// call under `LocalFirst` goes to the primary.
pub proof fn law_recovery(st: BreakerState, until: u64, now: u64, later: u64)
    requires
        st.open_until == Some(until),
        !st.force_secondary_next,
        until <= now <= later,
    ensures
        st.route_of(ModelPolicy::LocalFirst, now, later) is None,
        st.routed(ModelPolicy::LocalFirst, now).recovered().route_of(
            ModelPolicy::LocalFirst,
            now,
            later,
        ) == Some(Route::Primary),
{
}

/// Law: running out of memory opens the breaker at once; a slow start and a
/// rate limit fall back without touching it.
pub proof fn law_immediate_triggers(
    st: BreakerState,
    err: ProviderError,
    th: Thresholds,
    now: u64,
)
    requires
        clock_fits(now, th.cooldown_s),
        err is OutOfMemory || err is Timeout || err is RateLimited,
    ensures
        trigger_of(err, st.consecutive_failures, th.failure_window) is Some,
        err is OutOfMemory ==> after_primary_error(st, err, th, now).open_until == Some(
            (now + th.cooldown_s * 1000) as u64,
        ),
        !(err is OutOfMemory) ==> after_primary_error(st, err, th, now) == st,
{
}

/// The breaker after a number of failures in a row.
pub open spec fn counted_times(st: BreakerState, th: Thresholds, now: u64, n: nat) -> BreakerState
    decreases n,
{
    if n == 0 {
        st
    } else {
        counted_times(st, th, now, (n - 1) as nat).counted(th, now)
    }
}

/// Law: from a closed breaker with no failures, exactly the failure that fills
/// the window opens it; each one before leaves it closed.
pub proof fn law_window_opens_breaker(st: BreakerState, th: Thresholds, now: u64, n: nat)
    requires
        st.consecutive_failures == 0,
        st.open_until is None,
        0 < n <= th.failure_window,
    ensures
        counted_times(st, th, now, n).consecutive_failures == n,
        counted_times(st, th, now, n).open_until is Some <==> n == th.failure_window,
    decreases n,
{
    if n == 1 {
        assert(counted_times(st, th, now, 0) == st);
    } else {
        law_window_opens_breaker(st, th, now, (n - 1) as nat);
    }
}

/// Law: a provider that serves becomes the current one and empties the window,
/// and the change is reported exactly when its name is new.
pub proof fn law_change_is_reported(st: BreakerState, provider: ProviderId, trigger: FallbackTrigger)
    ensures
        same_provider(st.served(provider).current, provider),
        st.served(provider).consecutive_failures == 0,
        st.change(provider, trigger) is Some <==> !same_provider(st.current, provider),
        st.change(provider, trigger) matches Some(info) ==> info.from == st.current && info.to
            == provider && info.trigger == trigger,
        st.served(provider).change(provider, trigger) is None,
{
}

/// Law: under `LocalOnly` an error of the primary is the error of the call: the
/// secondary is never tried, and the next call asks the primary again.
pub proof fn law_local_only_fails_openly(
    adapter: FallbackAdapter,
    th: Thresholds,
    err: ProviderError,
    at: u64,
    next: Next,
    after: FallbackAdapter,
    now: u64,
    later: u64,
)
    requires
        !same_provider(adapter.primary, adapter.secondary),
        adapter.goes_on(Attempt::Primary, ModelPolicy::LocalOnly, th, Err(err), at, next, after),
    ensures
        next == Next::Failed(err),
        after.state.route_of(ModelPolicy::LocalOnly, now, later) == Some(Route::Primary),
        after.attempt_on(Route::Primary) == Attempt::Primary,
{
}

/// Law: a cancelled attempt is the end of its call and leaves no trace, under
/// every policy.
pub proof fn law_cancelled_call_leaves_no_trace(
    adapter: FallbackAdapter,
    attempt: Attempt,
    policy: ModelPolicy,
    th: Thresholds,
    now: u64,
    next: Next,
    after: FallbackAdapter,
)
    requires
        adapter.goes_on(attempt, policy, th, Err(ProviderError::Cancelled), now, next, after),
    ensures
        next == Next::Failed(ProviderError::Cancelled),
        after == adapter,
{
}

/// Law: a primary that recovered and serves is reported as the new provider if
/// the secondary served before, with the breaker closed and no failures counted.
pub proof fn law_recovered_primary_is_reported(
    adapter: FallbackAdapter,
    policy: ModelPolicy,
    th: Thresholds,
    now: u64,
    next: Next,
    after: FallbackAdapter,
)
    requires
        !same_provider(adapter.primary, adapter.secondary),
        same_provider(adapter.state.current, adapter.secondary),
        adapter.with(adapter.state.recovered()).goes_on(
            Attempt::Primary,
            policy,
            th,
            Ok(()),
            now,
            next,
            after,
        ),
    ensures
        next matches Next::Served(outcome) && outcome.provider_id == adapter.primary && (
        outcome.switch matches Some(info) && info.from == adapter.state.current && info.to
            == adapter.primary),
        after.state.open_until is None,
        after.state.consecutive_failures == 0,
{
}

/// Law: every error of the primary but a cancellation, a lack of memory, a slow
/// start and a rate limit is one failure more. The failure that fills the
/// window opens the breaker until the cooldown ends and, unless the policy is
/// `LocalOnly`, sends the call to the secondary; one before it fails the call
/// and leaves the breaker as it was.
pub proof fn law_every_other_error_counts(
    adapter: FallbackAdapter,
    policy: ModelPolicy,
    th: Thresholds,
    err: ProviderError,
    now: u64,
    next: Next,
    after: FallbackAdapter,
)
    requires
        !(err is Cancelled || err is OutOfMemory || err is Timeout || err is RateLimited),
        adapter.state.consecutive_failures < u32::MAX,
        now + th.cooldown_s * 1000 <= u64::MAX,
        adapter.goes_on(Attempt::Primary, policy, th, Err(err), now, next, after),
    ensures
        after.state.consecutive_failures == adapter.state.consecutive_failures + 1,
        after.primary == adapter.primary,
        after.secondary == adapter.secondary,
        after.state.current == adapter.state.current,
        after.state.force_secondary_next == adapter.state.force_secondary_next,
        after.state.consecutive_failures >= th.failure_window ==> {
            &&& after.state.open_until matches Some(until) && until == now + th.cooldown_s * 1000
            &&& after.state.last_health_probe is None
            &&& !(policy is LocalOnly) ==> next == Next::Try(
                Attempt::Fallback(FallbackTrigger::Failures),
            )
            &&& policy is LocalOnly ==> next == Next::Failed(err)
        },
        after.state.consecutive_failures < th.failure_window ==> {
            &&& after.state.open_until == adapter.state.open_until
            &&& after.state.last_health_probe == adapter.state.last_health_probe
            &&& next == Next::Failed(err)
        },
{
}

/// Law: a lack of memory, a slow start and a rate limit send the call to the
/// secondary at once unless the policy is `LocalOnly`, each under its own
/// trigger. None of them counts as a failure; only the lack of memory opens the
/// breaker, until the cooldown ends.
pub proof fn law_immediate_errors_fall_back(
    adapter: FallbackAdapter,
    policy: ModelPolicy,
    th: Thresholds,
    err: ProviderError,
    now: u64,
    next: Next,
    after: FallbackAdapter,
)
    requires
        err is OutOfMemory || err is Timeout || err is RateLimited,
        now + th.cooldown_s * 1000 <= u64::MAX,
        adapter.goes_on(Attempt::Primary, policy, th, Err(err), now, next, after),
    ensures
        policy is LocalOnly ==> next == Next::Failed(err),
        !(policy is LocalOnly) ==> (next matches Next::Try(Attempt::Fallback(trigger)) && {
            &&& err is OutOfMemory ==> trigger == FallbackTrigger::Oom
            &&& err is Timeout ==> trigger == FallbackTrigger::TtftExceeded
            &&& err is RateLimited ==> trigger == FallbackTrigger::RateLimited
        }),
        after.state.consecutive_failures == adapter.state.consecutive_failures,
        after.state.current == adapter.state.current,
        after.state.force_secondary_next == adapter.state.force_secondary_next,
        err is OutOfMemory ==> (after.state.open_until matches Some(until) && until == now
            + th.cooldown_s * 1000),
        err is OutOfMemory ==> after.state.last_health_probe is None,
        after.primary == adapter.primary,
        after.secondary == adapter.secondary,
        !(err is OutOfMemory) ==> after == adapter,
{
}

/// Law: an attempt that streams is served by the provider it went to, under
/// that provider's name. It empties the count of failures, leaves the breaker
/// alone, and reports a change exactly when another provider served last.
pub proof fn law_success_names_its_provider(
    adapter: FallbackAdapter,
    attempt: Attempt,
    policy: ModelPolicy,
    th: Thresholds,
    now: u64,
    next: Next,
    after: FallbackAdapter,
)
    requires
        adapter.goes_on(attempt, policy, th, Ok(()), now, next, after),
    ensures
        next matches Next::Served(outcome) && {
            &&& attempt is Primary ==> outcome.provider_id == adapter.primary
            &&& attempt is Fallback ==> outcome.provider_id == adapter.secondary
            &&& attempt matches Attempt::Direct(Side::Primary, _) ==> outcome.provider_id
                == adapter.primary
            &&& attempt matches Attempt::Direct(Side::Secondary, _) ==> outcome.provider_id
                == adapter.secondary
            &&& outcome.switch is Some <==> adapter.state.current.0@ != outcome.provider_id.0@
            &&& outcome.switch matches Some(info) ==> {
                &&& info.from == adapter.state.current
                &&& info.to == outcome.provider_id
                &&& attempt matches Attempt::Fallback(t) ==> info.trigger == t
                &&& attempt matches Attempt::Direct(_, t) ==> info.trigger == t
                &&& attempt is Primary ==> info.trigger == FallbackTrigger::Manual
            }
            &&& after.state.current.0@ == outcome.provider_id.0@
        },
        after.state.consecutive_failures == 0,
        after.state.open_until == adapter.state.open_until,
        after.state.last_health_probe == adapter.state.last_health_probe,
        after.state.force_secondary_next == adapter.state.force_secondary_next,
        after.primary == adapter.primary,
        after.secondary == adapter.secondary,
{
}

/// Law: a failed attempt on the secondary, and one that was the only one of its
/// call, is the failure of the call and changes nothing.
pub proof fn law_last_attempt_fails_the_call(
    adapter: FallbackAdapter,
    attempt: Attempt,
    policy: ModelPolicy,
    th: Thresholds,
    err: ProviderError,
    now: u64,
    next: Next,
    after: FallbackAdapter,
)
    requires
        !(attempt is Primary),
        adapter.goes_on(attempt, policy, th, Err(err), now, next, after),
    ensures
        next == Next::Failed(err),
        after == adapter,
{
}

/// Law: with the breaker closed and no broken stream behind it, a call under
/// `LocalFirst` goes to the primary. A primary that goes by another name than
/// the secondary gets an attempt that can fall back; one of the same name gets
/// the only attempt.
pub proof fn law_closed_breaker_uses_primary(adapter: FallbackAdapter, now: u64, later: u64)
    requires
        adapter.state.open_until is None,
        !adapter.state.force_secondary_next,
    ensures
        adapter.state.route_of(ModelPolicy::LocalFirst, now, later) == Some(Route::Primary),
        adapter.state.routed(ModelPolicy::LocalFirst, now) == adapter.state,
        adapter.primary.0@ != adapter.secondary.0@ ==> adapter.attempt_on(Route::Primary)
            == Attempt::Primary,
        adapter.primary.0@ == adapter.secondary.0@ ==> adapter.attempt_on(Route::Primary)
            == Attempt::Direct(Side::Primary, FallbackTrigger::Manual),
        forall|t: FallbackTrigger|
            #[trigger] adapter.attempt_on(Route::Secondary(t)) == Attempt::Direct(
                Side::Secondary,
                t,
            ),
{
}

/// Law: a recovered breaker is closed and has counted nothing, and keeps who
/// served last and whether a stream broke.
pub proof fn law_recovered_breaker_is_closed(st: BreakerState)
    ensures
        st.recovered().open_until is None,
        st.recovered().consecutive_failures == 0,
        st.recovered().last_health_probe is None,
        st.recovered().current == st.current,
        st.recovered().force_secondary_next == st.force_secondary_next,
{
}

/// Law: routing a call spends the order to use the secondary and may note a
/// probe, and changes nothing else. A probe is noted exactly while the cooldown
/// lasts and none was made, or the last one is at least fifteen seconds old.
pub proof fn law_routing_spends_the_order(st: BreakerState, now: u64)
    ensures
        st.routed(ModelPolicy::LocalFirst, now).consecutive_failures == st.consecutive_failures,
        st.routed(ModelPolicy::LocalFirst, now).open_until == st.open_until,
        st.routed(ModelPolicy::LocalFirst, now).current == st.current,
        !st.routed(ModelPolicy::LocalFirst, now).force_secondary_next,
        st.routed(ModelPolicy::LocalFirst, now).last_health_probe == (if st.open_until is Some
            && now < st.open_until->0 && (st.last_health_probe is None || now
            >= st.last_health_probe->0 + 15_000) {
            Some(now)
        } else {
            st.last_health_probe
        }),
{
}

/// Law: an error in a stream that had begun, other than a cancellation, is one
/// failure more, opens the breaker if it fills the window, and orders the
/// secondary for the next call; who serves stays as it was.
pub proof fn law_broken_stream_counts(st: BreakerState, err: ProviderError, th: Thresholds, now: u64)
    requires
        !(err is Cancelled),
        st.consecutive_failures < u32::MAX,
        now + th.cooldown_s * 1000 <= u64::MAX,
    ensures
        st.broken(err, th, now).force_secondary_next,
        st.broken(err, th, now).consecutive_failures == st.consecutive_failures + 1,
        st.broken(err, th, now).current == st.current,
        st.consecutive_failures + 1 >= th.failure_window ==> (st.broken(
            err,
            th,
            now,
        ).open_until matches Some(until) && until == now + th.cooldown_s * 1000),
        st.consecutive_failures + 1 < th.failure_window ==> st.broken(err, th, now).open_until
            == st.open_until,
{
}

/// Law: under `LocalFirst` a call begins with the primary unless a stream broke
/// or the breaker is open; under `LocalOnly` always, and under `ExternalOnly`
/// never. Only under `LocalFirst`, once the cooldown ended, is the primary
/// asked how it is.
pub proof fn law_call_begins(
    before: FallbackAdapter,
    policy: ModelPolicy,
    now: u64,
    later: u64,
    r: Next,
    after: FallbackAdapter,
)
    requires
        begins(before, policy, now, later, r, after),
        now <= later,
        before.primary.0@ != before.secondary.0@,
    ensures
        r is AskHealth ==> policy is LocalFirst && before.state.open_until is Some && later
            >= before.state.open_until->0 && !before.state.force_secondary_next,
        policy is LocalFirst && before.state.open_until is Some && now
            >= before.state.open_until->0 && !before.state.force_secondary_next ==> r is AskHealth,
        r matches Next::Try(attempt) ==> attempt == (match policy {
            ModelPolicy::LocalOnly => Attempt::Primary,
            ModelPolicy::ExternalOnly => Attempt::Direct(Side::Secondary, FallbackTrigger::Manual),
            ModelPolicy::LocalFirst => if before.state.force_secondary_next
                || before.state.open_until is Some {
                Attempt::Direct(Side::Secondary, FallbackTrigger::Failures)
            } else {
                Attempt::Primary
            },
        }),
        r is AskHealth || r is Try,
        after.state.consecutive_failures == before.state.consecutive_failures,
        after.state.open_until == before.state.open_until,
        after.state.current == before.state.current,
        after.primary == before.primary,
        after.secondary == before.secondary,
        !(policy is LocalFirst) ==> after == before,
{
}

/// Law: a primary that is ready closes the breaker and gets the call; one that
/// is not leaves the breaker as it is, and the call goes to the secondary.
pub proof fn law_health_decides(
    before: FallbackAdapter,
    health: ProviderHealth,
    r: Next,
    after: FallbackAdapter,
)
    requires
        probes(before, health, r, after),
        before.primary.0@ != before.secondary.0@,
    ensures
        health is Ready ==> r == Next::Try(Attempt::Primary) && after.state.open_until is None
            && after.state.consecutive_failures == 0 && after.state.last_health_probe is None,
        !(health is Ready) ==> r == Next::Try(
            Attempt::Direct(Side::Secondary, FallbackTrigger::Failures),
        ) && after == before,
        after.state.current == before.state.current,
        after.primary == before.primary,
        after.secondary == before.secondary,
{
}

/// Law: only an item makes an attempt a success. Waiting in vain is a slow
/// start, after as long as was waited; a stream that ends before its first item
/// is an invalid response; a failure stays what it is.
pub proof fn law_first_item_decides(
    first: FirstItem,
    ttft_ms: u64,
    r: Result<StreamItem, ProviderError>,
)
    requires
        comes_to(first, ttft_ms, r),
    ensures
        r is Ok <==> first is Item,
        first matches FirstItem::Item(item) ==> r == Ok::<StreamItem, ProviderError>(item),
        first is Elapsed ==> (r matches Err(ProviderError::Timeout { after_ms }) && after_ms
            == ttft_ms),
        first is Ended ==> (r matches Err(e) && e is InvalidResponse),
        first matches FirstItem::Failed(err) ==> r == Err::<StreamItem, ProviderError>(err),
{
}

/// Law: the adapter is as well as the provider that served last: the secondary
/// where that goes by its name, else the primary.
pub proof fn law_status_is_that_of_the_server(
    adapter: FallbackAdapter,
    attempt: Attempt,
    policy: ModelPolicy,
    th: Thresholds,
    now: u64,
    next: Next,
    after: FallbackAdapter,
    r: Side,
)
    requires
        adapter.primary.0@ != adapter.secondary.0@,
        adapter.goes_on(attempt, policy, th, Ok(()), now, next, after),
        is_in_use(after, r),
    ensures
        attempt is Primary ==> r == Side::Primary,
        attempt is Fallback ==> r == Side::Secondary,
        attempt matches Attempt::Direct(side, _) ==> r == side,
{
}

} // verus!
