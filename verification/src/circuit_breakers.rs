//! The data circuit breaker: limits ingest to `max_tps` ticks per
//! one-second window, trips when the limit is exceeded, blocks while tripped
//! and resets itself once the trip duration has passed.
use vstd::prelude::*;

verus! {

/// Declares `std::time::Instant`, the monotonic clock reading the breaker
/// measures time from. Its contents are opaque here.
#[verifier::external_type_specification]
#[verifier::external_body]
pub struct ExInstant(std::time::Instant);

/// `Instant::now` reads the monotonic clock. Nothing is promised of the
/// reading: it depends on the time of the call.
pub assume_specification[ std::time::Instant::now ]() -> std::time::Instant;

/// `Instant::elapsed` measures the time since an earlier reading (saturating
/// at zero). Nothing is promised of the duration: it depends on the time of
/// the call.
pub assume_specification[ std::time::Instant::elapsed ](i: &std::time::Instant) -> core::time::Duration;

/// `Duration::as_nanos` gives a duration's whole number of nanoseconds.
/// The duration is opaque here, so nothing is promised of the number.
pub assume_specification[ core::time::Duration::as_nanos ](d: &core::time::Duration) -> u128;

/// Length of a counting window, in nanoseconds (one second).
pub const WINDOW_NS: u128 = 1_000_000_000;

/// Nanoseconds in a millisecond.
pub const NANOS_PER_MS: u128 = 1_000_000;

/// The breaker's state; times are nanoseconds on the breaker's own clock
/// (measured from its creation).
#[derive(Debug, Clone, Copy, PartialEq, Eq, Structural)]
pub struct BreakerState {
    pub max_tps: u32,
    pub tick_count: u32,
    pub window_start: u128,
    pub trip_duration_ms: u64,
    pub tripped_at: Option<u128>,
}

/// Time from `then` to `now`, zero when `now` is earlier.
pub open spec fn elapsed(now: u128, then: u128) -> int {
    if now >= then { now - then } else { 0 }
}

impl BreakerState {
    /// Untripped, the count of the current window is within the limit;
    /// tripped, it is exactly one over it.
    pub open spec fn wf(self) -> bool {
        match self.tripped_at {
            None => self.tick_count <= self.max_tps,
            Some(_) => self.tick_count == self.max_tps + 1,
        }
    }

    pub open spec fn is_tripped(self) -> bool {
        self.tripped_at is Some
    }

    pub open spec fn trip_duration_ns(self) -> int {
        self.trip_duration_ms * NANOS_PER_MS
    }

    /// Cleared after the cooldown: untripped, with a fresh window at `now`.
    pub open spec fn reset_at(self, now: u128) -> BreakerState {
        BreakerState { tick_count: 0, window_start: now, tripped_at: None, ..self }
    }

    /// The state once a cooldown that has run out is cleared; `None` while
    /// the breaker is still cooling down.
    pub open spec fn after_cooldown(self, now: u128) -> Option<BreakerState> {
        match self.tripped_at {
            Some(t) => if elapsed(now, t) >= self.trip_duration_ns() {
                Some(self.reset_at(now))
            } else {
                None
            },
            None => Some(self),
        }
    }

    /// Starts a new window at `now` once the current one is a second old.
    pub open spec fn rolled(self, now: u128) -> BreakerState {
        if elapsed(now, self.window_start) >= WINDOW_NS {
            BreakerState { window_start: now, tick_count: 0, ..self }
        } else {
            self
        }
    }

    /// Whether counting a tick at `now` would take the count past `u32::MAX`.
    pub open spec fn count_overflows(self, now: u128) -> bool {
        match self.after_cooldown(now) {
            Some(s) => s.rolled(now).tick_count == u32::MAX,
            None => false,
        }
    }

    /// A tick arriving at `now`: blocked while cooling down; otherwise it is
    /// counted in its window and let through unless the count exceeds
    /// `max_tps`, which trips the breaker at `now`.
    pub open spec fn on_tick_spec(self, now: u128) -> (BreakerState, bool) {
        match self.after_cooldown(now) {
            None => (self, false),
            Some(s1) => {
                let s2 = s1.rolled(now);
                let count = (s2.tick_count + 1) as u32;
                if count > s2.max_tps {
                    (BreakerState { tick_count: count, tripped_at: Some(now), ..s2 }, false)
                } else {
                    (BreakerState { tick_count: count, ..s2 }, true)
                }
            },
        }
    }

    /// The decision for a tick arriving at `now` (nanoseconds on the
    /// breaker's clock): the next state and whether the tick passes.
    pub fn on_tick(self, now: u128) -> (res: (BreakerState, bool))
        requires
            !self.count_overflows(now),
        ensures
            res == self.on_tick_spec(now),
            self.wf() ==> res.0.wf(),
    {
        let mut s = self;
        if let Some(t) = s.tripped_at {
            let since = if now >= t { now - t } else { 0 };
            if since >= (s.trip_duration_ms as u128) * NANOS_PER_MS {
                s = s.reset(now);
            } else {
                return (self, false);
            }
        }
        let in_window = if now >= s.window_start { now - s.window_start } else { 0 };
        if in_window >= WINDOW_NS {
            s = BreakerState { window_start: now, tick_count: 0, ..s };
        }
        let count = s.tick_count + 1;
        if count > s.max_tps {
            (BreakerState { tick_count: count, ..s }.trip(now), false)
        } else {
            (BreakerState { tick_count: count, ..s }, true)
        }
    }

    /// Whether counting a tick at `now` would take the count past `u32::MAX`.
    pub fn would_overflow(&self, now: u128) -> (b: bool)
        ensures
            b == self.count_overflows(now),
    {
        let mut count = self.tick_count;
        let mut window_start = self.window_start;
        if let Some(t) = self.tripped_at {
            let since = if now >= t { now - t } else { 0 };
            if since >= (self.trip_duration_ms as u128) * NANOS_PER_MS {
                count = 0;
                window_start = now;
            } else {
                return false;
            }
        }
        let in_window = if now >= window_start { now - window_start } else { 0 };
        if in_window >= WINDOW_NS {
            count = 0;
        }
        count == u32::MAX
    }

    /// Whether a tick at `now` clears a trip: the breaker is tripped and its
    /// trip duration has passed.
    pub fn resets_at(&self, now: u128) -> (b: bool)
        ensures
            b == (self.tripped_at is Some && self.after_cooldown(now) is Some),
    {
        match self.tripped_at {
            Some(t) => {
                let since = if now >= t { now - t } else { 0 };
                since >= (self.trip_duration_ms as u128) * NANOS_PER_MS
            },
            None => false,
        }
    }

    /// Trips the breaker at `now`.
    fn trip(self, now: u128) -> (s: BreakerState)
        ensures
            s == (BreakerState { tripped_at: Some(now), ..self }),
    {
        BreakerState { tripped_at: Some(now), ..self }
    }

    /// Clears a trip at `now`, opening a fresh window.
    fn reset(self, now: u128) -> (s: BreakerState)
        ensures
            s == self.reset_at(now),
    {
        BreakerState { tick_count: 0, window_start: now, tripped_at: None, ..self }
    }
}

/// Ingest rate limiter: at most `max_tps` ticks per one-second window; a
/// burst beyond that trips it for `trip_duration_ms`, after which it resets.
pub struct DataCircuitBreaker {
    origin: std::time::Instant,
    state: BreakerState,
}

impl View for DataCircuitBreaker {
    type V = BreakerState;

    closed spec fn view(&self) -> BreakerState {
        self.state
    }
}

impl DataCircuitBreaker {
    #[verifier::type_invariant]
    spec fn well_formed(self) -> bool {
        self.state.wf()
    }

    /// The breaker's current state, which always satisfies the invariant.
    pub fn state(&self) -> (s: BreakerState)
        ensures
            s == self@,
            s.wf(),
    {
        proof {
            use_type_invariant(self);
        }
        self.state
    }

    /// A breaker with an empty window starting now, untripped.
    pub fn new(max_tps: u32, trip_duration_ms: u64) -> (b: Self)
        ensures
            b@ == (BreakerState {
                max_tps,
                tick_count: 0,
                window_start: 0,
                trip_duration_ms,
                tripped_at: None,
            }),
    {
        DataCircuitBreaker {
            origin: std::time::Instant::now(),
            state: BreakerState {
                max_tps,
                tick_count: 0,
                window_start: 0,
                trip_duration_ms,
                tripped_at: None,
            },
        }
    }

    /// Reads this breaker's clock: the nanoseconds since its creation.
    /// Nothing is promised of the reading, which depends on the time of the
    /// call.
    pub fn clock_reading(&self) -> u128 {
        self.origin.elapsed().as_nanos()
    }

    /// Handles a tick arriving at `now` nanoseconds on this breaker's clock.
    pub fn allow_tick_at(&mut self, now: u128) -> (allowed: bool)
        requires
            !old(self)@.count_overflows(now),
        ensures
            (final(self)@, allowed) == old(self)@.on_tick_spec(now),
            final(self)@.wf(),
            final(self)@.max_tps == old(self)@.max_tps,
            final(self)@.trip_duration_ms == old(self)@.trip_duration_ms,
    {
        proof {
            use_type_invariant(&*self);
        }
        let (next, allowed) = self.state.on_tick(now);
        self.state = next;
        allowed
    }

    /// Handles a tick arriving now: reads the clock and applies the decision
    /// of `allow_tick_at` for that reading.
    pub fn allow_tick(&mut self) -> (allowed: bool)
        requires
            !(old(self)@.tripped_at is None && old(self)@.tick_count == u32::MAX),
        ensures
            exists|now: u128| (final(self)@, allowed) == #[trigger] old(self)@.on_tick_spec(now),
            final(self)@.wf(),
            final(self)@.max_tps == old(self)@.max_tps,
            final(self)@.trip_duration_ms == old(self)@.trip_duration_ms,
    {
        proof {
            use_type_invariant(&*self);
        }
        let now = self.clock_reading();
        self.allow_tick_at(now)
    }
}


/// Within the limit: an untripped breaker whose window count is below
/// `max_tps` lets the tick through, whenever it arrives.
pub proof fn lemma_within_limit_allowed(s: BreakerState, now: u128)
    requires
        s.tripped_at is None,
        s.tick_count < s.max_tps,
    ensures
        s.on_tick_spec(now).1,
        !s.on_tick_spec(now).0.is_tripped(),
{
}

/// The tick after `max_tps` ticks in the same one-second window trips the
/// breaker and is refused.
pub proof fn lemma_burst_trips(s: BreakerState, now: u128)
    requires
        s.tripped_at is None,
        s.tick_count == s.max_tps,
        s.max_tps < u32::MAX,
        elapsed(now, s.window_start) < WINDOW_NS,
    ensures
        !s.on_tick_spec(now).1,
        s.on_tick_spec(now).0.tripped_at == Some(now),
{
}

/// While tripped and before the trip duration has passed, every tick is
/// refused and the state does not change.
pub proof fn lemma_blocked_while_tripped(s: BreakerState, t: u128, now: u128)
    requires
        s.tripped_at == Some(t),
        elapsed(now, t) < s.trip_duration_ns(),
    ensures
        s.on_tick_spec(now) == (s, false),
{
}

/// Once the trip duration has passed the breaker resets itself: the tick is
/// let through (when any tick is allowed at all) as the first of a fresh
/// window starting at its arrival.
pub proof fn lemma_auto_reset(s: BreakerState, t: u128, now: u128)
    requires
        s.tripped_at == Some(t),
        elapsed(now, t) >= s.trip_duration_ns(),
        s.max_tps >= 1,
    ensures
        s.on_tick_spec(now) == (BreakerState { tick_count: 1, window_start: now, tripped_at: None, ..s }, true),
{
}

/// A window one second old is replaced by a fresh one at the tick's arrival,
/// which the tick opens.
pub proof fn lemma_window_rollover(s: BreakerState, now: u128)
    requires
        s.tripped_at is None,
        elapsed(now, s.window_start) >= WINDOW_NS,
        s.max_tps >= 1,
    ensures
        s.on_tick_spec(now) == (BreakerState { tick_count: 1, window_start: now, ..s }, true),
{
}

/// The rate bound: the invariant is kept, the limit and trip duration never
/// change, and a tick that passes is counted in a window whose count stays
/// within `max_tps`.
pub proof fn lemma_rate_bound(s: BreakerState, now: u128)
    requires
        s.wf(),
        !s.count_overflows(now),
    ensures
        s.on_tick_spec(now).0.wf(),
        s.on_tick_spec(now).1 ==> s.on_tick_spec(now).0.tick_count <= s.max_tps,
        s.on_tick_spec(now).1 ==> s.on_tick_spec(now).0.tick_count >= 1,
        s.on_tick_spec(now).0.max_tps == s.max_tps,
        s.on_tick_spec(now).0.trip_duration_ms == s.trip_duration_ms,
{
}


/// An untripped breaker counts a tick that arrives less than one second
/// (1_000_000_000 ns) after its window opened in that same window: the
/// window start stays, the count goes up by exactly one, and the tick passes
/// exactly when the count stays within `max_tps`; otherwise the breaker trips
/// at the tick's arrival.
pub proof fn lemma_tick_within_window(s: BreakerState, now: u128)
    requires
        s.tripped_at is None,
        (now as int) < s.window_start as int + 1_000_000_000,
        s.tick_count < u32::MAX,
    ensures
        s.on_tick_spec(now) == (
            BreakerState {
                max_tps: s.max_tps,
                tick_count: (s.tick_count + 1) as u32,
                window_start: s.window_start,
                trip_duration_ms: s.trip_duration_ms,
                tripped_at: if s.tick_count + 1 > s.max_tps { Some(now) } else { None },
            },
            s.tick_count + 1 <= s.max_tps,
        ),
{
}

/// An untripped breaker whose window opened at least one second
/// (1_000_000_000 ns) before the tick opens a new window at the tick's
/// arrival, with the tick as its first: it passes unless `max_tps` is zero,
/// in which case the breaker trips.
pub proof fn lemma_tick_after_window(s: BreakerState, now: u128)
    requires
        s.tripped_at is None,
        (now as int) >= s.window_start as int + 1_000_000_000,
    ensures
        s.on_tick_spec(now) == (
            BreakerState {
                max_tps: s.max_tps,
                tick_count: 1,
                window_start: now,
                trip_duration_ms: s.trip_duration_ms,
                tripped_at: if s.max_tps == 0 { Some(now) } else { None },
            },
            s.max_tps > 0,
        ),
{
}

/// A breaker tripped at `t` refuses a tick arriving before
/// `trip_duration_ms` milliseconds (x 1_000_000 ns) have passed since `t`
/// (time running backwards counting as none) and stays exactly as it was.
pub proof fn lemma_tick_while_cooling(s: BreakerState, t: u128, now: u128)
    requires
        s.tripped_at == Some(t),
        (if now >= t { now - t } else { 0 }) < s.trip_duration_ms as int * 1_000_000,
    ensures
        s.on_tick_spec(now) == (s, false),
{
}

/// A breaker tripped at `t` that receives a tick once `trip_duration_ms`
/// milliseconds have passed clears the trip and opens a new window at the
/// tick's arrival with the tick as its first: it passes unless `max_tps` is
/// zero, in which case the breaker trips again at once.
pub proof fn lemma_tick_after_cooldown(s: BreakerState, t: u128, now: u128)
    requires
        s.tripped_at == Some(t),
        (if now >= t { now - t } else { 0 }) >= s.trip_duration_ms as int * 1_000_000,
    ensures
        s.on_tick_spec(now) == (
            BreakerState {
                max_tps: s.max_tps,
                tick_count: 1,
                window_start: now,
                trip_duration_ms: s.trip_duration_ms,
                tripped_at: if s.max_tps == 0 { Some(now) } else { None },
            },
            s.max_tps > 0,
        ),
{
}

/// Counting a tick overflows exactly when the breaker is untripped, its
/// count is already `u32::MAX`, and the tick falls within the current
/// one-second window.
pub proof fn lemma_overflow_condition(s: BreakerState, now: u128)
    ensures
        s.count_overflows(now) <==> (s.tripped_at is None && s.tick_count == u32::MAX
            && (now as int) < s.window_start as int + 1_000_000_000),
{
}

/// The state after ticks arriving at the readings `times`, in order,
/// starting from `s`.
pub open spec fn run_state(s: BreakerState, times: Seq<u128>) -> BreakerState
    decreases times.len(),
{
    if times.len() == 0 {
        s
    } else {
        run_state(s, times.drop_last()).on_tick_spec(times.last()).0
    }
}

/// How many of the ticks arriving at `times` pass while the counting window
/// starts at `w` (the window of the state each passing tick leaves behind).
pub open spec fn passes_in_window(s: BreakerState, times: Seq<u128>, w: u128) -> nat
    decreases times.len(),
{
    if times.len() == 0 {
        0
    } else {
        let step = run_state(s, times.drop_last()).on_tick_spec(times.last());
        passes_in_window(s, times.drop_last(), w) + if step.1 && step.0.window_start == w {
            1nat
        } else {
            0nat
        }
    }
}

/// No tick of the run takes the count past `u32::MAX`: each one meets the
/// condition under which `allow_tick_at` may be called.
pub open spec fn run_never_overflows(s: BreakerState, times: Seq<u128>) -> bool {
    forall|i: int|
        0 <= i < times.len() ==> !#[trigger] run_state(s, times.take(i)).count_overflows(times[i])
}

/// The readings never go backwards and none is earlier than the window the
/// run starts in.
pub open spec fn monotone_from(s: BreakerState, times: Seq<u128>) -> bool {
    &&& forall|i: int, j: int| 0 <= i <= j < times.len() ==> times[i] <= times[j]
    &&& times.len() > 0 ==> times[0] >= s.window_start
}

/// The invariant over any run: along every sequence of ticks the state keeps
/// `wf` (tripped exactly when a trip time is held, one over the limit when
/// tripped, within it otherwise) and the limit and trip duration never change.
pub proof fn lemma_run_keeps_invariant(s: BreakerState, times: Seq<u128>)
    requires
        s.wf(),
    ensures
        run_state(s, times).wf(),
        run_state(s, times).max_tps == s.max_tps,
        run_state(s, times).trip_duration_ms == s.trip_duration_ms,
    decreases times.len(),
{
    if times.len() > 0 {
        lemma_run_keeps_invariant(s, times.drop_last());
    }
}

proof fn lemma_window_run(s: BreakerState, times: Seq<u128>)
    requires
        s.wf(),
        s.trip_duration_ms > 0,
        s.tripped_at matches Some(t) ==> t >= s.window_start,
        monotone_from(s, times),
        run_never_overflows(s, times),
    ensures
        run_state(s, times).wf(),
        run_state(s, times).max_tps == s.max_tps,
        run_state(s, times).trip_duration_ms == s.trip_duration_ms,
        times.len() > 0 ==> run_state(s, times).window_start <= times.last(),
        times.len() == 0 ==> run_state(s, times).window_start == s.window_start,
        run_state(s, times).tripped_at matches Some(t) ==> t >= run_state(s, times).window_start,
        forall|w: u128| w > run_state(s, times).window_start ==> #[trigger] passes_in_window(s, times, w) == 0,
        passes_in_window(s, times, run_state(s, times).window_start) <= run_state(s, times).tick_count,
        forall|w: u128| #[trigger] passes_in_window(s, times, w) <= s.max_tps,
    decreases times.len(),
{
    if times.len() > 0 {
        let prefix = times.drop_last();
        let now = times.last();
        assert forall|i: int| 0 <= i < prefix.len() implies !#[trigger] run_state(s, prefix.take(i)).count_overflows(prefix[i]) by {
            assert(prefix.take(i) =~= times.take(i));
            assert(!run_state(s, times.take(i)).count_overflows(times[i]));
        }
        assert(monotone_from(s, prefix));
        lemma_window_run(s, prefix);
        let pre = run_state(s, prefix);
        assert(times.take(prefix.len() as int) =~= prefix);
        assert(!run_state(s, times.take(prefix.len() as int)).count_overflows(times[prefix.len() as int]));
        assert(!pre.count_overflows(now));
        assert(pre.window_start <= now) by {
            if prefix.len() > 0 {
                assert(prefix.last() == times[prefix.len() - 1]);
            }
        }
        let step = pre.on_tick_spec(now);
        assert(run_state(s, times) == step.0);
        assert forall|w: u128| #[trigger] passes_in_window(s, times, w) == passes_in_window(s, prefix, w)
            + if step.1 && step.0.window_start == w { 1nat } else { 0nat } by {}
        match pre.after_cooldown(now) {
            None => {},
            Some(s1) => {
                assert(s1.window_start >= pre.window_start);
                assert(s1.window_start > pre.window_start || s1 == pre);
                let s2 = s1.rolled(now);
                assert(s2.window_start > pre.window_start || s2 == pre);
                assert(s2.window_start <= now);
                if s2 != pre {
                    assert(passes_in_window(s, prefix, s2.window_start) == 0);
                    assert(s2.tick_count == 0);
                }
                assert(passes_in_window(s, prefix, s2.window_start) <= s2.tick_count);
            },
        }
    }
}

/// The rate bound over any run: with a monotone clock and a non-zero trip
/// duration, at most `max_tps` ticks pass while the counting window starts at
/// any one instant.
pub proof fn lemma_at_most_max_tps_per_window(s: BreakerState, times: Seq<u128>, w: u128)
    requires
        s.wf(),
        s.trip_duration_ms > 0,
        s.tripped_at matches Some(t) ==> t >= s.window_start,
        monotone_from(s, times),
        run_never_overflows(s, times),
    ensures
        passes_in_window(s, times, w) <= s.max_tps,
{
    lemma_window_run(s, times);
}

} // verus!
