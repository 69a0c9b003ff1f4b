//! The decisions behind the terminal-facing entry points: which ticks are
//! admitted for publishing, and which order-book levels are published.
use vstd::prelude::*;
use crate::circuit_breakers::{BreakerState, DataCircuitBreaker};
use crate::errors::SystemError;
use crate::protocol::{
    crc32_ieee, integrity_payload, is_crc_failure, is_ghost_tick, recorded, spec_classify, BinaryTick,
    ProtocolNormalizer, SequenceStatus,
};

verus! {

/// One order-book level; the price is carried as the IEEE-754 bit pattern
/// of its `f64` value (`f64::to_bits`).
#[derive(Debug, Clone, Copy, Default)]
pub struct BinaryDOMLevel {
    pub price_bits: u64,
    pub volume: u64,
}

/// A depth-of-market snapshot as the terminal sends it: twenty slots per
/// side, of which the first `num_bids` / `num_asks` are filled.
#[derive(Debug, Clone, Copy)]
pub struct BinaryDOM {
    pub symbol_id: u32,
    pub timestamp_ms: i64,
    pub num_bids: u32,
    pub num_asks: u32,
    pub bids: [BinaryDOMLevel; 20],
    pub asks: [BinaryDOMLevel; 20],
    pub crc32: u32,
}

/// The number of levels published for a side that claims `count` levels:
/// the claim, capped at the twenty slots a snapshot holds.
pub open spec fn published_depth(count: u32) -> int {
    if count <= 20 { count as int } else { 20 }
}

/// The first `count` levels of `levels`, `count` capped at twenty.
fn leading_levels(levels: &[BinaryDOMLevel; 20], count: u32) -> (out: Vec<BinaryDOMLevel>)
    ensures
        out@ == levels@.take(published_depth(count)),
{
    let n: usize = if count <= 20 { count as usize } else { 20 };
    let mut out: Vec<BinaryDOMLevel> = Vec::new();
    let mut i: usize = 0;
    while i < n
        invariant
            n == published_depth(count),
            n <= 20,
            i <= n,
            levels@.len() == 20,
            out@ == levels@.take(i as int),
        decreases n - i,
    {
        out.push(levels[i]);
        i = i + 1;
        assert(out@ =~= levels@.take(i as int));
    }
    out
}

impl BinaryDOM {
    /// The bid levels that are published: the first `num_bids`, at most twenty.
    pub fn published_bids(&self) -> (levels: Vec<BinaryDOMLevel>)
        ensures
            levels@ == self.bids@.take(published_depth(self.num_bids)),
    {
        leading_levels(&self.bids, self.num_bids)
    }

    /// The ask levels that are published: the first `num_asks`, at most twenty.
    pub fn published_asks(&self) -> (levels: Vec<BinaryDOMLevel>)
        ensures
            levels@ == self.asks@.take(published_depth(self.num_asks)),
    {
        leading_levels(&self.asks, self.num_asks)
    }
}

/// What becomes of a tick offered for publishing.
#[derive(Debug, Clone, Copy, PartialEq, Eq, Structural)]
pub enum TickAdmission {
    /// The circuit breaker refused it.
    Throttled,
    /// A ghost tick (a duplicate or out of sequence): dropped from the stream.
    Dropped,
    /// Admitted for publishing, with how its sequence number followed the
    /// symbol's record (`Fresh`, `InOrder` or `Gap`).
    Admitted(SequenceStatus),
}

/// The outcome of offering `tick` at breaker reading `now`, from breaker
/// state `b0` and normalizer record `n0` to `b1`, `n1` and result `r`: the
/// breaker decides first and a refused tick goes no further; a tick it lets
/// through fails on a bad checksum, is dropped as a ghost, or is recorded and
/// admitted.
pub open spec fn admission(
    b0: BreakerState,
    n0: Map<u32, u64>,
    tick: BinaryTick,
    now: u128,
    b1: BreakerState,
    n1: Map<u32, u64>,
    r: Result<TickAdmission, SystemError>,
) -> bool {
    let (next, passed) = b0.on_tick_spec(now);
    let crc_ok = crc32_ieee(integrity_payload(tick)) == tick.crc32;
    let is_ghost = is_ghost_tick(n0, tick.symbol_id, tick.sequence_id);
    &&& b1 == next
    &&& !passed ==> (r matches Ok(TickAdmission::Throttled)) && n1 == n0
    &&& passed && !crc_ok ==> r is Err && is_crc_failure(r->Err_0) && n1 == n0
    &&& passed && crc_ok && is_ghost ==> (r matches Ok(TickAdmission::Dropped)) && n1 == n0
    &&& passed && crc_ok && !is_ghost ==> r == Ok::<TickAdmission, SystemError>(
        TickAdmission::Admitted(spec_classify(recorded(n0, tick.symbol_id), tick.sequence_id)),
    ) && n1 == n0.insert(tick.symbol_id, tick.sequence_id)
}

/// Offers a tick for publishing at breaker reading `now` (nanoseconds on the
/// breaker's clock).
pub fn admit_tick_at(
    breaker: &mut DataCircuitBreaker,
    normalizer: &mut ProtocolNormalizer,
    tick: &BinaryTick,
    now: u128,
) -> (r: Result<TickAdmission, SystemError>)
    requires
        !old(breaker)@.count_overflows(now),
    ensures
        admission(old(breaker)@, old(normalizer)@, *tick, now, final(breaker)@, final(normalizer)@, r),
{
    if !breaker.allow_tick_at(now) {
        return Ok(TickAdmission::Throttled);
    }
    let status = normalizer.sequence_status(tick);
    match normalizer.process_tick(tick) {
        Err(e) => Err(e),
        Ok(()) => match status {
            SequenceStatus::Duplicate => Ok(TickAdmission::Dropped),
            other => Ok(TickAdmission::Admitted(other)),
        },
    }
}

/// Offers a tick for publishing now: reads the breaker's clock and applies
/// `admit_tick_at` for that reading.
pub fn admit_tick(
    breaker: &mut DataCircuitBreaker,
    normalizer: &mut ProtocolNormalizer,
    tick: &BinaryTick,
) -> (r: Result<TickAdmission, SystemError>)
    requires
        !(old(breaker)@.tripped_at is None && old(breaker)@.tick_count == u32::MAX),
    ensures
        exists|now: u128|
            #[trigger] admission(old(breaker)@, old(normalizer)@, *tick, now, final(breaker)@, final(normalizer)@, r),
{
    let now = breaker.clock_reading();
    proof {
        let s = old(breaker)@;
        assert(!s.count_overflows(now));
    }
    admit_tick_at(breaker, normalizer, tick, now)
}


/// What each admission result means, in terms of the breaker's decision,
/// the checksum and the symbol's record before the tick: a tick is published
/// only if the breaker let it through, its checksum matches, and its number
/// exceeds a non-zero record (or none is held), after which that number is
/// the record; a dropped tick is one with a matching checksum whose number
/// does not exceed the non-zero record, and it changes no record; a throttled
/// tick is one the breaker refused, and it changes no record.
pub proof fn lemma_admission_meaning(
    b0: BreakerState,
    n0: Map<u32, u64>,
    tick: BinaryTick,
    now: u128,
    b1: BreakerState,
    n1: Map<u32, u64>,
    r: Result<TickAdmission, SystemError>,
)
    requires
        admission(b0, n0, tick, now, b1, n1, r),
    ensures
        b1 == b0.on_tick_spec(now).0,
        (r matches Ok(TickAdmission::Throttled)) <==> !b0.on_tick_spec(now).1,
        (r matches Ok(TickAdmission::Throttled)) ==> n1 == n0,
        (r matches Ok(TickAdmission::Dropped)) <==> (b0.on_tick_spec(now).1 && crc32_ieee(integrity_payload(tick))
            == tick.crc32 && n0.contains_key(tick.symbol_id) && n0[tick.symbol_id] != 0 && tick.sequence_id
            <= n0[tick.symbol_id]),
        (r matches Ok(TickAdmission::Dropped)) ==> n1 == n0,
        (r matches Ok(TickAdmission::Admitted(_))) <==> (b0.on_tick_spec(now).1 && crc32_ieee(
            integrity_payload(tick),
        ) == tick.crc32 && !(n0.contains_key(tick.symbol_id) && n0[tick.symbol_id] != 0 && tick.sequence_id
            <= n0[tick.symbol_id])),
        (r matches Ok(TickAdmission::Admitted(_))) ==> n1 == n0.insert(tick.symbol_id, tick.sequence_id),
        r is Err <==> (b0.on_tick_spec(now).1 && crc32_ieee(integrity_payload(tick)) != tick.crc32),
        r is Err ==> n1 == n0,
{
}

/// A side publishes as many levels as it claims, up to the twenty slots a
/// snapshot holds: never more than claimed, never more than twenty, and
/// exactly one of the two.
pub proof fn lemma_published_depth_is_capped_claim(count: u32)
    ensures
        published_depth(count) <= count,
        published_depth(count) <= 20,
        published_depth(count) == count || published_depth(count) == 20,
        count <= 20 ==> published_depth(count) == count,
{
}

} // verus!
