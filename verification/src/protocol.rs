//! Tick integrity and sequencing: the CRC-32 check over a tick's wire
//! fields and the per-symbol ghost-tick filter.
use std::collections::HashMap;
use vstd::prelude::*;
use crate::errors::{ErrorCode, SystemError};

verus! {

broadcast use vstd::std_specs::hash::group_hash_axioms;

/// A market tick as the terminal sends it. The three prices are carried as
/// the IEEE-754 bit patterns of their `f64` values (`f64::to_bits`), which
/// is exactly what the integrity checksum covers.
#[derive(Debug, Clone, Copy, Default)]
pub struct BinaryTick {
    pub symbol_id: u32,
    pub timestamp_ms: i64,
    pub bid_bits: u64,
    pub ask_bits: u64,
    pub last_bits: u64,
    pub volume: u64,
    pub sequence_id: u64,
    pub crc32: u32,
}

/// Little-endian bytes of a `u32`.
pub open spec fn le_bytes_u32(x: u32) -> Seq<u8> {
    seq![(x & 0xff) as u8, ((x >> 8) & 0xff) as u8, ((x >> 16) & 0xff) as u8, ((x >> 24) & 0xff) as u8]
}

/// Little-endian bytes of a `u64`.
pub open spec fn le_bytes_u64(x: u64) -> Seq<u8> {
    seq![
        (x & 0xff) as u8,
        ((x >> 8) & 0xff) as u8,
        ((x >> 16) & 0xff) as u8,
        ((x >> 24) & 0xff) as u8,
        ((x >> 32) & 0xff) as u8,
        ((x >> 40) & 0xff) as u8,
        ((x >> 48) & 0xff) as u8,
        ((x >> 56) & 0xff) as u8,
    ]
}

/// Little-endian two's-complement bytes of an `i64`.
pub open spec fn le_bytes_i64(x: i64) -> Seq<u8> {
    le_bytes_u64(x as u64)
}

/// The bytes that the tick checksum covers: every field but the checksum,
/// in declaration order, each little-endian.
pub open spec fn integrity_payload(t: BinaryTick) -> Seq<u8> {
    le_bytes_u32(t.symbol_id) + le_bytes_i64(t.timestamp_ms) + le_bytes_u64(t.bid_bits)
        + le_bytes_u64(t.ask_bits) + le_bytes_u64(t.last_bits) + le_bytes_u64(t.volume)
        + le_bytes_u64(t.sequence_id)
}

/// Names the CRC-32 (IEEE) checksum that `crc32fast` computes over a byte string.
pub uninterp spec fn crc32_ieee(data: Seq<u8>) -> u32;

/// Calls `crc32fast::hash`, which runs a fresh `Hasher` over `data` and
/// finalizes it. Claimed: the result is the checksum named `crc32_ieee` of
/// the bytes, a function of those bytes alone.
#[verifier::external_body]
fn crc32_checksum(data: &[u8]) -> (crc: u32)
    ensures
        crc == crc32_ieee(data@),
{
    crc32fast::hash(data)
}

fn push_le_u32(out: &mut Vec<u8>, x: u32)
    ensures
        final(out)@ == old(out)@ + le_bytes_u32(x),
{
    out.push((x & 0xff) as u8);
    out.push(((x >> 8) & 0xff) as u8);
    out.push(((x >> 16) & 0xff) as u8);
    out.push(((x >> 24) & 0xff) as u8);
    assert(final(out)@ =~= old(out)@ + le_bytes_u32(x));
}

fn push_le_u64(out: &mut Vec<u8>, x: u64)
    ensures
        final(out)@ == old(out)@ + le_bytes_u64(x),
{
    out.push((x & 0xff) as u8);
    out.push(((x >> 8) & 0xff) as u8);
    out.push(((x >> 16) & 0xff) as u8);
    out.push(((x >> 24) & 0xff) as u8);
    out.push(((x >> 32) & 0xff) as u8);
    out.push(((x >> 40) & 0xff) as u8);
    out.push(((x >> 48) & 0xff) as u8);
    out.push(((x >> 56) & 0xff) as u8);
    assert(final(out)@ =~= old(out)@ + le_bytes_u64(x));
}

impl BinaryTick {
    /// The bytes covered by the integrity checksum.
    pub fn integrity_payload(&self) -> (bytes: Vec<u8>)
        ensures
            bytes@ == integrity_payload(*self),
            bytes@.len() == 52,
    {
        let mut bytes: Vec<u8> = Vec::new();
        push_le_u32(&mut bytes, self.symbol_id);
        push_le_u64(&mut bytes, self.timestamp_ms as u64);
        push_le_u64(&mut bytes, self.bid_bits);
        push_le_u64(&mut bytes, self.ask_bits);
        push_le_u64(&mut bytes, self.last_bits);
        push_le_u64(&mut bytes, self.volume);
        push_le_u64(&mut bytes, self.sequence_id);
        assert(bytes@ =~= integrity_payload(*self));
        bytes
    }
}


/// How a tick's sequence number relates to the last one recorded for its
/// symbol.
#[derive(Debug, Clone, Copy, PartialEq, Eq, Structural)]
pub enum SequenceStatus {
    /// Nothing (or zero) is recorded for the symbol: the tick is accepted.
    Fresh,
    /// The tick directly follows the recorded one.
    InOrder,
    /// The tick is ahead of the next expected number; it is accepted and the
    /// gap is reported.
    Gap,
    /// The tick repeats or precedes the recorded one: it is dropped.
    Duplicate,
}

/// The recorded last sequence number of a symbol, zero when none is recorded.
pub open spec fn recorded(last: Map<u32, u64>, symbol: u32) -> u64 {
    if last.contains_key(symbol) { last[symbol] } else { 0 }
}

/// Classifies `seq` against the recorded number `prev` (zero meaning none).
pub open spec fn spec_classify(prev: u64, seq: u64) -> SequenceStatus {
    if prev == 0 {
        SequenceStatus::Fresh
    } else if seq <= prev {
        SequenceStatus::Duplicate
    } else if seq == prev + 1 {
        SequenceStatus::InOrder
    } else {
        SequenceStatus::Gap
    }
}

/// A tick is a ghost when its symbol has a non-zero recorded number that its
/// own number does not exceed.
pub open spec fn is_ghost_tick(last: Map<u32, u64>, symbol: u32, seq: u64) -> bool {
    spec_classify(recorded(last, symbol), seq) == SequenceStatus::Duplicate
}

/// The per-symbol record after a tick that passed its integrity check:
/// unchanged for a ghost tick, otherwise the tick's number becomes the
/// symbol's record.
pub open spec fn record_tick(last: Map<u32, u64>, symbol: u32, seq: u64) -> Map<u32, u64> {
    if is_ghost_tick(last, symbol, seq) {
        last
    } else {
        last.insert(symbol, seq)
    }
}

/// Describes the error that reports a failed integrity check.
pub open spec fn is_crc_failure(err: SystemError) -> bool {
    &&& err.code == ErrorCode::ERR_101_CRC_VALIDATION_FAILED
    &&& err.module@ == "protocol"@
    &&& err.function@ == "process_tick"@
    &&& err.message@ == "CRC validation failed (corrupt DMA transfer)"@
    &&& err.context_dump is None
}

/// Classifies `seq` against the recorded number `prev` (zero meaning none).
pub fn classify_sequence(prev: u64, seq: u64) -> (status: SequenceStatus)
    ensures
        status == spec_classify(prev, seq),
{
    if prev == 0 {
        SequenceStatus::Fresh
    } else if seq <= prev {
        SequenceStatus::Duplicate
    } else if seq == prev + 1 {
        SequenceStatus::InOrder
    } else {
        SequenceStatus::Gap
    }
}

/// Filters ghost ticks: remembers, per symbol, the sequence number of the
/// last tick it accepted.
pub struct ProtocolNormalizer {
    last_processed_sequence: HashMap<u32, u64>,
}

impl View for ProtocolNormalizer {
    type V = Map<u32, u64>;

    closed spec fn view(&self) -> Map<u32, u64> {
        self.last_processed_sequence@
    }
}

impl ProtocolNormalizer {
    /// A normalizer that has seen no tick.
    pub fn new() -> (n: Self)
        ensures
            n@ == Map::<u32, u64>::empty(),
    {
        ProtocolNormalizer { last_processed_sequence: HashMap::new() }
    }

    fn computed_crc(tick: &BinaryTick) -> (crc: u32)
        ensures
            crc == crc32_ieee(integrity_payload(*tick)),
    {
        let bytes = tick.integrity_payload();
        crc32_checksum(bytes.as_slice())
    }

    /// Verifies the payload integrity: true exactly when the CRC-32 of the
    /// tick's payload equals its `crc32` field.
    pub fn verify_integrity(tick: &BinaryTick) -> (ok: bool)
        ensures
            ok == (crc32_ieee(integrity_payload(*tick)) == tick.crc32),
    {
        Self::computed_crc(tick) == tick.crc32
    }

    /// The last sequence number recorded for `symbol_id`, zero when none is.
    pub fn last_sequence(&self, symbol_id: u32) -> (seq: u64)
        ensures
            seq == recorded(self@, symbol_id),
    {
        match self.last_processed_sequence.get(&symbol_id) {
            Some(s) => *s,
            None => 0,
        }
    }

    /// How `tick` would be treated by the sequence filter in the current state.
    pub fn sequence_status(&self, tick: &BinaryTick) -> (status: SequenceStatus)
        ensures
            status == spec_classify(recorded(self@, tick.symbol_id), tick.sequence_id),
    {
        let prev = self.last_sequence(tick.symbol_id);
        classify_sequence(prev, tick.sequence_id)
    }

    /// Applies a tick whose payload checksum was computed as `computed_crc`:
    /// a mismatch with the tick's own `crc32` is refused with
    /// `ERR_101_CRC_VALIDATION_FAILED` and changes nothing; otherwise ghost
    /// ticks are dropped and any other tick becomes its symbol's record.
    pub fn apply_tick(&mut self, tick: &BinaryTick, computed_crc: u32) -> (r: Result<(), SystemError>)
        ensures
            computed_crc != tick.crc32 ==> r is Err && is_crc_failure(r->Err_0) && final(self)@ == old(self)@,
            computed_crc == tick.crc32 ==> r is Ok && final(self)@ == record_tick(old(self)@, tick.symbol_id, tick.sequence_id),
    {
        if computed_crc != tick.crc32 {
            return Err(SystemError::new(
                ErrorCode::ERR_101_CRC_VALIDATION_FAILED,
                "protocol",
                "process_tick",
                "CRC validation failed (corrupt DMA transfer)",
            ));
        }
        let status = self.sequence_status(tick);
        match status {
            SequenceStatus::Duplicate => {},
            _ => {
                self.last_processed_sequence.insert(tick.symbol_id, tick.sequence_id);
            },
        }
        Ok(())
    }

    /// Ghost-tick filter: checks the tick's integrity, refusing a corrupt
    /// tick with `ERR_101_CRC_VALIDATION_FAILED`; drops duplicate or
    /// out-of-sequence ticks and records every other one.
    pub fn process_tick(&mut self, tick: &BinaryTick) -> (r: Result<(), SystemError>)
        ensures
            crc32_ieee(integrity_payload(*tick)) != tick.crc32 ==> r is Err && is_crc_failure(r->Err_0)
                && final(self)@ == old(self)@,
            crc32_ieee(integrity_payload(*tick)) == tick.crc32 ==> r is Ok
                && final(self)@ == record_tick(old(self)@, tick.symbol_id, tick.sequence_id),
    {
        let crc = Self::computed_crc(tick);
        self.apply_tick(tick, crc)
    }
}


/// A tick changes nothing recorded for any other symbol.
pub proof fn lemma_other_symbols_untouched(last: Map<u32, u64>, symbol: u32, seq: u64, other: u32)
    requires
        other != symbol,
    ensures
        record_tick(last, symbol, seq).contains_key(other) == last.contains_key(other),
        recorded(record_tick(last, symbol, seq), other) == recorded(last, other),
{
}

/// A symbol's recorded sequence number never decreases.
pub proof fn lemma_record_never_decreases(last: Map<u32, u64>, symbol: u32, seq: u64)
    ensures
        recorded(record_tick(last, symbol, seq), symbol) >= recorded(last, symbol),
{
}

/// After a tick with a non-zero sequence number, any tick of the same symbol
/// whose number does not exceed it is dropped as a ghost.
pub proof fn lemma_replays_are_dropped(last: Map<u32, u64>, symbol: u32, seq: u64, later: u64)
    requires
        seq != 0,
        later <= seq,
    ensures
        is_ghost_tick(record_tick(last, symbol, seq), symbol, later),
        record_tick(record_tick(last, symbol, seq), symbol, later) == record_tick(last, symbol, seq),
{
}

/// Delivering the same tick twice leaves the same record as delivering it once.
pub proof fn lemma_redelivery_idempotent(last: Map<u32, u64>, symbol: u32, seq: u64)
    ensures
        record_tick(record_tick(last, symbol, seq), symbol, seq) == record_tick(last, symbol, seq),
{
    assert(record_tick(record_tick(last, symbol, seq), symbol, seq) =~= record_tick(last, symbol, seq));
}

/// A tick that is not a ghost, in order or after a gap, is always recorded.
pub proof fn lemma_newer_ticks_recorded(last: Map<u32, u64>, symbol: u32, seq: u64)
    requires
        seq > recorded(last, symbol),
    ensures
        recorded(record_tick(last, symbol, seq), symbol) == seq,
{
}


/// What a checked tick does to the per-symbol record: a tick whose symbol
/// has a non-zero record at least as large as the tick's number leaves the
/// record as it is; any other tick makes its number the symbol's record and
/// touches no other symbol.
pub proof fn lemma_record_tick_meaning(last: Map<u32, u64>, symbol: u32, seq: u64)
    ensures
        (last.contains_key(symbol) && last[symbol] != 0 && seq <= last[symbol]) ==> record_tick(last, symbol, seq)
            == last,
        !(last.contains_key(symbol) && last[symbol] != 0 && seq <= last[symbol]) ==> record_tick(last, symbol, seq)
            == last.insert(symbol, seq),
{
}

/// The `u32` read back from four little-endian bytes.
pub open spec fn le_value_u32(b: Seq<u8>) -> u32 {
    (b[0] as u32) | ((b[1] as u32) << 8u32) | ((b[2] as u32) << 16u32) | ((b[3] as u32) << 24u32)
}

/// The `u64` read back from eight little-endian bytes.
pub open spec fn le_value_u64(b: Seq<u8>) -> u64 {
    (b[0] as u64) | ((b[1] as u64) << 8u64) | ((b[2] as u64) << 16u64) | ((b[3] as u64) << 24u64)
        | ((b[4] as u64) << 32u64) | ((b[5] as u64) << 40u64) | ((b[6] as u64) << 48u64)
        | ((b[7] as u64) << 56u64)
}

proof fn lemma_le_u32_reads_back(x: u32)
    ensures
        le_bytes_u32(x).len() == 4,
        le_value_u32(le_bytes_u32(x)) == x,
{
    let b = le_bytes_u32(x);
    let b0 = (x & 0xff) as u8;
    let b1 = ((x >> 8) & 0xff) as u8;
    let b2 = ((x >> 16) & 0xff) as u8;
    let b3 = ((x >> 24) & 0xff) as u8;
    assert(b[0] == b0 && b[1] == b1 && b[2] == b2 && b[3] == b3);
    assert(((b0 as u32) | ((b1 as u32) << 8u32) | ((b2 as u32) << 16u32) | ((b3 as u32) << 24u32)) == x)
        by (bit_vector)
        requires
            b0 == (x & 0xff) as u8,
            b1 == ((x >> 8) & 0xff) as u8,
            b2 == ((x >> 16) & 0xff) as u8,
            b3 == ((x >> 24) & 0xff) as u8,
    ;
}

proof fn lemma_le_u64_reads_back(x: u64)
    ensures
        le_bytes_u64(x).len() == 8,
        le_value_u64(le_bytes_u64(x)) == x,
{
    let b = le_bytes_u64(x);
    let b0 = (x & 0xff) as u8;
    let b1 = ((x >> 8) & 0xff) as u8;
    let b2 = ((x >> 16) & 0xff) as u8;
    let b3 = ((x >> 24) & 0xff) as u8;
    let b4 = ((x >> 32) & 0xff) as u8;
    let b5 = ((x >> 40) & 0xff) as u8;
    let b6 = ((x >> 48) & 0xff) as u8;
    let b7 = ((x >> 56) & 0xff) as u8;
    assert(b[0] == b0 && b[1] == b1 && b[2] == b2 && b[3] == b3);
    assert(b[4] == b4 && b[5] == b5 && b[6] == b6 && b[7] == b7);
    assert(((b0 as u64) | ((b1 as u64) << 8u64) | ((b2 as u64) << 16u64) | ((b3 as u64) << 24u64)
        | ((b4 as u64) << 32u64) | ((b5 as u64) << 40u64) | ((b6 as u64) << 48u64)
        | ((b7 as u64) << 56u64)) == x) by (bit_vector)
        requires
            b0 == (x & 0xff) as u8,
            b1 == ((x >> 8) & 0xff) as u8,
            b2 == ((x >> 16) & 0xff) as u8,
            b3 == ((x >> 24) & 0xff) as u8,
            b4 == ((x >> 32) & 0xff) as u8,
            b5 == ((x >> 40) & 0xff) as u8,
            b6 == ((x >> 48) & 0xff) as u8,
            b7 == ((x >> 56) & 0xff) as u8,
    ;
}

/// The checksum covers every wire field but the checksum, at fixed
/// offsets, little-endian: reading the 52 payload bytes back gives
/// `symbol_id` (bytes 0..4), `timestamp_ms` (4..12), `bid_bits` (12..20),
/// `ask_bits` (20..28), `last_bits` (28..36), `volume` (36..44) and
/// `sequence_id` (44..52).
pub proof fn lemma_payload_reads_back(t: BinaryTick)
    ensures
        integrity_payload(t).len() == 52,
        le_value_u32(integrity_payload(t).subrange(0, 4)) == t.symbol_id,
        le_value_u64(integrity_payload(t).subrange(4, 12)) as i64 == t.timestamp_ms,
        le_value_u64(integrity_payload(t).subrange(12, 20)) == t.bid_bits,
        le_value_u64(integrity_payload(t).subrange(20, 28)) == t.ask_bits,
        le_value_u64(integrity_payload(t).subrange(28, 36)) == t.last_bits,
        le_value_u64(integrity_payload(t).subrange(36, 44)) == t.volume,
        le_value_u64(integrity_payload(t).subrange(44, 52)) == t.sequence_id,
{
    let ts = t.timestamp_ms as u64;
    lemma_le_u32_reads_back(t.symbol_id);
    lemma_le_u64_reads_back(ts);
    lemma_le_u64_reads_back(t.bid_bits);
    lemma_le_u64_reads_back(t.ask_bits);
    lemma_le_u64_reads_back(t.last_bits);
    lemma_le_u64_reads_back(t.volume);
    lemma_le_u64_reads_back(t.sequence_id);
    let p = integrity_payload(t);
    assert(p.subrange(0, 4) =~= le_bytes_u32(t.symbol_id));
    assert(p.subrange(4, 12) =~= le_bytes_u64(ts));
    assert(p.subrange(12, 20) =~= le_bytes_u64(t.bid_bits));
    assert(p.subrange(20, 28) =~= le_bytes_u64(t.ask_bits));
    assert(p.subrange(28, 36) =~= le_bytes_u64(t.last_bits));
    assert(p.subrange(36, 44) =~= le_bytes_u64(t.volume));
    assert(p.subrange(44, 52) =~= le_bytes_u64(t.sequence_id));
    let tsv = t.timestamp_ms;
    assert((tsv as u64) as i64 == tsv) by (bit_vector);
}

/// Two ticks with the same checksum payload agree on every wire field but
/// the checksum: a change to any covered field changes the payload.
pub proof fn lemma_payload_injective(t1: BinaryTick, t2: BinaryTick)
    requires
        integrity_payload(t1) == integrity_payload(t2),
    ensures
        t1.symbol_id == t2.symbol_id,
        t1.timestamp_ms == t2.timestamp_ms,
        t1.bid_bits == t2.bid_bits,
        t1.ask_bits == t2.ask_bits,
        t1.last_bits == t2.last_bits,
        t1.volume == t2.volume,
        t1.sequence_id == t2.sequence_id,
{
    lemma_payload_reads_back(t1);
    lemma_payload_reads_back(t2);
}

/// What the classification means: `Fresh` exactly when nothing is recorded
/// (zero), `Duplicate` exactly when the number does not exceed the record,
/// `InOrder` exactly when it is the next number after the record, and `Gap`
/// exactly when at least one number between them (the record plus one) was
/// skipped.
pub proof fn lemma_classification_meaning(prev: u64, seq: u64)
    ensures
        (spec_classify(prev, seq) == SequenceStatus::Fresh) <==> prev == 0,
        (spec_classify(prev, seq) == SequenceStatus::Duplicate) <==> (prev != 0 && seq <= prev),
        (spec_classify(prev, seq) == SequenceStatus::InOrder) <==> (prev != 0 && seq as int == prev as int + 1),
        (spec_classify(prev, seq) == SequenceStatus::Gap) <==> (prev != 0 && seq as int > prev as int + 1),
{
}

} // verus!
