use titan_bridge::bridge::{admit_tick, admit_tick_at, TickAdmission};
use titan_bridge::circuit_breakers::{BreakerState, DataCircuitBreaker};
use titan_bridge::clock_sync::ClockSyncPacket;
use titan_bridge::errors::{ErrorCode, SystemError};
use titan_bridge::logger::{log_critical_error, log_error, log_info, log_warn, LogLevel};
use titan_bridge::protocol::{classify_sequence, BinaryTick, ProtocolNormalizer, SequenceStatus};
use titan_bridge::{BinaryDOM, BinaryDOMLevel};

fn tick(symbol_id: u32, sequence_id: u64) -> BinaryTick {
    let mut t = BinaryTick {
        symbol_id,
        timestamp_ms: 1000 + sequence_id as i64,
        bid_bits: 1.1f64.to_bits(),
        ask_bits: 1.10005f64.to_bits(),
        last_bits: 1.1f64.to_bits(),
        volume: 100,
        sequence_id,
        crc32: 0,
    };
    t.crc32 = crc32fast::hash(&t.integrity_payload());
    t
}

#[test]
fn integrity_payload_is_little_endian_fields_in_order() {
    let t = BinaryTick {
        symbol_id: 0x0403_0201,
        timestamp_ms: -2,
        bid_bits: 0x0807_0605_0403_0201,
        ask_bits: 1,
        last_bits: 2,
        volume: 3,
        sequence_id: 0x1122_3344_5566_7788,
        crc32: 0,
    };
    let p = t.integrity_payload();
    assert_eq!(p.len(), 52);
    assert_eq!(&p[0..4], &[1, 2, 3, 4]);
    assert_eq!(&p[4..12], &[0xfe, 0xff, 0xff, 0xff, 0xff, 0xff, 0xff, 0xff]);
    assert_eq!(&p[12..20], &[1, 2, 3, 4, 5, 6, 7, 8]);
    assert_eq!(&p[20..28], &1u64.to_le_bytes());
    assert_eq!(&p[44..52], &[0x88, 0x77, 0x66, 0x55, 0x44, 0x33, 0x22, 0x11]);
}

#[test]
fn verify_integrity_uses_crc32_of_payload() {
    let t = tick(7, 9);
    assert!(ProtocolNormalizer::verify_integrity(&t));
    let mut corrupted = t;
    corrupted.volume = 101;
    assert!(!ProtocolNormalizer::verify_integrity(&corrupted));
    // A checksum equal to the payload's first bytes must not pass.
    let mut echo = t;
    echo.crc32 = u32::from_le_bytes([7, 0, 0, 0]);
    assert!(!ProtocolNormalizer::verify_integrity(&echo));
}

#[test]
fn crc_failure_is_err_101_and_changes_nothing() {
    let mut n = ProtocolNormalizer::new();
    n.process_tick(&tick(1, 4)).unwrap();
    let mut bad = tick(1, 9);
    bad.crc32 ^= 1;
    let err = n.process_tick(&bad).unwrap_err();
    assert_eq!(err.code, ErrorCode::ERR_101_CRC_VALIDATION_FAILED);
    assert_eq!(err.module, "protocol");
    assert_eq!(err.function, "process_tick");
    assert_eq!(err.message, "CRC validation failed (corrupt DMA transfer)");
    assert!(err.context_dump.is_none());
    assert_eq!(n.last_sequence(1), 4);
}

#[test]
fn apply_tick_takes_the_computed_checksum() {
    let mut n = ProtocolNormalizer::new();
    let t = BinaryTick { symbol_id: 3, sequence_id: 8, crc32: 55, ..BinaryTick::default() };
    assert!(n.apply_tick(&t, 54).is_err());
    assert_eq!(n.last_sequence(3), 0);
    assert!(n.apply_tick(&t, 55).is_ok());
    assert_eq!(n.last_sequence(3), 8);
}

#[test]
fn classify_sequence_cases() {
    assert_eq!(classify_sequence(0, 0), SequenceStatus::Fresh);
    assert_eq!(classify_sequence(0, 17), SequenceStatus::Fresh);
    assert_eq!(classify_sequence(4, 5), SequenceStatus::InOrder);
    assert_eq!(classify_sequence(4, 9), SequenceStatus::Gap);
    assert_eq!(classify_sequence(4, 4), SequenceStatus::Duplicate);
    assert_eq!(classify_sequence(4, 1), SequenceStatus::Duplicate);
    assert_eq!(classify_sequence(u64::MAX, u64::MAX), SequenceStatus::Duplicate);
}

#[test]
fn replays_are_dropped_and_record_never_decreases() {
    let mut n = ProtocolNormalizer::new();
    n.process_tick(&tick(1, 5)).unwrap();
    assert_eq!(n.sequence_status(&tick(1, 5)), SequenceStatus::Duplicate);
    n.process_tick(&tick(1, 3)).unwrap();
    assert_eq!(n.last_sequence(1), 5);
    n.process_tick(&tick(1, 5)).unwrap();
    assert_eq!(n.last_sequence(1), 5);
    assert_eq!(n.sequence_status(&tick(1, 9)), SequenceStatus::Gap);
    n.process_tick(&tick(1, 9)).unwrap();
    assert_eq!(n.last_sequence(1), 9);
    assert_eq!(n.sequence_status(&tick(1, 10)), SequenceStatus::InOrder);
}

#[test]
fn symbols_are_tracked_independently() {
    let mut n = ProtocolNormalizer::new();
    n.process_tick(&tick(1, 7)).unwrap();
    n.process_tick(&tick(2, 3)).unwrap();
    assert_eq!(n.last_sequence(1), 7);
    assert_eq!(n.last_sequence(2), 3);
    assert_eq!(n.last_sequence(3), 0);
    assert_eq!(n.sequence_status(&tick(3, 1)), SequenceStatus::Fresh);
}

#[test]
fn zero_record_accepts_anything() {
    let mut n = ProtocolNormalizer::new();
    n.process_tick(&tick(1, 0)).unwrap();
    assert_eq!(n.last_sequence(1), 0);
    assert_eq!(n.sequence_status(&tick(1, 0)), SequenceStatus::Fresh);
    n.process_tick(&tick(1, 3)).unwrap();
    assert_eq!(n.last_sequence(1), 3);
}

fn state(max_tps: u32, tick_count: u32, window_start: u128, trip_duration_ms: u64, tripped_at: Option<u128>) -> BreakerState {
    BreakerState { max_tps, tick_count, window_start, trip_duration_ms, tripped_at }
}

#[test]
fn breaker_new_state() {
    let b = DataCircuitBreaker::new(7, 250);
    assert_eq!(b.state(), state(7, 0, 0, 250, None));
}

#[test]
fn breaker_trips_on_burst_and_blocks_until_cooldown() {
    let mut b = DataCircuitBreaker::new(2, 100);
    assert!(b.allow_tick_at(10));
    assert!(b.allow_tick_at(20));
    assert!(!b.allow_tick_at(30));
    assert_eq!(b.state(), state(2, 3, 0, 100, Some(30)));
    // 100 ms = 100_000_000 ns after the trip the breaker is still closed one ns before.
    assert!(!b.allow_tick_at(30 + 99_999_999));
    assert_eq!(b.state(), state(2, 3, 0, 100, Some(30)));
    assert!(b.allow_tick_at(30 + 100_000_000));
    assert_eq!(b.state(), state(2, 1, 100_000_030, 100, None));
}

#[test]
fn breaker_window_rolls_after_one_second() {
    let mut b = DataCircuitBreaker::new(2, 100);
    assert!(b.allow_tick_at(0));
    assert!(b.allow_tick_at(1));
    assert!(b.allow_tick_at(1_000_000_000));
    assert_eq!(b.state(), state(2, 1, 1_000_000_000, 100, None));
    assert!(b.allow_tick_at(1_999_999_999));
    assert!(!b.allow_tick_at(1_999_999_999));
}

#[test]
fn breaker_clock_going_backwards_counts_as_no_time() {
    let s = state(1, 1, 500, 0, None);
    let (next, ok) = s.on_tick(100);
    assert!(!ok);
    assert_eq!(next, state(1, 2, 500, 0, Some(100)));
}

#[test]
fn breaker_with_zero_limit_refuses_everything() {
    let mut b = DataCircuitBreaker::new(0, 0);
    assert!(!b.allow_tick_at(5));
    assert!(!b.allow_tick_at(6));
    assert_eq!(b.state(), state(0, 1, 6, 0, Some(6)));
}

#[test]
fn admit_tick_pipeline() {
    let mut b = DataCircuitBreaker::new(3, 60_000);
    let mut n = ProtocolNormalizer::new();
    assert_eq!(admit_tick(&mut b, &mut n, &tick(1, 1)).unwrap(), TickAdmission::Admitted(SequenceStatus::Fresh));
    let mut bad = tick(1, 2);
    bad.crc32 ^= 0xff;
    let err = admit_tick(&mut b, &mut n, &bad).unwrap_err();
    assert_eq!(err.code, ErrorCode::ERR_101_CRC_VALIDATION_FAILED);
    assert_eq!(n.last_sequence(1), 1);
    assert_eq!(admit_tick(&mut b, &mut n, &tick(1, 4)).unwrap(), TickAdmission::Admitted(SequenceStatus::Gap));
    // The breaker is now over its limit: the tick is throttled, not recorded.
    assert_eq!(admit_tick(&mut b, &mut n, &tick(1, 5)).unwrap(), TickAdmission::Throttled);
    assert_eq!(n.last_sequence(1), 4);
}

#[test]
fn ghost_ticks_are_dropped_not_admitted() {
    let mut b = DataCircuitBreaker::new(10, 100);
    let mut n = ProtocolNormalizer::new();
    assert_eq!(admit_tick_at(&mut b, &mut n, &tick(1, 5), 10).unwrap(), TickAdmission::Admitted(SequenceStatus::Fresh));
    assert_eq!(admit_tick_at(&mut b, &mut n, &tick(1, 5), 20).unwrap(), TickAdmission::Dropped);
    assert_eq!(admit_tick_at(&mut b, &mut n, &tick(1, 3), 30).unwrap(), TickAdmission::Dropped);
    assert_eq!(n.last_sequence(1), 5);
    assert_eq!(admit_tick_at(&mut b, &mut n, &tick(1, 6), 40).unwrap(), TickAdmission::Admitted(SequenceStatus::InOrder));
    assert_eq!(b.state().tick_count, 4);
}

#[test]
fn breaker_overflow_and_reset_queries() {
    let full = state(u32::MAX, u32::MAX, 0, 10, None);
    assert!(full.would_overflow(5));
    assert!(!full.would_overflow(1_000_000_000));
    let tripped = state(3, 4, 0, 10, Some(100));
    assert!(!tripped.would_overflow(101));
    assert!(!tripped.resets_at(100 + 9_999_999));
    assert!(tripped.resets_at(100 + 10_000_000));
    assert!(!state(3, 1, 0, 10, None).resets_at(1 << 80));
}

#[test]
fn breaker_clock_is_readable() {
    let b = DataCircuitBreaker::new(1, 1);
    let first = b.clock_reading();
    let second = b.clock_reading();
    assert!(second >= first);
}

#[test]
fn error_code_numbers() {
    assert_eq!(ErrorCode::ERR_001_ICEORYX_ROUDI_NOT_FOUND.number(), 1);
    assert_eq!(ErrorCode::ERR_004_CONFIG_FILE_ERROR.number(), 4);
    assert_eq!(ErrorCode::ERR_103_INVALID_PROTOBUF_PAYLOAD.number(), 103);
    assert_eq!(ErrorCode::ERR_202_MAX_SLIPPAGE_EXCEEDED.number(), 202);
    assert_eq!(ErrorCode::ERR_202_MAX_SLIPPAGE_EXCEEDED.name(), "ERR_202_MAX_SLIPPAGE_EXCEEDED");
}

#[test]
fn system_error_display_exact() {
    let err = SystemError::new(ErrorCode::ERR_201_DATA_CIRCUIT_TRIPPED, "circuit_breaker", "allow_tick", "Circuit tripped");
    assert_eq!(err.to_string(), "[ERR_201_DATA_CIRCUIT_TRIPPED] circuit_breaker:allow_tick -> Circuit tripped");
}

#[test]
fn with_context_replaces_context() {
    let err = SystemError::new(ErrorCode::ERR_003_SPACETIMEDB_CONNECTION_FAILED, "m", "f", "x")
        .with_context("one".to_string())
        .with_context("two".to_string());
    assert_eq!(err.context_dump.as_deref(), Some("two"));
    assert_eq!(err.message, "x");
}

#[test]
fn log_records() {
    let e = log_info("lib", "bridge_init", "starting");
    assert_eq!(e.level, LogLevel::Info);
    assert_eq!(e.level.label(), "INFO");
    assert_eq!(e.module, "lib");
    assert_eq!(e.function, "bridge_init");
    assert_eq!(e.message, "starting");
    assert!(e.context.is_none() && e.error_code.is_none());

    assert_eq!(log_warn("a", "b", "c").level.label(), "WARN");

    let e = log_error("a", "b", "c", Some("details"));
    assert_eq!(e.level.label(), "ERROR");
    assert_eq!(e.context.as_deref(), Some("details"));
    assert!(log_error("a", "b", "c", None).context.is_none());
}

#[test]
fn critical_log_record() {
    let err = SystemError::new(ErrorCode::ERR_202_MAX_SLIPPAGE_EXCEEDED, "circuit_breaker", "validate_execution", "too far")
        .with_context("ctx".to_string());
    let e = log_critical_error(&err);
    assert_eq!(e.level.label(), "CRITICAL");
    assert_eq!(e.module, "circuit_breaker");
    assert_eq!(e.function, "validate_execution");
    assert_eq!(e.message, "too far [ERR_202_MAX_SLIPPAGE_EXCEEDED]");
    assert_eq!(e.context.as_deref(), Some("ctx"));
    assert_eq!(e.error_code.as_deref(), Some("ERR_202_MAX_SLIPPAGE_EXCEEDED"));
}

#[test]
fn clock_raw_offsets() {
    let p = ClockSyncPacket { time_trade_server: 10000, get_tick_count_64: 5000 };
    assert_eq!(p.raw_offsets(1_700_000_000_000), (1_699_999_990_000, 1_699_999_995_000));
    let q = ClockSyncPacket { time_trade_server: 0, get_tick_count_64: u64::MAX };
    assert_eq!(q.raw_offsets(10), (10, 11));
}

fn dom(num_bids: u32, num_asks: u32) -> BinaryDOM {
    let mut bids = [BinaryDOMLevel::default(); 20];
    let mut asks = [BinaryDOMLevel::default(); 20];
    for i in 0..20 {
        bids[i] = BinaryDOMLevel { price_bits: (1.1f64 - i as f64 * 0.0001).to_bits(), volume: i as u64 };
        asks[i] = BinaryDOMLevel { price_bits: (1.1f64 + i as f64 * 0.0001).to_bits(), volume: 100 + i as u64 };
    }
    BinaryDOM { symbol_id: 2, timestamp_ms: 1, num_bids, num_asks, bids, asks, crc32: 0 }
}

#[test]
fn published_levels_are_capped_prefixes() {
    let d = dom(3, 25);
    let bids = d.published_bids();
    assert_eq!(bids.len(), 3);
    assert_eq!(bids[2].volume, 2);
    let asks = d.published_asks();
    assert_eq!(asks.len(), 20);
    assert_eq!(asks[19].volume, 119);
    assert!(dom(0, 0).published_bids().is_empty());
    assert_eq!(dom(20, 20).published_asks().len(), 20);
}
