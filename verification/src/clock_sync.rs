//! Clock synchronisation packets and the raw offsets they yield.
use vstd::prelude::*;

verus! {

/// A clock-sync packet from the terminal: the broker server time and the
/// terminal's uptime counter, both in milliseconds.
#[derive(Debug, Clone, Copy)]
pub struct ClockSyncPacket {
    pub time_trade_server: i64,
    pub get_tick_count_64: u64,
}

impl ClockSyncPacket {
    /// The raw offsets of the local clock, `local_time_ms`, over the broker
    /// server clock and over the uptime counter (read as a two's-complement
    /// `i64`), in milliseconds.
    pub fn raw_offsets(&self, local_time_ms: i64) -> (offsets: (i64, i64))
        requires
            i64::MIN <= local_time_ms - self.time_trade_server <= i64::MAX,
            i64::MIN <= local_time_ms - (self.get_tick_count_64 as i64) <= i64::MAX,
        ensures
            offsets.0 == local_time_ms - self.time_trade_server,
            offsets.1 == local_time_ms - (self.get_tick_count_64 as i64),
    {
        let uptime = self.get_tick_count_64 as i64;
        (local_time_ms - self.time_trade_server, local_time_ms - uptime)
    }
}

} // verus!
