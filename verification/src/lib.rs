//! Verified core of the Titan market-data bridge: tick integrity and
//! sequencing, ingest rate limiting, clock-sync offsets, order-book
//! truncation, structured log records and the deterministic error framework.
pub mod errors;
pub mod protocol;
pub mod circuit_breakers;
pub mod clock_sync;
pub mod logger;
pub mod bridge;

pub use bridge::{BinaryDOM, BinaryDOMLevel};
