//! Verified core of a power-meter telemetry service.
//!
//! The library maps decoded meter record sets onto structured readings,
//! persists them in an SQLite-backed store with time-based deduplication,
//! holds the most recent reading in a consume-on-read cache, and answers
//! ad-hoc read-only queries.  Serial and network I/O live outside the
//! library; the logic here is verified.

pub mod cache;
pub mod clock;
pub mod core_loop;
pub mod database;
pub mod decimal;
pub mod meter_reading;
pub mod obis_code;
pub mod record;
pub mod unit;
