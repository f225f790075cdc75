//! Verified core of a small air-quality sensor server: the line grammar
//! spoken by a UD-CO2S USB-serial sensor, the byte-at-a-time line reader,
//! the start/read/stop acquisition protocol, and the freshness-gated
//! cache that decides when a cached reading may be served.
//!
//! Everything that touches a serial port or an HTTP socket lives outside
//! this crate; the functions here work on plain values and carry proved
//! contracts.

pub mod cache;
pub mod clock;
pub mod driver;
pub mod line;
pub mod parse;
pub mod reading;
