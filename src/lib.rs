//! A leveled, per-module logger whose lines go to a console sink under a
//! bitmask filter and, once enabled, to a broadcast channel for live viewers.

pub mod clock;
pub mod connection;
pub mod level;
pub mod logger;
pub mod record;

pub use clock::ClockTime;
pub use level::LogLevel;
pub use logger::Logger;
