//! A hostname-resolution adapter built around the platform's blocking
//! name-to-addresses primitive.
//!
//! The library holds the decision logic of the adapter: hostname encoding,
//! the loopback-quirk detection that drives a single retry with relaxed
//! hints, the lazy cursor over resolved address records, and the phase
//! machine that accounts for every OS-owned result list exactly once.
//! The blocking native call itself, and the scheduler that keeps it off
//! the cooperative path, live outside the library and drive the phase
//! machine with plain values.

pub mod addr;
pub mod cursor;
pub mod lookup;
pub mod quirk;
