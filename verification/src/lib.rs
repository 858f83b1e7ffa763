//! Metrics backends with timers and counters, and the key derivation,
//! signature and cipher helpers they ship with.
use vstd::prelude::*;

pub mod bytes;
pub mod time;
pub mod timer;
pub mod crypto;
pub mod backends;
pub mod metrics;
pub mod macros;
pub mod kvdb_web;

verus! {

} // verus!
