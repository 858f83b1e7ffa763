//! Counter increments by one.
use vstd::prelude::*;

verus! {

/// Count one event of the configured counter: without a backend, nothing.
pub fn a_int_counter() {
}

} // verus!
