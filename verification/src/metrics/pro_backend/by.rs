//! Counter increments by a given amount.
use vstd::prelude::*;

use crate::backends::pro::Counter;

verus! {

/// Count `nb` events of the configured counter. Counters only go up.
pub fn a_int_counter(counter: &Counter, nb: i64)
    requires
        nb >= 0,
{
    counter.inc_by(nb)
}

} // verus!
