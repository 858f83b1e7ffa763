//! The backend without the standard library: its metrics do nothing.
use vstd::prelude::*;

pub mod by;
pub mod inc;

verus! {

/// The backend never writes; this path is never used.
pub const DEFAULT_FILE_OUTPUT: &'static str = "./dummy";

} // verus!
