//! Small readings of the host a process runs on: the wall-clock time as
//! whole seconds since the Unix epoch and the number of logical CPUs the
//! process may use, together with the fixed text lines that report them.

use vstd::prelude::*;

pub mod report;
pub mod utils;

verus! {

/// The version this library carries.
pub const VERSION: &'static str = "0.1.0";

/// The library's version string: [`VERSION`], which is never empty.
pub fn version() -> (v: &'static str)
    ensures
        v@ == VERSION@,
        v@.len() > 0,
{
    proof {
        reveal_strlit("0.1.0");
    }
    VERSION
}

} // verus!
