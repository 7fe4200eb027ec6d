//! The progress reporter handed to the conversion engine. Reporting itself
//! is a best-effort display on standard output and lives in the application
//! layer; the reporter carries no state.

use vstd::prelude::*;

verus! {

/// A stateless progress reporter that the application layer prints through.
pub struct StdOutProgress {}

impl StdOutProgress {
    pub fn new() -> (p: Self)
        ensures
            p == (StdOutProgress {}),
    {
        StdOutProgress {}
    }
}

} // verus!
