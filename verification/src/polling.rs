//! The poll driver.

use vstd::prelude::*;

verus! {

/// Drives a periodic poll of the commodity list.
#[derive(Debug, Clone, Copy, PartialEq, Eq, Structural)]
pub struct Poll;

impl Poll {
    pub fn new() -> (r: Poll)
        ensures
            r == Poll,
    {
        Poll
    }
}

} // verus!
