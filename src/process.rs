//! Amounts reported about running processes of the shell.
use vstd::prelude::*;

verus! {

/// An amount of memory in bytes.
#[derive(Clone, Copy, Debug, PartialEq, Eq, Structural)]
pub struct Bytes(pub u64);

impl Bytes {
    /// The amount in whole units of 1024 × 1024 bytes, rounded down.
    pub fn to_kb(&self) -> (r: u64)
        ensures
            r == self.0 / 1048576,
    {
        self.0 / 1048576
    }
}

} // verus!
