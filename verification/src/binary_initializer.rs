//! Whether the helper programs are in place.

use vstd::prelude::*;

verus! {

/// Remembers whether the helper programs have been fetched.
#[derive(Debug, Clone, Copy, PartialEq, Eq, Structural)]
pub struct BinaryInitializer {
    pub initialized: bool,
}

impl BinaryInitializer {
    /// Nothing has been fetched yet.
    pub fn new() -> (r: Self)
        ensures
            !r.initialized,
    {
        Self { initialized: false }
    }

    /// Whether the helper programs have been fetched.
    pub fn are_binaries_initialized(&self) -> (r: bool)
        ensures
            r == self.initialized,
    {
        self.initialized
    }

    /// Takes note of how the downloads ended, one entry for each program.
    /// The programs count as fetched once every download of a round has
    /// succeeded, and they stay so.
    pub fn initialize(&mut self, downloads: &[bool])
        ensures
            final(self).initialized == (old(self).initialized || forall|i: int|
                0 <= i < downloads@.len() ==> downloads@[i]),
    {
        if self.initialized {
            return ;
        }
        let mut i: usize = 0;
        while i < downloads.len()
            invariant
                i <= downloads.len(),
                forall|j: int| 0 <= j < i ==> downloads@[j],
            decreases downloads.len() - i,
        {
            if !downloads[i] {
                return ;
            }
            i += 1;
        }
        self.initialized = true;
    }
}

} // verus!
