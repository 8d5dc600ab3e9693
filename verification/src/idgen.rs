//! Identity allocation: unique, strictly increasing building identifiers.

use vstd::prelude::*;

verus! {

/// Issues entity identifiers. Every identifier handed out is strictly
/// greater than all previously issued ones; identifiers are never reused.
pub struct IdGenerator {
    /// The last identifier issued, or 0 if none has been issued yet.
    pub id: usize,
}

impl IdGenerator {
    /// A fresh generator that has issued nothing yet.
    pub fn new() -> (r: Self)
        ensures
            r.id == 0,
    {
        Self { id: 0 }
    }

    /// Issues the next identifier: one more than the last one issued,
    /// so the results of successive calls are strictly increasing.
    pub fn gimme(&mut self) -> (r: usize)
        requires
            old(self).id < usize::MAX,
        ensures
            final(self).id == old(self).id + 1,
            r == final(self).id,
    {
        self.id = self.id + 1;
        self.id
    }
}

} // verus!
