//! The shared radio handle: one slot that every component borrows from.
//!
//! The slot holds at most one live handle at a time.  Acquisition is
//! answered from the slot when it is filled; creating a fresh handle is
//! the radio layer's work, stored here afterwards.  Invalidation empties
//! the slot, forcing reinitialization on the next acquisition.

use vstd::prelude::*;

verus! {

/// The one place a live radio handle of type `A` can stand.
pub struct RadioSlot<A> {
    pub slot: Option<A>,
}

impl<A> RadioSlot<A> {
    /// An empty slot: no handle has been created yet.
    pub fn new() -> (r: Self)
        ensures
            r.slot is None,
    {
        RadioSlot { slot: None }
    }

    /// The stored handle, if one is live; subsequent acquisitions reuse
    /// it.
    pub fn acquire_cached(&self) -> (r: Option<&A>)
        ensures
            match r {
                Some(a) => self.slot matches Some(stored) && *a == stored,
                None => self.slot is None,
            },
    {
        match &self.slot {
            Some(a) => Some(a),
            None => None,
        }
    }

    /// Stores a freshly created handle; it is now the shared one.
    pub fn store(&mut self, handle: A)
        ensures
            final(self).slot == Some(handle),
    {
        self.slot = Some(handle);
    }

    /// Empties the slot, forcing reinitialization on the next
    /// acquisition.
    pub fn invalidate(&mut self)
        ensures
            final(self).slot is None,
    {
        self.slot = None;
    }
}

} // verus!
