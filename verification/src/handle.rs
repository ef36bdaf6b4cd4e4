//! The opaque handle and the storage it points into.
//!
//! The host never holds a component's state, only an integer-sized token it
//! round-trips without interpreting. The storage owns the values; a handle is
//! valid from its allocation until the one free call associated with it, and
//! every operation's contract rules out use after free and double free.
use vstd::prelude::*;

verus! {

/// A host-visible token standing for one allocation. Its bit pattern is
/// opaque to the host: it may only be stored, handed back, and compared for
/// equality with a handle from the same storage.
#[derive(Clone, Copy, PartialEq, Eq, Structural, Debug)]
pub struct Handle {
    pub id: usize,
}

/// Storage owning the values behind opaque handles. Each allocation gets a
/// slot of its own; freeing empties the slot and the handle is dead from
/// then on.
pub struct HandleStore<T> {
    slots: Vec<Option<T>>,
}

impl<T> HandleStore<T> {
    /// Whether the handle is currently valid: allocated and not yet freed.
    pub closed spec fn live(self, h: Handle) -> bool {
        h.id < self.slots@.len() && self.slots@[h.id as int] is Some
    }

    /// The value owned on behalf of a live handle.
    pub closed spec fn value_of(self, h: Handle) -> T {
        self.slots@[h.id as int]->0
    }

    /// Empty storage: no handle is live.
    pub fn new() -> (r: HandleStore<T>)
        ensures
            forall|h: Handle| !r.live(h),
    {
        HandleStore { slots: Vec::new() }
    }

    /// Moves `value` into fresh storage and returns the handle standing for
    /// it. The handle was not live before; every other handle keeps its
    /// status and value.
    pub fn allocate(&mut self, value: T) -> (h: Handle)
        ensures
            !old(self).live(h),
            final(self).live(h),
            final(self).value_of(h) == value,
            forall|g: Handle| g != h ==> final(self).live(g) == old(self).live(g),
            forall|g: Handle|
                g != h && old(self).live(g) ==> final(self).value_of(g) == old(self).value_of(g),
    {
        let id = self.slots.len();
        self.slots.push(Some(value));
        Handle { id }
    }

    /// Reads the value behind a live handle without transferring ownership.
    pub fn deref(&self, h: Handle) -> (r: &T)
        requires
            self.live(h),
        ensures
            *r == self.value_of(h),
    {
        self.slots[h.id].as_ref().unwrap()
    }

    /// Replaces the value behind a live handle, returning the previous one.
    /// The handle stays live; no other handle is touched.
    pub fn replace(&mut self, h: Handle, value: T) -> (prev: T)
        requires
            old(self).live(h),
        ensures
            prev == old(self).value_of(h),
            final(self).live(h),
            final(self).value_of(h) == value,
            forall|g: Handle| final(self).live(g) == old(self).live(g),
            forall|g: Handle|
                g != h && old(self).live(g) ==> final(self).value_of(g) == old(self).value_of(g),
    {
        let slot = &mut self.slots[h.id];
        let prev = slot.take();
        *slot = Some(value);
        prev.unwrap()
    }

    /// Consumes a live handle and moves its value out; the handle is dead
    /// afterwards, so a second free of it is ruled out by this contract.
    pub fn free(&mut self, h: Handle) -> (v: T)
        requires
            old(self).live(h),
        ensures
            v == old(self).value_of(h),
            !final(self).live(h),
            forall|g: Handle| g != h ==> final(self).live(g) == old(self).live(g),
            forall|g: Handle|
                g != h && old(self).live(g) ==> final(self).value_of(g) == old(self).value_of(g),
    {
        let slot = &mut self.slots[h.id];
        slot.take().unwrap()
    }
}

} // verus!
