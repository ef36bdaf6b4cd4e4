//! Mutable component state with a change-triggers-rerender contract.
use crate::hooks::PersistedSlot;
use crate::hooks::SlotError;
use crate::hooks::SlotEvent;
use crate::hooks::SlotModel;
use crate::hooks::slot_step;
use vstd::prelude::*;

verus! {

/// A state cell: a persisted slot specialized for mutable state, plus the
/// pending request that asks the host to re-render the owning node after a
/// mutation.
pub struct UseState<T> {
    pub slot: PersistedSlot<T>,
    pub rerender_requested: bool,
}

impl<T> UseState<T> {
    pub open spec fn wf(self) -> bool {
        self.slot.wf()
    }

    /// Mounted here means: the node is live and the state value exists.
    pub open spec fn is_mounted(self) -> bool {
        self.slot.is_initialized()
    }

    pub open spec fn value_spec(self) -> T {
        self.slot.value_spec()
    }

    pub open spec fn model(self) -> SlotModel {
        self.slot.hist@
    }

    /// The cell the host creates when it mounts the node: no value yet and
    /// no re-render pending.
    pub fn new() -> (r: UseState<T>)
        ensures
            r.wf(),
            r.slot.is_uninitialized(),
            !r.rerender_requested,
            r.model() == crate::hooks::slot_init(),
    {
        UseState { slot: PersistedSlot::new(), rerender_requested: false }
    }

    /// The read-only view of the state during a render call. It reflects
    /// every mutation applied before this render; mutations applied later
    /// are seen only from the next render's view.
    pub fn value(&self) -> (r: &T)
        requires
            self.wf(),
            self.is_mounted(),
        ensures
            *r == self.value_spec(),
    {
        self.slot.get()
    }

    /// Applies one host-scheduled mutation. On a mounted node the stored
    /// value becomes the mutator's result and a re-render is requested; on
    /// a node that was never initialized or already torn down the stale
    /// call is detected and nothing is touched.
    pub fn update<F: FnOnce(T) -> T>(&mut self, mutator: F) -> (r: Result<(), SlotError>)
        requires
            old(self).wf(),
            old(self).is_mounted() ==> call_requires(mutator, (old(self).value_spec(),)),
        ensures
            final(self).wf(),
            r is Ok <==> old(self).is_mounted(),
            old(self).is_mounted() ==> final(self).is_mounted(),
            old(self).is_mounted() ==> call_ensures(
                mutator,
                (old(self).value_spec(),),
                final(self).value_spec(),
            ),
            old(self).is_mounted() ==> final(self).rerender_requested,
            old(self).is_mounted() ==> final(self).model() == old(self).model(),
            !old(self).is_mounted() ==> *final(self) == *old(self),
            old(self).slot.is_uninitialized() ==> r == Err::<(), SlotError>(
                SlotError::NotInitialized,
            ),
            old(self).slot.is_freed() ==> r == Err::<(), SlotError>(SlotError::UseAfterFree),
    {
        match self.slot.phase {
            crate::hooks::SlotPhase::Initialized => {
                self.slot.update_with(mutator);
                self.rerender_requested = true;
                Ok(())
            },
            crate::hooks::SlotPhase::Uninitialized => Err(SlotError::NotInitialized),
            crate::hooks::SlotPhase::Freed => Err(SlotError::UseAfterFree),
        }
    }

    /// The host's side of the re-render request: reads the flag and clears
    /// it, leaving the state itself untouched.
    pub fn take_rerender_request(&mut self) -> (r: bool)
        requires
            old(self).wf(),
        ensures
            final(self).wf(),
            r == old(self).rerender_requested,
            !final(self).rerender_requested,
            final(self).slot == old(self).slot,
    {
        let r = self.rerender_requested;
        self.rerender_requested = false;
        r
    }

    /// The teardown notification for the owning node: frees the state
    /// exactly once; a repeated call is detected as a double free and
    /// changes nothing.
    pub fn unmount(&mut self) -> (r: Result<(), SlotError>)
        requires
            old(self).wf(),
        ensures
            final(self).wf(),
            final(self).slot.is_freed(),
            final(self).model() == slot_step(old(self).model(), SlotEvent::Unmount),
            r is Ok <==> !old(self).slot.is_freed(),
            old(self).slot.is_freed() ==> r == Err::<(), SlotError>(SlotError::DoubleFree),
    {
        match self.slot.unmount() {
            Ok(_dropped) => Ok(()),
            Err(e) => Err(e),
        }
    }
}

/// The state hook, run once per render call. On the first render of the
/// node it runs `init` exactly once and stores the result; on every later
/// render it leaves the cell exactly as it was, so the view read afterwards
/// is the stored value with all applied mutations.
pub fn use_state<T, F: FnOnce() -> T>(cell: &mut UseState<T>, init: F)
    requires
        old(cell).wf(),
        !old(cell).slot.is_freed(),
        old(cell).slot.is_uninitialized() ==> call_requires(init, ()),
    ensures
        final(cell).wf(),
        final(cell).is_mounted(),
        final(cell).model() == slot_step(old(cell).model(), SlotEvent::Access),
        old(cell).slot.is_uninitialized() ==> call_ensures(init, (), final(cell).value_spec()),
        old(cell).is_mounted() ==> *final(cell) == *old(cell),
        final(cell).rerender_requested == old(cell).rerender_requested,
{
    cell.slot.access(init);
}

} // verus!
