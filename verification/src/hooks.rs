//! The cross-render storage primitive and the hooks built on it.
//!
//! A render call is a plain computation with no persistent stack state, so
//! everything a component keeps across renders lives in a persisted slot the
//! host addresses by handle. The slot's lifecycle is a three-phase state
//! machine; its laws are stated over an explicit event model and proved once,
//! then each executable operation's contract says which model step it takes.
use vstd::prelude::*;

verus! {

/// The phase of a persisted slot: created empty at mount, filled by the
/// create thunk on first access, emptied for good at unmount.
#[derive(Clone, Copy, PartialEq, Eq, Structural, Debug)]
pub enum SlotPhase {
    Uninitialized,
    Initialized,
    Freed,
}

/// The defects a slot can detect when the host breaks its side of the
/// lifecycle contract. None of these is a recoverable runtime condition;
/// they are reported so the caller can fail loudly instead of corrupting
/// memory.
#[derive(Clone, Copy, PartialEq, Eq, Structural, Debug)]
pub enum SlotError {
    /// An operation that needs a live value ran before the first access.
    NotInitialized,
    /// A stale callback touched the slot after the node was torn down.
    UseAfterFree,
    /// A second teardown notification arrived for an already-freed slot.
    DoubleFree,
}

/// The part of a slot's history its laws speak about: the phase, how often
/// the create thunk has run, and how often the owned value has been freed.
pub struct SlotModel {
    pub phase: SlotPhase,
    pub creates: nat,
    pub frees: nat,
}

/// The lifecycle steps the host can drive a slot through: an access during
/// some render call, or a teardown notification.
#[derive(Clone, Copy, PartialEq, Eq, Structural, Debug)]
pub enum SlotEvent {
    Access,
    Unmount,
}

/// A slot as the host first sees it: empty, never created, never freed.
pub open spec fn slot_init() -> SlotModel {
    SlotModel { phase: SlotPhase::Uninitialized, creates: 0, frees: 0 }
}

/// One lifecycle step. The first access runs the create thunk; later
/// accesses read what is there. The first teardown frees the value if one
/// was ever created; on an already-freed slot both events are detected
/// defects and change nothing.
pub open spec fn slot_step(m: SlotModel, e: SlotEvent) -> SlotModel {
    match e {
        SlotEvent::Access => match m.phase {
            SlotPhase::Uninitialized => SlotModel {
                phase: SlotPhase::Initialized,
                creates: m.creates + 1,
                frees: m.frees,
            },
            SlotPhase::Initialized => m,
            SlotPhase::Freed => m,
        },
        SlotEvent::Unmount => match m.phase {
            SlotPhase::Uninitialized => SlotModel {
                phase: SlotPhase::Freed,
                creates: m.creates,
                frees: m.frees,
            },
            SlotPhase::Initialized => SlotModel {
                phase: SlotPhase::Freed,
                creates: m.creates,
                frees: m.frees + 1,
            },
            SlotPhase::Freed => m,
        },
    }
}

/// The model state after the host has driven a fresh slot through `events`.
pub open spec fn slot_run(events: Seq<SlotEvent>) -> SlotModel
    decreases events.len(),
{
    if events.len() == 0 {
        slot_init()
    } else {
        slot_step(slot_run(events.drop_last()), events.last())
    }
}

/// Whatever the host does, the create thunk runs at most once, the value is
/// freed at most once, and the counters agree with the phase.
pub proof fn lemma_slot_lifecycle_invariant(events: Seq<SlotEvent>)
    ensures
        slot_run(events).creates <= 1,
        slot_run(events).frees <= 1,
        slot_run(events).frees <= slot_run(events).creates,
        slot_run(events).phase is Uninitialized ==> slot_run(events).creates == 0,
        slot_run(events).phase is Initialized ==> slot_run(events).creates == 1,
        slot_run(events).phase !is Freed ==> slot_run(events).frees == 0,
    decreases events.len(),
{
    if events.len() > 0 {
        lemma_slot_lifecycle_invariant(events.drop_last());
    }
}

/// However many times a mounted node re-renders before it is torn down, the
/// create thunk for its slot runs exactly once, on the first access.
pub proof fn lemma_single_create_per_mount(events: Seq<SlotEvent>)
    requires
        events.len() > 0,
        forall|i: int| 0 <= i < events.len() ==> events[i] is Access,
    ensures
        slot_run(events).creates == 1,
        slot_run(events).phase is Initialized,
    decreases events.len(),
{
    assert(events[events.len() - 1] is Access);
    if events.len() > 1 {
        assert(events.drop_last().len() > 0);
        assert(forall|i: int|
            0 <= i < events.drop_last().len() ==> events.drop_last()[i] is Access);
        lemma_single_create_per_mount(events.drop_last());
    } else {
        assert(events.drop_last().len() == 0);
        assert(slot_run(events.drop_last()) == slot_init());
    }
}

/// The value is freed exactly once, by the teardown that follows the last
/// render call the host ever issues for the node.
pub proof fn lemma_single_free_per_unmount(renders: Seq<SlotEvent>)
    requires
        renders.len() > 0,
        forall|i: int| 0 <= i < renders.len() ==> renders[i] is Access,
    ensures
        slot_run(renders.push(SlotEvent::Unmount)).frees == 1,
        slot_run(renders.push(SlotEvent::Unmount)).phase is Freed,
{
    lemma_single_create_per_mount(renders);
    lemma_slot_lifecycle_invariant(renders);
    let full = renders.push(SlotEvent::Unmount);
    assert(full.drop_last() =~= renders);
    assert(full.last() == SlotEvent::Unmount);
}

/// A repeated teardown notification is detected and does nothing: a second
/// unmount can never double-free.
pub proof fn lemma_idempotent_teardown(events: Seq<SlotEvent>)
    ensures
        slot_run(events.push(SlotEvent::Unmount).push(SlotEvent::Unmount)) == slot_run(
            events.push(SlotEvent::Unmount),
        ),
{
    let once = events.push(SlotEvent::Unmount);
    let twice = once.push(SlotEvent::Unmount);
    assert(once.drop_last() =~= events);
    assert(twice.drop_last() =~= once);
    assert(slot_run(once).phase is Freed);
}

/// Per-component-instance storage for one value of type `T`, owned by one
/// node of the host's tree and addressed across renders through the node's
/// opaque handle. Reads and writes are mediated: every operation's contract
/// names the phase it needs, so use before creation and use after free are
/// ruled out for verified callers and detected for the rest.
pub struct PersistedSlot<T> {
    pub phase: SlotPhase,
    pub value: Option<T>,
    pub hist: Ghost<SlotModel>,
}

impl<T> PersistedSlot<T> {
    /// The value is present exactly in the initialized phase, and the
    /// recorded history agrees with the stored phase.
    pub open spec fn wf(self) -> bool {
        &&& (self.phase is Initialized <==> self.value is Some)
        &&& self.hist@.phase == self.phase
    }

    pub open spec fn is_uninitialized(self) -> bool {
        self.phase is Uninitialized
    }

    pub open spec fn is_initialized(self) -> bool {
        self.phase is Initialized
    }

    pub open spec fn is_freed(self) -> bool {
        self.phase is Freed
    }

    /// The owned value, meaningful only in the initialized phase.
    pub open spec fn value_spec(self) -> T {
        self.value->0
    }

    /// The slot the host creates at mount: empty, with an empty history.
    pub fn new() -> (r: PersistedSlot<T>)
        ensures
            r.wf(),
            r.is_uninitialized(),
            r.hist@ == slot_init(),
    {
        PersistedSlot { phase: SlotPhase::Uninitialized, value: None, hist: Ghost(slot_init()) }
    }

    /// One access during a render call: on the first the create thunk runs
    /// and its result is stored; afterwards the slot is left exactly as it
    /// was. Accessing a freed slot is a defect the contract rules out.
    pub fn access<F: FnOnce() -> T>(&mut self, create: F)
        requires
            old(self).wf(),
            !old(self).is_freed(),
            old(self).is_uninitialized() ==> call_requires(create, ()),
        ensures
            final(self).wf(),
            final(self).is_initialized(),
            final(self).hist@ == slot_step(old(self).hist@, SlotEvent::Access),
            old(self).is_uninitialized() ==> call_ensures(create, (), final(self).value_spec()),
            old(self).is_initialized() ==> *final(self) == *old(self),
    {
        match self.phase {
            SlotPhase::Uninitialized => {
                self.value = Some(create());
                self.phase = SlotPhase::Initialized;
                self.hist = Ghost(slot_step(self.hist@, SlotEvent::Access));
            },
            _ => {},
        }
    }

    /// The first access with a value computed by the caller instead of a
    /// thunk; the same model step as `access` on an empty slot.
    pub fn init_with(&mut self, value: T)
        requires
            old(self).wf(),
            old(self).is_uninitialized(),
        ensures
            final(self).wf(),
            final(self).is_initialized(),
            final(self).value_spec() == value,
            final(self).hist@ == slot_step(old(self).hist@, SlotEvent::Access),
    {
        self.value = Some(value);
        self.phase = SlotPhase::Initialized;
        self.hist = Ghost(slot_step(self.hist@, SlotEvent::Access));
    }

    /// Mediated read access to the owned value.
    pub fn get(&self) -> (r: &T)
        requires
            self.wf(),
            self.is_initialized(),
        ensures
            *r == self.value_spec(),
    {
        self.value.as_ref().unwrap()
    }

    /// Replaces the owned value, handing the previous one back.
    pub fn replace(&mut self, value: T) -> (prev: T)
        requires
            old(self).wf(),
            old(self).is_initialized(),
        ensures
            final(self).wf(),
            final(self).is_initialized(),
            final(self).value_spec() == value,
            prev == old(self).value_spec(),
            final(self).hist == old(self).hist,
    {
        let prev = self.value.take();
        self.value = Some(value);
        prev.unwrap()
    }

    /// Runs the given transformation on the owned value in place.
    pub fn update_with<F: FnOnce(T) -> T>(&mut self, f: F)
        requires
            old(self).wf(),
            old(self).is_initialized(),
            call_requires(f, (old(self).value_spec(),)),
        ensures
            final(self).wf(),
            final(self).is_initialized(),
            call_ensures(f, (old(self).value_spec(),), final(self).value_spec()),
            final(self).hist == old(self).hist,
    {
        let v = self.value.take();
        self.value = Some(f(v.unwrap()));
    }

    /// The teardown notification. The first call frees the slot and hands
    /// the owned value, if one was ever created, back to the caller to
    /// drop; a second call is detected as a double free and changes
    /// nothing. After this, the slot is dead for good.
    pub fn unmount(&mut self) -> (r: Result<Option<T>, SlotError>)
        requires
            old(self).wf(),
        ensures
            final(self).wf(),
            final(self).is_freed(),
            final(self).hist@ == slot_step(old(self).hist@, SlotEvent::Unmount),
            r is Ok <==> !old(self).is_freed(),
            old(self).is_initialized() ==> r == Ok::<Option<T>, SlotError>(
                Some(old(self).value_spec()),
            ),
            old(self).is_uninitialized() ==> r == Ok::<Option<T>, SlotError>(None),
            old(self).is_freed() ==> r == Err::<Option<T>, SlotError>(SlotError::DoubleFree)
                && *final(self) == *old(self),
    {
        match self.phase {
            SlotPhase::Uninitialized => {
                self.phase = SlotPhase::Freed;
                self.hist = Ghost(slot_step(self.hist@, SlotEvent::Unmount));
                Ok(None)
            },
            SlotPhase::Initialized => {
                let v = self.value.take();
                self.phase = SlotPhase::Freed;
                self.hist = Ghost(slot_step(self.hist@, SlotEvent::Unmount));
                Ok(v)
            },
            SlotPhase::Freed => Err(SlotError::DoubleFree),
        }
    }
}

} // verus!

pub mod use_memo;
pub mod use_state;
