//! Memoized values: recomputed exactly when the dependency snapshot changes.
use crate::hooks::PersistedSlot;
use crate::hooks::SlotError;
use crate::hooks::SlotEvent;
use crate::hooks::SlotModel;
use crate::hooks::SlotPhase;
use crate::hooks::slot_step;
use vstd::prelude::*;
use vstd::std_specs::cmp::PartialEqSpec;

verus! {

/// A dependency snapshot: either a value compared structurally against the
/// previous render's snapshot, or nothing tracked at all, which counts as an
/// always-unequal snapshot and forces recomputation on every render.
pub struct Deps<D> {
    pub watched: Option<D>,
}

impl<D> Deps<D> {
    /// No dependencies tracked: recompute on every render.
    pub fn all() -> (r: Deps<D>)
        ensures
            r.watched is None,
    {
        Deps { watched: None }
    }

    /// A tracked snapshot, compared by value equality each render.
    pub fn of(watched: D) -> (r: Deps<D>)
        ensures
            r.watched == Some(watched),
    {
        Deps { watched: Some(watched) }
    }

    pub open spec fn is_all(self) -> bool {
        self.watched is None
    }
}

/// A memo cell: a persisted slot holding the memoized value together with
/// the dependency snapshot it was computed from.
pub struct Memo<T, D> {
    pub slot: PersistedSlot<(T, Deps<D>)>,
}

impl<T, D> Memo<T, D> {
    pub open spec fn wf(self) -> bool {
        self.slot.wf()
    }

    pub open spec fn is_initialized(self) -> bool {
        self.slot.is_initialized()
    }

    /// What the cell stores, if anything: the memoized value and the
    /// snapshot it belongs to.
    pub open spec fn stored_spec(self) -> Option<(T, Deps<D>)> {
        self.slot.value
    }

    pub open spec fn value_spec(self) -> T {
        self.slot.value_spec().0
    }

    pub open spec fn deps_spec(self) -> Deps<D> {
        self.slot.value_spec().1
    }

    pub open spec fn model(self) -> SlotModel {
        self.slot.hist@
    }

    /// The cell the host creates when it mounts the node: nothing computed
    /// yet.
    pub fn new() -> (r: Memo<T, D>)
        ensures
            r.wf(),
            r.slot.is_uninitialized(),
            r.model() == crate::hooks::slot_init(),
    {
        Memo { slot: PersistedSlot::new() }
    }

    /// A reference to the memoized value. When the component unmounts the
    /// value is dropped, and this access is ruled out from then on.
    pub fn value(&self) -> (r: &T)
        requires
            self.wf(),
            self.is_initialized(),
        ensures
            *r == self.value_spec(),
    {
        &self.slot.get().0
    }

    /// The teardown notification for the owning node: drops the memoized
    /// value exactly once; a repeated call is detected and changes nothing.
    pub fn unmount(&mut self) -> (r: Result<(), SlotError>)
        requires
            old(self).wf(),
        ensures
            final(self).wf(),
            final(self).slot.is_freed(),
            final(self).model() == slot_step(old(self).model(), SlotEvent::Unmount),
            r is Ok <==> !old(self).slot.is_freed(),
            old(self).slot.is_freed() ==> r == Err::<(), SlotError>(SlotError::DoubleFree),
    {
        match self.slot.unmount() {
            Ok(_dropped) => Ok(()),
            Err(e) => Err(e),
        }
    }
}

/// When the memo must recompute: the cell is still empty, the new snapshot
/// tracks nothing, the stored snapshot tracked nothing, or the two
/// snapshots compare unequal by the dependency type's equality.
pub open spec fn recompute_needed<T, D: PartialEq>(
    stored: Option<(T, Deps<D>)>,
    deps: Deps<D>,
) -> bool {
    match (deps.watched, stored) {
        (Option::None, _) => true,
        (_, Option::None) => true,
        (Option::Some(d), Option::Some(pair)) => match pair.1.watched {
            Option::None => true,
            Option::Some(od) => !od.eq_spec(&d),
        },
    }
}

/// The memo hook, run once per render call. It compares the new snapshot
/// against the stored one by value equality; exactly when they differ — or
/// nothing is tracked, or nothing is stored yet — it runs `compute` once
/// and stores the new pair, and otherwise it leaves the cell untouched.
pub fn use_memo<T, D: PartialEq, F: FnOnce() -> T>(
    memo: &mut Memo<T, D>,
    compute: F,
    deps: Deps<D>,
) -> (recomputed: bool)
    requires
        old(memo).wf(),
        !old(memo).slot.is_freed(),
        D::obeys_eq_spec(),
        recompute_needed(old(memo).stored_spec(), deps) ==> call_requires(compute, ()),
    ensures
        final(memo).wf(),
        final(memo).is_initialized(),
        final(memo).model() == slot_step(old(memo).model(), SlotEvent::Access),
        recomputed == recompute_needed(old(memo).stored_spec(), deps),
        recomputed ==> call_ensures(compute, (), final(memo).value_spec()),
        recomputed ==> final(memo).deps_spec() == deps,
        !recomputed ==> *final(memo) == *old(memo),
{
    let need = match (&deps.watched, &memo.slot.value) {
        (Option::None, _) => true,
        (_, Option::None) => true,
        (Option::Some(d), Option::Some(pair)) => match &pair.1.watched {
            Option::None => true,
            Option::Some(od) => !(*od == *d),
        },
    };
    if need {
        let value = compute();
        match memo.slot.phase {
            SlotPhase::Uninitialized => {
                memo.slot.init_with((value, deps));
            },
            _ => {
                let _prev = memo.slot.replace((value, deps));
            },
        }
    }
    need
}

/// The spec-level model of one memo cell across renders: a snapshot per
/// render, `None` standing for "nothing tracked", compared by mathematical
/// equality. `stored_snapshot_after` is the snapshot held after the given
/// renders; the cell starts empty.
pub open spec fn snapshot_recompute_needed<D>(stored: Option<Option<D>>, d: Option<D>) -> bool {
    match (d, stored) {
        (Option::None, _) => true,
        (_, Option::None) => true,
        (Option::Some(dv), Option::Some(sv)) => sv != Some(dv),
    }
}

pub open spec fn stored_snapshot_after<D>(ds: Seq<Option<D>>) -> Option<Option<D>>
    decreases ds.len(),
{
    if ds.len() == 0 {
        None
    } else {
        let prev = stored_snapshot_after(ds.drop_last());
        if snapshot_recompute_needed(prev, ds.last()) {
            Some(ds.last())
        } else {
            prev
        }
    }
}

/// Whether the compute thunk runs on render `i` of the given dependency
/// sequence.
pub open spec fn compute_runs_at<D>(ds: Seq<Option<D>>, i: int) -> bool {
    snapshot_recompute_needed(stored_snapshot_after(ds.take(i)), ds[i])
}

/// After `i` renders with tracked snapshots, the cell holds the most recent
/// one — whether or not the last render recomputed.
proof fn lemma_stored_is_previous_snapshot<D>(ds: Seq<Option<D>>, i: int)
    requires
        1 <= i <= ds.len(),
        forall|j: int| 0 <= j < ds.len() ==> ds[j] is Some,
    ensures
        stored_snapshot_after(ds.take(i)) == Some(ds[i - 1]),
    decreases i,
{
    let pre = ds.take(i);
    assert(pre.drop_last() =~= ds.take(i - 1));
    assert(pre.last() == ds[i - 1]);
    if i > 1 {
        lemma_stored_is_previous_snapshot(ds, i - 1);
    }
}

/// The recompute law: with tracked dependencies `d0, d1, ...`, the compute
/// thunk runs on render `i` exactly when `i` is the first render or `di`
/// differs from `d(i-1)`.
pub proof fn lemma_memo_recompute_law<D>(ds: Seq<Option<D>>, i: int)
    requires
        0 <= i < ds.len(),
        forall|j: int| 0 <= j < ds.len() ==> ds[j] is Some,
    ensures
        compute_runs_at(ds, i) <==> (i == 0 || ds[i] != ds[i - 1]),
{
    if i == 0 {
        assert(ds.take(0) =~= Seq::<Option<D>>::empty());
    } else {
        lemma_stored_is_previous_snapshot(ds, i);
    }
}

/// With nothing tracked, the compute thunk runs on every render.
pub proof fn lemma_memo_always_recomputes<D>(ds: Seq<Option<D>>, i: int)
    requires
        0 <= i < ds.len(),
        ds[i] is None,
    ensures
        compute_runs_at(ds, i),
{
}

/// What it takes for the executable comparison to agree with the model:
/// the dependency type's equality must be value equality. This is the
/// structural-equality obligation the memo contract places on dependency
/// types; an equality that compares identity instead breaks it and causes
/// stale-memo defects.
pub open spec fn eq_spec_is_value_eq<D: PartialEq>() -> bool {
    forall|a: D, b: D| #[trigger] a.eq_spec(&b) <==> a == b
}

/// The snapshot the model sees in a stored pair.
pub open spec fn snapshot_of<T, D: PartialEq>(stored: Option<(T, Deps<D>)>) -> Option<Option<D>> {
    match stored {
        Option::None => None,
        Option::Some(pair) => Some(pair.1.watched),
    }
}

/// For a dependency type whose equality is value equality, the decision
/// `use_memo` makes is exactly the model's: the executable hook obeys the
/// recompute law above, render by render.
pub proof fn lemma_memo_decision_matches_model<T, D: PartialEq>(
    stored: Option<(T, Deps<D>)>,
    deps: Deps<D>,
)
    requires
        eq_spec_is_value_eq::<D>(),
    ensures
        recompute_needed(stored, deps) == snapshot_recompute_needed(
            snapshot_of(stored),
            deps.watched,
        ),
{
}

} // verus!
