//! Ownership of reference-counted foreign objects.
//!
//! The foreign world is represented by an [`ObjectTable`]: one entry per
//! object ever created, each holding the object's simulated reference count.
//! A [`ComPtr`] is an owning handle; every live handle stands for exactly one
//! unit of its target's count. Handles are constructed by adopting a freshly
//! created object (no increment: the factory's reference is taken over) or by
//! sharing an existing handle (the count is incremented). Releasing a handle
//! gives its unit back. The table also carries a ghost tally of live handles
//! per object; [`ObjectTable::wf`] states that the simulated count and that
//! tally always agree, and every operation here preserves it.

use vstd::prelude::*;
use vstd::pervasive::VecAdditionalExecFns;
use crate::util::succeeded;

verus! {

/// The simulated world of reference-counted foreign objects.
///
/// Entries are never removed, so object ids stay stable; an entry whose
/// count has reached zero is a destroyed object.
pub struct ObjectTable {
    counts: Vec<u64>,
    /// How many live `ComPtr` owners each object has. Every function that
    /// mints or consumes a handle adjusts this tally in ghost code.
    live: Ghost<Seq<nat>>,
}

impl ObjectTable {
    /// The simulated reference count of each object, by id.
    pub closed spec fn counts(self) -> Seq<u64> {
        self.counts@
    }

    /// The number of live handles of each object, by id.
    pub closed spec fn live(self) -> Seq<nat> {
        self.live@
    }

    /// The central invariant: every unit of a foreign object's reference
    /// count is held by exactly one live handle.
    pub open spec fn wf(self) -> bool {
        &&& self.live().len() == self.counts().len()
        &&& forall|i: int|
            0 <= i < self.counts().len() ==> self.live()[i] == self.counts()[i] as nat
    }

    /// An object is alive while some owner still holds a reference to it.
    pub open spec fn is_live(self, id: usize) -> bool {
        id < self.counts().len() && self.counts()[id as int] > 0
    }

    /// True when the object's count may still be incremented.
    pub open spec fn can_add_ref(self, id: usize) -> bool {
        self.is_live(id) && self.counts()[id as int] < u64::MAX
    }

    /// True when one more object can be created.
    pub open spec fn has_room(self, n: int) -> bool {
        self.counts().len() + n <= usize::MAX
    }

    pub fn new() -> (t: ObjectTable)
        ensures
            t.wf(),
            t.counts() == Seq::<u64>::empty(),
    {
        ObjectTable { counts: Vec::new(), live: Ghost(Seq::empty()) }
    }

    pub fn num_objects(&self) -> (n: usize)
        ensures
            n == self.counts().len(),
    {
        self.counts.len()
    }

    pub fn ref_count(&self, id: usize) -> (c: u64)
        requires
            id < self.counts().len(),
        ensures
            c == self.counts()[id as int],
    {
        self.counts[id]
    }
}

/// An owning handle to a reference-counted foreign object.
///
/// Each live `ComPtr` represents exactly one unit of reference-count
/// ownership of its target. A handle may be empty; dereferencing an empty
/// handle is forbidden by precondition, not caught at run time. Equality is
/// identity-based: two handles are equal when they own the same object.
///
/// There is deliberately no `Clone` impl and no way to duplicate a handle
/// without going through [`ComPtr::share`], which performs the increment.
#[derive(Debug)]
pub struct ComPtr {
    id: Option<usize>,
}

impl ComPtr {
    /// The id of the owned object, or `None` for an empty handle.
    pub closed spec fn opt_id(self) -> Option<usize> {
        self.id
    }

    /// An empty handle owns nothing.
    pub open spec fn is_empty(self) -> bool {
        self.opt_id() is None
    }

    /// True when the handle owns the object `id`.
    pub open spec fn points_to(self, id: usize) -> bool {
        self.opt_id() == Some(id)
    }

    /// The owned object's id.
    pub open spec fn target(self) -> usize
        recommends
            self.opt_id() is Some,
    {
        self.opt_id()->Some_0
    }

    /// An empty handle: the model of a zeroed slot.
    pub fn uninit() -> (p: ComPtr)
        ensures
            p.is_empty(),
    {
        ComPtr { id: None }
    }

    /// Adopts a freshly created foreign object.
    ///
    /// A factory call hands back an object that already carries one unit of
    /// ownership, so no increment is performed: the new table entry records
    /// that single reference, and the returned handle owns it.
    pub fn wrap_existing(table: &mut ObjectTable) -> (p: ComPtr)
        requires
            old(table).wf(),
            old(table).has_room(1),
        ensures
            final(table).wf(),
            final(table).counts() == old(table).counts().push(1u64),
            p.points_to(old(table).counts().len() as usize),
    {
        let id = table.counts.len();
        table.counts.push(1);
        proof {
            table.live@ = table.live@.push(1nat);
        }
        ComPtr { id: Some(id) }
    }

    /// Models handing an empty slot to a foreign factory that fills it
    /// through an out-parameter. The slot must be empty: a prior object's
    /// ownership would otherwise leak.
    pub fn fill_slot(&mut self, table: &mut ObjectTable)
        requires
            old(self).is_empty(),
            old(table).wf(),
            old(table).has_room(1),
        ensures
            final(table).wf(),
            final(table).counts() == old(table).counts().push(1u64),
            final(self).points_to(old(table).counts().len() as usize),
    {
        let id = table.counts.len();
        table.counts.push(1);
        proof {
            table.live@ = table.live@.push(1nat);
        }
        self.id = Some(id);
    }

    /// Clones ownership: the foreign count is incremented and a second,
    /// independent owner of the same object is returned.
    pub fn share(&self, table: &mut ObjectTable) -> (p: ComPtr)
        requires
            old(table).wf(),
            self.opt_id() is Some,
            old(table).can_add_ref(self.target()),
        ensures
            final(table).wf(),
            final(table).counts() == old(table).counts().update(
                self.target() as int,
                (old(table).counts()[self.target() as int] + 1) as u64,
            ),
            p.points_to(self.target()),
    {
        let id = self.ptr();
        let c = table.counts[id];
        table.counts.set(id, c + 1);
        proof {
            table.live@ = table.live@.update(id as int, (table.live@[id as int] + 1) as nat);
        }
        ComPtr { id: Some(id) }
    }

    /// Gives the handle's unit of ownership back: the foreign count is
    /// decremented. Releasing an empty handle is a no-op.
    pub fn release(self, table: &mut ObjectTable)
        requires
            old(table).wf(),
            self.opt_id() is Some ==> old(table).is_live(self.target()),
        ensures
            final(table).wf(),
            self.opt_id() is Some ==> final(table).counts() == old(table).counts().update(
                self.target() as int,
                (old(table).counts()[self.target() as int] - 1) as u64,
            ),
            self.opt_id() is None ==> final(table).counts() == old(table).counts(),
    {
        match self.id {
            None => {},
            Some(id) => {
                let c = table.counts[id];
                table.counts.set(id, c - 1);
                proof {
                    table.live@ = table.live@.update(
                        id as int,
                        (table.live@[id as int] - 1) as nat,
                    );
                }
            },
        }
    }

    /// The owned object's id: the model of dereferencing. Dereferencing an
    /// empty handle is forbidden here, by precondition rather than by a
    /// run-time check.
    pub fn ptr(&self) -> (id: usize)
        requires
            self.opt_id() is Some,
        ensures
            id == self.target(),
    {
        match self.id {
            Some(id) => id,
            None => {
                assert(false);
                0
            },
        }
    }

    pub fn is_null(&self) -> (b: bool)
        ensures
            b == self.is_empty(),
    {
        !self.id.is_some()
    }

    /// The explicit capability query: asks the object whether it supports
    /// another interface. On success the foreign side hands back one more
    /// reference to the same object, so its count grows by one; on failure
    /// nothing changes and the reported status is returned.
    pub fn query_interface(&self, table: &mut ObjectTable, hr: i32) -> (r: Result<ComPtr, i32>)
        requires
            old(table).wf(),
            self.opt_id() is Some,
            old(table).can_add_ref(self.target()),
        ensures
            final(table).wf(),
            succeeded(hr) ==> {
                &&& r is Ok
                &&& r->Ok_0.points_to(self.target())
                &&& final(table).counts() == old(table).counts().update(
                    self.target() as int,
                    (old(table).counts()[self.target() as int] + 1) as u64,
                )
            },
            !succeeded(hr) ==> r == Err::<ComPtr, i32>(hr) && final(table).counts() == old(
                table,
            ).counts(),
    {
        if succeeded(hr) {
            Ok(self.share(table))
        } else {
            Err(hr)
        }
    }
}

impl Default for ComPtr {
    /// The default handle is empty, like a zeroed slot.
    fn default() -> (r: ComPtr)
        ensures
            r.is_empty(),
    {
        ComPtr { id: None }
    }
}

impl PartialEq for ComPtr {
    /// Identity-based equality: the same underlying object, never a value
    /// comparison.
    fn eq(&self, other: &ComPtr) -> bool {
        match (self.id, other.id) {
            (Some(a), Some(b)) => a == b,
            (None, None) => true,
            _ => false,
        }
    }
}

impl vstd::std_specs::cmp::PartialEqSpecImpl for ComPtr {
    open spec fn obeys_eq_spec() -> bool {
        true
    }

    open spec fn eq_spec(&self, other: &ComPtr) -> bool {
        self.opt_id() == other.opt_id()
    }
}

/// One step of the handle discipline on a single object: `Share` mints a
/// new owner from an existing one, `Drop` releases an owner.
pub enum HandleOp {
    Share,
    Drop,
}

/// The state of one object under the discipline: its simulated foreign
/// reference count, and the number of live handles that own it.
pub struct RcState {
    pub count: nat,
    pub live: nat,
}

/// A step needs a live handle to share from or to drop.
pub open spec fn rc_op_allowed(s: RcState) -> bool {
    s.live > 0
}

/// `Share` increments the foreign count and mints one handle; `Drop`
/// decrements the count and forgets one handle.
pub open spec fn rc_step(s: RcState, op: HandleOp) -> RcState {
    match op {
        HandleOp::Share => RcState { count: s.count + 1, live: s.live + 1 },
        HandleOp::Drop => RcState { count: (s.count - 1) as nat, live: (s.live - 1) as nat },
    }
}

/// Every step of the sequence is taken while some handle is live.
pub open spec fn rc_ops_valid(s: RcState, ops: Seq<HandleOp>) -> bool
    decreases ops.len(),
{
    ops.len() == 0 || (rc_op_allowed(s) && rc_ops_valid(rc_step(s, ops[0]), ops.skip(1)))
}

/// The state after running the whole sequence.
pub open spec fn rc_run(s: RcState, ops: Seq<HandleOp>) -> RcState
    decreases ops.len(),
{
    if ops.len() == 0 {
        s
    } else {
        rc_run(rc_step(s, ops[0]), ops.skip(1))
    }
}

/// For any sequence of share and drop operations on an adopted object, the
/// simulated foreign reference count equals the number of live handles when
/// the sequence ends. [`lemma_refcount_matches_live_at`] extends this to
/// every point along the sequence.
pub proof fn lemma_refcount_matches_live(s: RcState, ops: Seq<HandleOp>)
    requires
        s.count == s.live,
        rc_ops_valid(s, ops),
    ensures
        rc_run(s, ops).count == rc_run(s, ops).live,
    decreases ops.len(),
{
    if ops.len() > 0 {
        lemma_refcount_matches_live(rc_step(s, ops[0]), ops.skip(1));
    }
}

proof fn lemma_rc_ops_valid_prefix(s: RcState, ops: Seq<HandleOp>, k: int)
    requires
        rc_ops_valid(s, ops),
        0 <= k <= ops.len(),
    ensures
        rc_ops_valid(s, ops.take(k)),
    decreases ops.len(),
{
    if k > 0 {
        lemma_rc_ops_valid_prefix(rc_step(s, ops[0]), ops.skip(1), k - 1);
        assert(ops.take(k).skip(1) =~= ops.skip(1).take(k - 1));
        assert(ops.take(k)[0] == ops[0]);
    }
}

/// At every point in a valid sequence of share and drop operations, the
/// simulated foreign reference count equals the number of live handles.
pub proof fn lemma_refcount_matches_live_at(s: RcState, ops: Seq<HandleOp>, k: int)
    requires
        s.count == s.live,
        rc_ops_valid(s, ops),
        0 <= k <= ops.len(),
    ensures
        rc_run(s, ops.take(k)).count == rc_run(s, ops.take(k)).live,
{
    lemma_rc_ops_valid_prefix(s, ops, k);
    lemma_refcount_matches_live(s, ops.take(k));
}

} // verus!
