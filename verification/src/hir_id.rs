//! HIR identifiers: a definition index plus a node index within it.
use vstd::prelude::*;

use crate::idx::Idx;

verus! {

/// Index of a definition within a package's definition table.
#[derive(Clone, Copy, Debug, PartialEq, Eq, Structural, Ord, Hash)]
pub struct LocalDefId(pub u32);

impl LocalDefId {
    /// The reserved invalid id.
    pub fn invalid() -> (r: Self)
        ensures
            r.0 == u32::MAX,
    {
        LocalDefId(0xFFFF_FFFF)
    }

    pub fn new(raw: u32) -> (r: Self)
        ensures
            r.0 == raw,
    {
        LocalDefId(raw)
    }

    pub fn index(self) -> (r: usize)
        ensures
            r == self.0,
    {
        self.0 as usize
    }

    pub fn raw(self) -> (r: u32)
        ensures
            r == self.0,
    {
        self.0
    }

    /// Whether this is not the reserved invalid id.
    pub fn is_valid(self) -> (r: bool)
        ensures
            r == (self.0 != u32::MAX),
    {
        self.0 != 0xFFFF_FFFFu32
    }
}

impl Idx for LocalDefId {
    open spec fn spec_index(self) -> nat {
        self.0 as nat
    }

    fn new(raw: u32) -> (r: Self) {
        LocalDefId(raw)
    }

    fn index(self) -> (r: usize) {
        self.0 as usize
    }
}

/// A definition that owns HIR nodes.
#[derive(Clone, Copy, Debug, PartialEq, Eq, Structural, Ord, Hash)]
pub struct OwnerId {
    pub def_id: LocalDefId,
}

impl OwnerId {
    /// The reserved invalid owner.
    pub fn invalid() -> (r: Self)
        ensures
            r.def_id.0 == u32::MAX,
    {
        OwnerId { def_id: LocalDefId(0xFFFF_FFFF) }
    }

    pub fn new(def_id: LocalDefId) -> (r: Self)
        ensures
            r.def_id == def_id,
    {
        OwnerId { def_id }
    }

    pub fn is_valid(self) -> (r: bool)
        ensures
            r == (self.def_id.0 != u32::MAX),
    {
        self.def_id.is_valid()
    }
}

impl From<LocalDefId> for OwnerId {
    fn from(def_id: LocalDefId) -> (r: Self) {
        OwnerId { def_id }
    }
}

impl vstd::std_specs::convert::FromSpecImpl<LocalDefId> for OwnerId {
    open spec fn obeys_from_spec() -> bool {
        true
    }

    open spec fn from_spec(def_id: LocalDefId) -> Self {
        OwnerId { def_id }
    }
}

/// Index of a HIR node within its owner; 0 names the owner itself.
#[derive(Clone, Copy, Debug, PartialEq, Eq, Structural, Ord, Hash)]
pub struct ItemLocalId(pub u32);

impl ItemLocalId {
    /// The owner node itself.
    pub fn zero() -> (r: Self)
        ensures
            r.0 == 0,
    {
        ItemLocalId(0)
    }

    /// The reserved invalid local id.
    pub fn invalid() -> (r: Self)
        ensures
            r.0 == u32::MAX,
    {
        ItemLocalId(0xFFFF_FFFF)
    }

    pub fn new(raw: u32) -> (r: Self)
        ensures
            r.0 == raw,
    {
        ItemLocalId(raw)
    }

    pub fn index(self) -> (r: usize)
        ensures
            r == self.0,
    {
        self.0 as usize
    }

    pub fn raw(self) -> (r: u32)
        ensures
            r == self.0,
    {
        self.0
    }

    pub fn is_valid(self) -> (r: bool)
        ensures
            r == (self.0 != u32::MAX),
    {
        self.0 != 0xFFFF_FFFFu32
    }
}

impl Idx for ItemLocalId {
    open spec fn spec_index(self) -> nat {
        self.0 as nat
    }

    fn new(raw: u32) -> (r: Self) {
        ItemLocalId(raw)
    }

    fn index(self) -> (r: usize) {
        self.0 as usize
    }
}

/// A package-wide HIR node id: an owner and a node within it.
#[derive(Clone, Copy, Debug, PartialEq, Eq, Structural)]
pub struct HirId {
    pub owner: OwnerId,
    pub local_id: ItemLocalId,
}

impl HirId {
    /// The reserved invalid id.
    pub fn invalid() -> (r: Self)
        ensures
            r.owner.def_id.0 == u32::MAX && r.local_id.0 == u32::MAX,
    {
        HirId { owner: OwnerId { def_id: LocalDefId(0xFFFF_FFFF) }, local_id: ItemLocalId(0xFFFF_FFFF) }
    }

    pub fn new(owner: OwnerId, local_id: ItemLocalId) -> (r: Self)
        ensures
            r.owner == owner && r.local_id == local_id,
    {
        HirId { owner, local_id }
    }

    /// The id of the owner node itself.
    pub fn make_owner(owner: OwnerId) -> (r: Self)
        ensures
            r.owner == owner && r.local_id.0 == 0,
    {
        HirId { owner, local_id: ItemLocalId(0) }
    }

    /// Whether the owner is valid.
    pub fn is_valid(self) -> (r: bool)
        ensures
            r == (self.owner.def_id.0 != u32::MAX),
    {
        self.owner.is_valid()
    }
}

/// Identifies a body by the HIR node that owns it.
#[derive(Clone, Copy, Debug, PartialEq, Eq, Structural)]
pub struct BodyId {
    pub hir_id: HirId,
}

impl BodyId {
    pub fn new(hir_id: HirId) -> (r: Self)
        ensures
            r.hir_id == hir_id,
    {
        BodyId { hir_id }
    }
}

/// Hands out fresh node ids within one owner.
pub struct HirIdAllocator {
    owner: OwnerId,
    next_local: u32,
}

/// An allocator for the nodes of `owner`; local id 0 is the owner itself,
/// so handing out starts at 1.
pub fn hir_id_allocator(owner: OwnerId) -> (a: HirIdAllocator)
    ensures
        a.owner_spec() == owner,
        a.next_spec() == 1,
{
    HirIdAllocator { owner, next_local: 1 }
}

impl HirIdAllocator {
    pub closed spec fn owner_spec(&self) -> OwnerId {
        self.owner
    }

    /// The local id that the next call of `next_id` hands out.
    pub closed spec fn next_spec(&self) -> u32 {
        self.next_local
    }

    pub fn owner(&self) -> (r: OwnerId)
        ensures
            r == self.owner_spec(),
    {
        self.owner
    }

    /// A fresh id in this owner.
    pub fn next_id(&mut self) -> (r: HirId)
        requires
            old(self).next_spec() < u32::MAX,
        ensures
            r.owner == old(self).owner_spec(),
            r.local_id.0 == old(self).next_spec(),
            final(self).owner_spec() == old(self).owner_spec(),
            final(self).next_spec() == old(self).next_spec() + 1,
    {
        let local = ItemLocalId::new(self.next_local);
        self.next_local = self.next_local + 1;
        HirId::new(self.owner, local)
    }

    /// The id of the owner node.
    pub fn owner_hir_id(&self) -> (r: HirId)
        ensures
            r.owner == self.owner_spec(),
            r.local_id.0 == 0,
    {
        HirId::make_owner(self.owner)
    }
}

/// Every id an allocator hands out differs from every id it handed out
/// before, and none of them is the owner's own id 0.
pub proof fn lemma_allocator_fresh(a0: HirIdAllocator, a1: HirIdAllocator, a2: HirIdAllocator, x: HirId, y: HirId)
    requires
        a0.next_spec() >= 1,
        x.owner == a0.owner_spec() && x.local_id.0 == a0.next_spec(),
        a1.owner_spec() == a0.owner_spec() && a1.next_spec() == a0.next_spec() + 1,
        a2.next_spec() >= a1.next_spec(),
        y.owner == a2.owner_spec() && y.local_id.0 == a2.next_spec(),
    ensures
        x != y,
        x.local_id.0 != 0 && y.local_id.0 != 0,
{
}

/// One call of `next_id`: from allocator `a` it hands out `x` and leaves `b`.
pub open spec fn next_id_step(a: HirIdAllocator, x: HirId, b: HirIdAllocator) -> bool {
    &&& x.owner == a.owner_spec()
    &&& x.local_id.0 == a.next_spec()
    &&& b.owner_spec() == a.owner_spec()
    &&& b.next_spec() == a.next_spec() + 1
}

proof fn lemma_allocator_states(o: OwnerId, states: Seq<HirIdAllocator>, ids: Seq<HirId>, k: int)
    requires
        states.len() == ids.len() + 1,
        states[0].owner_spec() == o && states[0].next_spec() == 1,
        forall|i: int| 0 <= i < ids.len() ==> next_id_step(states[i], #[trigger] ids[i], states[i + 1]),
        0 <= k < states.len(),
    ensures
        states[k].owner_spec() == o,
        states[k].next_spec() == k + 1,
    decreases k,
{
    if k > 0 {
        lemma_allocator_states(o, states, ids, k - 1);
        assert(next_id_step(states[k - 1], ids[k - 1], states[k]));
    }
}

/// From a fresh allocator for `o`, successive calls of `next_id` hand out
/// the local ids 1, 2, 3, ... of `o` in turn: the ids are pairwise
/// distinct, and none is the owner's own id (local id 0).  The allocator
/// keeps its owner throughout, so `owner` and `owner_hir_id` do not change.
pub proof fn lemma_allocator_sequence(o: OwnerId, states: Seq<HirIdAllocator>, ids: Seq<HirId>)
    requires
        states.len() == ids.len() + 1,
        states[0].owner_spec() == o && states[0].next_spec() == 1,
        forall|i: int| 0 <= i < ids.len() ==> next_id_step(states[i], #[trigger] ids[i], states[i + 1]),
    ensures
        forall|k: int| 0 <= k < ids.len() ==> #[trigger] ids[k] == (HirId { owner: o, local_id: ItemLocalId((k + 1) as u32) }),
        forall|i: int, j: int| 0 <= i < j < ids.len() ==> #[trigger] ids[i] != #[trigger] ids[j],
        forall|k: int| 0 <= k < ids.len() ==> #[trigger] ids[k] != (HirId { owner: o, local_id: ItemLocalId(0) }),
        forall|k: int| 0 <= k < states.len() ==> (#[trigger] states[k]).owner_spec() == o && states[k].next_spec() == k + 1,
{
    assert forall|k: int| 0 <= k < states.len() implies (#[trigger] states[k]).owner_spec() == o && states[k].next_spec() == k + 1 by {
        lemma_allocator_states(o, states, ids, k);
    }
    assert forall|k: int| 0 <= k < ids.len() implies #[trigger] ids[k] == (HirId { owner: o, local_id: ItemLocalId((k + 1) as u32) }) by {
        lemma_allocator_states(o, states, ids, k);
        assert(next_id_step(states[k], ids[k], states[k + 1]));
    }
    assert forall|i: int, j: int| 0 <= i < j < ids.len() implies #[trigger] ids[i] != #[trigger] ids[j] by {
        lemma_allocator_states(o, states, ids, i);
        lemma_allocator_states(o, states, ids, j);
        assert(next_id_step(states[i], ids[i], states[i + 1]));
        assert(next_id_step(states[j], ids[j], states[j + 1]));
    }
    assert forall|k: int| 0 <= k < ids.len() implies #[trigger] ids[k] != (HirId { owner: o, local_id: ItemLocalId(0) }) by {
        lemma_allocator_states(o, states, ids, k);
        assert(next_id_step(states[k], ids[k], states[k + 1]));
    }
}

} // verus!
