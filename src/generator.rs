//! The entity generator: a slot table plus a stack of reusable slot indices.
//!
//! Its behaviour is stated over `GeneratorView`, an abstract table and free
//! list, by one transition function per operation (`spawn_step`,
//! `despawn_step`) and one query (`alive`). Each executable method is proved to
//! perform exactly its transition.

use vstd::prelude::*;
use crate::entity::{Entity, EntityStatus, Slot};

verus! {

/// The abstract state of a generator: the slot table, indexed by entity index,
/// and the free list, a stack of reusable indices whose last element is reused
/// first.
pub struct GeneratorView {
    pub slots: Seq<Slot>,
    pub free: Seq<u32>,
}

/// Whether `e` denotes a live entity of `v`: its index is in the table, the
/// slot there is alive, and the slot's generation is the handle's.
pub open spec fn alive(v: GeneratorView, e: Entity) -> bool {
    &&& e.index < v.slots.len()
    &&& v.slots[e.index as int].status == EntityStatus::Alive
    &&& v.slots[e.index as int].generation == e.generation
}

/// Whether the slot at index `i` of `v` currently holds a live entity,
/// whatever its generation.
pub open spec fn slot_alive(v: GeneratorView, i: u32) -> bool {
    i < v.slots.len() && v.slots[i as int].status == EntityStatus::Alive
}

/// The well-formedness of a generator's state.
///
/// The table never outgrows the 32-bit index space; a dead slot always has
/// room left in its generation (a slot at the largest generation is retired as
/// a tombstone instead); the free list holds, each once, exactly the indices of
/// the dead slots.
pub open spec fn wf(v: GeneratorView) -> bool {
    &&& v.slots.len() <= u32::MAX
    &&& v.free.no_duplicates()
    &&& forall|k: int| 0 <= k < v.free.len() ==> {
        &&& #[trigger] v.free[k] < v.slots.len()
        &&& v.slots[v.free[k] as int].status == EntityStatus::Dead
    }
    &&& forall|i: int| 0 <= i < v.slots.len() && #[trigger] v.slots[i].status == EntityStatus::Dead
        ==> {
        &&& v.slots[i].generation != u32::MAX
        &&& v.free.contains(i as u32)
    }
}

/// Whether a spawn on `v` can be served: a free index is waiting, or the
/// table has room for one more slot.
pub open spec fn can_spawn(v: GeneratorView) -> bool {
    v.free.len() > 0 || v.slots.len() < u32::MAX
}

/// The empty generator: no slots, nothing to reuse.
pub open spec fn empty_view() -> GeneratorView {
    GeneratorView { slots: Seq::empty(), free: Seq::empty() }
}

/// What a spawn does: reuse the most recently freed index with its generation
/// raised by one, or else append a fresh slot at generation 0. Returns the new
/// state and the issued handle.
pub open spec fn spawn_step(v: GeneratorView) -> (GeneratorView, Entity) {
    if v.free.len() > 0 {
        let i = v.free.last();
        let g = (v.slots[i as int].generation + 1) as u32;
        (
            GeneratorView {
                slots: v.slots.update(i as int, Slot { generation: g, status: EntityStatus::Alive }),
                free: v.free.drop_last(),
            },
            Entity { index: i, generation: g },
        )
    } else {
        (
            GeneratorView {
                slots: v.slots.push(Slot { generation: 0, status: EntityStatus::Alive }),
                free: v.free,
            },
            Entity { index: v.slots.len() as u32, generation: 0 },
        )
    }
}

/// What a despawn does: nothing, answering `false`, unless the slot at the
/// handle's index is alive. Then the slot becomes a tombstone if its generation
/// is the largest, and otherwise dead with its index pushed on the free list;
/// the answer is `true`.
pub open spec fn despawn_step(v: GeneratorView, e: Entity) -> (GeneratorView, bool) {
    if slot_alive(v, e.index) {
        let s = v.slots[e.index as int];
        if s.generation == u32::MAX {
            (
                GeneratorView {
                    slots: v.slots.update(e.index as int, Slot { generation: s.generation, status: EntityStatus::Tombstone }),
                    free: v.free,
                },
                true,
            )
        } else {
            (
                GeneratorView {
                    slots: v.slots.update(e.index as int, Slot { generation: s.generation, status: EntityStatus::Dead }),
                    free: v.free.push(e.index),
                },
                true,
            )
        }
    } else {
        (v, false)
    }
}

/// Every spawn that can be served keeps a generator well formed.
pub proof fn lemma_spawn_preserves_wf(v: GeneratorView)
    requires
        wf(v),
        can_spawn(v),
    ensures
        wf(spawn_step(v).0),
{
    let w = spawn_step(v).0;
    if v.free.len() > 0 {
        let last = v.free.len() - 1;
        let i = v.free[last];
        assert forall|k: int| 0 <= k < w.free.len() implies #[trigger] w.free[k] != i by {
            assert(w.free[k] == v.free[k]);
        }
        assert forall|a: int, b: int| 0 <= a < w.free.len() && 0 <= b < w.free.len() && a != b
            implies w.free[a] != w.free[b] by {
            assert(w.free[a] == v.free[a] && w.free[b] == v.free[b]);
        }
        assert forall|k: int| 0 <= k < w.free.len() implies {
            &&& #[trigger] w.free[k] < w.slots.len()
            &&& w.slots[w.free[k] as int].status == EntityStatus::Dead
        } by {
            assert(w.free[k] == v.free[k]);
        }
        assert forall|j: int| 0 <= j < w.slots.len() && #[trigger] w.slots[j].status == EntityStatus::Dead
            implies {
            &&& w.slots[j].generation != u32::MAX
            &&& w.free.contains(j as u32)
        } by {
            assert(j != i);
            assert(v.slots[j].status == EntityStatus::Dead);
            let k = choose|k: int| 0 <= k < v.free.len() && v.free[k] == j as u32;
            assert(k != last);
            assert(w.free[k] == j as u32);
        }
    } else {
        assert forall|j: int| 0 <= j < w.slots.len() && #[trigger] w.slots[j].status == EntityStatus::Dead
            implies {
            &&& w.slots[j].generation != u32::MAX
            &&& w.free.contains(j as u32)
        } by {
            assert(j < v.slots.len());
            assert(v.slots[j] == w.slots[j]);
        }
    }
}

/// Every despawn keeps a generator well formed.
pub proof fn lemma_despawn_preserves_wf(v: GeneratorView, e: Entity)
    requires
        wf(v),
    ensures
        wf(despawn_step(v, e).0),
{
    let w = despawn_step(v, e).0;
    if slot_alive(v, e.index) && v.slots[e.index as int].generation != u32::MAX {
        let i = e.index;
        assert(!v.free.contains(i)) by {
            if v.free.contains(i) {
                let k = choose|k: int| 0 <= k < v.free.len() && v.free[k] == i;
                assert(v.slots[v.free[k] as int].status == EntityStatus::Dead);
            }
        }
        assert forall|a: int, b: int| 0 <= a < w.free.len() && 0 <= b < w.free.len() && a != b
            implies w.free[a] != w.free[b] by {
            if a < v.free.len() && b < v.free.len() {
                assert(w.free[a] == v.free[a] && w.free[b] == v.free[b]);
            } else if a < v.free.len() {
                assert(w.free[a] == v.free[a]);
            } else {
                assert(w.free[b] == v.free[b]);
            }
        }
        assert forall|k: int| 0 <= k < w.free.len() implies {
            &&& #[trigger] w.free[k] < w.slots.len()
            &&& w.slots[w.free[k] as int].status == EntityStatus::Dead
        } by {
            if k < v.free.len() {
                assert(w.free[k] == v.free[k]);
            }
        }
        assert forall|j: int| 0 <= j < w.slots.len() && #[trigger] w.slots[j].status == EntityStatus::Dead
            implies {
            &&& w.slots[j].generation != u32::MAX
            &&& w.free.contains(j as u32)
        } by {
            if j == i {
                assert(w.free[v.free.len() as int] == i);
            } else {
                assert(v.slots[j].status == EntityStatus::Dead);
                let k = choose|k: int| 0 <= k < v.free.len() && v.free[k] == j as u32;
                assert(w.free[k] == j as u32);
            }
        }
    } else if slot_alive(v, e.index) {
        assert forall|k: int| 0 <= k < w.free.len() implies {
            &&& #[trigger] w.free[k] < w.slots.len()
            &&& w.slots[w.free[k] as int].status == EntityStatus::Dead
        } by {
            assert(v.slots[v.free[k] as int].status == EntityStatus::Dead);
        }
    }
}

/// Issues, validates and recycles entity handles.
pub struct EntityGenerator {
    slots: Vec<Slot>,
    free: Vec<u32>,
}

impl View for EntityGenerator {
    type V = GeneratorView;

    closed spec fn view(&self) -> GeneratorView {
        GeneratorView { slots: self.slots@, free: self.free@ }
    }
}

impl EntityGenerator {
    /// A generator with no slots.
    pub fn new() -> (r: EntityGenerator)
        ensures
            r@ == empty_view(),
            wf(r@),
    {
        let r = EntityGenerator { slots: Vec::new(), free: Vec::new() };
        proof {
            assert(r@.slots =~= Seq::<Slot>::empty());
            assert(r@.free =~= Seq::<u32>::empty());
        }
        r
    }

    /// A generator over the given table. Its free list holds the indices of
    /// the table's dead slots, in increasing order, so the highest of them is
    /// reused first.
    pub fn from_slots(slots: Vec<Slot>) -> (r: EntityGenerator)
        requires
            slots@.len() <= u32::MAX,
            forall|i: int| 0 <= i < slots@.len() && #[trigger] slots@[i].status == EntityStatus::Dead
                ==> slots@[i].generation != u32::MAX,
        ensures
            r@.slots == slots@,
            wf(r@),
            forall|a: int, b: int| 0 <= a < b < r@.free.len() ==> r@.free[a] < r@.free[b],
    {
        let mut free: Vec<u32> = Vec::new();
        let mut i: usize = 0;
        while i < slots.len()
            invariant
                i <= slots@.len(),
                slots@.len() <= u32::MAX,
                forall|k: int| 0 <= k < free@.len() ==> {
                    &&& #[trigger] free@[k] < i
                    &&& slots@[free@[k] as int].status == EntityStatus::Dead
                },
                forall|a: int, b: int| 0 <= a < b < free@.len() ==> free@[a] < free@[b],
                forall|j: int| 0 <= j < i && #[trigger] slots@[j].status == EntityStatus::Dead
                    ==> free@.contains(j as u32),
            decreases slots@.len() - i,
        {
            if slots[i].status == EntityStatus::Dead {
                let ghost f0 = free@;
                free.push(i as u32);
                proof {
                    assert forall|j: int| 0 <= j < i && #[trigger] slots@[j].status == EntityStatus::Dead
                        implies free@.contains(j as u32) by {
                        let k = choose|k: int| 0 <= k < f0.len() && f0[k] == j as u32;
                        assert(free@[k] == j as u32);
                    }
                    assert(free@[f0.len() as int] == i as u32);
                }
            }
            i += 1;
        }
        let r = EntityGenerator { slots, free };
        proof {
            assert forall|a: int, b: int| 0 <= a < r@.free.len() && 0 <= b < r@.free.len() && a != b
                implies r@.free[a] != r@.free[b] by {
                if a < b {
                    assert(r@.free[a] < r@.free[b]);
                } else {
                    assert(r@.free[b] < r@.free[a]);
                }
            }
        }
        r
    }

    /// Whether `entity` denotes a live entity of this generator. A handle whose
    /// index was never allocated here, a stale handle and a retired slot all
    /// give `false`.
    pub fn is_alive(&self, entity: Entity) -> (r: bool)
        ensures
            r == alive(self@, entity),
            entity.index >= self@.slots.len() ==> !r,
    {
        if (entity.index as usize) < self.slots.len() {
            let s = self.slots[entity.index as usize];
            s.generation == entity.generation && s.status == EntityStatus::Alive
        } else {
            false
        }
    }
    /// Issues a handle to a new live entity: reuses the most recently freed
    /// index with its generation raised by one, or else appends a fresh slot at
    /// generation 0.
    ///
    /// The table may not already fill the 32-bit index space with no index to
    /// reuse: that exhaustion is fatal and the caller must rule it out.
    pub fn spawn(&mut self) -> (r: Entity)
        requires
            wf(old(self)@),
            can_spawn(old(self)@),
        ensures
            (final(self)@, r) == spawn_step(old(self)@),
            wf(final(self)@),
    {
        let ghost v0 = self@;
        proof {
            lemma_spawn_preserves_wf(v0);
        }
        match self.free.pop() {
            Some(i) => {
                assert(v0.free[v0.free.len() - 1] == i);
                let s = self.slots[i as usize];
                assert(s.generation != u32::MAX);
                let g = s.generation + 1;
                self.slots.set(i as usize, Slot { generation: g, status: EntityStatus::Alive });
                proof {
                    assert(self@.slots =~= spawn_step(v0).0.slots);
                    assert(self@.free =~= spawn_step(v0).0.free);
                }
                Entity { index: i, generation: g }
            },
            None => {
                let n = self.slots.len();
                self.slots.push(Slot { generation: 0, status: EntityStatus::Alive });
                proof {
                    assert(self@.slots =~= spawn_step(v0).0.slots);
                    assert(self@.free =~= spawn_step(v0).0.free);
                }
                Entity { index: n as u32, generation: 0 }
            },
        }
    }

    /// Retires the entity at `entity.index` if that slot is alive, and says
    /// whether it did. A slot at the largest generation becomes a tombstone and
    /// is never reused; any other becomes dead and its index is pushed on the
    /// free list. An index out of range or a slot that is not alive leaves the
    /// generator unchanged and gives `false`.
    pub fn despawn(&mut self, entity: Entity) -> (r: bool)
        requires
            wf(old(self)@),
        ensures
            (final(self)@, r) == despawn_step(old(self)@, entity),
            wf(final(self)@),
    {
        let ghost v0 = self@;
        proof {
            lemma_despawn_preserves_wf(v0, entity);
        }
        let idx = entity.index as usize;
        if idx >= self.slots.len() {
            return false;
        }
        let s = self.slots[idx];
        if s.status != EntityStatus::Alive {
            return false;
        }
        if s.generation == u32::MAX {
            self.slots.set(idx, Slot { generation: s.generation, status: EntityStatus::Tombstone });
        } else {
            self.slots.set(idx, Slot { generation: s.generation, status: EntityStatus::Dead });
            self.free.push(entity.index);
        }
        proof {
            assert(self@.slots =~= despawn_step(v0, entity).0.slots);
            assert(self@.free =~= despawn_step(v0, entity).0.free);
        }
        true
    }
    /// Like `spawn`, but answers `None` and leaves the generator unchanged
    /// where the 32-bit index space is exhausted and no index can be reused.
    pub fn try_spawn(&mut self) -> (r: Option<Entity>)
        requires
            wf(old(self)@),
        ensures
            wf(final(self)@),
            match r {
                Some(e) => can_spawn(old(self)@) && (final(self)@, e) == spawn_step(old(self)@),
                None => !can_spawn(old(self)@) && final(self)@ == old(self)@,
            },
    {
        if self.free.len() > 0 || self.slots.len() < u32::MAX as usize {
            Some(self.spawn())
        } else {
            None
        }
    }

    /// The slot at `index`, if the table reaches that far.
    pub fn slot(&self, index: u32) -> (r: Option<Slot>)
        ensures
            r == (if index < self@.slots.len() { Some(self@.slots[index as int]) } else { None::<Slot> }),
    {
        if (index as usize) < self.slots.len() {
            Some(self.slots[index as usize])
        } else {
            None
        }
    }

    /// The number of slots ever allocated, tombstones included.
    pub fn len(&self) -> (r: usize)
        ensures
            r == self@.slots.len(),
    {
        self.slots.len()
    }

    /// The number of indices waiting on the free list for reuse.
    pub fn free_len(&self) -> (r: usize)
        ensures
            r == self@.free.len(),
    {
        self.free.len()
    }
}

} // verus!
