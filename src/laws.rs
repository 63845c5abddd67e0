//! Laws of the generator, stated over its abstract transitions. Each exec
//! method performs exactly its transition, so what holds here holds of every
//! run of the methods.

use vstd::prelude::*;
use crate::entity::{Entity, EntityStatus};
use crate::generator::{
    GeneratorView, alive, can_spawn, despawn_step, lemma_despawn_preserves_wf,
    lemma_spawn_preserves_wf, slot_alive, spawn_step, wf,
};

verus! {

/// The state after `n` spawns from `v`, and the handles they issued, in order.
pub open spec fn spawns(v: GeneratorView, n: nat) -> (GeneratorView, Seq<Entity>)
    decreases n,
{
    if n == 0 {
        (v, Seq::empty())
    } else {
        let (w, es) = spawns(v, (n - 1) as nat);
        let (w2, e) = spawn_step(w);
        (w2, es.push(e))
    }
}

/// Spawning from a generator with nothing to reuse, and no despawn in
/// between, issues handles at generation 0 whose indices strictly increase:
/// the `i`-th of them takes index `len + i`.
pub proof fn lemma_fresh_spawns_increase(v: GeneratorView, n: nat)
    requires
        wf(v),
        v.free.len() == 0,
        v.slots.len() + n <= u32::MAX,
    ensures
        spawns(v, n).1.len() == n,
        spawns(v, n).0.free.len() == 0,
        spawns(v, n).0.slots.len() == v.slots.len() + n,
        forall|i: int| 0 <= i < n ==> (#[trigger] spawns(v, n).1[i]).generation == 0
            && spawns(v, n).1[i].index == v.slots.len() + i,
        forall|i: int, j: int| 0 <= i < j < n ==> spawns(v, n).1[i].index < spawns(v, n).1[j].index,
    decreases n,
{
    if n > 0 {
        lemma_fresh_spawns_increase(v, (n - 1) as nat);
        let (w, es) = spawns(v, (n - 1) as nat);
        let all = spawns(v, n).1;
        assert(all == es.push(spawn_step(w).1));
        assert forall|i: int| 0 <= i < n implies (#[trigger] all[i]).generation == 0
            && all[i].index == v.slots.len() + i by {
            if i < n - 1 {
                assert(all[i] == es[i]);
            }
        }
    }
}

/// A freshly spawned handle is alive.
pub proof fn lemma_spawned_is_alive(v: GeneratorView)
    requires
        wf(v),
        can_spawn(v),
    ensures
        alive(spawn_step(v).0, spawn_step(v).1),
{
}

/// After a despawn that answered `true`, the handle is no longer alive.
pub proof fn lemma_despawned_not_alive(v: GeneratorView, e: Entity)
    requires
        wf(v),
        despawn_step(v, e).1,
    ensures
        !alive(despawn_step(v, e).0, e),
{
}

/// Despawning the same handle twice: the second call answers `false` and
/// changes nothing, so the free list gains no second entry, and it never holds
/// an index twice.
pub proof fn lemma_double_despawn(v: GeneratorView, e: Entity)
    requires
        wf(v),
    ensures
        despawn_step(despawn_step(v, e).0, e) == (despawn_step(v, e).0, false),
        despawn_step(v, e).0.free.no_duplicates(),
{
    lemma_despawn_preserves_wf(v, e);
}

/// A handle issued by generator `a`, used against generator `b` whose slot at
/// that index holds no live entity, is not alive there, is refused by
/// `despawn`, and leaves `b`'s next spawn as it was.
pub proof fn lemma_foreign_handle(a: GeneratorView, b: GeneratorView)
    requires
        wf(a),
        can_spawn(a),
        wf(b),
        !slot_alive(b, spawn_step(a).1.index),
    ensures
        !alive(b, spawn_step(a).1),
        despawn_step(b, spawn_step(a).1) == (b, false),
        spawn_step(despawn_step(b, spawn_step(a).1).0) == spawn_step(b),
{
}

/// Spawn, despawn, spawn: the second handle takes the first one's index at
/// the next generation, unless the first was issued at the largest
/// generation.
pub proof fn lemma_generation_reuse(v: GeneratorView)
    requires
        wf(v),
        can_spawn(v),
        spawn_step(v).1.generation < u32::MAX,
    ensures
        despawn_step(spawn_step(v).0, spawn_step(v).1).1,
        spawn_step(despawn_step(spawn_step(v).0, spawn_step(v).1).0).1 == (Entity {
            index: spawn_step(v).1.index,
            generation: (spawn_step(v).1.generation + 1) as u32,
        }),
{
    lemma_spawn_preserves_wf(v);
    let w = despawn_step(spawn_step(v).0, spawn_step(v).1).0;
    assert(w.free.last() == spawn_step(v).1.index);
}

/// Despawning a live entity whose slot is at the largest generation retires
/// the slot as a tombstone: the handle is no longer alive and the next spawn
/// issues another index.
pub proof fn lemma_tombstone_on_despawn(v: GeneratorView, e: Entity)
    requires
        wf(v),
        alive(v, e),
        e.generation == u32::MAX,
    ensures
        despawn_step(v, e).1,
        despawn_step(v, e).0.slots[e.index as int].status == EntityStatus::Tombstone,
        !alive(despawn_step(v, e).0, e),
        can_spawn(despawn_step(v, e).0) ==> spawn_step(despawn_step(v, e).0).1.index != e.index,
{
    let w = despawn_step(v, e).0;
    if w.free.len() > 0 {
        let k = w.free.len() - 1;
        assert(w.slots[w.free[k] as int].status == EntityStatus::Dead);
    }
}

/// A tombstone stays one: no spawn issues its index and neither spawn nor
/// despawn changes it.
pub proof fn lemma_tombstone_stays(v: GeneratorView, i: u32, e: Entity)
    requires
        wf(v),
        i < v.slots.len(),
        v.slots[i as int].status == EntityStatus::Tombstone,
    ensures
        despawn_step(v, e).0.slots[i as int] == v.slots[i as int],
        can_spawn(v) ==> spawn_step(v).1.index != i,
        can_spawn(v) ==> spawn_step(v).0.slots[i as int] == v.slots[i as int],
{
    if v.free.len() > 0 {
        let k = v.free.len() - 1;
        assert(v.slots[v.free[k] as int].status == EntityStatus::Dead);
    }
}

} // verus!
