//! The entity handle and the slot record that backs it.

use vstd::prelude::*;

verus! {

/// An opaque handle to an entity: the slot it occupies and the version of
/// that slot at the time the handle was issued.
///
/// Two handles are equal exactly when both fields are equal. A handle only has
/// meaning relative to the generator that issued it.
#[derive(Copy, Clone, PartialEq, Eq, Debug, Hash, Structural)]
pub struct Entity {
    pub index: u32,
    pub generation: u32,
}

/// The state of one slot of a generator's table.
#[derive(Copy, Clone, PartialEq, Eq, Debug, Structural)]
pub enum EntityStatus {
    /// The slot holds a live entity.
    Alive,
    /// The slot is free and may be reused by the next spawn.
    Dead,
    /// The slot's generation space is exhausted: it is retired for good.
    Tombstone,
}

/// One entry of a generator's table: the slot's current generation and status.
#[derive(Copy, Clone, PartialEq, Eq, Debug, Structural)]
pub struct Slot {
    pub generation: u32,
    pub status: EntityStatus,
}

impl Entity {
    /// Builds the handle for slot `index` at version `generation`.
    pub fn new(index: u32, generation: u32) -> (r: Entity)
        ensures
            r.index == index,
            r.generation == generation,
    {
        Entity { index, generation }
    }
}

} // verus!
