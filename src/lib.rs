//! Generational entity handles: an allocator that issues, validates and
//! recycles `(index, generation)` pairs so that a stale handle is never taken
//! for a live one.

pub mod entity;
pub mod generator;
pub mod laws;
