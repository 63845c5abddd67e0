use safecs::entity::{Entity, EntityStatus, Slot};
use safecs::generator::EntityGenerator;

#[test]
fn fresh_spawns_have_increasing_indices_at_generation_zero() {
    let mut g = EntityGenerator::new();
    let mut previous: Option<Entity> = None;
    for i in 0..100u32 {
        let e = g.spawn();
        assert_eq!(e, Entity::new(i, 0));
        if let Some(p) = previous {
            assert!(p.index < e.index);
        }
        previous = Some(e);
    }
    assert_eq!(g.len(), 100);
    assert_eq!(g.free_len(), 0);
}

#[test]
fn spawned_entity_is_alive() {
    let mut g = EntityGenerator::new();
    for _ in 0..5 {
        let e = g.spawn();
        assert!(g.is_alive(e));
    }
    let e = g.spawn();
    assert!(g.despawn(e));
    let reused = g.spawn();
    assert!(g.is_alive(reused));
}

#[test]
fn despawned_entity_is_not_alive() {
    let mut g = EntityGenerator::new();
    let a = g.spawn();
    let b = g.spawn();
    assert!(g.despawn(a));
    assert!(!g.is_alive(a));
    assert!(g.is_alive(b));
}

#[test]
fn double_despawn_leaves_free_list_unchanged() {
    let mut g = EntityGenerator::new();
    let a = g.spawn();
    let b = g.spawn();
    assert!(g.despawn(b));
    assert!(g.despawn(a));
    assert_eq!(g.free_len(), 2);
    assert!(!g.despawn(a));
    assert!(!g.despawn(b));
    assert_eq!(g.free_len(), 2);
    // Last freed, first reused.
    assert_eq!(g.spawn(), Entity::new(0, 1));
    assert_eq!(g.spawn(), Entity::new(1, 1));
    assert_eq!(g.free_len(), 0);
}

#[test]
fn foreign_handle_leaves_other_generator_alone() {
    let mut a = EntityGenerator::new();
    let mut b = EntityGenerator::new();
    a.spawn();
    a.spawn();
    let foreign = a.spawn();
    assert_eq!(foreign, Entity::new(2, 0));
    b.spawn();
    assert!(!b.is_alive(foreign));
    assert!(!b.despawn(foreign));
    assert_eq!(b.free_len(), 0);
    assert_eq!(b.spawn(), Entity::new(1, 0));
}

#[test]
fn stale_handle_after_reuse_is_not_alive() {
    let mut g = EntityGenerator::new();
    let old = g.spawn();
    assert!(g.despawn(old));
    let new = g.spawn();
    assert_eq!(new, Entity::new(0, 1));
    assert_ne!(old, new);
    assert!(!g.is_alive(old));
    assert!(g.is_alive(new));
}

#[test]
fn despawn_looks_at_slot_status_only() {
    let mut g = EntityGenerator::new();
    let old = g.spawn();
    assert!(g.despawn(old));
    let new = g.spawn();
    assert!(g.despawn(old));
    assert!(!g.is_alive(new));
    assert_eq!(g.slot(0), Some(Slot { generation: 1, status: EntityStatus::Dead }));
}

#[test]
fn tombstone_is_never_reused() {
    let mut g = EntityGenerator::from_slots(vec![
        Slot { generation: 3, status: EntityStatus::Alive },
        Slot { generation: u32::MAX, status: EntityStatus::Alive },
    ]);
    let doomed = Entity::new(1, u32::MAX);
    assert!(g.despawn(doomed));
    assert!(!g.is_alive(doomed));
    assert_eq!(g.free_len(), 0);
    assert!(!g.despawn(doomed));
    for i in 2..10u32 {
        let e = g.spawn();
        assert_eq!(e, Entity::new(i, 0));
    }
    assert_eq!(
        g.slot(1),
        Some(Slot { generation: u32::MAX, status: EntityStatus::Tombstone })
    );
}

#[test]
fn slot_just_below_largest_generation_is_reused_once_more() {
    let mut g = EntityGenerator::from_slots(vec![Slot {
        generation: u32::MAX - 1,
        status: EntityStatus::Alive,
    }]);
    assert!(g.despawn(Entity::new(0, u32::MAX - 1)));
    let e = g.spawn();
    assert_eq!(e, Entity::new(0, u32::MAX));
    assert!(g.despawn(e));
    assert_eq!(g.slot(0), Some(Slot { generation: u32::MAX, status: EntityStatus::Tombstone }));
    assert_eq!(g.spawn(), Entity::new(1, 0));
}

#[test]
fn out_of_range_query_is_not_alive() {
    let mut g = EntityGenerator::new();
    assert!(!g.is_alive(Entity::new(0, 0)));
    assert!(!g.is_alive(Entity::new(u32::MAX, u32::MAX)));
    g.spawn();
    assert!(!g.is_alive(Entity::new(1, 0)));
    assert!(!g.despawn(Entity::new(7, 0)));
    assert_eq!(g.slot(1), None);
}

#[test]
fn spawn_despawn_spawn_scenario() {
    let mut g = EntityGenerator::new();
    let e1 = g.spawn();
    assert_eq!(e1, Entity { index: 0, generation: 0 });
    assert!(g.despawn(e1));
    let e2 = g.spawn();
    assert_eq!(e2, Entity { index: 0, generation: 1 });
    assert!(!g.is_alive(e1));
    assert!(g.is_alive(e2));
}

#[test]
fn from_slots_reuses_highest_dead_index_first() {
    let mut g = EntityGenerator::from_slots(vec![
        Slot { generation: 4, status: EntityStatus::Dead },
        Slot { generation: 0, status: EntityStatus::Alive },
        Slot { generation: 9, status: EntityStatus::Tombstone },
        Slot { generation: 2, status: EntityStatus::Dead },
    ]);
    assert_eq!(g.free_len(), 2);
    assert!(g.is_alive(Entity::new(1, 0)));
    assert!(!g.is_alive(Entity::new(0, 4)));
    assert_eq!(g.spawn(), Entity::new(3, 3));
    assert_eq!(g.spawn(), Entity::new(0, 5));
    assert_eq!(g.spawn(), Entity::new(4, 0));
    assert_eq!(g.len(), 5);
}

#[test]
fn try_spawn_issues_like_spawn() {
    let mut g = EntityGenerator::new();
    assert_eq!(g.try_spawn(), Some(Entity::new(0, 0)));
    assert!(g.despawn(Entity::new(0, 0)));
    assert_eq!(g.try_spawn(), Some(Entity::new(0, 1)));
    assert_eq!(g.try_spawn(), Some(Entity::new(1, 0)));
}
