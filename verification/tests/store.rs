use asteroids::entity::{Entity, EntityId, Role};
use asteroids::store::{EntityStore, StaleReferenceError};
use asteroids::vector::Vec2;

fn rock(x: i32) -> Entity {
    Entity::asteroid(Vec2::new(x, 0), Vec2::new(1, 1), 0)
}

#[test]
fn new_store_is_empty() {
    let store = EntityStore::new();
    assert_eq!(store.slot_count(), 0);
    assert_eq!(store.ids(None), Vec::<EntityId>::new());
    assert_eq!(store.id_at(0), None);
    assert_eq!(store.get(EntityId { index: 0, generation: 0 }), None);
    assert!(!store.contains(EntityId { index: 0, generation: 0 }));
}

#[test]
fn spawn_then_get() {
    let mut store = EntityStore::new();
    let a = store.spawn(rock(1));
    let b = store.spawn(Entity::player());
    assert_ne!(a, b);
    assert_eq!(store.get(a), Some(rock(1)));
    assert_eq!(store.get(b), Some(Entity::player()));
    assert!(store.contains(a));
    assert_eq!(store.slot_count(), 2);
    assert_eq!(store.id_at(a.index), Some(a));
    assert_eq!(store.id_at(b.index), Some(b));
    assert_eq!(store.id_at(2), None);
}

#[test]
fn despawn_makes_the_handle_stale() {
    let mut store = EntityStore::new();
    let a = store.spawn(rock(1));
    let b = store.spawn(rock(2));
    assert_eq!(store.despawn(a), Ok(rock(1)));
    assert_eq!(store.get(a), None);
    assert!(!store.contains(a));
    assert_eq!(store.get(b), Some(rock(2)));
    assert_eq!(store.id_at(a.index), None);
    assert_eq!(store.ids(None), vec![b]);
}

#[test]
fn nothing_is_destroyed_twice() {
    let mut store = EntityStore::new();
    let a = store.spawn(rock(1));
    assert_eq!(store.despawn(a), Ok(rock(1)));
    assert_eq!(store.despawn(a), Err(StaleReferenceError { id: a }));
    let unknown = EntityId { index: 99, generation: 0 };
    assert_eq!(store.despawn(unknown), Err(StaleReferenceError { id: unknown }));
}

#[test]
fn a_reused_slot_gets_a_new_handle() {
    let mut store = EntityStore::new();
    let a = store.spawn(rock(1));
    store.despawn(a).unwrap();
    let b = store.spawn(rock(2));
    assert_eq!(b.index, a.index);
    assert_ne!(b.generation, a.generation);
    assert_eq!(store.get(a), None);
    assert_eq!(store.get(b), Some(rock(2)));
    assert_eq!(store.despawn(a), Err(StaleReferenceError { id: a }));
    assert_eq!(store.get(b), Some(rock(2)));
    assert_eq!(store.slot_count(), 1);
}

#[test]
fn replace_changes_the_components() {
    let mut store = EntityStore::new();
    let a = store.spawn(rock(1));
    let b = store.spawn(rock(2));
    assert_eq!(store.replace(a, rock(5)), Ok(()));
    assert_eq!(store.get(a), Some(rock(5)));
    assert_eq!(store.get(b), Some(rock(2)));
}

#[test]
fn replace_by_a_stale_handle_is_an_error() {
    let mut store = EntityStore::new();
    let a = store.spawn(rock(1));
    store.despawn(a).unwrap();
    let b = store.spawn(rock(2));
    assert_eq!(store.replace(a, rock(5)), Err(StaleReferenceError { id: a }));
    assert_eq!(store.get(b), Some(rock(2)));
    assert_eq!(store.get(a), None);
}

#[test]
fn ids_by_role() {
    let mut store = EntityStore::new();
    let ship = store.spawn(Entity::player());
    let flame = store.spawn(Entity::thrust_indicator(ship));
    let first = store.spawn(rock(1));
    let second = store.spawn(rock(2));
    assert_eq!(store.ids(None), vec![ship, flame, first, second]);
    assert_eq!(store.ids(Some(Role::Asteroid)), vec![first, second]);
    assert_eq!(store.ids(Some(Role::Player)), vec![ship]);
    assert_eq!(store.ids(Some(Role::ThrustIndicator)), vec![flame]);
    assert_eq!(store.ids(Some(Role::Effect)), Vec::<EntityId>::new());
    store.despawn(first).unwrap();
    assert_eq!(store.ids(Some(Role::Asteroid)), vec![second]);
}

#[test]
fn clear_destroys_everything() {
    let mut store = EntityStore::new();
    let a = store.spawn(rock(1));
    let b = store.spawn(rock(2));
    store.clear();
    assert_eq!(store.ids(None), Vec::<EntityId>::new());
    assert_eq!(store.get(a), None);
    assert_eq!(store.get(b), None);
    let c = store.spawn(rock(3));
    assert_ne!(c, a);
    assert_ne!(c, b);
    assert_eq!(store.get(a), None);
    assert_eq!(store.get(c), Some(rock(3)));
}

#[test]
fn handles_are_never_given_out_twice() {
    let mut store = EntityStore::new();
    let mut seen: Vec<EntityId> = Vec::new();
    for round in 0..50 {
        let id = store.spawn(rock(round));
        assert!(!seen.contains(&id));
        seen.push(id);
        if round % 3 != 0 {
            store.despawn(id).unwrap();
        }
    }
}
