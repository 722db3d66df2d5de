use traders::entities::Entity;
use traders::registry::Entities;

#[test]
fn created_entities_are_alive_and_distinct() {
    let mut world = Entities::new();
    let a = world.create().unwrap();
    let b = world.create().unwrap();
    assert_eq!(a, Entity::new(0, 0));
    assert_eq!(b, Entity::new(1, 0));
    assert!(world.is_alive(a));
    assert!(world.is_alive(b));
}

#[test]
fn deleted_entity_no_longer_resolves() {
    let mut world = Entities::new();
    let a = world.create().unwrap();
    let b = world.create().unwrap();
    assert!(world.delete(a));
    assert!(!world.is_alive(a));
    assert!(world.is_alive(b));
    assert!(!world.delete(a));
}

#[test]
fn reused_slot_gets_a_new_generation() {
    let mut world = Entities::new();
    let a = world.create().unwrap();
    assert!(world.delete(a));
    let c = world.create().unwrap();
    assert_eq!(c, Entity::new(0, 1));
    assert!(world.is_alive(c));
    assert!(!world.is_alive(a));
}

#[test]
fn unknown_handles_do_not_resolve() {
    let mut world = Entities::new();
    assert!(!world.is_alive(Entity::new(0, 0)));
    let a = world.create().unwrap();
    assert!(!world.is_alive(Entity::new(a.id, a.generation + 1)));
    assert!(!world.is_alive(Entity::new(a.id + 1, 0)));
    assert!(!world.delete(Entity::new(a.id + 1, 0)));
}

#[test]
fn live_at_gives_the_current_handle_of_a_slot() {
    let mut world = Entities::new();
    let a = world.create().unwrap();
    assert_eq!(world.live_at(a.id), Some(a));
    assert!(world.delete(a));
    assert_eq!(world.live_at(a.id), None);
    let c = world.create().unwrap();
    assert_eq!(world.live_at(0), Some(c));
    assert_eq!(world.live_at(1), None);
}
