use ctrait::container::{ContainerStore, Entities};
use ctrait::entity::{EntityArena, WeakRef};

// Test struct to create test entities.
struct Test;

#[test]
fn entity_access() {
    struct Number(u8);
    impl Number {
        fn value(&self) -> u8 {
            self.0
        }
    }
    let mut arena = EntityArena::new();
    let entity = arena.create(Number(3));
    let value = arena.checkout(&entity).unwrap();
    assert_eq!(value.value(), 3);
    assert!(arena.checkin(&entity, value).is_none());
}

#[test]
fn entities_new() {
    let mut store = ContainerStore::new();
    let arena: EntityArena<Test> = EntityArena::new();
    let entities = Entities::new(&mut store);
    assert!(entities.access(&mut store, &arena).is_empty());
}

#[test]
fn entities_clone() {
    let mut store = ContainerStore::new();
    let mut arena: EntityArena<Test> = EntityArena::new();
    let entities = Entities::new(&mut store);
    let entities_clone = Entities::clone(&entities);
    // The clone is a second handle onto the same container: a push through
    // the clone is seen through the original.
    let entity = arena.create(Test {});
    entities_clone.push(&mut store, &entity);
    assert_eq!(entities.access(&mut store, &arena).len(), 1);
}

#[test]
fn entities_push() {
    let mut store = ContainerStore::new();
    let mut arena = EntityArena::new();
    let entity = arena.create(Test {});
    let entities = Entities::new(&mut store);
    entities.push(&mut store, &entity);
    assert_eq!(entities.access(&mut store, &arena).len(), 1);
}

#[test]
fn entities_add_entities() {
    let mut store = ContainerStore::new();
    let mut arena = EntityArena::new();
    let a = arena.create(Test {});
    let b = arena.create(Test {});
    let entities = Entities::new(&mut store);
    entities.add_entities(&mut store, &[a, b]);
    assert_eq!(entities.access(&mut store, &arena).len(), 2);
}

#[test]
fn entities_clear() {
    let mut store = ContainerStore::new();
    let mut arena = EntityArena::new();
    let entity = arena.create(Test {});
    let entities = Entities::new(&mut store);
    entities.push(&mut store, &entity);
    entities.clear(&mut store);
    assert!(entities.access(&mut store, &arena).is_empty());
}

#[test]
fn entities_prune() {
    let mut arena = EntityArena::new();
    let a = arena.create(Test {});
    let b = arena.create(Test {});
    let mut entities: Vec<WeakRef> = vec![a.downgrade(), b.downgrade()];
    arena.release(a);
    Entities::prune(&mut entities, &arena);
    assert_eq!(entities.len(), 1);
    arena.release(b);
    Entities::prune(&mut entities, &arena);
    assert!(entities.is_empty());
}

#[test]
fn entities_access() {
    let mut store = ContainerStore::new();
    let mut arena = EntityArena::new();
    let a = arena.create(Test {});
    let b = arena.create(Test {});
    let entities = Entities::new(&mut store);
    entities.push(&mut store, &a);
    entities.push(&mut store, &b);
    // Drop a. The weak entry pointing to a should be removed on access.
    arena.release(a);
    assert_eq!(entities.access(&mut store, &arena).len(), 1);
    arena.release(b);
    assert!(entities.access(&mut store, &arena).is_empty());
}

#[test]
fn upgrade_fails_permanently_after_drop() {
    let mut arena = EntityArena::new();
    let strong = arena.create(Test {});
    let weak = strong.downgrade();
    assert!(arena.is_live(&weak));
    let second = arena.clone_strong(&strong);
    arena.release(strong);
    // One strong reference left: still alive.
    assert!(arena.is_live(&weak));
    arena.release(second);
    assert!(!arena.is_live(&weak));
    assert!(arena.upgrade(&weak).is_none());
    // Recycling the slot must not revive the old reference.
    let _other = arena.create(Test {});
    assert!(!arena.is_live(&weak));
    assert!(arena.upgrade(&weak).is_none());
}

#[test]
fn upgrade_keeps_entity_alive() {
    let mut arena = EntityArena::new();
    let strong = arena.create(Test {});
    let weak = strong.downgrade();
    let upgraded = arena.upgrade(&weak).unwrap();
    arena.release(strong);
    assert!(arena.is_live(&weak));
    arena.release(upgraded);
    assert!(!arena.is_live(&weak));
}

#[test]
fn exclusive_access_fails_fast_when_held() {
    let mut arena = EntityArena::new();
    let entity = arena.create(Test {});
    let held = arena.checkout(&entity).unwrap();
    // A second acquisition while the first is outstanding fails fast.
    assert!(arena.checkout(&entity).is_none());
    assert!(arena.checkin(&entity, held).is_none());
    // After release, access can be acquired again.
    let again = arena.checkout(&entity).unwrap();
    assert!(arena.checkin(&entity, again).is_none());
}
