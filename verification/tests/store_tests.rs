use game_core::create_player;
use game_core::EngineError;
use game_core::Entity;
use game_core::EntityStore;
use game_core::EntityType;

#[test]
fn insert_ids_unique_and_resolve() {
    let mut store = EntityStore::new();
    let entities = [
        Entity { entity_type: EntityType::Player, position: (1, 2), velocity: (3, 4) },
        Entity { entity_type: EntityType::Enemy, position: (5, 6), velocity: (7, 8) },
        Entity { entity_type: EntityType::Projectile, position: (9, 10), velocity: (11, 12) },
    ];
    let mut ids = Vec::new();
    for entity in entities.iter() {
        ids.push(store.insert(*entity));
    }
    for i in 0..ids.len() {
        for j in 0..ids.len() {
            if i != j {
                assert_ne!(ids[i], ids[j]);
            }
        }
        assert_eq!(store.get(ids[i]), Ok(&entities[i]));
    }
    assert_eq!(store.len(), 3);
}

#[test]
fn empty_store_has_nothing() {
    let store = EntityStore::new();
    assert_eq!(store.len(), 0);
    assert_eq!(store.get(0), Err(EngineError::NotFound));
}

#[test]
fn player_scenario() {
    let mut store = EntityStore::new();
    let zero = 0.0f32.to_bits();
    let player = create_player(zero, zero);
    let id = store.insert(player);
    assert_eq!(id, 0);
    let looked = store.get(0).expect("the inserted player must be live");
    assert_eq!(looked.entity_type, EntityType::Player);
    assert_eq!(looked.position, (0.0f32.to_bits(), 0.0f32.to_bits()));
    assert_eq!(looked.velocity, (0.0f32.to_bits(), 0.0f32.to_bits()));
}

#[test]
fn get_is_idempotent() {
    let mut store = EntityStore::new();
    let id = store.insert(create_player(10, 20));
    let first = store.get(id).cloned();
    let second = store.get(id).cloned();
    assert_eq!(first, second);
    assert_eq!(store.len(), 1);
}

#[test]
fn removed_id_not_found_and_not_reused() {
    let mut store = EntityStore::new();
    let a = store.insert(create_player(1, 1));
    let b = store.insert(create_player(2, 2));
    let removed = store.remove(a).expect("id a was live");
    assert_eq!(removed.position, (1, 1));
    assert_eq!(store.get(a), Err(EngineError::NotFound));
    let c = store.insert(create_player(3, 3));
    assert_ne!(c, a);
    assert_ne!(c, b);
    assert_eq!(store.get(a), Err(EngineError::NotFound));
}

#[test]
fn remove_missing_id_signals_not_found() {
    let mut store = EntityStore::new();
    store.insert(create_player(1, 1));
    let before = store.len();
    assert_eq!(store.remove(77), Err(EngineError::NotFound));
    assert_eq!(store.len(), before);
}
