use calendar_hub::registry::ConnectionRegistry;

#[test]
fn registered_ids_are_pairwise_distinct() {
    let mut registry: ConnectionRegistry<u32> = ConnectionRegistry::new();
    let mut ids = Vec::new();
    for i in 0..16u32 {
        ids.push(registry.register_connection(i));
    }
    assert_eq!(registry.connection_count(), 16);
    for a in 0..ids.len() {
        for b in 0..ids.len() {
            if a != b {
                assert_ne!(ids[a], ids[b]);
            }
        }
    }
    for id in &ids {
        assert!(registry.contains_connection(*id));
    }
}

#[test]
fn each_connection_can_be_removed_independently() {
    let mut registry: ConnectionRegistry<&'static str> = ConnectionRegistry::new();
    let id1 = registry.register_connection("one");
    let id2 = registry.register_connection("two");
    let id3 = registry.register_connection("three");

    registry.remove_connection(id2);
    assert_eq!(registry.connection_count(), 2);
    assert!(registry.contains_connection(id1));
    assert!(!registry.contains_connection(id2));
    assert!(registry.contains_connection(id3));
}

#[test]
fn removing_twice_is_a_no_op_both_times() {
    let mut registry: ConnectionRegistry<u8> = ConnectionRegistry::new();
    let id = registry.register_connection(0);
    let other = registry.register_connection(1);

    registry.remove_connection(id);
    assert_eq!(registry.connection_count(), 1);
    registry.remove_connection(id);
    assert_eq!(registry.connection_count(), 1);
    assert!(registry.contains_connection(other));

    // Removing an id that never existed is equally harmless.
    let mut fresh: ConnectionRegistry<u8> = ConnectionRegistry::new();
    fresh.remove_connection(12345);
    assert_eq!(fresh.connection_count(), 0);
}
