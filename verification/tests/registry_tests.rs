use ril_websocket::registry::ClientRegistry;

#[test]
fn empty_registry_finds_nothing() {
    let r: ClientRegistry<&str> = ClientRegistry::new();
    assert_eq!(r.len(), 0);
    assert_eq!(r.find_live(0), None);
    assert_eq!(r.get(0), None);
}

#[test]
fn ensure_clients_length_adds_empty_slots() {
    let mut r: ClientRegistry<u32> = ClientRegistry::new();
    r.ensure_clients_length(2);
    assert_eq!(r.len(), 3);
    assert_eq!(r.get(0), None);
    assert_eq!(r.get(2), None);
    r.ensure_clients_length(0);
    assert_eq!(r.len(), 3);
    r.ensure_clients_length(2);
    assert_eq!(r.len(), 3);
}

#[test]
fn register_then_find() {
    let mut r: ClientRegistry<&str> = ClientRegistry::new();
    r.register(1, "second");
    assert_eq!(r.len(), 2);
    assert_eq!(r.find_live(1), Some(1));
    assert_eq!(r.get(1), Some(&"second"));
    assert_eq!(r.find_live(0), None);
    assert_eq!(r.get(0), None);
}

#[test]
fn register_keeps_other_clients_and_replaces_own() {
    let mut r: ClientRegistry<&str> = ClientRegistry::new();
    r.register(0, "first");
    r.register(3, "fourth");
    r.register(0, "again");
    assert_eq!(r.len(), 4);
    assert_eq!(r.get(0), Some(&"again"));
    assert_eq!(r.get(3), Some(&"fourth"));
    assert_eq!(r.get(1), None);
    assert_eq!(r.get(2), None);
}

#[test]
fn find_live_refuses_negative_and_large_ids() {
    let mut r: ClientRegistry<u8> = ClientRegistry::new();
    r.register(0, 9);
    assert_eq!(r.find_live(-1), None);
    assert_eq!(r.find_live(i64::MIN), None);
    assert_eq!(r.find_live(1), None);
    assert_eq!(r.find_live(i64::MAX), None);
    assert_eq!(r.find_live(0), Some(0));
}

#[test]
fn clients_stay_in_the_slot_of_their_id() {
    let mut r: ClientRegistry<u8> = ClientRegistry::new();
    for id in [3u8, 0, 5, 3, 1] {
        r.register(id, id);
    }
    for i in 0..r.len() {
        if let Some(c) = r.get(i) {
            assert_eq!(*c as usize, i);
        }
    }
}
