use streamer2::registry::ClientRegistry;

fn id(s: &str) -> String {
    s.to_string()
}

#[test]
fn empty_registry_finds_nobody() {
    let r: ClientRegistry<u32> = ClientRegistry::new();
    assert_eq!(r.get(&id("a")), None);
    assert!(!r.contains(&id("a")));
}

#[test]
fn registered_client_is_found_with_its_channel() {
    let mut r = ClientRegistry::new();
    r.insert(id("a"), 1u32);
    r.insert(id("b"), 2u32);
    assert_eq!(r.get(&id("a")), Some(&1));
    assert_eq!(r.get(&id("b")), Some(&2));
    assert_eq!(r.get(&id("c")), None);
}

#[test]
fn later_registration_replaces_earlier() {
    let mut r = ClientRegistry::new();
    r.insert(id("a"), 1u32);
    r.insert(id("b"), 2u32);
    r.insert(id("a"), 3u32);
    assert_eq!(r.get(&id("a")), Some(&3));
    assert_eq!(r.get(&id("b")), Some(&2));
}

#[test]
fn removed_client_is_not_found_and_others_stay() {
    let mut r = ClientRegistry::new();
    r.insert(id("a"), 1u32);
    r.insert(id("b"), 2u32);
    r.insert(id("c"), 3u32);
    r.remove(&id("b"));
    assert_eq!(r.get(&id("b")), None);
    assert!(!r.contains(&id("b")));
    assert_eq!(r.get(&id("a")), Some(&1));
    assert_eq!(r.get(&id("c")), Some(&3));
}

#[test]
fn removing_an_unknown_client_changes_nothing() {
    let mut r = ClientRegistry::new();
    r.insert(id("a"), 1u32);
    r.remove(&id("z"));
    assert_eq!(r.get(&id("a")), Some(&1));
    r.remove(&id("a"));
    r.remove(&id("a"));
    assert_eq!(r.get(&id("a")), None);
}

#[test]
fn client_can_register_again_after_removal() {
    let mut r = ClientRegistry::new();
    r.insert(id("a"), 1u32);
    r.remove(&id("a"));
    r.insert(id("a"), 4u32);
    assert_eq!(r.get(&id("a")), Some(&4));
}
