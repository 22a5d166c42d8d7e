use es_bridge::registry::AutoIdMap;

#[test]
fn test_auto_id_map() {
    let mut map = AutoIdMap::new();
    let id1 = map.insert("hi");
    let id2 = map.insert("hi2");
    assert_ne!(id1, id2);
    assert_eq!(map.len(), 2);
    let s1 = map.remove(&id1);
    assert_eq!(s1, "hi");
    assert_eq!(map.len(), 1);
}

#[test]
fn identity_ids_strictly_increase() {
    let mut map = AutoIdMap::new();
    let mut prev: usize = 0;
    for v in 0..100 {
        let id = map.insert(v);
        assert!(id > prev);
        assert!(id > 0);
        prev = id;
    }
}

#[test]
fn identity_ids_not_reused_after_remove() {
    let mut map = AutoIdMap::new();
    let id1 = map.insert("a");
    let id2 = map.insert("b");
    map.remove(&id1);
    let id3 = map.insert("c");
    assert!(id3 > id2);
    assert_ne!(id3, id1);
    assert!(!map.contains_key(&id1));
    assert!(map.contains_key(&id2));
    assert!(map.contains_key(&id3));
}

#[test]
fn get_and_replace_under_live_id() {
    let mut map = AutoIdMap::new();
    let id = map.insert(10);
    assert_eq!(map.get(&id), Some(&10));
    map.replace(&id, 20);
    assert_eq!(map.get(&id), Some(&20));
    assert_eq!(map.len(), 1);
    let missing: usize = id + 1;
    assert_eq!(map.get(&missing), None);
}
