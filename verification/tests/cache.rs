use kapestr::cache::MetadataCache;

fn key(value: &str) -> String {
    value.to_string()
}

#[test]
fn new_cache_knows_nobody() {
    let cache = MetadataCache::new();
    assert_eq!(cache.get(&key("pk1")), None);
    assert!(!cache.contains(&key("pk1")));
    assert!(!cache.contains(&key("")));
}

#[test]
fn inserted_name_is_found() {
    let cache = MetadataCache::new().insert(key("pk1"), key("Alice"));
    assert_eq!(cache.get(&key("pk1")), Some(key("Alice")));
    assert!(cache.contains(&key("pk1")));
    assert_eq!(cache.get(&key("pk2")), None);
}

#[test]
fn later_name_replaces_the_earlier() {
    let cache = MetadataCache::new()
        .insert(key("pk1"), key("Alice"))
        .insert(key("pk2"), key("Bob"))
        .insert(key("pk1"), key("Alicia"));
    assert_eq!(cache.get(&key("pk1")), Some(key("Alicia")));
    assert_eq!(cache.get(&key("pk2")), Some(key("Bob")));
}

#[test]
fn inserting_the_same_name_twice_is_inserting_it_once() {
    let once = MetadataCache::new().insert(key("pk1"), key("Alice"));
    let twice = MetadataCache::new().insert(key("pk1"), key("Alice")).insert(key("pk1"), key("Alice"));
    assert_eq!(once.get(&key("pk1")), twice.get(&key("pk1")));
    assert_eq!(twice.get(&key("pk1")), Some(key("Alice")));
}

#[test]
fn authors_are_told_apart_exactly() {
    let cache = MetadataCache::new().insert(key("pk1"), key("Alice"));
    assert_eq!(cache.get(&key("pk")), None);
    assert_eq!(cache.get(&key("pk11")), None);
    assert_eq!(cache.get(&key("PK1")), None);
}

#[test]
fn many_authors_keep_their_own_names() {
    let mut cache = MetadataCache::new();
    for i in 0..50 {
        cache = cache.insert(format!("pk{}", i), format!("name{}", i));
    }
    for i in 0..50 {
        assert_eq!(cache.get(&format!("pk{}", i)), Some(format!("name{}", i)));
    }
    assert_eq!(cache.get(&key("pk50")), None);
}

#[test]
fn empty_name_is_kept_as_a_name() {
    let cache = MetadataCache::new().insert(key("pk1"), String::new());
    assert_eq!(cache.get(&key("pk1")), Some(String::new()));
    assert!(cache.contains(&key("pk1")));
}
