use ipc_relay::cache::AppCache;

#[test]
fn empty_cache_misses() {
    let cache = AppCache::new();
    assert_eq!(cache.get(&String::from("123")), None);
}

#[test]
fn insert_then_get() {
    let mut cache = AppCache::new();
    cache.insert(String::from("123"), String::from("My Game"));
    assert_eq!(cache.get(&String::from("123")).unwrap(), "My Game");
    assert_eq!(cache.get(&String::from("456")), None);
}

#[test]
fn final_writer_wins() {
    let mut cache = AppCache::new();
    cache.insert(String::from("123"), String::from("Old"));
    cache.insert(String::from("123"), String::from("New"));
    assert_eq!(cache.get(&String::from("123")).unwrap(), "New");
}

#[test]
fn other_entries_survive_an_overwrite() {
    let mut cache = AppCache::new();
    cache.insert(String::from("1"), String::from("One"));
    cache.insert(String::from("2"), String::from("Two"));
    cache.insert(String::from("1"), String::from("Uno"));
    assert_eq!(cache.get(&String::from("1")).unwrap(), "Uno");
    assert_eq!(cache.get(&String::from("2")).unwrap(), "Two");
}
