use spell_cache::keys::{key_for_id, key_for_lock};
use spell_cache::plan::{
    after_update, apply_write, evict_entry, populate_write, refresh_write,
    CacheWrite, CACHE_TTL_SECS,
};
use spell_cache::store::{should_write, MemoryStore, SetCondition};

#[test]
fn write_conditions() {
    assert!(should_write(SetCondition::Always, true));
    assert!(should_write(SetCondition::Always, false));
    assert!(should_write(SetCondition::OnlyIfAbsent, false));
    assert!(!should_write(SetCondition::OnlyIfAbsent, true));
    assert!(should_write(SetCondition::OnlyIfPresent, true));
    assert!(!should_write(SetCondition::OnlyIfPresent, false));
}

#[test]
fn store_get_set_delete() {
    let mut s = MemoryStore::new();
    assert_eq!(s.get("spell:1"), None);
    assert!(s.set("spell:1", "a", SetCondition::Always));
    assert_eq!(s.get("spell:1"), Some("a".to_string()));
    assert!(s.set("spell:1", "b", SetCondition::Always));
    assert_eq!(s.get("spell:1"), Some("b".to_string()));
    assert!(!s.set("spell:1", "c", SetCondition::OnlyIfAbsent));
    assert_eq!(s.get("spell:1"), Some("b".to_string()));
    assert!(!s.set("spell:2", "x", SetCondition::OnlyIfPresent));
    assert!(!s.contains("spell:2"));
    s.delete("spell:1");
    s.delete("spell:1");
    assert_eq!(s.get("spell:1"), None);
}

#[test]
fn lock_is_exclusive_until_released() {
    let mut s = MemoryStore::new();
    assert!(s.acquire_lock(5));
    assert!(!s.acquire_lock(5));
    assert!(s.acquire_lock(6));
    assert_eq!(s.get(&key_for_lock(5)), Some("1".to_string()));
    assert!(!s.contains(&key_for_id(5)));
    s.release_lock(5);
    assert!(s.acquire_lock(5));
}

#[test]
fn write_plans() {
    assert_eq!(
        populate_write(3),
        CacheWrite { id: 3, ttl_secs: Some(60), condition: SetCondition::Always }
    );
    assert_eq!(
        refresh_write(3),
        CacheWrite { id: 3, ttl_secs: Some(CACHE_TTL_SECS), condition: SetCondition::OnlyIfPresent }
    );
    assert_eq!(after_update(3, true), Some(refresh_write(3)));
    assert_eq!(after_update(3, false), None);
}

#[test]
fn refresh_after_delete_does_not_resurrect() {
    let mut s = MemoryStore::new();
    apply_write(&mut s, &populate_write(1), "old");
    evict_entry(&mut s, 1);
    assert!(!apply_write(&mut s, &refresh_write(1), "new"));
    assert_eq!(s.get(&key_for_id(1)), None);
}

#[test]
fn refresh_replaces_cached_entry() {
    let mut s = MemoryStore::new();
    apply_write(&mut s, &populate_write(1), "old");
    assert!(apply_write(&mut s, &refresh_write(1), "new"));
    assert_eq!(s.get(&key_for_id(1)), Some("new".to_string()));
}
