use spell_cache::bounded::BoundedCache;
use spell_cache::entry::{DefaultEvictCallback, KeyRef, OnEvictCallback, PutResult};
use std::cell::Cell;
use std::collections::hash_map::DefaultHasher;
use std::collections::HashMap;
use std::hash::{Hash, Hasher};

fn hash_of<T: Hash>(t: &T) -> u64 {
    let mut h = DefaultHasher::new();
    t.hash(&mut h);
    h.finish()
}

#[test]
fn key_ref_compares_by_value() {
    let a = String::from("spell:1");
    let b = String::from("spell:1");
    let c = String::from("spell:2");
    assert_eq!(KeyRef::new(&a), KeyRef::new(&b));
    assert_ne!(KeyRef::new(&a), KeyRef::new(&c));
    assert_eq!(hash_of(&KeyRef::new(&a)), hash_of(&KeyRef::new(&b)));
    assert_eq!(*KeyRef::new(&a).get(), "spell:1");
}

#[test]
fn key_ref_looks_up_map() {
    let owned = vec![String::from("a"), String::from("b")];
    let mut index: HashMap<KeyRef<String>, usize> = HashMap::new();
    for (i, k) in owned.iter().enumerate() {
        index.insert(KeyRef::new(k), i);
    }
    let probe = String::from("b");
    assert_eq!(index.get(&KeyRef::new(&probe)), Some(&1));
}

#[test]
fn put_result_equality_is_by_variant_and_payload() {
    let a: PutResult<i64, i32> = PutResult::Update(5);
    assert_eq!(a.clone(), PutResult::Update(5));
    assert_ne!(a, PutResult::Update(6));
    assert_ne!(PutResult::<i64, i32>::Put, PutResult::Update(5));
    let e: PutResult<i64, i32> = PutResult::Evicted { key: 1, value: 2 };
    assert_eq!(e, PutResult::Evicted { key: 1, value: 2 });
    assert_ne!(e, PutResult::Evicted { key: 1, value: 3 });
    let eu: PutResult<i64, i32> = PutResult::EvictedAndUpdate { evicted: (1, 2), update: 3 };
    assert_eq!(eu.clone(), eu);
    assert_ne!(eu, PutResult::EvictedAndUpdate { evicted: (1, 2), update: 4 });
    assert_ne!(eu, e);
}

#[test]
fn put_into_room_then_update() {
    let mut c: BoundedCache<&str, DefaultEvictCallback> = BoundedCache::new(2, DefaultEvictCallback);
    assert_eq!(c.put(1, "a"), PutResult::Put);
    assert_eq!(c.put(2, "b"), PutResult::Put);
    assert_eq!(c.len(), 2);
    assert_eq!(c.put(1, "a2"), PutResult::Update("a"));
    assert_eq!(c.len(), 2);
    assert_eq!(c.get(1), Some(&"a2"));
}

#[test]
fn full_container_evicts_oldest() {
    let mut c: BoundedCache<&str, DefaultEvictCallback> = BoundedCache::new(2, DefaultEvictCallback);
    c.put(1, "a");
    c.put(2, "b");
    c.put(1, "a2");
    assert_eq!(c.put(3, "c"), PutResult::Evicted { key: 2, value: "b" });
    assert_eq!(c.len(), 2);
    assert!(!c.contains(2));
    assert!(c.contains(1) && c.contains(3));
    assert_eq!(c.capacity(), 2);
}

#[test]
fn capacity_one_container() {
    let mut c: BoundedCache<i32, DefaultEvictCallback> = BoundedCache::new(1, DefaultEvictCallback);
    assert!(c.is_empty());
    assert_eq!(c.put(7, 70), PutResult::Put);
    assert_eq!(c.put(8, 80), PutResult::Evicted { key: 7, value: 70 });
    assert_eq!(c.put(8, 81), PutResult::Update(80));
    assert_eq!(c.len(), 1);
    assert_eq!(c.get(7), None);
}

struct Counting<'a> {
    count: &'a Cell<u32>,
}

impl<'a> OnEvictCallback for Counting<'a> {
    fn on_evict<K, V>(&self, _key: &K, _val: &V) {
        self.count.set(self.count.get() + 1);
    }
}

#[test]
fn eviction_calls_hook_once_per_victim() {
    let count = Cell::new(0);
    let mut c = BoundedCache::new(1, Counting { count: &count });
    c.put(1, 10);
    c.put(1, 11);
    assert_eq!(count.get(), 0);
    c.put(2, 20);
    c.put(3, 30);
    assert_eq!(count.get(), 2);
}

#[test]
fn put_result_is_copy_for_copy_payloads() {
    let a: PutResult<i64, i32> = PutResult::EvictedAndUpdate { evicted: (1, 2), update: 3 };
    let b = a;
    assert_eq!(a, b);
    assert_eq!(format!("{:?}", PutResult::<i64, i32>::Update(5)), "Update(5)");
}
