use spell_cache::filter::MembershipFilter;
use spell_cache::keys::key_for_id;
use spell_cache::penetration::{after_create, PenetrationAction, PenetrationPhase, PenetrationRead};
use spell_cache::plan::{after_update, apply_write, populate_write, CacheWrite};
use spell_cache::stampede::{
    LockReply, StampedeAction, StampedePhase, StampedeRead, LOCK_RETRY_MILLIS, MAX_LOCK_RETRIES,
};
use spell_cache::store::MemoryStore;
use std::collections::HashMap;

struct Backing {
    rows: HashMap<i64, String>,
    loads: u32,
}

impl Backing {
    fn load(&mut self, id: i64) -> Option<String> {
        self.loads += 1;
        self.rows.get(&id).cloned()
    }
}

/// Background work: a cache write with its payload, and a lock to release.
struct Pending {
    write: Option<(CacheWrite, String)>,
    release: Option<i64>,
}

fn run_pending(cache: &mut MemoryStore, pending: Vec<Pending>) {
    for p in pending {
        if let Some((w, payload)) = p.write {
            apply_write(cache, &w, &payload);
        }
        if let Some(id) = p.release {
            cache.release_lock(id);
        }
    }
}

/// Drives one stampede-guarded read to its end.
fn stampede_read(
    id: i64,
    cache: &mut MemoryStore,
    backing: &mut Backing,
    pending: &mut Vec<Pending>,
) -> Option<String> {
    let mut read = StampedeRead::new(id, MAX_LOCK_RETRIES);
    let mut action = StampedeAction::ReadCache;
    let mut loaded = None;
    loop {
        action = match action {
            StampedeAction::ReadCache => {
                let hit = cache.get(&key_for_id(id));
                let found = hit.is_some();
                loaded = hit;
                read.on_cache(found)
            }
            StampedeAction::AcquireLock => {
                let reply = if cache.acquire_lock(id) { LockReply::Granted } else { LockReply::Denied };
                read.on_lock(reply)
            }
            StampedeAction::Sleep { .. } => read.on_wake(),
            StampedeAction::Load => {
                loaded = backing.load(id);
                read.on_loaded(loaded.is_some())
            }
            StampedeAction::ReturnCached => return loaded,
            StampedeAction::ReturnLoaded { populate, release_lock } => {
                pending.push(Pending {
                    write: populate.map(|w| (w, loaded.clone().unwrap())),
                    release: if release_lock { Some(id) } else { None },
                });
                return loaded;
            }
            StampedeAction::Fail { .. } => return None,
        }
    }
}

/// Drives one penetration-guarded read of record `id` to its end.
fn penetration_read(
    id: i64,
    filter: &MembershipFilter,
    cache: &mut MemoryStore,
    backing: &mut Backing,
    pending: &mut Vec<Pending>,
) -> Option<String> {
    let key = key_for_id(id);
    let (mut read, mut action) = PenetrationRead::start(filter, &key);
    let mut value = None;
    loop {
        action = match action {
            PenetrationAction::ReturnAbsent => return None,
            PenetrationAction::ReadCache => {
                value = cache.get(&key);
                read.on_cache(value.is_some())
            }
            PenetrationAction::ReturnCached => return value,
            PenetrationAction::Load => {
                value = backing.load(id);
                read.on_loaded(value.as_ref().map(|_| id))
            }
            PenetrationAction::ReturnLoaded { populate } => {
                pending.push(Pending {
                    write: populate.map(|w| (w, value.clone().unwrap())),
                    release: None,
                });
                return value;
            }
        }
    }
}

fn fireball_backing() -> Backing {
    let mut rows = HashMap::new();
    rows.insert(1, r#"{"id":1,"name":"Fireball","damage":50}"#.to_string());
    Backing { rows, loads: 0 }
}

#[test]
fn filter_rejects_unknown_key_without_load() {
    let filter = MembershipFilter::new(1024, 3);
    let mut cache = MemoryStore::new();
    let mut backing = fireball_backing();
    let mut pending = Vec::new();
    assert!(!filter.check("spell:999"));
    assert_eq!(penetration_read(999, &filter, &mut cache, &mut backing, &mut pending), None);
    assert_eq!(backing.loads, 0);
    assert!(pending.is_empty());
}

#[test]
fn second_read_comes_from_cache() {
    let mut filter = MembershipFilter::new(1024, 3);
    after_create(&mut filter, &key_for_id(1));
    let mut cache = MemoryStore::new();
    let mut backing = fireball_backing();
    let mut pending = Vec::new();
    let first = penetration_read(1, &filter, &mut cache, &mut backing, &mut pending);
    assert!(first.as_ref().unwrap().contains("Fireball"));
    assert_eq!(backing.loads, 1);
    run_pending(&mut cache, std::mem::take(&mut pending));
    let second = penetration_read(1, &filter, &mut cache, &mut backing, &mut pending);
    assert_eq!(second, first);
    assert_eq!(backing.loads, 1);
}

#[test]
fn stampede_read_caches_record() {
    let mut cache = MemoryStore::new();
    let mut backing = fireball_backing();
    let mut pending = Vec::new();
    let first = stampede_read(1, &mut cache, &mut backing, &mut pending);
    assert!(first.as_ref().unwrap().contains("\"damage\":50"));
    run_pending(&mut cache, std::mem::take(&mut pending));
    assert_eq!(stampede_read(1, &mut cache, &mut backing, &mut pending), first);
    assert_eq!(backing.loads, 1);
    assert!(cache.acquire_lock(1));
}

#[test]
fn concurrent_misses_take_the_lock_once() {
    let mut cache = MemoryStore::new();
    let mut backing = fireball_backing();
    let mut pending = Vec::new();
    // The first reader holds the lock; its background work has not run yet.
    let winner = stampede_read(1, &mut cache, &mut backing, &mut pending);
    assert!(winner.is_some());
    let mut readers: Vec<StampedeRead> = (0..4).map(|_| StampedeRead::new(1, 2)).collect();
    for r in readers.iter_mut() {
        assert_eq!(r.on_cache(false), StampedeAction::AcquireLock);
        let reply = if cache.acquire_lock(1) { LockReply::Granted } else { LockReply::Denied };
        assert_eq!(reply, LockReply::Denied);
        assert_eq!(r.on_lock(reply), StampedeAction::Sleep { millis: LOCK_RETRY_MILLIS });
        assert_eq!(r.tries_left, 1);
    }
    assert_eq!(backing.loads, 1);
    // The background work runs; waiting readers find the cached value.
    run_pending(&mut cache, std::mem::take(&mut pending));
    for r in readers.iter_mut() {
        assert_eq!(r.on_wake(), StampedeAction::ReadCache);
        let hit = cache.get(&key_for_id(1)).is_some();
        assert_eq!(r.on_cache(hit), StampedeAction::ReturnCached);
    }
    assert_eq!(backing.loads, 1);
}

#[test]
fn exhausted_retries_load_without_lock() {
    let mut r = StampedeRead::new(9, 1);
    r.on_cache(false);
    assert_eq!(r.on_lock(LockReply::Denied), StampedeAction::Sleep { millis: 25 });
    r.on_wake();
    r.on_cache(false);
    assert_eq!(r.on_lock(LockReply::Denied), StampedeAction::Load);
    assert!(!r.holds_lock);
    assert_eq!(
        r.on_loaded(true),
        StampedeAction::ReturnLoaded { populate: Some(populate_write(9)), release_lock: false }
    );
    assert_eq!(r.phase, StampedePhase::Finished);
}

#[test]
fn unavailable_lock_falls_back_to_load() {
    let mut r = StampedeRead::new(4, MAX_LOCK_RETRIES);
    r.on_cache(false);
    assert_eq!(r.on_lock(LockReply::Unavailable), StampedeAction::Load);
    assert_eq!(r.on_load_failed(), StampedeAction::Fail { release_lock: false });
}

#[test]
fn lock_holder_releases_even_when_not_found() {
    let mut r = StampedeRead::new(4, MAX_LOCK_RETRIES);
    r.on_cache(false);
    assert_eq!(r.on_lock(LockReply::Granted), StampedeAction::Load);
    assert_eq!(r.on_loaded(false), StampedeAction::ReturnLoaded { populate: None, release_lock: true });
}

#[test]
fn update_then_read_returns_new_value() {
    let mut cache = MemoryStore::new();
    let mut backing = fireball_backing();
    let mut pending = Vec::new();
    stampede_read(1, &mut cache, &mut backing, &mut pending);
    run_pending(&mut cache, std::mem::take(&mut pending));
    let updated = r#"{"id":1,"name":"Fireball","damage":100}"#.to_string();
    backing.rows.insert(1, updated.clone());
    if let Some(w) = after_update(1, true) {
        apply_write(&mut cache, &w, &updated);
    }
    assert_eq!(stampede_read(1, &mut cache, &mut backing, &mut pending), Some(updated));
}

#[test]
fn penetration_phases() {
    let filter = MembershipFilter::new(8, 0);
    let (mut r, a) = PenetrationRead::start(&filter, "anything");
    assert_eq!(a, PenetrationAction::ReadCache);
    assert_eq!(r.on_cache(false), PenetrationAction::Load);
    assert_eq!(r.on_loaded(None), PenetrationAction::ReturnLoaded { populate: None });
    assert_eq!(r.phase, PenetrationPhase::Finished);
}
