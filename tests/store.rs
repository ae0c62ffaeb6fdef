use std::sync::{Arc, Mutex};

use tokio::runtime::Runtime;
use tokio::sync::Barrier;

use user_store::Db;

fn store() -> Db<String, u32> {
    Db::init()
}

fn runtime() -> Runtime {
    tokio::runtime::Builder::new_multi_thread().worker_threads(4).build().unwrap()
}

fn key(s: &str) -> String {
    s.to_string()
}

#[test]
fn uniqueness_under_race() {
    let rt = runtime();
    let db = Arc::new(Mutex::new(store()));
    let n: u32 = 16;
    let barrier = Arc::new(Barrier::new(n as usize));
    let handles: Vec<_> = (0..n)
        .map(|i| {
            let db = db.clone();
            let barrier = barrier.clone();
            rt.spawn(async move {
                barrier.wait().await;
                (i, db.lock().unwrap().create(key("alice"), i))
            })
        })
        .collect();
    let results: Vec<(u32, bool)> =
        handles.into_iter().map(|h| rt.block_on(h).unwrap()).collect();
    let winners: Vec<u32> = results.iter().filter(|r| r.1).map(|r| r.0).collect();
    assert_eq!(winners.len(), 1);
    assert_eq!(db.lock().unwrap().read(&key("alice")), Some(winners[0]));
}

#[test]
fn create_then_read() {
    let mut db = store();
    assert!(db.create(key("alice"), 1));
    assert_eq!(db.read(&key("alice")), Some(1));
}

#[test]
fn duplicate_rejected() {
    let mut db = store();
    assert!(db.create(key("alice"), 1));
    assert!(!db.create(key("alice"), 2));
    assert_eq!(db.read(&key("alice")), Some(1));
}

#[test]
fn update_returns_previous_value() {
    let mut db = store();
    assert!(db.create(key("alice"), 1));
    assert_eq!(db.update(&key("alice"), 2), Some(1));
    assert_eq!(db.read(&key("alice")), Some(2));
}

#[test]
fn update_on_absent_key_is_noop() {
    let mut db = store();
    assert_eq!(db.update(&key("bob"), 1), None);
    assert_eq!(db.read(&key("bob")), None);
}

#[test]
fn delete_then_recreate() {
    let mut db = store();
    assert!(db.create(key("alice"), 1));
    assert_eq!(db.update(&key("alice"), 2), Some(1));
    assert_eq!(db.delete(&key("alice")), Some(2));
    assert_eq!(db.read(&key("alice")), None);
    assert!(db.create(key("alice"), 3));
    assert_eq!(db.read(&key("alice")), Some(3));
}

#[test]
fn idempotent_delete() {
    let mut db = store();
    assert!(db.create(key("alice"), 1));
    assert!(db.create(key("carol"), 7));
    assert_eq!(db.delete(&key("alice")), Some(1));
    assert_eq!(db.delete(&key("alice")), None);
    assert_eq!(db.read(&key("alice")), None);
    assert_eq!(db.read(&key("carol")), Some(7));
}

#[test]
fn disjoint_keys_do_not_interfere() {
    let rt = runtime();
    let db = Arc::new(Mutex::new(store()));
    assert!(db.lock().unwrap().create(key("b"), 100));
    let a = db.clone();
    let worker = rt.spawn(async move {
        for i in 0..500u32 {
            assert!(a.lock().unwrap().create(key("a"), i));
            assert_eq!(a.lock().unwrap().update(&key("a"), i + 1), Some(i));
            assert_eq!(a.lock().unwrap().delete(&key("a")), Some(i + 1));
        }
    });
    for _ in 0..500 {
        assert_eq!(db.lock().unwrap().read(&key("b")), Some(100));
    }
    rt.block_on(worker).unwrap();
    assert_eq!(db.lock().unwrap().read(&key("b")), Some(100));
    assert_eq!(db.lock().unwrap().read(&key("a")), None);
}

#[test]
fn update_twice_restores() {
    let mut db = store();
    assert!(db.create(key("alice"), 1));
    assert_eq!(db.update(&key("alice"), 2), Some(1));
    assert_eq!(db.update(&key("alice"), 1), Some(2));
    assert_eq!(db.read(&key("alice")), Some(1));
}

#[test]
fn fresh_store_is_empty() {
    let mut db = store();
    assert_eq!(db.read(&key("alice")), None);
    assert_eq!(db.delete(&key("alice")), None);
}
