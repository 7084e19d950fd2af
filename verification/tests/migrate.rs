use std::collections::BTreeMap;

use bridger::migrate::{JsonNumber, KvOp, MigrationStage, MigrationV2, PutValue, StoredValue};

fn stored(p: &PutValue) -> StoredValue {
    match p {
        PutValue::U64(n) => StoredValue::Number(JsonNumber::PosInt(*n)),
        PutValue::Bool(b) => StoredValue::Bool(*b),
    }
}

fn run(store: &mut BTreeMap<String, StoredValue>) {
    let mut m = MigrationV2::new();
    while !m.is_done() {
        let read = m.read_key().and_then(|k| store.get(&k).cloned());
        assert!(m.accepts(&read));
        for op in m.advance(&read) {
            match op {
                KvOp::Put(k, v) => {
                    store.insert(k, stored(&v));
                },
                KvOp::Delete(k) => {
                    store.remove(&k);
                },
            }
        }
    }
}

fn num(store: &BTreeMap<String, StoredValue>, key: &str) -> Option<u64> {
    match store.get(key) {
        Some(StoredValue::Number(JsonNumber::PosInt(n))) => Some(*n),
        _ => None,
    }
}

fn flag(store: &BTreeMap<String, StoredValue>, key: &str) -> Option<bool> {
    match store.get(key) {
        Some(StoredValue::Bool(b)) => Some(*b),
        _ => None,
    }
}

#[test]
fn full_migration() {
    let mut store = BTreeMap::new();
    store.insert("scan.ethereum.finish".to_string(), StoredValue::Number(JsonNumber::PosInt(100)));
    store.insert("scan.ethereum.running".to_string(), StoredValue::String("true".to_string()));
    store.insert("scan.ethereum.next".to_string(), StoredValue::Null);
    store.insert("scan.darwinia.finish".to_string(), StoredValue::Number(JsonNumber::NegInt(-3)));
    store.insert("scan.darwinia.fast_mode".to_string(), StoredValue::Bool(true));
    store.insert("target".to_string(), StoredValue::Number(JsonNumber::PosInt(7)));
    store.insert("relayed".to_string(), StoredValue::String("5".to_string()));
    store.insert("other".to_string(), StoredValue::Array);
    run(&mut store);
    assert_eq!(num(&store, "scan.ethereum.redeem.current"), Some(100));
    assert_eq!(num(&store, "scan.ethereum.check.current"), Some(100));
    assert_eq!(num(&store, "scan.ethereum.affirm.current"), Some(100));
    assert_eq!(flag(&store, "scan.ethereum.redeem.running"), Some(true));
    assert_eq!(flag(&store, "scan.ethereum.check.running"), Some(true));
    assert_eq!(flag(&store, "scan.ethereum.affirm.running"), Some(true));
    assert_eq!(num(&store, "scan.darwinia.current"), Some(0));
    assert_eq!(num(&store, "affirm.target"), Some(7));
    assert!(!store.contains_key("affirm.relayed"));
    for key in [
        "scan.ethereum.running",
        "scan.ethereum.finish",
        "scan.ethereum.next",
        "scan.darwinia.finish",
        "scan.darwinia.fast_mode",
        "target",
        "relayed",
    ] {
        assert!(!store.contains_key(key), "{} left", key);
    }
    assert!(store.contains_key("other"));
    assert_eq!(store.len(), 9);
}

#[test]
fn empty_store_gets_nothing() {
    let mut store = BTreeMap::new();
    run(&mut store);
    assert!(store.is_empty());
}

#[test]
fn not_running_scanner_sets_no_flags() {
    let mut store = BTreeMap::new();
    store.insert("scan.ethereum.running".to_string(), StoredValue::String("yes".to_string()));
    run(&mut store);
    assert!(store.is_empty());
    let mut store = BTreeMap::new();
    store.insert("scan.ethereum.running".to_string(), StoredValue::Bool(false));
    run(&mut store);
    assert!(store.is_empty());
}

#[test]
fn stage_order_and_keys() {
    let mut m = MigrationV2::new();
    assert_eq!(MigrationV2::namespace(), "task-darwinia-ethereum");
    let mut seen = vec![];
    while !m.is_done() {
        seen.push((m.stage(), m.read_key()));
        m.advance(&None);
    }
    assert_eq!(
        seen,
        vec![
            (MigrationStage::EthereumFinish, Some("scan.ethereum.finish".to_string())),
            (MigrationStage::EthereumRunning, Some("scan.ethereum.running".to_string())),
            (MigrationStage::EthereumCleanup, None),
            (MigrationStage::DarwiniaFinish, Some("scan.darwinia.finish".to_string())),
            (MigrationStage::DarwiniaCleanup, None),
            (MigrationStage::AffirmTarget, Some("target".to_string())),
            (MigrationStage::AffirmRelayed, Some("relayed".to_string())),
        ]
    );
}

#[test]
fn ethereum_finish_must_fit_u64() {
    let m = MigrationV2::new();
    assert!(!m.accepts(&Some(StoredValue::Number(JsonNumber::Float))));
    assert!(!m.accepts(&Some(StoredValue::Number(JsonNumber::NegInt(-1)))));
    assert!(m.accepts(&Some(StoredValue::String("1".to_string()))));
}

#[test]
fn cleanup_deletes_in_order() {
    let mut m = MigrationV2::new();
    m.advance(&None);
    m.advance(&None);
    let keys: Vec<String> = m
        .advance(&None)
        .into_iter()
        .map(|op| match op {
            KvOp::Delete(k) => k,
            KvOp::Put(..) => panic!("unexpected put"),
        })
        .collect();
    assert_eq!(
        keys,
        vec![
            "scan.ethereum.running",
            "scan.ethereum.finish",
            "scan.ethereum.current",
            "scan.ethereum.next",
            "scan.ethereum.skipped",
            "scan.ethereum.fast_mode"
        ]
    );
}

#[test]
fn migration_twice_changes_nothing() {
    let mut store = BTreeMap::new();
    store.insert("scan.ethereum.finish".to_string(), StoredValue::Number(JsonNumber::PosInt(9)));
    store.insert("scan.ethereum.running".to_string(), StoredValue::Bool(true));
    store.insert("scan.darwinia.finish".to_string(), StoredValue::Number(JsonNumber::PosInt(4)));
    store.insert("relayed".to_string(), StoredValue::Number(JsonNumber::PosInt(2)));
    run(&mut store);
    let once = format!("{:?}", store);
    run(&mut store);
    assert_eq!(format!("{:?}", store), once);
}
