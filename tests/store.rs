use asninfo::{health, AsInfoOut, Snapshot, SnapshotStore};
use bgpkit_commons::asinfo::AsInfo;

fn record(asn: u32, name: &str) -> AsInfoOut {
    let inner = AsInfo {
        asn,
        name: name.to_string(),
        country: "DE".to_string(),
        as2org: None,
        population: None,
        hegemony: None,
        peeringdb: None,
        delegated: None,
        irr: vec![],
    };
    AsInfoOut {
        asn,
        name: name.to_string(),
        country: "DE".to_string(),
        as2org: None,
        country_name: "Germany".to_string(),
        inner,
    }
}

fn snapshot(names: &[(u32, &str)], at: &str) -> Snapshot {
    Snapshot::from_records(names.iter().map(|(a, n)| record(*a, n)).collect(), at.to_string())
}

#[test]
fn snapshot_files_records_by_asn() {
    let s = snapshot(&[(1, "one"), (2, "two"), (1, "uno")], "t0");
    assert_eq!(s.get(1).map(|r| r.name.as_str()), Some("uno"));
    assert_eq!(s.get(2).map(|r| r.name.as_str()), Some("two"));
    assert!(s.get(3).is_none());
    assert_eq!(s.updated_at(), "t0");
}

#[test]
fn read_returns_the_pair_installed_together() {
    let mut store = SnapshotStore::new(snapshot(&[(1, "old")], "t1"));
    let first = store.read();
    assert_eq!(first.updated_at(), "t1");
    assert_eq!(first.get(1).map(|r| r.name.as_str()), Some("old"));
    store.replace(snapshot(&[(1, "new"), (2, "added")], "t2"));
    let second = store.read();
    assert_eq!(second.updated_at(), "t2");
    assert_eq!(second.get(1).map(|r| r.name.as_str()), Some("new"));
    assert_eq!(second.get(2).map(|r| r.name.as_str()), Some("added"));
    // a handle taken earlier still shows its own generation, whole
    assert_eq!(first.updated_at(), "t1");
    assert_eq!(first.get(1).map(|r| r.name.as_str()), Some("old"));
    assert!(first.get(2).is_none());
}

#[test]
fn replace_returns_the_displaced_snapshot() {
    let mut store = SnapshotStore::new(snapshot(&[(1, "a")], "t1"));
    let prev = store.replace(snapshot(&[(2, "b")], "t2"));
    assert_eq!(prev.updated_at(), "t1");
    assert_eq!(prev.get(1).map(|r| r.name.as_str()), Some("a"));
}

#[test]
fn later_replace_supersedes_earlier() {
    let mut store = SnapshotStore::new(snapshot(&[], "t0"));
    store.replace(snapshot(&[(1, "m1")], "t1"));
    store.replace(snapshot(&[(1, "m2")], "t2"));
    for _ in 0..3 {
        let s = store.read();
        assert_eq!(s.updated_at(), "t2");
        assert_eq!(s.get(1).map(|r| r.name.as_str()), Some("m2"));
    }
}

#[test]
fn health_follows_the_store() {
    let mut store = SnapshotStore::new(snapshot(&[(1, "a")], "2024-01-01T00:00:00.000Z"));
    let h = health(&store);
    assert_eq!(h.status, "ok");
    assert_eq!(h.updated_at, "2024-01-01T00:00:00.000Z");
    store.replace(snapshot(&[(1, "a")], "2024-01-01T06:00:00.000Z"));
    let h = health(&store);
    assert_eq!(h.status, "ok");
    assert_eq!(h.updated_at, "2024-01-01T06:00:00.000Z");
}
