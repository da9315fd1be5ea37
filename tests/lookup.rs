use asninfo::{
    lookup, lookup_by_body, lookup_by_query, AsInfoOut, LookupData, LookupError, OrgRef, Snapshot,
};
use bgpkit_commons::asinfo::AsInfo;

fn record(asn: u32, name: &str) -> AsInfoOut {
    let inner = AsInfo {
        asn,
        name: name.to_string(),
        country: "US".to_string(),
        as2org: None,
        population: None,
        hegemony: None,
        peeringdb: None,
        delegated: None,
        irr: vec![],
    };
    AsInfoOut {
        asn,
        name: name.to_string(),
        country: "US".to_string(),
        as2org: Some(OrgRef { org_id: format!("ORG-{asn}"), org_name: format!("{name} Inc") }),
        country_name: "United States".to_string(),
        inner,
    }
}

fn snapshot_ab() -> Snapshot {
    Snapshot::from_records(
        vec![record(1, "RecordA"), record(2, "RecordB")],
        "2024-05-01T00:00:00.000Z".to_string(),
    )
}

fn names(v: &[AsInfoOut]) -> Vec<&str> {
    v.iter().map(|r| r.name.as_str()).collect()
}

#[test]
fn query_with_empty_text_is_invalid() {
    let snap = snapshot_ab();
    assert!(matches!(
        lookup_by_query(&snap, Some(""), false, 100),
        Err(LookupError::InvalidRequest)
    ));
    assert!(matches!(lookup_by_query(&snap, None, true, 100), Err(LookupError::InvalidRequest)));
}

#[test]
fn query_without_numbers_is_invalid() {
    let snap = snapshot_ab();
    assert!(matches!(
        lookup_by_query(&snap, Some("abc,def"), false, 100),
        Err(LookupError::InvalidRequest)
    ));
    assert!(matches!(
        lookup_by_query(&snap, Some("abc,def"), true, 100),
        Err(LookupError::InvalidRequest)
    ));
}

#[test]
fn query_over_the_maximum_is_too_large() {
    let snap = snapshot_ab();
    let list: Vec<String> = (1..=101).map(|n: u32| n.to_string()).collect();
    let text = list.join(",");
    assert!(matches!(
        lookup_by_query(&snap, Some(&text), false, 100),
        Err(LookupError::PayloadTooLarge)
    ));
    let hundred = list[..100].join(",");
    let resp = lookup_by_query(&snap, Some(&hundred), false, 100).ok().unwrap();
    assert_eq!(resp.count, 2);
    assert_eq!(resp.page_size, 100);
}

#[test]
fn lookup_drops_missing_asns() {
    let snap = snapshot_ab();
    let found = lookup(&snap, &vec![1, 2, 3]);
    assert_eq!(names(&found), vec!["RecordA", "RecordB"]);
}

#[test]
fn lookup_keeps_repeated_asns() {
    let snap = snapshot_ab();
    let found = lookup(&snap, &vec![1, 1]);
    assert_eq!(names(&found), vec!["RecordA", "RecordA"]);
    let found = lookup(&snap, &vec![2, 1, 2]);
    assert_eq!(names(&found), vec!["RecordB", "RecordA", "RecordB"]);
}

#[test]
fn lookup_of_absent_asns_is_empty_not_an_error() {
    let snap = snapshot_ab();
    let resp = lookup_by_body(&snap, &vec![7, 8], false, 100).ok().unwrap();
    assert_eq!(resp.count, 0);
    match resp.data {
        LookupData::Canonical(v) => assert!(v.is_empty()),
        LookupData::Legacy(_) => panic!("expected the canonical shape"),
    }
}

#[test]
fn query_response_envelope() {
    let snap = snapshot_ab();
    let resp = lookup_by_query(&snap, Some("1, 2,3,x"), false, 100).ok().unwrap();
    assert_eq!(resp.count, 2);
    assert_eq!(resp.page, 0);
    assert_eq!(resp.page_size, 3);
    assert_eq!(resp.updated_at, "2024-05-01T00:00:00.000Z");
    match resp.data {
        LookupData::Canonical(v) => assert_eq!(names(&v), vec!["RecordA", "RecordB"]),
        LookupData::Legacy(_) => panic!("expected the canonical shape"),
    }
}

#[test]
fn query_legacy_shape() {
    let snap = snapshot_ab();
    let resp = lookup_by_query(&snap, Some("2"), true, 100).ok().unwrap();
    match resp.data {
        LookupData::Legacy(v) => {
            assert_eq!(v.len(), 1);
            assert_eq!(v[0].asn, 2);
            assert_eq!(v[0].as_name, "RecordB");
            assert_eq!(v[0].org_id, "ORG-2");
            assert_eq!(v[0].org_name, "RecordB Inc");
            assert_eq!(v[0].country_code, "US");
            assert_eq!(v[0].country_name, "United States");
            assert_eq!(v[0].data_source, "");
        }
        LookupData::Canonical(_) => panic!("expected the legacy shape"),
    }
}

#[test]
fn body_validation() {
    let snap = snapshot_ab();
    assert!(matches!(
        lookup_by_body(&snap, &vec![], false, 100),
        Err(LookupError::InvalidRequest)
    ));
    assert!(matches!(
        lookup_by_body(&snap, &vec![1, 2, 3], false, 2),
        Err(LookupError::PayloadTooLarge)
    ));
    assert!(matches!(
        lookup_by_body(&snap, &vec![1], false, 0),
        Err(LookupError::PayloadTooLarge)
    ));
    let resp = lookup_by_body(&snap, &vec![1, 1], true, 2).ok().unwrap();
    assert_eq!(resp.count, 2);
    match resp.data {
        LookupData::Legacy(v) => assert_eq!(v[1].as_name, "RecordA"),
        LookupData::Canonical(_) => panic!("expected the legacy shape"),
    }
}

#[test]
fn error_status_codes() {
    assert_eq!(LookupError::InvalidRequest.status_code(), 400);
    assert_eq!(LookupError::PayloadTooLarge.status_code(), 413);
}
