use asninfo::{
    csv_header, csv_row, export_simplified, in_export_order, AsInfoOut, AsInfoSimplified,
    ExportFormat, OrgRef,
};
use bgpkit_commons::asinfo::AsInfo;

fn record(asn: u32, name: &str, org: Option<(&str, &str)>) -> AsInfoOut {
    let inner = AsInfo {
        asn,
        name: name.to_string(),
        country: "JP".to_string(),
        as2org: None,
        population: None,
        hegemony: None,
        peeringdb: None,
        delegated: None,
        irr: vec![],
    };
    AsInfoOut {
        asn,
        name: name.to_string(),
        country: "JP".to_string(),
        as2org: org.map(|(id, n)| OrgRef { org_id: id.to_string(), org_name: n.to_string() }),
        country_name: "Japan".to_string(),
        inner,
    }
}

#[test]
fn format_from_path() {
    assert_eq!(ExportFormat::from_path("./asninfo.jsonl"), Some(ExportFormat::JSONL));
    assert_eq!(ExportFormat::from_path("out/asninfo.json"), Some(ExportFormat::JSON));
    assert_eq!(ExportFormat::from_path("asninfo.csv"), Some(ExportFormat::CSV));
    assert_eq!(ExportFormat::from_path("asninfo.jsonl.gz"), Some(ExportFormat::JSONL));
    assert_eq!(ExportFormat::from_path("a.csv.json"), Some(ExportFormat::CSV));
    assert_eq!(ExportFormat::from_path("asninfo.txt"), None);
    assert_eq!(ExportFormat::from_path(""), None);
    assert_eq!(ExportFormat::from_path(".jso"), None);
}

#[test]
fn format_names() {
    assert_eq!(ExportFormat::JSON.name(), "json");
    assert_eq!(ExportFormat::JSONL.name(), "jsonl");
    assert_eq!(ExportFormat::CSV.name(), "csv");
}

#[test]
fn csv_is_always_simplified() {
    assert!(export_simplified(false, ExportFormat::CSV));
    assert!(!export_simplified(false, ExportFormat::JSON));
    assert!(export_simplified(true, ExportFormat::JSONL));
}

#[test]
fn export_order_is_by_asn() {
    let out = in_export_order(vec![record(30, "c", None), record(2, "a", None), record(7, "b", None)]);
    let asns: Vec<u32> = out.iter().map(|r| r.asn).collect();
    assert_eq!(asns, vec![2, 7, 30]);
    assert!(in_export_order(vec![]).is_empty());
}

#[test]
fn csv_header_line() {
    assert_eq!(csv_header(), "asn,as_name,org_id,org_name,country_code,country_name,data_source");
}

#[test]
fn csv_row_quotes_fields_and_strips_quotes_from_names() {
    let s = AsInfoSimplified::from_record(&record(2497, "IIJ \"Internet\"", Some(("ORG-1", "Say \"hi\""))));
    assert_eq!(
        csv_row(&s),
        r#"2497,"IIJ Internet","ORG-1","Say hi","JP","Japan","""#
    );
    let s = AsInfoSimplified::from_record(&record(0, "", None));
    assert_eq!(csv_row(&s), r#"0,"","","","JP","Japan","""#);
    let s = AsInfoSimplified::from_record(&record(4294967295, "X", None));
    assert_eq!(csv_row(&s), r#"4294967295,"X","","","JP","Japan","""#);
}
