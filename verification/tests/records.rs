use yards::models::{DNSRecord, DNSRecordType, DNSZone};
use yards::zone::{DNSData, DNSDataWithSpacing, DNSOut, DNSOutWithSpacing, RecordWithSpacing, ZoneError, COLUMN_WIDTH};

fn record(key: &str, ttl: i32, recordtype: DNSRecordType) -> DNSRecord {
    DNSRecord {
        id: 1,
        zoneid: 2,
        key: key.to_string(),
        ttl,
        value: "192.0.2.1".to_string(),
        recordtype,
    }
}

fn zone(root: &str) -> DNSZone {
    DNSZone {
        id: 7,
        zonename: "example".to_string(),
        serverid: 1,
        dnsroot: root.to_string(),
        refresh: 3600,
        retry: 600,
        expire: 86400,
        nxdomain: 300,
        contact: "admin.example.com".to_string(),
        server: "ns1.example.com".to_string(),
    }
}

#[test]
fn record_type_names() {
    let all = [
        (DNSRecordType::A, "A"),
        (DNSRecordType::AAAA, "AAAA"),
        (DNSRecordType::NS, "NS"),
        (DNSRecordType::MX, "MX"),
        (DNSRecordType::CNAME, "CNAME"),
        (DNSRecordType::SOA, "SOA"),
        (DNSRecordType::SRV, "SRV"),
        (DNSRecordType::PTR, "PTR"),
        (DNSRecordType::TXT, "TXT"),
    ];
    for (t, name) in all {
        assert_eq!(t.as_str(), name);
        assert_eq!(t.to_string(), name);
        assert_eq!(t.len(), name.len());
    }
}

#[test]
fn record_type_len_values() {
    assert_eq!(DNSRecordType::A.len(), 1);
    assert_eq!(DNSRecordType::AAAA.len(), 4);
    assert_eq!(DNSRecordType::CNAME.len(), 5);
    assert_eq!(DNSRecordType::TXT.len(), 3);
}

#[test]
fn spacing_of_a_record() {
    let padded = RecordWithSpacing::new(record("www", 3600, DNSRecordType::A));
    assert_eq!(padded.key_ttl_spacing, " ".repeat(13));
    assert_eq!(padded.ttl_in_spacing, " ".repeat(13));
    assert_eq!(padded.recordtype_value_spacing, " ".repeat(15));
    assert_eq!(padded.record.key, "www");
    assert_eq!(padded.record.ttl, 3600);
}

#[test]
fn spacing_columns_line_up() {
    for (key, ttl, t) in [
        ("a", 1, DNSRecordType::CNAME),
        ("mail", 86400, DNSRecordType::MX),
        ("exactly16bytes..", 2147483647, DNSRecordType::AAAA),
        ("", 9, DNSRecordType::TXT),
    ] {
        let padded = RecordWithSpacing::new(record(key, ttl, t));
        assert_eq!(key.len() + padded.key_ttl_spacing.len(), COLUMN_WIDTH);
        assert_eq!(ttl.to_string().len() + padded.ttl_in_spacing.len(), COLUMN_WIDTH + 1);
        assert_eq!(t.as_str().len() + padded.recordtype_value_spacing.len(), COLUMN_WIDTH);
        assert!(padded.key_ttl_spacing.chars().all(|c| c == ' '));
    }
}

#[test]
fn spacing_counts_bytes_of_key() {
    // "é" takes two bytes in UTF-8
    let padded = RecordWithSpacing::new(record("café", 60, DNSRecordType::A));
    assert_eq!(padded.key_ttl_spacing.len(), 11);
}

#[test]
fn fits_columns_edges() {
    assert!(record("exactly16bytes..", 1, DNSRecordType::A).check_fits_columns());
    assert!(!record("seventeen-bytes..", 1, DNSRecordType::A).check_fits_columns());
    assert!(!record("www", 0, DNSRecordType::A).check_fits_columns());
    assert!(!record("www", -5, DNSRecordType::A).check_fits_columns());
    assert!(!record("ééééééééé", 1, DNSRecordType::A).check_fits_columns());
}

#[test]
fn zone_data_spacing_keeps_order() {
    let data = DNSData {
        root: Some(zone("example.com")),
        records: Some(vec![
            record("www", 300, DNSRecordType::A),
            record("mail", 3600, DNSRecordType::MX),
        ]),
    };
    assert!(data.check_can_space());
    let spaced = DNSDataWithSpacing::from(data);
    let records = spaced.records.as_ref().unwrap();
    assert_eq!(records.len(), 2);
    assert_eq!(records[0].record.key, "www");
    assert_eq!(records[1].record.key, "mail");
    assert_eq!(records[1].recordtype_value_spacing, " ".repeat(14));
    assert_eq!(spaced.root.as_ref().unwrap().dnsroot, "example.com");
}

#[test]
fn zone_data_check_rejects() {
    let none = DNSData { root: None, records: None };
    assert!(!none.check_can_space());
    let bad = DNSData {
        root: None,
        records: Some(vec![record("www", 300, DNSRecordType::A), record("x", 0, DNSRecordType::A)]),
    };
    assert!(!bad.check_can_space());
    let empty = DNSData { root: None, records: Some(vec![]) };
    assert!(empty.check_can_space());
}

#[test]
fn zone_file_name_from_root() {
    let spaced = DNSDataWithSpacing::from(DNSData { root: Some(zone("example.com")), records: Some(vec![]) });
    assert_eq!(spaced.zone_file_name(), Ok("example.com.db".to_string()));
    let rootless = DNSDataWithSpacing::from(DNSData { root: None, records: Some(vec![]) });
    assert_eq!(rootless.zone_file_name(), Err(ZoneError::RootNotFound));
}

#[test]
fn dns_out_spacing_keeps_mx_and_srv() {
    let mx = serde_json::from_str::<serde_json::Value>(r#"{"5": {"id": 5, "preference": 10}}"#).unwrap();
    let srv = serde_json::from_str::<serde_json::Value>(r#"{}"#).unwrap();
    let out = DNSOut {
        data: vec![
            DNSData { root: Some(zone("a.org")), records: Some(vec![record("www", 10, DNSRecordType::A)]) },
            DNSData { root: Some(zone("b.org")), records: Some(vec![]) },
        ],
        mx: mx.clone(),
        srv: srv.clone(),
    };
    assert!(out.check_can_space());
    let spaced = DNSOutWithSpacing::from(out);
    assert_eq!(spaced.mx, mx);
    assert_eq!(spaced.srv, srv);
    assert_eq!(spaced.data.len(), 2);
    assert_eq!(spaced.data[0].zone_file_name(), Ok("a.org.db".to_string()));
    assert_eq!(spaced.data[1].zone_file_name(), Ok("b.org.db".to_string()));
    assert_eq!(spaced.data[0].records.as_ref().unwrap()[0].ttl_in_spacing, " ".repeat(15));
}

#[test]
fn dns_out_check_rejects_bad_zone() {
    let out = DNSOut {
        data: vec![DNSData { root: None, records: None }],
        mx: serde_json::Value::Null,
        srv: serde_json::Value::Null,
    };
    assert!(!out.check_can_space());
}
