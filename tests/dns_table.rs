use cloudflare_dns_gui::cloudflare::{DNSRecord, Meta};
use cloudflare_dns_gui::dns_table::ZoneDnsTable;

fn record(id: &str) -> DNSRecord {
    DNSRecord {
        content: "2001:db8::1".to_string(),
        name: "www.example.com".to_string(),
        proxied: None,
        type_: "AAAA".to_string(),
        comment: Some("web".to_string()),
        created_on: "2014-01-01T05:20:00.12345Z".to_string(),
        id: id.to_string(),
        locked: false,
        meta: Meta { auto_added: None, source: Some("primary".to_string()) },
        modified_on: Some("2014-01-01T05:20:00.12345Z".to_string()),
        proxiable: false,
        tags: vec!["owner:dns-team".to_string()],
        ttl: 3600,
        zone_id: Some("z1".to_string()),
        zone_name: "example.com".to_string(),
    }
}

fn ids(table: &ZoneDnsTable) -> Vec<(String, Vec<String>)> {
    table
        .entries()
        .iter()
        .map(|(k, records)| (k.clone(), records.iter().map(|r| r.id.clone()).collect()))
        .collect()
}

#[test]
fn table_insert_keeps_first_insertion_order() {
    let mut table = ZoneDnsTable::new();
    table.insert("z2".to_string(), vec![record("a")]);
    table.insert("z1".to_string(), vec![record("b"), record("c")]);
    assert_eq!(
        ids(&table),
        vec![
            ("z2".to_string(), vec!["a".to_string()]),
            ("z1".to_string(), vec!["b".to_string(), "c".to_string()]),
        ]
    );
}

#[test]
fn table_insert_under_same_zone_replaces() {
    let mut table = ZoneDnsTable::new();
    table.insert("z1".to_string(), vec![record("a")]);
    table.insert("z2".to_string(), vec![record("b")]);
    table.insert("z1".to_string(), vec![]);
    assert_eq!(
        ids(&table),
        vec![("z1".to_string(), vec![]), ("z2".to_string(), vec!["b".to_string()])]
    );
}

#[test]
fn table_clear_empties_it() {
    let mut table = ZoneDnsTable::new();
    table.insert("z1".to_string(), vec![record("a")]);
    table.clear();
    assert!(table.entries().is_empty());
}
