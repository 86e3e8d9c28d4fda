use scanhub::scanners::{parse_device_line, parse_device_list, ScannerManager, REFRESH_TTL_MS};

fn pair(d: &scanhub::scanners::ScannerInfo) -> (String, String) {
    (d.name.clone(), d.description.clone())
}

#[test]
fn device_line_with_plain_quotes() {
    let d = parse_device_line("device 'pixma:04A91912_1234' is a CANON TS5000 multi-function peripheral").unwrap();
    assert_eq!(
        pair(&d),
        ("pixma:04A91912_1234".to_string(), "CANON TS5000 multi-function peripheral".to_string())
    );
}

#[test]
fn device_line_opened_with_backtick_is_ignored() {
    assert!(parse_device_line("device `net:1' is a Network scanner").is_none());
    assert!(parse_device_list("device `a' is a b\n").is_empty());
}

#[test]
fn device_line_match_need_not_start_the_line() {
    let d = parse_device_line("  device 'a' is a b").unwrap();
    assert_eq!(pair(&d), ("a".to_string(), "b".to_string()));
}

#[test]
fn other_lines_are_not_devices() {
    assert!(parse_device_line("").is_none());
    assert!(parse_device_line("No scanners were identified.").is_none());
    assert!(parse_device_line("device 'a' is b").is_none());
    assert!(parse_device_line("device 'abc").is_none());
}

#[test]
fn device_list_keeps_device_lines_in_order() {
    let out = "device 'a:1' is a First\r\nnoise\ndevice 'b:2' is a Second\n\ndevice 'c' is a Third";
    let v: Vec<_> = parse_device_list(out).iter().map(pair).collect();
    assert_eq!(
        v,
        vec![
            ("a:1".to_string(), "First".to_string()),
            ("b:2".to_string(), "Second".to_string()),
            ("c".to_string(), "Third".to_string()),
        ]
    );
    assert!(parse_device_list("").is_empty());
    assert!(parse_device_list("garbage\nmore garbage\n").is_empty());
}

#[test]
fn fresh_catalog_needs_a_fetch() {
    let m = ScannerManager::new(false);
    assert!(m.needs_device_listing());
    assert_eq!(m.last_refreshed(), 0);
    assert!(m.list_scanners(REFRESH_TTL_MS + 1).is_none());
}

#[test]
fn listing_is_cached_within_ttl_and_refetched_after() {
    let mut m = ScannerManager::new(false);
    let t = 1_000_000;
    let fetched = m.force_list_scanners("device 'a' is a A\n", t);
    assert_eq!(fetched.len(), 1);
    let first = m.list_scanners(t + 1000).unwrap();
    let second = m.list_scanners(t + REFRESH_TTL_MS).unwrap();
    assert_eq!(first.iter().map(pair).collect::<Vec<_>>(), second.iter().map(pair).collect::<Vec<_>>());
    assert_eq!(pair(&first[0]), ("a".to_string(), "A".to_string()));
    assert_eq!(m.staleness(t + 1000), 1000);
    assert!(m.list_scanners(t + REFRESH_TTL_MS + 1).is_none());
    m.force_list_scanners("", t + REFRESH_TTL_MS + 1);
    assert_eq!(m.list_scanners(t + REFRESH_TTL_MS + 2).unwrap().len(), 0);
    assert_eq!(m.last_refreshed(), t + REFRESH_TTL_MS + 1);
}

#[test]
fn mock_catalog_lists_one_device() {
    let mut m = ScannerManager::new(true);
    assert!(!m.needs_device_listing());
    let v = m.force_list_scanners("ignored", 5);
    assert_eq!(
        v.iter().map(pair).collect::<Vec<_>>(),
        vec![("mock:scanner".to_string(), "Mock Scanner for Development".to_string())]
    );
    assert_eq!(m.list_scanners(6).unwrap().len(), 1);
    assert_eq!(m.staleness(3), 0);
}
