use iec104_simulator_backend::query_time::{parse_query_time, parse_query_time_to_cp56, validate_query_time_range};

#[test]
fn blank_query_times_are_absent() {
    assert_eq!(parse_query_time(None, "query_start_time").unwrap(), None);
    assert_eq!(parse_query_time(Some("   "), "query_start_time").unwrap(), None);
    assert_eq!(parse_query_time_to_cp56(Some(""), "f").unwrap().unwrap(), [0u8; 7]);
}

#[test]
fn rfc3339_times_are_read_in_utc() {
    assert_eq!(parse_query_time(Some(" 2024-01-01T08:00:00+08:00 "), "t").unwrap(), Some((1_704_067_200, 0)));
    assert_eq!(parse_query_time(Some("2024-01-01T00:00:00.5Z"), "t").unwrap(), Some((1_704_067_200, 500_000_000)));
    let e = parse_query_time(Some("yesterday"), "query_end_time").unwrap_err();
    assert!(e.starts_with("query_end_time 不是合法的 RFC3339 时间: "));
}

#[test]
fn query_times_become_time_tags() {
    let tag = parse_query_time_to_cp56(Some("2024-06-15T12:30:01.500Z"), "t").unwrap().unwrap();
    assert_eq!(tag, [0xDC, 0x05, 30, 12, 15 + 6 * 32, 6, 24]);
    assert!(parse_query_time_to_cp56(Some("1999-12-31T23:59:59Z"), "t").is_none());
    assert!(parse_query_time_to_cp56(Some("bad"), "t").unwrap().is_err());
}

#[test]
fn query_ranges_must_be_ordered() {
    assert!(validate_query_time_range(Some("2024-01-01T00:00:00Z"), Some("2024-01-02T00:00:00Z")).is_ok());
    assert!(validate_query_time_range(None, Some("2024-01-02T00:00:00Z")).is_ok());
    assert_eq!(
        validate_query_time_range(Some("2024-01-03T00:00:00Z"), Some("2024-01-02T00:00:00Z")).unwrap_err(),
        "query_start_time 不能晚于 query_end_time"
    );
    let e = validate_query_time_range(Some("x"), Some("y")).unwrap_err();
    assert!(e.starts_with("query_start_time 不是合法的 RFC3339 时间"));
    assert!(validate_query_time_range(Some("2024-01-01T00:00:00.2Z"), Some("2024-01-01T00:00:00.1Z")).is_err());
}
