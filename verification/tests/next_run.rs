use szmer::time::parse_next_run_timestamp;

#[test]
fn test_parse_next_run_timestamp_valid() {
    let output = "NextElapseUSecRealtime=1700000000000000\n";
    let result = parse_next_run_timestamp(output);
    assert!(result.is_some());
    // 1,700,000,000,000,000 microseconds is exactly 1,700,000,000 s.
    assert_eq!(result.unwrap().secs, 1_700_000_000);
}

#[test]
fn test_parse_next_run_timestamp_invalid() {
    let output = "NextElapseUSecRealtime=invalid\n";
    let result = parse_next_run_timestamp(output);
    assert!(result.is_none());
}

#[test]
fn test_parse_next_run_timestamp_missing_prefix() {
    let output = "SomeOtherValue=1234567890000000\n";
    let result = parse_next_run_timestamp(output);
    assert!(result.is_none());
}

#[test]
fn test_parse_next_run_timestamp_empty() {
    let output = "";
    let result = parse_next_run_timestamp(output);
    assert!(result.is_none());
}

#[test]
fn parse_next_run_timestamp_sub_second_part() {
    let result = parse_next_run_timestamp("NextElapseUSecRealtime=1700000000123456\n");
    let ts = result.unwrap();
    assert_eq!(ts.secs, 1_700_000_000);
    assert_eq!(ts.nanos, 123_456_000);
}

#[test]
fn parse_next_run_timestamp_value_only_prefix() {
    assert!(parse_next_run_timestamp("NextElapseUSecRealtime=").is_none());
    assert!(parse_next_run_timestamp("NextElapseUSecRealtime=\n").is_none());
}
