use szmer::time::{format_interval, format_time_until, pluralize_unit};

#[test]
fn test_format_interval_minutes_only() {
    assert_eq!(format_interval(60), "1 minute");
    assert_eq!(format_interval(120), "2 minutes");
    assert_eq!(format_interval(1800), "30 minutes");
}

#[test]
fn test_format_interval_hours_only() {
    assert_eq!(format_interval(3600), "1 hour");
    assert_eq!(format_interval(7200), "2 hours");
    assert_eq!(format_interval(10800), "3 hours");
}

#[test]
fn test_format_interval_hours_and_minutes() {
    assert_eq!(format_interval(3660), "1 hour 1 minute");
    assert_eq!(format_interval(3720), "1 hour 2 minutes");
    assert_eq!(format_interval(7260), "2 hours 1 minute");
    assert_eq!(format_interval(7320), "2 hours 2 minutes");
}

#[test]
fn test_format_interval_zero_edge_case() {
    assert_eq!(format_interval(0), "0 minutes");
}

#[test]
fn test_pluralize_unit_minutes() {
    assert_eq!(pluralize_unit(" minute", 0), " minutes");
    assert_eq!(pluralize_unit(" minute", 1), " minute");
    assert_eq!(pluralize_unit(" minute", 2), " minutes");
    assert_eq!(pluralize_unit(" minute", 100), " minutes");
}

#[test]
fn test_pluralize_unit_hours() {
    assert_eq!(pluralize_unit(" hour", 0), " hours");
    assert_eq!(pluralize_unit(" hour", 1), " hour");
    assert_eq!(pluralize_unit(" hour", 2), " hours");
    assert_eq!(pluralize_unit(" hour", 24), " hours");
}

#[test]
fn test_pluralize_unit_unknown() {
    assert_eq!(pluralize_unit("unknown", 1), "");
    assert_eq!(pluralize_unit("unknown", 2), "s");
}

#[test]
fn test_format_time_until_minutes() {
    // Five minutes from now.
    let result = format_time_until(5 * 60);
    assert!(result.starts_with("in "));
    assert!(result.contains("minute"));
}

#[test]
fn test_format_time_until_hours_and_minutes() {
    // Two and a half hours from now.
    let result = format_time_until(2 * 3600 + 30 * 60);
    assert!(result.starts_with("in "));
    assert!(result.contains("hour"));
    assert!(result.contains("minute"));
}

#[test]
fn test_format_time_until_very_soon() {
    // Thirty seconds from now.
    let result = format_time_until(30);
    assert_eq!(result, "very soon");
}

#[test]
fn test_format_time_until_past() {
    // Ten minutes ago.
    let result = format_time_until(-10 * 60);
    assert_eq!(result, "very soon");
}

#[test]
fn format_time_until_exact_values() {
    assert_eq!(format_time_until(5 * 60), "in 5 minutes");
    assert_eq!(format_time_until(60), "in 1 minute");
    assert_eq!(format_time_until(2 * 3600 + 30 * 60), "in 2 hours 30 minutes");
    assert_eq!(format_time_until(3600), "in 1 hour 0 minutes");
    assert_eq!(format_time_until(0), "very soon");
    assert_eq!(format_time_until(59), "very soon");
}

#[test]
fn format_interval_drops_partial_minutes() {
    assert_eq!(format_interval(59), "0 minutes");
    assert_eq!(format_interval(61), "1 minute");
    assert_eq!(format_interval(3599), "59 minutes");
}
