use szmer::errors::Error;
use szmer::timestamp::get_last_notification;

#[test]
fn reads_the_only_recorded_timestamp() {
    let r = get_last_notification("1700000000\n").unwrap();
    assert_eq!(r.unwrap().secs, 1_700_000_000);
}

#[test]
fn reads_the_last_of_several_timestamps() {
    let r = get_last_notification("1700000000\n1700001000\n1700002000\n").unwrap();
    assert_eq!(r.unwrap().secs, 1_700_002_000);
}

#[test]
fn an_empty_log_holds_no_timestamp() {
    assert_eq!(get_last_notification(""), Ok(None));
}

#[test]
fn a_missing_final_newline_is_tolerated() {
    let r = get_last_notification("1700000000\n1700001000").unwrap();
    assert_eq!(r.unwrap().secs, 1_700_001_000);
}

#[test]
fn a_garbage_final_line_is_an_error() {
    assert_eq!(get_last_notification("not-a-number\n"), Err(Error::InvalidTimestamp));
    assert_eq!(get_last_notification("1700000000\nlater\n"), Err(Error::InvalidTimestamp));
    assert_eq!(get_last_notification("\n"), Err(Error::InvalidTimestamp));
}

#[test]
fn surrounding_whitespace_on_the_line_is_trimmed() {
    let r = get_last_notification("  1700000000  \n").unwrap();
    assert_eq!(r.unwrap().secs, 1_700_000_000);
}
