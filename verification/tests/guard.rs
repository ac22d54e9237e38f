use script_supervisor::guard::{acquire_decision, parse_marker_pid};

#[test]
fn absent_marker_acquires() {
    // No marker file: there is no recorded pid at all.
    assert!(acquire_decision(None, false));
    assert!(acquire_decision(None, true));
}

#[test]
fn corrupt_marker_acquires() {
    assert_eq!(parse_marker_pid(""), None);
    assert_eq!(parse_marker_pid("not a pid"), None);
    assert_eq!(parse_marker_pid("12a4"), None);
    assert_eq!(parse_marker_pid("-5"), None);
    assert_eq!(parse_marker_pid("12 34"), None);
    assert!(acquire_decision(parse_marker_pid("not a pid"), true));
}

#[test]
fn overflowing_marker_acquires() {
    assert_eq!(parse_marker_pid("4294967296"), None);
    assert_eq!(parse_marker_pid("99999999999999999999"), None);
    assert_eq!(parse_marker_pid("4294967295"), Some(4294967295));
}

#[test]
fn marker_pid_is_parsed_with_surrounding_whitespace() {
    assert_eq!(parse_marker_pid(" 1234 \n"), Some(1234));
    assert_eq!(parse_marker_pid("1234"), Some(1234));
    assert_eq!(parse_marker_pid("+42"), Some(42));
    assert_eq!(parse_marker_pid("0"), Some(0));
}

#[test]
fn stale_marker_acquires() {
    assert!(acquire_decision(Some(1234), false));
}

#[test]
fn live_marker_refuses_acquisition() {
    assert!(!acquire_decision(Some(1234), true));
}
