use thermalai_daemon::json::{crash_count, enters_safe_mode};

#[test]
fn crash_marker_counts() {
    assert_eq!(crash_count(Some("{\"count\": 3}")), 3);
    assert_eq!(crash_count(Some("{\"count\": 4294967297}")), 1);
    assert_eq!(crash_count(Some("{\"count\": -1}")), 0);
    assert_eq!(crash_count(Some("{\"count\": \"2\"}")), 0);
    assert_eq!(crash_count(Some("[1, 2]")), 0);
    assert_eq!(crash_count(Some("not json")), 0);
    assert_eq!(crash_count(None), 0);
    assert!(enters_safe_mode(3, 3));
    assert!(!enters_safe_mode(2, 3));
}
