use oauth2_login_cli::clock::{get_unix_timestamp_plus_offset, timestamp_plus_offset};
use std::time::{SystemTime, UNIX_EPOCH};

#[test]
fn offset_is_added_to_the_time() {
    assert_eq!(timestamp_plus_offset(1_700_000_000, 3600), Some(1_700_003_600));
    assert_eq!(timestamp_plus_offset(100, 0), Some(100));
    assert_eq!(timestamp_plus_offset(0, 0), Some(0));
}

#[test]
fn negative_offset_goes_back_in_time() {
    assert_eq!(timestamp_plus_offset(100, -40), Some(60));
    assert_eq!(timestamp_plus_offset(100, -100), Some(0));
}

#[test]
fn time_before_the_epoch_cannot_be_told() {
    assert_eq!(timestamp_plus_offset(100, -101), None);
    assert_eq!(timestamp_plus_offset(0, i64::MIN), None);
}

#[test]
fn time_beyond_u64_cannot_be_told() {
    assert_eq!(timestamp_plus_offset(u64::MAX, 1), None);
    assert_eq!(timestamp_plus_offset(u64::MAX, 0), Some(u64::MAX));
    assert_eq!(timestamp_plus_offset(u64::MAX - 10, 10), Some(u64::MAX));
    assert_eq!(timestamp_plus_offset(u64::MAX, -1), Some(u64::MAX - 1));
}

fn seconds_now() -> u64 {
    SystemTime::now().duration_since(UNIX_EPOCH).unwrap().as_secs()
}

#[test]
fn clock_reading_is_the_present_time() {
    let before = seconds_now();
    let read = get_unix_timestamp_plus_offset(0).unwrap();
    let after = seconds_now();
    assert!(before <= read && read <= after);
}

#[test]
fn clock_reading_is_moved_by_the_offset() {
    let before = seconds_now();
    let later = get_unix_timestamp_plus_offset(3600).unwrap();
    let earlier = get_unix_timestamp_plus_offset(-3600).unwrap();
    let after = seconds_now();
    assert!(before + 3600 <= later && later <= after + 3600);
    assert!(before - 3600 <= earlier && earlier <= after - 3600);
}

#[test]
fn clock_reading_moved_before_the_epoch_is_none() {
    assert_eq!(get_unix_timestamp_plus_offset(i64::MIN), None);
}
