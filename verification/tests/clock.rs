use scourgify::clock::{epoch_millis, read_clock};

#[test]
fn clock_readings_in_milliseconds() {
    assert_eq!(epoch_millis(None), 0);
    assert_eq!(epoch_millis(Some((2, 500_000_000))), 2_500);
    assert_eq!(epoch_millis(Some((1_700_000_000, 999_999_999))), 1_700_000_000_999);
    assert_eq!(epoch_millis(Some((u64::MAX, 0))), u64::MAX);
    let reading = read_clock().unwrap();
    assert!(reading.1 < 1_000_000_000);
    assert!(reading.0 > 1_600_000_000);
}
