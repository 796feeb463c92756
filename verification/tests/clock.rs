use kaikei_voice::clock::{now_unix, unix_stamp};

#[test]
fn clock_stands_after_the_epoch() {
    let first = now_unix();
    assert!(first > 1_600_000_000);
    assert!(now_unix() - first < 10);
}

#[test]
fn stamp_is_the_seconds() {
    assert_eq!(unix_stamp(Some(0)), 0);
    assert_eq!(unix_stamp(Some(1_700_000_000)), 1_700_000_000);
    assert_eq!(unix_stamp(Some(i64::MAX as u64)), i64::MAX);
}

#[test]
fn stamp_wraps_beyond_63_bits() {
    assert_eq!(unix_stamp(Some(u64::MAX)), -1);
    assert_eq!(unix_stamp(Some(1 << 63)), i64::MIN);
}

#[test]
fn stamp_before_the_epoch_is_zero() {
    assert_eq!(unix_stamp(None), 0);
}
