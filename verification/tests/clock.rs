use openvhost_commands::clock::{millis_stamp, now_ms};

#[test]
fn a_stamp_is_the_millisecond_count_or_zero_before_the_epoch() {
    assert_eq!(millis_stamp(None), 0);
    assert_eq!(millis_stamp(Some(1_700_000_000_123)), 1_700_000_000_123);
    assert_eq!(millis_stamp(Some((1u128 << 64) + 5)), 5);
}

#[test]
fn the_clock_reads_after_the_epoch() {
    let a = now_ms();
    let b = now_ms();
    assert!(a > 1_600_000_000_000 && b >= a);
}
