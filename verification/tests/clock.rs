use outage_reports::utils::{epoch_ms, timestamp};

#[test]
fn clock_before_the_epoch_reads_as_zero() {
    assert_eq!(timestamp(None), 0);
}

#[test]
fn timestamp_is_the_milliseconds() {
    assert_eq!(timestamp(Some(0)), 0);
    assert_eq!(timestamp(Some(1_730_000_000_000)), 1_730_000_000_000);
    assert_eq!(timestamp(Some(u64::MAX as u128)), u64::MAX);
}

#[test]
fn timestamp_keeps_the_lowest_64_bits() {
    assert_eq!(timestamp(Some(u64::MAX as u128 + 1)), 0);
    assert_eq!(timestamp(Some((1u128 << 64) + 5)), 5);
    assert_eq!(timestamp(Some(u128::MAX)), u64::MAX);
}

#[test]
fn system_clock_reads_milliseconds_of_this_century() {
    let first = epoch_ms();
    let reference = std::time::SystemTime::now()
        .duration_since(std::time::UNIX_EPOCH)
        .unwrap()
        .as_millis() as u64;
    assert!(first > 1_600_000_000_000);
    assert!(first < 4_102_444_800_000);
    assert!(reference >= first);
    assert!(reference - first < 60_000);
}
