use voiceclip::session::{
    current_timestamp, latency_from_millis, session_duration, timestamp_from_reading,
};

#[test]
fn duration_is_the_difference_of_the_readings() {
    assert_eq!(session_duration(1000, 1012), 12);
    assert_eq!(session_duration(0, 0), 0);
    assert_eq!(session_duration(-5, 5), 10);
    assert_eq!(session_duration(0, u32::MAX as i64), u32::MAX);
}

#[test]
fn duration_wraps_modulo_two_to_the_32() {
    assert_eq!(session_duration(0, 1 << 32), 0);
    assert_eq!(session_duration(0, (1 << 32) + 7), 7);
    assert_eq!(session_duration(10, 9), u32::MAX);
    assert_eq!(session_duration(1 << 32, 0), 0);
    assert_eq!(session_duration(i64::MIN, i64::MAX), u32::MAX);
    assert_eq!(session_duration(i64::MAX, i64::MIN), 1);
    for (start, now) in [(3i64, 100i64), (100, 3), (-7, 1 << 40), (1 << 40, -7)] {
        assert_eq!(session_duration(start, now), now.wrapping_sub(start) as u32);
    }
}

#[test]
fn latency_keeps_the_low_32_bits() {
    assert_eq!(latency_from_millis(0), 0);
    assert_eq!(latency_from_millis(1234), 1234);
    assert_eq!(latency_from_millis(u32::MAX as u128), u32::MAX);
    assert_eq!(latency_from_millis(1 << 32), 0);
    assert_eq!(latency_from_millis(u128::MAX), u128::MAX as u32);
}

#[test]
fn timestamp_of_a_reading() {
    assert_eq!(timestamp_from_reading(None), 0);
    assert_eq!(timestamp_from_reading(Some(0)), 0);
    assert_eq!(timestamp_from_reading(Some(1_700_000_000)), 1_700_000_000);
    assert_eq!(timestamp_from_reading(Some(i64::MAX as u64)), i64::MAX);
    assert_eq!(timestamp_from_reading(Some(i64::MAX as u64 + 1)), i64::MIN);
    assert_eq!(timestamp_from_reading(Some(u64::MAX)), -1);
}

#[test]
fn current_timestamp_is_after_2020() {
    let now = current_timestamp();
    assert!(now > 1_577_836_800);
    let later = current_timestamp();
    assert!(later >= now);
}
