use cpal_host::time::{Duration, StreamInstant};
use cpal_host::timing::{frames_to_duration, non_decreasing};

#[test]
fn durations_and_instants() {
    let d = Duration::new(2, 5);
    assert_eq!(d.as_nanos(), 2_000_000_005);
    assert_eq!((d.as_secs(), d.subsec_nanos()), (2, 5));
    assert_eq!(Duration::from_micros(3).as_nanos(), 3_000);
    assert_eq!(Duration::from_millis(3).as_nanos(), 3_000_000);
    assert_eq!(Duration::from_secs(3).as_nanos(), 3_000_000_000);
    assert_eq!(d.checked_add(Duration::from_nanos(10)).unwrap().as_nanos(), 2_000_000_015);
    let max = Duration::new(u64::MAX, 999_999_999);
    assert_eq!(max.checked_add(Duration::from_nanos(1)), None);
    let i = StreamInstant::new(1, 0);
    assert_eq!(i.add(Duration::from_millis(1)).as_nanos(), 1_001_000_000);
    assert_eq!(i.checked_sub(Duration::from_secs(2)), None);
    assert_eq!(i.checked_sub(Duration::from_millis(500)).unwrap().as_nanos(), 500_000_000);
    assert_eq!(StreamInstant::new(u64::MAX, 999_999_999).checked_add(Duration::from_nanos(1)), None);
    assert_eq!(i.max(StreamInstant::zero()), i);
    assert!(i.is_after(&StreamInstant::from_micros(999_999)));
    assert!(!i.is_after(&i));
}

#[test]
fn frame_durations_round_to_the_nearest_nanosecond() {
    assert_eq!(frames_to_duration(48_000, 48_000).as_nanos(), 1_000_000_000);
    assert_eq!(frames_to_duration(441, 44_100).as_nanos(), 10_000_000);
    // One frame at 44.1 kHz is 22675.73 ns, which rounds up.
    assert_eq!(frames_to_duration(1, 44_100).as_nanos(), 22_676);
    assert_eq!(frames_to_duration(100, 0).as_nanos(), 0);
    assert_eq!(frames_to_duration(u32::MAX, 1).as_nanos(), u32::MAX as u128 * 1_000_000_000);
    let mut last = 0;
    for f in 0..2000u32 {
        let n = frames_to_duration(f, 44_100).as_nanos();
        assert!(n >= last);
        last = n;
    }
}

#[test]
fn timestamps_never_move_backwards() {
    let mut floor = 0u64;
    assert_eq!(non_decreasing(&mut floor, StreamInstant::from_nanos(100)).as_nanos(), 100);
    assert_eq!(non_decreasing(&mut floor, StreamInstant::from_nanos(50)).as_nanos(), 100);
    assert_eq!(non_decreasing(&mut floor, StreamInstant::from_nanos(150)).as_nanos(), 150);
    assert_eq!(floor, 150);
    assert_eq!(non_decreasing(&mut floor, StreamInstant::new(u64::MAX, 0)).as_nanos(), u64::MAX as u128);
}
