use termfmt::clock::{read_clock, time_of_reading, ClockBeforeEpoch, TimeOfDay};

#[test]
fn midnight_is_all_zeros() {
    let t = TimeOfDay::from_millis(0);
    assert_eq!(t, TimeOfDay { hours: 0, minutes: 0, seconds: 0, millis: 0 });
    assert_eq!(t.to_text(), "[00:00:00.000]");
}

#[test]
fn last_millisecond_of_a_day() {
    let t = TimeOfDay::from_millis(86_399_999);
    assert_eq!(t, TimeOfDay { hours: 23, minutes: 59, seconds: 59, millis: 999 });
    assert_eq!(t.to_text(), "[23:59:59.999]");
}

#[test]
fn the_clock_starts_again_every_day() {
    assert_eq!(TimeOfDay::from_millis(86_400_000), TimeOfDay::from_millis(0));
    assert_eq!(TimeOfDay::from_millis(3 * 86_400_000 + 61_001), TimeOfDay::from_millis(61_001));
}

#[test]
fn time_of_day_of_a_known_instant() {
    let t = TimeOfDay::from_millis(1_700_000_000_123);
    assert_eq!(t, TimeOfDay { hours: 22, minutes: 13, seconds: 20, millis: 123 });
    assert_eq!(t.to_text(), "[22:13:20.123]");
}

#[test]
fn seconds_are_the_remainder_of_the_minute() {
    for second in 0..60u128 {
        let t = TimeOfDay::from_millis((7 * 3600 + 5 * 60 + second) * 1000 + 4);
        assert_eq!(t.hours, 7);
        assert_eq!(t.minutes, 5);
        assert_eq!(u128::from(t.seconds), second);
        assert_eq!(t.millis, 4);
    }
    assert_eq!(TimeOfDay::from_millis(59_000).to_text(), "[00:00:59.000]");
    assert_eq!(TimeOfDay::from_millis(3_000).to_text(), "[00:00:03.000]");
}

#[test]
fn time_of_day_of_the_largest_count() {
    let t = TimeOfDay::from_millis(u128::MAX);
    assert!(t.hours < 24 && t.minutes < 60 && t.seconds < 60 && t.millis < 1000);
    assert_eq!(u128::from(t.millis), u128::MAX % 1000);
    assert_eq!(u128::from(t.seconds), (u128::MAX / 1000) % 60);
}

#[test]
fn clock_text_pads_every_part() {
    let t = TimeOfDay { hours: 1, minutes: 2, seconds: 3, millis: 4 };
    assert_eq!(t.to_text(), "[01:02:03.004]");
    let t = TimeOfDay { hours: 10, minutes: 20, seconds: 30, millis: 40 };
    assert_eq!(t.to_text(), "[10:20:30.040]");
}

#[test]
fn clock_text_is_fourteen_characters_wide() {
    for millis in [0u128, 1, 999, 1000, 59_999, 3_599_999, 86_399_999, 1_700_000_000_123] {
        assert_eq!(TimeOfDay::from_millis(millis).to_text().chars().count(), 14);
    }
}

#[test]
fn the_system_clock_reads_as_a_time_of_day() {
    let t = read_clock().expect("the clock stands after the epoch");
    assert!(t.hours < 24);
    assert!(t.minutes < 60);
    assert!(t.seconds < 60);
    assert!(t.millis < 1000);
}

#[test]
fn every_count_of_milliseconds_gives_a_time() {
    assert_eq!(
        time_of_reading(Some(1_700_000_000_123)),
        Ok(TimeOfDay { hours: 22, minutes: 13, seconds: 20, millis: 123 })
    );
    assert_eq!(time_of_reading(Some(0)), Ok(TimeOfDay::from_millis(0)));
    assert!(time_of_reading(Some(u128::MAX)).is_ok());
}

#[test]
fn a_missing_count_gives_the_clock_error() {
    assert_eq!(time_of_reading(None), Err(ClockBeforeEpoch));
}
