use spotifyctl::playback::Position;

#[test]
fn a_position_keeps_its_milliseconds() {
    assert_eq!(Position::zero().millis(), 0);
    assert_eq!(Position::from_millis(1_234).unwrap().millis(), 1_234);
    assert_eq!(Position::from_millis(-7).unwrap().millis(), -7);
    assert_eq!(Position::from_millis(i64::MAX).unwrap().millis(), i64::MAX);
    assert_eq!(Position::from_millis(-i64::MAX).unwrap().millis(), -i64::MAX);
}

#[test]
fn the_lowest_integer_is_no_position() {
    assert_eq!(Position::from_millis(i64::MIN), None);
}

#[test]
fn whole_seconds_round_towards_zero() {
    let seconds = |ms: i64| Position::from_millis(ms).unwrap().seconds();
    assert_eq!(seconds(0), 0);
    assert_eq!(seconds(999), 0);
    assert_eq!(seconds(1_000), 1);
    assert_eq!(seconds(10_000), 10);
    assert_eq!(seconds(14_999), 14);
    assert_eq!(seconds(-1), 0);
    assert_eq!(seconds(-999), 0);
    assert_eq!(seconds(-1_000), -1);
    assert_eq!(seconds(-1_500), -1);
    assert_eq!(seconds(-2_000), -2);
    assert_eq!(seconds(i64::MAX), 9_223_372_036_854_775);
    assert_eq!(seconds(-i64::MAX), -9_223_372_036_854_775);
}

#[test]
fn whole_seconds_agree_with_the_duration_type() {
    for ms in [0i64, 1, 999, 1_000, 59_999, -1, -1_001, 86_400_000, i64::MAX, -i64::MAX] {
        let expected = chrono::TimeDelta::milliseconds(ms).num_seconds();
        assert_eq!(Position::from_millis(ms).unwrap().seconds(), expected);
    }
}
