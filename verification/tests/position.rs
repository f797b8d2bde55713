use iced_video_player::Position;
use std::time::Duration;

#[test]
fn a_duration_becomes_a_time_position() {
    let position: Position = Duration::from_millis(1500).into();
    assert_eq!(position, Position::Time(Duration::from_millis(1500)));
    assert_eq!(Position::from(Duration::ZERO), Position::Time(Duration::ZERO));
}

#[test]
fn an_integer_becomes_a_frame_position() {
    let position: Position = 42i64.into();
    assert_eq!(position, Position::Frame(42));
    assert_eq!(Position::from(-1i64), Position::Frame(-1));
}

#[test]
fn positions_of_different_kinds_differ() {
    assert_ne!(Position::Time(Duration::from_secs(1)), Position::Frame(1));
    assert!(Position::Time(Duration::from_secs(1)) < Position::Time(Duration::from_secs(2)));
    assert!(Position::Frame(1) < Position::Frame(2));
}
