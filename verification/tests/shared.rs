use iced_video_player::{
    Decoded, Error, LoopPhase, Position, SeekTarget, Shared, TimeBase, Timestamp,
};
use std::time::Duration;

fn millis() -> TimeBase {
    TimeBase::new(1, 1000).unwrap()
}

fn frame(fill: u8, pts: i64) -> Decoded {
    Decoded::Frame { data: vec![fill; 16], pts: Some(pts) }
}

#[test]
fn a_new_state_shows_the_first_frame_and_plays() {
    let shared = Shared::new(vec![7; 16], millis());
    assert_eq!(*shared.frame(), vec![7; 16]);
    assert_eq!(shared.timestamp(), Timestamp::new(None, millis()));
    assert_eq!(shared.position(), Duration::ZERO);
    assert!(!shared.is_paused());
    assert!(!shared.wake_pending());
    assert!(!shared.is_closed());
    assert!(!shared.eos());
    assert!(shared.error().is_none());
    assert_eq!(shared.phase(), LoopPhase::Decoding);
}

#[test]
fn the_first_frame_is_ready_once() {
    let mut shared = Shared::new(vec![7; 16], millis());
    assert!(shared.take_ready());
    assert!(!shared.take_ready());
    assert!(!shared.take_ready());
    assert_eq!(*shared.frame(), vec![7; 16]);
}

#[test]
fn a_published_frame_replaces_frame_and_time_together() {
    let mut shared = Shared::new(vec![0; 16], millis());
    assert!(shared.take_ready());
    assert_eq!(shared.next(frame(1, 40)), LoopPhase::Decoding);
    let (bytes, time) = shared.snapshot();
    assert_eq!(*bytes, vec![1; 16]);
    assert_eq!(time, Timestamp::new(Some(40), millis()));
    assert_eq!(shared.position(), Duration::from_millis(40));
    assert!(shared.take_ready());
    assert!(!shared.take_ready());
}

#[test]
fn single_slot_freshness_keeps_only_the_last_of_many_frames() {
    let mut shared = Shared::new(vec![0; 16], millis());
    assert!(shared.take_ready());
    for n in 1..=25u8 {
        shared.next(frame(n, 40 * n as i64));
    }
    assert!(shared.take_ready());
    let (bytes, time) = shared.snapshot();
    assert_eq!(*bytes, vec![25; 16]);
    assert_eq!(time, Timestamp::new(Some(1000), millis()));
    assert_eq!(shared.position(), Duration::from_secs(1));
    assert!(!shared.take_ready());
    let (bytes, time) = shared.snapshot();
    assert_eq!(*bytes, vec![25; 16]);
    assert_eq!(time, Timestamp::new(Some(1000), millis()));
}

#[test]
fn a_frame_without_a_time_shows_at_position_zero() {
    let mut shared = Shared::new(vec![0; 4], millis());
    shared.next(frame(1, 900));
    shared.next(Decoded::Frame { data: vec![2; 4], pts: None });
    assert_eq!(*shared.frame(), vec![2; 4]);
    assert_eq!(shared.timestamp(), Timestamp::new(None, millis()));
    assert_eq!(shared.position(), Duration::ZERO);
}

#[test]
fn the_frame_handed_out_is_not_changed_by_a_later_publish() {
    let mut shared = Shared::new(vec![1; 4], millis());
    let held = shared.frame();
    shared.next(frame(2, 10));
    assert_eq!(*held, vec![1; 4]);
    assert_eq!(*shared.frame(), vec![2; 16]);
}

#[test]
fn set_paused_stores_the_flag_and_leaves_one_wake_signal() {
    let mut shared = Shared::new(vec![], millis());
    shared.set_paused(true);
    assert!(shared.is_paused());
    assert!(shared.wake_pending());
    shared.set_paused(true);
    shared.set_paused(true);
    assert!(shared.wake_pending());
    shared.on_wake();
    assert!(!shared.wake_pending());
    assert!(shared.is_paused());
    shared.set_paused(false);
    assert!(!shared.is_paused());
    assert!(shared.wake_pending());
}

#[test]
fn pausing_touches_neither_the_frame_nor_the_ready_flag() {
    let mut shared = Shared::new(vec![3; 8], millis());
    shared.next(frame(4, 120));
    shared.set_paused(true);
    assert_eq!(*shared.frame(), vec![4; 16]);
    assert_eq!(shared.position(), Duration::from_millis(120));
    assert!(shared.take_ready());
}

#[test]
fn a_seek_by_time_asks_for_whole_milliseconds() {
    let shared = Shared::new(vec![], millis());
    assert_eq!(
        shared.seek(Position::Time(Duration::from_secs(5))).unwrap(),
        SeekTarget::Millis(5000)
    );
    assert_eq!(
        shared.seek(Position::Time(Duration::new(1, 999_999_999))).unwrap(),
        SeekTarget::Millis(1999)
    );
    assert_eq!(
        shared.seek(Position::Time(Duration::from_nanos(999_999))).unwrap(),
        SeekTarget::Millis(0)
    );
    assert_eq!(
        shared.seek(Position::Time(Duration::ZERO)).unwrap(),
        SeekTarget::Millis(0)
    );
}

#[test]
fn a_seek_by_frame_asks_for_that_frame() {
    let shared = Shared::new(vec![], millis());
    assert_eq!(shared.seek(Position::Frame(42)).unwrap(), SeekTarget::Frame(42));
    assert_eq!(shared.seek(Position::Frame(0)).unwrap(), SeekTarget::Frame(0));
    assert_eq!(shared.seek(Position::Frame(-3)).unwrap(), SeekTarget::Frame(-3));
    assert_eq!(
        shared.seek(Position::Frame(i64::MAX)).unwrap(),
        SeekTarget::Frame(i64::MAX)
    );
}

#[test]
fn a_seek_past_the_millisecond_range_is_a_conversion_error() {
    let shared = Shared::new(vec![], millis());
    let last = Duration::from_millis(i64::MAX as u64);
    assert_eq!(
        shared.seek(Position::Time(last)).unwrap(),
        SeekTarget::Millis(i64::MAX)
    );
    let beyond = Duration::from_millis(i64::MAX as u64 + 1);
    assert!(matches!(
        shared.seek(Position::Time(beyond)),
        Err(Error::Conversion)
    ));
    assert!(matches!(
        shared.seek(Position::Time(Duration::MAX)),
        Err(Error::Conversion)
    ));
}

#[test]
fn a_seek_leaves_the_frame_on_show() {
    let mut shared = Shared::new(vec![9; 4], millis());
    shared.next(frame(5, 300));
    assert!(shared.take_ready());
    let _ = shared.seek(Position::Time(Duration::from_secs(2)));
    let _ = shared.seek(Position::Frame(7));
    assert_eq!(*shared.frame(), vec![5; 16]);
    assert_eq!(shared.position(), Duration::from_millis(300));
    assert!(!shared.take_ready());
    assert!(!shared.wake_pending());
    assert_eq!(shared.phase(), LoopPhase::Decoding);
}
