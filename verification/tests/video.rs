use iced_video_player::{
    Acceleration, Decoded, Error, FrameRate, Halt, LoopAction, LoopPhase, Position, SeekTarget,
    StreamInfo, TimeBase, Timestamp, Video,
};
use std::time::Duration;

fn stream(duration: Option<i64>) -> StreamInfo {
    let timebase = TimeBase::new(1, 1000).unwrap();
    StreamInfo {
        width: 720,
        height: 405,
        framerate: FrameRate::new(30, 1).unwrap(),
        duration: Timestamp::new(duration, timebase),
        timebase,
    }
}

fn open() -> Video {
    Video::new(3, stream(Some(10_000)), vec![0; 24], 1_000).unwrap()
}

#[test]
fn acceleration_prefers_cuda_then_dxva2_then_software() {
    assert_eq!(Acceleration::select(true, true), Acceleration::Cuda);
    assert_eq!(Acceleration::select(true, false), Acceleration::Cuda);
    assert_eq!(Acceleration::select(false, true), Acceleration::Dxva2);
    assert_eq!(Acceleration::select(false, false), Acceleration::Software);
}

#[test]
fn a_new_video_reports_what_the_decoder_told() {
    let video = open();
    assert_eq!(video.id(), 3);
    assert_eq!(video.size(), (720, 405));
    assert_eq!(video.framerate(), FrameRate::new(30, 1).unwrap());
    assert_eq!(video.duration(), Duration::from_secs(10));
    assert_eq!(video.position(), Duration::ZERO);
    assert_eq!(video.next_redraw(), 1_000);
    assert!(!video.paused());
    assert!(!video.eos());
    assert!(video.error().is_none());
    assert_eq!(*video.shared().frame(), vec![0; 24]);
    assert_eq!(video.shared().phase(), LoopPhase::Decoding);
}

#[test]
fn a_source_without_a_duration_is_refused() {
    let refused = Video::new(0, stream(None), vec![0; 24], 0);
    assert!(matches!(refused, Err(Error::Unknown)));
}

#[test]
fn a_source_of_zero_length_is_accepted() {
    let video = Video::new(0, stream(Some(0)), vec![], 0).unwrap();
    assert_eq!(video.duration(), Duration::ZERO);
}

#[test]
fn the_duration_is_rounded_to_the_nearest_second() {
    let video = Video::new(0, stream(Some(10_499)), vec![], 0).unwrap();
    assert_eq!(video.duration(), Duration::from_secs(10));
    let video = Video::new(0, stream(Some(10_500)), vec![], 0).unwrap();
    assert_eq!(video.duration(), Duration::from_secs(11));
    let video = Video::new(0, stream(Some(-20)), vec![], 0).unwrap();
    assert_eq!(video.duration(), Duration::ZERO);
}

#[test]
fn pause_resume_and_toggle_set_the_flag_and_wake_the_loop() {
    let mut video = open();
    video.pause();
    assert!(video.paused());
    assert!(video.shared().wake_pending());
    video.shared_mut().on_wake();
    video.resume();
    assert!(!video.paused());
    assert!(video.shared().wake_pending());
    video.shared_mut().on_wake();
    video.toggle();
    assert!(video.paused());
    assert!(video.shared().wake_pending());
    video.toggle();
    assert!(!video.paused());
    video.set_paused(true);
    assert!(video.paused());
    video.set_paused(false);
    assert!(!video.paused());
}

#[test]
fn a_seek_takes_a_duration_a_frame_index_or_a_position() {
    let mut video = open();
    assert_eq!(
        video.seek(Duration::from_millis(2500).into()).unwrap(),
        SeekTarget::Millis(2500)
    );
    assert_eq!(video.seek(90i64.into()).unwrap(), SeekTarget::Frame(90));
    assert_eq!(
        video.seek(Position::Time(Duration::from_secs(1))).unwrap(),
        SeekTarget::Millis(1000)
    );
    assert_eq!(video.seek(Position::Frame(7)).unwrap(), SeekTarget::Frame(7));
    assert!(matches!(
        video.seek(Duration::MAX.into()),
        Err(Error::Conversion)
    ));
}

#[test]
fn a_seek_changes_nothing_of_the_video() {
    let mut video = open();
    video.shared_mut().next(Decoded::Frame { data: vec![1; 24], pts: Some(400) });
    let _ = video.seek(Duration::from_secs(5).into());
    assert_eq!(video.position(), Duration::from_millis(400));
    assert_eq!(*video.shared().frame(), vec![1; 24]);
    assert!(!video.paused());
    assert!(!video.shared().wake_pending());
    assert_eq!(video.next_redraw(), 1_000);
}

#[test]
fn the_position_follows_the_published_frame() {
    let mut video = open();
    assert_eq!(video.position(), Duration::ZERO);
    video.shared_mut().next(Decoded::Frame { data: vec![1; 24], pts: Some(33) });
    assert_eq!(video.position(), Duration::from_millis(33));
    video.shared_mut().next(Decoded::Frame { data: vec![2; 24], pts: Some(67) });
    assert_eq!(video.position(), Duration::from_millis(67));
    video.pause();
    assert_eq!(video.position(), Duration::from_millis(67));
}

#[test]
fn a_restart_after_the_end_plays_again() {
    let mut video = open();
    video.shared_mut().next(Decoded::EndOfStream);
    assert!(video.eos());
    assert!(video.paused());
    assert!(matches!(video.take_halt(), Some(Halt::EndOfStream)));
    assert!(video.restart_stream(Ok(())).is_ok());
    assert!(!video.paused());
    assert!(!video.eos());
    assert!(video.shared().wake_pending());
    video.shared_mut().on_wake();
    assert_eq!(video.shared_mut().poll(), LoopAction::Decode);
}

#[test]
fn a_restart_that_could_not_rewind_hands_the_failure_back() {
    let mut video = open();
    video.shared_mut().next(Decoded::EndOfStream);
    let failed = video.restart_stream(Err(Error::Io("connection reset".to_string())));
    assert!(matches!(failed, Err(Error::Io(detail)) if detail == "connection reset"));
    // Playback is resumed all the same, but the loop stays where it stopped.
    assert!(!video.paused());
    assert!(video.eos());
    video.shared_mut().on_wake();
    assert_eq!(video.shared_mut().poll(), LoopAction::Block);
    let failed = video.restart_stream(Err(Error::Concurrency));
    assert!(matches!(failed, Err(Error::Concurrency)));
    let failed = video.restart_stream(Err(Error::Uri));
    assert!(matches!(failed, Err(Error::Uri)));
}

#[test]
fn a_decode_failure_shows_on_the_video() {
    let mut video = open();
    video
        .shared_mut()
        .next(Decoded::Failed(Error::GenericVideo("invalid data".to_string())));
    assert!(matches!(video.error(), Some(Error::GenericVideo(detail)) if detail == "invalid data"));
    assert!(!video.eos());
    assert!(video.paused());
    assert!(matches!(
        video.take_halt(),
        Some(Halt::Failed(Error::GenericVideo(detail))) if detail == "invalid data"
    ));
    assert!(video.take_halt().is_none());
}

#[test]
fn closing_a_video_ends_its_loop() {
    let mut video = open();
    video.close();
    assert!(video.shared().is_closed());
    assert!(video.shared().wake_pending());
    assert_eq!(video.shared_mut().poll(), LoopAction::Exit);
}
