use crate::error::Error;
use crate::position::Position;
use crate::shared::{seek_target, Halt, SeekTarget, Shared, SharedState};
use crate::time::{
    clamp_to_duration, duration_nanos, rounded_seconds, FrameRate, TimeBase, Timestamp,
    NANOS_PER_SEC,
};
use std::time::Duration;
use vstd::prelude::*;

verus! {

/// The longest edge, in pixels, to which decoded frames are fitted.
pub const FRAME_FIT: u32 = 720;

/// How frames are decoded.
#[derive(Debug, Clone, Copy, PartialEq, Eq, Structural)]
pub enum Acceleration {
    Cuda,
    Dxva2,
    /// No hardware acceleration: playback might not be real time.
    Software,
}

impl Acceleration {
    /// The acceleration to open a decoder with: CUDA where the machine has it,
    /// else DXVA2 where the machine has that, else none.
    pub fn select(cuda_available: bool, dxva2_available: bool) -> (choice: Acceleration)
        ensures
            choice == if cuda_available {
                Acceleration::Cuda
            } else if dxva2_available {
                Acceleration::Dxva2
            } else {
                Acceleration::Software
            },
    {
        if cuda_available {
            Acceleration::Cuda
        } else if dxva2_available {
            Acceleration::Dxva2
        } else {
            Acceleration::Software
        }
    }
}

/// What a decoder tells of a stream when it is opened.
#[derive(Debug, Clone, Copy)]
pub struct StreamInfo {
    /// Width of a frame after fitting, in pixels.
    pub width: u32,
    /// Height of a frame after fitting, in pixels.
    pub height: u32,
    /// Frames per second.
    pub framerate: FrameRate,
    /// Length of the stream. A live source has none.
    pub duration: Timestamp,
    /// The unit of the presentation times of the stream's frames.
    pub timebase: TimeBase,
}

/// A [`Video`] as a mathematical value.
pub struct VideoState {
    pub id: u64,
    pub width: u32,
    pub height: u32,
    pub framerate: FrameRate,
    pub duration: Timestamp,
    pub timebase: TimeBase,
    pub shared: SharedState,
    /// The deadline of the next scheduled redraw, in nanoseconds of the host's
    /// clock.
    pub next_redraw: u64,
}

/// What a [`Video`] holds: what the decoder told of the stream, the playback
/// state, and the display's bookkeeping.
#[derive(Debug)]
pub(crate) struct Internal {
    pub(crate) id: u64,
    pub(crate) width: u32,
    pub(crate) height: u32,
    pub(crate) framerate: FrameRate,
    pub(crate) duration: Timestamp,
    pub(crate) timebase: TimeBase,
    pub(crate) shared: Shared,
    pub(crate) next_redraw: u64,
}

impl Internal {
    pub(crate) open spec fn state(self) -> VideoState {
        VideoState {
            id: self.id,
            width: self.width,
            height: self.height,
            framerate: self.framerate,
            duration: self.duration,
            timebase: self.timebase,
            shared: self.shared@,
            next_redraw: self.next_redraw,
        }
    }

    pub(crate) fn seek(&mut self, position: Position) -> (target: Result<SeekTarget, Error>)
        ensures
            final(self).state() == old(self).state(),
            target == seek_target(position),
    {
        self.shared.seek(position)
    }

    pub(crate) fn restart_stream(&mut self, rewound: Result<(), Error>) -> (done: Result<
        (),
        Error,
    >)
        ensures
            done == rewound,
            final(self).state() == (VideoState {
                shared: if rewound.is_ok() {
                    old(self).state().shared.rewind().set_paused(false)
                } else {
                    old(self).state().shared.set_paused(false)
                },
                ..old(self).state()
            }),
    {
        if rewound.is_ok() {
            self.shared.rewind();
        }
        self.set_paused(false);
        rewound
    }

    pub(crate) fn set_paused(&mut self, paused: bool)
        ensures
            final(self).state() == (VideoState {
                shared: old(self).state().shared.set_paused(paused),
                ..old(self).state()
            }),
    {
        self.shared.set_paused(paused);
    }
}

/// A video that was opened from some source: what the decoder told of the stream,
/// and the playback state that the decode loop and the display share.
#[derive(Debug)]
pub struct Video(pub(crate) Internal);

impl View for Video {
    type V = VideoState;

    closed spec fn view(&self) -> VideoState {
        self.0.state()
    }
}

impl Video {
    /// A video for a stream that a decoder just opened, with the first frame that
    /// it decoded. `id` tells this video from every other one that is open; `now`
    /// is the host's clock in nanoseconds.
    ///
    /// A source that cannot tell how long it is, such as a live one, is refused.
    pub fn new(id: u64, stream: StreamInfo, first_frame: Vec<u8>, now: u64) -> (video: Result<
        Video,
        Error,
    >)
        ensures
            stream.duration.pts.is_none() ==> video == Err::<Video, Error>(Error::Unknown),
            stream.duration.pts.is_some() ==> video.is_ok() && video.unwrap()@ == (VideoState {
                id,
                width: stream.width,
                height: stream.height,
                framerate: stream.framerate,
                duration: stream.duration,
                timebase: stream.timebase,
                shared: SharedState::opened(first_frame@, stream.timebase),
                next_redraw: now,
            }),
    {
        if !stream.duration.has_value() {
            return Err(Error::Unknown);
        }
        Ok(
            Video(
                Internal {
                    id,
                    width: stream.width,
                    height: stream.height,
                    framerate: stream.framerate,
                    duration: stream.duration,
                    timebase: stream.timebase,
                    shared: Shared::new(first_frame, stream.timebase),
                    next_redraw: now,
                },
            ),
        )
    }

    /// The number that tells this video from every other one that is open.
    pub fn id(&self) -> (id: u64)
        ensures
            id == self@.id,
    {
        self.0.id
    }

    /// Get the size/resolution of the video as `(width, height)`.
    pub fn size(&self) -> (size: (u32, u32))
        ensures
            size == (self@.width, self@.height),
    {
        (self.0.width, self.0.height)
    }

    /// Get the framerate of the video as frames per second.
    pub fn framerate(&self) -> (rate: FrameRate)
        ensures
            rate == self@.framerate,
    {
        self.0.framerate
    }

    /// Get if the stream ended or not.
    pub fn eos(&self) -> (ended: bool)
        ensures
            ended == self@.shared.eos(),
    {
        self.0.shared.eos()
    }

    /// The decode failure that stopped playback, if one did.
    pub fn error(&self) -> (fault: Option<&Error>)
        ensures
            fault.is_some() == self@.shared.fault.is_some(),
            fault matches Some(e) ==> Some(*e) == self@.shared.fault,
    {
        self.0.shared.error()
    }

    /// Why playback stopped by itself, given out once for each time that it does:
    /// the end of the stream, or a decode failure with what failed.
    pub fn take_halt(&mut self) -> (halt: Option<Halt>)
        ensures
            halt == old(self)@.shared.halt(),
            final(self)@ == (VideoState { shared: old(self)@.shared.take_halt(), ..old(self)@ }),
    {
        self.0.shared.take_halt()
    }

    /// Set if the media is paused or not.
    pub fn set_paused(&mut self, paused: bool)
        ensures
            final(self)@ == (VideoState {
                shared: old(self)@.shared.set_paused(paused),
                ..old(self)@
            }),
    {
        self.0.set_paused(paused);
    }

    /// Pauses playback.
    pub fn pause(&mut self)
        ensures
            final(self)@ == (VideoState {
                shared: old(self)@.shared.set_paused(true),
                ..old(self)@
            }),
    {
        self.0.set_paused(true);
    }

    /// Resumes playback.
    pub fn resume(&mut self)
        ensures
            final(self)@ == (VideoState {
                shared: old(self)@.shared.set_paused(false),
                ..old(self)@
            }),
    {
        self.0.set_paused(false);
    }

    /// Pauses playback that runs and resumes playback that is paused.
    pub fn toggle(&mut self)
        ensures
            final(self)@ == (VideoState {
                shared: old(self)@.shared.set_paused(!old(self)@.shared.paused),
                ..old(self)@
            }),
    {
        let paused = self.0.shared.is_paused();
        self.0.set_paused(!paused);
    }

    /// Closes the video: the decode loop is told to leave and to release the
    /// decoder. To be called before the video is dropped.
    pub fn close(&mut self)
        ensures
            final(self)@ == (VideoState { shared: old(self)@.shared.close(), ..old(self)@ }),
    {
        self.0.shared.close();
    }

    /// Get if the media is paused or not.
    pub fn paused(&self) -> (paused: bool)
        ensures
            paused == self@.shared.paused,
    {
        self.0.shared.is_paused()
    }

    /// Turns a position in the media into what the decoder is to be asked, for the
    /// host to hand on while no decode is under way. Nothing of the video changes;
    /// the seek is not perfectly accurate.
    pub fn seek(&mut self, position: Position) -> (target: Result<SeekTarget, Error>)
        ensures
            final(self)@ == old(self)@,
            target == seek_target(position),
    {
        self.0.seek(position)
    }

    /// Resumes playback after the host tried to move the decoder back to the
    /// start of the stream, and tells the decode loop of a move that succeeded: a
    /// loop that had stopped starts over. A failure of the move is handed back.
    pub fn restart_stream(&mut self, rewound: Result<(), Error>) -> (done: Result<(), Error>)
        ensures
            done == rewound,
            final(self)@ == (VideoState {
                shared: if rewound.is_ok() {
                    old(self)@.shared.rewind().set_paused(false)
                } else {
                    old(self)@.shared.set_paused(false)
                },
                ..old(self)@
            }),
    {
        self.0.restart_stream(rewound)
    }

    /// Get the current playback position in time.
    pub fn position(&self) -> (position: Duration)
        ensures
            duration_nanos(position) == clamp_to_duration(self@.shared.timestamp.nanos()),
    {
        self.0.shared.position()
    }

    /// Get the media duration, to the nearest whole second.
    pub fn duration(&self) -> (length: Duration)
        ensures
            duration_nanos(length) == rounded_seconds(self@.duration.nanos()) * NANOS_PER_SEC,
    {
        self.0.duration.to_whole_seconds()
    }

    /// The deadline of the next scheduled redraw, in nanoseconds of the host's
    /// clock.
    pub fn next_redraw(&self) -> (deadline: u64)
        ensures
            deadline == self@.next_redraw,
    {
        self.0.next_redraw
    }

    pub(crate) fn set_next_redraw(&mut self, deadline: u64)
        ensures
            final(self)@ == (VideoState { next_redraw: deadline, ..old(self)@ }),
    {
        self.0.next_redraw = deadline;
    }

    /// The playback state, for the decode loop to read.
    pub fn shared(&self) -> (shared: &Shared)
        ensures
            shared@ == self@.shared,
    {
        &self.0.shared
    }

    /// The playback state, for the decode loop to work on.
    pub fn shared_mut(&mut self) -> (shared: &mut Shared)
        ensures
            shared@ == old(self)@.shared,
            final(self)@ == (VideoState { shared: final(shared)@, ..old(self)@ }),
    {
        &mut self.0.shared
    }
}

} // verus!
