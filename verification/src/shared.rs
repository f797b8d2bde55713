use crate::error::Error;
use crate::position::Position;
use crate::time::{clamp_to_duration, duration_nanos, TimeBase, Timestamp, NANOS_PER_MILLI};
use std::sync::Arc;
use std::time::Duration;
use vstd::prelude::*;

verus! {

/// Where the decode loop stands.
#[derive(Debug, Clone, Copy, PartialEq, Eq, Structural)]
pub enum LoopPhase {
    /// Blocked on the wake signal because playback is paused.
    Waiting,
    /// Producing frames.
    Decoding,
    /// Halted by the end of the stream or by a decode failure.
    Stopped,
}

/// What the decode loop has to do next.
#[derive(Debug, Clone, Copy, PartialEq, Eq, Structural)]
pub enum LoopAction {
    /// Decode one frame and report what came of it with [`Shared::next`].
    Decode,
    /// Sleep until a wake signal is pending, then report it with
    /// [`Shared::on_wake`].
    Block,
    /// The player was closed: leave the loop and release the decoder.
    Exit,
}

/// What a seek asks of the decoder.
#[derive(Debug, Clone, Copy, PartialEq, Eq, Structural)]
pub enum SeekTarget {
    /// Seek to this many milliseconds from the start of the stream.
    Millis(i64),
    /// Seek to the frame with this index.
    Frame(i64),
}

/// Why the decode loop stopped.
#[derive(Debug)]
pub enum Halt {
    /// The stream ran out of frames.
    EndOfStream,
    /// The decoder failed.
    Failed(Error),
}

/// What one attempt to decode a frame gave.
#[derive(Debug)]
pub enum Decoded {
    /// A frame, converted to packed RGBA bytes, and its presentation time in units
    /// of the stream's time base.
    Frame { data: Vec<u8>, pts: Option<i64> },
    /// The stream has no more frames.
    EndOfStream,
    /// The decoder failed.
    Failed(Error),
}

/// [`Decoded`] as a mathematical value.
pub enum Outcome {
    Frame { data: Seq<u8>, pts: Option<i64> },
    EndOfStream,
    Failed(Error),
}

impl View for Decoded {
    type V = Outcome;

    open spec fn view(&self) -> Outcome {
        match *self {
            Decoded::Frame { data, pts } => Outcome::Frame { data: data@, pts },
            Decoded::EndOfStream => Outcome::EndOfStream,
            Decoded::Failed(e) => Outcome::Failed(e),
        }
    }
}

/// The shared playback state as a mathematical value, and each operation on it as
/// a function from the state before to the state after.
pub struct SharedState {
    /// The latest frame, as packed RGBA bytes.
    pub frame: Seq<u8>,
    /// The presentation time of `frame`.
    pub timestamp: Timestamp,
    /// The time base in which the decoder reports presentation times.
    pub base: TimeBase,
    /// Whether playback is paused.
    pub paused: bool,
    /// Whether `frame` has been published and not yet taken.
    pub ready: bool,
    /// Whether a wake signal is pending for the decode loop.
    pub wake: bool,
    /// Where the decode loop stands.
    pub phase: LoopPhase,
    /// The decode failure that stopped the loop, if one did.
    pub fault: Option<Error>,
    /// Whether the player was closed.
    pub closed: bool,
    /// Whether the owner still has to be told that the loop stopped.
    pub halt_pending: bool,
}

impl SharedState {
    /// The state right after a source was opened and its first frame decoded.
    pub open spec fn opened(first_frame: Seq<u8>, base: TimeBase) -> SharedState {
        SharedState {
            frame: first_frame,
            timestamp: Timestamp { pts: None, base },
            base,
            paused: false,
            ready: true,
            wake: false,
            phase: LoopPhase::Decoding,
            fault: None,
            closed: false,
            halt_pending: false,
        }
    }

    /// A frame was published: frame and presentation time are replaced together
    /// and the frame is ready.
    pub open spec fn publish_frame(self, bytes: Seq<u8>, timestamp: Timestamp) -> SharedState {
        SharedState { frame: bytes, timestamp, ready: true, ..self }
    }

    /// The display took the ready flag.
    pub open spec fn take_ready(self) -> SharedState {
        SharedState { ready: false, ..self }
    }

    /// The pause flag was stored and a wake signal left; a signal that was
    /// pending already stays the one signal.
    pub open spec fn set_paused(self, paused: bool) -> SharedState {
        SharedState { paused, wake: true, ..self }
    }

    /// What the decode loop is told to do in this state: to leave once the player
    /// is closed, to decode while it is decoding and playback runs, to sleep
    /// otherwise.
    pub open spec fn action(self) -> LoopAction {
        if self.closed {
            LoopAction::Exit
        } else if self.phase == LoopPhase::Decoding && !self.paused {
            LoopAction::Decode
        } else {
            LoopAction::Block
        }
    }

    /// The decode loop took a turn: a decoding loop that finds playback paused
    /// starts to wait.
    pub open spec fn poll(self) -> SharedState {
        if !self.closed && self.phase == LoopPhase::Decoding && self.paused {
            SharedState { phase: LoopPhase::Waiting, ..self }
        } else {
            self
        }
    }

    /// The decode loop took the wake signal: a waiting loop that finds playback
    /// running goes back to decoding.
    pub open spec fn on_wake(self) -> SharedState {
        if !self.closed && self.phase == LoopPhase::Waiting && !self.paused {
            SharedState { wake: false, phase: LoopPhase::Decoding, ..self }
        } else {
            SharedState { wake: false, ..self }
        }
    }

    /// The decode loop finished a decode. Outside of the decoding phase, and in a
    /// closed player, nothing comes of it; else a frame is published, and the
    /// end of the stream or a failure stops the loop and pauses playback.
    pub open spec fn next(self, outcome: Outcome) -> SharedState {
        if self.closed || self.phase != LoopPhase::Decoding {
            self
        } else {
            match outcome {
                Outcome::Frame { data, pts } => self.publish_frame(
                    data,
                    Timestamp { pts, base: self.base },
                ),
                Outcome::EndOfStream => SharedState {
                    phase: LoopPhase::Stopped,
                    paused: true,
                    halt_pending: true,
                    ..self
                },
                Outcome::Failed(e) => SharedState {
                    phase: LoopPhase::Stopped,
                    paused: true,
                    fault: Some(e),
                    halt_pending: true,
                    ..self
                },
            }
        }
    }

    /// The decoder was moved back to the start of the stream: a stopped loop
    /// waits again, with nothing on record against it, and a wake signal is left.
    pub open spec fn rewind(self) -> SharedState {
        if self.phase == LoopPhase::Stopped {
            SharedState {
                phase: LoopPhase::Waiting,
                fault: None,
                wake: true,
                halt_pending: false,
                ..self
            }
        } else {
            SharedState { wake: true, ..self }
        }
    }

    /// The player was closed, and a wake signal left.
    pub open spec fn close(self) -> SharedState {
        SharedState { closed: true, wake: true, ..self }
    }

    /// Whether the loop stopped because the stream ran out of frames.
    pub open spec fn eos(self) -> bool {
        self.phase == LoopPhase::Stopped && self.fault.is_none()
    }

    /// What the owner is told next: why the loop stopped, if it did and the owner
    /// was not told yet.
    pub open spec fn halt(self) -> Option<Halt> {
        if self.phase == LoopPhase::Stopped && self.halt_pending {
            match self.fault {
                Some(e) => Some(Halt::Failed(e)),
                None => Some(Halt::EndOfStream),
            }
        } else {
            None
        }
    }

    /// The owner asked why the loop stopped: nothing is left to tell.
    pub open spec fn take_halt(self) -> SharedState {
        SharedState { halt_pending: false, ..self }
    }
}

/// What a seek to `position` asks of the decoder, or the reason why it cannot be
/// asked.
pub open spec fn seek_target(position: Position) -> Result<SeekTarget, Error> {
    match position {
        Position::Time(t) => {
            let millis = duration_nanos(t) / (NANOS_PER_MILLI as nat);
            if millis <= i64::MAX {
                Ok(SeekTarget::Millis(millis as i64))
            } else {
                Err(Error::Conversion)
            }
        },
        Position::Frame(f) => Ok(SeekTarget::Frame(f)),
    }
}

/// A seek never asks for more than it was given: the milliseconds asked of the
/// decoder are the position rounded down, less than one millisecond before it; a
/// frame index is asked for as it is; and a seek is refused only where the
/// milliseconds do not fit the decoder's unit.
pub proof fn law_seek_asks_for_the_position(position: Position)
    ensures
        match position {
            Position::Time(t) => match seek_target(position) {
                Ok(SeekTarget::Millis(millis)) => {
                    &&& 0 <= millis
                    &&& millis * NANOS_PER_MILLI <= duration_nanos(t) < (millis + 1)
                        * NANOS_PER_MILLI
                },
                Ok(SeekTarget::Frame(_)) => false,
                Err(e) => e == Error::Conversion && duration_nanos(t) > i64::MAX
                    * NANOS_PER_MILLI,
            },
            Position::Frame(f) => seek_target(position) == Ok::<SeekTarget, Error>(
                SeekTarget::Frame(f),
            ),
        },
{
}

/// The one record that the decode loop, the presentation tick and the control
/// surface share: the latest frame with its presentation time, the pause flag, the
/// frame-ready flag, the one-slot wake mailbox and the loop's phase.
///
/// Each method is one atomic step. A host that runs the loop on a thread of its own
/// keeps the record behind one lock and takes the lock for the length of a call.
#[derive(Debug)]
pub struct Shared {
    frame: Arc<Vec<u8>>,
    timestamp: Timestamp,
    base: TimeBase,
    paused: bool,
    ready: bool,
    wake: bool,
    phase: LoopPhase,
    fault: Option<Error>,
    closed: bool,
    halt_pending: bool,
}

impl View for Shared {
    type V = SharedState;

    closed spec fn view(&self) -> SharedState {
        SharedState {
            frame: self.frame@,
            timestamp: self.timestamp,
            base: self.base,
            paused: self.paused,
            ready: self.ready,
            wake: self.wake,
            phase: self.phase,
            fault: self.fault,
            closed: self.closed,
            halt_pending: self.halt_pending,
        }
    }
}

impl Shared {
    /// The state of a source that was just opened: its first frame is ready to be
    /// shown, no presentation time is known yet, playback runs.
    pub fn new(first_frame: Vec<u8>, base: TimeBase) -> (shared: Shared)
        ensures
            shared@ == SharedState::opened(first_frame@, base),
    {
        Shared {
            frame: Arc::new(first_frame),
            timestamp: Timestamp::new(None, base),
            base,
            paused: false,
            ready: true,
            wake: false,
            phase: LoopPhase::Decoding,
            fault: None,
            closed: false,
            halt_pending: false,
        }
    }

    /// Replaces the frame and its presentation time together and marks the frame
    /// as ready.
    fn publish_frame(&mut self, bytes: Vec<u8>, timestamp: Timestamp)
        ensures
            final(self)@ == old(self)@.publish_frame(bytes@, timestamp),
    {
        self.frame = Arc::new(bytes);
        self.timestamp = timestamp;
        self.ready = true;
    }

    /// Reads and clears the frame-ready flag: `true` means that the frame is new
    /// since the last call.
    pub fn take_ready(&mut self) -> (was_ready: bool)
        ensures
            was_ready == old(self)@.ready,
            final(self)@ == old(self)@.take_ready(),
    {
        let was_ready = self.ready;
        self.ready = false;
        was_ready
    }

    /// Stores the pause flag and leaves one wake signal for the decode loop. A
    /// signal that is already pending is not doubled.
    pub fn set_paused(&mut self, paused: bool)
        ensures
            final(self)@ == old(self)@.set_paused(paused),
    {
        self.paused = paused;
        self.wake = true;
    }

    /// Whether playback is paused.
    pub fn is_paused(&self) -> (paused: bool)
        ensures
            paused == self@.paused,
    {
        self.paused
    }

    /// The latest frame. The bytes are shared, not copied.
    pub fn frame(&self) -> (frame: Arc<Vec<u8>>)
        ensures
            frame@ == self@.frame,
    {
        self.frame.clone()
    }

    /// The latest frame together with its presentation time, read in one step so
    /// that the two belong to each other.
    pub fn snapshot(&self) -> (pair: (Arc<Vec<u8>>, Timestamp))
        ensures
            pair.0@ == self@.frame,
            pair.1 == self@.timestamp,
    {
        (self.frame.clone(), self.timestamp)
    }

    /// The presentation time of the latest frame.
    pub fn timestamp(&self) -> (timestamp: Timestamp)
        ensures
            timestamp == self@.timestamp,
    {
        self.timestamp
    }

    /// The presentation time of the latest frame as a `Duration`: it moves only
    /// when a frame is published.
    pub fn position(&self) -> (position: Duration)
        ensures
            duration_nanos(position) == clamp_to_duration(self@.timestamp.nanos()),
    {
        self.timestamp.to_duration()
    }

    /// Whether a wake signal is pending: the decode loop sleeps while this is
    /// `false`.
    pub fn wake_pending(&self) -> (pending: bool)
        ensures
            pending == self@.wake,
    {
        self.wake
    }

    /// Where the decode loop stands.
    pub fn phase(&self) -> (phase: LoopPhase)
        ensures
            phase == self@.phase,
    {
        self.phase
    }

    /// Whether the loop stopped because the stream ran out of frames.
    pub fn eos(&self) -> (ended: bool)
        ensures
            ended == self@.eos(),
    {
        self.phase == LoopPhase::Stopped && self.fault.is_none()
    }

    /// The decode failure that stopped the loop, if one did.
    pub fn error(&self) -> (fault: Option<&Error>)
        ensures
            fault.is_some() == self@.fault.is_some(),
            fault matches Some(e) ==> Some(*e) == self@.fault,
    {
        self.fault.as_ref()
    }

    /// Why the decode loop stopped, for the owner to be told: given out once for
    /// each time that the loop stops, and `None` at every other call.
    pub fn take_halt(&mut self) -> (halt: Option<Halt>)
        ensures
            halt == old(self)@.halt(),
            final(self)@ == old(self)@.take_halt(),
    {
        let due = self.halt_pending && self.phase == LoopPhase::Stopped;
        self.halt_pending = false;
        if due {
            match &self.fault {
                Some(e) => Some(Halt::Failed(e.clone())),
                None => Some(Halt::EndOfStream),
            }
        } else {
            None
        }
    }

    /// Turns a position into what the decoder is to be asked. The state is not
    /// touched: the first frame decoded after the seek replaces the one on show.
    pub fn seek(&self, position: Position) -> (target: Result<SeekTarget, Error>)
        ensures
            target == seek_target(position),
    {
        match position {
            Position::Time(t) => {
                match i64::try_from(t.as_millis()) {
                    Ok(millis) => Ok(SeekTarget::Millis(millis)),
                    Err(_) => Err(Error::Conversion),
                }
            },
            Position::Frame(f) => Ok(SeekTarget::Frame(f)),
        }
    }

    /// One turn of the decode loop: says what the loop has to do next. A loop that
    /// finds playback paused moves to [`LoopPhase::Waiting`]; the loop of a player
    /// that was closed is told to leave.
    pub fn poll(&mut self) -> (action: LoopAction)
        ensures
            action == old(self)@.action(),
            final(self)@ == old(self)@.poll(),
    {
        if self.closed {
            return LoopAction::Exit;
        }
        match self.phase {
            LoopPhase::Decoding => {
                if self.paused {
                    self.phase = LoopPhase::Waiting;
                    LoopAction::Block
                } else {
                    LoopAction::Decode
                }
            },
            _ => LoopAction::Block,
        }
    }

    /// The decode loop took the pending wake signal. A waiting loop goes back to
    /// decoding if playback is no longer paused; otherwise nothing but the signal
    /// changes.
    pub fn on_wake(&mut self)
        ensures
            final(self)@ == old(self)@.on_wake(),
    {
        self.wake = false;
        if !self.closed && self.phase == LoopPhase::Waiting && !self.paused {
            self.phase = LoopPhase::Decoding;
        }
    }

    /// The decode loop finished one decode. A frame is published under the
    /// stream's time base; the end of the stream stops the loop and pauses
    /// playback; a failure does the same and is kept for [`Shared::error`]; both
    /// are put down for [`Shared::take_halt`]. A loop that is not decoding has
    /// nothing in flight, and a player that was closed shows nothing any more:
    /// there the outcome is dropped.
    ///
    /// Returns the phase that the loop is in afterwards.
    pub fn next(&mut self, decoded: Decoded) -> (phase: LoopPhase)
        ensures
            final(self)@ == old(self)@.next(decoded@),
            phase == final(self)@.phase,
    {
        if !self.closed && self.phase == LoopPhase::Decoding {
            match decoded {
                Decoded::Frame { data, pts } => {
                    let timestamp = Timestamp::new(pts, self.base);
                    self.publish_frame(data, timestamp);
                },
                Decoded::EndOfStream => {
                    self.phase = LoopPhase::Stopped;
                    self.paused = true;
                    self.halt_pending = true;
                },
                Decoded::Failed(e) => {
                    self.phase = LoopPhase::Stopped;
                    self.paused = true;
                    self.fault = Some(e);
                    self.halt_pending = true;
                },
            }
        }
        self.phase
    }

    /// The decoder was moved back to the start of the stream. A stopped loop
    /// becomes a waiting one and its failure is forgotten; a wake signal is left so
    /// that the loop looks at the pause flag again.
    pub fn rewind(&mut self)
        ensures
            final(self)@ == old(self)@.rewind(),
    {
        if self.phase == LoopPhase::Stopped {
            self.phase = LoopPhase::Waiting;
            self.fault = None;
            self.halt_pending = false;
        }
        self.wake = true;
    }

    /// The player is being closed. The decode loop is told to leave at its next
    /// turn, and a wake signal is left so that a sleeping loop takes that turn. A
    /// decode that is under way is allowed to finish.
    pub fn close(&mut self)
        ensures
            final(self)@ == old(self)@.close(),
    {
        self.closed = true;
        self.wake = true;
    }

    /// Whether the player was closed.
    pub fn is_closed(&self) -> (closed: bool)
        ensures
            closed == self@.closed,
    {
        self.closed
    }
}

} // verus!
