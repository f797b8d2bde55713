use crate::error::Error;
use crate::shared::Halt;
use crate::video::{Video, VideoState};
use std::sync::Arc;
use vstd::arithmetic::div_mod::{
    lemma_fundamental_div_mod, lemma_mod_bound, lemma_mod_multiples_basic,
};
use vstd::prelude::*;

verus! {

/// What the host tells the player.
#[derive(Debug, Clone, Copy, PartialEq, Eq, Structural)]
pub enum Event {
    /// The display is being refreshed; the host's clock stands at this many
    /// nanoseconds.
    RedrawRequested(u64),
    /// Anything else.
    Other,
}

/// Whether the player made use of an event.
#[derive(Debug, Clone, Copy, PartialEq, Eq, Structural)]
pub enum Status {
    Ignored,
    Captured,
}

/// What the player asks of the host in answer to an event.
#[derive(Debug)]
pub struct Reaction<Message> {
    pub status: Status,
    /// Refresh the display again when the host's clock reaches this many
    /// nanoseconds.
    pub redraw_at: Option<u64>,
    /// Hand this message to the owner of the player.
    pub publish: Option<Message>,
}

/// What the owner of the player is told when playback stopped by itself.
#[derive(Debug)]
pub enum Notice<Message> {
    /// The stream ended: hand this message, if there is one, to the owner.
    EndOfStream(Option<Message>),
    /// The decoder failed: hand the failure to the owner's error handler.
    Failed(Error),
}

/// What the rendering backend gets for one draw.
#[derive(Debug)]
pub struct DrawRequest {
    /// Tells the video from every other one that is open.
    pub id: u64,
    /// The latest frame as packed RGBA bytes, shared with the playback state.
    pub frame: Arc<Vec<u8>>,
    /// Width and height of the frame, in pixels.
    pub size: (u32, u32),
    /// Whether `frame` changed since the last draw. The backend uploads the
    /// pixels only then, and shows what it uploaded before otherwise.
    pub dirty: bool,
}

/// How long after `now` the display is refreshed next, given the deadline `last`
/// of the refresh before and the time `interval` from one frame to the next: the
/// rest of the interval that is under way, counted from `last`. A deadline that
/// still lies ahead counts as just reached.
pub open spec fn until_redraw(last: int, now: int, interval: int) -> int {
    let elapsed = if now >= last {
        now - last
    } else {
        0
    };
    interval - elapsed % interval
}

/// The deadline of the next refresh of the display.
pub open spec fn next_deadline(last: int, now: int, interval: int) -> int {
    now + until_redraw(last, now, interval)
}

/// [`next_deadline`] on the host's clock, which ends at `u64::MAX`.
pub open spec fn clamped_deadline(last: int, now: int, interval: int) -> int {
    let deadline = next_deadline(last, now, interval);
    if deadline <= u64::MAX {
        deadline
    } else {
        u64::MAX as int
    }
}

/// The deadline of the next refresh of the display, on a clock that ends at
/// `u64::MAX`.
pub fn schedule(last: u64, now: u64, interval: u64) -> (deadline: u64)
    requires
        interval > 0,
    ensures
        deadline == clamped_deadline(last as int, now as int, interval as int),
{
    let elapsed: u64 = if now >= last {
        now - last
    } else {
        0
    };
    let until: u64 = interval - elapsed % interval;
    if until > u64::MAX - now {
        u64::MAX
    } else {
        now + until
    }
}

/// The next refresh is scheduled strictly ahead of the clock and at most one frame
/// interval ahead. Where the clock has reached the deadline before, the new
/// deadline lies a whole number of intervals after it, and is the first such time
/// ahead of the clock: deadlines stay on one grid, so their timing does not drift
/// however late each refresh comes.
pub proof fn law_redraw_deadline(last: int, now: int, interval: int)
    requires
        interval > 0,
    ensures
        now < next_deadline(last, now, interval) <= now + interval,
        now < last ==> next_deadline(last, now, interval) == now + interval,
        now >= last ==> (next_deadline(last, now, interval) - last) % interval == 0,
        forall|t: int|
            now >= last && t > now && #[trigger] ((t - last) % interval) == 0 ==> t
                >= next_deadline(last, now, interval),
{
    let elapsed = if now >= last {
        now - last
    } else {
        0
    };
    let q = elapsed / interval;
    let r = elapsed % interval;
    lemma_fundamental_div_mod(elapsed, interval);
    lemma_mod_bound(elapsed, interval);
    let next = next_deadline(last, now, interval);
    if now >= last {
        // The new deadline is `q + 1` intervals after the last one ...
        assert(next - last == (q + 1) * interval) by (nonlinear_arith)
            requires
                next - last == elapsed + interval - r,
                elapsed == interval * q + r,
        ;
        lemma_mod_multiples_basic(q + 1, interval);
        // ... and no time on the grid lies between the clock and it.
        assert forall|t: int| t > now && #[trigger] ((t - last) % interval) == 0 implies t
            >= next by {
            let k = (t - last) / interval;
            lemma_fundamental_div_mod(t - last, interval);
            assert(interval * k >= (q + 1) * interval) by (nonlinear_arith)
                requires
                    interval * k > interval * q + r,
                    r >= 0,
                    interval > 0,
            ;
        }
    }
}

/// Video player which shows the current frame of a [`Video`]: the side of the
/// playback state that runs on the display's refresh.
#[derive(Debug)]
pub struct VideoPlayer<Message> {
    on_end_of_stream: Option<Message>,
    on_new_frame: Option<Message>,
}

impl<Message: Clone> VideoPlayer<Message> {
    /// The message to send when the video reaches the end of stream.
    pub closed spec fn end_of_stream_message(self) -> Option<Message> {
        self.on_end_of_stream
    }

    /// The message to send when the video receives a new frame.
    pub closed spec fn new_frame_message(self) -> Option<Message> {
        self.on_new_frame
    }

    /// Creates a new video player.
    pub fn new() -> (player: Self)
        ensures
            player.end_of_stream_message().is_none(),
            player.new_frame_message().is_none(),
    {
        VideoPlayer { on_end_of_stream: None, on_new_frame: None }
    }

    /// Message to send when the video reaches the end of stream (i.e., the video ends).
    pub fn on_end_of_stream(self, on_end_of_stream: Message) -> (player: Self)
        ensures
            player.end_of_stream_message() == Some(on_end_of_stream),
            player.new_frame_message() == self.new_frame_message(),
    {
        VideoPlayer { on_end_of_stream: Some(on_end_of_stream), on_new_frame: self.on_new_frame }
    }

    /// Message to send when the video receives a new frame.
    pub fn on_new_frame(self, on_new_frame: Message) -> (player: Self)
        ensures
            player.new_frame_message() == Some(on_new_frame),
            player.end_of_stream_message() == self.end_of_stream_message(),
    {
        VideoPlayer { on_end_of_stream: self.on_end_of_stream, on_new_frame: Some(on_new_frame) }
    }

    /// What the owner is to be told when playback stopped by itself, given out
    /// once for each time that it does: at the end of the stream the
    /// end-of-stream message, if one was set; after a decode failure the failure,
    /// for the owner's error handler.
    pub fn on_halt(&self, video: &mut Video) -> (notice: Option<Notice<Message>>)
        ensures
            final(video)@ == (VideoState {
                shared: old(video)@.shared.take_halt(),
                ..old(video)@
            }),
            match old(video)@.shared.halt() {
                Some(Halt::EndOfStream) => {
                    &&& notice matches Some(Notice::EndOfStream(publish))
                    &&& publish.is_some() == self.end_of_stream_message().is_some()
                    &&& publish matches Some(m) ==> cloned(
                        self.end_of_stream_message().unwrap(),
                        m,
                    )
                },
                Some(Halt::Failed(e)) => notice == Some(Notice::<Message>::Failed(e)),
                None => notice.is_none(),
            },
    {
        match video.take_halt() {
            Some(Halt::EndOfStream) => Some(Notice::EndOfStream(self.on_end_of_stream.clone())),
            Some(Halt::Failed(e)) => Some(Notice::Failed(e)),
            None => None,
        }
    }

    /// What the rendering backend is to draw: the latest frame, and whether it is
    /// new since the draw before. Taking the frame marks it as seen.
    pub fn draw(&self, video: &mut Video) -> (request: DrawRequest)
        ensures
            request.id == old(video)@.id,
            request.frame@ == old(video)@.shared.frame,
            request.size == (old(video)@.width, old(video)@.height),
            request.dirty == old(video)@.shared.ready,
            final(video)@ == (VideoState {
                shared: old(video)@.shared.take_ready(),
                ..old(video)@
            }),
    {
        let id = video.id();
        let size = video.size();
        let frame = video.shared().frame();
        let dirty = video.shared_mut().take_ready();
        DrawRequest { id, frame, size, dirty }
    }

    /// The player's answer to an event of the host.
    ///
    /// A refresh of the display while the video plays schedules the next refresh,
    /// ahead of the host's clock and whole frame intervals after the deadline
    /// before, and sends the new-frame message, whether or not a frame is ready.
    /// A refresh while the video is paused asks for nothing. Any other event is
    /// ignored.
    pub fn on_event(&self, video: &mut Video, event: Event) -> (reaction: Reaction<Message>)
        ensures
            match event {
                Event::RedrawRequested(now) => {
                    &&& reaction.status == Status::Captured
                    &&& if old(video)@.shared.paused {
                        &&& final(video)@ == old(video)@
                        &&& reaction.redraw_at.is_none()
                        &&& reaction.publish.is_none()
                    } else {
                        let deadline = clamped_deadline(
                            old(video)@.next_redraw as int,
                            now as int,
                            old(video)@.framerate.interval(),
                        );
                        &&& reaction.redraw_at matches Some(at)
                        &&& at == deadline
                        &&& final(video)@ == (VideoState { next_redraw: at, ..old(video)@ })
                        &&& reaction.publish.is_some() == self.new_frame_message().is_some()
                        &&& reaction.publish matches Some(m) ==> cloned(
                            self.new_frame_message().unwrap(),
                            m,
                        )
                    }
                },
                Event::Other => {
                    &&& final(video)@ == old(video)@
                    &&& reaction.status == Status::Ignored
                    &&& reaction.redraw_at.is_none()
                    &&& reaction.publish.is_none()
                },
            },
    {
        match event {
            Event::RedrawRequested(now) => {
                if video.paused() {
                    Reaction { status: Status::Captured, redraw_at: None, publish: None }
                } else {
                    let interval: u64 = video.framerate().interval_nanos();
                    let deadline: u64 = schedule(video.next_redraw(), now, interval);
                    video.set_next_redraw(deadline);
                    Reaction {
                        status: Status::Captured,
                        redraw_at: Some(deadline),
                        publish: self.on_new_frame.clone(),
                    }
                }
            },
            Event::Other => Reaction { status: Status::Ignored, redraw_at: None, publish: None },
        }
    }
}

} // verus!
