//! What holds of the shared playback state however its callers take turns.
//!
//! Every way to change a [`Shared`](crate::shared::Shared) is one [`Step`]; a
//! history of a player is a sequence of steps, in the order in which they took
//! effect. The laws speak of every state and every history.
use crate::error::Error;
use crate::shared::{Halt, LoopAction, LoopPhase, Outcome, SharedState};
use crate::time::Timestamp;
use vstd::prelude::*;

verus! {

/// One atomic change of the shared playback state.
pub enum Step {
    /// The control surface paused or resumed playback.
    SetPaused(bool),
    /// The control surface moved the decoder back to the start of the stream.
    Rewind,
    /// The control surface closed the player.
    Close,
    /// The display took the frame-ready flag.
    TakeReady,
    /// The owner asked why the loop stopped.
    TakeHalt,
    /// The decode loop asked what to do next.
    Poll,
    /// The decode loop took the pending wake signal.
    Wake,
    /// The decode loop finished one decode.
    Next(Outcome),
}

/// The state after one step.
pub open spec fn step(s: SharedState, op: Step) -> SharedState {
    match op {
        Step::SetPaused(paused) => s.set_paused(paused),
        Step::Rewind => s.rewind(),
        Step::Close => s.close(),
        Step::TakeReady => s.take_ready(),
        Step::TakeHalt => s.take_halt(),
        Step::Poll => s.poll(),
        Step::Wake => s.on_wake(),
        Step::Next(outcome) => s.next(outcome),
    }
}

/// The state after a history.
pub open spec fn run(s: SharedState, ops: Seq<Step>) -> SharedState
    decreases ops.len(),
{
    if ops.len() == 0 {
        s
    } else {
        step(run(s, ops.drop_last()), ops.last())
    }
}

/// The frame and presentation time that a step publishes in state `s`, if it
/// publishes any: only a decode that gave a frame does, and only while the loop
/// is decoding and the player is open.
pub open spec fn published(s: SharedState, op: Step) -> Option<(Seq<u8>, Timestamp)> {
    match op {
        Step::Next(Outcome::Frame { data, pts }) if !s.closed && s.phase
            == LoopPhase::Decoding => Some((data, Timestamp { pts, base: s.base })),
        _ => None,
    }
}

/// The last frame and presentation time that a history publishes, if it
/// publishes any.
pub open spec fn latest(s: SharedState, ops: Seq<Step>) -> Option<(Seq<u8>, Timestamp)>
    decreases ops.len(),
{
    if ops.len() == 0 {
        None
    } else {
        match published(run(s, ops.drop_last()), ops.last()) {
            Some(pair) => Some(pair),
            None => latest(s, ops.drop_last()),
        }
    }
}

/// Whether step `i` of a history is a turn of the decode loop that is told to
/// decode.
pub open spec fn decodes_at(s: SharedState, ops: Seq<Step>, i: int) -> bool {
    ops[i] is Poll && run(s, ops.take(i)).action() == LoopAction::Decode
}

/// A decode failure is on record only while the loop is stopped.
pub open spec fn fault_means_stopped(s: SharedState) -> bool {
    s.fault.is_some() ==> s.phase == LoopPhase::Stopped
}

/// A player that was just opened has no failure on record, and no step puts one
/// on record without stopping the loop.
pub proof fn law_fault_means_stopped(s: SharedState, ops: Seq<Step>)
    requires
        fault_means_stopped(s),
    ensures
        fault_means_stopped(run(s, ops)),
        forall|frame: Seq<u8>, base| fault_means_stopped(#[trigger] SharedState::opened(frame, base)),
    decreases ops.len(),
{
    if ops.len() > 0 {
        law_fault_means_stopped(s, ops.drop_last());
    }
}

/// The ready flag is raised by a publication and by nothing else: a step that
/// finds the flag down and leaves it up has published a frame, and the state
/// after it holds that frame with its presentation time.
pub proof fn law_ready_follows_publication(s: SharedState, op: Step)
    requires
        !s.ready,
        step(s, op).ready,
    ensures
        published(s, op).is_some(),
        step(s, op).frame == published(s, op).unwrap().0,
        step(s, op).timestamp == published(s, op).unwrap().1,
{
}

/// The frame and its presentation time move together: after any history the
/// state holds the pair that was published last, or the pair it began with if
/// none was published. No step leaves a frame with the time of another.
pub proof fn law_frame_and_time_move_together(s: SharedState, ops: Seq<Step>)
    ensures
        run(s, ops).base == s.base,
        match latest(s, ops) {
            Some(pair) => run(s, ops).frame == pair.0 && run(s, ops).timestamp == pair.1,
            None => run(s, ops).frame == s.frame && run(s, ops).timestamp == s.timestamp,
        },
    decreases ops.len(),
{
    if ops.len() > 0 {
        law_frame_and_time_move_together(s, ops.drop_last());
    }
}

/// Single-slot freshness: after a history that publishes at least one frame and
/// in which the display never took the ready flag, the flag is set, the frame on
/// show is the last one published, with its presentation time, and the flag is
/// given out once: taking it clears it and leaves the frame alone.
pub proof fn law_single_slot_freshness(s: SharedState, ops: Seq<Step>)
    requires
        latest(s, ops).is_some(),
        forall|i: int| 0 <= i < ops.len() ==> !(#[trigger] ops[i] is TakeReady),
    ensures
        run(s, ops).ready,
        run(s, ops).frame == latest(s, ops).unwrap().0,
        run(s, ops).timestamp == latest(s, ops).unwrap().1,
        !run(s, ops).take_ready().ready,
        run(s, ops).take_ready().frame == run(s, ops).frame,
        run(s, ops).take_ready().timestamp == run(s, ops).timestamp,
    decreases ops.len(),
{
    law_frame_and_time_move_together(s, ops);
    if ops.len() > 0 {
        let before = ops.drop_last();
        assert(!(ops[ops.len() - 1] is TakeReady));
        if published(run(s, before), ops.last()).is_none() {
            assert forall|i: int| 0 <= i < before.len() implies !(#[trigger] before[i] is TakeReady) by {
                assert(before[i] == ops[i]);
            }
            law_single_slot_freshness(s, before);
        }
    }
}

/// The history of a loop that decodes one frame after another: each frame with
/// its presentation time, in the order in which they were decoded.
pub open spec fn decodes(frames: Seq<(Seq<u8>, Option<i64>)>) -> Seq<Step> {
    Seq::new(
        frames.len(),
        |i: int| Step::Next(Outcome::Frame { data: frames[i].0, pts: frames[i].1 }),
    )
}

/// Single-slot freshness, spelled out: when a decoding loop decodes any number of
/// frames in a row and the display takes none of them, the frame on show
/// afterwards is the last of them, with its presentation time and never an
/// earlier one; the ready flag is set, and taking it clears it.
pub proof fn law_last_of_many_frames(s: SharedState, frames: Seq<(Seq<u8>, Option<i64>)>)
    requires
        !s.closed,
        s.phase == LoopPhase::Decoding,
        frames.len() > 0,
    ensures
        ({
            let after = run(s, decodes(frames));
            &&& after.ready
            &&& after.frame == frames.last().0
            &&& after.timestamp == Timestamp { pts: frames.last().1, base: s.base }
            &&& after.phase == LoopPhase::Decoding
            &&& !after.closed
            &&& !after.take_ready().ready
            &&& after.take_ready().frame == after.frame
            &&& after.take_ready().timestamp == after.timestamp
        }),
    decreases frames.len(),
{
    let earlier = frames.drop_last();
    assert(decodes(frames).drop_last() == decodes(earlier));
    assert(decodes(frames).last() == Step::Next(
        Outcome::Frame { data: frames.last().0, pts: frames.last().1 },
    ));
    law_frame_and_time_move_together(s, decodes(earlier));
    if earlier.len() > 0 {
        law_last_of_many_frames(s, earlier);
    }
}

/// Pause quiescence: from a paused state, and until playback is resumed, the
/// state stays paused and no turn of the decode loop is told to decode. A decode
/// that was already under way may still deliver its frame.
pub proof fn law_pause_quiescence(s: SharedState, ops: Seq<Step>)
    requires
        s.paused,
        forall|i: int| 0 <= i < ops.len() ==> #[trigger] ops[i] != Step::SetPaused(false),
    ensures
        run(s, ops).paused,
        forall|i: int| 0 <= i < ops.len() ==> !decodes_at(s, ops, i),
    decreases ops.len(),
{
    if ops.len() > 0 {
        let before = ops.drop_last();
        assert forall|i: int| 0 <= i < before.len() implies #[trigger] before[i] != Step::SetPaused(
            false,
        ) by {
            assert(before[i] == ops[i]);
        }
        law_pause_quiescence(s, before);
        assert(ops[ops.len() - 1] != Step::SetPaused(false));
        assert forall|i: int| 0 <= i < ops.len() implies !decodes_at(s, ops, i) by {
            if i < before.len() {
                assert(ops.take(i) == before.take(i));
                assert(ops[i] == before[i]);
                assert(!decodes_at(s, before, i));
            } else {
                assert(ops.take(i) == before);
            }
        }
    }
}

/// In an open player, a loop that waits although playback is not paused has a
/// wake signal pending.
pub open spec fn waiting_loop_is_woken(s: SharedState) -> bool {
    !s.closed && s.phase == LoopPhase::Waiting && !s.paused ==> s.wake
}

/// No wake signal is ever lost: a player that was just opened has no waiting
/// loop, and no history leaves a loop waiting, with playback not paused, without
/// a wake signal pending. Such a loop never sleeps for good.
pub proof fn law_waiting_loop_is_woken(s: SharedState, ops: Seq<Step>)
    requires
        waiting_loop_is_woken(s),
    ensures
        waiting_loop_is_woken(run(s, ops)),
        forall|frame: Seq<u8>, base| waiting_loop_is_woken(#[trigger] SharedState::opened(frame, base)),
    decreases ops.len(),
{
    if ops.len() > 0 {
        law_waiting_loop_is_woken(s, ops.drop_last());
    }
}

/// No missed wake: resuming a loop that has not stopped, in a player that is
/// open, leaves a wake signal pending, so the loop's sleep ends at once, and
/// taking the signal finds the loop decoding and told to decode. This holds in
/// every state, and so also where the loop found playback paused and chose to
/// sleep just before the resume took effect.
pub proof fn law_no_missed_wake(s: SharedState)
    requires
        s.phase != LoopPhase::Stopped,
        !s.closed,
    ensures
        ({
            let resumed = s.set_paused(false);
            &&& resumed.wake
            &&& resumed.poll() == resumed
            &&& resumed.on_wake().phase == LoopPhase::Decoding
            &&& resumed.on_wake().action() == LoopAction::Decode
        }),
        ({
            let raced = s.set_paused(true).poll().set_paused(false);
            &&& raced.wake
            &&& raced.on_wake().phase == LoopPhase::Decoding
            &&& raced.on_wake().action() == LoopAction::Decode
        }),
{
}

/// The end of the stream stops the loop and pauses playback, leaves the frame on
/// show, and is told to the owner once, apart from a failure. A failure does the
/// same and is told to the owner once, with what failed.
pub proof fn law_end_of_stream_stops(s: SharedState)
    requires
        s.phase == LoopPhase::Decoding,
        !s.closed,
        fault_means_stopped(s),
    ensures
        ({
            let ended = s.next(Outcome::EndOfStream);
            &&& ended.paused
            &&& ended.phase == LoopPhase::Stopped
            &&& ended.eos()
            &&& ended.frame == s.frame
            &&& ended.timestamp == s.timestamp
            &&& ended.halt() == Some(Halt::EndOfStream)
            &&& ended.take_halt().halt().is_none()
        }),
        forall|e: Error|
            {
                let failed = #[trigger] s.next(Outcome::Failed(e));
                &&& failed.paused
                &&& failed.phase == LoopPhase::Stopped
                &&& !failed.eos()
                &&& failed.frame == s.frame
                &&& failed.timestamp == s.timestamp
                &&& failed.halt() == Some(Halt::Failed(e))
                &&& failed.take_halt().halt().is_none()
            },
{
}

/// A stopped loop stays stopped until the decoder is moved back to the start of
/// the stream: whatever else happens, no frame is published, the frame on show
/// and its presentation time stay, and no turn of the loop is told to decode.
pub proof fn law_stopped_is_terminal(s: SharedState, ops: Seq<Step>)
    requires
        s.phase == LoopPhase::Stopped,
        forall|i: int| 0 <= i < ops.len() ==> !(#[trigger] ops[i] is Rewind),
    ensures
        run(s, ops).phase == LoopPhase::Stopped,
        latest(s, ops).is_none(),
        run(s, ops).frame == s.frame,
        run(s, ops).timestamp == s.timestamp,
        forall|i: int| 0 <= i < ops.len() ==> !decodes_at(s, ops, i),
    decreases ops.len(),
{
    if ops.len() > 0 {
        let before = ops.drop_last();
        assert forall|i: int| 0 <= i < before.len() implies !(#[trigger] before[i] is Rewind) by {
            assert(before[i] == ops[i]);
        }
        law_stopped_is_terminal(s, before);
        assert(!(ops[ops.len() - 1] is Rewind));
        assert forall|i: int| 0 <= i < ops.len() implies !decodes_at(s, ops, i) by {
            if i < before.len() {
                assert(ops.take(i) == before.take(i));
                assert(ops[i] == before[i]);
                assert(!decodes_at(s, before, i));
            } else {
                assert(ops.take(i) == before);
            }
        }
    }
}

/// Moving the decoder back to the start and resuming, in either order, brings a
/// stopped loop back: a wake signal is pending, and taking it finds the loop
/// decoding, told to decode, with no failure on record.
pub proof fn law_restart_leaves_stopped(s: SharedState)
    requires
        s.phase == LoopPhase::Stopped,
        !s.closed,
    ensures
        ({
            let restarted = s.rewind().set_paused(false);
            &&& restarted.wake
            &&& restarted.fault.is_none()
            &&& restarted.on_wake().phase == LoopPhase::Decoding
            &&& restarted.on_wake().action() == LoopAction::Decode
        }),
        s.set_paused(false).rewind() == s.rewind().set_paused(false),
{
}

/// Closing is final and is noticed: the wake signal that it leaves ends the
/// loop's sleep, and from then on, whatever else happens, every turn of the loop
/// is told to leave and no frame is published.
pub proof fn law_close_ends_the_loop(s: SharedState, ops: Seq<Step>)
    ensures
        s.close().wake,
        run(s.close(), ops).closed,
        run(s.close(), ops).action() == LoopAction::Exit,
        latest(s.close(), ops).is_none(),
        run(s.close(), ops).frame == s.frame,
        run(s.close(), ops).timestamp == s.timestamp,
    decreases ops.len(),
{
    if ops.len() > 0 {
        law_close_ends_the_loop(s, ops.drop_last());
    }
}

} // verus!
