//! Playback core of a video player: the single-slot frame mailbox shared between a
//! decoding loop and a presentation tick, the pause / resume / seek control surface
//! and the decode loop's state machine, each with a proved contract.
//!
//! Nothing in here blocks, spawns or touches a decoder. The host owns the threads
//! and the decoder: it asks [`Shared::poll`] what the decode loop has to do next,
//! does it, and reports the outcome back with [`Shared::on_wake`] or
//! [`Shared::next`]. Every operation is a single atomic step on one owned record,
//! so a host that keeps the record behind one lock gets exactly the behaviour that
//! the laws in [`laws`] describe for every interleaving of its callers.
pub mod error;
pub mod laws;
pub mod position;
pub mod shared;
pub mod time;
pub mod video;
pub mod video_player;

pub use error::Error;
pub use position::Position;
pub use shared::{Decoded, Halt, LoopAction, LoopPhase, SeekTarget, Shared};
pub use time::{FrameRate, TimeBase, Timestamp};
pub use video::{Acceleration, StreamInfo, Video};
pub use video_player::{DrawRequest, Event, Notice, Reaction, Status, VideoPlayer};
