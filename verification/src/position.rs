use std::time::Duration;
use vstd::prelude::*;
use vstd::std_specs::convert::FromSpecImpl;

verus! {

/// Position in the media.
#[derive(Debug, Clone, Copy, PartialEq, Eq, PartialOrd, Ord, Hash)]
pub enum Position {
    /// Position based on time.
    ///
    /// Not the most accurate format for videos.
    Time(Duration),
    /// Position based on nth frame.
    Frame(i64),
}

impl From<Duration> for Position {
    fn from(t: Duration) -> (position: Position) {
        Position::Time(t)
    }
}

impl FromSpecImpl<Duration> for Position {
    open spec fn obeys_from_spec() -> bool {
        true
    }

    open spec fn from_spec(t: Duration) -> Position {
        Position::Time(t)
    }
}

impl From<i64> for Position {
    fn from(f: i64) -> (position: Position) {
        Position::Frame(f)
    }
}

impl FromSpecImpl<i64> for Position {
    open spec fn obeys_from_spec() -> bool {
        true
    }

    open spec fn from_spec(f: i64) -> Position {
        Position::Frame(f)
    }
}

} // verus!
