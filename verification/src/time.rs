use std::time::Duration;
use vstd::prelude::*;

verus! {

/// Nanoseconds in one second.
pub const NANOS_PER_SEC: u64 = 1_000_000_000;

/// Nanoseconds in one millisecond.
pub const NANOS_PER_MILLI: u64 = 1_000_000;

/// The length of a `Duration` in whole nanoseconds: what `Duration::as_nanos` reports.
pub uninterp spec fn duration_nanos(d: Duration) -> nat;

/// The longest `Duration` there is, in nanoseconds: `u64::MAX` seconds and
/// 999,999,999 nanoseconds.
pub open spec fn max_duration_nanos() -> nat {
    (u64::MAX as nat) * (NANOS_PER_SEC as nat) + 999_999_999
}

/// A length of time in nanoseconds, cut off at the longest `Duration`.
pub open spec fn clamp_to_duration(nanos: nat) -> nat {
    if nanos <= max_duration_nanos() {
        nanos
    } else {
        max_duration_nanos()
    }
}

/// A length of time in nanoseconds as whole seconds, half a second rounding up,
/// cut off at `u64::MAX` seconds.
pub open spec fn rounded_seconds(nanos: nat) -> nat {
    let secs = (nanos + 500_000_000) / 1_000_000_000;
    if secs <= u64::MAX {
        secs
    } else {
        u64::MAX as nat
    }
}

/// `Duration::as_millis` is documented to return the number of whole milliseconds
/// that the duration contains; nothing else is assumed of it.
pub assume_specification[ Duration::as_millis ](d: &Duration) -> (millis: u128)
    ensures
        millis == duration_nanos(*d) / (NANOS_PER_MILLI as nat),
;

/// `Duration::new` is documented to build the duration of `secs` seconds and
/// `nanos` nanoseconds, carrying whole seconds out of `nanos`, and to panic when
/// that carry overflows the seconds: the precondition rules the panic out.
pub assume_specification[ Duration::new ](secs: u64, nanos: u32) -> (d: Duration)
    requires
        secs + nanos / 1_000_000_000 <= u64::MAX,
    ensures
        duration_nanos(d) == secs * NANOS_PER_SEC + nanos,
;

/// The unit in which a decoder counts time: a positive rational number of seconds.
#[derive(Debug, Clone, Copy, PartialEq, Eq)]
pub struct TimeBase {
    numerator: i32,
    denominator: i32,
}

impl TimeBase {
    #[verifier::type_invariant]
    spec fn positive(self) -> bool {
        self.numerator > 0 && self.denominator > 0
    }

    /// The numerator of the unit.
    pub closed spec fn num(self) -> int {
        self.numerator as int
    }

    /// The denominator of the unit.
    pub closed spec fn den(self) -> int {
        self.denominator as int
    }

    /// The unit of `numerator / denominator` seconds, if that is a positive number.
    pub fn new(numerator: i32, denominator: i32) -> (base: Option<TimeBase>)
        ensures
            base.is_some() <==> numerator > 0 && denominator > 0,
            base matches Some(b) ==> b.num() == numerator && b.den() == denominator,
    {
        if numerator > 0 && denominator > 0 {
            Some(TimeBase { numerator, denominator })
        } else {
            None
        }
    }

    /// The numerator of the unit.
    pub fn numerator(&self) -> (n: i32)
        ensures
            n == self.num(),
            n > 0,
    {
        proof {
            use_type_invariant(self);
        }
        self.numerator
    }

    /// The denominator of the unit.
    pub fn denominator(&self) -> (n: i32)
        ensures
            n == self.den(),
            n > 0,
    {
        proof {
            use_type_invariant(self);
        }
        self.denominator
    }
}

/// A presentation time as a decoder reports it: a count of time-base units, or no
/// time at all.
#[derive(Debug, Clone, Copy, PartialEq, Eq)]
pub struct Timestamp {
    /// The count of units; `None` where the decoder gave no time.
    pub pts: Option<i64>,
    /// The unit that `pts` counts.
    pub base: TimeBase,
}

impl Timestamp {
    /// The time in whole nanoseconds, rounded down. No time and a time before the
    /// start of the stream both count as zero.
    pub open spec fn nanos(self) -> nat {
        match self.pts {
            Some(t) if t > 0 => ((t * self.base.num() * 1_000_000_000) / self.base.den()) as nat,
            _ => 0,
        }
    }

    /// The time of `pts` units of `base`.
    pub fn new(pts: Option<i64>, base: TimeBase) -> (time: Timestamp)
        ensures
            time == (Timestamp { pts, base }),
    {
        Timestamp { pts, base }
    }

    /// Whether the decoder gave a time at all.
    pub fn has_value(&self) -> (known: bool)
        ensures
            known == self.pts.is_some(),
    {
        self.pts.is_some()
    }

    /// The time in whole nanoseconds, rounded down.
    pub fn total_nanos(&self) -> (total: u128)
        ensures
            total == self.nanos(),
            total <= 0x7fff_ffff_ffff_ffff * 0x7fff_ffff * 1_000_000_000,
    {
        let t: i64 = match self.pts {
            Some(t) => t,
            None => 0,
        };
        if t <= 0 {
            return 0;
        }
        let num: i32 = self.base.numerator();
        let den: i32 = self.base.denominator();
        assert(t * num <= 0x7fff_ffff_ffff_ffff * 0x7fff_ffff) by (nonlinear_arith)
            requires
                0 < t <= 0x7fff_ffff_ffff_ffff,
                0 < num <= 0x7fff_ffff,
        ;
        let ticks: u128 = (t as u128) * (num as u128);
        let scaled: u128 = ticks * 1_000_000_000;
        assert(scaled / (den as u128) <= scaled) by (nonlinear_arith)
            requires
                den >= 1,
        ;
        scaled / (den as u128)
    }

    /// The time as a `Duration`. A time too long for a `Duration` gives the longest
    /// one.
    pub fn to_duration(&self) -> (d: Duration)
        ensures
            duration_nanos(d) == clamp_to_duration(self.nanos()),
    {
        let total: u128 = self.total_nanos();
        let secs: u128 = total / 1_000_000_000;
        let subsec: u128 = total % 1_000_000_000;
        if secs > u64::MAX as u128 {
            Duration::new(u64::MAX, 999_999_999)
        } else {
            Duration::new(secs as u64, subsec as u32)
        }
    }

    /// The time rounded to the nearest whole second, half a second rounding up, as
    /// a `Duration`. A time too long for a `Duration` gives `u64::MAX` seconds.
    pub fn to_whole_seconds(&self) -> (d: Duration)
        ensures
            duration_nanos(d) == rounded_seconds(self.nanos()) * NANOS_PER_SEC,
    {
        let total: u128 = self.total_nanos();
        let secs: u128 = (total + 500_000_000) / 1_000_000_000;
        if secs > u64::MAX as u128 {
            Duration::new(u64::MAX, 0)
        } else {
            Duration::new(secs as u64, 0)
        }
    }
}

/// How many frames a stream shows per second: a positive rational number, at most
/// one frame per nanosecond.
#[derive(Debug, Clone, Copy, PartialEq, Eq)]
pub struct FrameRate {
    numerator: u32,
    denominator: u32,
}

impl FrameRate {
    #[verifier::type_invariant]
    spec fn usable(self) -> bool {
        &&& self.numerator > 0
        &&& self.denominator > 0
        &&& self.numerator <= self.denominator * NANOS_PER_SEC
    }

    /// Frames per `den()` seconds.
    pub closed spec fn num(self) -> int {
        self.numerator as int
    }

    /// Seconds per `num()` frames.
    pub closed spec fn den(self) -> int {
        self.denominator as int
    }

    /// The time from one frame to the next in whole nanoseconds, rounded down.
    pub open spec fn interval(self) -> int {
        (self.den() * 1_000_000_000) / self.num()
    }

    /// The rate of `numerator / denominator` frames per second, if that is a
    /// positive number of at most one frame per nanosecond.
    pub fn new(numerator: u32, denominator: u32) -> (rate: Option<FrameRate>)
        ensures
            rate.is_some() <==> numerator > 0 && denominator > 0 && numerator <= denominator
                * 1_000_000_000,
            rate matches Some(r) ==> r.num() == numerator && r.den() == denominator,
    {
        if numerator > 0 && denominator > 0 && numerator as u64 <= denominator as u64
            * NANOS_PER_SEC {
            Some(FrameRate { numerator, denominator })
        } else {
            None
        }
    }

    /// Frames per [`FrameRate::denominator`] seconds.
    pub fn numerator(&self) -> (n: u32)
        ensures
            n == self.num(),
    {
        self.numerator
    }

    /// Seconds per [`FrameRate::numerator`] frames.
    pub fn denominator(&self) -> (n: u32)
        ensures
            n == self.den(),
    {
        self.denominator
    }

    /// The time from one frame to the next in whole nanoseconds, rounded down: at
    /// least one.
    pub fn interval_nanos(&self) -> (nanos: u64)
        ensures
            nanos == self.interval(),
            nanos >= 1,
    {
        proof {
            use_type_invariant(self);
        }
        let span: u64 = self.denominator as u64 * NANOS_PER_SEC;
        let frames: u64 = self.numerator as u64;
        assert(span / frames >= 1) by (nonlinear_arith)
            requires
                0 < frames <= span,
        ;
        span / frames
    }
}

} // verus!
