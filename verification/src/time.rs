//! Instants on the UTC time line and the whole seconds between them.

use vstd::prelude::*;

verus! {

/// Nanoseconds in one second.
pub const NANOS_PER_SECOND: u32 = 1_000_000_000;

/// Largest magnitude of the `seconds` part of a [`Timestamp`]. Any two
/// instants within this bound are less than `2^63` seconds apart, so their
/// distance in whole seconds fits an `i64`.
pub const MAX_SECONDS: i64 = 4_611_686_018_427_387_903;

/// Whether `seconds` and `nanoseconds` are the parts of a [`Timestamp`].
pub open spec fn is_instant(seconds: int, nanoseconds: int) -> bool {
    &&& -MAX_SECONDS <= seconds <= MAX_SECONDS
    &&& 0 <= nanoseconds < NANOS_PER_SECOND
}

/// The nanoseconds since the epoch of the instant `seconds` + `nanoseconds`.
pub open spec fn instant_nanos(seconds: int, nanoseconds: int) -> int {
    seconds * NANOS_PER_SECOND + nanoseconds
}

/// A signed span of `nanos` nanoseconds in whole seconds, rounded toward zero.
pub open spec fn whole_seconds(nanos: int) -> int {
    if nanos >= 0 {
        nanos / (NANOS_PER_SECOND as int)
    } else {
        -((-nanos) / (NANOS_PER_SECOND as int))
    }
}

/// An instant: whole seconds since the epoch (negative before it) and the
/// nanoseconds into that second.
#[derive(Clone, Copy, Debug, PartialEq, Eq)]
pub struct Timestamp {
    seconds: i64,
    nanoseconds: u32,
}

impl View for Timestamp {
    type V = int;

    /// The instant as nanoseconds since the epoch.
    closed spec fn view(&self) -> int {
        instant_nanos(self.seconds as int, self.nanoseconds as int)
    }
}

impl Timestamp {
    #[verifier::type_invariant]
    spec fn in_range(self) -> bool {
        is_instant(self.seconds as int, self.nanoseconds as int)
    }

    /// The instant `seconds` + `nanoseconds`, or `None` when the parts are out
    /// of range.
    pub fn new(seconds: i64, nanoseconds: u32) -> (made: Option<Timestamp>)
        ensures
            made is Some <==> is_instant(seconds as int, nanoseconds as int),
            made matches Some(instant) ==> instant@ == instant_nanos(
                seconds as int,
                nanoseconds as int,
            ),
    {
        if -MAX_SECONDS <= seconds && seconds <= MAX_SECONDS && nanoseconds < NANOS_PER_SECOND {
            Some(Timestamp { seconds, nanoseconds })
        } else {
            None
        }
    }

    /// The whole seconds since the epoch, rounded toward the past.
    pub fn seconds(&self) -> (s: i64)
        ensures
            s == self@ / (NANOS_PER_SECOND as int),
    {
        proof {
            use_type_invariant(self);
        }
        self.seconds
    }

    /// The nanoseconds into the current second.
    pub fn nanoseconds(&self) -> (n: u32)
        ensures
            n == self@ % (NANOS_PER_SECOND as int),
    {
        proof {
            use_type_invariant(self);
        }
        self.nanoseconds
    }

    /// The whole seconds from `earlier` to `self`, rounded toward zero;
    /// negative when `self` is the earlier of the two.
    pub fn whole_seconds_since(&self, earlier: &Timestamp) -> (elapsed: i64)
        ensures
            elapsed == whole_seconds(self@ - earlier@),
    {
        proof {
            use_type_invariant(self);
            use_type_invariant(earlier);
        }
        let seconds: i64 = self.seconds - earlier.seconds;
        if self.nanoseconds >= earlier.nanoseconds {
            if seconds < 0 && self.nanoseconds > earlier.nanoseconds {
                seconds + 1
            } else {
                seconds
            }
        } else {
            if seconds > 0 {
                seconds - 1
            } else {
                seconds
            }
        }
    }
}

} // verus!
