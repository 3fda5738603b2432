//! The time a timer shows, as a mathematical value.

use vstd::prelude::*;

verus! {

/// The time a timer shows: hours, minutes, seconds and milliseconds.
///
/// This is the model that the contracts of both timers speak of.
pub struct TimeValue {
    pub hours: nat,
    pub minutes: nat,
    pub seconds: nat,
    pub milliseconds: nat,
}

impl TimeValue {
    /// Minutes and seconds stay below 60, milliseconds below 1000.
    pub open spec fn normalized(self) -> bool {
        &&& self.minutes < 60
        &&& self.seconds < 60
        &&& self.milliseconds < 1000
    }

    /// The whole seconds that the hours, minutes and seconds add up to.
    pub open spec fn total_seconds(self) -> nat {
        self.hours * 3600 + self.minutes * 60 + self.seconds
    }

    /// The same hours, minutes and seconds with other milliseconds.
    pub open spec fn with_milliseconds(self, milliseconds: nat) -> TimeValue {
        TimeValue { milliseconds, ..self }
    }

    /// The hours, minutes and seconds as a triple.
    pub open spec fn digits(self) -> (nat, nat, nat) {
        (self.hours, self.minutes, self.seconds)
    }
}

/// Breaks a count of seconds into hours, minutes and seconds, with no
/// milliseconds.
pub open spec fn decompose(total: nat) -> TimeValue {
    TimeValue {
        hours: total / 3600,
        minutes: (total / 60) % 60,
        seconds: total % 60,
        milliseconds: 0,
    }
}

/// Round trip: the hours, minutes and seconds that a count of seconds breaks
/// into add up to that count again, and they are normalized.
pub proof fn lemma_decompose_round_trip(total: nat)
    ensures
        decompose(total).total_seconds() == total,
        decompose(total).normalized(),
{
}

/// A normalized time is the decomposition of its own total: no two
/// normalized times with the same milliseconds share a total.
pub proof fn lemma_normalized_is_decomposed(time: TimeValue)
    requires
        time.normalized(),
    ensures
        decompose(time.total_seconds()).with_milliseconds(time.milliseconds) == time,
{
}

} // verus!
