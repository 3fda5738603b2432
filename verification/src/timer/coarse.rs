//! The coarse timer: whole seconds, advanced one at a time.
//!
//! The timer never reads a clock. Its caller polls one and hands each reading
//! to [`Timer::tic`], [`Timer::countup`] or [`Timer::countdown`], which say
//! whether a full second had passed and the time has moved.

use vstd::prelude::*;
use super::line::{display_row, format_row, Type};
use super::text::{bracketed, render_bracketed};
use super::time_value::{decompose, lemma_decompose_round_trip, TimeValue};

verus! {

/// Microseconds that must have passed before the time moves by one second.
pub const SECOND_GATE_MICROS: u128 = 1_000_000;

/// Microseconds that must have passed before a poll moves the millisecond
/// counter.
pub const POLL_GATE_MICROS: u128 = 1_000;

/// A timer that keeps hours, minutes and seconds, and a millisecond counter
/// that moves once per poll.
pub struct Timer {
    hours: usize,
    minutes: usize,
    seconds: usize,
    milliseconds: usize,
}

impl View for Timer {
    type V = TimeValue;

    closed spec fn view(&self) -> TimeValue {
        TimeValue {
            hours: self.hours as nat,
            minutes: self.minutes as nat,
            seconds: self.seconds as nat,
            milliseconds: self.milliseconds as nat,
        }
    }
}

/// The millisecond counter after a poll of `countup`.
pub open spec fn millis_after_up(milliseconds: nat, elapsed_micros: u128) -> nat {
    if elapsed_micros >= POLL_GATE_MICROS {
        (milliseconds + 1) % 1000
    } else {
        milliseconds
    }
}

/// The millisecond counter after a poll of `countdown`.
pub open spec fn millis_after_down(milliseconds: nat, elapsed_micros: u128) -> nat {
    if elapsed_micros < POLL_GATE_MICROS {
        milliseconds
    } else if milliseconds == 0 {
        999
    } else {
        (milliseconds - 1) as nat
    }
}

/// The time one second later, with the same milliseconds.
pub open spec fn second_later(time: TimeValue) -> TimeValue {
    decompose(time.total_seconds() + 1).with_milliseconds(time.milliseconds)
}

/// The time one second earlier, with the same milliseconds; zero stays zero.
pub open spec fn second_earlier(time: TimeValue) -> TimeValue {
    if time.total_seconds() == 0 {
        time
    } else {
        decompose((time.total_seconds() - 1) as nat).with_milliseconds(time.milliseconds)
    }
}

/// The time after one poll of `tic`.
pub open spec fn after_tic(before: TimeValue, elapsed_micros: u128) -> TimeValue {
    if elapsed_micros >= SECOND_GATE_MICROS {
        second_later(before)
    } else {
        before
    }
}

/// The time after one poll of `countup`.
pub open spec fn after_countup(before: TimeValue, elapsed_micros: u128) -> TimeValue {
    after_tic(before, elapsed_micros).with_milliseconds(
        millis_after_up(before.milliseconds, elapsed_micros),
    )
}

/// The time after one poll of `countdown`.
pub open spec fn after_countdown(before: TimeValue, elapsed_micros: u128) -> TimeValue {
    let moved = if elapsed_micros >= SECOND_GATE_MICROS {
        second_earlier(before)
    } else {
        before
    };
    moved.with_milliseconds(millis_after_down(before.milliseconds, elapsed_micros))
}

/// A timer made from a count of seconds shows one second more after it has
/// counted up once, one second less after it has counted down once, and zero
/// still after it has counted down from zero.
pub proof fn lemma_count_from_seconds(secs: nat, elapsed_micros: u128)
    requires
        elapsed_micros >= SECOND_GATE_MICROS,
    ensures
        after_tic(decompose(secs), elapsed_micros).total_seconds() == secs + 1,
        after_countup(decompose(secs), elapsed_micros).total_seconds() == secs + 1,
        secs > 0 ==> after_countdown(decompose(secs), elapsed_micros).total_seconds() == secs - 1,
        after_countdown(decompose(0), elapsed_micros).total_seconds() == 0,
{
    lemma_decompose_round_trip(secs);
    lemma_decompose_round_trip(secs + 1);
    assert(second_later(decompose(secs)).total_seconds() == secs + 1);
    if secs > 0 {
        lemma_decompose_round_trip((secs - 1) as nat);
        assert(second_earlier(decompose(secs)).total_seconds() == secs - 1);
    }
}

/// Every poll keeps a normalized time normalized, and leaves hours, minutes
/// and seconds alone until a full second has passed.
pub proof fn lemma_polls_keep_normalized(before: TimeValue, elapsed_micros: u128)
    requires
        before.normalized(),
    ensures
        after_tic(before, elapsed_micros).normalized(),
        after_countup(before, elapsed_micros).normalized(),
        after_countdown(before, elapsed_micros).normalized(),
        elapsed_micros < SECOND_GATE_MICROS ==> {
            &&& after_tic(before, elapsed_micros) == before
            &&& after_countup(before, elapsed_micros).digits() == before.digits()
            &&& after_countdown(before, elapsed_micros).digits() == before.digits()
        },
{
    lemma_decompose_round_trip(before.total_seconds() + 1);
    if before.total_seconds() > 0 {
        lemma_decompose_round_trip((before.total_seconds() - 1) as nat);
    }
}

impl Timer {
    /// The whole seconds that the timer shows.
    pub fn get_seconds(&self) -> (total: usize)
        requires
            self@.total_seconds() <= usize::MAX,
        ensures
            total == self@.total_seconds(),
    {
        self.seconds + self.minutes * 60 + self.hours * 3600
    }

    /// Hours, minutes and seconds, in this order.
    pub fn get_digits(&self) -> (digits: (usize, usize, usize))
        ensures
            digits.0 == self@.hours,
            digits.1 == self@.minutes,
            digits.2 == self@.seconds,
    {
        (self.hours, self.minutes, self.seconds)
    }

    /// The millisecond counter.
    pub fn get_millis(&self) -> (milliseconds: usize)
        ensures
            milliseconds == self@.milliseconds,
    {
        self.milliseconds
    }

    /// A timer that shows the given count of seconds.
    pub fn from_secs(secs: usize) -> (timer: Timer)
        ensures
            timer@ == decompose(secs as nat),
            timer@.total_seconds() == secs,
            timer@.normalized(),
    {
        let hours = secs / 3600;
        let seconds = secs % 60;
        let minutes = (secs / 60) % 60;
        let milliseconds: usize = 0;
        Timer { seconds, minutes, hours, milliseconds }
    }

    /// A timer that shows the given fields as they are. Nothing is carried
    /// over: with 60 or more minutes or seconds the timer is not normalized.
    pub fn new(hours: usize, minutes: usize, seconds: usize) -> (timer: Timer)
        ensures
            timer@ == (TimeValue {
                hours: hours as nat,
                minutes: minutes as nat,
                seconds: seconds as nat,
                milliseconds: 0,
            }),
    {
        let milliseconds: usize = 0;
        Timer { seconds, minutes, hours, milliseconds }
    }

    /// One poll of a tick: once a full second has passed, the total moves up
    /// by one and hours, minutes and seconds are derived from it anew.
    ///
    /// Returns whether the second had passed.
    pub fn tic(&mut self, elapsed_micros: u128) -> (fired: bool)
        requires
            old(self)@.total_seconds() < usize::MAX,
        ensures
            fired == (elapsed_micros >= SECOND_GATE_MICROS),
            final(self)@ == after_tic(old(self)@, elapsed_micros),
    {
        if elapsed_micros >= SECOND_GATE_MICROS {
            let value = self.get_seconds() + 1;
            if value >= 60 {
                self.seconds = value % 60;
                if value / 60 >= 60 {
                    self.hours = value / 60 / 60;
                    self.minutes = (value / 60) % 60;
                    return true;
                }
                self.minutes = value / 60;
                return true;
            }
            self.seconds = value;
            return true;
        }
        false
    }

    /// One poll of counting up: the millisecond counter moves once a
    /// millisecond has passed, and once a full second has passed the time
    /// moves up by one second, carrying into minutes and hours.
    ///
    /// Returns whether the second had passed.
    pub fn countup(&mut self, elapsed_micros: u128) -> (fired: bool)
        requires
            old(self)@.normalized(),
            old(self)@.hours < usize::MAX,
        ensures
            fired == (elapsed_micros >= SECOND_GATE_MICROS),
            final(self)@ == after_countup(old(self)@, elapsed_micros),
            final(self)@.normalized(),
            fired ==> final(self)@.total_seconds() == old(self)@.total_seconds() + 1,
    {
        if elapsed_micros >= POLL_GATE_MICROS {
            self.milliseconds = (self.milliseconds + 1) % 1000;
        }
        if elapsed_micros >= SECOND_GATE_MICROS {
            if self.seconds < 59 {
                self.seconds += 1;
                return true;
            }
            if self.minutes < 59 {
                self.minutes += 1;
                self.seconds = 0;
                return true;
            }
            self.hours += 1;
            self.minutes = 0;
            self.seconds = 0;
            return true;
        }
        false
    }

    /// One poll of counting down: the millisecond counter moves once a
    /// millisecond has passed, and once a full second has passed the time
    /// moves down by one second, borrowing from minutes and hours. At zero
    /// the time stays at zero.
    ///
    /// Returns whether the second had passed.
    pub fn countdown(&mut self, elapsed_micros: u128) -> (fired: bool)
        requires
            old(self)@.normalized(),
        ensures
            fired == (elapsed_micros >= SECOND_GATE_MICROS),
            final(self)@ == after_countdown(old(self)@, elapsed_micros),
            final(self)@.normalized(),
            fired && old(self)@.total_seconds() > 0 ==> final(self)@.total_seconds() == old(
                self,
            )@.total_seconds() - 1,
            fired && old(self)@.total_seconds() == 0 ==> final(self)@.total_seconds() == 0,
    {
        if elapsed_micros >= POLL_GATE_MICROS {
            if self.milliseconds == 0 {
                self.milliseconds = 1000;
            }
            self.milliseconds = self.milliseconds - 1;
        }
        if elapsed_micros >= SECOND_GATE_MICROS {
            if self.seconds > 0 {
                self.seconds -= 1;
                return true;
            }
            if self.minutes > 0 {
                self.minutes -= 1;
                self.seconds = 59;
                return true;
            }
            if self.hours > 0 {
                self.hours -= 1;
                self.minutes = 59;
                self.seconds = 59;
                return true;
            }
            return true;
        }
        false
    }

    /// The text `[HH:MM:SS]` of the time shown.
    pub fn text_render(&self) -> (text: String)
        ensures
            text@ == bracketed(self@.hours, self@.minutes, self@.seconds),
    {
        render_bracketed(self.hours, self.minutes, self.seconds)
    }

    /// Builds line `line_number` of the large display. Each field wraps at
    /// 256 before it is split into its two digits.
    pub fn display_format_line(&self, line_number: u8, display_type: &Type) -> (line: String)
        requires
            line_number <= 14,
        ensures
            line@ == display_row(
                (self@.hours % 256) as u8,
                (self@.minutes % 256) as u8,
                (self@.seconds % 256) as u8,
                line_number as int,
                *display_type,
            ),
    {
        let (hours, minutes, seconds) = self.get_digits();
        format_row(
            (hours % 256) as u8,
            (minutes % 256) as u8,
            (seconds % 256) as u8,
            line_number,
            display_type,
        )
    }
}

} // verus!
