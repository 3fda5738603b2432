//! The precise timer: the time shown is derived from a starting time and a
//! sample of the time that has passed since, to the millisecond.

use vstd::prelude::*;
use std::time::Instant;
use super::clock::{elapsed_since, since_unix_epoch, wall_clock_now, whole_micros};
use super::line::{display_row, format_row, Type};
use super::text::{bracketed_millis, render_bracketed_millis};
use super::time_value::{decompose, TimeValue};

verus! {

/// Microseconds in a second.
pub const MICROS_PER_SECOND: u128 = 1_000_000;

/// The direction in which a precise timer counts.
#[derive(Clone, Copy, Debug, PartialEq, Eq, Structural)]
pub enum CountType {
    /// From the starting time upwards.
    Up,
    /// From the starting time down to zero.
    Down,
}

/// What a precise timer holds: the time it started from, the time that has
/// passed according to the latest sample, both in microseconds, and its
/// direction.
pub struct Sample {
    pub starting_micros: nat,
    pub elapsed_micros: nat,
    pub count: CountType,
}

impl Sample {
    /// The microseconds that the timer shows: counting up, the starting time
    /// plus the time that has passed; counting down, the starting time less
    /// the time that has passed, and zero once that much has passed.
    pub open spec fn displayed_micros(self) -> nat {
        match self.count {
            CountType::Up => self.starting_micros + self.elapsed_micros,
            CountType::Down => if self.starting_micros <= self.elapsed_micros {
                0
            } else {
                (self.starting_micros - self.elapsed_micros) as nat
            },
        }
    }

    /// The whole seconds that the timer shows.
    pub open spec fn displayed_seconds(self) -> nat {
        self.displayed_micros() / 1_000_000
    }

    /// The time that the timer shows.
    pub open spec fn time(self) -> TimeValue {
        decompose(self.displayed_seconds()).with_milliseconds(
            (self.displayed_micros() / 1000) % 1000,
        )
    }
}

/// The starting time that a reading of the wall clock gives, in microseconds
/// since the epoch: zero where the clock could not be read.
pub open spec fn anchor_of(reading: Option<u128>) -> nat {
    match reading {
        Some(micros) => micros as nat,
        None => 0,
    }
}

/// A timer counting down shows zero in every field once as much time has
/// passed as it started from.
pub proof fn lemma_countdown_floors_at_zero(sample: Sample)
    requires
        sample.count == CountType::Down,
        sample.elapsed_micros >= sample.starting_micros,
    ensures
        sample.displayed_micros() == 0,
        sample.time().digits() == (0nat, 0nat, 0nat),
        sample.time().milliseconds == 0,
{
}

/// The time shown is normalized, whatever the sample.
pub proof fn lemma_displayed_time_is_normalized(sample: Sample)
    ensures
        sample.time().normalized(),
        sample.time().total_seconds() == sample.displayed_seconds(),
{
}

/// A timer with millisecond resolution.
pub struct PreciseTimer {
    starting_micros: u128,
    elapsed_micros: u128,
    count: CountType,
}

impl View for PreciseTimer {
    type V = Sample;

    closed spec fn view(&self) -> Sample {
        Sample {
            starting_micros: self.starting_micros as nat,
            elapsed_micros: self.elapsed_micros as nat,
            count: self.count,
        }
    }
}

impl PreciseTimer {
    /// The whole seconds that the timer shows.
    pub fn whole_seconds(&self) -> (seconds: u128)
        ensures
            seconds == self@.displayed_seconds(),
    {
        match self.count {
            CountType::Up => {
                let carry = (self.starting_micros % MICROS_PER_SECOND + self.elapsed_micros
                    % MICROS_PER_SECOND) / MICROS_PER_SECOND;
                self.starting_micros / MICROS_PER_SECOND + self.elapsed_micros
                    / MICROS_PER_SECOND + carry
            },
            CountType::Down => {
                if self.starting_micros <= self.elapsed_micros {
                    0
                } else {
                    (self.starting_micros - self.elapsed_micros) / MICROS_PER_SECOND
                }
            },
        }
    }

    /// The microseconds that the timer shows beyond its whole seconds.
    pub fn subsecond_micros(&self) -> (micros: u32)
        ensures
            micros == self@.displayed_micros() % 1_000_000,
    {
        let micros = match self.count {
            CountType::Up => {
                (self.starting_micros % MICROS_PER_SECOND + self.elapsed_micros
                    % MICROS_PER_SECOND) % MICROS_PER_SECOND
            },
            CountType::Down => {
                if self.starting_micros <= self.elapsed_micros {
                    0
                } else {
                    (self.starting_micros - self.elapsed_micros) % MICROS_PER_SECOND
                }
            },
        };
        micros as u32
    }

    /// Hours, minutes and seconds, in this order. Hours wrap at 256.
    pub fn get_digits(&self) -> (digits: (u8, u8, u8))
        ensures
            digits.0 == self@.time().hours % 256,
            digits.1 == self@.time().minutes,
            digits.2 == self@.time().seconds,
    {
        let secs = self.whole_seconds();
        let hours = secs / 3600;
        let seconds = secs % 60;
        let minutes = (secs / 60) % 60;
        ((hours % 256) as u8, minutes as u8, seconds as u8)
    }

    /// The milliseconds beyond the whole seconds.
    pub fn get_millis(&self) -> (milliseconds: usize)
        ensures
            milliseconds == self@.time().milliseconds,
    {
        (self.subsecond_micros() / 1000) as usize
    }

    /// A timer that starts from the given count of seconds, with no time
    /// passed.
    pub fn from_secs(seconds: usize, count: CountType) -> (timer: PreciseTimer)
        ensures
            timer@ == (Sample {
                starting_micros: seconds as nat * 1_000_000,
                elapsed_micros: 0,
                count,
            }),
    {
        let starting_micros = seconds as u128 * MICROS_PER_SECOND;
        PreciseTimer { starting_micros, elapsed_micros: 0, count }
    }

    /// A timer that starts from the given hours, minutes and seconds, with no
    /// time passed. Minutes and seconds of 60 or more count in full.
    pub fn new(
        hours: usize,
        minutes: usize,
        seconds: usize,
        count: CountType,
    ) -> (timer: PreciseTimer)
        ensures
            timer@ == (Sample {
                starting_micros: (hours as nat * 3600 + minutes as nat * 60 + seconds as nat)
                    * 1_000_000,
                elapsed_micros: 0,
                count,
            }),
    {
        let hours = hours as u128;
        let minutes = minutes as u128;
        let seconds = seconds as u128;
        let starting_micros = seconds + minutes * 60 + hours * 3600;
        let starting_micros = starting_micros * MICROS_PER_SECOND;
        PreciseTimer { starting_micros, elapsed_micros: 0, count }
    }

    /// A timer that starts from a reading of the wall clock, in microseconds
    /// since the epoch, with no time passed. Without a reading it starts
    /// from zero.
    pub fn from_wall_clock(reading: Option<u128>, count: CountType) -> (timer: PreciseTimer)
        ensures
            timer@ == (Sample {
                starting_micros: anchor_of(reading),
                elapsed_micros: 0,
                count,
            }),
    {
        let starting_micros = match reading {
            Some(micros) => micros,
            None => 0,
        };
        PreciseTimer { starting_micros, elapsed_micros: 0, count }
    }

    /// A timer that starts from a reading of the wall clock, as
    /// [`PreciseTimer::from_wall_clock`] makes it, together with the warning
    /// that is owed to whoever asked for it: `true` where there was no
    /// reading and the timer starts from zero instead.
    pub fn from_wall_clock_reported(
        reading: Option<u128>,
        count: CountType,
    ) -> (started: (PreciseTimer, bool))
        ensures
            started.0@ == (Sample {
                starting_micros: anchor_of(reading),
                elapsed_micros: 0,
                count,
            }),
            started.1 == (reading is None),
    {
        let clock_failed = reading.is_none();
        (PreciseTimer::from_wall_clock(reading, count), clock_failed)
    }

    /// A timer that starts from the wall clock's present time, with no time
    /// passed, together with a warning: `true` where the clock could not be
    /// read. The timer then starts from zero.
    pub fn now_reported(count: CountType) -> (started: (PreciseTimer, bool))
        ensures
            started.0@.elapsed_micros == 0,
            started.0@.count == count,
            started.1 ==> started.0@.starting_micros == 0,
    {
        let systime = wall_clock_now();
        let reading = match since_unix_epoch(&systime) {
            Some(duration) => Some(whole_micros(&duration)),
            None => None,
        };
        PreciseTimer::from_wall_clock_reported(reading, count)
    }

    /// A timer that starts from the wall clock's present time, with no time
    /// passed; from zero where the clock cannot be read. This form drops the
    /// warning: [`PreciseTimer::now_reported`] hands it out.
    pub fn now(count: CountType) -> (timer: PreciseTimer)
        ensures
            timer@.elapsed_micros == 0,
            timer@.count == count,
    {
        let (timer, _) = PreciseTimer::now_reported(count);
        timer
    }

    /// Takes `elapsed_micros` as the time that has passed, in place of the
    /// sample before.
    pub fn record(&mut self, elapsed_micros: u128)
        ensures
            final(self)@ == (Sample { elapsed_micros: elapsed_micros as nat, ..old(self)@ }),
    {
        self.elapsed_micros = elapsed_micros;
    }

    /// Takes the time that has passed since `instant` as the new sample, in
    /// place of the sample before.
    pub fn tick(&mut self, instant: &Instant)
        ensures
            final(self)@.starting_micros == old(self)@.starting_micros,
            final(self)@.count == old(self)@.count,
    {
        let elapsed = whole_micros(&elapsed_since(instant));
        self.record(elapsed);
    }

    /// Builds line `line_number` of the large display.
    pub fn display_format_line(&self, line_number: u8, display_type: &Type) -> (line: String)
        requires
            line_number <= 14,
        ensures
            line@ == display_row(
                (self@.time().hours % 256) as u8,
                self@.time().minutes as u8,
                self@.time().seconds as u8,
                line_number as int,
                *display_type,
            ),
    {
        let (hours, minutes, seconds) = self.get_digits();
        format_row(hours, minutes, seconds, line_number, display_type)
    }

    /// The text `[HH:MM:SS:mmm]` of the time shown. Hours wrap at 256.
    pub fn text_render(&self) -> (text: String)
        ensures
            text@ == bracketed_millis(
                self@.time().hours % 256,
                self@.time().minutes,
                self@.time().seconds,
                self@.time().milliseconds,
            ),
    {
        let (hours, minutes, seconds) = self.get_digits();
        let milliseconds = self.get_millis();
        render_bracketed_millis(hours as usize, minutes as usize, seconds as usize, milliseconds)
    }
}

} // verus!
