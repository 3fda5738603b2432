//! Timers and their rendering.

use vstd::prelude::*;

pub mod bits;
pub mod clock;
pub mod coarse;
pub mod glyph;
pub mod line;
pub mod precise;
pub mod text;
pub mod time_value;

pub use bits::binary_conversion;
pub use coarse::Timer;
pub use glyph::{display_digit_render, separate_digits};
pub use line::Type;
pub use precise::{CountType, PreciseTimer};
pub use time_value::TimeValue;

verus! {

/// What the one who drives a timer may ask of it.
#[derive(Debug)]
pub enum TimerAction {
    /// Hold the timer, or let it run again.
    PauseResume,
    /// End the timer.
    Stop,
}

} // verus!
