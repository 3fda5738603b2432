//! A terminal timer and stopwatch: second-accurate and millisecond-accurate
//! timers, and a renderer that draws their digits as large block glyphs.

pub mod timer;
