//! A fractal clock: second, minute and hour hands whose tips spawn rotated,
//! shrinking, dimming copies of the clock, level after level.
//!
//! `clock` holds the state and its updates, `time_of_day` the hands' phases,
//! and `expansion` the strokes of each frame in drawing order.

pub mod clock;
pub mod expansion;
pub mod time_of_day;
