//! Timer peripheral configuration values.
//!
//! The timer driver itself computes its compare count from a floating-point
//! frequency and pokes a pair of registers, which stays outside the verified
//! library; the mode table is stated here.

use vstd::prelude::*;

verus! {

/// Errors of the timer driver; it currently has no failure modes, and the
/// library never constructs a value of this type.
#[derive(Debug, Copy, Clone)]
pub struct TimerError {}

/// Counting mode of a timer.
#[derive(Clone, Copy, PartialEq, Eq, Structural, Debug)]
pub enum TimerMode {
    OneShot,
    Continuous,
}

/// The three-bit mode field value of a timer mode.
pub open spec fn spec_timer_mode_bits(mode: TimerMode) -> u8 {
    match mode {
        TimerMode::OneShot => 0,
        TimerMode::Continuous => 1,
    }
}

/// The three-bit mode field value of a timer mode.
pub fn timer_mode_bits(mode: TimerMode) -> (bits: u8)
    ensures
        bits == spec_timer_mode_bits(mode),
{
    match mode {
        TimerMode::OneShot => 0,
        TimerMode::Continuous => 1,
    }
}

} // verus!
