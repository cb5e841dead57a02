//! System clock selection: the prescaler table and the derived frequencies.
//!
//! Programming the clock-control register is a single register write; what
//! is stated exactly here is the arithmetic: which divisor a prescaler
//! selects and what frequency comes out.

use vstd::prelude::*;

verus! {

/// The root oscillator frequency of the part, in hertz.
pub const MAX32660_MAX_CLK: u32 = 96_000_000;

/// System clock prescaler: the oscillator is divided by a power of two.
#[derive(Clone, Copy, PartialEq, Eq, Structural, Debug)]
pub enum ClkPreScaler {
    DIV_1,
    DIV_2,
    DIV_4,
    DIV_8,
    DIV_16,
    DIV_32,
    DIV_64,
    DIV_128,
}

/// The three-bit register value of a prescaler: the exponent of its divisor.
pub open spec fn spec_prescaler_bits(psc: ClkPreScaler) -> u8 {
    match psc {
        ClkPreScaler::DIV_1 => 0,
        ClkPreScaler::DIV_2 => 1,
        ClkPreScaler::DIV_4 => 2,
        ClkPreScaler::DIV_8 => 3,
        ClkPreScaler::DIV_16 => 4,
        ClkPreScaler::DIV_32 => 5,
        ClkPreScaler::DIV_64 => 6,
        ClkPreScaler::DIV_128 => 7,
    }
}

/// The three-bit register value of a prescaler: the exponent of its divisor.
pub fn prescaler_bits(psc: ClkPreScaler) -> (bits: u8)
    ensures
        bits == spec_prescaler_bits(psc),
        bits < 8,
{
    match psc {
        ClkPreScaler::DIV_1 => 0,
        ClkPreScaler::DIV_2 => 1,
        ClkPreScaler::DIV_4 => 2,
        ClkPreScaler::DIV_8 => 3,
        ClkPreScaler::DIV_16 => 4,
        ClkPreScaler::DIV_32 => 5,
        ClkPreScaler::DIV_64 => 6,
        ClkPreScaler::DIV_128 => 7,
    }
}

/// The system clock frequency that a prescaler setting yields: the root
/// clock divided by two to the prescaler exponent.
pub fn compute_clk_freq(max_clk_freq: u32, prescaler: u8) -> (freq: u32)
    requires
        prescaler < 32,
    ensures
        freq == max_clk_freq / (1u32 << prescaler),
{
    proof {
        assert(1u32 << prescaler != 0) by (bit_vector)
            requires
                prescaler < 32,
        ;
    }
    max_clk_freq / (1u32 << prescaler)
}

/// The peripheral clock: half the system clock.
pub fn pclk_freq(clk_freq: u32) -> (freq: u32)
    ensures
        freq == clk_freq / 2,
{
    clk_freq / 2
}

} // verus!
