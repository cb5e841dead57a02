//! GPIO pin configuration: the bit arithmetic and the configuration tables.
//!
//! The port driver itself is a set of plain register set/clear operations;
//! what is worth stating exactly lives here: the single-pin masks and the
//! per-function, per-drive-strength and per-resistor register settings.

use vstd::prelude::*;

verus! {

/// GPIO ports of the package.
#[derive(Clone, Copy, PartialEq, Eq, Structural, Debug)]
pub enum Ports {
    _0,
}

/// GPIO pins of port 0.
#[derive(Clone, Copy, PartialEq, Eq, Structural, Debug)]
pub enum Pins {
    _0,
    _1,
    _2,
    _3,
    _4,
    _5,
    _6,
    _7,
    _8,
    _9,
    _10,
    _11,
    _12,
    _13,
}

/// Polarity of a level-triggered interrupt.
#[derive(PartialEq, Eq, Structural)]
pub enum InterruptLevelPolarity {
    Low,
    High,
}

/// Polarity of an edge-triggered interrupt.
#[derive(PartialEq, Eq, Structural)]
pub enum InterruptEdgePolarity {
    Falling,
    Rising,
}

/// Level- or edge-triggered interrupt mode.
#[derive(PartialEq, Eq, Structural)]
pub enum InterruptMode {
    Level,
    Edge,
}

/// A pin handed over to one of the alternate functions.
pub struct AlternateFunctionPin {}

/// Output drive strength.
#[derive(Clone, Copy, PartialEq, Eq, Structural, Debug)]
pub enum DriveStrength {
    _1ma,
    _2ma,
    _4ma,
    _6ma,
    _I2C_2ma,
    _I2C_10ma,
}

/// What a pin is used as.
#[derive(Clone, Copy, PartialEq, Eq, Structural, Debug)]
pub enum Function {
    Input,
    Output,
    AF1,
    AF2,
    AF3,
}

/// Input termination.
#[derive(Clone, Copy, PartialEq, Eq, Structural, Debug)]
pub enum Resistor {
    HiZ,
    PullUp,
    PullDown,
}

/// The pin's index within its port.
pub open spec fn spec_pin_number(pin: Pins) -> u8 {
    match pin {
        Pins::_0 => 0,
        Pins::_1 => 1,
        Pins::_2 => 2,
        Pins::_3 => 3,
        Pins::_4 => 4,
        Pins::_5 => 5,
        Pins::_6 => 6,
        Pins::_7 => 7,
        Pins::_8 => 8,
        Pins::_9 => 9,
        Pins::_10 => 10,
        Pins::_11 => 11,
        Pins::_12 => 12,
        Pins::_13 => 13,
    }
}

/// The pin's index within its port; always a valid shift amount.
pub fn pin_number(pin: Pins) -> (n: u8)
    ensures
        n == spec_pin_number(pin),
        n < 14,
{
    match pin {
        Pins::_0 => 0,
        Pins::_1 => 1,
        Pins::_2 => 2,
        Pins::_3 => 3,
        Pins::_4 => 4,
        Pins::_5 => 5,
        Pins::_6 => 6,
        Pins::_7 => 7,
        Pins::_8 => 8,
        Pins::_9 => 9,
        Pins::_10 => 10,
        Pins::_11 => 11,
        Pins::_12 => 12,
        Pins::_13 => 13,
    }
}

/// The register mask with exactly the given pin's bit set.
pub fn pin_mask(pin: u8) -> (mask: u32)
    requires
        pin < 32,
    ensures
        mask == 1u32 << pin,
        mask != 0,
{
    proof {
        assert(1u32 << pin != 0) by (bit_vector)
            requires
                pin < 32,
        ;
    }
    1u32 << pin
}

/// Clear the given pin's bit in a register value, leaving the others alone.
pub fn pin_clear(input: u32, pin: u8) -> (out: u32)
    requires
        pin < 32,
    ensures
        out == input & !(1u32 << pin),
        out & (1u32 << pin) == 0,
        forall|i: u8| i < 32 && i != pin ==> out & (1u32 << i) == input & (1u32 << i),
{
    let out = input & !pin_mask(pin);
    proof {
        assert((input & !(1u32 << pin)) & (1u32 << pin) == 0) by (bit_vector);
        assert(forall|i: u8|
            i < 32 && i != pin ==> (input & !(1u32 << pin)) & (1u32 << i) == input & (
            1u32 << i)) by (bit_vector)
            requires
                pin < 32,
        ;
    }
    out
}

/// Set the given pin's bit in a register value, leaving the others alone.
pub fn pin_set(input: u32, pin: u8) -> (out: u32)
    requires
        pin < 32,
    ensures
        out == input | (1u32 << pin),
        out & (1u32 << pin) != 0,
        forall|i: u8| i < 32 && i != pin ==> out & (1u32 << i) == input & (1u32 << i),
{
    let out = input | pin_mask(pin);
    proof {
        assert((input | (1u32 << pin)) & (1u32 << pin) != 0) by (bit_vector)
            requires
                pin < 32,
        ;
        assert(forall|i: u8|
            i < 32 && i != pin ==> (input | (1u32 << pin)) & (1u32 << i) == input & (
            1u32 << i)) by (bit_vector)
            requires
                pin < 32,
        ;
    }
    out
}

/// The three enable-register bits that select a pin's function, in the order
/// (en, en1, en2).
pub open spec fn spec_function_en_bits(function: Function) -> (bool, bool, bool) {
    match function {
        Function::AF1 => (false, false, false),
        Function::AF2 => (false, true, false),
        Function::AF3 => (true, true, false),
        Function::Input => (true, false, false),
        Function::Output => (true, false, false),
    }
}

/// The three enable-register bits that select a pin's function.
pub fn function_en_bits(function: Function) -> (bits: (bool, bool, bool))
    ensures
        bits == spec_function_en_bits(function),
{
    match function {
        Function::AF1 => (false, false, false),
        Function::AF2 => (false, true, false),
        Function::AF3 => (true, true, false),
        Function::Input => (true, false, false),
        Function::Output => (true, false, false),
    }
}

/// The two drive-strength register bits for an output pin, in the order
/// (ds, ds1).
pub open spec fn spec_drive_strength_bits(drive: DriveStrength) -> (bool, bool) {
    match drive {
        DriveStrength::_1ma => (false, false),
        DriveStrength::_2ma => (true, false),
        DriveStrength::_4ma => (false, true),
        DriveStrength::_6ma => (true, true),
        DriveStrength::_I2C_2ma => (false, false),
        DriveStrength::_I2C_10ma => (true, false),
    }
}

/// The two drive-strength register bits for an output pin.
pub fn drive_strength_bits(drive: DriveStrength) -> (bits: (bool, bool))
    ensures
        bits == spec_drive_strength_bits(drive),
{
    match drive {
        DriveStrength::_1ma => (false, false),
        DriveStrength::_2ma => (true, false),
        DriveStrength::_4ma => (false, true),
        DriveStrength::_6ma => (true, true),
        DriveStrength::_I2C_2ma => (false, false),
        DriveStrength::_I2C_10ma => (true, false),
    }
}

/// The pad-configuration and pull-select bits for an input pin's
/// termination, in the order (pad, ps).
pub open spec fn spec_resistor_bits(resistor: Resistor) -> (bool, bool) {
    match resistor {
        Resistor::HiZ => (false, false),
        Resistor::PullUp => (true, true),
        Resistor::PullDown => (true, false),
    }
}

/// The pad-configuration and pull-select bits for an input pin's
/// termination.
pub fn resistor_bits(resistor: Resistor) -> (bits: (bool, bool))
    ensures
        bits == spec_resistor_bits(resistor),
{
    match resistor {
        Resistor::HiZ => (false, false),
        Resistor::PullUp => (true, true),
        Resistor::PullDown => (true, false),
    }
}

} // verus!
