//! UART configuration values: framing options, interrupt masks, and the
//! decision tables the port driver applies to its registers.
//!
//! The baud-rate search itself works in floating point through an outside
//! math library and stays outside the verified library, as does the FIFO
//! register access.

use vstd::prelude::*;

verus! {

/// Parity scheme of a UART frame.
#[derive(Clone, Copy, PartialEq, Eq, Structural, Debug)]
pub enum Parity {
    Even,
    Odd,
    Mark,
    Space,
    Disabled,
}

/// Which level the parity counts.
#[derive(Clone, Copy, PartialEq, Eq, Structural, Debug)]
pub enum ParityLevel {
    Zeros,
    Ones,
}

/// Number of stop bits of a UART frame.
#[derive(Clone, Copy, PartialEq, Eq, Structural, Debug)]
pub enum StopBits {
    _1,
    _1_5,
    _2,
}

/// Polarity of the hardware flow-control lines.
#[derive(Clone, Copy, PartialEq, Eq, Structural, Debug)]
pub enum FlowControlPolarity {
    AssertZero,
    AssertOne,
}

/// Data bits per UART character.
#[derive(Clone, Copy, PartialEq, Eq, Structural, Debug)]
pub enum CharSize {
    _5,
    _6,
    _7,
    _8,
}

/// FIFO threshold, in bytes.
#[derive(Clone, Copy, PartialEq, Eq, Structural, Debug)]
pub enum FifoThreshold {
    _1,
    _2,
    _3,
    _4,
    _5,
    _6,
    _7,
}

/// Maskable events of the UART interrupt registers.
#[derive(Clone, Copy, PartialEq, Eq, Structural, Debug)]
pub enum Interrupts {
    RxFrameError,
    RxParityError,
    CtsChange,
    RxOverrun,
    RxFifoThresh,
    TxFifoAlmostEmpty,
    TxFifoThresh,
    Break,
    RxTimeout,
    LastBreak,
}

/// Errors of the UART driver.
#[derive(Clone, Copy, PartialEq, Eq, Structural, Debug)]
pub enum UartError {
    /// No factor setting brings the requested baud rate in range.
    BaudRateConfiguration,
}

/// A drained RX FIFO snapshot.
pub struct UartRxFifo {
    /// Number of valid bytes in `buffer`.
    pub size: u8,
    /// The drained bytes, oldest first.
    pub buffer: [u8; 8],
}

/// The flag bit of a UART interrupt event.
pub open spec fn spec_uart_int_mask(i: Interrupts) -> u16 {
    match i {
        Interrupts::RxFrameError => 0x1,
        Interrupts::RxParityError => 0x2,
        Interrupts::CtsChange => 0x4,
        Interrupts::RxOverrun => 0x8,
        Interrupts::RxFifoThresh => 0x10,
        Interrupts::TxFifoAlmostEmpty => 0x20,
        Interrupts::TxFifoThresh => 0x40,
        Interrupts::Break => 0x80,
        Interrupts::RxTimeout => 0x100,
        Interrupts::LastBreak => 0x200,
    }
}

/// The flag bit of a UART interrupt event.
pub fn uart_int_mask(i: Interrupts) -> (mask: u16)
    ensures
        mask == spec_uart_int_mask(i),
{
    match i {
        Interrupts::RxFrameError => 0x1,
        Interrupts::RxParityError => 0x2,
        Interrupts::CtsChange => 0x4,
        Interrupts::RxOverrun => 0x8,
        Interrupts::RxFifoThresh => 0x10,
        Interrupts::TxFifoAlmostEmpty => 0x20,
        Interrupts::TxFifoThresh => 0x40,
        Interrupts::Break => 0x80,
        Interrupts::RxTimeout => 0x100,
        Interrupts::LastBreak => 0x200,
    }
}

/// The combined mask of a list of UART interrupt events.
pub open spec fn uart_int_mask_fold(s: Seq<Interrupts>) -> u16
    decreases s.len(),
{
    if s.len() == 0 {
        0u16
    } else {
        uart_int_mask_fold(s.drop_last()) | spec_uart_int_mask(s.last())
    }
}

/// The combined mask of a list of UART interrupt events, as the interrupt
/// enable and flag registers take it.
pub fn uart_interrupts_mask(ints: &[Interrupts]) -> (mask: u16)
    ensures
        mask == uart_int_mask_fold(ints@),
{
    let mut mask: u16 = 0;
    let mut i: usize = 0;
    while i < ints.len()
        invariant
            i <= ints@.len(),
            mask == uart_int_mask_fold(ints@.take(i as int)),
        decreases ints@.len() - i,
    {
        mask = mask | uart_int_mask(ints[i]);
        i = i + 1;
        proof {
            assert(ints@.take(i as int).drop_last() =~= ints@.take(i - 1));
            assert(ints@.take(i as int).last() == ints@[i - 1]);
        }
    }
    proof {
        assert(ints@.take(ints@.len() as int) =~= ints@);
    }
    mask
}

/// The two-bit character-size field value.
pub open spec fn spec_char_size_bits(size: CharSize) -> u8 {
    match size {
        CharSize::_5 => 0,
        CharSize::_6 => 1,
        CharSize::_7 => 2,
        CharSize::_8 => 3,
    }
}

/// The two-bit character-size field value.
pub fn char_size_bits(size: CharSize) -> (bits: u8)
    ensures
        bits == spec_char_size_bits(size),
{
    match size {
        CharSize::_5 => 0,
        CharSize::_6 => 1,
        CharSize::_7 => 2,
        CharSize::_8 => 3,
    }
}

/// The register value of a FIFO threshold.
pub open spec fn spec_fifo_threshold_bits(threshold: FifoThreshold) -> u8 {
    match threshold {
        FifoThreshold::_1 => 1,
        FifoThreshold::_2 => 2,
        FifoThreshold::_3 => 3,
        FifoThreshold::_4 => 4,
        FifoThreshold::_5 => 5,
        FifoThreshold::_6 => 6,
        FifoThreshold::_7 => 7,
    }
}

/// The register value of a FIFO threshold.
pub fn fifo_threshold_bits(threshold: FifoThreshold) -> (bits: u8)
    ensures
        bits == spec_fifo_threshold_bits(threshold),
{
    match threshold {
        FifoThreshold::_1 => 1,
        FifoThreshold::_2 => 2,
        FifoThreshold::_3 => 3,
        FifoThreshold::_4 => 4,
        FifoThreshold::_5 => 5,
        FifoThreshold::_6 => 6,
        FifoThreshold::_7 => 7,
    }
}

/// Whether a stop-bit choice selects the single-stop-bit register setting;
/// anything longer selects the other one.
pub open spec fn spec_single_stop_bit(stop: StopBits) -> bool {
    match stop {
        StopBits::_1 => true,
        StopBits::_1_5 => false,
        StopBits::_2 => false,
    }
}

/// Whether a stop-bit choice selects the single-stop-bit register setting.
pub fn single_stop_bit(stop: StopBits) -> (single: bool)
    ensures
        single == spec_single_stop_bit(stop),
{
    match stop {
        StopBits::_1 => true,
        StopBits::_1_5 => false,
        StopBits::_2 => false,
    }
}

/// The parity-level register bit.
pub open spec fn spec_parity_level_bit(level: ParityLevel) -> bool {
    match level {
        ParityLevel::Zeros => false,
        ParityLevel::Ones => true,
    }
}

/// The parity-level register bit.
pub fn parity_level_bit(level: ParityLevel) -> (bit: bool)
    ensures
        bit == spec_parity_level_bit(level),
{
    match level {
        ParityLevel::Zeros => false,
        ParityLevel::Ones => true,
    }
}

/// The flow-control polarity register bit.
pub open spec fn spec_flow_pol_bit(polarity: FlowControlPolarity) -> bool {
    match polarity {
        FlowControlPolarity::AssertZero => false,
        FlowControlPolarity::AssertOne => true,
    }
}

/// The flow-control polarity register bit.
pub fn flow_pol_bit(polarity: FlowControlPolarity) -> (bit: bool)
    ensures
        bit == spec_flow_pol_bit(polarity),
{
    match polarity {
        FlowControlPolarity::AssertZero => false,
        FlowControlPolarity::AssertOne => true,
    }
}

} // verus!
