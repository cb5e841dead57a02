use max32660_hal::gpio::{
    drive_strength_bits, function_en_bits, pin_clear, pin_mask, pin_number, pin_set,
    resistor_bits, DriveStrength, Function, Pins, Resistor,
};
use max32660_hal::sys::{compute_clk_freq, pclk_freq, prescaler_bits, ClkPreScaler};
use max32660_hal::timer::{timer_mode_bits, TimerMode};
use max32660_hal::uart::{
    char_size_bits, fifo_threshold_bits, flow_pol_bit, parity_level_bit, single_stop_bit,
    uart_int_mask, uart_interrupts_mask, CharSize, FifoThreshold, FlowControlPolarity, Interrupts,
    ParityLevel, StopBits,
};

#[test]
fn pin_bit_arithmetic() {
    assert_eq!(pin_mask(0), 1);
    assert_eq!(pin_mask(3), 8);
    assert_eq!(pin_set(0, 5), 32);
    assert_eq!(pin_set(0b1010, 0), 0b1011);
    assert_eq!(pin_clear(0xFFFF_FFFF, 0), 0xFFFF_FFFE);
    assert_eq!(pin_clear(pin_set(0, 13), 13), 0);
    assert_eq!(pin_number(Pins::_13), 13);
    assert_eq!(pin_number(Pins::_0), 0);
}

#[test]
fn gpio_function_table() {
    assert_eq!(function_en_bits(Function::AF1), (false, false, false));
    assert_eq!(function_en_bits(Function::AF2), (false, true, false));
    assert_eq!(function_en_bits(Function::AF3), (true, true, false));
    assert_eq!(function_en_bits(Function::Input), (true, false, false));
    assert_eq!(function_en_bits(Function::Output), (true, false, false));
}

#[test]
fn gpio_drive_strength_table() {
    assert_eq!(drive_strength_bits(DriveStrength::_1ma), (false, false));
    assert_eq!(drive_strength_bits(DriveStrength::_2ma), (true, false));
    assert_eq!(drive_strength_bits(DriveStrength::_4ma), (false, true));
    assert_eq!(drive_strength_bits(DriveStrength::_6ma), (true, true));
    assert_eq!(drive_strength_bits(DriveStrength::_I2C_2ma), (false, false));
    assert_eq!(drive_strength_bits(DriveStrength::_I2C_10ma), (true, false));
}

#[test]
fn gpio_resistor_table() {
    assert_eq!(resistor_bits(Resistor::HiZ), (false, false));
    assert_eq!(resistor_bits(Resistor::PullUp), (true, true));
    assert_eq!(resistor_bits(Resistor::PullDown), (true, false));
}

#[test]
fn system_clock_computation() {
    assert_eq!(compute_clk_freq(96_000_000, 0), 96_000_000);
    assert_eq!(compute_clk_freq(96_000_000, 3), 12_000_000);
    assert_eq!(compute_clk_freq(96_000_000, 7), 750_000);
    assert_eq!(prescaler_bits(ClkPreScaler::DIV_1), 0);
    assert_eq!(prescaler_bits(ClkPreScaler::DIV_128), 7);
    assert_eq!(pclk_freq(96_000_000), 48_000_000);
}

#[test]
fn timer_mode_table() {
    assert_eq!(timer_mode_bits(TimerMode::OneShot), 0);
    assert_eq!(timer_mode_bits(TimerMode::Continuous), 1);
}

#[test]
fn uart_interrupt_masks() {
    assert_eq!(uart_int_mask(Interrupts::RxFrameError), 0x1);
    assert_eq!(uart_int_mask(Interrupts::LastBreak), 0x200);
    assert_eq!(
        uart_interrupts_mask(&[Interrupts::RxFrameError, Interrupts::RxTimeout]),
        0x101
    );
    assert_eq!(uart_interrupts_mask(&[]), 0);
    assert_eq!(
        uart_interrupts_mask(&[Interrupts::Break, Interrupts::Break]),
        0x80
    );
}

#[test]
fn uart_framing_tables() {
    assert_eq!(char_size_bits(CharSize::_5), 0);
    assert_eq!(char_size_bits(CharSize::_8), 3);
    assert_eq!(fifo_threshold_bits(FifoThreshold::_1), 1);
    assert_eq!(fifo_threshold_bits(FifoThreshold::_7), 7);
    assert!(single_stop_bit(StopBits::_1));
    assert!(!single_stop_bit(StopBits::_1_5));
    assert!(!single_stop_bit(StopBits::_2));
    assert!(!parity_level_bit(ParityLevel::Zeros));
    assert!(parity_level_bit(ParityLevel::Ones));
    assert!(!flow_pol_bit(FlowControlPolarity::AssertZero));
    assert!(flow_pol_bit(FlowControlPolarity::AssertOne));
}
