use max32660_hal::bus::BusState;
use max32660_hal::i2c::{Clock, I2CConfigError, IntThresh, Interrupts0, Interrupts1, I2C};
use max32660_hal::sim::SimBus;

#[test]
fn enable_at_standard_speed_programs_symmetric_divisors() {
    let sim = SimBus::new(Vec::new(), Vec::new());
    let mut i2c = I2C::new(sim, 16);
    let r = i2c.enable(96_000_000, Clock::Standard);
    assert!(r.is_ok());
    assert_eq!(i2c.regs().clk_hi_reg(), 479);
    assert_eq!(i2c.regs().clk_lo_reg(), 479);
    assert!(i2c.regs().enabled_bit());
    assert!(i2c.regs().master_bit());
}

#[test]
fn enable_rejects_an_under_constrained_clock() {
    let sim = SimBus::new(Vec::new(), Vec::new());
    let mut i2c = I2C::new(sim, 16);
    // fewer than two peripheral ticks per bus period: no divisor exists
    let r = i2c.enable(1_500_000, Clock::FastPlus);
    assert_eq!(r, Err(I2CConfigError::UnderConstrainedClock));
    assert_eq!(i2c.regs().clk_hi_reg(), 0);
    assert!(!i2c.regs().enabled_bit());
}

#[test]
fn stop_is_idempotent() {
    let sim = SimBus::new(Vec::new(), Vec::new());
    let mut i2c = I2C::new(sim, 16);
    let first = i2c.master_stop();
    assert!(first);
    assert!(!i2c.is_busy());
    assert_eq!(i2c.regs().bus_state(), BusState::Idle);
    let second = i2c.master_stop();
    assert!(second);
    assert!(!i2c.is_busy());
    assert_eq!(i2c.regs().bus_state(), BusState::Idle);
}

#[test]
fn stop_clears_the_tx_lockout_flag() {
    let sim = SimBus::new(Vec::new(), Vec::new());
    let mut i2c = I2C::new(sim, 16);
    i2c.master_stop();
    // the forced stop raised the lock-out flag and the stop procedure
    // cleared it again
    assert_eq!(i2c.get_interrupt0() & 0x8000, 0);
}

#[test]
fn busy_flag_accessors() {
    let sim = SimBus::new(Vec::new(), Vec::new());
    let mut i2c = I2C::new(sim, 16);
    assert!(!i2c.is_busy());
    assert!(i2c.not_busy());
    i2c.clear_busy();
    assert!(!i2c.is_busy());
}

#[test]
fn interrupt_enable_masks_accumulate() {
    let sim = SimBus::new(Vec::new(), Vec::new());
    let mut i2c = I2C::new(sim, 16);
    i2c.enable_interrupts0(&[Interrupts0::Done, Interrupts0::TxLockOut, Interrupts0::ArbEr]);
    assert_eq!(i2c.regs().int_en0_reg(), 0x8101);
    i2c.enable_interrupts1(&[Interrupts1::RxOverflow, Interrupts1::TxUnderflow]);
    assert_eq!(i2c.regs().int_en1_reg(), 0x3);
}

#[test]
fn rx_interrupt_threshold_is_programmed() {
    let sim = SimBus::new(Vec::new(), Vec::new());
    let mut i2c = I2C::new(sim, 16);
    i2c.rx_int_threshold(IntThresh::_4);
    assert_eq!(i2c.regs().rx_thresh_reg(), 4);
}

#[test]
fn master_mode_sets_the_bit() {
    let sim = SimBus::new(Vec::new(), Vec::new());
    let mut i2c = I2C::new(sim, 16);
    i2c.master_mode();
    assert!(i2c.regs().master_bit());
    assert!(!i2c.regs().enabled_bit());
}

#[test]
fn fifo_levels_on_an_idle_bus() {
    let sim = SimBus::new(Vec::new(), Vec::new());
    let i2c = I2C::new(sim, 16);
    assert_eq!(i2c.tx_fifo_len(), 0);
    assert_eq!(i2c.rx_fifo_len(), 0);
}
