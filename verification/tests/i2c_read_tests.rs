use max32660_hal::bus::BusState;
use max32660_hal::i2c::{I2CReadError, I2C};
use max32660_hal::sim::SimBus;

#[test]
fn read_four_bytes_from_acking_slave() {
    let sim = SimBus::new(Vec::new(), vec![0xDE, 0xAD, 0xBE, 0xEF]);
    let mut i2c = I2C::new(sim, 16);
    let r = i2c.master_read(0x50, 4, false);
    assert_eq!(r.ok(), Some(4));
    assert!(!i2c.is_busy());
    assert_eq!(i2c.read_buffer().as_slice(), &[0xDE, 0xAD, 0xBE, 0xEF]);
    // the address went out with the read direction bit
    assert_eq!(i2c.regs().wire_log().as_slice(), &[0xA1]);
    // the raw request went into the eight-bit count register
    assert_eq!(i2c.regs().rx_cnt_reg(), 4);
    assert_eq!(i2c.regs().bus_state(), BusState::Idle);
}

#[test]
fn read_that_goes_idle_early_is_a_success_count() {
    // the slave supplies only two of the four requested bytes
    let sim = SimBus::new(Vec::new(), vec![0x11, 0x22]);
    let mut i2c = I2C::new(sim, 16);
    let r = i2c.master_read(0x50, 4, false);
    assert_eq!(r.ok(), Some(2));
    assert!(!i2c.is_busy());
    assert_eq!(i2c.read_buffer().as_slice(), &[0x11, 0x22]);
}

#[test]
fn read_of_zero_bytes_means_256_and_exceeds_any_capacity() {
    // a requested count of 0 is adjusted to 256 bytes, which no buffer of
    // the permitted sizes (at most 255) can hold, so it is rejected before
    // the bus is touched; the count register never sees a value
    let sim = SimBus::new(Vec::new(), vec![0x11, 0x22]);
    let mut i2c = I2C::new(sim, 255);
    let r = i2c.master_read(0x50, 0, false);
    assert_eq!(r, Err(I2CReadError::Capacity));
    assert!(!i2c.is_busy());
    assert_eq!(i2c.regs().rx_cnt_reg(), 0);
    assert_eq!(i2c.regs().wire_log().len(), 0);
}

#[test]
fn read_request_beyond_capacity_is_rejected() {
    let sim = SimBus::new(Vec::new(), vec![0x11]);
    let mut i2c = I2C::new(sim, 4);
    let r = i2c.master_read(0x50, 5, false);
    assert_eq!(r, Err(I2CReadError::Capacity));
    // at the capacity boundary the same request goes through
    let sim = SimBus::new(Vec::new(), vec![0x11]);
    let mut i2c = I2C::new(sim, 5);
    let r = i2c.master_read(0x50, 5, false);
    assert_eq!(r.ok(), Some(1));
}

#[test]
fn read_of_255_bytes_fills_a_full_buffer() {
    let data: Vec<u8> = (0u32..255).map(|i| (i % 251) as u8).collect();
    let sim = SimBus::new(Vec::new(), data.clone());
    let mut i2c = I2C::new(sim, 255);
    let r = i2c.master_read(0x50, 255, false);
    assert_eq!(r.ok(), Some(255));
    assert_eq!(i2c.read_buffer().as_slice(), data.as_slice());
    assert_eq!(i2c.regs().rx_cnt_reg(), 255);
}

#[test]
fn read_nack_before_target_is_an_error() {
    // the slave refuses the address byte
    let sim = SimBus::new(vec![false], vec![0x11, 0x22]);
    let mut i2c = I2C::new(sim, 16);
    let r = i2c.master_read(0x50, 2, false);
    assert_eq!(r, Err(I2CReadError::NACK));
    assert!(!i2c.is_busy());
    assert_eq!(i2c.read_buffer().len(), 0);
    assert_eq!(i2c.regs().bus_state(), BusState::Idle);
}

#[test]
fn read_10_bit_address() {
    let sim = SimBus::new(Vec::new(), vec![0x5A]);
    let mut i2c = I2C::new(sim, 16);
    let r = i2c.master_read(0x2A5, 1, true);
    assert_eq!(r.ok(), Some(1));
    assert!(i2c.regs().ext_addr_bit());
    assert_eq!(i2c.regs().wire_log().as_slice(), &[0xF5, 0x25]);
    assert_eq!(i2c.read_buffer().as_slice(), &[0x5A]);
}

#[test]
fn read_times_out_on_a_wedged_bus() {
    let mut sim = SimBus::new(Vec::new(), vec![0x11]);
    sim.wedge();
    let mut i2c = I2C::new(sim, 16);
    i2c.set_poll_limit(8);
    let r = i2c.master_read(0x50, 1, false);
    assert_eq!(r, Err(I2CReadError::BusTimeout));
    assert!(!i2c.is_busy());
}
