use max32660_hal::bus::BusState;
use max32660_hal::i2c::{I2CWriteError, I2C};
use max32660_hal::sim::SimBus;

#[test]
fn write_two_bytes_on_acking_bus() {
    let sim = SimBus::new(Vec::new(), Vec::new());
    let mut i2c = I2C::new(sim, 16);
    let r = i2c.master_write(0x50, &[0x01, 0x02], false);
    assert!(r.is_ok());
    assert!(!i2c.is_busy());
    assert_eq!(i2c.regs().wire_log().as_slice(), &[0xA0, 0x01, 0x02]);
    assert_eq!(i2c.regs().bus_state(), BusState::Idle);
}

#[test]
fn write_longer_than_the_fifo() {
    let sim = SimBus::new(Vec::new(), Vec::new());
    let mut i2c = I2C::new(sim, 16);
    let data: Vec<u8> = (0u8..20).collect();
    let r = i2c.master_write(0x22, &data, false);
    assert!(r.is_ok());
    let mut expected = vec![0x44u8];
    expected.extend_from_slice(&data);
    assert_eq!(i2c.regs().wire_log().as_slice(), expected.as_slice());
}

#[test]
fn write_nack_on_address_sends_no_payload() {
    // the slave refuses the very first byte it sees: the address
    let sim = SimBus::new(vec![false], Vec::new());
    let mut i2c = I2C::new(sim, 16);
    let r = i2c.master_write(0x50, &[0x01, 0x02], false);
    assert_eq!(r, Err(I2CWriteError::NACK));
    assert!(!i2c.is_busy());
    assert_eq!(i2c.regs().wire_log().as_slice(), &[0xA0]);
    assert_eq!(i2c.regs().bus_state(), BusState::Idle);
}

#[test]
fn write_nack_before_all_payload_is_queued() {
    // ACK the address, refuse the first data byte, with more payload than
    // the eight-byte FIFO so queueing is still in progress at the NACK
    let sim = SimBus::new(vec![true, false], Vec::new());
    let mut i2c = I2C::new(sim, 16);
    let data: Vec<u8> = (10u8..30).collect();
    let r = i2c.master_write(0x50, &data, false);
    assert_eq!(r, Err(I2CWriteError::NACK));
    assert!(!i2c.is_busy());
    assert_eq!(i2c.regs().wire_log().as_slice(), &[0xA0, 10]);
}

#[test]
fn write_10_bit_address() {
    let sim = SimBus::new(Vec::new(), Vec::new());
    let mut i2c = I2C::new(sim, 16);
    let r = i2c.master_write(0x2A5, &[0xAB], true);
    assert!(r.is_ok());
    assert!(i2c.regs().ext_addr_bit());
    assert_eq!(i2c.regs().wire_log().as_slice(), &[0xF4, 0x25, 0xAB]);
}

#[test]
fn write_times_out_on_a_wedged_bus() {
    let mut sim = SimBus::new(Vec::new(), Vec::new());
    sim.wedge();
    let mut i2c = I2C::new(sim, 16);
    i2c.set_poll_limit(8);
    let r = i2c.master_write(0x50, &[0x01], false);
    assert_eq!(r, Err(I2CWriteError::BusTimeout));
    assert!(!i2c.is_busy());
}
