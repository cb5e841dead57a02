//! A simulated I2C bus.
//!
//! [`SimBus`] implements the [`I2cRegs`] register interface with a
//! deterministic model of a single slave, so the transaction engine can be
//! exercised off-target.  The slave's behaviour is configured up front: an
//! acknowledgement decision for each byte it receives, and the bytes it
//! supplies to a read.  Each poll of the status register advances the bus by
//! at most one byte, within what [`bus_step`] allows of real hardware.

use vstd::prelude::*;

use crate::bus::{bus_step, BusModel, BusState, I2cRegs};

verus! {

/// TX and RX FIFO depth of the simulated controller.
pub const SIM_FIFO_DEPTH: usize = 8;

/// A deterministic register block and bus with one simulated slave.
pub struct SimBus {
    tx_fifo: Vec<u8>,
    wire: Vec<u8>,
    rx_wire: Vec<u8>,
    rx_taken: usize,
    state: BusState,
    stop_req: bool,
    nack_seen: bool,
    rx_cnt: u8,
    ext_addr: bool,
    clk_hi: u32,
    clk_lo: u32,
    enabled: bool,
    master: bool,
    rx_thresh: u8,
    int_en0: u16,
    int_en1: u16,
    int_fl0: u16,
    /// The slave's acknowledgement for each byte it receives, in order;
    /// once exhausted it acknowledges everything.
    acks: Vec<bool>,
    /// The bytes the slave supplies to a read.
    slave_data: Vec<u8>,
    slave_pos: usize,
    /// A wedged bus: no progress at all, as a bus fault would look.
    stalled: bool,
    /// Direction of the transaction in flight, from the queued address byte.
    reading: bool,
    /// Bytes supplied since the last start condition.
    supplied_this: usize,
    /// Adjusted target captured from the count register at the last start.
    expect: usize,
}

impl SimBus {
    /// A fresh, idle simulated bus.  `acks` are the slave's acknowledgement
    /// decisions for the bytes it receives, in order (when exhausted it
    /// acknowledges); `slave_data` are the bytes it supplies to a read.
    pub fn new(acks: Vec<bool>, slave_data: Vec<u8>) -> (sim: SimBus)
        ensures
            sim.model().inv(),
            sim.model().state == BusState::Idle,
            sim.model().tx_fifo.len() == 0,
            sim.model().wire.len() == 0,
            sim.model().rx_wire.len() == 0,
            sim.model().rx_avail() == 0,
            !sim.model().nack_seen,
            !sim.model().stop_req,
            sim.model().rx_cnt == 0,
            !sim.model().ext_addr,
            sim.model().clk_hi == 0,
            sim.model().clk_lo == 0,
            !sim.model().enabled,
            !sim.model().master,
            sim.model().rx_thresh == 0,
            sim.model().int_en0 == 0,
            sim.model().int_en1 == 0,
            sim.model().int_fl0 == 0,
    {
        SimBus {
            tx_fifo: Vec::new(),
            wire: Vec::new(),
            rx_wire: Vec::new(),
            rx_taken: 0,
            state: BusState::Idle,
            stop_req: false,
            nack_seen: false,
            rx_cnt: 0,
            ext_addr: false,
            clk_hi: 0,
            clk_lo: 0,
            enabled: false,
            master: false,
            rx_thresh: 0,
            int_en0: 0,
            int_en1: 0,
            int_fl0: 0,
            acks,
            slave_data,
            slave_pos: 0,
            stalled: false,
            reading: false,
            supplied_this: 0,
            expect: 0,
        }
    }

    /// Wedge the bus: from now on it makes no progress at all, the way a
    /// shorted line or a hung slave would look to the controller.
    pub fn wedge(&mut self)
        ensures
            final (self).model() == old(self).model(),
    {
        self.stalled = true;
    }

    /// The full wire log: every byte the slave has observed, in order.
    pub fn wire_log(&self) -> (w: &Vec<u8>)
        ensures
            w@ == self.model().wire,
    {
        &self.wire
    }

    /// Current bus state.
    pub fn bus_state(&self) -> (s: BusState)
        ensures
            s == self.model().state,
    {
        self.state
    }

    /// Value of the RX byte-count register.
    pub fn rx_cnt_reg(&self) -> (c: u8)
        ensures
            c == self.model().rx_cnt,
    {
        self.rx_cnt
    }

    /// Value of the clock high-period divisor register.
    pub fn clk_hi_reg(&self) -> (v: u32)
        ensures
            v == self.model().clk_hi,
    {
        self.clk_hi
    }

    /// Value of the clock low-period divisor register.
    pub fn clk_lo_reg(&self) -> (v: u32)
        ensures
            v == self.model().clk_lo,
    {
        self.clk_lo
    }

    /// Whether the extended-address control bit is set.
    pub fn ext_addr_bit(&self) -> (b: bool)
        ensures
            b == self.model().ext_addr,
    {
        self.ext_addr
    }

    /// Whether the controller-enable bit is set.
    pub fn enabled_bit(&self) -> (b: bool)
        ensures
            b == self.model().enabled,
    {
        self.enabled
    }

    /// Whether the master-mode bit is set.
    pub fn master_bit(&self) -> (b: bool)
        ensures
            b == self.model().master,
    {
        self.master
    }

    /// Value of interrupt enable register 0.
    pub fn int_en0_reg(&self) -> (v: u16)
        ensures
            v == self.model().int_en0,
    {
        self.int_en0
    }

    /// Value of interrupt enable register 1.
    pub fn int_en1_reg(&self) -> (v: u16)
        ensures
            v == self.model().int_en1,
    {
        self.int_en1
    }

    /// Value of the RX interrupt threshold register.
    pub fn rx_thresh_reg(&self) -> (v: u8)
        ensures
            v == self.model().rx_thresh,
    {
        self.rx_thresh
    }
}

impl I2cRegs for SimBus {
    closed spec fn model(&self) -> BusModel {
        BusModel {
            tx_fifo: self.tx_fifo@,
            wire: self.wire@,
            rx_wire: self.rx_wire@,
            rx_taken: self.rx_taken as nat,
            state: self.state,
            stop_req: self.stop_req,
            nack_seen: self.nack_seen,
            tx_cap: SIM_FIFO_DEPTH as nat,
            rx_cap: SIM_FIFO_DEPTH as nat,
            rx_cnt: self.rx_cnt,
            ext_addr: self.ext_addr,
            clk_hi: self.clk_hi,
            clk_lo: self.clk_lo,
            enabled: self.enabled,
            master: self.master,
            rx_thresh: self.rx_thresh,
            int_en0: self.int_en0,
            int_en1: self.int_en1,
            int_fl0: self.int_fl0,
        }
    }

    fn poll(&mut self) -> (state: BusState) {
        let ghost m1 = self.model();
        if self.stalled {
            proof {
                assert(m1.wire + m1.tx_fifo.take(0) =~= m1.wire);
                assert(m1.tx_fifo.skip(0) =~= m1.tx_fifo);
                assert(m1.rx_wire.subrange(0, m1.rx_wire.len() as int) =~= m1.rx_wire);
                assert(bus_step(m1, self.model()));
            }
            return self.state;
        }
        match self.state {
            BusState::Idle => {},
            BusState::NackReceived => {
                if self.stop_req {
                    self.state = BusState::Idle;
                }
            },
            BusState::Transmitting => {
                if self.tx_fifo.len() > 0 {
                    // one byte goes onto the wire; the slave answers it
                    let b = self.tx_fifo.remove(0);
                    self.wire.push(b);
                    let ack = if self.acks.len() > 0 {
                        self.acks.remove(0)
                    } else {
                        true
                    };
                    if !ack {
                        self.state = BusState::NackReceived;
                        self.nack_seen = true;
                    }
                    proof {
                        assert(self.model().wire =~= m1.wire + m1.tx_fifo.take(1));
                        assert(self.model().tx_fifo =~= m1.tx_fifo.skip(1));
                        assert(m1.rx_wire.subrange(0, m1.rx_wire.len() as int) =~= m1.rx_wire);
                        assert(bus_step(m1, self.model()));
                    }
                    return self.state;
                } else if self.stop_req {
                    self.state = BusState::Idle;
                } else if self.reading {
                    // the address is out; the slave supplies data while the
                    // RX FIFO has room, until the expected count or its own
                    // supply runs out
                    let avail = self.rx_wire.len() - self.rx_taken;
                    if self.supplied_this < self.expect && self.slave_pos < self.slave_data.len()
                        && avail < SIM_FIFO_DEPTH {
                        let b = self.slave_data[self.slave_pos];
                        self.rx_wire.push(b);
                        self.slave_pos = self.slave_pos + 1;
                        self.supplied_this = self.supplied_this + 1;
                        proof {
                            assert(self.model().wire =~= m1.wire + m1.tx_fifo.take(0));
                            assert(self.model().tx_fifo =~= m1.tx_fifo.skip(0));
                            assert(m1.rx_wire.is_prefix_of(self.model().rx_wire)) by {
                                assert(self.model().rx_wire.subrange(0, m1.rx_wire.len() as int)
                                    =~= m1.rx_wire);
                            }
                            assert(bus_step(m1, self.model()));
                        }
                        return self.state;
                    } else if self.supplied_this >= self.expect || self.slave_pos
                        >= self.slave_data.len() {
                        // transfer complete or slave exhausted
                        self.state = BusState::Idle;
                    }
                    // otherwise the RX FIFO is full: wait to be drained
                } else {
                    // write payload fully sent
                    self.state = BusState::Idle;
                }
            },
        }
        proof {
            assert(m1.wire + m1.tx_fifo.take(0) =~= m1.wire);
            assert(m1.tx_fifo.skip(0) =~= m1.tx_fifo);
            assert(m1.rx_wire.subrange(0, m1.rx_wire.len() as int) =~= m1.rx_wire);
            assert(bus_step(m1, self.model()));
        }
        self.state
    }

    fn tx_is_full(&self) -> (full: bool) {
        self.tx_fifo.len() >= SIM_FIFO_DEPTH
    }

    fn tx_is_empty(&self) -> (empty: bool) {
        self.tx_fifo.len() == 0
    }

    fn rx_is_empty(&self) -> (empty: bool) {
        self.rx_wire.len() - self.rx_taken == 0
    }

    fn tx_level(&self) -> (n: u8) {
        self.tx_fifo.len() as u8
    }

    fn rx_level(&self) -> (n: u8) {
        (self.rx_wire.len() - self.rx_taken) as u8
    }

    fn write_fifo(&mut self, byte: u8) {
        self.tx_fifo.push(byte);
        proof {
            assert(self.model() =~= (BusModel {
                tx_fifo: old(self).model().tx_fifo.push(byte),
                ..old(self).model()
            }));
        }
    }

    fn read_fifo(&mut self) -> (byte: u8) {
        let n = self.rx_wire.len();
        proof {
            assert(self.rx_taken < n);
        }
        let b = self.rx_wire[self.rx_taken];
        self.rx_taken = self.rx_taken + 1;
        proof {
            assert(self.model() =~= (BusModel {
                rx_taken: old(self).model().rx_taken + 1,
                ..old(self).model()
            }));
        }
        b
    }

    fn set_rx_cnt(&mut self, cnt: u8) {
        self.rx_cnt = cnt;
        proof {
            assert(self.model() =~= (BusModel { rx_cnt: cnt, ..old(self).model() }));
        }
    }

    fn set_ext_addr(&mut self) {
        self.ext_addr = true;
        proof {
            assert(self.model() =~= (BusModel { ext_addr: true, ..old(self).model() }));
        }
    }

    fn assert_start(&mut self) {
        self.state = BusState::Transmitting;
        self.stop_req = false;
        self.nack_seen = false;
        // direction comes from the queued address byte; the adjusted target
        // from the count register (0 means 256)
        self.reading = self.tx_fifo[0] & 1 == 1;
        self.supplied_this = 0;
        self.expect = if self.rx_cnt == 0 {
            256
        } else {
            self.rx_cnt as usize
        };
        proof {
            assert(self.model() =~= (BusModel {
                state: BusState::Transmitting,
                stop_req: false,
                nack_seen: false,
                ..old(self).model()
            }));
        }
    }

    fn assert_stop(&mut self) {
        self.stop_req = true;
        self.tx_fifo.clear();
        // a forced stop raises the TX lock-out flag, as the hardware does
        self.int_fl0 = self.int_fl0 | 0x8000;
        proof {
            assert(self.model() =~= (BusModel {
                stop_req: true,
                tx_fifo: Seq::<u8>::empty(),
                int_fl0: self.model().int_fl0,
                ..old(self).model()
            }));
        }
    }

    fn set_clk_div(&mut self, hi: u32, lo: u32) {
        self.clk_hi = hi;
        self.clk_lo = lo;
        proof {
            assert(self.model() =~= (BusModel { clk_hi: hi, clk_lo: lo, ..old(self).model() }));
        }
    }

    fn set_enable_master(&mut self) {
        self.enabled = true;
        self.master = true;
        proof {
            assert(self.model() =~= (BusModel {
                enabled: true,
                master: true,
                ..old(self).model()
            }));
        }
    }

    fn set_master(&mut self) {
        self.master = true;
        proof {
            assert(self.model() =~= (BusModel { master: true, ..old(self).model() }));
        }
    }

    fn set_rx_thresh(&mut self, threshold: u8) {
        self.rx_thresh = threshold;
        proof {
            assert(self.model() =~= (BusModel { rx_thresh: threshold, ..old(self).model() }));
        }
    }

    fn set_int_en0(&mut self, mask: u16) {
        self.int_en0 = mask;
        proof {
            assert(self.model() =~= (BusModel { int_en0: mask, ..old(self).model() }));
        }
    }

    fn set_int_en1(&mut self, mask: u16) {
        self.int_en1 = mask;
        proof {
            assert(self.model() =~= (BusModel { int_en1: mask, ..old(self).model() }));
        }
    }

    fn read_int_fl0(&self) -> (flags: u16) {
        self.int_fl0
    }

    fn clear_int_fl0(&mut self, mask: u16) {
        self.int_fl0 = self.int_fl0 & !mask;
        proof {
            assert(self.model() =~= (BusModel {
                int_fl0: (old(self).model().int_fl0 & !mask) as u16,
                ..old(self).model()
            }));
        }
    }
}

} // verus!
