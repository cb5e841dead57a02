//! I2C master transaction engine.
//!
//! [`I2C`] owns a register interface and drives it through whole write and
//! read transactions: it queues the encoded address, primes and backfills
//! the TX FIFO, polls the bus state, detects NACKs, and always terminates
//! with the shared stop procedure, which is the one place the handle's
//! `busy` flag is cleared.
//!
//! Every wait on the bus is bounded by the handle's poll limit; when the
//! limit runs out the transaction is aborted with a distinct timeout error
//! instead of hanging forever.

use vstd::prelude::*;

use crate::bus::{
    lemma_prefix_subrange, lemma_prefix_trans, lemma_step_empty_fifo, lemma_tx_progress_append,
    lemma_tx_progress_init, lemma_tx_progress_step, lemma_tx_progress_wire_prefix, tx_progress,
    BusModel, BusState, I2cRegs,
};
use crate::encoder::{encode_10bit, encode_7bit, encoded_bytes};

verus! {

/// Maskable events of interrupt enable/flag register 0.
#[derive(Clone, Copy, PartialEq, Eq, Structural, Debug)]
pub enum Interrupts0 {
    Done,
    RxMode,
    GenCtrlAddr,
    AddrMatch,
    RxThresh,
    TxThresh,
    Stop,
    AddrAck,
    ArbEr,
    ToEr,
    AddrEr,
    DataEr,
    DoNotRespondEr,
    StartEr,
    StopEr,
    TxLockOut,
}

/// Maskable events of interrupt enable/flag register 1.
#[derive(Clone, Copy, PartialEq, Eq, Structural, Debug)]
pub enum Interrupts1 {
    RxOverflow,
    TxUnderflow,
}

/// Standard bus speeds.
#[derive(Clone, Copy, PartialEq, Eq, Structural, Debug)]
pub enum Clock {
    Standard,
    Fast,
    FastPlus,
}

/// RX interrupt threshold, in bytes.
#[derive(Clone, Copy, PartialEq, Eq, Structural, Debug)]
pub enum IntThresh {
    _0,
    _1,
    _2,
    _3,
    _4,
    _5,
    _6,
    _7,
    _8,
}

/// Failure of a write transaction.
#[derive(Clone, Copy, PartialEq, Eq, Structural, Debug)]
pub enum I2CWriteError {
    /// The addressed slave did not acknowledge.
    NACK,
    /// The poll limit ran out before the bus settled.
    BusTimeout,
}

/// Failure of a read transaction.
#[derive(Clone, Copy, PartialEq, Eq, Structural, Debug)]
pub enum I2CReadError {
    /// The addressed slave did not acknowledge.
    NACK,
    /// More bytes were requested than the internal buffer can hold.
    Capacity,
    /// The poll limit ran out before the bus settled.
    BusTimeout,
}

/// Failure of the clock configuration.
#[derive(Clone, Copy, PartialEq, Eq, Structural, Debug)]
pub enum I2CConfigError {
    /// The peripheral clock is less than twice the requested bus speed, so
    /// no usable divisor exists.
    UnderConstrainedClock,
}

/// The flag bit of an event in interrupt register 0.
pub open spec fn spec_int0_mask(i: Interrupts0) -> u16 {
    match i {
        Interrupts0::Done => 0x1,
        Interrupts0::RxMode => 0x2,
        Interrupts0::GenCtrlAddr => 0x4,
        Interrupts0::AddrMatch => 0x8,
        Interrupts0::RxThresh => 0x10,
        Interrupts0::TxThresh => 0x20,
        Interrupts0::Stop => 0x40,
        Interrupts0::AddrAck => 0x80,
        Interrupts0::ArbEr => 0x100,
        Interrupts0::ToEr => 0x200,
        Interrupts0::AddrEr => 0x400,
        Interrupts0::DataEr => 0x800,
        Interrupts0::DoNotRespondEr => 0x1000,
        Interrupts0::StartEr => 0x2000,
        Interrupts0::StopEr => 0x4000,
        Interrupts0::TxLockOut => 0x8000,
    }
}

/// The flag bit of an event in interrupt register 0.
pub fn int0_mask(i: Interrupts0) -> (mask: u16)
    ensures
        mask == spec_int0_mask(i),
{
    match i {
        Interrupts0::Done => 0x1,
        Interrupts0::RxMode => 0x2,
        Interrupts0::GenCtrlAddr => 0x4,
        Interrupts0::AddrMatch => 0x8,
        Interrupts0::RxThresh => 0x10,
        Interrupts0::TxThresh => 0x20,
        Interrupts0::Stop => 0x40,
        Interrupts0::AddrAck => 0x80,
        Interrupts0::ArbEr => 0x100,
        Interrupts0::ToEr => 0x200,
        Interrupts0::AddrEr => 0x400,
        Interrupts0::DataEr => 0x800,
        Interrupts0::DoNotRespondEr => 0x1000,
        Interrupts0::StartEr => 0x2000,
        Interrupts0::StopEr => 0x4000,
        Interrupts0::TxLockOut => 0x8000,
    }
}

/// The flag bit of an event in interrupt register 1.
pub open spec fn spec_int1_mask(i: Interrupts1) -> u16 {
    match i {
        Interrupts1::RxOverflow => 0x1,
        Interrupts1::TxUnderflow => 0x2,
    }
}

/// The flag bit of an event in interrupt register 1.
pub fn int1_mask(i: Interrupts1) -> (mask: u16)
    ensures
        mask == spec_int1_mask(i),
{
    match i {
        Interrupts1::RxOverflow => 0x1,
        Interrupts1::TxUnderflow => 0x2,
    }
}

/// A bus speed in hertz.
pub open spec fn spec_clock_hz(speed: Clock) -> u32 {
    match speed {
        Clock::Standard => 100_000,
        Clock::Fast => 400_000,
        Clock::FastPlus => 1_000_000,
    }
}

/// A bus speed in hertz.
pub fn clock_hz(speed: Clock) -> (hz: u32)
    ensures
        hz == spec_clock_hz(speed),
{
    match speed {
        Clock::Standard => 100_000,
        Clock::Fast => 400_000,
        Clock::FastPlus => 1_000_000,
    }
}

/// An RX interrupt threshold as the register value.
pub open spec fn spec_thresh_bits(t: IntThresh) -> u8 {
    match t {
        IntThresh::_0 => 0,
        IntThresh::_1 => 1,
        IntThresh::_2 => 2,
        IntThresh::_3 => 3,
        IntThresh::_4 => 4,
        IntThresh::_5 => 5,
        IntThresh::_6 => 6,
        IntThresh::_7 => 7,
        IntThresh::_8 => 8,
    }
}

/// An RX interrupt threshold as the register value.
pub fn thresh_bits(t: IntThresh) -> (bits: u8)
    ensures
        bits == spec_thresh_bits(t),
{
    match t {
        IntThresh::_0 => 0,
        IntThresh::_1 => 1,
        IntThresh::_2 => 2,
        IntThresh::_3 => 3,
        IntThresh::_4 => 4,
        IntThresh::_5 => 5,
        IntThresh::_6 => 6,
        IntThresh::_7 => 7,
        IntThresh::_8 => 8,
    }
}

/// The combined mask of a list of events of interrupt register 0.
pub open spec fn int0_mask_fold(s: Seq<Interrupts0>) -> u16
    decreases s.len(),
{
    if s.len() == 0 {
        0u16
    } else {
        int0_mask_fold(s.drop_last()) | spec_int0_mask(s.last())
    }
}

/// The combined mask of a list of events of interrupt register 1.
pub open spec fn int1_mask_fold(s: Seq<Interrupts1>) -> u16
    decreases s.len(),
{
    if s.len() == 0 {
        0u16
    } else {
        int1_mask_fold(s.drop_last()) | spec_int1_mask(s.last())
    }
}

/// The number of bytes a read transaction aims for: a requested count of 0
/// is a hardware-defined special case meaning 256 bytes.
pub open spec fn read_target(bytes_to_read: u8) -> nat {
    if bytes_to_read == 0 {
        256nat
    } else {
        bytes_to_read as nat
    }
}

/// The clock divisor programmed into both the high- and the low-period
/// register: half the peripheral-clock ticks per bus-clock period, less one.
pub open spec fn i2c_divisor(peripheral_clock: u32, speed: Clock) -> u32 {
    ((peripheral_clock / spec_clock_hz(speed)) / 2 - 1) as u32
}

/// The full byte sequence a write transaction puts on the wire: the encoded
/// address followed by the payload.
pub open spec fn write_frame(address: u16, data: Seq<u8>, ten_bit: bool) -> Seq<u8> {
    encoded_bytes(address, false, ten_bit) + data
}

/// Everything the shared stop procedure guarantees about the bus: queued
/// bytes are discarded and never reach the wire, a requested stop stands,
/// an observed NACK is not forgotten, and `reached_idle` reports exactly
/// whether the bus settled back to idle within the poll limit.  A bus that
/// was already idle stays exactly as it was.
pub open spec fn stop_result(pre: BusModel, post: BusModel, reached_idle: bool) -> bool {
    &&& post.inv()
    &&& post.tx_fifo.len() == 0
    &&& post.wire == pre.wire
    &&& pre.rx_wire.is_prefix_of(post.rx_wire)
    &&& post.rx_taken == pre.rx_taken
    &&& post.stop_req == true
    &&& (reached_idle <==> post.state == BusState::Idle)
    &&& (pre.nack_seen ==> post.nack_seen)
    &&& (pre.state == BusState::Idle ==> post.state == BusState::Idle && post.nack_seen
        == pre.nack_seen && post.rx_wire == pre.rx_wire)
    &&& post.tx_cap == pre.tx_cap
    &&& post.rx_cap == pre.rx_cap
    &&& post.rx_cnt == pre.rx_cnt
    &&& post.ext_addr == pre.ext_addr
    &&& post.clk_hi == pre.clk_hi
    &&& post.clk_lo == pre.clk_lo
    &&& post.enabled == pre.enabled
    &&& post.master == pre.master
    &&& post.rx_thresh == pre.rx_thresh
    &&& post.int_en0 == pre.int_en0
    &&& post.int_en1 == pre.int_en1
}

/// Law: the stop procedure is idempotent.  If a stop settled the bus to
/// idle, a second stop finds it idle, reports so, and leaves it idle; the
/// handle's `busy` flag is false after every stop unconditionally, by
/// `master_stop`'s own contract.
pub proof fn lemma_stop_idempotent(m0: BusModel, m1: BusModel, m2: BusModel, r1: bool, r2: bool)
    requires
        stop_result(m0, m1, r1),
        r1,
        stop_result(m1, m2, r2),
    ensures
        r2,
        m1.state == BusState::Idle,
        m2.state == BusState::Idle,
{
}

/// Handle of one physical I2C controller instance: the register interface,
/// the busy flag, and the internal read buffer with its fixed capacity.
pub struct I2C<B: I2cRegs> {
    regs: B,
    busy: bool,
    bytes_read: usize,
    buffer: Vec<u8>,
    capacity: usize,
    poll_limit: u32,
}

impl<B: I2cRegs> I2C<B> {
    /// Abstract view of the register block and the bus behind it.
    pub closed spec fn bus(&self) -> BusModel {
        self.regs.model()
    }

    /// The handle's busy flag.
    pub closed spec fn busy(&self) -> bool {
        self.busy
    }

    /// The bytes captured by the most recent read transaction.
    pub closed spec fn captured(&self) -> Seq<u8> {
        self.buffer@
    }

    /// The bytes-read counter.
    pub closed spec fn count(&self) -> nat {
        self.bytes_read as nat
    }

    /// Capacity of the internal read buffer.
    pub closed spec fn cap(&self) -> nat {
        self.capacity as nat
    }

    /// Maximum number of status polls per wait loop.
    pub closed spec fn limit(&self) -> nat {
        self.poll_limit as nat
    }

    /// Well-formedness: the counter matches the buffer, the buffer respects
    /// its capacity, the capacity respects the eight-bit hardware count
    /// field, at least one poll is allowed, and the bus model itself is
    /// well formed.
    pub closed spec fn wf(&self) -> bool {
        &&& self.bytes_read == self.buffer@.len()
        &&& self.buffer@.len() <= self.capacity
        &&& self.capacity <= 255
        &&& self.poll_limit >= 1
        &&& self.regs.model().inv()
    }

    /// Create a handle around a register interface.  `capacity` is the size
    /// of the internal read buffer; the hardware's read-count field is eight
    /// bits wide, so more than 255 bytes can never be requested of it.  The
    /// poll limit starts at its maximum, which in practice means waiting
    /// forever.
    pub fn new(regs: B, capacity: usize) -> (handle: I2C<B>)
        requires
            regs.model().inv(),
            capacity <= 255,
        ensures
            handle.wf(),
            handle.bus() == regs.model(),
            !handle.busy(),
            handle.count() == 0,
            handle.captured() == Seq::<u8>::empty(),
            handle.cap() == capacity,
            handle.limit() == u32::MAX,
    {
        I2C {
            regs,
            busy: false,
            bytes_read: 0,
            buffer: Vec::new(),
            capacity,
            poll_limit: u32::MAX,
        }
    }

    /// Bound every wait loop to at most `limit` polls of the status
    /// register; exhausting it surfaces as a timeout error instead of a
    /// hang.
    pub fn set_poll_limit(&mut self, limit: u32)
        requires
            old(self).wf(),
            limit >= 1,
        ensures
            final (self).wf(),
            final (self).limit() == limit,
            final (self).bus() == old(self).bus(),
            final (self).busy() == old(self).busy(),
            final (self).captured() == old(self).captured(),
            final (self).count() == old(self).count(),
            final (self).cap() == old(self).cap(),
    {
        self.poll_limit = limit;
    }

    /// Whether a transaction is in flight.
    pub fn is_busy(&self) -> (b: bool)
        ensures
            b == self.busy(),
    {
        self.busy
    }

    /// Whether no transaction is in flight.
    pub fn not_busy(&self) -> (b: bool)
        ensures
            b == !self.busy(),
    {
        !self.busy
    }

    /// Clear the busy flag by hand.
    pub fn clear_busy(&mut self)
        ensures
            !final (self).busy(),
            final (self).wf() == old(self).wf(),
            final (self).bus() == old(self).bus(),
            final (self).captured() == old(self).captured(),
            final (self).count() == old(self).count(),
            final (self).cap() == old(self).cap(),
            final (self).limit() == old(self).limit(),
    {
        self.busy = false;
    }

    /// Read-only access to the underlying register interface.
    pub fn regs(&self) -> (regs: &B)
        ensures
            regs.model() == self.bus(),
    {
        &self.regs
    }

    /// The bytes captured by the most recent read transaction, in order.
    pub fn read_buffer(&self) -> (buffer: &Vec<u8>)
        ensures
            buffer@ == self.captured(),
    {
        &self.buffer
    }

    /// Configure the bus clock and enable the controller in master mode.
    /// `tclock = peripheral_clock / speed` peripheral ticks make one bus
    /// period; half of them, less one, go into each divisor register.  A
    /// peripheral clock of less than two ticks per bus period admits no
    /// divisor and is rejected.
    pub fn enable(&mut self, peripheral_clock: u32, i2c_speed: Clock) -> (r: Result<
        (),
        I2CConfigError,
    >)
        requires
            old(self).wf(),
        ensures
            final (self).wf(),
            r is Ok <==> peripheral_clock / spec_clock_hz(i2c_speed) >= 2,
            r is Ok ==> final (self).bus() == (BusModel {
                clk_hi: i2c_divisor(peripheral_clock, i2c_speed),
                clk_lo: i2c_divisor(peripheral_clock, i2c_speed),
                enabled: true,
                master: true,
                ..old(self).bus()
            }),
            r is Err ==> final (self).bus() == old(self).bus(),
            final (self).busy() == old(self).busy(),
            final (self).captured() == old(self).captured(),
            final (self).count() == old(self).count(),
            final (self).cap() == old(self).cap(),
            final (self).limit() == old(self).limit(),
    {
        let hz = clock_hz(i2c_speed);
        let tclock = peripheral_clock / hz;
        if tclock < 2 {
            return Err(I2CConfigError::UnderConstrainedClock);
        }
        proof {
            assert(tclock >> 1 == tclock / 2 && tclock / 2 >= 1) by (bit_vector)
                requires
                    tclock >= 2,
            ;
        }
        let half = (tclock >> 1) - 1;
        self.regs.set_clk_div(half, half);
        self.regs.set_enable_master();
        Ok(())
    }

    /// Set the master-mode control bit.
    pub fn master_mode(&mut self)
        requires
            old(self).wf(),
        ensures
            final (self).wf(),
            final (self).bus() == (BusModel { master: true, ..old(self).bus() }),
            final (self).busy() == old(self).busy(),
            final (self).captured() == old(self).captured(),
            final (self).count() == old(self).count(),
            final (self).cap() == old(self).cap(),
            final (self).limit() == old(self).limit(),
    {
        self.regs.set_master();
    }

    /// Program the RX interrupt threshold.
    pub fn rx_int_threshold(&mut self, threshold: IntThresh)
        requires
            old(self).wf(),
        ensures
            final (self).wf(),
            final (self).bus() == (BusModel {
                rx_thresh: spec_thresh_bits(threshold),
                ..old(self).bus()
            }),
            final (self).busy() == old(self).busy(),
            final (self).captured() == old(self).captured(),
            final (self).count() == old(self).count(),
            final (self).cap() == old(self).cap(),
            final (self).limit() == old(self).limit(),
    {
        let bits = thresh_bits(threshold);
        self.regs.set_rx_thresh(bits);
    }

    /// Enable the given events in interrupt enable register 0.  The engine
    /// itself never reads these: they are configuration for an external
    /// interrupt handler.
    pub fn enable_interrupts0(&mut self, interrupts: &[Interrupts0])
        requires
            old(self).wf(),
        ensures
            final (self).wf(),
            final (self).bus() == (BusModel {
                int_en0: int0_mask_fold(interrupts@),
                ..old(self).bus()
            }),
            final (self).busy() == old(self).busy(),
            final (self).captured() == old(self).captured(),
            final (self).count() == old(self).count(),
            final (self).cap() == old(self).cap(),
            final (self).limit() == old(self).limit(),
    {
        let mut mask: u16 = 0;
        let mut i: usize = 0;
        while i < interrupts.len()
            invariant
                i <= interrupts@.len(),
                mask == int0_mask_fold(interrupts@.take(i as int)),
            decreases interrupts@.len() - i,
        {
            mask = mask | int0_mask(interrupts[i]);
            i = i + 1;
            proof {
                assert(interrupts@.take(i as int).drop_last() =~= interrupts@.take(i - 1));
                assert(interrupts@.take(i as int).last() == interrupts@[i - 1]);
            }
        }
        proof {
            assert(interrupts@.take(interrupts@.len() as int) =~= interrupts@);
        }
        self.regs.set_int_en0(mask);
    }

    /// Enable the given events in interrupt enable register 1.
    pub fn enable_interrupts1(&mut self, interrupts: &[Interrupts1])
        requires
            old(self).wf(),
        ensures
            final (self).wf(),
            final (self).bus() == (BusModel {
                int_en1: int1_mask_fold(interrupts@),
                ..old(self).bus()
            }),
            final (self).busy() == old(self).busy(),
            final (self).captured() == old(self).captured(),
            final (self).count() == old(self).count(),
            final (self).cap() == old(self).cap(),
            final (self).limit() == old(self).limit(),
    {
        let mut mask: u16 = 0;
        let mut i: usize = 0;
        while i < interrupts.len()
            invariant
                i <= interrupts@.len(),
                mask == int1_mask_fold(interrupts@.take(i as int)),
            decreases interrupts@.len() - i,
        {
            mask = mask | int1_mask(interrupts[i]);
            i = i + 1;
            proof {
                assert(interrupts@.take(i as int).drop_last() =~= interrupts@.take(i - 1));
                assert(interrupts@.take(i as int).last() == interrupts@[i - 1]);
            }
        }
        proof {
            assert(interrupts@.take(interrupts@.len() as int) =~= interrupts@);
        }
        self.regs.set_int_en1(mask);
    }

    /// Read interrupt flag register 0.
    pub fn get_interrupt0(&self) -> (flags: u16)
        ensures
            flags == self.bus().int_fl0,
    {
        self.regs.read_int_fl0()
    }

    /// Clear the given flag bits in interrupt flag register 0.
    pub fn clear_interrupt0(&mut self, ints: u16)
        requires
            old(self).wf(),
        ensures
            final (self).wf(),
            final (self).bus() == (BusModel {
                int_fl0: (old(self).bus().int_fl0 & !ints) as u16,
                ..old(self).bus()
            }),
            final (self).busy() == old(self).busy(),
            final (self).captured() == old(self).captured(),
            final (self).count() == old(self).count(),
            final (self).cap() == old(self).cap(),
            final (self).limit() == old(self).limit(),
    {
        self.regs.clear_int_fl0(ints);
    }

    /// Number of bytes currently queued in the TX FIFO.
    pub fn tx_fifo_len(&self) -> (n: u8)
        requires
            self.wf(),
        ensures
            n as nat == self.bus().tx_fifo.len(),
    {
        self.regs.tx_level()
    }

    /// Number of bytes currently waiting in the RX FIFO.
    pub fn rx_fifo_len(&self) -> (n: u8)
        requires
            self.wf(),
        ensures
            n as nat == self.bus().rx_avail(),
    {
        self.regs.rx_level()
    }

    /// The shared stop procedure.  Assert the stop condition (discarding
    /// whatever was still queued), clear the TX lock-out flag, wait within
    /// the poll limit for the bus to settle back to idle, and clear the
    /// busy flag as the unconditional last step.  Returns whether idle was
    /// reached.
    pub fn master_stop(&mut self) -> (reached_idle: bool)
        requires
            old(self).wf(),
        ensures
            final (self).wf(),
            !final (self).busy(),
            stop_result(old(self).bus(), final (self).bus(), reached_idle),
            final (self).captured() == old(self).captured(),
            final (self).count() == old(self).count(),
            final (self).cap() == old(self).cap(),
            final (self).limit() == old(self).limit(),
    {
        let ghost pre = self.regs.model();
        let ghost buf0 = self.buffer@;
        let ghost n0 = self.bytes_read;
        let ghost cap0 = self.capacity;
        let ghost lim0 = self.poll_limit;
        self.regs.assert_stop();
        self.regs.clear_int_fl0(int0_mask(Interrupts0::TxLockOut));
        let limit = self.poll_limit;
        let mut polls: u32 = 0;
        let mut reached = false;
        loop
            invariant_except_break
                polls < limit,
                reached == false,
            invariant
                self.wf(),
                self.buffer@ == buf0,
                self.bytes_read == n0,
                self.capacity == cap0,
                self.poll_limit == lim0,
                limit == lim0,
                self.regs.model().stop_req,
                self.regs.model().tx_fifo.len() == 0,
                self.regs.model().wire == pre.wire,
                pre.rx_wire.is_prefix_of(self.regs.model().rx_wire),
                self.regs.model().rx_taken == pre.rx_taken,
                pre.nack_seen ==> self.regs.model().nack_seen,
                pre.state == BusState::Idle ==> self.regs.model().state == BusState::Idle
                    && self.regs.model().nack_seen == pre.nack_seen && self.regs.model().rx_wire
                    == pre.rx_wire,
                self.regs.model().tx_cap == pre.tx_cap,
                self.regs.model().rx_cap == pre.rx_cap,
                self.regs.model().rx_cnt == pre.rx_cnt,
                self.regs.model().ext_addr == pre.ext_addr,
                self.regs.model().clk_hi == pre.clk_hi,
                self.regs.model().clk_lo == pre.clk_lo,
                self.regs.model().enabled == pre.enabled,
                self.regs.model().master == pre.master,
                self.regs.model().rx_thresh == pre.rx_thresh,
                self.regs.model().int_en0 == pre.int_en0,
                self.regs.model().int_en1 == pre.int_en1,
            ensures
                self.wf(),
                self.buffer@ == buf0,
                self.bytes_read == n0,
                self.capacity == cap0,
                self.poll_limit == lim0,
                reached <==> self.regs.model().state == BusState::Idle,
                self.regs.model().stop_req,
                self.regs.model().tx_fifo.len() == 0,
                self.regs.model().wire == pre.wire,
                pre.rx_wire.is_prefix_of(self.regs.model().rx_wire),
                self.regs.model().rx_taken == pre.rx_taken,
                pre.nack_seen ==> self.regs.model().nack_seen,
                pre.state == BusState::Idle ==> self.regs.model().state == BusState::Idle
                    && self.regs.model().nack_seen == pre.nack_seen && self.regs.model().rx_wire
                    == pre.rx_wire,
                self.regs.model().tx_cap == pre.tx_cap,
                self.regs.model().rx_cap == pre.rx_cap,
                self.regs.model().rx_cnt == pre.rx_cnt,
                self.regs.model().ext_addr == pre.ext_addr,
                self.regs.model().clk_hi == pre.clk_hi,
                self.regs.model().clk_lo == pre.clk_lo,
                self.regs.model().enabled == pre.enabled,
                self.regs.model().master == pre.master,
                self.regs.model().rx_thresh == pre.rx_thresh,
                self.regs.model().int_en0 == pre.int_en0,
                self.regs.model().int_en1 == pre.int_en1,
            decreases limit - polls,
        {
            let ghost before = self.regs.model();
            let st = self.regs.poll();
            proof {
                lemma_step_empty_fifo(before, self.regs.model());
            }
            if st == BusState::Idle {
                reached = true;
                break ;
            }
            polls = polls + 1;
            if polls >= limit {
                break ;
            }
        }
        self.busy = false;
        reached
    }

    /// While the TX FIFO has room, move payload bytes starting at `offset`
    /// into it, in order; returns the new offset.  Stops only at the end of
    /// the payload or at a full FIFO.
    fn buffer_tx_data(&mut self, data: &[u8], offset: usize) -> (new_offset: usize)
        requires
            old(self).wf(),
            offset <= data@.len(),
        ensures
            final (self).wf(),
            offset <= new_offset <= data@.len(),
            final (self).regs.model() == (BusModel {
                tx_fifo: old(self).regs.model().tx_fifo + data@.subrange(
                    offset as int,
                    new_offset as int,
                ),
                ..old(self).regs.model()
            }),
            new_offset < data@.len() ==> final (self).regs.model().tx_full(),
            final (self).busy == old(self).busy,
            final (self).buffer@ == old(self).buffer@,
            final (self).bytes_read == old(self).bytes_read,
            final (self).capacity == old(self).capacity,
            final (self).poll_limit == old(self).poll_limit,
    {
        let ghost m1 = self.regs.model();
        let ghost busy0 = self.busy;
        let ghost buf0 = self.buffer@;
        let ghost n0 = self.bytes_read;
        let ghost cap0 = self.capacity;
        let ghost lim0 = self.poll_limit;
        let mut off = offset;
        loop
            invariant
                self.wf(),
                offset <= off <= data@.len(),
                self.regs.model() == (BusModel {
                    tx_fifo: m1.tx_fifo + data@.subrange(offset as int, off as int),
                    ..m1
                }),
                self.busy == busy0,
                self.buffer@ == buf0,
                self.bytes_read == n0,
                self.capacity == cap0,
                self.poll_limit == lim0,
            ensures
                self.wf(),
                offset <= off <= data@.len(),
                self.regs.model() == (BusModel {
                    tx_fifo: m1.tx_fifo + data@.subrange(offset as int, off as int),
                    ..m1
                }),
                off < data@.len() ==> self.regs.model().tx_full(),
                self.busy == busy0,
                self.buffer@ == buf0,
                self.bytes_read == n0,
                self.capacity == cap0,
                self.poll_limit == lim0,
            decreases data@.len() - off,
        {
            proof {
                assert(self.regs.model().tx_fifo =~= m1.tx_fifo + data@.subrange(
                    offset as int,
                    off as int,
                ));
            }
            if off >= data.len() {
                break ;
            }
            if self.regs.tx_is_full() {
                break ;
            }
            let b = data[off];
            self.regs.write_fifo(b);
            proof {
                assert(self.regs.model().tx_fifo =~= m1.tx_fifo + data@.subrange(
                    offset as int,
                    off + 1,
                ));
            }
            off = off + 1;
        }
        off
    }

    /// A whole write transaction: queue the encoded address (setting the
    /// extended-address bit first in 10-bit mode), prime the TX FIFO with as
    /// much payload as fits, assert the start condition, then keep
    /// backfilling the FIFO while the bus transmits.  A NACK aborts the
    /// transaction at once and discards the unsent remainder; the stop
    /// procedure runs on every exit path, so the handle is never busy after
    /// the call.
    ///
    /// On success the slave received exactly the encoded address followed by
    /// the whole payload; in every outcome the wire carried some prefix of
    /// that framed message, in order.
    pub fn master_write(&mut self, address: u16, data: &[u8], ten_bit: bool) -> (r: Result<
        (),
        I2CWriteError,
    >)
        requires
            old(self).wf(),
            old(self).bus().state == BusState::Idle,
            old(self).bus().tx_fifo.len() == 0,
            ten_bit ==> address < 1024,
            !ten_bit ==> address < 128,
        ensures
            final (self).wf(),
            !final (self).busy(),
            final (self).bus().tx_fifo.len() == 0,
            final (self).captured() == old(self).captured(),
            final (self).count() == old(self).count(),
            final (self).cap() == old(self).cap(),
            final (self).limit() == old(self).limit(),
            final (self).bus().tx_cap == old(self).bus().tx_cap,
            final (self).bus().rx_cap == old(self).bus().rx_cap,
            final (self).bus().rx_cnt == old(self).bus().rx_cnt,
            final (self).bus().clk_hi == old(self).bus().clk_hi,
            final (self).bus().clk_lo == old(self).bus().clk_lo,
            final (self).bus().enabled == old(self).bus().enabled,
            final (self).bus().master == old(self).bus().master,
            final (self).bus().rx_thresh == old(self).bus().rx_thresh,
            final (self).bus().int_en0 == old(self).bus().int_en0,
            final (self).bus().int_en1 == old(self).bus().int_en1,
            final (self).bus().rx_taken == old(self).bus().rx_taken,
            old(self).bus().rx_wire.is_prefix_of(final (self).bus().rx_wire),
            ten_bit ==> final (self).bus().ext_addr,
            !ten_bit ==> final (self).bus().ext_addr == old(self).bus().ext_addr,
            exists|k: int|
                0 <= k <= write_frame(address, data@, ten_bit).len() && final (self).bus().wire
                    == old(self).bus().wire + write_frame(address, data@, ten_bit).take(k),
            r is Ok ==> final (self).bus().wire == old(self).bus().wire + write_frame(
                address,
                data@,
                ten_bit,
            ),
            r is Ok ==> final (self).bus().state == BusState::Idle && !final (self).bus().nack_seen,
            r == Err::<(), I2CWriteError>(I2CWriteError::NACK) ==> final (self).bus().nack_seen,
    {
        let ghost m0 = self.regs.model();
        let ghost frame = write_frame(address, data@, ten_bit);
        let ghost buf0 = self.buffer@;
        let ghost n0 = self.bytes_read;
        let ghost cap0 = self.capacity;
        let ghost lim0 = self.poll_limit;
        self.busy = true;
        if ten_bit {
            self.regs.set_ext_addr();
            let addr_bytes = encode_10bit(address, false);
            self.regs.write_fifo(addr_bytes.0);
            self.regs.write_fifo(addr_bytes.1);
        } else {
            let addr_byte = encode_7bit(address, false);
            self.regs.write_fifo(addr_byte);
        }
        let ghost alen = encoded_bytes(address, false, ten_bit).len() as int;
        proof {
            assert(self.regs.model().tx_fifo =~= encoded_bytes(address, false, ten_bit));
            assert(self.regs.model().tx_fifo =~= frame.take(alen));
        }
        let mut offset = self.buffer_tx_data(data, 0);
        proof {
            assert(self.regs.model().tx_fifo =~= frame.take(alen + offset));
            lemma_tx_progress_init(m0, self.regs.model());
        }
        self.regs.assert_start();
        proof {
            assert(tx_progress(m0, self.regs.model(), frame.take(alen + offset)));
        }
        let limit = self.poll_limit;
        let mut polls: u32 = 0;
        let mut nacked = false;
        let mut timed_out = false;
        loop
            invariant_except_break
                polls < limit,
                nacked == false,
                timed_out == false,
            invariant
                self.wf(),
                self.busy,
                self.buffer@ == buf0,
                self.bytes_read == n0,
                self.capacity == cap0,
                self.poll_limit == lim0,
                limit == lim0,
                offset <= data@.len(),
                alen == encoded_bytes(address, false, ten_bit).len(),
                frame == write_frame(address, data@, ten_bit),
                tx_progress(m0, self.regs.model(), frame.take(alen + offset)),
                !self.regs.model().stop_req,
                self.regs.model().nack_seen ==> self.regs.model().state
                    == BusState::NackReceived,
                self.regs.model().rx_taken == m0.rx_taken,
                m0.rx_wire.is_prefix_of(self.regs.model().rx_wire),
                self.regs.model().tx_cap == m0.tx_cap,
                self.regs.model().rx_cap == m0.rx_cap,
                self.regs.model().rx_cnt == m0.rx_cnt,
                self.regs.model().clk_hi == m0.clk_hi,
                self.regs.model().clk_lo == m0.clk_lo,
                self.regs.model().enabled == m0.enabled,
                self.regs.model().master == m0.master,
                self.regs.model().rx_thresh == m0.rx_thresh,
                self.regs.model().int_en0 == m0.int_en0,
                self.regs.model().int_en1 == m0.int_en1,
                ten_bit ==> self.regs.model().ext_addr,
                !ten_bit ==> self.regs.model().ext_addr == m0.ext_addr,
            ensures
                self.wf(),
                self.busy,
                self.buffer@ == buf0,
                self.bytes_read == n0,
                self.capacity == cap0,
                self.poll_limit == lim0,
                offset <= data@.len(),
                tx_progress(m0, self.regs.model(), frame.take(alen + offset)),
                self.regs.model().rx_taken == m0.rx_taken,
                m0.rx_wire.is_prefix_of(self.regs.model().rx_wire),
                self.regs.model().tx_cap == m0.tx_cap,
                self.regs.model().rx_cap == m0.rx_cap,
                self.regs.model().rx_cnt == m0.rx_cnt,
                self.regs.model().clk_hi == m0.clk_hi,
                self.regs.model().clk_lo == m0.clk_lo,
                self.regs.model().enabled == m0.enabled,
                self.regs.model().master == m0.master,
                self.regs.model().rx_thresh == m0.rx_thresh,
                self.regs.model().int_en0 == m0.int_en0,
                self.regs.model().int_en1 == m0.int_en1,
                ten_bit ==> self.regs.model().ext_addr,
                !ten_bit ==> self.regs.model().ext_addr == m0.ext_addr,
                nacked ==> self.regs.model().nack_seen,
                !nacked && !timed_out ==> offset == data@.len() && self.regs.model().state
                    == BusState::Idle && self.regs.model().tx_fifo.len() == 0
                    && !self.regs.model().nack_seen,
            decreases limit - polls,
        {
            let ghost before = self.regs.model();
            let st = self.regs.poll();
            proof {
                lemma_tx_progress_step(m0, before, self.regs.model(), frame.take(alen + offset));
            }
            if st == BusState::NackReceived {
                nacked = true;
                break ;
            }
            if offset < data.len() {
                let ghost mid = self.regs.model();
                let new_offset = self.buffer_tx_data(data, offset);
                proof {
                    lemma_tx_progress_append(
                        m0,
                        mid,
                        self.regs.model(),
                        frame.take(alen + offset),
                        data@.subrange(offset as int, new_offset as int),
                    );
                    assert(frame.take(alen + offset) + data@.subrange(
                        offset as int,
                        new_offset as int,
                    ) =~= frame.take(alen + new_offset));
                }
                offset = new_offset;
            }
            if offset == data.len() && st == BusState::Idle && self.regs.tx_is_empty() {
                break ;
            }
            polls = polls + 1;
            if polls >= limit {
                timed_out = true;
                break ;
            }
        }
        let ghost me = self.regs.model();
        let reached = self.master_stop();
        proof {
            lemma_tx_progress_wire_prefix(m0, me, frame, alen + offset);
            lemma_prefix_trans(m0.rx_wire, me.rx_wire, self.regs.model().rx_wire);
        }
        if nacked {
            return Err(I2CWriteError::NACK);
        }
        if timed_out || !reached {
            return Err(I2CWriteError::BusTimeout);
        }
        proof {
            assert(frame.take(alen + offset) =~= frame);
            assert(me.wire.skip(m0.wire.len() as int) + me.tx_fifo =~= me.wire.skip(
                m0.wire.len() as int,
            ));
            assert(me.wire =~= m0.wire + frame);
            assert(frame.take(frame.len() as int) =~= frame);
            assert(self.regs.model().wire == m0.wire + frame.take(frame.len() as int));
        }
        Ok(())
    }

    /// A whole read transaction: program the hardware's expected byte count
    /// (a requested count of 0 means 256 bytes; the raw count register is
    /// eight bits wide and is written with the request as given), queue the
    /// encoded address with the read direction bit, assert the start
    /// condition, then drain arriving bytes into the internal buffer until
    /// the adjusted target is reached, the bus goes idle, or a NACK arrives.
    /// The stop procedure runs on every exit path, so the handle is never
    /// busy after the call.
    ///
    /// A request whose adjusted target exceeds the buffer capacity is
    /// rejected outright, before the bus is touched.  A NACK strictly before
    /// the target is an error; a bus that goes idle early yields the count
    /// actually captured as a success.  The captured bytes are exactly the
    /// first bytes the bus delivered during this call, in order.
    pub fn master_read(&mut self, address: u16, bytes_to_read: u8, ten_bit: bool) -> (r: Result<
        usize,
        I2CReadError,
    >)
        requires
            old(self).wf(),
            old(self).bus().state == BusState::Idle,
            old(self).bus().tx_fifo.len() == 0,
            old(self).bus().rx_avail() == 0,
            ten_bit ==> address < 1024,
            !ten_bit ==> address < 128,
        ensures
            final (self).wf(),
            !final (self).busy(),
            final (self).cap() == old(self).cap(),
            final (self).limit() == old(self).limit(),
            r == Err::<usize, I2CReadError>(I2CReadError::Capacity) <==> read_target(bytes_to_read)
                > old(self).cap(),
            r == Err::<usize, I2CReadError>(I2CReadError::Capacity) ==> final (self).bus() == old(self).bus() && final (self).captured() == old(self).captured() && final (self).count()
                == old(self).count(),
            r != Err::<usize, I2CReadError>(I2CReadError::Capacity) ==> final (self).bus().tx_fifo.len() == 0,
            r != Err::<usize, I2CReadError>(I2CReadError::Capacity) ==> final (self).bus().rx_cnt
                == bytes_to_read,
            r != Err::<usize, I2CReadError>(I2CReadError::Capacity) ==> final (self).count()
                <= read_target(bytes_to_read) && final (self).count() <= old(self).cap(),
            r != Err::<usize, I2CReadError>(I2CReadError::Capacity) ==> final (self).captured()
                == final (self).bus().rx_wire.subrange(
                old(self).bus().rx_wire.len() as int,
                old(self).bus().rx_wire.len() + final (self).count() as int,
            ),
            r != Err::<usize, I2CReadError>(I2CReadError::Capacity) ==> final (self).bus().rx_taken
                == old(self).bus().rx_taken + final (self).count(),
            r != Err::<usize, I2CReadError>(I2CReadError::Capacity) ==> old(self).bus().rx_wire.is_prefix_of(final (self).bus().rx_wire),
            r != Err::<usize, I2CReadError>(I2CReadError::Capacity) ==> (ten_bit ==> final (self).bus().ext_addr) && (!ten_bit ==> final (self).bus().ext_addr == old(self).bus().ext_addr),
            r != Err::<usize, I2CReadError>(I2CReadError::Capacity) ==> final (self).bus().tx_cap
                == old(self).bus().tx_cap && final (self).bus().rx_cap == old(self).bus().rx_cap
                && final (self).bus().clk_hi == old(self).bus().clk_hi && final (self).bus().clk_lo
                == old(self).bus().clk_lo && final (self).bus().enabled == old(self).bus().enabled
                && final (self).bus().master == old(self).bus().master && final (self).bus().rx_thresh == old(self).bus().rx_thresh && final (self).bus().int_en0 == old(self).bus().int_en0 && final (self).bus().int_en1 == old(self).bus().int_en1,
            r != Err::<usize, I2CReadError>(I2CReadError::Capacity) ==> exists|k: int|
                0 <= k <= encoded_bytes(address, true, ten_bit).len() && final (self).bus().wire
                    == old(self).bus().wire + encoded_bytes(address, true, ten_bit).take(k),
            r is Ok ==> r->Ok_0 == final (self).count() && final (self).bus().state
                == BusState::Idle,
            r == Err::<usize, I2CReadError>(I2CReadError::NACK) ==> final (self).bus().nack_seen
                && final (self).count() < read_target(bytes_to_read),
    {
        let target: usize = if bytes_to_read == 0 {
            256
        } else {
            bytes_to_read as usize
        };
        if target > self.capacity {
            self.busy = false;
            return Err(I2CReadError::Capacity);
        }
        let ghost m0 = self.regs.model();
        let ghost addr_seq = encoded_bytes(address, true, ten_bit);
        let ghost cap0 = self.capacity;
        let ghost lim0 = self.poll_limit;
        let ghost rx0 = m0.rx_wire.len() as int;
        self.busy = true;
        self.bytes_read = 0;
        self.buffer.clear();
        self.regs.set_rx_cnt(bytes_to_read);
        if ten_bit {
            self.regs.set_ext_addr();
            let addr_bytes = encode_10bit(address, true);
            self.regs.write_fifo(addr_bytes.0);
            self.regs.write_fifo(addr_bytes.1);
        } else {
            let addr_byte = encode_7bit(address, true);
            self.regs.write_fifo(addr_byte);
        }
        proof {
            assert(self.regs.model().tx_fifo =~= addr_seq);
            assert(addr_seq.take(addr_seq.len() as int) =~= addr_seq);
            lemma_tx_progress_init(m0, self.regs.model());
        }
        self.regs.assert_start();
        let limit = self.poll_limit;
        let mut polls: u32 = 0;
        let mut nacked = false;
        let mut timed_out = false;
        loop
            invariant_except_break
                polls < limit,
                nacked == false,
                timed_out == false,
            invariant
                self.wf(),
                self.busy,
                self.capacity == cap0,
                self.poll_limit == lim0,
                limit == lim0,
                target == read_target(bytes_to_read),
                target <= cap0,
                self.bytes_read <= target,
                addr_seq == encoded_bytes(address, true, ten_bit),
                rx0 == m0.rx_wire.len(),
                self.regs.model().rx_taken == rx0 + self.bytes_read,
                self.buffer@ == self.regs.model().rx_wire.subrange(
                    rx0,
                    rx0 + self.bytes_read,
                ),
                m0.rx_wire.is_prefix_of(self.regs.model().rx_wire),
                tx_progress(m0, self.regs.model(), addr_seq.take(addr_seq.len() as int)),
                !self.regs.model().stop_req,
                self.regs.model().nack_seen ==> self.regs.model().state
                    == BusState::NackReceived,
                self.regs.model().rx_cnt == bytes_to_read,
                self.regs.model().tx_cap == m0.tx_cap,
                self.regs.model().rx_cap == m0.rx_cap,
                self.regs.model().clk_hi == m0.clk_hi,
                self.regs.model().clk_lo == m0.clk_lo,
                self.regs.model().enabled == m0.enabled,
                self.regs.model().master == m0.master,
                self.regs.model().rx_thresh == m0.rx_thresh,
                self.regs.model().int_en0 == m0.int_en0,
                self.regs.model().int_en1 == m0.int_en1,
                ten_bit ==> self.regs.model().ext_addr,
                !ten_bit ==> self.regs.model().ext_addr == m0.ext_addr,
            ensures
                self.wf(),
                self.busy,
                self.capacity == cap0,
                self.poll_limit == lim0,
                self.bytes_read <= target,
                self.regs.model().rx_taken == rx0 + self.bytes_read,
                self.buffer@ == self.regs.model().rx_wire.subrange(
                    rx0,
                    rx0 + self.bytes_read,
                ),
                m0.rx_wire.is_prefix_of(self.regs.model().rx_wire),
                tx_progress(m0, self.regs.model(), addr_seq.take(addr_seq.len() as int)),
                self.regs.model().rx_cnt == bytes_to_read,
                self.regs.model().tx_cap == m0.tx_cap,
                self.regs.model().rx_cap == m0.rx_cap,
                self.regs.model().clk_hi == m0.clk_hi,
                self.regs.model().clk_lo == m0.clk_lo,
                self.regs.model().enabled == m0.enabled,
                self.regs.model().master == m0.master,
                self.regs.model().rx_thresh == m0.rx_thresh,
                self.regs.model().int_en0 == m0.int_en0,
                self.regs.model().int_en1 == m0.int_en1,
                ten_bit ==> self.regs.model().ext_addr,
                !ten_bit ==> self.regs.model().ext_addr == m0.ext_addr,
                nacked ==> self.regs.model().nack_seen && self.bytes_read < target,
                !nacked && !timed_out ==> self.bytes_read == target || self.regs.model().state
                    == BusState::Idle,
            decreases limit - polls,
        {
            let ghost before = self.regs.model();
            let st = self.regs.poll();
            proof {
                lemma_tx_progress_step(
                    m0,
                    before,
                    self.regs.model(),
                    addr_seq.take(addr_seq.len() as int),
                );
                lemma_prefix_subrange(
                    before.rx_wire,
                    self.regs.model().rx_wire,
                    rx0,
                    rx0 + self.bytes_read,
                );
            }
            while self.bytes_read < target && !self.regs.rx_is_empty()
                invariant
                    self.wf(),
                    self.busy,
                    self.capacity == cap0,
                    self.poll_limit == lim0,
                    target <= cap0,
                    self.bytes_read <= target,
                    rx0 == m0.rx_wire.len(),
                    self.regs.model().rx_taken == rx0 + self.bytes_read,
                    self.buffer@ == self.regs.model().rx_wire.subrange(
                        rx0,
                        rx0 + self.bytes_read,
                    ),
                    m0.rx_wire.is_prefix_of(self.regs.model().rx_wire),
                    tx_progress(m0, self.regs.model(), addr_seq.take(addr_seq.len() as int)),
                    !self.regs.model().stop_req,
                    self.regs.model().nack_seen ==> self.regs.model().state
                        == BusState::NackReceived,
                    self.regs.model().state == st,
                    self.regs.model().rx_cnt == bytes_to_read,
                    self.regs.model().tx_cap == m0.tx_cap,
                    self.regs.model().rx_cap == m0.rx_cap,
                    self.regs.model().clk_hi == m0.clk_hi,
                    self.regs.model().clk_lo == m0.clk_lo,
                    self.regs.model().enabled == m0.enabled,
                    self.regs.model().master == m0.master,
                    self.regs.model().rx_thresh == m0.rx_thresh,
                    self.regs.model().int_en0 == m0.int_en0,
                    self.regs.model().int_en1 == m0.int_en1,
                    ten_bit ==> self.regs.model().ext_addr,
                    !ten_bit ==> self.regs.model().ext_addr == m0.ext_addr,
                decreases target - self.bytes_read,
            {
                let b = self.regs.read_fifo();
                self.buffer.push(b);
                self.bytes_read = self.bytes_read + 1;
                proof {
                    assert(self.buffer@ =~= self.regs.model().rx_wire.subrange(
                        rx0,
                        rx0 + self.bytes_read,
                    ));
                }
            }
            if self.bytes_read >= target {
                break ;
            }
            if st == BusState::NackReceived {
                nacked = true;
                break ;
            }
            if st == BusState::Idle {
                break ;
            }
            polls = polls + 1;
            if polls >= limit {
                timed_out = true;
                break ;
            }
        }
        let ghost me = self.regs.model();
        let reached = self.master_stop();
        proof {
            lemma_tx_progress_wire_prefix(m0, me, addr_seq, addr_seq.len() as int);
            lemma_prefix_trans(m0.rx_wire, me.rx_wire, self.regs.model().rx_wire);
            lemma_prefix_subrange(
                me.rx_wire,
                self.regs.model().rx_wire,
                rx0,
                rx0 + self.bytes_read,
            );
        }
        if nacked {
            return Err(I2CReadError::NACK);
        }
        if timed_out || !reached {
            return Err(I2CReadError::BusTimeout);
        }
        Ok(self.bytes_read)
    }
}

} // verus!
