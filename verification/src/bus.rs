//! Abstract model of the I2C controller's register block.
//!
//! [`BusModel`] is the mathematical state the contracts speak of: the bytes
//! queued in the TX FIFO, the bytes that have actually left onto the wire,
//! the bytes the bus has delivered into the RX FIFO, the bus state reported
//! by the status register, and the configuration registers.
//!
//! [`I2cRegs`] is the register interface the transaction engine is verified
//! against.  The driver is strictly polling: the model advances only at a
//! [`I2cRegs::poll`], where the hardware's progress since the previous poll
//! is summed up by one [`bus_step`].  Plain register reads and writes
//! (`write_fifo`, `set_rx_cnt`, ...) change exactly the field they name.

use vstd::prelude::*;

verus! {

/// Bus state as reported by the controller's status register.
#[derive(Clone, Copy, PartialEq, Eq, Structural, Debug)]
pub enum BusState {
    /// No transaction in flight.
    Idle,
    /// A transaction is in flight.
    Transmitting,
    /// The addressed slave refused a byte.
    NackReceived,
}

/// Abstract state of the I2C register block and of the bus behind it.
#[verifier::ext_equal]
pub ghost struct BusModel {
    /// Bytes queued in the TX FIFO, oldest first.
    pub tx_fifo: Seq<u8>,
    /// Every byte that has left the controller onto the wire, in order.
    pub wire: Seq<u8>,
    /// Every byte the bus has delivered into the RX FIFO, in order.
    pub rx_wire: Seq<u8>,
    /// How many of `rx_wire` have been popped out of the RX FIFO.
    pub rx_taken: nat,
    /// Bus state reported by the status register.
    pub state: BusState,
    /// A stop condition has been requested.
    pub stop_req: bool,
    /// A NACK has been observed since the last start condition.
    pub nack_seen: bool,
    /// Depth of the TX FIFO.
    pub tx_cap: nat,
    /// Depth of the RX FIFO.
    pub rx_cap: nat,
    /// Value of the RX byte-count register (0 means 256 to the hardware).
    pub rx_cnt: u8,
    /// Extended (10-bit) addressing control bit.
    pub ext_addr: bool,
    /// Clock high-period divisor register.
    pub clk_hi: u32,
    /// Clock low-period divisor register.
    pub clk_lo: u32,
    /// Controller enable bit.
    pub enabled: bool,
    /// Master-mode bit.
    pub master: bool,
    /// RX interrupt threshold register.
    pub rx_thresh: u8,
    /// Interrupt enable register 0.
    pub int_en0: u16,
    /// Interrupt enable register 1.
    pub int_en1: u16,
    /// Interrupt flag register 0; the hardware raises flags on its own.
    pub int_fl0: u16,
}

impl BusModel {
    /// Bytes delivered by the bus and not yet popped out of the RX FIFO.
    pub open spec fn rx_avail(self) -> nat {
        (self.rx_wire.len() - self.rx_taken) as nat
    }

    /// The TX FIFO has no room for another byte.
    pub open spec fn tx_full(self) -> bool {
        self.tx_fifo.len() >= self.tx_cap
    }

    /// Basic well-formedness: the FIFOs respect their depths (a real
    /// controller's FIFOs are at least two bytes deep, enough for the longest
    /// address sequence, and their level registers are eight bits wide), and
    /// the status register still shows the NACK until a stop clears it.
    pub open spec fn inv(self) -> bool {
        &&& self.rx_taken <= self.rx_wire.len()
        &&& self.tx_fifo.len() <= self.tx_cap
        &&& 2 <= self.tx_cap <= 255
        &&& self.rx_avail() <= self.rx_cap
        &&& 1 <= self.rx_cap <= 255
        &&& (self.state is NackReceived ==> self.nack_seen)
    }

    /// The registers that only the driver writes; the bus never changes them.
    pub open spec fn config_eq(self, other: BusModel) -> bool {
        &&& self.tx_cap == other.tx_cap
        &&& self.rx_cap == other.rx_cap
        &&& self.rx_cnt == other.rx_cnt
        &&& self.ext_addr == other.ext_addr
        &&& self.stop_req == other.stop_req
        &&& self.clk_hi == other.clk_hi
        &&& self.clk_lo == other.clk_lo
        &&& self.enabled == other.enabled
        &&& self.master == other.master
        &&& self.rx_thresh == other.rx_thresh
        &&& self.int_en0 == other.int_en0
        &&& self.int_en1 == other.int_en1
    }
}

/// One observable step of the bus between two polls of the status register.
///
/// While the bus is mid-transaction it may move some prefix of the TX FIFO
/// onto the wire and deliver new bytes into the RX FIFO.  The state may leave
/// `Transmitting` for `NackReceived` at the slave's whim, but may reach
/// `Idle` only once the TX FIFO has drained; a NACK holds the bus until a
/// stop condition releases it.  `Idle` is stable: only the driver, by
/// asserting a start, leaves it.  The interrupt flag register is
/// deliberately unconstrained: the hardware raises event flags on its own.
pub open spec fn bus_step(m1: BusModel, m2: BusModel) -> bool {
    &&& m1.config_eq(m2)
    &&& m2.rx_taken == m1.rx_taken
    &&& exists|k: int|
        0 <= k <= m1.tx_fifo.len() && m2.wire == m1.wire + m1.tx_fifo.take(k) && m2.tx_fifo
            == m1.tx_fifo.skip(k)
    &&& m1.rx_wire.is_prefix_of(m2.rx_wire)
    &&& m2.rx_avail() <= m2.rx_cap
    &&& (m1.state != BusState::Transmitting ==> m2.wire == m1.wire && m2.tx_fifo == m1.tx_fifo
        && m2.rx_wire == m1.rx_wire)
    &&& match m1.state {
        BusState::Idle => m2.state == BusState::Idle,
        BusState::Transmitting => {
            ||| m2.state == BusState::Transmitting
            ||| m2.state == BusState::NackReceived
            ||| (m2.state == BusState::Idle && m2.tx_fifo.len() == 0)
        },
        BusState::NackReceived => {
            ||| m2.state == BusState::NackReceived
            ||| (m1.stop_req && m2.state == BusState::Idle)
        },
    }
    &&& m2.nack_seen == (m1.nack_seen || m2.state == BusState::NackReceived)
}

/// How a transaction's queued bytes relate to the wire while it is in
/// flight: everything pushed into the TX FIFO since the transaction began
/// (`pushed`) is either already on the wire or still queued, in order.
pub open spec fn tx_progress(m0: BusModel, m: BusModel, pushed: Seq<u8>) -> bool {
    &&& m0.wire.is_prefix_of(m.wire)
    &&& m.wire.skip(m0.wire.len() as int) + m.tx_fifo == pushed
}

/// A bus step moves queued bytes onto the wire in order, so it preserves
/// `tx_progress`.
pub proof fn lemma_tx_progress_step(m0: BusModel, m1: BusModel, m2: BusModel, pushed: Seq<u8>)
    requires
        tx_progress(m0, m1, pushed),
        bus_step(m1, m2),
    ensures
        tx_progress(m0, m2, pushed),
{
    let k = choose|k: int|
        0 <= k <= m1.tx_fifo.len() && m2.wire == m1.wire + m1.tx_fifo.take(k) && m2.tx_fifo
            == m1.tx_fifo.skip(k);
    assert(m2.wire.take(m0.wire.len() as int) =~= m0.wire);
    assert(m2.wire.skip(m0.wire.len() as int) + m2.tx_fifo =~= pushed);
}

/// As long as nothing has left for the wire yet, whatever sits in the TX
/// FIFO is exactly the transaction's progress.
pub proof fn lemma_tx_progress_init(m0: BusModel, m: BusModel)
    requires
        m.wire == m0.wire,
    ensures
        tx_progress(m0, m, m.tx_fifo),
{
    assert(m.wire.take(m0.wire.len() as int) =~= m0.wire);
    assert(m.wire.skip(m0.wire.len() as int) + m.tx_fifo =~= m.tx_fifo);
}

/// Appending bytes to the TX FIFO extends `tx_progress` by those bytes.
pub proof fn lemma_tx_progress_append(
    m0: BusModel,
    m1: BusModel,
    m2: BusModel,
    pushed: Seq<u8>,
    extra: Seq<u8>,
)
    requires
        tx_progress(m0, m1, pushed),
        m2.wire == m1.wire,
        m2.tx_fifo == m1.tx_fifo + extra,
    ensures
        tx_progress(m0, m2, pushed + extra),
{
    assert(m2.wire.take(m0.wire.len() as int) =~= m0.wire);
    assert(m2.wire.skip(m0.wire.len() as int) + m2.tx_fifo =~= pushed + extra);
}

/// While the progress so far is a prefix of the framed message, the wire
/// holds the framed message up to some point, in order: nothing reaches the
/// slave out of order or from elsewhere.
pub proof fn lemma_tx_progress_wire_prefix(m0: BusModel, m: BusModel, frame: Seq<u8>, n: int)
    requires
        0 <= n <= frame.len(),
        tx_progress(m0, m, frame.take(n)),
    ensures
        exists|k: int| 0 <= k <= frame.len() && m.wire == m0.wire + frame.take(k),
{
    let ext = m.wire.skip(m0.wire.len() as int);
    assert(frame.take(n).len() == n);
    lemma_concat_take(ext, m.tx_fifo, frame, n);
    assert(m.wire =~= m0.wire + ext);
    assert(0 <= ext.len() <= frame.len() && m.wire == m0.wire + frame.take(ext.len() as int));
}



/// Being a prefix is transitive.
pub proof fn lemma_prefix_trans(s1: Seq<u8>, s2: Seq<u8>, s3: Seq<u8>)
    requires
        s1.is_prefix_of(s2),
        s2.is_prefix_of(s3),
    ensures
        s1.is_prefix_of(s3),
{
    assert(s3.subrange(0, s1.len() as int) =~= s1);
}

/// With an empty TX FIFO a bus step cannot put anything on the wire.
pub proof fn lemma_step_empty_fifo(m1: BusModel, m2: BusModel)
    requires
        bus_step(m1, m2),
        m1.tx_fifo.len() == 0,
    ensures
        m2.wire == m1.wire,
        m2.tx_fifo.len() == 0,
{
    let k = choose|k: int|
        0 <= k <= m1.tx_fifo.len() && m2.wire == m1.wire + m1.tx_fifo.take(k) && m2.tx_fifo
            == m1.tx_fifo.skip(k);
    assert(m2.wire =~= m1.wire);
}

/// A subrange that lies inside a prefix is the same in the longer sequence.
pub proof fn lemma_prefix_subrange(s1: Seq<u8>, s2: Seq<u8>, a: int, b: int)
    requires
        s1.is_prefix_of(s2),
        0 <= a <= b <= s1.len(),
    ensures
        s2.subrange(a, b) == s1.subrange(a, b),
{
    assert(s2.subrange(a, b) =~= s1.subrange(a, b));
}

/// If two sequences concatenate to a prefix of `t`, the first is itself a
/// prefix of `t` of its own length.
pub proof fn lemma_concat_take(s1: Seq<u8>, s2: Seq<u8>, t: Seq<u8>, n: int)
    requires
        0 <= n <= t.len(),
        s1 + s2 == t.take(n),
    ensures
        s1.len() <= n,
        s1 == t.take(s1.len() as int),
{
    assert(t.take(n).len() == n);
    assert((s1 + s2).len() == s1.len() + s2.len());
    assert(s1 =~= t.take(s1.len() as int));
}

/// Register interface of the I2C controller.
///
/// The transaction engine is verified against these contracts alone.  All
/// hardware progress is observed at `poll`; every other method changes
/// exactly the register it names.
pub trait I2cRegs: Sized {
    /// Abstract view of the register block and the bus behind it.
    spec fn model(&self) -> BusModel;

    /// Read the status register.  The hardware's progress since the previous
    /// poll is summed up by one `bus_step`.
    fn poll(&mut self) -> (state: BusState)
        requires
            old(self).model().inv(),
        ensures
            final (self).model().inv(),
            bus_step(old(self).model(), final (self).model()),
            state == final (self).model().state,
    ;

    /// Whether the TX FIFO is full, from the status register.
    fn tx_is_full(&self) -> (full: bool)
        ensures
            full == self.model().tx_full(),
    ;

    /// Whether the TX FIFO is empty, from the status register.
    fn tx_is_empty(&self) -> (empty: bool)
        ensures
            empty == (self.model().tx_fifo.len() == 0),
    ;

    /// Whether the RX FIFO is empty, from the status register.
    fn rx_is_empty(&self) -> (empty: bool)
        requires
            self.model().inv(),
        ensures
            empty == (self.model().rx_avail() == 0),
    ;

    /// Number of bytes in the TX FIFO, from the TX control register.
    fn tx_level(&self) -> (n: u8)
        requires
            self.model().inv(),
        ensures
            n as nat == self.model().tx_fifo.len(),
    ;

    /// Number of bytes in the RX FIFO, from the RX control register.
    fn rx_level(&self) -> (n: u8)
        requires
            self.model().inv(),
        ensures
            n as nat == self.model().rx_avail(),
    ;

    /// Push one byte into the TX FIFO.
    fn write_fifo(&mut self, byte: u8)
        requires
            old(self).model().inv(),
            !old(self).model().tx_full(),
        ensures
            final (self).model() == (BusModel {
                tx_fifo: old(self).model().tx_fifo.push(byte),
                ..old(self).model()
            }),
    ;

    /// Pop the oldest byte out of the RX FIFO.
    fn read_fifo(&mut self) -> (byte: u8)
        requires
            old(self).model().inv(),
            old(self).model().rx_avail() > 0,
        ensures
            byte == old(self).model().rx_wire[old(self).model().rx_taken as int],
            final (self).model() == (BusModel {
                rx_taken: old(self).model().rx_taken + 1,
                ..old(self).model()
            }),
    ;

    /// Program the RX byte-count register.
    fn set_rx_cnt(&mut self, cnt: u8)
        ensures
            final (self).model() == (BusModel { rx_cnt: cnt, ..old(self).model() }),
    ;

    /// Set the extended-address control bit for a 10-bit transaction.
    fn set_ext_addr(&mut self)
        ensures
            final (self).model() == (BusModel { ext_addr: true, ..old(self).model() }),
    ;

    /// Assert the start condition.  The bus begins transmitting the queued
    /// address; a fresh transaction has seen no NACK yet.
    fn assert_start(&mut self)
        requires
            old(self).model().inv(),
            old(self).model().state == BusState::Idle,
            old(self).model().tx_fifo.len() > 0,
        ensures
            final (self).model() == (BusModel {
                state: BusState::Transmitting,
                stop_req: false,
                nack_seen: false,
                ..old(self).model()
            }),
    ;

    /// Assert the stop condition.  Whatever was still queued in the TX FIFO
    /// is discarded, never sent.  The hardware may raise interrupt flags of
    /// its own on a forced stop, so the flag register is left open.
    fn assert_stop(&mut self)
        ensures
            final (self).model() == (BusModel {
                stop_req: true,
                tx_fifo: Seq::<u8>::empty(),
                int_fl0: final (self).model().int_fl0,
                ..old(self).model()
            }),
    ;

    /// Program the clock high- and low-period divisor registers.
    fn set_clk_div(&mut self, hi: u32, lo: u32)
        ensures
            final (self).model() == (BusModel { clk_hi: hi, clk_lo: lo, ..old(self).model() }),
    ;

    /// Set the controller-enable and master-mode control bits.
    fn set_enable_master(&mut self)
        ensures
            final (self).model() == (BusModel { enabled: true, master: true, ..old(self).model() }),
    ;

    /// Set the master-mode control bit alone.
    fn set_master(&mut self)
        ensures
            final (self).model() == (BusModel { master: true, ..old(self).model() }),
    ;

    /// Program the RX interrupt threshold register.
    fn set_rx_thresh(&mut self, threshold: u8)
        ensures
            final (self).model() == (BusModel { rx_thresh: threshold, ..old(self).model() }),
    ;

    /// Program interrupt enable register 0.
    fn set_int_en0(&mut self, mask: u16)
        ensures
            final (self).model() == (BusModel { int_en0: mask, ..old(self).model() }),
    ;

    /// Program interrupt enable register 1.
    fn set_int_en1(&mut self, mask: u16)
        ensures
            final (self).model() == (BusModel { int_en1: mask, ..old(self).model() }),
    ;

    /// Read interrupt flag register 0.
    fn read_int_fl0(&self) -> (flags: u16)
        ensures
            flags == self.model().int_fl0,
    ;

    /// Clear the given flags in interrupt flag register 0 (write one to
    /// clear).
    fn clear_int_fl0(&mut self, mask: u16)
        ensures
            final (self).model() == (BusModel {
                int_fl0: (old(self).model().int_fl0 & !mask) as u16,
                ..old(self).model()
            }),
    ;
}

} // verus!
