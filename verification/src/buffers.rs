//! The pool of packet buffers that the exchange handlers and the receive
//! multiplexer share.
//!
//! Buffers are held by index. Handler `i` works on slot `i` of each pool; the
//! last status slot belongs to the receive multiplexer, which writes its own
//! replies there.

use vstd::prelude::*;
use crate::error::ErrorCode;
use crate::packet::{
    Packet, PacketView, MAX_EXCHANGES, MAX_RX_BUF_SIZE, MAX_RX_STATUS_BUF_SIZE, MAX_TX_BUF_SIZE,
};

verus! {

/// A row of packet slots whose payloads are bounded by one block size.
pub struct Pool {
    slots: Vec<Packet>,
    block: usize,
}

impl View for Pool {
    type V = Seq<PacketView>;

    closed spec fn view(&self) -> Seq<PacketView> {
        Seq::new(self.slots@.len(), |i: int| self.slots@[i]@)
    }
}

impl Pool {
    /// Largest payload that a slot of this pool holds.
    pub closed spec fn block(&self) -> nat {
        self.block as nat
    }

    /// Every payload fits its block.
    pub open spec fn wf(&self) -> bool {
        forall|i: int| 0 <= i < self@.len() ==> (#[trigger] self@[i]).payload.len() <= self.block()
    }

    /// A pool of `count` empty slots with blocks of `block` bytes.
    pub fn new(count: usize, block: usize) -> (pool: Pool)
        ensures
            pool.wf(),
            pool.block() == block,
            pool@ == Seq::new(count as nat, |i: int| PacketView::empty()),
    {
        let mut slots: Vec<Packet> = Vec::new();
        let mut i: usize = 0;
        while i < count
            invariant
                i <= count,
                slots@.len() == i,
                forall|k: int| 0 <= k < i ==> (#[trigger] slots@[k])@ == PacketView::empty(),
            decreases count - i,
        {
            slots.push(Packet::new());
            i += 1;
        }
        let pool = Pool { slots, block };
        assert(pool@ =~= Seq::new(count as nat, |i: int| PacketView::empty()));
        pool
    }

    /// Number of slots.
    pub fn len(&self) -> (n: usize)
        ensures
            n == self@.len(),
    {
        self.slots.len()
    }

    /// The packet in slot `index`, if the pool has such a slot.
    pub fn get(&self, index: usize) -> (packet: Option<&Packet>)
        ensures
            index < self@.len() ==> packet is Some && packet->0@ == self@[index as int],
            index >= self@.len() ==> packet is None,
    {
        if index < self.slots.len() {
            Some(&self.slots[index])
        } else {
            None
        }
    }

    /// Copies `src` into slot `index`. Fails with `NoSpace`, and changes
    /// nothing, if the pool has no such slot or the payload is larger than a
    /// block.
    pub fn store(&mut self, index: usize, src: &Packet) -> (res: Result<(), ErrorCode>)
        requires
            old(self).wf(),
        ensures
            final(self).wf(),
            final(self).block() == old(self).block(),
            index < old(self)@.len() && src@.payload.len() <= old(self).block() ==> res is Ok
                && final(self)@ == old(self)@.update(index as int, src@),
            !(index < old(self)@.len() && src@.payload.len() <= old(self).block()) ==> res == Err::<(), ErrorCode>(ErrorCode::NoSpace)
                && final(self)@ == old(self)@,
    {
        if index >= self.slots.len() || src.payload.len() > self.block {
            return Err(ErrorCode::NoSpace);
        }
        let mut packet = Packet::new();
        packet.load(src);
        let ghost before = self@;
        self.slots[index] = packet;
        assert(self@ =~= before.update(index as int, src@));
        Ok(())
    }
}

/// The buffers of a node: one transmit and one receive buffer for each
/// exchange handler, and one status buffer for each handler and for the
/// receive multiplexer.
pub struct PacketBuffers {
    tx: Pool,
    rx: Pool,
    sx: Pool,
}

/// The mathematical value of [`PacketBuffers`]: what each slot holds.
pub struct PacketBuffersView {
    pub tx: Seq<PacketView>,
    pub rx: Seq<PacketView>,
    pub sx: Seq<PacketView>,
}

impl PacketBuffersView {
    /// The pools have their sizes, and every payload fits its buffer.
    pub open spec fn wf(self) -> bool {
        &&& self.tx.len() == MAX_EXCHANGES
        &&& self.rx.len() == MAX_EXCHANGES
        &&& self.sx.len() == MAX_EXCHANGES + 1
        &&& forall|i: int| 0 <= i < self.tx.len() ==> (#[trigger] self.tx[i]).payload.len() <= MAX_TX_BUF_SIZE
        &&& forall|i: int| 0 <= i < self.rx.len() ==> (#[trigger] self.rx[i]).payload.len() <= MAX_RX_BUF_SIZE
        &&& forall|i: int|
            0 <= i < self.sx.len() ==> (#[trigger] self.sx[i]).payload.len() <= MAX_RX_STATUS_BUF_SIZE
    }

    /// Buffers in which nothing was written yet.
    pub open spec fn empty() -> PacketBuffersView {
        PacketBuffersView {
            tx: Seq::new(MAX_EXCHANGES as nat, |i: int| PacketView::empty()),
            rx: Seq::new(MAX_EXCHANGES as nat, |i: int| PacketView::empty()),
            sx: Seq::new((MAX_EXCHANGES + 1) as nat, |i: int| PacketView::empty()),
        }
    }
}

impl View for PacketBuffers {
    type V = PacketBuffersView;

    closed spec fn view(&self) -> PacketBuffersView {
        PacketBuffersView { tx: self.tx@, rx: self.rx@, sx: self.sx@ }
    }
}

impl PacketBuffers {
    /// What holds of every value that this module hands out.
    pub closed spec fn wf(&self) -> bool {
        &&& self@.wf()
        &&& self.tx.wf()
        &&& self.rx.wf()
        &&& self.sx.wf()
        &&& self.tx.block() == MAX_TX_BUF_SIZE
        &&& self.rx.block() == MAX_RX_BUF_SIZE
        &&& self.sx.block() == MAX_RX_STATUS_BUF_SIZE
    }

    /// A valid pool has a valid value.
    pub proof fn lemma_wf_view(&self)
        requires
            self.wf(),
        ensures
            self@.wf(),
    {
    }

    /// Buffers in which nothing was written yet.
    pub fn new() -> (buffers: PacketBuffers)
        ensures
            buffers.wf(),
            buffers@ == PacketBuffersView::empty(),
    {
        PacketBuffers {
            tx: Pool::new(MAX_EXCHANGES, MAX_TX_BUF_SIZE),
            rx: Pool::new(MAX_EXCHANGES, MAX_RX_BUF_SIZE),
            sx: Pool::new(MAX_EXCHANGES + 1, MAX_RX_STATUS_BUF_SIZE),
        }
    }

    /// The packet in transmit slot `index`, if there is such a slot.
    pub fn tx(&self, index: usize) -> (packet: Option<&Packet>)
        ensures
            index < self@.tx.len() ==> packet is Some && packet->0@ == self@.tx[index as int],
            index >= self@.tx.len() ==> packet is None,
    {
        self.tx.get(index)
    }

    /// The packet in receive slot `index`, if there is such a slot.
    pub fn rx(&self, index: usize) -> (packet: Option<&Packet>)
        ensures
            index < self@.rx.len() ==> packet is Some && packet->0@ == self@.rx[index as int],
            index >= self@.rx.len() ==> packet is None,
    {
        self.rx.get(index)
    }

    /// The packet in status slot `index`, if there is such a slot.
    pub fn sx(&self, index: usize) -> (packet: Option<&Packet>)
        ensures
            index < self@.sx.len() ==> packet is Some && packet->0@ == self@.sx[index as int],
            index >= self@.sx.len() ==> packet is None,
    {
        self.sx.get(index)
    }

    /// Whether `src` can be stored in transmit slot `index`.
    pub open spec fn fits_tx(index: usize, src: PacketView) -> bool {
        index < MAX_EXCHANGES && src.payload.len() <= MAX_TX_BUF_SIZE
    }

    /// Whether `src` can be stored in receive slot `index`.
    pub open spec fn fits_rx(index: usize, src: PacketView) -> bool {
        index < MAX_EXCHANGES && src.payload.len() <= MAX_RX_BUF_SIZE
    }

    /// Whether `src` can be stored in status slot `index`.
    pub open spec fn fits_sx(index: usize, src: PacketView) -> bool {
        index <= MAX_EXCHANGES && src.payload.len() <= MAX_RX_STATUS_BUF_SIZE
    }

    /// Copies `src` into transmit slot `index`. Fails with `NoSpace`, and
    /// changes nothing, if it does not fit.
    pub fn store_tx(&mut self, index: usize, src: &Packet) -> (res: Result<(), ErrorCode>)
        requires
            old(self).wf(),
        ensures
            final(self).wf(),
            Self::fits_tx(index, src@) ==> res is Ok && final(self)@ == (PacketBuffersView {
                tx: old(self)@.tx.update(index as int, src@),
                ..old(self)@
            }),
            !Self::fits_tx(index, src@) ==> res == Err::<(), ErrorCode>(ErrorCode::NoSpace)
                && final(self)@ == old(self)@,
    {
        self.tx.store(index, src)
    }

    /// Copies `src` into receive slot `index`. Fails with `NoSpace`, and
    /// changes nothing, if it does not fit.
    pub fn store_rx(&mut self, index: usize, src: &Packet) -> (res: Result<(), ErrorCode>)
        requires
            old(self).wf(),
        ensures
            final(self).wf(),
            Self::fits_rx(index, src@) ==> res is Ok && final(self)@ == (PacketBuffersView {
                rx: old(self)@.rx.update(index as int, src@),
                ..old(self)@
            }),
            !Self::fits_rx(index, src@) ==> res == Err::<(), ErrorCode>(ErrorCode::NoSpace)
                && final(self)@ == old(self)@,
    {
        self.rx.store(index, src)
    }

    /// Copies `src` into status slot `index`. Fails with `NoSpace`, and
    /// changes nothing, if it does not fit.
    pub fn store_sx(&mut self, index: usize, src: &Packet) -> (res: Result<(), ErrorCode>)
        requires
            old(self).wf(),
        ensures
            final(self).wf(),
            Self::fits_sx(index, src@) ==> res is Ok && final(self)@ == (PacketBuffersView {
                sx: old(self)@.sx.update(index as int, src@),
                ..old(self)@
            }),
            !Self::fits_sx(index, src@) ==> res == Err::<(), ErrorCode>(ErrorCode::NoSpace)
                && final(self)@ == old(self)@,
    {
        self.sx.store(index, src)
    }
}

} // verus!
