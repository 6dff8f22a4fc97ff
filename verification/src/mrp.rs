//! Message reliability: the window that recognises message counters seen
//! before, and the acknowledgements that each exchange owes and awaits.

use vstd::prelude::*;
use crate::error::ErrorCode;
use crate::packet::Header;

verus! {

/// Number of message counters below the newest one that the window tells
/// apart. A counter further back counts as seen.
pub const MSG_RX_STATE_BITMAP_LEN: u32 = 32;

/// Time, in milliseconds, after which an acknowledgement that no outgoing
/// message has carried is sent on its own.
pub const MRP_STANDALONE_ACK_TIMEOUT_MS: u64 = 100;

/// Whether bit `index` of `bitmap` is set.
pub open spec fn bit_set(bitmap: u32, index: u32) -> bool {
    bitmap & (1u32 << index) != 0
}

/// The message counters that a session has received: the newest one, and one
/// bit for each of the 32 counters below it (bit `i` stands for the counter
/// `max_ctr - 1 - i`).
#[derive(Clone, Copy, Debug, PartialEq, Eq)]
pub struct RxCtrState {
    pub started: bool,
    pub max_ctr: u32,
    pub bitmap: u32,
}

impl RxCtrState {
    /// Whether `ctr` counts as received: it is the newest counter, one of the
    /// 32 below it whose bit is set, or lies further back than those.
    pub open spec fn seen(self, ctr: u32) -> bool {
        self.started && (ctr == self.max_ctr || (ctr < self.max_ctr && (self.max_ctr - ctr
            > MSG_RX_STATE_BITMAP_LEN || bit_set(self.bitmap, (self.max_ctr - ctr - 1) as u32))))
    }

    /// The window moved up to the newer counter `ctr`.
    pub open spec fn advanced(self, ctr: u32) -> RxCtrState {
        let shift = (ctr - self.max_ctr) as u32;
        RxCtrState {
            started: true,
            max_ctr: ctr,
            bitmap: if shift > MSG_RX_STATE_BITMAP_LEN {
                0u32
            } else if shift == MSG_RX_STATE_BITMAP_LEN {
                1u32 << 31u32
            } else {
                (self.bitmap << shift) | (1u32 << ((shift - 1) as u32))
            },
        }
    }

    /// The state after `ctr` arrived.
    pub open spec fn received(self, ctr: u32) -> RxCtrState {
        if !self.started {
            RxCtrState { started: true, max_ctr: ctr, bitmap: 0 }
        } else if self.seen(ctr) {
            self
        } else if ctr < self.max_ctr {
            RxCtrState { bitmap: self.bitmap | (1u32 << ((self.max_ctr - ctr - 1) as u32)), ..self }
        } else {
            self.advanced(ctr)
        }
    }

    /// The state of a session on which nothing has arrived.
    pub fn new() -> (state: RxCtrState)
        ensures
            state == (RxCtrState { started: false, max_ctr: 0, bitmap: 0 }),
            forall|ctr: u32| !state.seen(ctr),
    {
        RxCtrState { started: false, max_ctr: 0, bitmap: 0 }
    }

    /// A counter that arrived counts as seen from then on, and so does every
    /// counter that counted as seen before.
    pub proof fn lemma_received_keeps(self, ctr: u32, earlier: u32)
        ensures
            self.received(ctr).seen(ctr),
            self.seen(earlier) ==> self.received(ctr).seen(earlier),
    {
        let after = self.received(ctr);
        if !self.started {
        } else if self.seen(ctr) {
        } else if ctr < self.max_ctr {
            let k = (self.max_ctr - ctr - 1) as u32;
            let b = self.bitmap;
            assert((b | (1u32 << k)) & (1u32 << k) != 0) by (bit_vector)
                requires
                    k < 32,
            ;
            if self.seen(earlier) && earlier < self.max_ctr && self.max_ctr - earlier <= 32 {
                let j = (self.max_ctr - earlier - 1) as u32;
                assert((b | (1u32 << k)) & (1u32 << j) != 0) by (bit_vector)
                    requires
                        b & (1u32 << j) != 0,
                ;
            }
        } else {
            let s = (ctr - self.max_ctr) as u32;
            let b = self.bitmap;
            if s < 32 {
                let t = (s - 1) as u32;
                assert(((b << s) | (1u32 << t)) & (1u32 << t) != 0) by (bit_vector)
                    requires
                        t < 32,
                ;
                if self.seen(earlier) && earlier < self.max_ctr && self.max_ctr - earlier <= 32 {
                    let j = (self.max_ctr - earlier - 1) as u32;
                    if s + j < 32 {
                        let n = (s + j) as u32;
                        assert(((b << s) | (1u32 << t)) & (1u32 << n) != 0) by (bit_vector)
                            requires
                                b & (1u32 << j) != 0,
                                n == s + j,
                                n < 32,
                        ;
                        assert(after.max_ctr - earlier - 1 == n);
                    }
                }
            } else if s == 32 {
                assert((1u32 << 31u32) & (1u32 << 31u32) != 0) by (bit_vector);
            }
        }
    }

    /// Takes in the message counter `ctr` and says whether it is a duplicate,
    /// that is, whether it counted as seen already.
    pub fn recv(&mut self, ctr: u32) -> (duplicate: bool)
        ensures
            duplicate == old(self).seen(ctr),
            *final(self) == old(self).received(ctr),
            final(self).seen(ctr),
            forall|earlier: u32| old(self).seen(earlier) ==> final(self).seen(earlier),
    {
        proof {
            let before = *self;
            assert forall|earlier: u32| before.seen(earlier) implies before.received(ctr).seen(earlier) by {
                before.lemma_received_keeps(ctr, earlier);
            }
            before.lemma_received_keeps(ctr, ctr);
        }
        if !self.started {
            self.started = true;
            self.max_ctr = ctr;
            self.bitmap = 0;
            false
        } else if ctr == self.max_ctr {
            true
        } else if ctr < self.max_ctr {
            let back: u32 = self.max_ctr - ctr;
            if back > MSG_RX_STATE_BITMAP_LEN {
                true
            } else {
                let mask: u32 = 1u32 << (back - 1);
                if self.bitmap & mask != 0 {
                    true
                } else {
                    self.bitmap = self.bitmap | mask;
                    false
                }
            }
        } else {
            let shift: u32 = ctr - self.max_ctr;
            if shift > MSG_RX_STATE_BITMAP_LEN {
                self.bitmap = 0;
            } else if shift == MSG_RX_STATE_BITMAP_LEN {
                self.bitmap = 1u32 << 31u32;
            } else {
                self.bitmap = (self.bitmap << shift) | (1u32 << (shift - 1));
            }
            self.max_ctr = ctr;
            false
        }
    }
}

/// An acknowledgement that the node owes its peer.
#[derive(Clone, Copy, Debug, PartialEq, Eq)]
pub struct AckEntry {
    /// The message counter to acknowledge.
    pub msg_ctr: u32,
    /// The time, in milliseconds, from which on the acknowledgement is overdue.
    pub ack_timeout: u64,
}

/// The reliability state of one exchange: the message of ours that awaits an
/// acknowledgement, and the acknowledgement that we owe.
#[derive(Clone, Copy, Debug, PartialEq, Eq)]
pub struct ReliableMessage {
    /// Counter of the message that we sent reliably and that is not
    /// acknowledged yet.
    pub retrans: Option<u32>,
    /// The acknowledgement that we owe.
    pub ack: Option<AckEntry>,
}

impl ReliableMessage {
    /// The state of a fresh exchange.
    pub open spec fn spec_new() -> ReliableMessage {
        ReliableMessage { retrans: None, ack: None }
    }

    /// The state of a fresh exchange: nothing awaited, nothing owed.
    #[verifier::when_used_as_spec(spec_new)]
    pub fn new() -> (mrp: ReliableMessage)
        ensures
            mrp == ReliableMessage::spec_new(),
    {
        ReliableMessage { retrans: None, ack: None }
    }

    /// Whether nothing is awaited and nothing is owed.
    pub open spec fn spec_is_empty(&self) -> bool {
        self.retrans is None && self.ack is None
    }

    /// Whether nothing is awaited and nothing is owed.
    #[verifier::when_used_as_spec(spec_is_empty)]
    pub fn is_empty(&self) -> (empty: bool)
        ensures
            empty == self.spec_is_empty(),
    {
        self.retrans.is_none() && self.ack.is_none()
    }

    /// Whether an acknowledgement is owed and overdue at time `now`.
    pub open spec fn spec_is_ack_ready(&self, now: u64) -> bool {
        self.ack is Some && self.ack->0.ack_timeout <= now
    }

    /// Whether an acknowledgement is owed and overdue at time `now`.
    #[verifier::when_used_as_spec(spec_is_ack_ready)]
    pub fn is_ack_ready(&self, now: u64) -> (ready: bool)
        ensures
            ready == self.spec_is_ack_ready(now),
    {
        match self.ack {
            Some(entry) => entry.ack_timeout <= now,
            None => false,
        }
    }

    /// The state after the packet `rx` arrived at time `now`, and whether the
    /// packet was accepted. An acknowledgement in `rx` settles the message
    /// that we await. A reliable `rx` is noted for acknowledgement, due
    /// [`MRP_STANDALONE_ACK_TIMEOUT_MS`] later; it is refused as `Invalid`
    /// where an acknowledgement is owed already or that time cannot be told.
    pub open spec fn received(self, rx: Header, now: u64) -> (ReliableMessage, Result<(), ErrorCode>) {
        let settled = if rx.ack_ctr is Some {
            ReliableMessage { retrans: None, ..self }
        } else {
            self
        };
        if !rx.reliable {
            (settled, Ok(()))
        } else if settled.ack is Some || now + MRP_STANDALONE_ACK_TIMEOUT_MS > u64::MAX {
            (settled, Err(ErrorCode::Invalid))
        } else {
            (
                ReliableMessage {
                    ack: Some(
                        AckEntry {
                            msg_ctr: rx.ctr,
                            ack_timeout: (now + MRP_STANDALONE_ACK_TIMEOUT_MS) as u64,
                        },
                    ),
                    ..settled
                },
                Ok(()),
            )
        }
    }

    /// Takes in the packet `rx` that arrived at time `now`.
    pub fn recv(&mut self, rx: &Header, now: u64) -> (res: Result<(), ErrorCode>)
        ensures
            (*final(self), res) == old(self).received(*rx, now),
    {
        if rx.ack_ctr.is_some() {
            self.retrans = None;
        }
        if rx.reliable {
            if self.ack.is_some() {
                return Err(ErrorCode::Invalid);
            }
            match now.checked_add(MRP_STANDALONE_ACK_TIMEOUT_MS) {
                Some(ack_timeout) => {
                    self.ack = Some(AckEntry { msg_ctr: rx.ctr, ack_timeout });
                },
                None => {
                    return Err(ErrorCode::Invalid);
                },
            }
        }
        Ok(())
    }

    /// The state and the header after the outgoing packet `tx` was prepared,
    /// and whether it may go out. An acknowledgement that is owed rides on
    /// `tx` and is owed no longer. A reliable `tx` is noted as awaiting its
    /// acknowledgement; it is refused as `Invalid` where another message
    /// still awaits one.
    pub open spec fn sent(self, tx: Header) -> (ReliableMessage, Header, Result<(), ErrorCode>) {
        let hdr = if self.ack is Some {
            Header { ack_ctr: Some(self.ack->0.msg_ctr), ..tx }
        } else {
            tx
        };
        let cleared = ReliableMessage { ack: None, ..self };
        if !tx.reliable {
            (cleared, hdr, Ok(()))
        } else if self.retrans is Some {
            (cleared, hdr, Err(ErrorCode::Invalid))
        } else {
            (ReliableMessage { retrans: Some(tx.ctr), ..cleared }, hdr, Ok(()))
        }
    }

    /// Prepares the outgoing packet header `tx`.
    pub fn pre_send(&mut self, tx: &mut Header) -> (res: Result<(), ErrorCode>)
        ensures
            (*final(self), *final(tx), res) == old(self).sent(*old(tx)),
    {
        match self.ack {
            Some(entry) => {
                tx.ack_ctr = Some(entry.msg_ctr);
                self.ack = None;
            },
            None => {},
        }
        if !tx.reliable {
            return Ok(());
        }
        if self.retrans.is_some() {
            return Err(ErrorCode::Invalid);
        }
        self.retrans = Some(tx.ctr);
        Ok(())
    }
}

} // verus!

