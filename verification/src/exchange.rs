//! Exchanges: what identifies one, the states it goes through, and the
//! context that the transport keeps of it.

use vstd::prelude::*;
use crate::mrp::ReliableMessage;
use crate::packet::{Header, PacketView, MAX_EXCHANGES, OPCODE_MRP_STANDALONE_ACK, PROTO_ID_SECURE_CHANNEL};
use crate::session::SessionId;

verus! {

/// What identifies an exchange: its session, its number, and whether this
/// node opened it. The last part keeps exchanges that the node opened apart
/// from those that the peer opened under the same number.
#[derive(Clone, Copy, Debug, PartialEq, Eq)]
pub struct ExchangeId {
    pub session_id: SessionId,
    pub id: u16,
    pub is_initiator: bool,
}

impl ExchangeId {
    /// The exchange that the inbound packet `rx` belongs to.
    pub open spec fn spec_load(rx: Header) -> ExchangeId {
        ExchangeId { session_id: SessionId::spec_load(rx), id: rx.exch_id, is_initiator: !rx.initiator }
    }

    /// The exchange that the inbound packet `rx` belongs to.
    pub fn load(rx: &Header) -> (id: ExchangeId)
        ensures
            id == ExchangeId::spec_load(*rx),
    {
        ExchangeId { session_id: SessionId::load(rx), id: rx.exch_id, is_initiator: !rx.initiator }
    }

    /// Whether the two ids are equal.
    pub fn same(&self, other: &ExchangeId) -> (equal: bool)
        ensures
            equal == (*self == *other),
    {
        self.id == other.id && self.is_initiator == other.is_initiator
            && self.session_id.same(&other.session_id)
    }
}

/// The part that this node plays in an exchange.
#[derive(Clone, Copy, Debug, PartialEq, Eq, Structural)]
pub enum Role {
    Initiator,
    Responder,
}

impl Role {
    /// The role of this node, given whether the peer is the initiator.
    pub open spec fn spec_complementary(is_initiator: bool) -> Role {
        if is_initiator {
            Role::Responder
        } else {
            Role::Initiator
        }
    }

    /// The role of this node, given whether the peer is the initiator.
    #[verifier::when_used_as_spec(spec_complementary)]
    pub fn complementary(is_initiator: bool) -> (role: Role)
        ensures
            role == Role::spec_complementary(is_initiator),
    {
        if is_initiator {
            Role::Responder
        } else {
            Role::Initiator
        }
    }
}

/// Where an exchange stands. Buffers are named by their slot in the buffer
/// pool, the notification of the waiting handler by its index.
#[derive(Clone, Copy, Debug, PartialEq, Eq)]
pub enum ExchangeState {
    /// A handler owns the exchange; nothing is pending.
    Active,
    /// The exchange is new; its handler waits for the first payload.
    Construction { rx_slot: usize, notify: usize },
    /// The handler has sent and waits for an acknowledgement, a reply, or
    /// both.
    ExchangeRecv { tx_slot: usize, tx_acknowledged: bool, rx_slot: usize, notify: usize },
    /// The handler has queued a packet that waits to go out.
    ExchangeSend { tx_slot: usize, rx_slot: usize, notify: usize },
    /// The peer is owed a standalone acknowledgement.
    Acknowledge { notify: usize },
    /// The last packet of the exchange waits to go out.
    Complete { tx_slot: usize, notify: usize },
    /// The last packet went out reliably and awaits its acknowledgement.
    CompleteAcknowledge { tx_slot: usize, notify: usize },
    /// The exchange is over and will be purged.
    Closed,
}

impl ExchangeState {
    /// The handler slot whose notification the state names, if it names one.
    pub open spec fn spec_slot(&self) -> Option<usize> {
        match *self {
            ExchangeState::Active => None,
            ExchangeState::Construction { notify, .. } => Some(notify),
            ExchangeState::ExchangeRecv { notify, .. } => Some(notify),
            ExchangeState::ExchangeSend { notify, .. } => Some(notify),
            ExchangeState::Acknowledge { notify } => Some(notify),
            ExchangeState::Complete { notify, .. } => Some(notify),
            ExchangeState::CompleteAcknowledge { notify, .. } => Some(notify),
            ExchangeState::Closed => None,
        }
    }

    /// The handler slot whose notification the state names, if it names one.
    #[verifier::when_used_as_spec(spec_slot)]
    pub fn slot(&self) -> (slot: Option<usize>)
        ensures
            slot == self.spec_slot(),
    {
        match *self {
            ExchangeState::Active => None,
            ExchangeState::Construction { notify, .. } => Some(notify),
            ExchangeState::ExchangeRecv { notify, .. } => Some(notify),
            ExchangeState::ExchangeSend { notify, .. } => Some(notify),
            ExchangeState::Acknowledge { notify } => Some(notify),
            ExchangeState::Complete { notify, .. } => Some(notify),
            ExchangeState::CompleteAcknowledge { notify, .. } => Some(notify),
            ExchangeState::Closed => None,
        }
    }

    /// Whether the buffers and the notification that the state names all
    /// belong to one slot.
    pub open spec fn coherent(self) -> bool {
        match self {
            ExchangeState::Active => true,
            ExchangeState::Construction { rx_slot, notify } => rx_slot == notify,
            ExchangeState::ExchangeRecv { tx_slot, rx_slot, notify, .. } => tx_slot == notify && rx_slot == notify,
            ExchangeState::ExchangeSend { tx_slot, rx_slot, notify } => tx_slot == notify && rx_slot == notify,
            ExchangeState::Acknowledge { .. } => true,
            ExchangeState::Complete { tx_slot, notify } => tx_slot == notify,
            ExchangeState::CompleteAcknowledge { tx_slot, notify } => tx_slot == notify,
            ExchangeState::Closed => true,
        }
    }

    /// Whether the state names a slot that it may name: every buffer and the
    /// notification belong to one slot, which is that of a handler for an
    /// exchange of the table, and that of the receive multiplexer, the last
    /// one, for the ephemeral exchange.
    pub open spec fn wf(self, ephemeral: bool) -> bool {
        self.coherent() && match self.spec_slot() {
            Some(slot) => if ephemeral {
                slot == MAX_EXCHANGES
            } else {
                slot < MAX_EXCHANGES
            },
            None => true,
        }
    }

    /// Whether the state is `Closed`.
    pub fn is_closed(&self) -> (closed: bool)
        ensures
            closed == (*self is Closed),
    {
        match self {
            ExchangeState::Closed => true,
            _ => false,
        }
    }

    /// Whether the state is `Active`.
    pub fn is_active(&self) -> (active: bool)
        ensures
            active == (*self is Active),
    {
        match self {
            ExchangeState::Active => true,
            _ => false,
        }
    }
}

/// What the transport keeps of one exchange.
#[derive(Clone, Copy, Debug, PartialEq, Eq)]
pub struct ExchangeCtx {
    pub id: ExchangeId,
    pub role: Role,
    pub mrp: ReliableMessage,
    pub state: ExchangeState,
}

/// The property of being the exchange with the id `id`.
pub open spec fn exchange_is(id: ExchangeId) -> spec_fn(ExchangeCtx) -> bool {
    |ctx: ExchangeCtx| ctx.id == id
}

/// The property of naming the handler slot `slot`.
pub open spec fn names_slot(slot: usize) -> spec_fn(ExchangeCtx) -> bool {
    |ctx: ExchangeCtx| ctx.state.spec_slot() == Some(slot)
}

/// The property of being closed.
pub open spec fn is_closed() -> spec_fn(ExchangeCtx) -> bool {
    |ctx: ExchangeCtx| ctx.state is Closed
}

/// The property of having something to send at time `now`.
pub open spec fn needs_send(now: u64) -> spec_fn(ExchangeCtx) -> bool {
    |ctx: ExchangeCtx| ctx.spec_needs_send(now)
}

impl ExchangeCtx {
    /// A fresh, active exchange.
    pub open spec fn spec_new(id: ExchangeId, role: Role) -> ExchangeCtx {
        ExchangeCtx { id, role, mrp: ReliableMessage::spec_new(), state: ExchangeState::Active }
    }

    /// A fresh, active exchange.
    #[verifier::when_used_as_spec(spec_new)]
    pub fn new(id: ExchangeId, role: Role) -> (ctx: ExchangeCtx)
        ensures
            ctx == ExchangeCtx::spec_new(id, role),
    {
        ExchangeCtx { id, role, mrp: ReliableMessage::new(), state: ExchangeState::Active }
    }

    /// Whether the exchange has something to send at time `now`: a queued
    /// packet, an acknowledgement that its handler asked for, or one that is
    /// overdue.
    pub open spec fn spec_needs_send(&self, now: u64) -> bool {
        self.state is Acknowledge || self.state is ExchangeSend || self.state is Complete
            || self.mrp.spec_is_ack_ready(now)
    }

    /// Whether the exchange has something to send at time `now`.
    #[verifier::when_used_as_spec(spec_needs_send)]
    pub fn needs_send(&self, now: u64) -> (needs: bool)
        ensures
            needs == self.spec_needs_send(now),
    {
        match self.state {
            ExchangeState::Acknowledge { .. } => true,
            ExchangeState::ExchangeSend { .. } => true,
            ExchangeState::Complete { .. } => true,
            _ => self.mrp.is_ack_ready(now),
        }
    }

    /// Header of the standalone acknowledgement of this exchange: addressed
    /// to the peer of its session, on its exchange number, carrying the
    /// message counter that is owed an acknowledgement, if any.
    pub open spec fn ack_header(&self) -> Header {
        Header {
            peer: self.id.session_id.peer_addr,
            sess_id: self.id.session_id.id,
            ctr: 0,
            src_nodeid: None,
            encrypted: self.id.session_id.is_encrypted,
            exch_id: self.id.id,
            proto_id: PROTO_ID_SECURE_CHANNEL,
            opcode: OPCODE_MRP_STANDALONE_ACK,
            initiator: self.role is Initiator,
            reliable: false,
            ack_ctr: match self.mrp.ack {
                Some(entry) => Some(entry.msg_ctr),
                None => None,
            },
        }
    }

    /// Header of the standalone acknowledgement of this exchange.
    pub fn make_ack_header(&self) -> (hdr: Header)
        ensures
            hdr == self.ack_header(),
    {
        Header {
            peer: self.id.session_id.peer_addr,
            sess_id: self.id.session_id.id,
            ctr: 0,
            src_nodeid: None,
            encrypted: self.id.session_id.is_encrypted,
            exch_id: self.id.id,
            proto_id: PROTO_ID_SECURE_CHANNEL,
            opcode: OPCODE_MRP_STANDALONE_ACK,
            initiator: match self.role {
                Role::Initiator => true,
                Role::Responder => false,
            },
            reliable: false,
            ack_ctr: match self.mrp.ack {
                Some(entry) => Some(entry.msg_ctr),
                None => None,
            },
        }
    }

    /// The standalone acknowledgement of this exchange.
    pub open spec fn ack_packet(&self) -> PacketView {
        PacketView { hdr: self.ack_header(), payload: Seq::empty() }
    }

    /// Header of a reply that this exchange addresses to its peer, with
    /// nothing said yet of protocol, opcode or acknowledgement.
    pub open spec fn reply_header(&self) -> Header {
        Header {
            peer: self.id.session_id.peer_addr,
            sess_id: self.id.session_id.id,
            ctr: 0,
            src_nodeid: None,
            encrypted: self.id.session_id.is_encrypted,
            exch_id: self.id.id,
            proto_id: 0,
            opcode: 0,
            initiator: self.role is Initiator,
            reliable: false,
            ack_ctr: None,
        }
    }

    /// Header of a reply that this exchange addresses to its peer.
    pub fn make_reply_header(&self) -> (hdr: Header)
        ensures
            hdr == self.reply_header(),
    {
        Header {
            peer: self.id.session_id.peer_addr,
            sess_id: self.id.session_id.id,
            ctr: 0,
            src_nodeid: None,
            encrypted: self.id.session_id.is_encrypted,
            exch_id: self.id.id,
            proto_id: 0,
            opcode: 0,
            initiator: match self.role {
                Role::Initiator => true,
                Role::Responder => false,
            },
            reliable: false,
            ack_ctr: None,
        }
    }
}

} // verus!
