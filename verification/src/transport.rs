//! The executable transport: the state of a node and the steps that the
//! receive multiplexer, the transmit pump and the exchange handlers take on
//! it. Every step is proved to do what the state machine of
//! [`crate::model`] says.

use vstd::prelude::*;
use crate::buffers::{PacketBuffers, PacketBuffersView};
use crate::error::ErrorCode;
use crate::exchange::{
    exchange_is, is_closed, names_slot, needs_send, ExchangeCtx, ExchangeId, ExchangeState, Role,
};
use crate::model::{
    is_index_result, is_pulled, lemma_purged_wf, purged, registered, sent_one, MatterView, RxOutcome,
};
use crate::packet::{
    create_status_report, Header, Packet, PacketView, GENERAL_CODE_BUSY, GENERAL_CODE_SUCCESS, IM_STATUS_BUSY,
    MAX_EXCHANGES, MAX_TX_BUF_SIZE, OPCODE_STATUS_REPORT, PROTO_ID_SECURE_CHANNEL, SC_STATUS_BUSY,
    SC_STATUS_CLOSE_SESSION,
};
use crate::search::{first, first_from};
use crate::session::SessionMgr;
use crate::table::{
    exchange_slots, table_as_slice, table_clear, table_new, table_push, table_set, table_swap_remove,
};

verus! {

/// Time, in milliseconds, that the transmit pump waits at most before it
/// looks again for acknowledgements that are overdue.
pub const TX_TICK_MS: u64 = 100;

/// Index of the exchange with the id `id` in `slice`, if there is one.
pub fn find_exchange(slice: &[ExchangeCtx], id: &ExchangeId) -> (found: Option<usize>)
    ensures
        found is Some <==> first(slice@, exchange_is(*id)) is Some,
        found matches Some(i) ==> first(slice@, exchange_is(*id)) == Some(i as int) && i < slice@.len(),
{
    let mut i: usize = 0;
    while i < slice.len()
        invariant
            i <= slice@.len(),
            first(slice@, exchange_is(*id)) == first_from(slice@, exchange_is(*id), i as int),
        decreases slice@.len() - i,
    {
        if slice[i].id.same(id) {
            return Some(i);
        }
        i += 1;
    }
    None
}

/// Index of the first exchange in `slice` that names the handler slot
/// `slot`, if there is one.
pub fn find_slot(slice: &[ExchangeCtx], slot: usize) -> (found: Option<usize>)
    ensures
        found is Some <==> first(slice@, names_slot(slot)) is Some,
        found matches Some(i) ==> first(slice@, names_slot(slot)) == Some(i as int) && i < slice@.len(),
{
    let mut i: usize = 0;
    while i < slice.len()
        invariant
            i <= slice@.len(),
            first(slice@, names_slot(slot)) == first_from(slice@, names_slot(slot), i as int),
        decreases slice@.len() - i,
    {
        let named = match slice[i].state.slot() {
            Some(other) => other == slot,
            None => false,
        };
        if named {
            return Some(i);
        }
        i += 1;
    }
    None
}

/// Index of the first closed exchange in `slice`, if there is one.
pub fn find_closed(slice: &[ExchangeCtx]) -> (found: Option<usize>)
    ensures
        found is Some <==> first(slice@, is_closed()) is Some,
        found matches Some(i) ==> first(slice@, is_closed()) == Some(i as int) && i < slice@.len(),
{
    let mut i: usize = 0;
    while i < slice.len()
        invariant
            i <= slice@.len(),
            first(slice@, is_closed()) == first_from(slice@, is_closed(), i as int),
        decreases slice@.len() - i,
    {
        if slice[i].state.is_closed() {
            return Some(i);
        }
        i += 1;
    }
    None
}

/// Index of the first exchange in `slice` that has something to send at time
/// `now`, if there is one.
pub fn find_pending(slice: &[ExchangeCtx], now: u64) -> (found: Option<usize>)
    ensures
        found is Some <==> first(slice@, needs_send(now)) is Some,
        found matches Some(i) ==> first(slice@, needs_send(now)) == Some(i as int) && i < slice@.len(),
{
    let mut i: usize = 0;
    while i < slice.len()
        invariant
            i <= slice@.len(),
            first(slice@, needs_send(now)) == first_from(slice@, needs_send(now), i as int),
        decreases slice@.len() - i,
    {
        if slice[i].needs_send(now) {
            return Some(i);
        }
        i += 1;
    }
    None
}

/// The transport of a Matter node.
pub struct Matter {
    exchanges: heapless::Vec<ExchangeCtx, MAX_EXCHANGES>,
    ephemeral: Option<ExchangeCtx>,
    session_mgr: SessionMgr,
    wake: Vec<bool>,
    send_notification: bool,
    construction_notification: bool,
}

impl View for Matter {
    type V = MatterView;

    closed spec fn view(&self) -> MatterView {
        MatterView {
            exchanges: exchange_slots(self.exchanges),
            ephemeral: self.ephemeral,
            sessions: self.session_mgr@,
            wake: self.wake@,
            send_notification: self.send_notification,
            construction_notification: self.construction_notification,
        }
    }
}

impl Matter {
    /// What holds of every transport that this module hands out.
    pub open spec fn wf(&self) -> bool {
        self@.wf()
    }

    /// The transport of a node that has just started: no exchanges, no
    /// sessions, nothing signalled.
    pub fn new() -> (matter: Matter)
        ensures
            matter.wf(),
            matter@ == MatterView::initial(),
    {
        let mut wake: Vec<bool> = Vec::new();
        let mut i: usize = 0;
        while i < MAX_EXCHANGES + 1
            invariant
                i <= MAX_EXCHANGES + 1,
                wake@.len() == i,
                forall|k: int| 0 <= k < i ==> !wake@[k],
            decreases MAX_EXCHANGES + 1 - i,
        {
            wake.push(false);
            i += 1;
        }
        let matter = Matter {
            exchanges: table_new(),
            ephemeral: None,
            session_mgr: SessionMgr::new(),
            wake,
            send_notification: false,
            construction_notification: false,
        };
        assert(matter@.wake =~= MatterView::initial().wake);
        matter
    }

    /// Forgets every exchange and every session.
    pub fn reset_transport(&mut self)
        requires
            old(self).wf(),
        ensures
            final(self).wf(),
            final(self)@ == old(self)@.reset(),
    {
        table_clear(&mut self.exchanges);
        self.session_mgr.reset();
    }

    /// Finds the exchange with the id `id` in the table, or adds it where
    /// `create_new` allows it. Returns its index and whether it is new.
    pub fn register(
        exchanges: &mut heapless::Vec<ExchangeCtx, MAX_EXCHANGES>,
        id: ExchangeId,
        role: Role,
        create_new: bool,
    ) -> (res: Result<(usize, bool), ErrorCode>)
        ensures
            exchange_slots(*final(exchanges)) == registered(exchange_slots(*old(exchanges)), id, role, create_new).0,
            is_index_result(res, registered(exchange_slots(*old(exchanges)), id, role, create_new).1),
            res matches Ok((index, _)) ==> index < exchange_slots(*final(exchanges)).len(),
    {
        let slice = table_as_slice(exchanges);
        let len = slice.len();
        match find_exchange(slice, &id) {
            Some(index) => {
                if slice[index].role == role {
                    Ok((index, false))
                } else {
                    Err(ErrorCode::NoExchange)
                }
            },
            None => {
                if !create_new {
                    Err(ErrorCode::NoExchange)
                } else {
                    match table_push(exchanges, ExchangeCtx::new(id, role)) {
                        Ok(_) => Ok((len, true)),
                        Err(_) => Err(ErrorCode::NoSpaceExchanges),
                    }
                }
            },
        }
    }

    /// Removes the closed exchanges from the table.
    pub fn purge(&mut self) -> (res: Result<(), ErrorCode>)
        requires
            old(self).wf(),
        ensures
            res is Ok,
            final(self).wf(),
            final(self)@ == old(self)@.purge(),
    {
        proof {
            lemma_purged_wf(self@.exchanges);
        }
        loop
            invariant
                purged(exchange_slots(self.exchanges)) == purged(old(self)@.exchanges),
                self@ == (MatterView { exchanges: exchange_slots(self.exchanges), ..old(self)@ }),
            ensures
                exchange_slots(self.exchanges) == purged(old(self)@.exchanges),
                self@ == (MatterView { exchanges: exchange_slots(self.exchanges), ..old(self)@ }),
            decreases exchange_slots(self.exchanges).len(),
        {
            let found = find_closed(table_as_slice(&self.exchanges));
            match found {
                Some(index) => {
                    table_swap_remove(&mut self.exchanges, index);
                },
                None => {
                    break ;
                },
            }
        }
        Ok(())
    }

    /// Assigns the packet `rx`, which arrived at time `now`, to its session
    /// and its exchange. Returns the index of the exchange and whether the
    /// packet opened it.
    pub fn assign_exchange(&mut self, rx: &Header, now: u64) -> (res: Result<(usize, bool), ErrorCode>)
        requires
            old(self).wf(),
        ensures
            final(self).wf(),
            final(self)@ == old(self)@.assigned(*rx, now).0,
            is_index_result(res, old(self)@.assigned(*rx, now).1),
            res matches Ok((index, _)) ==> index < final(self)@.exchanges.len(),
    {
        proof {
            old(self)@.lemma_assigned_wf(*rx, now);
        }
        let sess_index = match self.session_mgr.post_recv(rx, now) {
            Ok(index) => index,
            Err(e) => {
                return Err(e);
            },
        };
        let duplicate = match self.session_mgr.recv(sess_index, rx.ctr) {
            Ok(duplicate) => duplicate,
            Err(e) => {
                return Err(e);
            },
        };
        if duplicate {
            return Err(ErrorCode::Duplicate);
        }
        let (index, new) = match Self::register(
            &mut self.exchanges,
            ExchangeId::load(rx),
            Role::complementary(rx.initiator),
            rx.initiator,
        ) {
            Ok(hit) => hit,
            Err(e) => {
                return Err(e);
            },
        };
        let mut ctx = table_as_slice(&self.exchanges)[index];
        let noted = ctx.mrp.recv(rx, now);
        table_set(&mut self.exchanges, index, ctx);
        match noted {
            Ok(_) => Ok((index, new)),
            Err(e) => Err(e),
        }
    }

    /// Serves the exchange `ctx` on behalf of the transmit pump: writes the
    /// packet that goes out to `dest` and moves the exchange on. The packet
    /// that the exchange has queued lies in the status pool if `status`
    /// says so, else in the transmit pool.
    fn send_one(ctx: &mut ExchangeCtx, buffers: &PacketBuffers, status: bool, wake: &mut Vec<bool>, dest: &mut Packet)
        requires
            buffers.wf(),
            old(wake)@.len() == MAX_EXCHANGES + 1,
            old(ctx).state.wf(status),
        ensures
            (*final(ctx), final(dest)@, final(wake)@) == sent_one(
                *old(ctx),
                if status { buffers@.sx } else { buffers@.tx },
                old(wake)@,
            ),
    {
        proof {
            buffers.lemma_wf_view();
        }
        match ctx.state {
            ExchangeState::Acknowledge { notify } => {
                dest.load(&Packet::with_payload(ctx.make_ack_header(), Vec::new()));
                ctx.mrp.ack = None;
                ctx.state = ExchangeState::Active;
                wake[notify] = true;
            },
            ExchangeState::ExchangeSend { tx_slot, rx_slot, notify } => {
                let queued = if status { buffers.sx(tx_slot) } else { buffers.tx(tx_slot) };
                dest.load(queued.unwrap());
                ctx.state = ExchangeState::ExchangeRecv { tx_slot, tx_acknowledged: false, rx_slot, notify };
            },
            ExchangeState::Complete { tx_slot, notify } => {
                let queued = if status { buffers.sx(tx_slot) } else { buffers.tx(tx_slot) };
                dest.load(queued.unwrap());
                if dest.is_reliable() {
                    ctx.state = ExchangeState::CompleteAcknowledge { tx_slot, notify };
                } else {
                    ctx.state = ExchangeState::Closed;
                    wake[notify] = true;
                }
            },
            _ => {
                dest.load(&Packet::with_payload(ctx.make_ack_header(), Vec::new()));
                ctx.mrp.ack = None;
            },
        }
    }

    /// Looks for an exchange that has something to send at time `now`, the
    /// ephemeral exchange first, and writes its packet to `dest_tx`. Returns
    /// whether there is a packet to send.
    pub fn pull_tx_exchanges(
        &mut self,
        buffers: &PacketBuffers,
        dest_tx: &mut Packet,
        now: u64,
    ) -> (res: Result<bool, ErrorCode>)
        requires
            old(self).wf(),
            buffers.wf(),
        ensures
            final(self).wf(),
            final(self)@ == old(self)@.tx_scanned(buffers@, now).0,
            is_pulled(res, old(dest_tx)@, final(dest_tx)@, old(self)@.tx_scanned(buffers@, now).1),
    {
        proof {
            old(self)@.lemma_tx_scanned_wf(buffers@, now);
            buffers.lemma_wf_view();
        }
        let from_ephemeral = match self.ephemeral {
            Some(ctx) => ctx.needs_send(now),
            None => false,
        };
        if from_ephemeral {
            let mut ctx = self.ephemeral.unwrap();
            Self::send_one(&mut ctx, buffers, true, &mut self.wake, dest_tx);
            self.ephemeral = Some(ctx);
            return Ok(true);
        }
        match find_pending(table_as_slice(&self.exchanges), now) {
            Some(index) => {
                let mut ctx = table_as_slice(&self.exchanges)[index];
                Self::send_one(&mut ctx, buffers, false, &mut self.wake, dest_tx);
                table_set(&mut self.exchanges, index, ctx);
                Ok(true)
            },
            None => Ok(false),
        }
    }

    /// Asks for the next packet to send at time `now`. Closed exchanges are
    /// purged first. Returns whether there is a packet; if so it is written
    /// to `dest_tx`.
    pub fn pull_tx(&mut self, buffers: &PacketBuffers, dest_tx: &mut Packet, now: u64) -> (res: Result<bool, ErrorCode>)
        requires
            old(self).wf(),
            buffers.wf(),
        ensures
            final(self).wf(),
            final(self)@ == old(self)@.tx_pulled(buffers@, now).0,
            is_pulled(res, old(dest_tx)@, final(dest_tx)@, old(self)@.tx_pulled(buffers@, now).1),
    {
        let _ = self.purge();
        self.pull_tx_exchanges(buffers, dest_tx, now)
    }

    /// Makes `ctx` the ephemeral exchange: its packet, which lies in the
    /// status slot of the receive multiplexer, is its last one, and the
    /// transmit pump is signalled.
    fn send_ephemeral(&mut self, ctx: ExchangeCtx)
        requires
            old(self).wf(),
            old(self)@.ephemeral is None,
        ensures
            final(self).wf(),
            final(self)@ == old(self)@.with_ephemeral(ctx),
    {
        let mut ctx = ctx;
        ctx.state = ExchangeState::Complete { tx_slot: MAX_EXCHANGES, notify: MAX_EXCHANGES };
        self.ephemeral = Some(ctx);
        self.send_notification = true;
    }

    /// Gives the ephemeral exchange up once its packet has gone out. Returns
    /// whether it did; while the packet still waits nothing is changed.
    pub fn complete_ephemeral(&mut self) -> (done: bool)
        requires
            old(self).wf(),
        ensures
            final(self).wf(),
            (final(self)@, done) == old(self)@.ephemeral_completed(),
    {
        let closed = match self.ephemeral {
            Some(ctx) => ctx.state.is_closed(),
            None => false,
        };
        if closed {
            self.ephemeral = None;
        }
        closed
    }

    /// Evicts the least recently used session and queues a `CloseSession`
    /// report to its peer in the ephemeral exchange.
    pub(crate) fn evict_session(&mut self, buffers: &mut PacketBuffers) -> (res: Result<(), ErrorCode>)
        requires
            old(self).wf(),
            old(buffers).wf(),
            old(self)@.ephemeral is None,
        ensures
            final(self).wf(),
            final(buffers).wf(),
            (final(self)@, final(buffers)@, res) == old(self)@.evicted(old(buffers)@),
    {
        proof {
            buffers.lemma_wf_view();
        }
        let sess_index = match self.session_mgr.get_session_for_eviction() {
            Some(index) => index,
            None => {
                return Err(ErrorCode::NoSpaceSessions);
            },
        };
        let session = self.session_mgr.get(sess_index).unwrap().id;
        let ctx = ExchangeCtx::new(ExchangeId { session_id: session, id: 0, is_initiator: true }, Role::Initiator);
        let mut hdr = ctx.make_reply_header();
        hdr.proto_id = PROTO_ID_SECURE_CHANNEL;
        hdr.opcode = OPCODE_STATUS_REPORT;
        let mut report = Packet::with_payload(hdr, Vec::new());
        create_status_report(
            &mut report,
            GENERAL_CODE_SUCCESS,
            PROTO_ID_SECURE_CHANNEL as u32,
            SC_STATUS_CLOSE_SESSION,
        );
        let _ = buffers.store_sx(MAX_EXCHANGES, &report);
        let _ = self.session_mgr.remove(sess_index);
        self.send_ephemeral(ctx);
        Ok(())
    }

    /// Queues a `Busy` report to the sender of the packet `rx`, which
    /// arrived at time `now`, in the ephemeral exchange.
    fn send_busy(&mut self, buffers: &mut PacketBuffers, rx: &Header, now: u64) -> (res: Result<(), ErrorCode>)
        requires
            old(self).wf(),
            old(buffers).wf(),
            old(self)@.ephemeral is None,
        ensures
            final(self).wf(),
            final(buffers).wf(),
            (final(self)@, final(buffers)@, res) == old(self)@.busy_sent(old(buffers)@, *rx, now),
    {
        proof {
            buffers.lemma_wf_view();
        }
        let mut ctx = ExchangeCtx::new(ExchangeId::load(rx), Role::complementary(rx.initiator));
        let mut hdr = ctx.make_reply_header();
        hdr.proto_id = PROTO_ID_SECURE_CHANNEL;
        hdr.opcode = OPCODE_STATUS_REPORT;
        match ctx.mrp.recv(rx, now) {
            Ok(_) => {},
            Err(e) => {
                return Err(e);
            },
        }
        let _ = ctx.mrp.pre_send(&mut hdr);
        let mut report = Packet::with_payload(hdr, Vec::new());
        let code = if rx.proto_id == PROTO_ID_SECURE_CHANNEL {
            SC_STATUS_BUSY
        } else {
            IM_STATUS_BUSY
        };
        create_status_report(&mut report, GENERAL_CODE_BUSY, rx.proto_id as u32, code);
        let _ = buffers.store_sx(MAX_EXCHANGES, &report);
        self.send_ephemeral(ctx);
        Ok(())
    }

    /// Applies the acknowledgement that a packet of the exchange at `index`
    /// carries; `new` says whether the packet opened the exchange.
    fn acknowledge_tx(&mut self, index: usize, new: bool) -> (res: Result<(), ErrorCode>)
        requires
            old(self).wf(),
            index < old(self)@.exchanges.len(),
        ensures
            final(self).wf(),
            (final(self)@, res) == old(self)@.acknowledged(index as int, new),
    {
        if new {
            return Err(ErrorCode::Invalid);
        }
        let mut ctx = table_as_slice(&self.exchanges)[index];
        match ctx.state {
            ExchangeState::ExchangeRecv { tx_slot, rx_slot, notify, .. } => {
                ctx.state = ExchangeState::ExchangeRecv { tx_slot, tx_acknowledged: true, rx_slot, notify };
                table_set(&mut self.exchanges, index, ctx);
                Ok(())
            },
            ExchangeState::CompleteAcknowledge { notify, .. } => {
                ctx.state = ExchangeState::Closed;
                table_set(&mut self.exchanges, index, ctx);
                self.wake[notify] = true;
                Ok(())
            },
            _ => Err(ErrorCode::InvalidState),
        }
    }

    /// Hands the packet `src_rx` to the handler that waits for a reply on
    /// the exchange at `index`.
    fn deliver(&mut self, buffers: &mut PacketBuffers, src_rx: &Packet, index: usize) -> (res: Result<(), ErrorCode>)
        requires
            old(self).wf(),
            old(buffers).wf(),
            index < old(self)@.exchanges.len(),
        ensures
            final(self).wf(),
            final(buffers).wf(),
            (final(self)@, final(buffers)@, res) == old(self)@.delivered(old(buffers)@, src_rx@, index as int),
    {
        let mut ctx = table_as_slice(&self.exchanges)[index];
        match ctx.state {
            ExchangeState::ExchangeRecv { rx_slot, notify, .. } => {
                match buffers.store_rx(rx_slot, src_rx) {
                    Ok(_) => {},
                    Err(e) => {
                        return Err(e);
                    },
                }
                ctx.state = ExchangeState::Active;
                table_set(&mut self.exchanges, index, ctx);
                self.wake[notify] = true;
                Ok(())
            },
            _ => Err(ErrorCode::InvalidState),
        }
    }

    /// Routes the packet `src_rx`, which was assigned to the exchange at
    /// `index`; `new` says whether it opened the exchange.
    fn route(
        &mut self,
        buffers: &mut PacketBuffers,
        src_rx: &Packet,
        index: usize,
        new: bool,
    ) -> (res: Result<RxOutcome, ErrorCode>)
        requires
            old(self).wf(),
            old(buffers).wf(),
            index < old(self)@.exchanges.len(),
        ensures
            final(self).wf(),
            final(buffers).wf(),
            (final(self)@, final(buffers)@, res) == old(self)@.routed(old(buffers)@, src_rx@, index as int, new),
    {
        if src_rx.hdr.is_ack() {
            match self.acknowledge_tx(index, new) {
                Ok(_) => {},
                Err(e) => {
                    return Err(e);
                },
            }
        }
        if new {
            Ok(RxOutcome::NewExchange(table_as_slice(&self.exchanges)[index].id))
        } else if src_rx.hdr.is_standalone_ack() {
            Ok(RxOutcome::Acknowledged)
        } else {
            match self.deliver(buffers, src_rx, index) {
                Ok(_) => Ok(RxOutcome::Delivered),
                Err(e) => Err(e),
            }
        }
    }

    /// Takes in the packet `src_rx`, which arrived at time `now`, and says
    /// what became of it.
    pub fn process_rx(
        &mut self,
        buffers: &mut PacketBuffers,
        src_rx: &Packet,
        now: u64,
    ) -> (res: Result<RxOutcome, ErrorCode>)
        requires
            old(self).wf(),
            old(buffers).wf(),
        ensures
            final(self).wf(),
            final(buffers).wf(),
            (final(self)@, final(buffers)@, res) == old(self)@.rx_processed(old(buffers)@, src_rx@, now),
    {
        let _ = self.purge();
        if self.ephemeral.is_some() {
            return Ok(RxOutcome::EphemeralPending);
        }
        let (index, new) = match self.assign_exchange(&src_rx.hdr, now) {
            Ok(hit) => hit,
            Err(ErrorCode::Duplicate) => {
                self.send_notification = true;
                return Ok(RxOutcome::Duplicate);
            },
            Err(ErrorCode::NoSpaceSessions) => {
                return match self.evict_session(buffers) {
                    Ok(_) => Ok(RxOutcome::Evicted),
                    Err(e) => Err(e),
                };
            },
            Err(ErrorCode::NoSpaceExchanges) => {
                return match self.send_busy(buffers, &src_rx.hdr, now) {
                    Ok(_) => Ok(RxOutcome::Busy),
                    Err(e) => Err(e),
                };
            },
            Err(e) => {
                return Err(e);
            },
        };
        self.route(buffers, src_rx, index, new)
    }

    /// Index of the exchange `id` if a handler may act on it.
    fn active_index(&self, id: &ExchangeId) -> (res: Result<usize, ErrorCode>)
        ensures
            res matches Ok(index) ==> self@.active_index(*id) == Ok::<int, ErrorCode>(index as int)
                && index < self@.exchanges.len(),
            res matches Err(e) ==> self@.active_index(*id) == Err::<int, ErrorCode>(e),
    {
        let slice = table_as_slice(&self.exchanges);
        match find_exchange(slice, id) {
            Some(index) => if slice[index].state.is_active() {
                Ok(index)
            } else {
                Err(ErrorCode::NoExchange)
            },
            None => Err(ErrorCode::NoExchange),
        }
    }

    /// Whether handler `slot` may start to wait.
    fn slot_free(&self, slot: usize) -> (free: bool)
        ensures
            free == self@.slot_free(slot),
    {
        slot < MAX_EXCHANGES && find_slot(table_as_slice(&self.exchanges), slot).is_none()
    }

    /// Handler `slot` takes up the new exchange `id` and waits for its first
    /// payload.
    pub fn exchange_get(&mut self, id: &ExchangeId, slot: usize) -> (res: Result<(), ErrorCode>)
        requires
            old(self).wf(),
        ensures
            final(self).wf(),
            (final(self)@, res) == old(self)@.construction_started(*id, slot),
    {
        proof {
            old(self)@.lemma_handler_steps_wf(PacketBuffersView::empty(), *id, slot, PacketView::empty(), false);
        }
        let index = match self.active_index(id) {
            Ok(index) => index,
            Err(e) => {
                return Err(e);
            },
        };
        if !self.slot_free(slot) {
            return Err(ErrorCode::NoSpace);
        }
        let mut ctx = table_as_slice(&self.exchanges)[index];
        ctx.state = ExchangeState::Construction { rx_slot: slot, notify: slot };
        table_set(&mut self.exchanges, index, ctx);
        self.construction_notification = true;
        Ok(())
    }

    /// The receive multiplexer waits for the handler of the new exchange
    /// `exchange_id` and hands it the packet `src_rx`. Returns whether the
    /// handler was ready; if not, the call is to be made again.
    pub fn wait_construction(
        &mut self,
        buffers: &mut PacketBuffers,
        src_rx: &Packet,
        exchange_id: &ExchangeId,
    ) -> (res: Result<bool, ErrorCode>)
        requires
            old(self).wf(),
            old(buffers).wf(),
        ensures
            final(self).wf(),
            final(buffers).wf(),
            (final(self)@, final(buffers)@, res) == old(self)@.constructed(old(buffers)@, src_rx@, *exchange_id),
    {
        if !self.construction_notification {
            return Ok(false);
        }
        let slice = table_as_slice(&self.exchanges);
        let index = match find_exchange(slice, exchange_id) {
            Some(index) => index,
            None => {
                return Err(ErrorCode::NoExchange);
            },
        };
        let mut ctx = slice[index];
        match ctx.state {
            ExchangeState::Construction { rx_slot, notify } => {
                match buffers.store_rx(rx_slot, src_rx) {
                    Ok(_) => {},
                    Err(e) => {
                        return Err(e);
                    },
                }
                ctx.state = ExchangeState::Active;
                table_set(&mut self.exchanges, index, ctx);
                self.wake[notify] = true;
                self.construction_notification = false;
                Ok(true)
            },
            _ => Err(ErrorCode::InvalidState),
        }
    }

    /// Queues the packet `tx` of handler `slot` on the exchange `id`; `last`
    /// says whether it is the last packet of the exchange.
    fn queue(
        &mut self,
        buffers: &mut PacketBuffers,
        id: &ExchangeId,
        slot: usize,
        tx: &Packet,
        last: bool,
    ) -> (res: Result<(), ErrorCode>)
        requires
            old(self).wf(),
            old(buffers).wf(),
        ensures
            final(self).wf(),
            final(buffers).wf(),
            (final(self)@, final(buffers)@, res) == old(self)@.queued(old(buffers)@, *id, slot, tx@, last),
    {
        proof {
            old(self)@.lemma_handler_steps_wf(old(buffers)@, *id, slot, tx@, last);
        }
        let index = match self.active_index(id) {
            Ok(index) => index,
            Err(e) => {
                return Err(e);
            },
        };
        if slot >= MAX_EXCHANGES || tx.payload.len() > MAX_TX_BUF_SIZE || !self.slot_free(slot) {
            return Err(ErrorCode::NoSpace);
        }
        let mut ctx = table_as_slice(&self.exchanges)[index];
        let mut hdr = ctx.make_reply_header();
        hdr.ctr = tx.hdr.ctr;
        hdr.proto_id = tx.hdr.proto_id;
        hdr.opcode = tx.hdr.opcode;
        hdr.reliable = tx.hdr.reliable;
        match ctx.mrp.pre_send(&mut hdr) {
            Ok(_) => {},
            Err(e) => {
                return Err(e);
            },
        }
        let mut packet = tx.clone();
        packet.hdr = hdr;
        let _ = buffers.store_tx(slot, &packet);
        ctx.state = if last {
            ExchangeState::Complete { tx_slot: slot, notify: slot }
        } else {
            ExchangeState::ExchangeSend { tx_slot: slot, rx_slot: slot, notify: slot }
        };
        table_set(&mut self.exchanges, index, ctx);
        self.send_notification = true;
        Ok(())
    }

    /// Handler `slot` sends the packet `tx` on the exchange `id` and waits
    /// for the reply.
    pub fn exchange_send(
        &mut self,
        buffers: &mut PacketBuffers,
        id: &ExchangeId,
        slot: usize,
        tx: &Packet,
    ) -> (res: Result<(), ErrorCode>)
        requires
            old(self).wf(),
            old(buffers).wf(),
        ensures
            final(self).wf(),
            final(buffers).wf(),
            (final(self)@, final(buffers)@, res) == old(self)@.queued(old(buffers)@, *id, slot, tx@, false),
    {
        self.queue(buffers, id, slot, tx, false)
    }

    /// Handler `slot` sends the packet `tx` as the last one of the exchange
    /// `id`.
    pub fn exchange_complete(
        &mut self,
        buffers: &mut PacketBuffers,
        id: &ExchangeId,
        slot: usize,
        tx: &Packet,
    ) -> (res: Result<(), ErrorCode>)
        requires
            old(self).wf(),
            old(buffers).wf(),
        ensures
            final(self).wf(),
            final(buffers).wf(),
            (final(self)@, final(buffers)@, res) == old(self)@.queued(old(buffers)@, *id, slot, tx@, true),
    {
        self.queue(buffers, id, slot, tx, true)
    }

    /// Handler `slot` asks for the acknowledgement that the exchange `id`
    /// owes to go out on its own. Returns whether there is anything to wait
    /// for.
    pub fn exchange_acknowledge(&mut self, id: &ExchangeId, slot: usize) -> (res: Result<bool, ErrorCode>)
        requires
            old(self).wf(),
        ensures
            final(self).wf(),
            (final(self)@, res) == old(self)@.acknowledge_requested(*id, slot),
    {
        proof {
            old(self)@.lemma_handler_steps_wf(PacketBuffersView::empty(), *id, slot, PacketView::empty(), false);
        }
        let index = match self.active_index(id) {
            Ok(index) => index,
            Err(e) => {
                return Err(e);
            },
        };
        if !self.slot_free(slot) {
            return Err(ErrorCode::NoSpace);
        }
        let mut ctx = table_as_slice(&self.exchanges)[index];
        if ctx.mrp.is_empty() {
            return Ok(false);
        }
        ctx.state = ExchangeState::Acknowledge { notify: slot };
        table_set(&mut self.exchanges, index, ctx);
        self.send_notification = true;
        Ok(true)
    }

    /// Takes notification `index`: says whether it was signalled, and clears
    /// it. The handlers' notifications have the indices of their slots; the
    /// last one belongs to the receive multiplexer.
    pub fn take_notification(&mut self, index: usize) -> (signalled: bool)
        requires
            old(self).wf(),
        ensures
            final(self).wf(),
            (final(self)@, signalled) == old(self)@.notification_taken(index),
    {
        if index < self.wake.len() {
            let signalled = self.wake[index];
            self.wake[index] = false;
            signalled
        } else {
            false
        }
    }

    /// Takes the notification of the transmit pump: says whether it was
    /// signalled, and clears it.
    pub fn take_send_notification(&mut self) -> (signalled: bool)
        requires
            old(self).wf(),
        ensures
            final(self).wf(),
            signalled == old(self)@.send_notification,
            final(self)@ == (MatterView { send_notification: false, ..old(self)@ }),
    {
        let signalled = self.send_notification;
        self.send_notification = false;
        signalled
    }

    /// Number of exchanges in the table.
    pub fn exchange_count(&self) -> (n: usize)
        ensures
            n == self@.exchanges.len(),
    {
        table_as_slice(&self.exchanges).len()
    }

    /// Number of sessions in the table.
    pub fn session_count(&self) -> (n: usize)
        ensures
            n == self@.sessions.len(),
    {
        self.session_mgr.len()
    }

    /// The exchange with the id `id`, if the table holds it.
    pub fn exchange(&self, id: &ExchangeId) -> (ctx: Option<ExchangeCtx>)
        ensures
            ctx is Some <==> first(self@.exchanges, exchange_is(*id)) is Some,
            ctx matches Some(c) ==> c == self@.exchanges[first(self@.exchanges, exchange_is(*id))->0],
    {
        let slice = table_as_slice(&self.exchanges);
        match find_exchange(slice, id) {
            Some(index) => Some(slice[index]),
            None => None,
        }
    }

    /// The ephemeral exchange, if one is in flight.
    pub fn ephemeral(&self) -> (ctx: Option<ExchangeCtx>)
        ensures
            ctx == self@.ephemeral,
    {
        self.ephemeral
    }
}

} // verus!
