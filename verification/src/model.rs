//! The transport as a mathematical state machine.
//!
//! [`MatterView`] is the state of a node: its exchanges, the ephemeral
//! exchange, its sessions and its notifications. The functions of this module
//! say what each step of the transport makes of a state. The executable
//! transport is proved to take exactly these steps, and the properties of the
//! transport are proved of them.

use vstd::prelude::*;
use crate::buffers::{PacketBuffers, PacketBuffersView};
use crate::error::ErrorCode;
use crate::exchange::{
    exchange_is, is_closed, names_slot, needs_send, ExchangeCtx, ExchangeId, ExchangeState, Role,
};
use crate::mrp::ReliableMessage;
use crate::packet::{
    status_report_bytes, Header, PacketView, GENERAL_CODE_BUSY, GENERAL_CODE_SUCCESS, IM_STATUS_BUSY,
    MAX_EXCHANGES, OPCODE_STATUS_REPORT, PROTO_ID_SECURE_CHANNEL, SC_STATUS_BUSY,
    SC_STATUS_CLOSE_SESSION,
};
use crate::search::{first, lemma_first};
use crate::session::{eviction_candidate, post_received, session_is, Session, SessionId, MAX_SESSIONS};
use crate::table::swap_removed;

verus! {

/// What became of a packet that the transport took in.
#[derive(Clone, Copy, Debug, PartialEq, Eq)]
pub enum RxOutcome {
    /// The packet opened an exchange. The exchange waits for a handler,
    /// which is to take the packet as its first payload.
    NewExchange(ExchangeId),
    /// The payload went to the handler of its exchange.
    Delivered,
    /// The packet was a standalone acknowledgement and has been noted.
    Acknowledged,
    /// The message counter was seen before. The packet was dropped and the
    /// transmit pump was signalled.
    Duplicate,
    /// The exchange table is full. The packet was dropped, and a `Busy`
    /// report to its sender waits in the ephemeral exchange.
    Busy,
    /// The session table is full. The least recently used session was
    /// removed, and a `CloseSession` report to its peer waits in the
    /// ephemeral exchange. The packet is to be handed in again once that
    /// report has gone out.
    Evicted,
    /// An ephemeral exchange is still in flight. The packet was not looked
    /// at and is to be handed in again once the ephemeral exchange is over.
    EphemeralPending,
}

/// Status slot, and notification, of the receive multiplexer.
pub open spec fn ephemeral_slot() -> usize {
    MAX_EXCHANGES
}

/// The state of the transport.
pub struct MatterView {
    /// The exchange table.
    pub exchanges: Seq<ExchangeCtx>,
    /// The exchange that carries a reply of the receive multiplexer itself.
    pub ephemeral: Option<ExchangeCtx>,
    /// The session table.
    pub sessions: Seq<Session>,
    /// The notifications of the handlers, and at the end that of the receive
    /// multiplexer: which of them were signalled and not yet taken.
    pub wake: Seq<bool>,
    /// Whether the transmit pump was signalled.
    pub send_notification: bool,
    /// Whether a handler has signalled that it is ready for the first
    /// payload of its exchange.
    pub construction_notification: bool,
}

/// Whether the executable result `res` is the result `model` of the state
/// machine, with the index as a machine integer.
pub open spec fn is_index_result(res: Result<(usize, bool), ErrorCode>, model: Result<(int, bool), ErrorCode>) -> bool {
    match res {
        Ok((index, new)) => model == Ok::<(int, bool), ErrorCode>((index as int, new)),
        Err(e) => model == Err::<(int, bool), ErrorCode>(e),
    }
}

/// Whether the transmit pump did what the state machine says in `model`: it
/// reports a packet and has written it to its destination, or it reports
/// none and has left the destination as it was.
pub open spec fn is_pulled(res: Result<bool, ErrorCode>, before: PacketView, after: PacketView, model: Option<PacketView>) -> bool {
    match model {
        Some(packet) => res == Ok::<bool, ErrorCode>(true) && after == packet,
        None => res == Ok::<bool, ErrorCode>(false) && after == before,
    }
}

/// No two exchanges of `s` have the same id.
pub open spec fn unique_ids(s: Seq<ExchangeCtx>) -> bool {
    forall|i: int, j: int| 0 <= i < j < s.len() ==> (#[trigger] s[i]).id != (#[trigger] s[j]).id
}

/// The states of the exchanges of `s` name slots of handlers, and no two of
/// them name the same slot.
pub open spec fn slots_wf(s: Seq<ExchangeCtx>) -> bool {
    &&& forall|i: int| 0 <= i < s.len() ==> (#[trigger] s[i]).state.wf(false)
    &&& forall|i: int, j: int|
        0 <= i < j < s.len() && (#[trigger] s[i]).state.spec_slot() is Some
            ==> s[i].state.spec_slot() != (#[trigger] s[j]).state.spec_slot()
}

/// The exchange table without its closed exchanges: as long as one is closed,
/// the first such leaves and the last exchange takes its place.
pub open spec fn purged(s: Seq<ExchangeCtx>) -> Seq<ExchangeCtx>
    decreases s.len(),
{
    match first(s, is_closed()) {
        Some(i) => if 0 <= i < s.len() {
            purged(swap_removed(s, i))
        } else {
            s
        },
        None => s,
    }
}

/// The exchange with the id `id` in the table `s`, and the table afterwards.
/// An exchange that the table holds is found if it has the role `role`, and
/// is `NoExchange` if not. One that it does not hold is added, active, where
/// `create_new` allows it and the table has room; it is `NoSpaceExchanges`
/// where the table is full, and `NoExchange` where `create_new` forbids it.
/// With the index comes whether the exchange is new.
pub open spec fn registered(s: Seq<ExchangeCtx>, id: ExchangeId, role: Role, create_new: bool) -> (
    Seq<ExchangeCtx>,
    Result<(int, bool), ErrorCode>,
) {
    match first(s, exchange_is(id)) {
        Some(i) => if s[i].role == role {
            (s, Ok((i, false)))
        } else {
            (s, Err(ErrorCode::NoExchange))
        },
        None => if !create_new {
            (s, Err(ErrorCode::NoExchange))
        } else if s.len() >= MAX_EXCHANGES {
            (s, Err(ErrorCode::NoSpaceExchanges))
        } else {
            (s.push(ExchangeCtx::spec_new(id, role)), Ok((s.len() as int, true)))
        },
    }
}

/// The exchange `ctx` after the transmit pump served it, the packet that
/// went out, and the notifications afterwards. `pool` holds the packets that
/// the state of `ctx` names.
pub open spec fn sent_one(ctx: ExchangeCtx, pool: Seq<PacketView>, wake: Seq<bool>) -> (
    ExchangeCtx,
    PacketView,
    Seq<bool>,
) {
    let acked = ReliableMessage { ack: None, ..ctx.mrp };
    match ctx.state {
        ExchangeState::Acknowledge { notify } => (
            ExchangeCtx { state: ExchangeState::Active, mrp: acked, ..ctx },
            ctx.ack_packet(),
            wake.update(notify as int, true),
        ),
        ExchangeState::ExchangeSend { tx_slot, rx_slot, notify } => (
            ExchangeCtx {
                state: ExchangeState::ExchangeRecv { tx_slot, tx_acknowledged: false, rx_slot, notify },
                ..ctx
            },
            pool[tx_slot as int],
            wake,
        ),
        ExchangeState::Complete { tx_slot, notify } => if pool[tx_slot as int].hdr.reliable {
            (
                ExchangeCtx { state: ExchangeState::CompleteAcknowledge { tx_slot, notify }, ..ctx },
                pool[tx_slot as int],
                wake,
            )
        } else {
            (
                ExchangeCtx { state: ExchangeState::Closed, ..ctx },
                pool[tx_slot as int],
                wake.update(notify as int, true),
            )
        },
        _ => (ExchangeCtx { mrp: acked, ..ctx }, ctx.ack_packet(), wake),
    }
}

/// The exchange that carries a report to the sender of the packet `rx`, and
/// the header of the report. The report acknowledges `rx` if `rx` asked for
/// it. It is `Invalid` where the time of that acknowledgement cannot be told.
pub open spec fn reply_exchange(rx: Header, now: u64) -> Result<(ExchangeCtx, Header), ErrorCode> {
    let fresh = ExchangeCtx::spec_new(ExchangeId::spec_load(rx), Role::spec_complementary(rx.initiator));
    let (noted, res) = fresh.mrp.received(rx, now);
    match res {
        Err(e) => Err(e),
        Ok(_) => {
            let (mrp, hdr, _) = noted.sent(
                Header {
                    proto_id: PROTO_ID_SECURE_CHANNEL,
                    opcode: OPCODE_STATUS_REPORT,
                    ..fresh.reply_header()
                },
            );
            Ok((ExchangeCtx { mrp, ..fresh }, hdr))
        },
    }
}

/// The exchange that carries a report to the peer of the session `session`,
/// opened by this node under the exchange number 0.
pub open spec fn notice_exchange(session: SessionId) -> ExchangeCtx {
    ExchangeCtx::spec_new(ExchangeId { session_id: session, id: 0, is_initiator: true }, Role::Initiator)
}

/// The `Busy` report that answers the packet `rx`: a Secure Channel status
/// report that names the protocol of `rx` and that protocol's code for busy.
pub open spec fn busy_report(hdr: Header, rx: Header) -> PacketView {
    PacketView {
        hdr,
        payload: status_report_bytes(
            GENERAL_CODE_BUSY,
            rx.proto_id as u32,
            if rx.proto_id == PROTO_ID_SECURE_CHANNEL {
                SC_STATUS_BUSY
            } else {
                IM_STATUS_BUSY
            },
        ),
    }
}

/// The `CloseSession` report to the peer of the session `session`.
pub open spec fn close_session_report(session: SessionId) -> PacketView {
    PacketView {
        hdr: Header {
            proto_id: PROTO_ID_SECURE_CHANNEL,
            opcode: OPCODE_STATUS_REPORT,
            ..notice_exchange(session).reply_header()
        },
        payload: status_report_bytes(
            GENERAL_CODE_SUCCESS,
            PROTO_ID_SECURE_CHANNEL as u32,
            SC_STATUS_CLOSE_SESSION,
        ),
    }
}

/// A table that was in order is in order after an exchange left it.
pub proof fn lemma_swap_removed_wf(s: Seq<ExchangeCtx>, index: int)
    requires
        0 <= index < s.len(),
    ensures
        swap_removed(s, index).len() == s.len() - 1,
        unique_ids(s) ==> unique_ids(swap_removed(s, index)),
        slots_wf(s) ==> slots_wf(swap_removed(s, index)),
        forall|ctx: ExchangeCtx| #[trigger] swap_removed(s, index).contains(ctx) ==> s.contains(ctx),
        forall|ctx: ExchangeCtx| #[trigger] s.contains(ctx) && ctx != s[index] ==> swap_removed(s, index).contains(ctx),
{
    let t = swap_removed(s, index);
    assert forall|ctx: ExchangeCtx| #[trigger] s.contains(ctx) && ctx != s[index] implies t.contains(ctx) by {
        let j = choose|j: int| 0 <= j < s.len() && s[j] == ctx;
        if j < t.len() {
            assert(t[j] == ctx);
        } else {
            assert(t[index] == ctx);
        }
    }
    assert forall|ctx: ExchangeCtx| #[trigger] t.contains(ctx) implies s.contains(ctx) by {
        let j = choose|j: int| 0 <= j < t.len() && t[j] == ctx;
        if j == index {
            assert(s[s.len() - 1] == ctx);
        } else {
            assert(s[j] == ctx);
        }
    }
}

/// Purging leaves no closed exchange, keeps every exchange that is not
/// closed and adds none, and keeps a table in order.
pub proof fn lemma_purged_wf(s: Seq<ExchangeCtx>)
    ensures
        purged(s).len() <= s.len(),
        forall|i: int| 0 <= i < purged(s).len() ==> !((#[trigger] purged(s)[i]).state is Closed),
        forall|ctx: ExchangeCtx| #[trigger] purged(s).contains(ctx) <==> s.contains(ctx) && !(ctx.state is Closed),
        unique_ids(s) ==> unique_ids(purged(s)),
        slots_wf(s) ==> slots_wf(purged(s)),
    decreases s.len(),
{
    lemma_first(s, is_closed());
    match first(s, is_closed()) {
        Some(i) => {
            lemma_swap_removed_wf(s, i);
            lemma_purged_wf(swap_removed(s, i));
            assert(s.contains(s[i]));
        },
        None => {
            assert forall|ctx: ExchangeCtx| #[trigger] s.contains(ctx) implies !(ctx.state is Closed) by {
                let j = choose|j: int| 0 <= j < s.len() && s[j] == ctx;
                assert(!is_closed()(s[j]));
            }
        },
    }
}

/// A table that was in order is in order after an exchange was looked up in
/// it or added to it.
pub proof fn lemma_registered_wf(s: Seq<ExchangeCtx>, id: ExchangeId, role: Role, create_new: bool)
    requires
        s.len() <= MAX_EXCHANGES,
        unique_ids(s),
        slots_wf(s),
    ensures
        registered(s, id, role, create_new).0.len() <= MAX_EXCHANGES,
        unique_ids(registered(s, id, role, create_new).0),
        slots_wf(registered(s, id, role, create_new).0),
        registered(s, id, role, create_new).1 matches Ok((i, new)) ==> 0 <= i < registered(s, id, role, create_new).0.len()
            && registered(s, id, role, create_new).0[i].id == id
            && (new ==> registered(s, id, role, create_new).0[i] == ExchangeCtx::spec_new(id, role)),
{
    lemma_first(s, exchange_is(id));
}

impl MatterView {
    /// What holds of every state that the transport reaches: the tables keep
    /// within their bounds, no two exchanges share an id or a handler slot,
    /// and only the ephemeral exchange names the slot of the receive
    /// multiplexer.
    pub open spec fn wf(self) -> bool {
        &&& self.exchanges.len() <= MAX_EXCHANGES
        &&& unique_ids(self.exchanges)
        &&& slots_wf(self.exchanges)
        &&& (self.ephemeral matches Some(e) ==> e.state.wf(true))
        &&& self.sessions.len() <= MAX_SESSIONS
        &&& self.wake.len() == MAX_EXCHANGES + 1
    }

    /// The state of a node that has just started.
    pub open spec fn initial() -> MatterView {
        MatterView {
            exchanges: Seq::empty(),
            ephemeral: None,
            sessions: Seq::empty(),
            wake: Seq::new((MAX_EXCHANGES + 1) as nat, |i: int| false),
            send_notification: false,
            construction_notification: false,
        }
    }

    /// The state after the transport was reset: no exchanges and no sessions.
    pub open spec fn reset(self) -> MatterView {
        MatterView { exchanges: Seq::empty(), sessions: Seq::empty(), ..self }
    }

    /// The state without its closed exchanges.
    pub open spec fn purge(self) -> MatterView {
        MatterView { exchanges: purged(self.exchanges), ..self }
    }

    /// The state after the packet `rx` was assigned to its session and its
    /// exchange at time `now`, and the index of the exchange with whether it
    /// is new. The session is found or made and marked as used; the message
    /// counter is taken in, and the packet is `Duplicate` if it was seen
    /// before; the exchange is found or made; the reliability state of the
    /// exchange takes the packet in. What was done before a step failed stays
    /// done.
    pub open spec fn assigned(self, rx: Header, now: u64) -> (MatterView, Result<(int, bool), ErrorCode>) {
        let (sessions, found) = post_received(self.sessions, rx, now);
        match found {
            Err(e) => (self, Err(e)),
            Ok(si) => {
                let session = sessions[si];
                let counted = MatterView {
                    sessions: sessions.update(
                        si,
                        Session { rx_ctr: session.rx_ctr.received(rx.ctr), ..session },
                    ),
                    ..self
                };
                if session.rx_ctr.seen(rx.ctr) {
                    (counted, Err(ErrorCode::Duplicate))
                } else {
                    let (exchanges, reg) = registered(
                        self.exchanges,
                        ExchangeId::spec_load(rx),
                        Role::spec_complementary(rx.initiator),
                        rx.initiator,
                    );
                    match reg {
                        Err(e) => (counted, Err(e)),
                        Ok((xi, new)) => {
                            let (mrp, res) = exchanges[xi].mrp.received(rx, now);
                            let noted = MatterView {
                                exchanges: exchanges.update(xi, ExchangeCtx { mrp, ..exchanges[xi] }),
                                ..counted
                            };
                            match res {
                                Err(e) => (noted, Err(e)),
                                Ok(_) => (noted, Ok((xi, new))),
                            }
                        },
                    }
                }
            },
        }
    }

    /// Assigning a packet keeps a state in order.
    pub proof fn lemma_assigned_wf(self, rx: Header, now: u64)
        requires
            self.wf(),
        ensures
            self.assigned(rx, now).0.wf(),
            self.assigned(rx, now).1 matches Ok((i, _)) ==> 0 <= i < self.assigned(rx, now).0.exchanges.len(),
    {
        lemma_first(self.sessions, session_is(SessionId::spec_load(rx)));
        lemma_registered_wf(
            self.exchanges,
            ExchangeId::spec_load(rx),
            Role::spec_complementary(rx.initiator),
            rx.initiator,
        );
    }

    /// Scanning for a packet to send keeps a state in order.
    pub proof fn lemma_tx_scanned_wf(self, bufs: PacketBuffersView, now: u64)
        requires
            self.wf(),
        ensures
            self.tx_scanned(bufs, now).0.wf(),
    {
        lemma_first(self.exchanges, needs_send(now));
    }

    /// The state after `ctx` became the ephemeral exchange, with its packet
    /// in the status slot of the receive multiplexer and the transmit pump
    /// signalled.
    pub open spec fn with_ephemeral(self, ctx: ExchangeCtx) -> MatterView {
        MatterView {
            ephemeral: Some(
                ExchangeCtx {
                    state: ExchangeState::Complete { tx_slot: ephemeral_slot(), notify: ephemeral_slot() },
                    ..ctx
                },
            ),
            send_notification: true,
            ..self
        }
    }

    /// The state and the buffers after the least recently used session was
    /// evicted: the session is gone, and a `CloseSession` report to its peer
    /// waits in the ephemeral exchange. It is `NoSpaceSessions`, with nothing
    /// changed, where the session table is not full.
    pub open spec fn evicted(self, bufs: PacketBuffersView) -> (MatterView, PacketBuffersView, Result<(), ErrorCode>) {
        match eviction_candidate(self.sessions) {
            None => (self, bufs, Err(ErrorCode::NoSpaceSessions)),
            Some(i) => {
                let session = self.sessions[i].id;
                (
                    MatterView { sessions: self.sessions.remove(i), ..self }.with_ephemeral(
                        notice_exchange(session),
                    ),
                    PacketBuffersView {
                        sx: bufs.sx.update(ephemeral_slot() as int, close_session_report(session)),
                        ..bufs
                    },
                    Ok(()),
                )
            },
        }
    }

    /// The state and the buffers after a `Busy` report to the sender of `rx`
    /// was put into the ephemeral exchange. On an error nothing is changed.
    pub open spec fn busy_sent(self, bufs: PacketBuffersView, rx: Header, now: u64) -> (
        MatterView,
        PacketBuffersView,
        Result<(), ErrorCode>,
    ) {
        match reply_exchange(rx, now) {
            Err(e) => (self, bufs, Err(e)),
            Ok((ctx, hdr)) => (
                self.with_ephemeral(ctx),
                PacketBuffersView { sx: bufs.sx.update(ephemeral_slot() as int, busy_report(hdr, rx)), ..bufs },
                Ok(()),
            ),
        }
    }

    /// The state after the acknowledgement that the packet of the exchange
    /// at `xi` carries was applied. A handler that waits for a reply learns
    /// that its packet arrived; an exchange that only waited for this
    /// acknowledgement is closed and its handler woken. It is `Invalid` on an
    /// exchange that the packet itself opened, and `InvalidState` in every
    /// other state; then nothing is changed.
    pub open spec fn acknowledged(self, xi: int, new: bool) -> (MatterView, Result<(), ErrorCode>) {
        let ctx = self.exchanges[xi];
        if new {
            (self, Err(ErrorCode::Invalid))
        } else {
            match ctx.state {
                ExchangeState::ExchangeRecv { tx_slot, rx_slot, notify, .. } => (
                    MatterView {
                        exchanges: self.exchanges.update(
                            xi,
                            ExchangeCtx {
                                state: ExchangeState::ExchangeRecv {
                                    tx_slot,
                                    tx_acknowledged: true,
                                    rx_slot,
                                    notify,
                                },
                                ..ctx
                            },
                        ),
                        ..self
                    },
                    Ok(()),
                ),
                ExchangeState::CompleteAcknowledge { notify, .. } => (
                    MatterView {
                        exchanges: self.exchanges.update(xi, ExchangeCtx { state: ExchangeState::Closed, ..ctx }),
                        wake: self.wake.update(notify as int, true),
                        ..self
                    },
                    Ok(()),
                ),
                _ => (self, Err(ErrorCode::InvalidState)),
            }
        }
    }

    /// The state and the buffers after the payload of `rx` went to the
    /// handler of the exchange at `xi`: the packet lies in the receive slot
    /// that the handler named, the handler is woken and the exchange is
    /// active. It is `InvalidState` where no handler waits for a reply, and
    /// `NoSpace` where the packet does not fit the slot; then nothing is
    /// changed.
    pub open spec fn delivered(self, bufs: PacketBuffersView, rx: PacketView, xi: int) -> (
        MatterView,
        PacketBuffersView,
        Result<(), ErrorCode>,
    ) {
        let ctx = self.exchanges[xi];
        match ctx.state {
            ExchangeState::ExchangeRecv { rx_slot, notify, .. } => if PacketBuffers::fits_rx(rx_slot, rx) {
                (
                    MatterView {
                        exchanges: self.exchanges.update(xi, ExchangeCtx { state: ExchangeState::Active, ..ctx }),
                        wake: self.wake.update(notify as int, true),
                        ..self
                    },
                    PacketBuffersView { rx: bufs.rx.update(rx_slot as int, rx), ..bufs },
                    Ok(()),
                )
            } else {
                (self, bufs, Err(ErrorCode::NoSpace))
            },
            _ => (self, bufs, Err(ErrorCode::InvalidState)),
        }
    }

    /// What becomes of the packet `rx` once it is assigned to the exchange
    /// at `xi`. An acknowledgement that it carries is applied first. Then a
    /// new exchange is announced; a standalone acknowledgement is done with;
    /// any other packet is delivered.
    pub open spec fn routed(self, bufs: PacketBuffersView, rx: PacketView, xi: int, new: bool) -> (
        MatterView,
        PacketBuffersView,
        Result<RxOutcome, ErrorCode>,
    ) {
        let (st, acked) = if rx.hdr.spec_is_ack() {
            self.acknowledged(xi, new)
        } else {
            (self, Ok(()))
        };
        match acked {
            Err(e) => (st, bufs, Err(e)),
            Ok(_) => if new {
                (st, bufs, Ok(RxOutcome::NewExchange(st.exchanges[xi].id)))
            } else if rx.hdr.spec_is_standalone_ack() {
                (st, bufs, Ok(RxOutcome::Acknowledged))
            } else {
                let (st2, bufs2, res) = st.delivered(bufs, rx, xi);
                match res {
                    Err(e) => (st2, bufs2, Err(e)),
                    Ok(_) => (st2, bufs2, Ok(RxOutcome::Delivered)),
                }
            },
        }
    }

    /// The state and the buffers after the inbound packet `rx` was processed
    /// at time `now`, and what became of the packet. Closed exchanges are
    /// purged first. While an ephemeral exchange is in flight the packet is
    /// not looked at. Else it is assigned to its exchange: a duplicate
    /// signals the transmit pump and is dropped; a full session table has a
    /// session evicted; a full exchange table has the packet answered with
    /// `Busy`; any other failure is the error of the whole step. A packet
    /// that was assigned is routed.
    pub open spec fn rx_processed(self, bufs: PacketBuffersView, rx: PacketView, now: u64) -> (
        MatterView,
        PacketBuffersView,
        Result<RxOutcome, ErrorCode>,
    ) {
        let st0 = self.purge();
        if st0.ephemeral is Some {
            (st0, bufs, Ok(RxOutcome::EphemeralPending))
        } else {
            let (st1, assignment) = st0.assigned(rx.hdr, now);
            match assignment {
                Err(ErrorCode::Duplicate) => (
                    MatterView { send_notification: true, ..st1 },
                    bufs,
                    Ok(RxOutcome::Duplicate),
                ),
                Err(ErrorCode::NoSpaceSessions) => {
                    let (st2, bufs2, res) = st1.evicted(bufs);
                    match res {
                        Err(e) => (st2, bufs2, Err(e)),
                        Ok(_) => (st2, bufs2, Ok(RxOutcome::Evicted)),
                    }
                },
                Err(ErrorCode::NoSpaceExchanges) => {
                    let (st2, bufs2, res) = st1.busy_sent(bufs, rx.hdr, now);
                    match res {
                        Err(e) => (st2, bufs2, Err(e)),
                        Ok(_) => (st2, bufs2, Ok(RxOutcome::Busy)),
                    }
                },
                Err(e) => (st1, bufs, Err(e)),
                Ok((xi, new)) => st1.routed(bufs, rx, xi, new),
            }
        }
    }

    /// The state after the transmit pump looked for a packet at time `now`,
    /// and the packet that goes out, if any. The ephemeral exchange comes
    /// before the exchange table, and in the table the first exchange that
    /// has something to send is served.
    pub open spec fn tx_scanned(self, bufs: PacketBuffersView, now: u64) -> (MatterView, Option<PacketView>) {
        if self.ephemeral is Some && self.ephemeral->0.spec_needs_send(now) {
            let (ctx, packet, wake) = sent_one(self.ephemeral->0, bufs.sx, self.wake);
            (MatterView { ephemeral: Some(ctx), wake, ..self }, Some(packet))
        } else {
            match first(self.exchanges, needs_send(now)) {
                Some(i) => {
                    let (ctx, packet, wake) = sent_one(self.exchanges[i], bufs.tx, self.wake);
                    (MatterView { exchanges: self.exchanges.update(i, ctx), wake, ..self }, Some(packet))
                },
                None => (self, None),
            }
        }
    }

    /// The state after the transmit pump was asked for the next packet at
    /// time `now`, and that packet, if there is one: closed exchanges are
    /// purged, then the exchanges are scanned.
    pub open spec fn tx_pulled(self, bufs: PacketBuffersView, now: u64) -> (MatterView, Option<PacketView>) {
        self.purge().tx_scanned(bufs, now)
    }

    /// The state after the ephemeral exchange was given up. It is given up
    /// only once it is closed, that is, once its packet has gone out.
    pub open spec fn ephemeral_completed(self) -> (MatterView, bool) {
        if self.ephemeral is Some && self.ephemeral->0.state is Closed {
            (MatterView { ephemeral: None, ..self }, true)
        } else {
            (self, false)
        }
    }

    /// Index of the exchange `id` if a handler may act on it: if the table
    /// holds it and it is active. Else it is `NoExchange`.
    pub open spec fn active_index(self, id: ExchangeId) -> Result<int, ErrorCode> {
        match first(self.exchanges, exchange_is(id)) {
            Some(i) => if self.exchanges[i].state is Active {
                Ok(i)
            } else {
                Err(ErrorCode::NoExchange)
            },
            None => Err(ErrorCode::NoExchange),
        }
    }

    /// Whether handler `slot` may start to wait: there is such a handler,
    /// and no exchange has it waiting already.
    pub open spec fn slot_free(self, slot: usize) -> bool {
        slot < MAX_EXCHANGES && first(self.exchanges, names_slot(slot)) is None
    }

    /// No exchange names a slot that is free.
    pub proof fn lemma_slot_free(self, slot: usize)
        requires
            self.slot_free(slot),
        ensures
            forall|i: int|
                0 <= i < self.exchanges.len() ==> (#[trigger] self.exchanges[i]).state.spec_slot() != Some(slot),
    {
        lemma_first(self.exchanges, names_slot(slot));
        assert forall|i: int| 0 <= i < self.exchanges.len() implies (#[trigger] self.exchanges[i]).state.spec_slot()
            != Some(slot) by {
            assert(!names_slot(slot)(self.exchanges[i]));
        }
    }

    /// What a handler asks for keeps the state in order.
    pub proof fn lemma_handler_steps_wf(self, bufs: PacketBuffersView, id: ExchangeId, slot: usize, tx: PacketView, last: bool)
        requires
            self.wf(),
        ensures
            self.construction_started(id, slot).0.wf(),
            self.queued(bufs, id, slot, tx, last).0.wf(),
            self.acknowledge_requested(id, slot).0.wf(),
            bufs.wf() ==> self.queued(bufs, id, slot, tx, last).1.wf(),
    {
        lemma_first(self.exchanges, exchange_is(id));
        if self.slot_free(slot) {
            self.lemma_slot_free(slot);
        }
    }

    /// The state after handler `slot` took up the new exchange `id`: the
    /// exchange is under construction and the receive multiplexer is told
    /// that the handler is ready. It is `NoExchange` where the exchange is
    /// not there or not active, and `NoSpace` where there is no handler
    /// `slot` or the handler waits on another exchange; then nothing is
    /// changed.
    pub open spec fn construction_started(self, id: ExchangeId, slot: usize) -> (MatterView, Result<(), ErrorCode>) {
        match self.active_index(id) {
            Err(e) => (self, Err(e)),
            Ok(i) => if !self.slot_free(slot) {
                (self, Err(ErrorCode::NoSpace))
            } else {
                (
                    MatterView {
                        exchanges: self.exchanges.update(
                            i,
                            ExchangeCtx {
                                state: ExchangeState::Construction { rx_slot: slot, notify: slot },
                                ..self.exchanges[i]
                            },
                        ),
                        construction_notification: true,
                        ..self
                    },
                    Ok(()),
                )
            },
        }
    }

    /// The state and the buffers after the receive multiplexer waited for
    /// the handler of the new exchange `id`, and whether the handler was
    /// ready. If it was, the packet `rx` lies in the handler's receive slot,
    /// the handler is woken and the exchange is active. It is `NoExchange`
    /// where the exchange is not there, `InvalidState` where it is not under
    /// construction, and `NoSpace` where the packet does not fit the slot.
    /// Unless the packet was handed over nothing is changed.
    pub open spec fn constructed(self, bufs: PacketBuffersView, rx: PacketView, id: ExchangeId) -> (
        MatterView,
        PacketBuffersView,
        Result<bool, ErrorCode>,
    ) {
        if !self.construction_notification {
            (self, bufs, Ok(false))
        } else {
            match first(self.exchanges, exchange_is(id)) {
                None => (self, bufs, Err(ErrorCode::NoExchange)),
                Some(i) => match self.exchanges[i].state {
                    ExchangeState::Construction { rx_slot, notify } => if PacketBuffers::fits_rx(rx_slot, rx) {
                        (
                            MatterView {
                                exchanges: self.exchanges.update(
                                    i,
                                    ExchangeCtx { state: ExchangeState::Active, ..self.exchanges[i] },
                                ),
                                wake: self.wake.update(notify as int, true),
                                construction_notification: false,
                                ..self
                            },
                            PacketBuffersView { rx: bufs.rx.update(rx_slot as int, rx), ..bufs },
                            Ok(true),
                        )
                    } else {
                        (self, bufs, Err(ErrorCode::NoSpace))
                    },
                    _ => (self, bufs, Err(ErrorCode::InvalidState)),
                },
            }
        }
    }

    /// The exchange `ctx` and the packet `tx` of its handler, made ready to
    /// go out: the packet is addressed to the peer of the exchange, carries
    /// the acknowledgement that the exchange owes, and is noted as awaiting
    /// its own acknowledgement if it is reliable.
    pub open spec fn outgoing(ctx: ExchangeCtx, tx: PacketView) -> (ExchangeCtx, PacketView, Result<(), ErrorCode>) {
        let (mrp, hdr, res) = ctx.mrp.sent(
            Header {
                ctr: tx.hdr.ctr,
                proto_id: tx.hdr.proto_id,
                opcode: tx.hdr.opcode,
                reliable: tx.hdr.reliable,
                ..ctx.reply_header()
            },
        );
        (ExchangeCtx { mrp, ..ctx }, PacketView { hdr, payload: tx.payload }, res)
    }

    /// The state and the buffers after handler `slot` queued the packet `tx`
    /// on the exchange `id`; `last` says whether it is the last packet of the
    /// exchange. The packet lies in the handler's transmit slot and the
    /// transmit pump is signalled. It is `NoExchange` where the exchange is
    /// not there or not active, `NoSpace` where there is no handler `slot`,
    /// the handler waits on another exchange or the packet does not fit, and
    /// `Invalid` where the packet is reliable and an earlier one still awaits
    /// its acknowledgement; then nothing is changed.
    pub open spec fn queued(self, bufs: PacketBuffersView, id: ExchangeId, slot: usize, tx: PacketView, last: bool) -> (
        MatterView,
        PacketBuffersView,
        Result<(), ErrorCode>,
    ) {
        match self.active_index(id) {
            Err(e) => (self, bufs, Err(e)),
            Ok(i) => {
                let (ctx, packet, res) = Self::outgoing(self.exchanges[i], tx);
                if !PacketBuffers::fits_tx(slot, tx) || !self.slot_free(slot) {
                    (self, bufs, Err(ErrorCode::NoSpace))
                } else if res is Err {
                    (self, bufs, Err(res->Err_0))
                } else {
                    (
                        MatterView {
                            exchanges: self.exchanges.update(
                                i,
                                ExchangeCtx {
                                    state: if last {
                                        ExchangeState::Complete { tx_slot: slot, notify: slot }
                                    } else {
                                        ExchangeState::ExchangeSend { tx_slot: slot, rx_slot: slot, notify: slot }
                                    },
                                    ..ctx
                                },
                            ),
                            send_notification: true,
                            ..self
                        },
                        PacketBuffersView { tx: bufs.tx.update(slot as int, packet), ..bufs },
                        Ok(()),
                    )
                }
            },
        }
    }

    /// The state after handler `slot` asked for the acknowledgement that the
    /// exchange `id` owes to go out on its own, and whether there is
    /// anything for the handler to wait for. Where the exchange neither owes
    /// nor awaits an acknowledgement nothing is changed. It is `NoExchange`
    /// where the exchange is not there or not active, and `NoSpace` where
    /// there is no handler `slot` or the handler waits on another exchange.
    pub open spec fn acknowledge_requested(self, id: ExchangeId, slot: usize) -> (MatterView, Result<bool, ErrorCode>) {
        match self.active_index(id) {
            Err(e) => (self, Err(e)),
            Ok(i) => if !self.slot_free(slot) {
                (self, Err(ErrorCode::NoSpace))
            } else if self.exchanges[i].mrp.spec_is_empty() {
                (self, Ok(false))
            } else {
                (
                    MatterView {
                        exchanges: self.exchanges.update(
                            i,
                            ExchangeCtx { state: ExchangeState::Acknowledge { notify: slot }, ..self.exchanges[i] },
                        ),
                        send_notification: true,
                        ..self
                    },
                    Ok(true),
                )
            },
        }
    }

    /// The state after notification `index` was taken, and whether it had
    /// been signalled.
    pub open spec fn notification_taken(self, index: usize) -> (MatterView, bool) {
        if index < self.wake.len() {
            (MatterView { wake: self.wake.update(index as int, false), ..self }, self.wake[index as int])
        } else {
            (self, false)
        }
    }
}

} // verus!
