//! What holds of the transport whatever it is fed.
//!
//! The laws are stated of the state machine of [`crate::model`], which the
//! executable transport is proved to follow step by step.

use vstd::prelude::*;
use crate::buffers::PacketBuffersView;
use crate::error::ErrorCode;
use crate::exchange::{exchange_is, is_closed, needs_send, ExchangeCtx, ExchangeId, ExchangeState, Role};
use crate::model::{
    close_session_report, ephemeral_slot, lemma_purged_wf, lemma_registered_wf, purged, reply_exchange,
    sent_one, unique_ids, MatterView, RxOutcome,
};
use crate::mrp::{AckEntry, MRP_STANDALONE_ACK_TIMEOUT_MS};
use crate::packet::{
    status_report_bytes, Header, PacketView, GENERAL_CODE_BUSY, GENERAL_CODE_SUCCESS, IM_STATUS_BUSY,
    MAX_EXCHANGES, OPCODE_STATUS_REPORT, PROTO_ID_SECURE_CHANNEL, SC_STATUS_BUSY,
    SC_STATUS_CLOSE_SESSION,
};
use crate::search::{first, lemma_first, lemma_first_is, lemma_first_none};
use crate::table::swap_removed;
use crate::session::{
    counter_seen, eviction_candidate, lemma_lru_upto, lru, post_received, session_is, SessionId,
    MAX_SESSIONS,
};

verus! {

/// One step of the transport: a call of the receive multiplexer, of the
/// transmit pump, of an exchange handler or of the node itself.
pub enum Step {
    /// The receive multiplexer takes in the packet `rx` at time `now`.
    ProcessRx { rx: PacketView, now: u64 },
    /// The receive multiplexer waits for the handler of a new exchange.
    WaitConstruction { rx: PacketView, id: ExchangeId },
    /// The receive multiplexer gives up the ephemeral exchange.
    CompleteEphemeral,
    /// The transmit pump asks for the next packet at time `now`.
    PullTx { now: u64 },
    /// A handler takes up a new exchange.
    ExchangeGet { id: ExchangeId, slot: usize },
    /// A handler sends a packet and waits for the reply.
    ExchangeSend { id: ExchangeId, slot: usize, tx: PacketView },
    /// A handler sends the last packet of its exchange.
    ExchangeComplete { id: ExchangeId, slot: usize, tx: PacketView },
    /// A handler asks for a standalone acknowledgement.
    ExchangeAcknowledge { id: ExchangeId, slot: usize },
    /// Someone takes a notification.
    TakeNotification { index: usize },
    /// The transmit pump takes its notification.
    TakeSendNotification,
    /// The node resets its transport.
    Reset,
}

/// The state and the buffers after one step.
pub open spec fn after_step(st: MatterView, bufs: PacketBuffersView, step: Step) -> (MatterView, PacketBuffersView) {
    match step {
        Step::ProcessRx { rx, now } => (st.rx_processed(bufs, rx, now).0, st.rx_processed(bufs, rx, now).1),
        Step::WaitConstruction { rx, id } => (st.constructed(bufs, rx, id).0, st.constructed(bufs, rx, id).1),
        Step::CompleteEphemeral => (st.ephemeral_completed().0, bufs),
        Step::PullTx { now } => (st.tx_pulled(bufs, now).0, bufs),
        Step::ExchangeGet { id, slot } => (st.construction_started(id, slot).0, bufs),
        Step::ExchangeSend { id, slot, tx } => (
            st.queued(bufs, id, slot, tx, false).0,
            st.queued(bufs, id, slot, tx, false).1,
        ),
        Step::ExchangeComplete { id, slot, tx } => (
            st.queued(bufs, id, slot, tx, true).0,
            st.queued(bufs, id, slot, tx, true).1,
        ),
        Step::ExchangeAcknowledge { id, slot } => (st.acknowledge_requested(id, slot).0, bufs),
        Step::TakeNotification { index } => (st.notification_taken(index).0, bufs),
        Step::TakeSendNotification => (MatterView { send_notification: false, ..st }, bufs),
        Step::Reset => (st.reset(), bufs),
    }
}

/// The state and the buffers after the steps `steps`, taken in their order.
pub open spec fn after_steps(st: MatterView, bufs: PacketBuffersView, steps: Seq<Step>) -> (
    MatterView,
    PacketBuffersView,
)
    decreases steps.len(),
{
    if steps.len() == 0 {
        (st, bufs)
    } else {
        let before = after_steps(st, bufs, steps.drop_last());
        after_step(before.0, before.1, steps.last())
    }
}

/// Processing an inbound packet keeps the state and the buffers in order.
pub proof fn lemma_rx_processed_wf(st: MatterView, bufs: PacketBuffersView, rx: PacketView, now: u64)
    requires
        st.wf(),
        bufs.wf(),
    ensures
        st.rx_processed(bufs, rx, now).0.wf(),
        st.rx_processed(bufs, rx, now).1.wf(),
{
    lemma_purged_wf(st.exchanges);
    let st0 = st.purge();
    if st0.ephemeral is None {
        st0.lemma_assigned_wf(rx.hdr, now);
        let (st1, assignment) = st0.assigned(rx.hdr, now);
        match assignment {
            Err(ErrorCode::NoSpaceSessions) => {
                if eviction_candidate(st1.sessions) is Some {
                    lemma_lru_upto(st1.sessions, st1.sessions.len() as int);
                }
            },
            _ => {},
        }
    }
}

/// Asking for the next packet to send keeps the state in order.
pub proof fn lemma_tx_pulled_wf(st: MatterView, bufs: PacketBuffersView, now: u64)
    requires
        st.wf(),
    ensures
        st.tx_pulled(bufs, now).0.wf(),
{
    lemma_purged_wf(st.exchanges);
    st.purge().lemma_tx_scanned_wf(bufs, now);
}

/// Every step keeps the state and the buffers in order.
pub proof fn lemma_step_wf(st: MatterView, bufs: PacketBuffersView, step: Step)
    requires
        st.wf(),
        bufs.wf(),
    ensures
        after_step(st, bufs, step).0.wf(),
        after_step(st, bufs, step).1.wf(),
{
    match step {
        Step::ProcessRx { rx, now } => {
            lemma_rx_processed_wf(st, bufs, rx, now);
        },
        Step::WaitConstruction { rx, id } => {
            lemma_first(st.exchanges, exchange_is(id));
        },
        Step::CompleteEphemeral => {},
        Step::PullTx { now } => {
            lemma_tx_pulled_wf(st, bufs, now);
        },
        Step::ExchangeGet { id, slot } => {
            st.lemma_handler_steps_wf(bufs, id, slot, PacketView::empty(), false);
        },
        Step::ExchangeSend { id, slot, tx } => {
            st.lemma_handler_steps_wf(bufs, id, slot, tx, false);
        },
        Step::ExchangeComplete { id, slot, tx } => {
            st.lemma_handler_steps_wf(bufs, id, slot, tx, true);
        },
        Step::ExchangeAcknowledge { id, slot } => {
            st.lemma_handler_steps_wf(bufs, id, slot, PacketView::empty(), false);
        },
        Step::TakeNotification { index } => {},
        Step::TakeSendNotification => {},
        Step::Reset => {},
    }
}

/// Capacity bounds. Whatever steps a node takes from its start, and whatever
/// packets it is fed, it never holds more than [`MAX_EXCHANGES`] exchanges or
/// more than [`MAX_SESSIONS`] sessions, and no two of its exchanges share an
/// id.
pub proof fn lemma_capacity_bounds(steps: Seq<Step>)
    ensures
        after_steps(MatterView::initial(), PacketBuffersView::empty(), steps).0.wf(),
        after_steps(MatterView::initial(), PacketBuffersView::empty(), steps).1.wf(),
        after_steps(MatterView::initial(), PacketBuffersView::empty(), steps).0.exchanges.len() <= MAX_EXCHANGES,
        after_steps(MatterView::initial(), PacketBuffersView::empty(), steps).0.sessions.len() <= MAX_SESSIONS,
        unique_ids(after_steps(MatterView::initial(), PacketBuffersView::empty(), steps).0.exchanges),
    decreases steps.len(),
{
    if steps.len() > 0 {
        lemma_capacity_bounds(steps.drop_last());
        let before = after_steps(MatterView::initial(), PacketBuffersView::empty(), steps.drop_last());
        lemma_step_wf(before.0, before.1, steps.last());
    }
}

/// Buffer partition. Whatever steps a node takes from its start, every
/// exchange that has a handler waiting names the buffers and the
/// notification of one handler slot only, no two exchanges name the same
/// slot, and the slot of the receive multiplexer is named by the ephemeral
/// exchange alone.
pub proof fn lemma_buffer_partition(steps: Seq<Step>)
    ensures
        ({
            let st = after_steps(MatterView::initial(), PacketBuffersView::empty(), steps).0;
            &&& forall|i: int|
                0 <= i < st.exchanges.len() ==> (#[trigger] st.exchanges[i]).state.coherent()
                    && (st.exchanges[i].state.spec_slot() matches Some(slot) ==> slot < MAX_EXCHANGES)
            &&& forall|i: int, j: int|
                0 <= i < j < st.exchanges.len() && (#[trigger] st.exchanges[i]).state.spec_slot() is Some
                    ==> st.exchanges[i].state.spec_slot() != (#[trigger] st.exchanges[j]).state.spec_slot()
            &&& st.ephemeral matches Some(e) ==> e.state.coherent() && (e.state.spec_slot() matches Some(slot)
                ==> slot == MAX_EXCHANGES)
        }),
{
    lemma_capacity_bounds(steps);
    let st = after_steps(MatterView::initial(), PacketBuffersView::empty(), steps).0;
    assert forall|i: int| 0 <= i < st.exchanges.len() implies (#[trigger] st.exchanges[i]).state.coherent()
        && (st.exchanges[i].state.spec_slot() matches Some(slot) ==> slot < MAX_EXCHANGES) by {
        assert(st.exchanges[i].state.wf(false));
    }
}

/// Closing wakes the handler. Whenever the transmit pump or an
/// acknowledgement closes an exchange, the notification of the handler that
/// waited on it is signalled in the same step, before anything can purge the
/// exchange.
pub proof fn lemma_closing_wakes_handler(st: MatterView, xi: int, pool: Seq<PacketView>)
    requires
        st.wf(),
        0 <= xi < st.exchanges.len(),
        st.exchanges[xi].state.spec_slot() is Some,
    ensures
        ({
            let slot = st.exchanges[xi].state.spec_slot()->0 as int;
            let (served, _, woken) = sent_one(st.exchanges[xi], pool, st.wake);
            let acked = st.acknowledged(xi, false).0;
            &&& served.state is Closed ==> woken[slot]
            &&& acked.exchanges[xi].state is Closed ==> acked.wake[slot]
        }),
{
    assert(st.exchanges[xi].state.wf(false));
}

/// Single ephemeral exchange. An ephemeral exchange that is in flight is
/// never replaced: whatever step is taken, it is still the one in flight
/// afterwards, and its packet still lies untouched in the status slot of the
/// receive multiplexer. It ends only by being given up, which happens only
/// once it is closed.
pub proof fn lemma_single_ephemeral(st: MatterView, bufs: PacketBuffersView, step: Step)
    requires
        st.wf(),
        bufs.wf(),
        st.ephemeral is Some,
    ensures
        after_step(st, bufs, step).1.sx[ephemeral_slot() as int] == bufs.sx[ephemeral_slot() as int],
        after_step(st, bufs, step).0.ephemeral is None ==> step is CompleteEphemeral
            && st.ephemeral->0.state is Closed,
        after_step(st, bufs, step).0.ephemeral matches Some(e) ==> e.id == st.ephemeral->0.id
            && (step is PullTx || e == st.ephemeral->0),
{
    match step {
        Step::PullTx { now } => {
            lemma_purged_wf(st.exchanges);
            lemma_first(st.purge().exchanges, needs_send(now));
        },
        Step::WaitConstruction { rx, id } => {
            lemma_first(st.exchanges, exchange_is(id));
        },
        Step::ExchangeSend { id, slot, tx } => {
            lemma_first(st.exchanges, exchange_is(id));
        },
        Step::ExchangeComplete { id, slot, tx } => {
            lemma_first(st.exchanges, exchange_is(id));
        },
        _ => {},
    }
}

/// An ephemeral exchange comes into being only when the receive multiplexer
/// answers a packet with `Busy` or evicts a session.
pub proof fn lemma_ephemeral_origin(st: MatterView, bufs: PacketBuffersView, step: Step)
    requires
        st.wf(),
        bufs.wf(),
        st.ephemeral is None,
        after_step(st, bufs, step).0.ephemeral is Some,
    ensures
        step matches Step::ProcessRx { rx, now } && (st.rx_processed(bufs, rx, now).2 matches Ok(outcome)
            && (outcome is Busy || outcome is Evicted)),
{
    match step {
        Step::PullTx { now } => {
            lemma_purged_wf(st.exchanges);
            lemma_first(st.purge().exchanges, needs_send(now));
        },
        _ => {},
    }
}

/// Closed purge. Processing an inbound packet removes every exchange that
/// was closed before the call: an exchange that is closed afterwards was
/// still open before, and was closed by the acknowledgement in this packet.
pub proof fn lemma_closed_purged(st: MatterView, bufs: PacketBuffersView, rx: PacketView, now: u64)
    requires
        st.wf(),
        bufs.wf(),
    ensures
        ({
            let after = st.rx_processed(bufs, rx, now).0.exchanges;
            forall|i: int|
                0 <= i < after.len() && (#[trigger] after[i]).state is Closed ==> exists|j: int|
                    0 <= j < st.exchanges.len() && (#[trigger] st.exchanges[j]).id == after[i].id
                        && st.exchanges[j].state is CompleteAcknowledge
        }),
{
    lemma_purged_wf(st.exchanges);
    let st0 = st.purge();
    let after = st.rx_processed(bufs, rx, now).0;
    if st0.ephemeral is None {
        st0.lemma_assigned_wf(rx.hdr, now);
        let (st1, assignment) = st0.assigned(rx.hdr, now);
        lemma_registered_wf(
            st0.exchanges,
            ExchangeId::spec_load(rx.hdr),
            Role::spec_complementary(rx.hdr.initiator),
            rx.hdr.initiator,
        );
        lemma_first(st0.exchanges, exchange_is(ExchangeId::spec_load(rx.hdr)));
        lemma_first(st0.sessions, session_is(SessionId::spec_load(rx.hdr)));
        assert forall|i: int|
            0 <= i < after.exchanges.len() && (#[trigger] after.exchanges[i]).state is Closed implies exists|j: int|
            0 <= j < st.exchanges.len() && (#[trigger] st.exchanges[j]).id == after.exchanges[i].id
                && st.exchanges[j].state is CompleteAcknowledge by {
            match assignment {
                Ok((xi, new)) => {
                    assert(i == xi);
                    assert(!new);
                    let before = st0.exchanges[xi];
                    assert(st0.exchanges.contains(before));
                    assert(st.exchanges.contains(before));
                    let j = choose|j: int| 0 <= j < st.exchanges.len() && st.exchanges[j] == before;
                    assert(st.exchanges[j].id == after.exchanges[i].id);
                },
                Err(_) => {
                    if i < st0.exchanges.len() {
                        assert(!(st0.exchanges[i].state is Closed));
                    }
                },
            }
        }
    }
}

/// Whether the receive multiplexer took the packet's message counter in:
/// it looked at the packet, found or made its session, and went on.
pub open spec fn counted(outcome: Result<RxOutcome, ErrorCode>) -> bool {
    outcome matches Ok(o) && (o is NewExchange || o is Delivered || o is Acknowledged || o is Duplicate || o is Busy)
}

/// A message counter that the receive multiplexer took in counts as seen on
/// its session from then on.
pub proof fn lemma_processed_counter_is_seen(st: MatterView, bufs: PacketBuffersView, rx: PacketView, now: u64)
    requires
        st.wf(),
        counted(st.rx_processed(bufs, rx, now).2),
    ensures
        counter_seen(st.rx_processed(bufs, rx, now).0.sessions, SessionId::spec_load(rx.hdr), rx.hdr.ctr),
{
    let sid = SessionId::spec_load(rx.hdr);
    let st0 = st.purge();
    lemma_first(st0.sessions, session_is(sid));
    let (sessions, found) = post_received(st0.sessions, rx.hdr, now);
    let si = found->Ok_0;
    let session = sessions[si];
    session.rx_ctr.lemma_received_keeps(rx.hdr.ctr, rx.hdr.ctr);
    let after = st.rx_processed(bufs, rx, now).0;
    assert(after.sessions[si].id == sid);
    assert(after.sessions[si].rx_ctr.seen(rx.hdr.ctr));
    assert forall|j: int| 0 <= j < si implies !session_is(sid)(#[trigger] after.sessions[j]) by {
        assert(after.sessions[j].id == st0.sessions[j].id);
        assert(!session_is(sid)(st0.sessions[j]));
    }
    lemma_first_is(after.sessions, session_is(sid), si);
}

/// No duplicate delivery. A packet whose message counter counts as seen on
/// its session wakes no handler: it is dropped as a duplicate (or not looked
/// at, while an ephemeral exchange is in flight), no notification of a
/// handler is signalled and no buffer is written.
pub proof fn lemma_seen_counter_not_delivered(st: MatterView, bufs: PacketBuffersView, rx: PacketView, now: u64)
    requires
        st.wf(),
        counter_seen(st.sessions, SessionId::spec_load(rx.hdr), rx.hdr.ctr),
    ensures
        st.rx_processed(bufs, rx, now).0.wake == st.wake,
        st.rx_processed(bufs, rx, now).0.exchanges == purged(st.exchanges),
        st.rx_processed(bufs, rx, now).1 == bufs,
        st.rx_processed(bufs, rx, now).2 matches Ok(outcome) && (outcome is Duplicate || outcome is EphemeralPending),
{
    lemma_first(st.sessions, session_is(SessionId::spec_load(rx.hdr)));
}

/// Whether the step leaves every session in the table: it is no reset, and
/// no packet that has a session evicted.
pub open spec fn keeps_sessions(st: MatterView, bufs: PacketBuffersView, step: Step) -> bool {
    match step {
        Step::Reset => false,
        Step::ProcessRx { rx, now } => st.rx_processed(bufs, rx, now).2 != Ok::<RxOutcome, ErrorCode>(RxOutcome::Evicted),
        _ => true,
    }
}

/// A message counter that counts as seen on a session goes on to do so when
/// a packet is assigned, whether or not the assignment succeeds.
pub proof fn lemma_assigned_keeps_seen(st: MatterView, rx: Header, now: u64, session: SessionId, ctr: u32)
    requires
        counter_seen(st.sessions, session, ctr),
    ensures
        counter_seen(st.assigned(rx, now).0.sessions, session, ctr),
{
    let sid = SessionId::spec_load(rx);
    lemma_first(st.sessions, session_is(sid));
    lemma_first(st.sessions, session_is(session));
    let k = first(st.sessions, session_is(session))->0;
    let (sessions, found) = post_received(st.sessions, rx, now);
    let after = st.assigned(rx, now).0.sessions;
    if found is Ok {
        let si = found->Ok_0;
        sessions[si].rx_ctr.lemma_received_keeps(rx.ctr, ctr);
        assert(after == sessions.update(
            si,
            crate::session::Session { rx_ctr: sessions[si].rx_ctr.received(rx.ctr), ..sessions[si] },
        ));
    } else {
        assert(after == st.sessions);
    }
    assert(after[k].id == session);
    assert(after[k].rx_ctr.seen(ctr));
    assert forall|j: int| 0 <= j < k implies !session_is(session)(#[trigger] after[j]) by {
        assert(after[j].id == st.sessions[j].id);
        assert(!session_is(session)(st.sessions[j]));
    }
    lemma_first_is(after, session_is(session), k);
}

/// Unless it has a session evicted, processing a packet leaves the sessions
/// as the assignment of the packet left them, or as they were.
pub proof fn lemma_rx_processed_sessions(st: MatterView, bufs: PacketBuffersView, rx: PacketView, now: u64)
    requires
        st.rx_processed(bufs, rx, now).2 != Ok::<RxOutcome, ErrorCode>(RxOutcome::Evicted),
    ensures
        st.rx_processed(bufs, rx, now).0.sessions == st.sessions || st.rx_processed(bufs, rx, now).0.sessions
            == st.purge().assigned(rx.hdr, now).0.sessions,
{
}

/// A message counter that counts as seen on a session goes on to do so
/// through every step that leaves the sessions in the table.
pub proof fn lemma_counter_seen_persists(st: MatterView, bufs: PacketBuffersView, step: Step, session: SessionId, ctr: u32)
    requires
        st.wf(),
        counter_seen(st.sessions, session, ctr),
        keeps_sessions(st, bufs, step),
    ensures
        counter_seen(after_step(st, bufs, step).0.sessions, session, ctr),
{
    match step {
        Step::ProcessRx { rx, now } => {
            lemma_rx_processed_sessions(st, bufs, rx, now);
            lemma_assigned_keeps_seen(st.purge(), rx.hdr, now, session, ctr);
        },
        _ => {},
    }
}

/// Whether each of the steps `steps`, taken in their order, leaves every
/// session in the table.
pub open spec fn keep_sessions(st: MatterView, bufs: PacketBuffersView, steps: Seq<Step>) -> bool
    decreases steps.len(),
{
    if steps.len() == 0 {
        true
    } else {
        let before = after_steps(st, bufs, steps.drop_last());
        keep_sessions(st, bufs, steps.drop_last()) && keeps_sessions(before.0, before.1, steps.last())
    }
}

/// No duplicate delivery, over time. Once the receive multiplexer took in a
/// packet, a later packet with the same message counter on the same session
/// wakes no handler and writes no buffer, whatever steps were taken in
/// between, as long as the session was neither evicted nor reset.
pub proof fn lemma_no_duplicate_delivery(
    st: MatterView,
    bufs: PacketBuffersView,
    first_rx: PacketView,
    first_now: u64,
    steps: Seq<Step>,
    second_rx: PacketView,
    second_now: u64,
)
    requires
        st.wf(),
        bufs.wf(),
        counted(st.rx_processed(bufs, first_rx, first_now).2),
        keep_sessions(
            st.rx_processed(bufs, first_rx, first_now).0,
            st.rx_processed(bufs, first_rx, first_now).1,
            steps,
        ),
        SessionId::spec_load(second_rx.hdr) == SessionId::spec_load(first_rx.hdr),
        second_rx.hdr.ctr == first_rx.hdr.ctr,
    ensures
        ({
            let start = st.rx_processed(bufs, first_rx, first_now);
            let before = after_steps(start.0, start.1, steps);
            let after = before.0.rx_processed(before.1, second_rx, second_now);
            &&& after.0.wake == before.0.wake
            &&& after.1 == before.1
            &&& after.2 matches Ok(outcome) && (outcome is Duplicate || outcome is EphemeralPending)
        }),
{
    let start = st.rx_processed(bufs, first_rx, first_now);
    lemma_rx_processed_wf(st, bufs, first_rx, first_now);
    lemma_processed_counter_is_seen(st, bufs, first_rx, first_now);
    lemma_seen_through(start.0, start.1, steps, SessionId::spec_load(first_rx.hdr), first_rx.hdr.ctr);
    let before = after_steps(start.0, start.1, steps);
    lemma_seen_counter_not_delivered(before.0, before.1, second_rx, second_now);
}

/// A message counter that counts as seen goes on to do so through steps
/// that leave the sessions in the table, and the state stays in order.
pub proof fn lemma_seen_through(st: MatterView, bufs: PacketBuffersView, steps: Seq<Step>, session: SessionId, ctr: u32)
    requires
        st.wf(),
        bufs.wf(),
        counter_seen(st.sessions, session, ctr),
        keep_sessions(st, bufs, steps),
    ensures
        after_steps(st, bufs, steps).0.wf(),
        after_steps(st, bufs, steps).1.wf(),
        counter_seen(after_steps(st, bufs, steps).0.sessions, session, ctr),
    decreases steps.len(),
{
    if steps.len() > 0 {
        lemma_seen_through(st, bufs, steps.drop_last(), session, ctr);
        let before = after_steps(st, bufs, steps.drop_last());
        lemma_step_wf(before.0, before.1, steps.last());
        lemma_counter_seen_persists(before.0, before.1, steps.last(), session, ctr);
    }
}

/// Ack soundness, first part. A reliable packet that is assigned to an
/// exchange leaves the exchange owing an acknowledgement of its message
/// counter, due [`MRP_STANDALONE_ACK_TIMEOUT_MS`] after its arrival.
pub proof fn lemma_reliable_packet_is_owed_ack(st: MatterView, rx: Header, now: u64)
    requires
        st.wf(),
        rx.reliable,
        st.assigned(rx, now).1 is Ok,
    ensures
        ({
            let xi = st.assigned(rx, now).1->Ok_0.0;
            st.assigned(rx, now).0.exchanges[xi].mrp.ack == Some(
                AckEntry { msg_ctr: rx.ctr, ack_timeout: (now + MRP_STANDALONE_ACK_TIMEOUT_MS) as u64 },
            )
        }),
{
    st.lemma_assigned_wf(rx, now);
    lemma_registered_wf(
        st.exchanges,
        ExchangeId::spec_load(rx),
        Role::spec_complementary(rx.initiator),
        rx.initiator,
    );
}

/// Ack soundness, second part. When the transmit pump serves an exchange
/// that has no packet queued, what goes out is a standalone acknowledgement
/// to the peer of the exchange that carries the message counter owed, and
/// the exchange owes it no longer. A queued packet goes out as it was
/// queued.
pub proof fn lemma_owed_ack_goes_out(ctx: ExchangeCtx, pool: Seq<PacketView>, wake: Seq<bool>)
    ensures
        !(ctx.state is ExchangeSend || ctx.state is Complete) ==> ({
            let (served, packet, _) = sent_one(ctx, pool, wake);
            &&& packet.hdr.spec_is_standalone_ack()
            &&& packet.hdr.peer == ctx.id.session_id.peer_addr
            &&& packet.hdr.exch_id == ctx.id.id
            &&& ctx.mrp.ack matches Some(entry) ==> packet.hdr.ack_ctr == Some(entry.msg_ctr)
            &&& served.mrp.ack is None
        }),
        ctx.state matches ExchangeState::ExchangeSend { tx_slot, .. } ==> sent_one(ctx, pool, wake).1
            == pool[tx_slot as int],
        ctx.state matches ExchangeState::Complete { tx_slot, .. } ==> sent_one(ctx, pool, wake).1
            == pool[tx_slot as int],
{
}

/// Piggyback acknowledgement. A packet that a handler queues carries the
/// acknowledgement that its exchange owes, and the exchange owes it no
/// longer: no standalone acknowledgement follows.
pub proof fn lemma_queued_packet_carries_ack(ctx: ExchangeCtx, tx: PacketView)
    requires
        ctx.mrp.ack is Some,
    ensures
        MatterView::outgoing(ctx, tx).1.hdr.ack_ctr == Some(ctx.mrp.ack->0.msg_ctr),
        MatterView::outgoing(ctx, tx).1.hdr.peer == ctx.id.session_id.peer_addr,
        MatterView::outgoing(ctx, tx).1.payload == tx.payload,
        MatterView::outgoing(ctx, tx).0.mrp.ack is None,
{
}

/// Ack soundness, third part. The transmit pump does not fall idle while
/// anything is due: when it reports no packet at time `now`, no exchange has
/// a packet queued, and none owes an acknowledgement that is overdue.
pub proof fn lemma_idle_pump_owes_nothing(st: MatterView, bufs: PacketBuffersView, now: u64)
    requires
        st.wf(),
        st.tx_pulled(bufs, now).1 is None,
    ensures
        ({
            let after = st.tx_pulled(bufs, now).0;
            &&& forall|i: int| 0 <= i < after.exchanges.len() ==> !(#[trigger] after.exchanges[i]).spec_needs_send(now)
            &&& after.ephemeral matches Some(e) ==> !e.spec_needs_send(now)
        }),
{
    let st0 = st.purge();
    lemma_first(st0.exchanges, needs_send(now));
    assert forall|i: int| 0 <= i < st0.exchanges.len() implies !(#[trigger] st0.exchanges[i]).spec_needs_send(now) by {
        assert(!needs_send(now)(st0.exchanges[i]));
    }
}

/// Ack soundness, fourth part. An exchange that the transmit pump has
/// served has nothing left to send at that time, unless it had both a
/// packet queued and an acknowledgement overdue; then the acknowledgement
/// is what is left, and the next call serves it.
pub proof fn lemma_served_exchange_is_settled(ctx: ExchangeCtx, pool: Seq<PacketView>, wake: Seq<bool>, now: u64)
    ensures
        !(ctx.state is ExchangeSend || ctx.state is Complete) ==> !sent_one(ctx, pool, wake).0.spec_needs_send(now),
        !ctx.mrp.spec_is_ack_ready(now) ==> !sent_one(ctx, pool, wake).0.spec_needs_send(now),
        ({
            let (once, _, woken) = sent_one(ctx, pool, wake);
            once.spec_needs_send(now) ==> !sent_one(once, pool, woken).0.spec_needs_send(now)
        }),
{
}

/// What the exchange `ctx` has to send at time `now`: one for a packet or an
/// acknowledgement that its handler queued, one for an acknowledgement that
/// is overdue.
pub open spec fn backlog_of(ctx: ExchangeCtx, now: u64) -> nat {
    let queued: nat = if ctx.state is Acknowledge || ctx.state is ExchangeSend || ctx.state is Complete {
        1
    } else {
        0
    };
    let overdue: nat = if ctx.mrp.spec_is_ack_ready(now) {
        1
    } else {
        0
    };
    queued + overdue
}

/// What the exchanges of `s` have to send at time `now`, taken together.
pub open spec fn backlog(s: Seq<ExchangeCtx>, now: u64) -> nat
    decreases s.len(),
{
    if s.len() == 0 {
        0
    } else {
        backlog(s.drop_last(), now) + backlog_of(s.last(), now)
    }
}

/// What the node has to send at time `now`: the backlog of its exchange
/// table and of its ephemeral exchange.
pub open spec fn total_backlog(st: MatterView, now: u64) -> nat {
    backlog(st.exchanges, now) + match st.ephemeral {
        Some(e) => backlog_of(e, now),
        None => 0,
    }
}

/// Replacing one exchange changes the backlog by what that exchange had to
/// send and what its replacement has.
pub proof fn lemma_backlog_update(s: Seq<ExchangeCtx>, index: int, ctx: ExchangeCtx, now: u64)
    requires
        0 <= index < s.len(),
    ensures
        backlog(s.update(index, ctx), now) + backlog_of(s[index], now) == backlog(s, now) + backlog_of(ctx, now),
    decreases s.len(),
{
    let u = s.update(index, ctx);
    if index == s.len() - 1 {
        assert(u.drop_last() =~= s.drop_last());
    } else {
        assert(u.drop_last() =~= s.drop_last().update(index, ctx));
        lemma_backlog_update(s.drop_last(), index, ctx, now);
    }
}

/// Purging takes the backlog of the closed exchanges away and adds none.
pub proof fn lemma_backlog_purged(s: Seq<ExchangeCtx>, now: u64)
    ensures
        backlog(purged(s), now) <= backlog(s, now),
    decreases s.len(),
{
    lemma_first(s, is_closed());
    match first(s, is_closed()) {
        Some(i) => {
            let u = s.update(i, s.last());
            lemma_backlog_update(s, i, s.last(), now);
            assert(u.last() == s.last());
            lemma_backlog_purged(swap_removed(s, i), now);
        },
        None => {},
    }
}

/// Ack soundness, fifth part. Every packet that the transmit pump sends
/// takes one off what the node has to send at that time. So a pump that is
/// asked again and again falls idle after as many packets as the backlog
/// counts, at most two for each exchange, and by then every acknowledgement
/// that was overdue has gone out.
pub proof fn lemma_pump_makes_progress(st: MatterView, bufs: PacketBuffersView, now: u64)
    requires
        st.wf(),
        st.tx_pulled(bufs, now).1 is Some,
    ensures
        total_backlog(st.tx_pulled(bufs, now).0, now) < total_backlog(st, now),
        total_backlog(st, now) <= 2 * (MAX_EXCHANGES + 1),
{
    lemma_purged_wf(st.exchanges);
    lemma_backlog_purged(st.exchanges, now);
    lemma_backlog_bound(st.exchanges, now);
    let st0 = st.purge();
    if st0.ephemeral is Some && st0.ephemeral->0.spec_needs_send(now) {
    } else {
        lemma_first(st0.exchanges, needs_send(now));
        let i = first(st0.exchanges, needs_send(now))->0;
        assert(needs_send(now)(st0.exchanges[i]));
        let (ctx, _, _) = sent_one(st0.exchanges[i], bufs.tx, st0.wake);
        lemma_backlog_update(st0.exchanges, i, ctx, now);
    }
}

/// No exchange has more than two things to send.
pub proof fn lemma_backlog_bound(s: Seq<ExchangeCtx>, now: u64)
    ensures
        backlog(s, now) <= 2 * s.len(),
    decreases s.len(),
{
    if s.len() > 0 {
        lemma_backlog_bound(s.drop_last(), now);
    }
}

/// Busy on overflow. When every slot of the exchange table is taken by a
/// live exchange and a packet arrives that would open one more, on a session
/// that exists or can be made, then the packet is answered with `Busy`: no
/// exchange is added, and the next packet that the transmit pump sends,
/// whenever it is asked, is a status report to the sender of the packet, on
/// the packet's exchange number, that names the packet's protocol and that
/// protocol's code for busy, and that acknowledges the packet if it was
/// reliable.
pub proof fn lemma_busy_on_overflow(st: MatterView, bufs: PacketBuffersView, rx: PacketView, now: u64, later: u64)
    requires
        st.wf(),
        bufs.wf(),
        st.ephemeral is None,
        purged(st.exchanges).len() == MAX_EXCHANGES,
        rx.hdr.initiator,
        first(st.sessions, session_is(SessionId::spec_load(rx.hdr))) is Some || st.sessions.len() < MAX_SESSIONS,
        !counter_seen(st.sessions, SessionId::spec_load(rx.hdr), rx.hdr.ctr),
        first(purged(st.exchanges), exchange_is(ExchangeId::spec_load(rx.hdr))) is None,
        rx.hdr.reliable ==> now + MRP_STANDALONE_ACK_TIMEOUT_MS <= u64::MAX,
    ensures
        ({
            let (after, bufs_after, outcome) = st.rx_processed(bufs, rx, now);
            let sent = after.tx_pulled(bufs_after, later).1;
            &&& outcome == Ok::<RxOutcome, ErrorCode>(RxOutcome::Busy)
            &&& after.exchanges == purged(st.exchanges)
            &&& sent matches Some(report)
            &&& report.hdr.peer == rx.hdr.peer
            &&& report.hdr.sess_id == rx.hdr.sess_id
            &&& report.hdr.exch_id == rx.hdr.exch_id
            &&& report.hdr.proto_id == PROTO_ID_SECURE_CHANNEL
            &&& report.hdr.opcode == OPCODE_STATUS_REPORT
            &&& report.hdr.initiator == !rx.hdr.initiator
            &&& report.hdr.ack_ctr == (if rx.hdr.reliable {
                Some(rx.hdr.ctr)
            } else {
                None
            })
            &&& report.payload == status_report_bytes(
                GENERAL_CODE_BUSY,
                rx.hdr.proto_id as u32,
                if rx.hdr.proto_id == PROTO_ID_SECURE_CHANNEL {
                    SC_STATUS_BUSY
                } else {
                    IM_STATUS_BUSY
                },
            )
        }),
{
    lemma_purged_wf(st.exchanges);
    let st0 = st.purge();
    lemma_first(st0.sessions, session_is(SessionId::spec_load(rx.hdr)));
    st0.lemma_assigned_wf(rx.hdr, now);
    let (st1, assignment) = st0.assigned(rx.hdr, now);
    assert(assignment == Err::<(int, bool), ErrorCode>(ErrorCode::NoSpaceExchanges));
    let (after, bufs_after, outcome) = st.rx_processed(bufs, rx, now);
    assert(reply_exchange(rx.hdr, now) is Ok);
    assert(outcome == Ok::<RxOutcome, ErrorCode>(RxOutcome::Busy));
    lemma_purged_wf(after.exchanges);
    assert(after.purge().ephemeral == after.ephemeral);
}

/// Close on eviction. When the session table is full and a packet arrives
/// that opens a session, the least recently used session is evicted: it
/// leaves the table, and the next packet that the transmit pump sends,
/// whenever it is asked, is the `CloseSession` report to the peer of that
/// session. The new session is not made in this call, so that nothing can
/// be sent on it before.
pub proof fn lemma_close_on_eviction(st: MatterView, bufs: PacketBuffersView, rx: PacketView, now: u64, later: u64)
    requires
        st.wf(),
        bufs.wf(),
        st.ephemeral is None,
        st.sessions.len() == MAX_SESSIONS,
        first(st.sessions, session_is(SessionId::spec_load(rx.hdr))) is None,
        rx.hdr.initiator,
    ensures
        ({
            let (after, bufs_after, outcome) = st.rx_processed(bufs, rx, now);
            let victim = st.sessions[lru(st.sessions)];
            &&& 0 <= lru(st.sessions) < st.sessions.len()
            &&& forall|j: int| 0 <= j < st.sessions.len() ==> victim.last_use <= (#[trigger] st.sessions[j]).last_use
            &&& outcome == Ok::<RxOutcome, ErrorCode>(RxOutcome::Evicted)
            &&& after.sessions == st.sessions.remove(lru(st.sessions))
            &&& first(after.sessions, session_is(SessionId::spec_load(rx.hdr))) is None
            &&& after.tx_pulled(bufs_after, later).1 == Some(close_session_report(victim.id))
            &&& close_session_report(victim.id).hdr.peer == victim.id.peer_addr
            &&& close_session_report(victim.id).payload == status_report_bytes(
                GENERAL_CODE_SUCCESS,
                PROTO_ID_SECURE_CHANNEL as u32,
                SC_STATUS_CLOSE_SESSION,
            )
        }),
{
    lemma_purged_wf(st.exchanges);
    lemma_lru_upto(st.sessions, st.sessions.len() as int);
    let sid = SessionId::spec_load(rx.hdr);
    lemma_first(st.sessions, session_is(sid));
    let (after, bufs_after, outcome) = st.rx_processed(bufs, rx, now);
    assert(outcome == Ok::<RxOutcome, ErrorCode>(RxOutcome::Evicted));
    assert forall|j: int| 0 <= j < after.sessions.len() implies !session_is(sid)(#[trigger] after.sessions[j]) by {
        if j < lru(st.sessions) {
            assert(!session_is(sid)(st.sessions[j]));
        } else {
            assert(!session_is(sid)(st.sessions[j + 1]));
        }
    }
    lemma_first_none(after.sessions, session_is(sid));
    lemma_purged_wf(after.exchanges);
    assert(after.purge().ephemeral == after.ephemeral);
}

} // verus!
