use matter_transport::buffers::PacketBuffers;
use matter_transport::error::ErrorCode;
use matter_transport::exchange::{ExchangeCtx, ExchangeId, ExchangeState, Role};
use matter_transport::model::RxOutcome;
use matter_transport::mrp::AckEntry;
use matter_transport::packet::{
    Address, Header, Packet, Protocol, MAX_EXCHANGES, MAX_RX_BUF_SIZE, MAX_TX_BUF_SIZE,
    OPCODE_MRP_STANDALONE_ACK, OPCODE_STATUS_REPORT, PROTO_ID_INTERACTION_MODEL, PROTO_ID_SECURE_CHANNEL,
};
use matter_transport::session::{SessionId, MAX_SESSIONS};
use matter_transport::transport::{find_closed, find_exchange, find_pending, find_slot, Matter};

fn addr(n: u128) -> Address {
    Address { ip: 0xfe80_0000_0000_0000_0000_0000_0000_0000 + n, port: 5540 }
}

fn packet(from: Address, ctr: u32, exch_id: u16, initiator: bool, reliable: bool) -> Packet {
    let mut hdr = Header::empty();
    hdr.peer = from;
    hdr.ctr = ctr;
    hdr.exch_id = exch_id;
    hdr.proto_id = PROTO_ID_INTERACTION_MODEL;
    hdr.opcode = 2;
    hdr.initiator = initiator;
    hdr.reliable = reliable;
    Packet::with_payload(hdr, vec![ctr as u8, exch_id as u8])
}

fn payload(ctr: u32, reliable: bool) -> Packet {
    let mut hdr = Header::empty();
    hdr.ctr = ctr;
    hdr.proto_id = PROTO_ID_INTERACTION_MODEL;
    hdr.opcode = 5;
    hdr.reliable = reliable;
    Packet::with_payload(hdr, vec![0x11, 0x22, 0x33])
}

fn exchange_id(from: Address, exch_id: u16) -> ExchangeId {
    ExchangeId::load(&packet(from, 0, exch_id, true, false).hdr)
}

fn open(matter: &mut Matter, buffers: &mut PacketBuffers, rx: &Packet, slot: usize, now: u64) -> ExchangeId {
    let id = match matter.process_rx(buffers, rx, now) {
        Ok(RxOutcome::NewExchange(id)) => id,
        other => panic!("no new exchange: {:?}", other),
    };
    assert_eq!(matter.exchange_get(&id, slot), Ok(()));
    assert_eq!(matter.wait_construction(buffers, rx, &id), Ok(true));
    assert!(matter.take_notification(slot));
    id
}

fn ctx_in(state: ExchangeState, exch_id: u16) -> ExchangeCtx {
    let mut ctx = ExchangeCtx::new(exchange_id(addr(1), exch_id), Role::Responder);
    ctx.state = state;
    ctx
}

#[test]
fn register_finds_or_adds() {
    let mut table: heapless::Vec<ExchangeCtx, MAX_EXCHANGES> = heapless::Vec::new();
    let a = exchange_id(addr(1), 1);
    let b = exchange_id(addr(1), 2);
    assert_eq!(Matter::register(&mut table, a, Role::Responder, true), Ok((0, true)));
    assert_eq!(Matter::register(&mut table, b, Role::Responder, true), Ok((1, true)));
    assert_eq!(table.len(), 2);
    assert_eq!(table[1], ExchangeCtx::new(b, Role::Responder));
    assert_eq!(Matter::register(&mut table, a, Role::Responder, true), Ok((0, false)));
    assert_eq!(Matter::register(&mut table, b, Role::Responder, false), Ok((1, false)));
    assert_eq!(table.len(), 2);
}

#[test]
fn register_refuses_wrong_role_and_unknown_exchange() {
    let mut table: heapless::Vec<ExchangeCtx, MAX_EXCHANGES> = heapless::Vec::new();
    let a = exchange_id(addr(1), 1);
    assert_eq!(Matter::register(&mut table, a, Role::Responder, false), Err(ErrorCode::NoExchange));
    assert_eq!(table.len(), 0);
    assert_eq!(Matter::register(&mut table, a, Role::Responder, true), Ok((0, true)));
    assert_eq!(Matter::register(&mut table, a, Role::Initiator, true), Err(ErrorCode::NoExchange));
    assert_eq!(table.len(), 1);
}

#[test]
fn register_refuses_when_the_table_is_full() {
    let mut table: heapless::Vec<ExchangeCtx, MAX_EXCHANGES> = heapless::Vec::new();
    for n in 0..MAX_EXCHANGES {
        let id = exchange_id(addr(1), n as u16);
        assert_eq!(Matter::register(&mut table, id, Role::Responder, true), Ok((n, true)));
    }
    let extra = exchange_id(addr(1), 100);
    assert_eq!(Matter::register(&mut table, extra, Role::Responder, true), Err(ErrorCode::NoSpaceExchanges));
    assert_eq!(table.len(), MAX_EXCHANGES);
    let known = exchange_id(addr(1), 3);
    assert_eq!(Matter::register(&mut table, known, Role::Responder, true), Ok((3, false)));
}

#[test]
fn finders_return_the_first_match() {
    let table = vec![
        ctx_in(ExchangeState::Active, 1),
        ctx_in(ExchangeState::Closed, 2),
        ctx_in(ExchangeState::Complete { tx_slot: 0, notify: 0 }, 3),
        ctx_in(ExchangeState::Closed, 4),
        ctx_in(ExchangeState::Acknowledge { notify: 1 }, 5),
    ];
    assert_eq!(find_exchange(&table, &exchange_id(addr(1), 3)), Some(2));
    assert_eq!(find_exchange(&table, &exchange_id(addr(1), 9)), None);
    assert_eq!(find_exchange(&table, &exchange_id(addr(2), 3)), None);
    assert_eq!(find_closed(&table), Some(1));
    assert_eq!(find_closed(&table[..1]), None);
    assert_eq!(find_pending(&table, 0), Some(2));
    assert_eq!(find_pending(&table[..2], 0), None);
    assert_eq!(find_pending(&[], 0), None);
    assert_eq!(find_slot(&table, 0), Some(2));
    assert_eq!(find_slot(&table, 1), Some(4));
    assert_eq!(find_slot(&table, 2), None);
    let mut owing = ctx_in(ExchangeState::Active, 6);
    owing.mrp.ack = Some(AckEntry { msg_ctr: 1, ack_timeout: 50 });
    assert_eq!(find_pending(&[owing], 49), None);
    assert_eq!(find_pending(&[owing], 50), Some(0));
}

#[test]
fn assign_exchange_reports_each_failure() {
    let mut matter = Matter::new();
    let unknown = packet(addr(1), 1, 1, false, false);
    assert_eq!(matter.assign_exchange(&unknown.hdr, 0), Err(ErrorCode::NoExchange));
    assert_eq!(matter.session_count(), 0);

    let first = packet(addr(1), 1, 1, true, true);
    assert_eq!(matter.assign_exchange(&first.hdr, 0), Ok((0, true)));
    assert_eq!(matter.assign_exchange(&first.hdr, 1), Err(ErrorCode::Duplicate));
    assert_eq!(matter.exchange_count(), 1);

    let second = packet(addr(1), 2, 1, true, true);
    assert_eq!(matter.assign_exchange(&second.hdr, 2), Err(ErrorCode::Invalid));
    let third = packet(addr(1), 3, 1, true, false);
    assert_eq!(matter.assign_exchange(&third.hdr, 3), Ok((0, false)));

    let orphan = packet(addr(1), 4, 9, false, false);
    assert_eq!(matter.assign_exchange(&orphan.hdr, 4), Err(ErrorCode::NoExchange));
    assert_eq!(matter.assign_exchange(&orphan.hdr, 5), Err(ErrorCode::Duplicate));
}

#[test]
fn assign_exchange_reports_full_tables() {
    let mut matter = Matter::new();
    for n in 0..MAX_EXCHANGES {
        let rx = packet(addr(1), n as u32, n as u16, true, false);
        assert_eq!(matter.assign_exchange(&rx.hdr, 0), Ok((n, true)));
    }
    let extra = packet(addr(1), 100, 100, true, false);
    assert_eq!(matter.assign_exchange(&extra.hdr, 0), Err(ErrorCode::NoSpaceExchanges));
    assert_eq!(matter.exchange_count(), MAX_EXCHANGES);

    for n in 1..MAX_SESSIONS {
        let rx = packet(addr(1 + n as u128), 1, 1, true, false);
        assert_eq!(matter.assign_exchange(&rx.hdr, 0), Err(ErrorCode::NoSpaceExchanges));
    }
    assert_eq!(matter.session_count(), MAX_SESSIONS);
    let newcomer = packet(addr(500), 1, 1, true, false);
    assert_eq!(matter.assign_exchange(&newcomer.hdr, 0), Err(ErrorCode::NoSpaceSessions));
    assert_eq!(matter.session_count(), MAX_SESSIONS);
}

#[test]
fn capacity_is_never_exceeded() {
    let mut matter = Matter::new();
    let mut buffers = PacketBuffers::new();
    let mut dest = Packet::new();
    for n in 0..100usize {
        let rx = packet(addr(n as u128), 1, n as u16, true, n % 2 == 0);
        let _ = matter.process_rx(&mut buffers, &rx, n as u64);
        assert!(matter.exchange_count() <= MAX_EXCHANGES);
        assert!(matter.session_count() <= MAX_SESSIONS);
        if n % 3 == 0 {
            let _ = matter.pull_tx(&buffers, &mut dest, n as u64);
            let _ = matter.complete_ephemeral();
        }
    }
    assert_eq!(matter.exchange_count(), MAX_EXCHANGES);
    assert!(matter.session_count() >= MAX_SESSIONS - 1);
}

#[test]
fn ack_on_a_new_exchange_is_invalid() {
    let mut matter = Matter::new();
    let mut buffers = PacketBuffers::new();
    let mut rx = packet(addr(1), 1, 1, true, false);
    rx.hdr.ack_ctr = Some(5);
    assert_eq!(matter.process_rx(&mut buffers, &rx, 0), Err(ErrorCode::Invalid));
    assert!(ErrorCode::Invalid.is_fatal_to_rx());
}

#[test]
fn packet_for_no_exchange_is_refused() {
    let mut matter = Matter::new();
    let mut buffers = PacketBuffers::new();
    let rx = packet(addr(1), 1, 1, false, true);
    assert_eq!(matter.process_rx(&mut buffers, &rx, 0), Err(ErrorCode::NoExchange));
    assert_eq!(matter.exchange_count(), 0);
    assert_eq!(matter.session_count(), 0);
    for slot in 0..=MAX_EXCHANGES {
        assert!(!matter.take_notification(slot));
    }
}

#[test]
fn data_for_a_busy_handler_has_no_defined_handling() {
    let mut matter = Matter::new();
    let mut buffers = PacketBuffers::new();
    let rx = packet(addr(1), 1, 1, true, false);
    let id = open(&mut matter, &mut buffers, &rx, 0, 0);
    let next = packet(addr(1), 2, 1, true, false);
    assert_eq!(matter.process_rx(&mut buffers, &next, 1), Err(ErrorCode::InvalidState));
    assert_eq!(matter.exchange(&id).unwrap().state, ExchangeState::Active);
    let mut ack = packet(addr(1), 3, 1, true, false);
    ack.hdr.proto_id = PROTO_ID_SECURE_CHANNEL;
    ack.hdr.opcode = OPCODE_MRP_STANDALONE_ACK;
    ack.hdr.ack_ctr = Some(9);
    assert_eq!(matter.process_rx(&mut buffers, &ack, 2), Err(ErrorCode::InvalidState));
    assert!(!matter.take_notification(0));
}

#[test]
fn request_and_reply_round() {
    let mut matter = Matter::new();
    let mut buffers = PacketBuffers::new();
    let rx = packet(addr(1), 10, 1, true, true);
    let id = open(&mut matter, &mut buffers, &rx, 2, 0);

    assert_eq!(matter.exchange_send(&mut buffers, &id, 2, &payload(700, true)), Ok(()));
    assert_eq!(
        matter.exchange(&id).unwrap().state,
        ExchangeState::ExchangeSend { tx_slot: 2, rx_slot: 2, notify: 2 }
    );
    let queued = buffers.tx(2).unwrap().clone();
    assert_eq!(queued.hdr.ack_ctr, Some(10));
    assert_eq!(queued.hdr.peer, addr(1));
    assert_eq!(queued.hdr.ctr, 700);
    assert_eq!(queued.payload, vec![0x11, 0x22, 0x33]);
    assert_eq!(matter.exchange(&id).unwrap().mrp.retrans, Some(700));
    assert_eq!(matter.exchange(&id).unwrap().mrp.ack, None);

    let mut dest = Packet::new();
    assert_eq!(matter.pull_tx(&buffers, &mut dest, 1), Ok(true));
    assert_eq!(dest, queued);
    assert_eq!(
        matter.exchange(&id).unwrap().state,
        ExchangeState::ExchangeRecv { tx_slot: 2, tx_acknowledged: false, rx_slot: 2, notify: 2 }
    );
    assert_eq!(matter.pull_tx(&buffers, &mut dest, 500), Ok(false));

    let mut answer = packet(addr(1), 11, 1, true, true);
    answer.hdr.ack_ctr = Some(700);
    assert_eq!(matter.process_rx(&mut buffers, &answer, 2), Ok(RxOutcome::Delivered));
    assert_eq!(buffers.rx(2), Some(&answer));
    assert!(matter.take_notification(2));
    let ctx = matter.exchange(&id).unwrap();
    assert_eq!(ctx.state, ExchangeState::Active);
    assert_eq!(ctx.mrp.retrans, None);
    assert_eq!(ctx.mrp.ack, Some(AckEntry { msg_ctr: 11, ack_timeout: 102 }));
}

#[test]
fn standalone_ack_marks_the_sent_packet() {
    let mut matter = Matter::new();
    let mut buffers = PacketBuffers::new();
    let rx = packet(addr(1), 10, 1, true, false);
    let id = open(&mut matter, &mut buffers, &rx, 0, 0);
    assert_eq!(matter.exchange_send(&mut buffers, &id, 0, &payload(700, true)), Ok(()));
    let mut dest = Packet::new();
    assert_eq!(matter.pull_tx(&buffers, &mut dest, 1), Ok(true));

    let mut ack = packet(addr(1), 11, 1, true, false);
    ack.hdr.proto_id = PROTO_ID_SECURE_CHANNEL;
    ack.hdr.opcode = OPCODE_MRP_STANDALONE_ACK;
    ack.hdr.ack_ctr = Some(700);
    assert_eq!(matter.process_rx(&mut buffers, &ack, 2), Ok(RxOutcome::Acknowledged));
    assert_eq!(
        matter.exchange(&id).unwrap().state,
        ExchangeState::ExchangeRecv { tx_slot: 0, tx_acknowledged: true, rx_slot: 0, notify: 0 }
    );
    assert!(!matter.take_notification(0));
    assert_ne!(buffers.rx(0), Some(&ack));
}

#[test]
fn handler_asks_for_a_standalone_ack() {
    let mut matter = Matter::new();
    let mut buffers = PacketBuffers::new();
    let rx = packet(addr(1), 10, 4, true, true);
    let id = open(&mut matter, &mut buffers, &rx, 1, 0);
    assert_eq!(matter.exchange_acknowledge(&id, 1), Ok(true));
    assert!(matter.take_send_notification());
    assert_eq!(matter.exchange(&id).unwrap().state, ExchangeState::Acknowledge { notify: 1 });
    assert_eq!(matter.exchange_acknowledge(&id, 1), Err(ErrorCode::NoExchange));

    let mut dest = Packet::new();
    assert_eq!(matter.pull_tx(&buffers, &mut dest, 1), Ok(true));
    assert_eq!(dest.hdr.opcode, OPCODE_MRP_STANDALONE_ACK);
    assert_eq!(dest.hdr.proto_id, PROTO_ID_SECURE_CHANNEL);
    assert_eq!(dest.hdr.ack_ctr, Some(10));
    assert_eq!(dest.hdr.exch_id, 4);
    assert!(matter.take_notification(1));
    let ctx = matter.exchange(&id).unwrap();
    assert_eq!(ctx.state, ExchangeState::Active);
    assert_eq!(ctx.mrp.ack, None);

    assert_eq!(matter.exchange_acknowledge(&id, 1), Ok(false));
    assert!(!matter.take_send_notification());
    assert_eq!(matter.exchange_acknowledge(&id, MAX_EXCHANGES), Err(ErrorCode::NoSpace));
    assert_eq!(matter.pull_tx(&buffers, &mut dest, 1000), Ok(false));
}

#[test]
fn unreliable_last_packet_closes_at_once() {
    let mut matter = Matter::new();
    let mut buffers = PacketBuffers::new();
    let rx = packet(addr(1), 10, 1, true, false);
    let id = open(&mut matter, &mut buffers, &rx, 3, 0);
    assert_eq!(matter.exchange_complete(&mut buffers, &id, 3, &payload(700, false)), Ok(()));
    let mut dest = Packet::new();
    assert_eq!(matter.pull_tx(&buffers, &mut dest, 1), Ok(true));
    assert!(!dest.hdr.reliable);
    assert_eq!(matter.exchange(&id).unwrap().state, ExchangeState::Closed);
    assert!(matter.take_notification(3));
    assert_eq!(matter.exchange_count(), 1);
    assert_eq!(matter.purge(), Ok(()));
    assert_eq!(matter.exchange_count(), 0);
}

#[test]
fn closed_exchanges_are_purged_before_the_next_packet_is_assigned() {
    let mut matter = Matter::new();
    let mut buffers = PacketBuffers::new();
    let mut ids = Vec::new();
    for n in 0..MAX_EXCHANGES {
        let rx = packet(addr(1), n as u32, n as u16, true, false);
        ids.push(open(&mut matter, &mut buffers, &rx, n, 0));
    }
    let mut dest = Packet::new();
    for n in [1usize, 4] {
        assert_eq!(matter.exchange_complete(&mut buffers, &ids[n], n, &payload(700, false)), Ok(()));
        assert_eq!(matter.pull_tx(&buffers, &mut dest, 1), Ok(true));
    }
    assert_eq!(matter.exchange_count(), MAX_EXCHANGES - 1);
    assert_eq!(matter.exchange(&ids[4]).unwrap().state, ExchangeState::Closed);

    let rx = packet(addr(1), 100, 100, true, false);
    let newest = match matter.process_rx(&mut buffers, &rx, 2) {
        Ok(RxOutcome::NewExchange(id)) => id,
        other => panic!("no new exchange: {:?}", other),
    };
    assert_eq!(matter.exchange_count(), MAX_EXCHANGES - 1);
    assert_eq!(matter.exchange(&ids[1]), None);
    assert_eq!(matter.exchange(&ids[4]), None);
    for n in [0usize, 2, 3, 5, 6, 7] {
        assert_eq!(matter.exchange(&ids[n]).unwrap().state, ExchangeState::Active);
    }
    assert_eq!(matter.exchange(&newest).unwrap().state, ExchangeState::Active);
}

#[test]
fn purge_moves_the_last_exchange_into_the_gap() {
    let mut matter = Matter::new();
    let mut buffers = PacketBuffers::new();
    let mut ids = Vec::new();
    for n in 0..4usize {
        let rx = packet(addr(1), n as u32, n as u16, true, true);
        ids.push(open(&mut matter, &mut buffers, &rx, n, 0));
    }
    let mut dest = Packet::new();
    assert_eq!(matter.exchange_complete(&mut buffers, &ids[0], 0, &payload(700, false)), Ok(()));
    assert_eq!(matter.pull_tx(&buffers, &mut dest, 1), Ok(true));
    assert_eq!(dest.hdr.exch_id, 0);

    assert_eq!(matter.pull_tx(&buffers, &mut dest, 100), Ok(true));
    assert_eq!(dest.hdr.exch_id, 3);
    assert_eq!(dest.hdr.ack_ctr, Some(3));
    assert_eq!(matter.pull_tx(&buffers, &mut dest, 100), Ok(true));
    assert_eq!(dest.hdr.exch_id, 1);
    assert_eq!(matter.pull_tx(&buffers, &mut dest, 100), Ok(true));
    assert_eq!(dest.hdr.exch_id, 2);
    assert_eq!(matter.pull_tx(&buffers, &mut dest, 100), Ok(false));
    assert_eq!(matter.exchange_count(), 3);
}

#[test]
fn ephemeral_reply_goes_out_before_application_traffic() {
    let mut matter = Matter::new();
    let mut buffers = PacketBuffers::new();
    let mut ids = Vec::new();
    for n in 0..MAX_EXCHANGES {
        let rx = packet(addr(1), n as u32, n as u16, true, false);
        ids.push(open(&mut matter, &mut buffers, &rx, n, 0));
    }
    assert_eq!(matter.exchange_send(&mut buffers, &ids[0], 0, &payload(700, false)), Ok(()));
    let extra = packet(addr(2), 1, 50, true, false);
    assert_eq!(matter.process_rx(&mut buffers, &extra, 1), Ok(RxOutcome::Busy));
    assert_eq!(matter.session_count(), 2);

    let mut dest = Packet::new();
    assert_eq!(matter.pull_tx(&buffers, &mut dest, 2), Ok(true));
    assert_eq!(dest.hdr.peer, addr(2));
    assert_eq!(dest.hdr.opcode, OPCODE_STATUS_REPORT);
    assert_eq!(dest.hdr.ack_ctr, None);
    assert_eq!(dest.payload, vec![8, 0, 1, 0, 0, 0, 0x9c, 0]);
    assert_eq!(matter.pull_tx(&buffers, &mut dest, 2), Ok(true));
    assert_eq!(dest.hdr.peer, addr(1));
    assert_eq!(dest.hdr.ctr, 700);
    assert_eq!(matter.pull_tx(&buffers, &mut dest, 2), Ok(false));
}

#[test]
fn only_one_ephemeral_exchange_is_in_flight() {
    let mut matter = Matter::new();
    let mut buffers = PacketBuffers::new();
    for n in 0..MAX_EXCHANGES {
        let rx = packet(addr(1), n as u32, n as u16, true, false);
        open(&mut matter, &mut buffers, &rx, n, 0);
    }
    let first = packet(addr(2), 1, 50, true, false);
    let second = packet(addr(3), 1, 60, true, false);
    assert_eq!(matter.process_rx(&mut buffers, &first, 1), Ok(RxOutcome::Busy));
    let in_flight = matter.ephemeral();
    assert_eq!(
        in_flight.unwrap().state,
        ExchangeState::Complete { tx_slot: MAX_EXCHANGES, notify: MAX_EXCHANGES }
    );
    let report = buffers.sx(MAX_EXCHANGES).unwrap().clone();

    assert_eq!(matter.process_rx(&mut buffers, &second, 2), Ok(RxOutcome::EphemeralPending));
    assert_eq!(matter.ephemeral(), in_flight);
    assert_eq!(buffers.sx(MAX_EXCHANGES), Some(&report));
    assert_eq!(matter.session_count(), 2);
    assert!(!matter.complete_ephemeral());
    assert_eq!(matter.ephemeral(), in_flight);

    let mut dest = Packet::new();
    assert_eq!(matter.pull_tx(&buffers, &mut dest, 3), Ok(true));
    assert_eq!(dest, report);
    assert_eq!(matter.ephemeral().unwrap().state, ExchangeState::Closed);
    assert_eq!(matter.process_rx(&mut buffers, &second, 4), Ok(RxOutcome::EphemeralPending));
    assert!(matter.complete_ephemeral());
    assert!(!matter.complete_ephemeral());
    assert_eq!(matter.process_rx(&mut buffers, &second, 5), Ok(RxOutcome::Busy));
    assert_eq!(buffers.sx(MAX_EXCHANGES).unwrap().hdr.peer, addr(3));
}

#[test]
fn duplicate_after_other_traffic_wakes_nobody() {
    let mut matter = Matter::new();
    let mut buffers = PacketBuffers::new();
    let rx = packet(addr(1), 10, 1, true, true);
    let id = open(&mut matter, &mut buffers, &rx, 0, 0);
    assert_eq!(matter.exchange_send(&mut buffers, &id, 0, &payload(700, false)), Ok(()));
    let mut dest = Packet::new();
    assert_eq!(matter.pull_tx(&buffers, &mut dest, 1), Ok(true));
    let other = packet(addr(2), 10, 1, true, false);
    open(&mut matter, &mut buffers, &other, 1, 2);
    let later = packet(addr(1), 12, 1, true, false);
    assert_eq!(matter.process_rx(&mut buffers, &later, 3), Ok(RxOutcome::Delivered));
    assert!(matter.take_notification(0));
    assert!(matter.take_send_notification());

    let stored = buffers.rx(0).unwrap().clone();
    for duplicate in [&rx, &later] {
        assert_eq!(matter.process_rx(&mut buffers, duplicate, 4), Ok(RxOutcome::Duplicate));
        assert!(matter.take_send_notification());
        for slot in 0..=MAX_EXCHANGES {
            assert!(!matter.take_notification(slot));
        }
        assert_eq!(buffers.rx(0), Some(&stored));
    }
    let in_window = packet(addr(1), 11, 1, true, false);
    assert_eq!(matter.process_rx(&mut buffers, &in_window, 5), Err(ErrorCode::InvalidState));
    assert_eq!(matter.process_rx(&mut buffers, &in_window, 6), Ok(RxOutcome::Duplicate));
}

#[test]
fn handler_requests_on_missing_or_busy_exchange() {
    let mut matter = Matter::new();
    let mut buffers = PacketBuffers::new();
    let missing = exchange_id(addr(1), 9);
    assert_eq!(matter.exchange_get(&missing, 0), Err(ErrorCode::NoExchange));
    assert_eq!(matter.exchange_send(&mut buffers, &missing, 0, &payload(1, false)), Err(ErrorCode::NoExchange));
    assert_eq!(matter.exchange_complete(&mut buffers, &missing, 0, &payload(1, false)), Err(ErrorCode::NoExchange));
    assert_eq!(matter.exchange_acknowledge(&missing, 0), Err(ErrorCode::NoExchange));
    assert_eq!(matter.exchange(&missing), None);

    let rx = packet(addr(1), 10, 1, true, false);
    let id = match matter.process_rx(&mut buffers, &rx, 0) {
        Ok(RxOutcome::NewExchange(id)) => id,
        other => panic!("no new exchange: {:?}", other),
    };
    assert_eq!(matter.exchange_get(&id, MAX_EXCHANGES), Err(ErrorCode::NoSpace));
    assert_eq!(matter.exchange_get(&id, 0), Ok(()));
    assert_eq!(matter.exchange_get(&id, 0), Err(ErrorCode::NoExchange));
    assert_eq!(matter.exchange_send(&mut buffers, &id, 0, &payload(1, false)), Err(ErrorCode::NoExchange));
    assert_eq!(matter.wait_construction(&mut buffers, &rx, &missing), Err(ErrorCode::NoExchange));
    assert_eq!(matter.wait_construction(&mut buffers, &rx, &id), Ok(true));
    assert_eq!(matter.wait_construction(&mut buffers, &rx, &id), Ok(false));
}

#[test]
fn wait_construction_checks_state_and_size() {
    let mut matter = Matter::new();
    let mut buffers = PacketBuffers::new();
    let first = packet(addr(1), 10, 1, true, false);
    let a = match matter.process_rx(&mut buffers, &first, 0) {
        Ok(RxOutcome::NewExchange(id)) => id,
        other => panic!("no new exchange: {:?}", other),
    };
    let second = packet(addr(1), 11, 2, true, false);
    let b = match matter.process_rx(&mut buffers, &second, 0) {
        Ok(RxOutcome::NewExchange(id)) => id,
        other => panic!("no new exchange: {:?}", other),
    };
    assert_eq!(matter.exchange_get(&a, 0), Ok(()));
    assert_eq!(matter.wait_construction(&mut buffers, &second, &b), Err(ErrorCode::InvalidState));
    let mut huge = first.clone();
    huge.payload = vec![0; MAX_RX_BUF_SIZE + 1];
    assert_eq!(matter.wait_construction(&mut buffers, &huge, &a), Err(ErrorCode::NoSpace));
    assert_eq!(
        matter.exchange(&a).unwrap().state,
        ExchangeState::Construction { rx_slot: 0, notify: 0 }
    );
    assert_eq!(matter.wait_construction(&mut buffers, &first, &a), Ok(true));
}

#[test]
fn queued_packet_must_fit_and_must_not_overtake() {
    let mut matter = Matter::new();
    let mut buffers = PacketBuffers::new();
    let rx = packet(addr(1), 10, 1, true, false);
    let id = open(&mut matter, &mut buffers, &rx, 0, 0);
    let mut huge = payload(1, false);
    huge.payload = vec![0; MAX_TX_BUF_SIZE + 1];
    assert_eq!(matter.exchange_send(&mut buffers, &id, 0, &huge), Err(ErrorCode::NoSpace));
    assert_eq!(matter.exchange_send(&mut buffers, &id, MAX_EXCHANGES, &payload(1, false)), Err(ErrorCode::NoSpace));
    assert_eq!(matter.exchange(&id).unwrap().state, ExchangeState::Active);
    assert_eq!(buffers.tx(0), Some(&Packet::new()));

    assert_eq!(matter.exchange_send(&mut buffers, &id, 0, &payload(700, true)), Ok(()));
    let mut dest = Packet::new();
    assert_eq!(matter.pull_tx(&buffers, &mut dest, 1), Ok(true));
    let answer = packet(addr(1), 11, 1, true, false);
    assert_eq!(matter.process_rx(&mut buffers, &answer, 2), Ok(RxOutcome::Delivered));
    let queued = buffers.tx(0).unwrap().clone();
    assert_eq!(matter.exchange_send(&mut buffers, &id, 0, &payload(701, true)), Err(ErrorCode::Invalid));
    assert_eq!(buffers.tx(0), Some(&queued));
    assert_eq!(matter.exchange(&id).unwrap().state, ExchangeState::Active);
    assert_eq!(matter.exchange_send(&mut buffers, &id, 0, &payload(702, false)), Ok(()));
}

#[test]
fn reply_too_large_for_the_receive_slot_is_refused() {
    let mut matter = Matter::new();
    let mut buffers = PacketBuffers::new();
    let rx = packet(addr(1), 10, 1, true, false);
    let id = open(&mut matter, &mut buffers, &rx, 0, 0);
    assert_eq!(matter.exchange_send(&mut buffers, &id, 0, &payload(700, false)), Ok(()));
    let mut dest = Packet::new();
    assert_eq!(matter.pull_tx(&buffers, &mut dest, 1), Ok(true));
    let mut huge = packet(addr(1), 11, 1, true, false);
    huge.payload = vec![0; MAX_RX_BUF_SIZE + 1];
    assert_eq!(matter.process_rx(&mut buffers, &huge, 2), Err(ErrorCode::NoSpace));
    assert!(!matter.take_notification(0));
    assert_eq!(
        matter.exchange(&id).unwrap().state,
        ExchangeState::ExchangeRecv { tx_slot: 0, tx_acknowledged: false, rx_slot: 0, notify: 0 }
    );
}

#[test]
fn busy_reply_that_cannot_note_its_ack_is_invalid() {
    let mut matter = Matter::new();
    let mut buffers = PacketBuffers::new();
    for n in 0..MAX_EXCHANGES {
        let rx = packet(addr(1), n as u32, n as u16, true, false);
        open(&mut matter, &mut buffers, &rx, n, 0);
    }
    let extra = packet(addr(1), 100, 100, true, true);
    assert_eq!(matter.process_rx(&mut buffers, &extra, u64::MAX), Err(ErrorCode::Invalid));
    assert_eq!(matter.ephemeral(), None);
}

#[test]
fn notifications_are_taken_once() {
    let mut matter = Matter::new();
    assert!(!matter.take_send_notification());
    assert!(!matter.take_notification(0));
    assert!(!matter.take_notification(MAX_EXCHANGES + 1));
    assert!(!matter.take_notification(usize::MAX));
}

#[test]
fn reset_forgets_exchanges_and_sessions() {
    let mut matter = Matter::new();
    let mut buffers = PacketBuffers::new();
    let rx = packet(addr(1), 10, 1, true, false);
    let id = open(&mut matter, &mut buffers, &rx, 0, 0);
    let other = packet(addr(2), 10, 1, true, false);
    open(&mut matter, &mut buffers, &other, 1, 0);
    assert_eq!(matter.exchange_count(), 2);
    assert_eq!(matter.session_count(), 2);
    matter.reset_transport();
    assert_eq!(matter.exchange_count(), 0);
    assert_eq!(matter.session_count(), 0);
    assert_eq!(matter.exchange(&id), None);
    assert_eq!(matter.process_rx(&mut buffers, &rx, 1).map(|_| ()), Ok(()));
    assert_eq!(matter.exchange_count(), 1);
}

#[test]
fn evict_reports_to_the_session_peer_with_its_session_id() {
    let mut matter = Matter::new();
    let mut buffers = PacketBuffers::new();
    let mut dest = Packet::new();
    for n in 0..MAX_SESSIONS {
        let mut rx = packet(addr(10 + n as u128), 1, 1, true, false);
        rx.hdr.sess_id = 30 + n as u16;
        rx.hdr.encrypted = true;
        rx.hdr.src_nodeid = Some(n as u64);
        let when = if n == 6 { 1 } else { 10 + n as u64 };
        let id = open(&mut matter, &mut buffers, &rx, 0, when);
        assert_eq!(id.session_id, SessionId::load(&rx.hdr));
        assert_eq!(matter.exchange_complete(&mut buffers, &id, 0, &payload(1, false)), Ok(()));
        assert_eq!(matter.pull_tx(&buffers, &mut dest, when), Ok(true));
    }
    let newcomer = packet(addr(1), 1, 1, true, false);
    assert_eq!(matter.process_rx(&mut buffers, &newcomer, 100), Ok(RxOutcome::Evicted));
    assert_eq!(matter.pull_tx(&buffers, &mut dest, 100), Ok(true));
    assert_eq!(dest.hdr.peer, addr(16));
    assert_eq!(dest.hdr.sess_id, 36);
    assert!(dest.hdr.encrypted);
    assert!(dest.hdr.initiator);
    assert_eq!(dest.hdr.exch_id, 0);
    assert_eq!(dest.payload, vec![0, 0, 0, 0, 0, 0, 3, 0]);
}

#[test]
fn a_handler_waits_on_one_exchange_only() {
    let mut matter = Matter::new();
    let mut buffers = PacketBuffers::new();
    let first = packet(addr(1), 10, 1, true, true);
    let a = open(&mut matter, &mut buffers, &first, 0, 0);
    let second = packet(addr(1), 11, 2, true, true);
    let b = match matter.process_rx(&mut buffers, &second, 0) {
        Ok(RxOutcome::NewExchange(id)) => id,
        other => panic!("no new exchange: {:?}", other),
    };
    assert_eq!(matter.exchange_send(&mut buffers, &a, 0, &payload(700, false)), Ok(()));
    let queued = buffers.tx(0).unwrap().clone();

    assert_eq!(matter.exchange_get(&b, 0), Err(ErrorCode::NoSpace));
    assert_eq!(matter.exchange_send(&mut buffers, &b, 0, &payload(701, false)), Err(ErrorCode::NoSpace));
    assert_eq!(matter.exchange_complete(&mut buffers, &b, 0, &payload(701, false)), Err(ErrorCode::NoSpace));
    assert_eq!(matter.exchange_acknowledge(&b, 0), Err(ErrorCode::NoSpace));
    assert_eq!(buffers.tx(0), Some(&queued));
    assert_eq!(matter.exchange(&b).unwrap().state, ExchangeState::Active);

    assert_eq!(matter.exchange_get(&b, 1), Ok(()));
    assert_eq!(matter.wait_construction(&mut buffers, &second, &b), Ok(true));
    let mut dest = Packet::new();
    assert_eq!(matter.pull_tx(&buffers, &mut dest, 1), Ok(true));
    assert_eq!(dest, queued);
    let answer = packet(addr(1), 12, 1, true, true);
    assert_eq!(matter.process_rx(&mut buffers, &answer, 2), Ok(RxOutcome::Delivered));
    assert_eq!(matter.exchange_acknowledge(&a, 0), Ok(true));
    assert_eq!(matter.exchange(&a).unwrap().state.slot(), Some(0));
    assert_eq!(matter.exchange(&b).unwrap().state.slot(), None);
}

#[test]
fn tick_of_the_transmit_pump() {
    assert_eq!(matter_transport::transport::TX_TICK_MS, 100);
    assert_eq!(Protocol::of(PROTO_ID_SECURE_CHANNEL), Some(Protocol::SecureChannel));
    assert_eq!(Protocol::of(PROTO_ID_INTERACTION_MODEL), Some(Protocol::InteractionModel));
    assert_eq!(Protocol::of(2), None);
    assert_eq!(Protocol::of(u16::MAX), None);
}
