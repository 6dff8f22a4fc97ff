use matter_transport::buffers::PacketBuffers;
use matter_transport::error::ErrorCode;
use matter_transport::exchange::{ExchangeId, ExchangeState, Role};
use matter_transport::model::RxOutcome;
use matter_transport::packet::{
    parse_status_report, Address, Header, Packet, GENERAL_CODE_BUSY, GENERAL_CODE_SUCCESS, MAX_EXCHANGES,
    OPCODE_MRP_STANDALONE_ACK, OPCODE_PBKDF_PARAM_REQUEST, OPCODE_STATUS_REPORT, PROTO_ID_SECURE_CHANNEL,
    SC_STATUS_BUSY, SC_STATUS_CLOSE_SESSION,
};
use matter_transport::session::MAX_SESSIONS;
use matter_transport::transport::Matter;

const PEER_IP: u128 = 0xfe80_0000_0000_0000_0000_0000_0000_0001;

fn peer() -> Address {
    Address { ip: PEER_IP, port: 5540 }
}

fn other_peer(n: usize) -> Address {
    Address { ip: PEER_IP + 0x100 + n as u128, port: 5540 }
}

fn request_from(from: Address, ctr: u32, exch_id: u16) -> Packet {
    Packet::with_payload(
        Header {
            peer: from,
            sess_id: 0,
            ctr,
            src_nodeid: None,
            encrypted: false,
            exch_id,
            proto_id: PROTO_ID_SECURE_CHANNEL,
            opcode: OPCODE_PBKDF_PARAM_REQUEST,
            initiator: true,
            reliable: true,
            ack_ctr: None,
        },
        vec![0x15, 0x30, 0x01, 0x20],
    )
}

fn request(ctr: u32, exch_id: u16) -> Packet {
    request_from(peer(), ctr, exch_id)
}

fn standalone_ack(from: Address, ctr: u32, exch_id: u16, acked: u32) -> Packet {
    Packet::with_payload(
        Header {
            peer: from,
            sess_id: 0,
            ctr,
            src_nodeid: None,
            encrypted: false,
            exch_id,
            proto_id: PROTO_ID_SECURE_CHANNEL,
            opcode: OPCODE_MRP_STANDALONE_ACK,
            initiator: true,
            reliable: false,
            ack_ctr: Some(acked),
        },
        vec![],
    )
}

fn reply(ctr: u32, opcode: u8, reliable: bool) -> Packet {
    let mut hdr = Header::empty();
    hdr.ctr = ctr;
    hdr.proto_id = PROTO_ID_SECURE_CHANNEL;
    hdr.opcode = opcode;
    hdr.reliable = reliable;
    Packet::with_payload(hdr, vec![0xaa, 0xbb])
}

fn open_exchange(matter: &mut Matter, buffers: &mut PacketBuffers, rx: &Packet, slot: usize, now: u64) -> ExchangeId {
    let id = match matter.process_rx(buffers, rx, now) {
        Ok(RxOutcome::NewExchange(id)) => id,
        other => panic!("no new exchange: {:?}", other),
    };
    assert_eq!(matter.exchange_get(&id, slot), Ok(()));
    assert_eq!(matter.wait_construction(buffers, rx, &id), Ok(true));
    assert!(matter.take_notification(slot));
    id
}

#[test]
fn handshake_happy_path() {
    let mut matter = Matter::new();
    let mut buffers = PacketBuffers::new();
    let rx = request(100, 7);

    let id = match matter.process_rx(&mut buffers, &rx, 0) {
        Ok(RxOutcome::NewExchange(id)) => id,
        other => panic!("no new exchange: {:?}", other),
    };
    assert_eq!(id.id, 7);
    assert!(!id.is_initiator);
    assert_eq!(id.session_id.peer_addr, peer());
    let ctx = matter.exchange(&id).unwrap();
    assert_eq!(ctx.role, Role::Responder);
    assert_eq!(ctx.state, ExchangeState::Active);

    assert_eq!(matter.wait_construction(&mut buffers, &rx, &id), Ok(false));
    assert_eq!(matter.exchange_get(&id, 0), Ok(()));
    assert_eq!(
        matter.exchange(&id).unwrap().state,
        ExchangeState::Construction { rx_slot: 0, notify: 0 }
    );
    assert_eq!(matter.wait_construction(&mut buffers, &rx, &id), Ok(true));
    assert_eq!(buffers.rx(0), Some(&rx));
    assert!(matter.take_notification(0));
    assert!(!matter.take_notification(0));
    assert_eq!(matter.exchange(&id).unwrap().state, ExchangeState::Active);

    assert_eq!(matter.exchange_complete(&mut buffers, &id, 0, &reply(500, 0x21, true)), Ok(()));
    assert!(matter.take_send_notification());
    assert_eq!(
        matter.exchange(&id).unwrap().state,
        ExchangeState::Complete { tx_slot: 0, notify: 0 }
    );

    let mut dest = Packet::new();
    assert_eq!(matter.pull_tx(&buffers, &mut dest, 10), Ok(true));
    assert!(dest.hdr.reliable);
    assert_eq!(dest.hdr.peer, peer());
    assert_eq!(dest.hdr.exch_id, 7);
    assert_eq!(dest.hdr.opcode, 0x21);
    assert!(!dest.hdr.initiator);
    assert_eq!(dest.hdr.ack_ctr, Some(100));
    assert_eq!(dest.payload, vec![0xaa, 0xbb]);
    assert_eq!(
        matter.exchange(&id).unwrap().state,
        ExchangeState::CompleteAcknowledge { tx_slot: 0, notify: 0 }
    );
    assert!(!matter.take_notification(0));

    let ack = standalone_ack(peer(), 101, 7, 500);
    assert_eq!(matter.process_rx(&mut buffers, &ack, 20), Ok(RxOutcome::Acknowledged));
    assert_eq!(matter.exchange(&id).unwrap().state, ExchangeState::Closed);
    assert!(matter.take_notification(0));

    let mut idle = Packet::new();
    assert_eq!(matter.pull_tx(&buffers, &mut idle, 30), Ok(false));
    assert_eq!(matter.exchange_count(), 0);
    assert_eq!(matter.exchange(&id), None);
}

#[test]
fn duplicate_suppression() {
    let mut matter = Matter::new();
    let mut buffers = PacketBuffers::new();
    let rx = request(100, 7);
    let id = open_exchange(&mut matter, &mut buffers, &rx, 0, 0);
    assert!(!matter.take_send_notification());
    let before = matter.exchange(&id);

    assert_eq!(matter.process_rx(&mut buffers, &rx, 5), Ok(RxOutcome::Duplicate));
    assert!(matter.take_send_notification());
    for slot in 0..=MAX_EXCHANGES {
        assert!(!matter.take_notification(slot));
    }
    assert_eq!(matter.exchange_count(), 1);
    assert_eq!(matter.session_count(), 1);
    assert_eq!(matter.exchange(&id), before);
}

#[test]
fn exchange_overflow() {
    let mut matter = Matter::new();
    let mut buffers = PacketBuffers::new();
    for n in 0..MAX_EXCHANGES {
        let rx = request(100 + n as u32, 10 + n as u16);
        open_exchange(&mut matter, &mut buffers, &rx, n, n as u64);
    }
    assert_eq!(matter.exchange_count(), MAX_EXCHANGES);

    let extra = request(200, 99);
    assert_eq!(matter.process_rx(&mut buffers, &extra, 50), Ok(RxOutcome::Busy));
    assert_eq!(matter.exchange_count(), MAX_EXCHANGES);
    assert!(matter.take_send_notification());

    let mut dest = Packet::new();
    assert_eq!(matter.pull_tx(&buffers, &mut dest, 50), Ok(true));
    assert_eq!(dest.hdr.peer, peer());
    assert_eq!(dest.hdr.exch_id, 99);
    assert_eq!(dest.hdr.proto_id, PROTO_ID_SECURE_CHANNEL);
    assert_eq!(dest.hdr.opcode, OPCODE_STATUS_REPORT);
    assert_eq!(dest.hdr.ack_ctr, Some(200));
    assert!(!dest.hdr.reliable);
    assert_eq!(dest.payload, vec![8, 0, 0, 0, 0, 0, 4, 0]);
    assert_eq!(
        parse_status_report(&dest.payload),
        Some((GENERAL_CODE_BUSY, PROTO_ID_SECURE_CHANNEL as u32, SC_STATUS_BUSY))
    );

    assert!(matter.take_notification(MAX_EXCHANGES));
    assert!(matter.complete_ephemeral());
    assert_eq!(matter.ephemeral(), None);
    let mut idle = Packet::new();
    assert_eq!(matter.pull_tx(&buffers, &mut idle, 50), Ok(false));
}

#[test]
fn session_eviction() {
    let mut matter = Matter::new();
    let mut buffers = PacketBuffers::new();
    for n in 0..MAX_SESSIONS {
        let rx = request_from(other_peer(n), 1, 1);
        let id = open_exchange(&mut matter, &mut buffers, &rx, 0, 10 + n as u64);
        assert_eq!(matter.exchange_complete(&mut buffers, &id, 0, &reply(1, 0x21, false)), Ok(()));
        let mut dest = Packet::new();
        assert_eq!(matter.pull_tx(&buffers, &mut dest, 10 + n as u64), Ok(true));
        assert_eq!(dest.hdr.peer, other_peer(n));
        assert!(matter.take_notification(0));
    }
    assert_eq!(matter.session_count(), MAX_SESSIONS);

    let newcomer = request(1, 1);
    assert_eq!(matter.process_rx(&mut buffers, &newcomer, 100), Ok(RxOutcome::Evicted));
    assert_eq!(matter.session_count(), MAX_SESSIONS - 1);
    assert_eq!(matter.exchange_count(), 0);

    assert_eq!(matter.process_rx(&mut buffers, &newcomer, 101), Ok(RxOutcome::EphemeralPending));
    assert_eq!(matter.session_count(), MAX_SESSIONS - 1);

    let mut dest = Packet::new();
    assert_eq!(matter.pull_tx(&buffers, &mut dest, 102), Ok(true));
    assert_eq!(dest.hdr.peer, other_peer(0));
    assert_eq!(dest.hdr.proto_id, PROTO_ID_SECURE_CHANNEL);
    assert_eq!(dest.hdr.opcode, OPCODE_STATUS_REPORT);
    assert_eq!(dest.payload, vec![0, 0, 0, 0, 0, 0, 3, 0]);
    assert_eq!(
        parse_status_report(&dest.payload),
        Some((GENERAL_CODE_SUCCESS, PROTO_ID_SECURE_CHANNEL as u32, SC_STATUS_CLOSE_SESSION))
    );
    assert!(matter.take_notification(MAX_EXCHANGES));
    assert!(matter.complete_ephemeral());

    let id = open_exchange(&mut matter, &mut buffers, &newcomer, 0, 103);
    assert_eq!(id.session_id.peer_addr, peer());
    assert_eq!(matter.session_count(), MAX_SESSIONS);

    let returning = request_from(other_peer(0), 2, 2);
    assert_eq!(matter.process_rx(&mut buffers, &returning, 104), Ok(RxOutcome::Evicted));
    let mut second = Packet::new();
    assert_eq!(matter.pull_tx(&buffers, &mut second, 105), Ok(true));
    assert_eq!(second.hdr.peer, other_peer(1));
}

#[test]
fn standalone_ack_timer() {
    let mut matter = Matter::new();
    let mut buffers = PacketBuffers::new();
    let rx = request(100, 7);
    open_exchange(&mut matter, &mut buffers, &rx, 0, 1000);

    let mut dest = Packet::new();
    assert_eq!(matter.pull_tx(&buffers, &mut dest, 1000), Ok(false));
    assert_eq!(matter.pull_tx(&buffers, &mut dest, 1099), Ok(false));
    assert_eq!(dest, Packet::new());

    assert_eq!(matter.pull_tx(&buffers, &mut dest, 1100), Ok(true));
    assert_eq!(dest.hdr.peer, peer());
    assert_eq!(dest.hdr.exch_id, 7);
    assert_eq!(dest.hdr.proto_id, PROTO_ID_SECURE_CHANNEL);
    assert_eq!(dest.hdr.opcode, OPCODE_MRP_STANDALONE_ACK);
    assert_eq!(dest.hdr.ack_ctr, Some(100));
    assert!(!dest.hdr.reliable);
    assert!(dest.payload.is_empty());

    let mut idle = Packet::new();
    assert_eq!(matter.pull_tx(&buffers, &mut idle, 1200), Ok(false));
    assert_eq!(matter.exchange_count(), 1);
}

#[test]
fn terminal_reliable_send() {
    let mut matter = Matter::new();
    let mut buffers = PacketBuffers::new();
    let rx = request(100, 7);
    let id = open_exchange(&mut matter, &mut buffers, &rx, 0, 0);

    assert_eq!(matter.exchange_complete(&mut buffers, &id, 0, &reply(500, 0x21, true)), Ok(()));
    let mut dest = Packet::new();
    assert_eq!(matter.pull_tx(&buffers, &mut dest, 1), Ok(true));
    assert!(dest.hdr.reliable);
    let mut again = Packet::new();
    assert_eq!(matter.pull_tx(&buffers, &mut again, 2), Ok(false));
    assert_eq!(matter.pull_tx(&buffers, &mut again, 500), Ok(false));

    let ack = standalone_ack(peer(), 101, 7, 500);
    assert_eq!(matter.process_rx(&mut buffers, &ack, 3), Ok(RxOutcome::Acknowledged));
    assert_eq!(matter.exchange(&id).unwrap().state, ExchangeState::Closed);
    assert!(matter.take_notification(0));

    assert!(matter.take_send_notification());
    assert_eq!(matter.process_rx(&mut buffers, &rx, 4), Ok(RxOutcome::Duplicate));
    assert_eq!(matter.exchange_count(), 0);
    assert!(matter.take_send_notification());
    assert!(!matter.take_notification(0));
    assert_eq!(matter.pull_tx(&buffers, &mut again, 5), Ok(false));
    assert_eq!(matter.pull_tx(&buffers, &mut again, 500), Ok(false));
    assert_eq!(again, Packet::new());
    assert_eq!(ErrorCode::Duplicate.is_fatal_to_rx(), false);
}
