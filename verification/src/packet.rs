//! Packets as the transport sees them, status reports, and the buffer pool.

use vstd::prelude::*;

verus! {

/// UDP port of the Matter protocol.
pub const MATTER_PORT: u16 = 5540;

/// Largest payload that a transmit buffer holds.
pub const MAX_TX_BUF_SIZE: usize = 1232;

/// Largest payload that a receive buffer holds.
pub const MAX_RX_BUF_SIZE: usize = 1583;

/// Largest payload that a status buffer holds.
pub const MAX_RX_STATUS_BUF_SIZE: usize = 100;

/// Number of exchanges that can be live at the same time. It is also the
/// number of exchange handlers and of buffers in each pool.
pub const MAX_EXCHANGES: usize = 8;

/// Protocol id of the Secure Channel protocol.
pub const PROTO_ID_SECURE_CHANNEL: u16 = 0;

/// Protocol id of the Interaction Model protocol.
pub const PROTO_ID_INTERACTION_MODEL: u16 = 1;

/// Secure Channel opcode of a standalone acknowledgement.
pub const OPCODE_MRP_STANDALONE_ACK: u8 = 0x10;

/// Secure Channel opcode of the first message of a passcode handshake.
pub const OPCODE_PBKDF_PARAM_REQUEST: u8 = 0x20;

/// Secure Channel opcode of a status report.
pub const OPCODE_STATUS_REPORT: u8 = 0x40;

/// General status code "success".
pub const GENERAL_CODE_SUCCESS: u16 = 0;

/// General status code "busy".
pub const GENERAL_CODE_BUSY: u16 = 8;

/// Secure Channel status code "close session".
pub const SC_STATUS_CLOSE_SESSION: u16 = 3;

/// Secure Channel status code "busy".
pub const SC_STATUS_BUSY: u16 = 4;

/// Interaction Model status code "busy".
pub const IM_STATUS_BUSY: u16 = 0x9c;

/// Length of an encoded status report.
pub const STATUS_REPORT_LEN: usize = 8;

/// The protocols whose exchanges the node handles.
#[derive(Clone, Copy, Debug, PartialEq, Eq, Structural)]
pub enum Protocol {
    SecureChannel,
    InteractionModel,
}

impl Protocol {
    /// The protocol with the id `proto_id`, if the node handles it.
    pub open spec fn spec_of(proto_id: u16) -> Option<Protocol> {
        if proto_id == PROTO_ID_SECURE_CHANNEL {
            Some(Protocol::SecureChannel)
        } else if proto_id == PROTO_ID_INTERACTION_MODEL {
            Some(Protocol::InteractionModel)
        } else {
            None
        }
    }

    /// The protocol with the id `proto_id`, if the node handles it. Exchanges
    /// of any other protocol are dropped.
    #[verifier::when_used_as_spec(spec_of)]
    pub fn of(proto_id: u16) -> (protocol: Option<Protocol>)
        ensures
            protocol == Protocol::spec_of(proto_id),
    {
        if proto_id == PROTO_ID_SECURE_CHANNEL {
            Some(Protocol::SecureChannel)
        } else if proto_id == PROTO_ID_INTERACTION_MODEL {
            Some(Protocol::InteractionModel)
        } else {
            None
        }
    }
}

/// An IPv6 socket address. The address is held as the 128-bit number whose
/// big-endian bytes are the address.
#[derive(Clone, Copy, Debug, PartialEq, Eq, Structural)]
pub struct Address {
    pub ip: u128,
    pub port: u16,
}

/// The address that the node's socket is bound to: every interface, on the
/// Matter port.
pub fn matter_socket_bind_addr() -> (addr: Address)
    ensures
        addr == (Address { ip: 0, port: MATTER_PORT }),
{
    Address { ip: 0, port: MATTER_PORT }
}

/// What the transport reads of a decoded packet: its peer, the fields of the
/// plain header and those of the protocol header.
#[derive(Clone, Copy, Debug, PartialEq, Eq)]
pub struct Header {
    /// Where the packet came from, or where it goes.
    pub peer: Address,
    /// Session id of the plain header.
    pub sess_id: u16,
    /// Message counter of the plain header.
    pub ctr: u32,
    /// Source node id of the plain header, if it carries one.
    pub src_nodeid: Option<u64>,
    /// Whether the packet travels on an encrypted session.
    pub encrypted: bool,
    /// Exchange number of the protocol header.
    pub exch_id: u16,
    /// Protocol id of the protocol header.
    pub proto_id: u16,
    /// Opcode of the protocol header.
    pub opcode: u8,
    /// Whether the sender is the initiator of the exchange.
    pub initiator: bool,
    /// Whether the sender asks for an acknowledgement.
    pub reliable: bool,
    /// The message counter that this packet acknowledges, if any.
    pub ack_ctr: Option<u32>,
}

impl Header {
    /// The header of a packet that was not filled in yet.
    pub open spec fn spec_empty() -> Header {
        Header {
            peer: Address { ip: 0, port: 0 },
            sess_id: 0,
            ctr: 0,
            src_nodeid: None,
            encrypted: false,
            exch_id: 0,
            proto_id: 0,
            opcode: 0,
            initiator: false,
            reliable: false,
            ack_ctr: None,
        }
    }

    /// The header of a packet that was not filled in yet.
    #[verifier::when_used_as_spec(spec_empty)]
    pub fn empty() -> (hdr: Header)
        ensures
            hdr == Header::spec_empty(),
    {
        Header {
            peer: Address { ip: 0, port: 0 },
            sess_id: 0,
            ctr: 0,
            src_nodeid: None,
            encrypted: false,
            exch_id: 0,
            proto_id: 0,
            opcode: 0,
            initiator: false,
            reliable: false,
            ack_ctr: None,
        }
    }

    /// Whether the packet acknowledges a message.
    pub open spec fn spec_is_ack(&self) -> bool {
        self.ack_ctr is Some
    }

    /// Whether the packet acknowledges a message.
    #[verifier::when_used_as_spec(spec_is_ack)]
    pub fn is_ack(&self) -> (ack: bool)
        ensures
            ack == self.spec_is_ack(),
    {
        self.ack_ctr.is_some()
    }

    /// Whether the packet is a standalone acknowledgement: a Secure Channel
    /// message that carries nothing but the acknowledgement.
    pub open spec fn spec_is_standalone_ack(&self) -> bool {
        self.proto_id == PROTO_ID_SECURE_CHANNEL && self.opcode == OPCODE_MRP_STANDALONE_ACK
    }

    /// Whether the packet is a standalone acknowledgement.
    #[verifier::when_used_as_spec(spec_is_standalone_ack)]
    pub fn is_standalone_ack(&self) -> (standalone: bool)
        ensures
            standalone == self.spec_is_standalone_ack(),
    {
        self.proto_id == PROTO_ID_SECURE_CHANNEL && self.opcode == OPCODE_MRP_STANDALONE_ACK
    }
}

/// A decoded packet: header fields and application payload.
#[derive(Debug, PartialEq, Eq)]
pub struct Packet {
    pub hdr: Header,
    pub payload: Vec<u8>,
}

/// The mathematical value of a [`Packet`].
pub struct PacketView {
    pub hdr: Header,
    pub payload: Seq<u8>,
}

impl View for Packet {
    type V = PacketView;

    open spec fn view(&self) -> PacketView {
        PacketView { hdr: self.hdr, payload: self.payload@ }
    }
}

impl PacketView {
    /// The packet with an empty header and no payload.
    pub open spec fn empty() -> PacketView {
        PacketView { hdr: Header::spec_empty(), payload: Seq::empty() }
    }
}

impl Clone for Packet {
    fn clone(&self) -> (copy: Packet)
        ensures
            copy@ == self@,
    {
        let payload = self.payload.clone();
        assert(payload@ =~= self.payload@);
        Packet { hdr: self.hdr, payload }
    }
}

impl Packet {
    /// A packet with an empty header and no payload.
    pub fn new() -> (packet: Packet)
        ensures
            packet@ == PacketView::empty(),
    {
        Packet { hdr: Header::empty(), payload: Vec::new() }
    }

    /// A packet with the given header and payload.
    pub fn with_payload(hdr: Header, payload: Vec<u8>) -> (packet: Packet)
        ensures
            packet@ == (PacketView { hdr: hdr, payload: payload@ }),
    {
        Packet { hdr, payload }
    }

    /// Protocol id of the packet.
    pub fn get_proto_id(&self) -> (id: u16)
        ensures
            id == self@.hdr.proto_id,
    {
        self.hdr.proto_id
    }

    /// Whether the sender asks for an acknowledgement.
    pub fn is_reliable(&self) -> (reliable: bool)
        ensures
            reliable == self@.hdr.reliable,
    {
        self.hdr.reliable
    }

    /// Makes this packet a copy of `src`.
    pub fn load(&mut self, src: &Packet)
        ensures
            final(self)@ == src@,
    {
        self.hdr = src.hdr;
        self.payload = src.payload.clone();
        assert(self.payload@ =~= src.payload@);
        assert(self@ == src@);
    }
}

/// The eight bytes of a status report: the general code, the protocol id and
/// the protocol's status code, each little-endian.
pub open spec fn status_report_bytes(general_code: u16, proto_id: u32, proto_code: u16) -> Seq<u8> {
    seq![
        (general_code % 256) as u8,
        (general_code / 256) as u8,
        (proto_id % 256) as u8,
        (proto_id / 256 % 256) as u8,
        (proto_id / 65536 % 256) as u8,
        (proto_id / 16777216) as u8,
        (proto_code % 256) as u8,
        (proto_code / 256) as u8,
    ]
}

/// Turns `tx` into a Secure Channel status report with the given codes. The
/// addressing fields of the header are left as they are; the packet asks for
/// no acknowledgement.
pub fn create_status_report(tx: &mut Packet, general_code: u16, proto_id: u32, proto_code: u16)
    ensures
        final(tx)@.payload == status_report_bytes(general_code, proto_id, proto_code),
        final(tx)@.hdr == (Header {
            proto_id: PROTO_ID_SECURE_CHANNEL,
            opcode: OPCODE_STATUS_REPORT,
            reliable: false,
            ..old(tx)@.hdr
        }),
{
    let mut payload: Vec<u8> = Vec::new();
    payload.push((general_code % 256) as u8);
    payload.push((general_code / 256) as u8);
    payload.push((proto_id % 256) as u8);
    payload.push((proto_id / 256 % 256) as u8);
    payload.push((proto_id / 65536 % 256) as u8);
    payload.push((proto_id / 16777216) as u8);
    payload.push((proto_code % 256) as u8);
    payload.push((proto_code / 256) as u8);
    assert(payload@ =~= status_report_bytes(general_code, proto_id, proto_code));
    tx.payload = payload;
    tx.hdr.proto_id = PROTO_ID_SECURE_CHANNEL;
    tx.hdr.opcode = OPCODE_STATUS_REPORT;
    tx.hdr.reliable = false;
}

/// Reads a status report back: the general code, the protocol id and the
/// protocol's status code, if `payload` has the length of a status report.
pub fn parse_status_report(payload: &Vec<u8>) -> (report: Option<(u16, u32, u16)>)
    ensures
        payload@.len() != STATUS_REPORT_LEN ==> report is None,
        payload@.len() == STATUS_REPORT_LEN ==> report == Some(
            (
                (payload@[0] + 256 * payload@[1]) as u16,
                (payload@[2] + 256 * payload@[3] + 65536 * payload@[4] + 16777216 * payload@[5]) as u32,
                (payload@[6] + 256 * payload@[7]) as u16,
            ),
        ),
{
    if payload.len() != STATUS_REPORT_LEN {
        return None;
    }
    let general_code: u16 = payload[0] as u16 + 256 * (payload[1] as u16);
    let proto_id: u32 = payload[2] as u32 + 256 * (payload[3] as u32) + 65536 * (payload[4] as u32)
        + 16777216 * (payload[5] as u32);
    let proto_code: u16 = payload[6] as u16 + 256 * (payload[7] as u16);
    Some((general_code, proto_id, proto_code))
}

/// A status report that is written and read back comes out as it went in.
pub proof fn lemma_status_report_round_trip(general_code: u16, proto_id: u32, proto_code: u16)
    ensures
        ({
            let bytes = status_report_bytes(general_code, proto_id, proto_code);
            &&& bytes.len() == STATUS_REPORT_LEN
            &&& bytes[0] + 256 * bytes[1] == general_code
            &&& bytes[2] + 256 * bytes[3] + 65536 * bytes[4] + 16777216 * bytes[5] == proto_id
            &&& bytes[6] + 256 * bytes[7] == proto_code
        }),
{
}

} // verus!
