//! DHCPv4 messages, as RFC 2131 and RFC 2132 lay them out.
//!
//! A message is a header of fixed length followed by a list of options. An option is an octet
//! that gives its kind, an octet that gives the length of its data, and the data; the two kinds
//! `OPT_PAD` and `OPT_END` are a single octet each.

use vstd::prelude::*;

use vstd::slice::slice_subrange;

use super::ethernet::EthernetAddress;
use super::ipv4::Ipv4Address;
use crate::error::Error;

verus! {

/// The UDP port that DHCP servers listen on.
pub const DHCP_SERVER_PORT: u16 = 67;

/// The UDP port that DHCP clients listen on.
pub const DHCP_CLIENT_PORT: u16 = 68;

/// The four octets that set the options of a DHCP message apart from the header.
pub const DHCP_MAGIC_NUMBER: u32 = 0x63825363;

/// Length of the header with the magic number; the options start here.
pub const OPTIONS_START: usize = 240;

/// The hardware type of Ethernet.
pub const HARDWARE_ETHERNET: u8 = 1;

/// Length of an Ethernet address.
pub const HARDWARE_LEN_ETHERNET: u8 = 6;

/// Operation code of the messages that a client sends.
pub const OP_REQUEST: u8 = 1;

/// Operation code of the messages that a server sends.
pub const OP_REPLY: u8 = 2;

pub const OPT_PAD: u8 = 0;

pub const OPT_SUBNET_MASK: u8 = 1;

pub const OPT_ROUTER: u8 = 3;

pub const OPT_DOMAIN_NAME_SERVER: u8 = 6;

pub const OPT_REQUESTED_IP: u8 = 50;

pub const OPT_IP_LEASE_TIME: u8 = 51;

pub const OPT_DHCP_MESSAGE_TYPE: u8 = 53;

pub const OPT_SERVER_IDENTIFIER: u8 = 54;

pub const OPT_PARAMETER_REQUEST_LIST: u8 = 55;

pub const OPT_MAX_DHCP_MESSAGE_SIZE: u8 = 57;

pub const OPT_CLIENT_ID: u8 = 61;

pub const OPT_END: u8 = 255;

/// The type of a DHCP message.
#[derive(Debug, Clone, Copy, PartialEq, Eq, Structural)]
pub enum DhcpMessageType {
    Discover,
    Offer,
    Request,
    Decline,
    Ack,
    Nak,
    Release,
    Inform,
    Unknown(u8),
}

impl DhcpMessageType {
    /// The message type that an octet encodes.
    pub open spec fn decoded(octet: u8) -> DhcpMessageType {
        match octet {
            1 => DhcpMessageType::Discover,
            2 => DhcpMessageType::Offer,
            3 => DhcpMessageType::Request,
            4 => DhcpMessageType::Decline,
            5 => DhcpMessageType::Ack,
            6 => DhcpMessageType::Nak,
            7 => DhcpMessageType::Release,
            8 => DhcpMessageType::Inform,
            _ => DhcpMessageType::Unknown(octet),
        }
    }

    /// The operation code of the messages of this type; no message of an unknown type has
    /// one of the two proper codes.
    pub open spec fn op_code(self) -> u8 {
        match self {
            DhcpMessageType::Offer | DhcpMessageType::Ack | DhcpMessageType::Nak => OP_REPLY,
            DhcpMessageType::Unknown(_) => 0,
            _ => OP_REQUEST,
        }
    }

    /// Decodes a message type.
    pub fn from_octet(octet: u8) -> (r: DhcpMessageType)
        ensures
            r == DhcpMessageType::decoded(octet),
    {
        match octet {
            1 => DhcpMessageType::Discover,
            2 => DhcpMessageType::Offer,
            3 => DhcpMessageType::Request,
            4 => DhcpMessageType::Decline,
            5 => DhcpMessageType::Ack,
            6 => DhcpMessageType::Nak,
            7 => DhcpMessageType::Release,
            8 => DhcpMessageType::Inform,
            _ => DhcpMessageType::Unknown(octet),
        }
    }

    /// The operation code of the messages of this type.
    pub fn opcode(&self) -> (r: u8)
        ensures
            r == self.op_code(),
    {
        match self {
            DhcpMessageType::Offer | DhcpMessageType::Ack | DhcpMessageType::Nak => OP_REPLY,
            DhcpMessageType::Unknown(_) => 0,
            _ => OP_REQUEST,
        }
    }
}

/// The number that two octets encode, most significant first.
pub open spec fn u16_at(s: Seq<u8>, i: int) -> u16 {
    (s[i] * 0x100 + s[i + 1]) as u16
}

/// The number that four octets encode, most significant first.
pub open spec fn u32_at(s: Seq<u8>, i: int) -> u32 {
    (s[i] * 0x100_0000 + s[i + 1] * 0x1_0000 + s[i + 2] * 0x100 + s[i + 3]) as u32
}

/// The IPv4 address that stands at an offset.
pub open spec fn ipv4_at(s: Seq<u8>, i: int) -> Ipv4Address {
    Ipv4Address([s[i], s[i + 1], s[i + 2], s[i + 3]])
}

/// The Ethernet address that stands at an offset.
pub open spec fn ethernet_at(s: Seq<u8>, i: int) -> EthernetAddress {
    EthernetAddress([s[i], s[i + 1], s[i + 2], s[i + 3], s[i + 4], s[i + 5]])
}

fn read_u16(buffer: &[u8], at: usize) -> (r: u16)
    requires
        at + 2 <= buffer@.len(),
    ensures
        r == u16_at(buffer@, at as int),
{
    buffer[at] as u16 * 0x100 + buffer[at + 1] as u16
}

fn read_u32(buffer: &[u8], at: usize) -> (r: u32)
    requires
        at + 4 <= buffer@.len(),
    ensures
        r == u32_at(buffer@, at as int),
{
    buffer[at] as u32 * 0x100_0000 + buffer[at + 1] as u32 * 0x1_0000 + buffer[at + 2] as u32
        * 0x100 + buffer[at + 3] as u32
}

fn read_ipv4(buffer: &[u8], at: usize) -> (r: Ipv4Address)
    requires
        at + 4 <= buffer@.len(),
    ensures
        r == ipv4_at(buffer@, at as int),
{
    Ipv4Address([buffer[at], buffer[at + 1], buffer[at + 2], buffer[at + 3]])
}

fn read_ethernet(buffer: &[u8], at: usize) -> (r: EthernetAddress)
    requires
        at + 6 <= buffer@.len(),
    ensures
        r == ethernet_at(buffer@, at as int),
{
    EthernetAddress(
        [
            buffer[at],
            buffer[at + 1],
            buffer[at + 2],
            buffer[at + 3],
            buffer[at + 4],
            buffer[at + 5],
        ],
    )
}

/// An option of a DHCP message: its kind and its data.
pub struct RawOption {
    pub kind: u8,
    pub data: Seq<u8>,
}

/// Whether an area that starts with the option `area[0]` holds all of that option.
pub open spec fn holds_first_option(area: Seq<u8>) -> bool {
    2 <= area.len() && 2 + area[1] <= area.len()
}

/// The options that an area holds: up to the end marker, the end of the area, or the first
/// option that is cut off.
pub open spec fn options(area: Seq<u8>) -> Seq<RawOption>
    decreases area.len(),
{
    if area.len() == 0 || area[0] == OPT_END {
        seq![]
    } else if area[0] == OPT_PAD {
        options(area.skip(1))
    } else if !holds_first_option(area) {
        seq![]
    } else {
        seq![RawOption { kind: area[0], data: area.subrange(2, 2 + area[1]) }] + options(
            area.skip(2 + area[1]),
        )
    }
}

/// Whether no option of an area is cut off.
pub open spec fn options_whole(area: Seq<u8>) -> bool
    decreases area.len(),
{
    if area.len() == 0 || area[0] == OPT_END {
        true
    } else if area[0] == OPT_PAD {
        options_whole(area.skip(1))
    } else {
        holds_first_option(area) && options_whole(area.skip(2 + area[1]))
    }
}

/// The data of the last option of a kind.
pub open spec fn last_of_kind(opts: Seq<RawOption>, kind: u8) -> Option<Seq<u8>>
    decreases opts.len(),
{
    if opts.len() == 0 {
        None
    } else if opts.last().kind == kind {
        Some(opts.last().data)
    } else {
        last_of_kind(opts.drop_last(), kind)
    }
}

/// The data of the last option of a kind among those with a given length of data.
pub open spec fn last_of(opts: Seq<RawOption>, kind: u8, len: nat) -> Option<Seq<u8>>
    decreases opts.len(),
{
    if opts.len() == 0 {
        None
    } else if opts.last().kind == kind && opts.last().data.len() == len {
        Some(opts.last().data)
    } else {
        last_of(opts.drop_last(), kind, len)
    }
}

/// The last message type among the options that agrees with the operation code of the header.
pub open spec fn last_message_type(opts: Seq<RawOption>, op: u8) -> Option<DhcpMessageType>
    decreases opts.len(),
{
    if opts.len() == 0 {
        None
    } else if opts.last().kind == OPT_DHCP_MESSAGE_TYPE && opts.last().data.len() == 1
        && DhcpMessageType::decoded(opts.last().data[0]).op_code() == op {
        Some(DhcpMessageType::decoded(opts.last().data[0]))
    } else {
        last_message_type(opts.drop_last(), op)
    }
}

/// The value of the last option of a kind whose data is an IPv4 address.
pub open spec fn ipv4_option(opts: Seq<RawOption>, kind: u8) -> Option<Ipv4Address> {
    match last_of(opts, kind, 4) {
        Some(data) => Some(ipv4_at(data, 0)),
        None => None,
    }
}

/// The value of the last option of a kind whose data is a number of four octets.
pub open spec fn u32_option(opts: Seq<RawOption>, kind: u8) -> Option<u32> {
    match last_of(opts, kind, 4) {
        Some(data) => Some(u32_at(data, 0)),
        None => None,
    }
}

/// The value of the last option of a kind whose data is a number of two octets.
pub open spec fn u16_option(opts: Seq<RawOption>, kind: u8) -> Option<u16> {
    match last_of(opts, kind, 2) {
        Some(data) => Some(u16_at(data, 0)),
        None => None,
    }
}

/// The Ethernet address that identifies the client, after the octet with its hardware type.
pub open spec fn client_id_option(opts: Seq<RawOption>) -> Option<EthernetAddress> {
    match last_of(opts, OPT_CLIENT_ID, 7) {
        Some(data) => Some(ethernet_at(data, 1)),
        None => None,
    }
}

/// The server with index `i` in a list of addresses, if the list reaches so far.
pub open spec fn server_at(data: Seq<u8>, i: int) -> Option<Ipv4Address> {
    if 4 * i + 4 <= data.len() {
        Some(ipv4_at(data, 4 * i))
    } else {
        None
    }
}

/// The first three servers of the last list of DNS servers.
pub open spec fn dns_option(opts: Seq<RawOption>) -> Option<[Option<Ipv4Address>; 3]> {
    match last_of_kind(opts, OPT_DOMAIN_NAME_SERVER) {
        Some(data) => Some([server_at(data, 0), server_at(data, 1), server_at(data, 2)]),
        None => None,
    }
}

/// Whether an option identifies the client by an address of the length of an Ethernet address
/// whose hardware type is another one.
pub open spec fn is_foreign_client_id(opt: RawOption) -> bool {
    &&& opt.kind == OPT_CLIENT_ID
    &&& opt.data.len() == 7
    &&& opt.data[0] != HARDWARE_ETHERNET
}

/// What a DHCP message says.
pub struct DhcpMessage {
    pub message_type: DhcpMessageType,
    pub transaction_id: u32,
    pub client_hardware_address: EthernetAddress,
    pub client_ip: Ipv4Address,
    pub your_ip: Ipv4Address,
    pub server_ip: Ipv4Address,
    pub router: Option<Ipv4Address>,
    pub subnet_mask: Option<Ipv4Address>,
    pub relay_agent_ip: Ipv4Address,
    pub broadcast: bool,
    pub requested_ip: Option<Ipv4Address>,
    pub client_identifier: Option<EthernetAddress>,
    pub server_identifier: Option<Ipv4Address>,
    pub parameter_request_list: Option<Seq<u8>>,
    pub max_size: Option<u16>,
    pub lease_duration: Option<u32>,
    pub dns_servers: Option<[Option<Ipv4Address>; 3]>,
}

/// Length of a field that takes `len` octets if it is there, and none if it is not.
pub open spec fn field_len<T>(field: Option<T>, len: int) -> int {
    if field is Some {
        len
    } else {
        0
    }
}

/// Length of the addresses of a list of DNS servers.
pub open spec fn servers_len(servers: [Option<Ipv4Address>; 3]) -> int {
    field_len(servers[0], 4) + field_len(servers[1], 4) + field_len(servers[2], 4)
}

impl DhcpMessage {
    /// Length of the packet that encodes the message, in octets: the header, the message type
    /// and the end marker, and an option for each field that is there.
    pub open spec fn encoded_len(self) -> int {
        OPTIONS_START + 3 + 1 + field_len(self.requested_ip, 6) + field_len(
            self.client_identifier,
            9,
        ) + field_len(self.server_identifier, 6) + field_len(self.max_size, 4) + field_len(
            self.router,
            6,
        ) + field_len(self.subnet_mask, 6) + field_len(self.lease_duration, 6) + (
        match self.dns_servers {
            Some(servers) => 2 + servers_len(servers),
            None => 0,
        }) + (match self.parameter_request_list {
            Some(list) => 2 + list.len(),
            None => 0,
        })
    }
}

/// The message that a packet with a whole header encodes, or why it encodes none.
pub open spec fn decoded_packet(packet: Seq<u8>) -> Result<DhcpMessage, Error> {
    let opts = options(packet.skip(OPTIONS_START as int));
    if packet[1] != HARDWARE_ETHERNET {
        Err(Error::Unrecognized)
    } else if packet[2] != HARDWARE_LEN_ETHERNET {
        Err(Error::Malformed)
    } else if u32_at(packet, 236) != DHCP_MAGIC_NUMBER {
        Err(Error::Malformed)
    } else if exists|i: int| 0 <= i < opts.len() && is_foreign_client_id(#[trigger] opts[i]) {
        Err(Error::Unrecognized)
    } else if !options_whole(packet.skip(OPTIONS_START as int)) {
        Err(Error::Truncated)
    } else {
        match last_message_type(opts, packet[0]) {
            None => Err(Error::Malformed),
            Some(message_type) => Ok(
                DhcpMessage {
                    message_type,
                    transaction_id: u32_at(packet, 4),
                    client_hardware_address: ethernet_at(packet, 28),
                    client_ip: ipv4_at(packet, 12),
                    your_ip: ipv4_at(packet, 16),
                    server_ip: ipv4_at(packet, 20),
                    router: ipv4_option(opts, OPT_ROUTER),
                    subnet_mask: ipv4_option(opts, OPT_SUBNET_MASK),
                    relay_agent_ip: ipv4_at(packet, 24),
                    broadcast: packet[10] >= 0x80,
                    requested_ip: ipv4_option(opts, OPT_REQUESTED_IP),
                    client_identifier: client_id_option(opts),
                    server_identifier: ipv4_option(opts, OPT_SERVER_IDENTIFIER),
                    parameter_request_list: last_of_kind(opts, OPT_PARAMETER_REQUEST_LIST),
                    max_size: u16_option(opts, OPT_MAX_DHCP_MESSAGE_SIZE),
                    lease_duration: u32_option(opts, OPT_IP_LEASE_TIME),
                    dns_servers: dns_option(opts),
                },
            ),
        }
    }
}

/// The message that the payload of a UDP packet encodes, or why it encodes none.
pub open spec fn decoded(payload: Seq<u8>) -> Result<DhcpMessage, Error> {
    if payload.len() < OPTIONS_START {
        Err(Error::Truncated)
    } else {
        decoded_packet(payload)
    }
}

/// The octets of a DHCP message, with a whole header.
#[derive(Debug, Clone, Copy)]
pub struct DhcpPacket<'a> {
    buffer: &'a [u8],
}

impl<'a> View for DhcpPacket<'a> {
    type V = Seq<u8>;

    closed spec fn view(&self) -> Seq<u8> {
        self.buffer@
    }
}

impl<'a> DhcpPacket<'a> {
    /// The header is whole.
    pub open spec fn wf(&self) -> bool {
        self@.len() >= OPTIONS_START
    }

    /// Takes octets as a DHCP packet. Fails with `Error::Truncated` if they are too few for the
    /// header.
    pub fn new_checked(buffer: &'a [u8]) -> (r: Result<DhcpPacket<'a>, Error>)
        ensures
            match r {
                Ok(packet) => packet.wf() && packet@ == buffer@,
                Err(e) => e == Error::Truncated && buffer@.len() < OPTIONS_START,
            },
    {
        if buffer.len() < OPTIONS_START {
            Err(Error::Truncated)
        } else {
            Ok(DhcpPacket { buffer })
        }
    }
}

/// A DHCP message.
#[derive(Debug, Clone, Copy)]
pub struct DhcpRepr<'a> {
    pub message_type: DhcpMessageType,
    /// Number that a client chooses and that the replies to it repeat.
    pub transaction_id: u32,
    pub client_hardware_address: EthernetAddress,
    /// The address that the client already has.
    pub client_ip: Ipv4Address,
    /// The address that the server assigns to the client.
    pub your_ip: Ipv4Address,
    /// The server to use in the next step of booting.
    pub server_ip: Ipv4Address,
    pub router: Option<Ipv4Address>,
    pub subnet_mask: Option<Ipv4Address>,
    pub relay_agent_ip: Ipv4Address,
    /// Whether the client asks for a reply by broadcast.
    pub broadcast: bool,
    /// The address that the client asks for.
    pub requested_ip: Option<Ipv4Address>,
    pub client_identifier: Option<EthernetAddress>,
    pub server_identifier: Option<Ipv4Address>,
    /// The kinds of the options that the client asks for.
    pub parameter_request_list: Option<&'a [u8]>,
    /// The length of the longest DHCP message that the sender takes.
    pub max_size: Option<u16>,
    /// How long the lease is good for, in seconds.
    pub lease_duration: Option<u32>,
    pub dns_servers: Option<[Option<Ipv4Address>; 3]>,
}

impl<'a> View for DhcpRepr<'a> {
    type V = DhcpMessage;

    open spec fn view(&self) -> DhcpMessage {
        DhcpMessage {
            message_type: self.message_type,
            transaction_id: self.transaction_id,
            client_hardware_address: self.client_hardware_address,
            client_ip: self.client_ip,
            your_ip: self.your_ip,
            server_ip: self.server_ip,
            router: self.router,
            subnet_mask: self.subnet_mask,
            relay_agent_ip: self.relay_agent_ip,
            broadcast: self.broadcast,
            requested_ip: self.requested_ip,
            client_identifier: self.client_identifier,
            server_identifier: self.server_identifier,
            parameter_request_list: match self.parameter_request_list {
                Some(list) => Some(list@),
                None => None,
            },
            max_size: self.max_size,
            lease_duration: self.lease_duration,
            dns_servers: self.dns_servers,
        }
    }
}

/// What the options of a packet have said so far.
struct Options<'a> {
    message_type: Option<DhcpMessageType>,
    requested_ip: Option<Ipv4Address>,
    client_identifier: Option<EthernetAddress>,
    server_identifier: Option<Ipv4Address>,
    router: Option<Ipv4Address>,
    subnet_mask: Option<Ipv4Address>,
    parameter_request_list: Option<&'a [u8]>,
    max_size: Option<u16>,
    lease_duration: Option<u32>,
    dns_servers: Option<[Option<Ipv4Address>; 3]>,
}

proof fn lemma_last_of_push(opts: Seq<RawOption>, opt: RawOption)
    ensures
        forall|kind: u8| #[trigger]
            last_of_kind(opts.push(opt), kind) == (if opt.kind == kind {
                Some(opt.data)
            } else {
                last_of_kind(opts, kind)
            }),
        forall|kind: u8, len: nat| #[trigger]
            last_of(opts.push(opt), kind, len) == (if opt.kind == kind && opt.data.len() == len {
                Some(opt.data)
            } else {
                last_of(opts, kind, len)
            }),
        forall|op: u8| #[trigger]
            last_message_type(opts.push(opt), op) == (if opt.kind == OPT_DHCP_MESSAGE_TYPE
                && opt.data.len() == 1 && DhcpMessageType::decoded(opt.data[0]).op_code() == op {
                Some(DhcpMessageType::decoded(opt.data[0]))
            } else {
                last_message_type(opts, op)
            }),
{
    assert(opts.push(opt).drop_last() =~= opts);
}

impl<'a> Options<'a> {
    /// Whether these are the values that the options `opts` give, in a packet with the operation
    /// code `op`.
    spec fn agrees_with(self, opts: Seq<RawOption>, op: u8) -> bool {
        &&& self.message_type == last_message_type(opts, op)
        &&& self.requested_ip == ipv4_option(opts, OPT_REQUESTED_IP)
        &&& self.client_identifier == client_id_option(opts)
        &&& self.server_identifier == ipv4_option(opts, OPT_SERVER_IDENTIFIER)
        &&& self.router == ipv4_option(opts, OPT_ROUTER)
        &&& self.subnet_mask == ipv4_option(opts, OPT_SUBNET_MASK)
        &&& match self.parameter_request_list {
            Some(list) => last_of_kind(opts, OPT_PARAMETER_REQUEST_LIST) == Some(list@),
            None => last_of_kind(opts, OPT_PARAMETER_REQUEST_LIST) is None,
        }
        &&& self.max_size == u16_option(opts, OPT_MAX_DHCP_MESSAGE_SIZE)
        &&& self.lease_duration == u32_option(opts, OPT_IP_LEASE_TIME)
        &&& self.dns_servers == dns_option(opts)
    }

    /// Takes in one more option, whose data is the octets `start..end` of the packet. Fails on
    /// a client identifier of another hardware type.
    fn take_in(
        &mut self,
        buffer: &'a [u8],
        kind: u8,
        start: usize,
        end: usize,
        Ghost(opts): Ghost<Seq<RawOption>>,
    ) -> (r: Result<(), Error>)
        requires
            buffer@.len() >= OPTIONS_START,
            start <= end <= buffer@.len(),
            old(self).agrees_with(opts, buffer@[0]),
        ensures
            ({
                let opt = RawOption { kind, data: buffer@.subrange(start as int, end as int) };
                match r {
                    Ok(_) => !is_foreign_client_id(opt) && final(self).agrees_with(
                        opts.push(opt),
                        buffer@[0],
                    ),
                    Err(e) => e == Error::Unrecognized && is_foreign_client_id(opt),
                }
            }),
    {
        let data = slice_subrange(buffer, start, end);
        let len: usize = data.len();
        proof {
            lemma_last_of_push(opts, RawOption { kind, data: data@ });
        }
        if kind == OPT_DHCP_MESSAGE_TYPE && len == 1 {
            let message_type = DhcpMessageType::from_octet(data[0]);
            if message_type.opcode() == buffer[0] {
                self.message_type = Some(message_type);
            }
        } else if kind == OPT_REQUESTED_IP && len == 4 {
            self.requested_ip = Some(read_ipv4(data, 0));
        } else if kind == OPT_CLIENT_ID && len == 7 {
            if data[0] != HARDWARE_ETHERNET {
                return Err(Error::Unrecognized);
            }
            self.client_identifier = Some(read_ethernet(data, 1));
        } else if kind == OPT_SERVER_IDENTIFIER && len == 4 {
            self.server_identifier = Some(read_ipv4(data, 0));
        } else if kind == OPT_ROUTER && len == 4 {
            self.router = Some(read_ipv4(data, 0));
        } else if kind == OPT_SUBNET_MASK && len == 4 {
            self.subnet_mask = Some(read_ipv4(data, 0));
        } else if kind == OPT_MAX_DHCP_MESSAGE_SIZE && len == 2 {
            self.max_size = Some(read_u16(data, 0));
        } else if kind == OPT_IP_LEASE_TIME && len == 4 {
            self.lease_duration = Some(read_u32(data, 0));
        } else if kind == OPT_PARAMETER_REQUEST_LIST {
            self.parameter_request_list = Some(data);
        } else if kind == OPT_DOMAIN_NAME_SERVER {
            self.dns_servers = Some([read_server(data, 0), read_server(data, 1), read_server(data, 2)]);
        }
        Ok(())
    }
}

fn read_server(data: &[u8], i: usize) -> (r: Option<Ipv4Address>)
    requires
        i < 3,
    ensures
        r == server_at(data@, i as int),
{
    if 4 * i + 4 <= data.len() {
        Some(read_ipv4(data, 4 * i))
    } else {
        None
    }
}

/// What parsing a packet says, over what messages say.
pub open spec fn parse_outcome(r: Result<DhcpRepr<'_>, Error>) -> Result<DhcpMessage, Error> {
    match r {
        Ok(repr) => Ok(repr@),
        Err(e) => Err(e),
    }
}

fn len_of_field<T>(field: &Option<T>, len: usize) -> (r: usize)
    ensures
        r == field_len(*field, len as int),
        r <= len,
{
    if field.is_some() {
        len
    } else {
        0
    }
}

fn len_of_servers(servers: &[Option<Ipv4Address>; 3]) -> (r: usize)
    ensures
        r == servers_len(*servers),
        r <= 12,
{
    len_of_field(&servers[0], 4) + len_of_field(&servers[1], 4) + len_of_field(&servers[2], 4)
}

impl<'a> DhcpRepr<'a> {
    /// Parses a packet.
    pub fn parse(packet: &DhcpPacket<'a>) -> (r: Result<DhcpRepr<'a>, Error>)
        requires
            packet.wf(),
        ensures
            parse_outcome(r) == decoded_packet(packet@),
    {
        let buffer: &'a [u8] = packet.buffer;
        if buffer[1] != HARDWARE_ETHERNET {
            return Err(Error::Unrecognized);
        }
        if buffer[2] != HARDWARE_LEN_ETHERNET {
            return Err(Error::Malformed);
        }
        if read_u32(buffer, 236) != DHCP_MAGIC_NUMBER {
            return Err(Error::Malformed);
        }
        let mut fields = Options {
            message_type: None,
            requested_ip: None,
            client_identifier: None,
            server_identifier: None,
            router: None,
            subnet_mask: None,
            parameter_request_list: None,
            max_size: None,
            lease_duration: None,
            dns_servers: None,
        };
        let ghost area = buffer@.skip(OPTIONS_START as int);
        let ghost mut done: Seq<RawOption> = seq![];
        let mut pos: usize = OPTIONS_START;
        let mut at_end: bool = false;
        assert(buffer@.skip(pos as int) =~= area);
        while pos < buffer.len() && !at_end
            invariant
                OPTIONS_START <= pos <= buffer@.len(),
                area == buffer@.skip(OPTIONS_START as int),
                fields.agrees_with(done, buffer@[0]),
                forall|i: int| 0 <= i < done.len() ==> !is_foreign_client_id(#[trigger] done[i]),
                !at_end ==> options(area) =~= done + options(buffer@.skip(pos as int)),
                !at_end ==> options_whole(area) == options_whole(buffer@.skip(pos as int)),
                at_end ==> options(area) =~= done && options_whole(area),
                buffer@[1] == HARDWARE_ETHERNET,
                buffer@[2] == HARDWARE_LEN_ETHERNET,
                u32_at(buffer@, 236) == DHCP_MAGIC_NUMBER,
                buffer@ == packet@,
            decreases buffer@.len() - pos + (if at_end { 0int } else { 1int }),
        {
            let ghost rest = buffer@.skip(pos as int);
            let kind: u8 = buffer[pos];
            if kind == OPT_END {
                at_end = true;
            } else if kind == OPT_PAD {
                assert(rest.skip(1) =~= buffer@.skip(pos + 1));
                pos = pos + 1;
            } else {
                if buffer.len() - pos < 2 || buffer.len() - pos - 2 < buffer[pos + 1] as usize {
                    assert(options(area) =~= done);
                    return Err(Error::Truncated);
                }
                let start: usize = pos + 2;
                let end: usize = start + buffer[pos + 1] as usize;
                let ghost opt = RawOption {
                    kind,
                    data: buffer@.subrange(start as int, end as int),
                };
                proof {
                    assert(rest.subrange(2, 2 + rest[1]) =~= opt.data);
                    assert(rest.skip(2 + rest[1]) =~= buffer@.skip(end as int));
                    assert(options(area) =~= done.push(opt) + options(buffer@.skip(end as int)));
                    assert(options(area)[done.len() as int] == opt);
                }
                match fields.take_in(buffer, kind, start, end, Ghost(done)) {
                    Ok(_) => {},
                    Err(e) => {
                        return Err(e);
                    },
                }
                proof {
                    done = done.push(opt);
                }
                pos = end;
            }
        }
        assert(options(area) =~= done && options_whole(area));
        match fields.message_type {
            None => Err(Error::Malformed),
            Some(message_type) => Ok(
                DhcpRepr {
                    message_type,
                    transaction_id: read_u32(buffer, 4),
                    client_hardware_address: read_ethernet(buffer, 28),
                    client_ip: read_ipv4(buffer, 12),
                    your_ip: read_ipv4(buffer, 16),
                    server_ip: read_ipv4(buffer, 20),
                    router: fields.router,
                    subnet_mask: fields.subnet_mask,
                    relay_agent_ip: read_ipv4(buffer, 24),
                    broadcast: buffer[10] >= 0x80,
                    requested_ip: fields.requested_ip,
                    client_identifier: fields.client_identifier,
                    server_identifier: fields.server_identifier,
                    parameter_request_list: fields.parameter_request_list,
                    max_size: fields.max_size,
                    lease_duration: fields.lease_duration,
                    dns_servers: fields.dns_servers,
                },
            ),
        }
    }

    /// Length of the packet that encodes the message, in octets.
    pub fn buffer_len(&self) -> (len: usize)
        requires
            self@.encoded_len() <= usize::MAX,
        ensures
            len == self@.encoded_len(),
    {
        let servers: usize = match &self.dns_servers {
            Some(servers) => 2 + len_of_servers(servers),
            None => 0,
        };
        let len: usize = OPTIONS_START + 3 + 1 + len_of_field(&self.requested_ip, 6) + len_of_field(
            &self.client_identifier,
            9,
        ) + len_of_field(&self.server_identifier, 6) + len_of_field(&self.max_size, 4)
            + len_of_field(&self.router, 6) + len_of_field(&self.subnet_mask, 6) + len_of_field(
            &self.lease_duration,
            6,
        ) + servers;
        match self.parameter_request_list {
            Some(list) => len + 2 + list.len(),
            None => len,
        }
    }
}

} // verus!
