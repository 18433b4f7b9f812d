use dhcp_client::error::Error;
use dhcp_client::socket::dhcpv4::{Config, Dhcpv4Socket, Event};
use dhcp_client::socket::{PollAt, Socket};
use dhcp_client::time::Instant;
use dhcp_client::wire::dhcpv4::{DhcpMessageType, DhcpRepr};
use dhcp_client::wire::ethernet::EthernetAddress;
use dhcp_client::wire::ipv4::{IpProtocol, Ipv4Address, Ipv4Cidr, Ipv4Repr};
use dhcp_client::wire::udp::UdpRepr;

const HW: EthernetAddress = EthernetAddress([2, 2, 2, 2, 2, 2]);
const SERVER: Ipv4Address = Ipv4Address([192, 168, 1, 1]);
const SERVER_ID: Ipv4Address = Ipv4Address([192, 168, 1, 3]);
const MINE: Ipv4Address = Ipv4Address([192, 168, 1, 42]);
const OFFER: u8 = 2;
const ACK: u8 = 5;
const NAK: u8 = 6;

fn at(millis: i64) -> Instant {
    Instant::from_millis(millis)
}

/// The header of a packet from the server.
fn ip() -> Ipv4Repr {
    Ipv4Repr {
        src_addr: SERVER,
        dst_addr: Ipv4Address([255, 255, 255, 255]),
        protocol: IpProtocol::Udp,
        payload_len: 0,
        hop_limit: 64,
    }
}

fn udp() -> UdpRepr {
    UdpRepr { src_port: 67, dst_port: 68 }
}

/// A reply of the server to the client `HW`; `extra` holds options.
fn reply(kind: u8, xid: u32, your_ip: Ipv4Address, extra: &[u8]) -> Vec<u8> {
    let mut packet = vec![0u8; 240];
    packet[0] = 2;
    packet[1] = 1;
    packet[2] = 6;
    packet[4..8].copy_from_slice(&xid.to_be_bytes());
    packet[16..20].copy_from_slice(&your_ip.0);
    packet[28..34].copy_from_slice(&HW.0);
    packet[236..240].copy_from_slice(&[0x63, 0x82, 0x53, 0x63]);
    packet.extend_from_slice(&[53, 1, kind, 54, 4]);
    packet.extend_from_slice(&SERVER_ID.0);
    packet.extend_from_slice(extra);
    packet.push(255);
    packet
}

/// Options of an acknowledgement: a mask of 24 bits, a router, a DNS server and a lease.
fn lease(secs: u32) -> Vec<u8> {
    let mut options = vec![1, 4, 255, 255, 255, 0, 3, 4, 192, 168, 1, 254, 6, 4, 9, 9, 9, 9, 51, 4];
    options.extend_from_slice(&secs.to_be_bytes());
    options
}

fn leased_config() -> Config {
    Config {
        address: Ipv4Cidr::new(MINE, 24),
        router: Some(Ipv4Address([192, 168, 1, 254])),
        dns_servers: [Some(Ipv4Address([9, 9, 9, 9])), None, None],
    }
}

fn receive(socket: &mut Dhcpv4Socket, now: i64, payload: &[u8]) {
    assert_eq!(socket.process(at(now), HW, &ip(), &udp(), payload), Ok(()));
}

/// Runs `dispatch`, and returns what was emitted.
fn send(socket: &mut Dhcpv4Socket, now: i64) -> (Result<(), Error>, Option<Sent>) {
    let mut sent = None;
    let result = socket.dispatch(at(now), HW, 1500, |(ip, udp, dhcp): (Ipv4Repr, UdpRepr, DhcpRepr<'_>)| {
        sent = Some(Sent {
            ip,
            udp,
            list: dhcp.parameter_request_list.map(|list| list.to_vec()),
            len: dhcp.buffer_len(),
            kind: dhcp.message_type,
            xid: dhcp.transaction_id,
            hw: dhcp.client_hardware_address,
            client_id: dhcp.client_identifier,
            client_ip: dhcp.client_ip,
            requested_ip: dhcp.requested_ip,
            server_id: dhcp.server_identifier,
            broadcast: dhcp.broadcast,
            max_size: dhcp.max_size,
        });
        Ok(())
    });
    (result, sent)
}

struct Sent {
    ip: Ipv4Repr,
    udp: UdpRepr,
    list: Option<Vec<u8>>,
    len: usize,
    kind: DhcpMessageType,
    xid: u32,
    hw: EthernetAddress,
    client_id: Option<EthernetAddress>,
    client_ip: Ipv4Address,
    requested_ip: Option<Ipv4Address>,
    server_id: Option<Ipv4Address>,
    broadcast: bool,
    max_size: Option<u16>,
}

/// A socket that has been offered an address at time 0.
fn requesting() -> Dhcpv4Socket {
    let mut socket = Dhcpv4Socket::new();
    send(&mut socket, 0);
    receive(&mut socket, 0, &reply(OFFER, 2, MINE, &[]));
    socket
}

/// A socket that got a lease at time 0, and has reported it.
fn bound(secs: u32) -> Dhcpv4Socket {
    let mut socket = requesting();
    send(&mut socket, 0);
    receive(&mut socket, 0, &reply(ACK, 3, MINE, &lease(secs)));
    assert!(matches!(socket.poll(), Event::Configured(_)));
    socket
}

fn is_requesting(socket: &mut Dhcpv4Socket, now: i64) -> bool {
    let (_, sent) = send(socket, now);
    sent.map_or(false, |sent| sent.kind == DhcpMessageType::Request)
}

#[test]
fn new_socket_is_deconfigured_and_due() {
    let mut socket = Dhcpv4Socket::new();
    assert_eq!(socket.poll_at(), PollAt::Time(at(0)));
    assert_eq!(socket.transaction_id(), 1);
    assert!(matches!(socket.poll(), Event::Deconfigured));
    assert!(matches!(socket.poll(), Event::NoChange));
}

#[test]
fn discovery_packet() {
    let mut socket = Dhcpv4Socket::new();
    let (result, sent) = send(&mut socket, 7);
    assert_eq!(result, Ok(()));
    let sent = sent.unwrap();
    assert_eq!(sent.kind, DhcpMessageType::Discover);
    assert_eq!(sent.xid, 2);
    assert_eq!(sent.hw, HW);
    assert_eq!(sent.client_id, Some(HW));
    assert_eq!(sent.client_ip, Ipv4Address([0, 0, 0, 0]));
    assert_eq!(sent.requested_ip, None);
    assert_eq!(sent.server_id, None);
    assert!(sent.broadcast);
    assert_eq!(sent.list, Some(vec![1, 3, 6]));
    assert_eq!(sent.max_size, Some(1432));
    assert_eq!(sent.len, 262);
    assert_eq!(sent.ip.payload_len, 270);
    assert_eq!(sent.ip.src_addr, Ipv4Address([0, 0, 0, 0]));
    assert_eq!(sent.ip.dst_addr, Ipv4Address([255, 255, 255, 255]));
    assert_eq!(sent.ip.protocol, IpProtocol::Udp);
    assert_eq!(sent.ip.hop_limit, 64);
    assert_eq!(sent.udp, UdpRepr { src_port: 68, dst_port: 67 });
    assert_eq!(socket.poll_at(), PollAt::Time(at(10_007)));
    assert_eq!(socket.transaction_id(), 2);
}

#[test]
fn max_size_follows_mtu() {
    let sizes: Vec<Option<u16>> = [68usize, 576, 65_603, 65_604]
        .iter()
        .map(|mtu| {
            let mut size = None;
            let mut socket = Dhcpv4Socket::new();
            let emit = |packet: (Ipv4Repr, UdpRepr, DhcpRepr<'_>)| {
                size = packet.2.max_size;
                Ok(())
            };
            assert_eq!(socket.dispatch(at(0), HW, *mtu, emit), Ok(()));
            size
        })
        .collect();
    assert_eq!(sizes, vec![Some(0), Some(508), Some(65_535), Some(0)]);
}

#[test]
fn discovery_is_repeated_every_ten_seconds() {
    let mut socket = Dhcpv4Socket::new();
    assert_eq!(send(&mut socket, -1).0, Err(Error::Exhausted));
    assert!(send(&mut socket, 0).1.is_some());
    let (result, sent) = send(&mut socket, 9_999);
    assert_eq!(result, Err(Error::Exhausted));
    assert!(sent.is_none());
    let (_, sent) = send(&mut socket, 10_000);
    assert_eq!(sent.unwrap().xid, 3);
}

#[test]
fn failed_emission_changes_nothing() {
    let mut socket = Dhcpv4Socket::new();
    let result = socket.dispatch(at(5), HW, 1500, |_| Err(Error::Unaddressable));
    assert_eq!(result, Err(Error::Unaddressable));
    assert_eq!(socket.poll_at(), PollAt::Time(at(0)));
    assert_eq!(socket.transaction_id(), 1);

    let mut socket = bound(600);
    let result = socket.dispatch(at(300_000), HW, 1500, |_| Err(Error::Dropped));
    assert_eq!(result, Err(Error::Dropped));
    assert_eq!(socket.poll_at(), PollAt::Time(at(300_000)));
    assert_eq!(socket.transaction_id(), 3);
}

#[test]
fn handshake_configures() {
    let mut socket = Dhcpv4Socket::new();
    assert!(matches!(socket.poll(), Event::Deconfigured));
    send(&mut socket, 0);
    receive(&mut socket, 100, &reply(OFFER, 2, MINE, &[]));
    assert!(matches!(socket.poll(), Event::NoChange));
    assert_eq!(socket.poll_at(), PollAt::Time(at(100)));

    let (_, sent) = send(&mut socket, 150);
    let sent = sent.unwrap();
    assert_eq!(sent.kind, DhcpMessageType::Request);
    assert_eq!(sent.xid, 3);
    assert_eq!(sent.requested_ip, Some(MINE));
    assert_eq!(sent.server_id, Some(SERVER_ID));
    assert_eq!(sent.client_ip, Ipv4Address([0, 0, 0, 0]));
    assert!(!sent.broadcast);
    assert_eq!(sent.ip.src_addr, Ipv4Address([0, 0, 0, 0]));
    assert_eq!(sent.ip.dst_addr, Ipv4Address([255, 255, 255, 255]));
    assert_eq!(sent.len, 274);
    assert_eq!(sent.ip.payload_len, 282);

    receive(&mut socket, 200, &reply(ACK, 3, MINE, &lease(601)));
    match socket.poll() {
        Event::Configured(config) => assert_eq!(*config, leased_config()),
        _ => panic!("no configuration"),
    }
    assert!(matches!(socket.poll(), Event::NoChange));
    // Half of 601 seconds, in whole seconds.
    assert_eq!(socket.poll_at(), PollAt::Time(at(300_200)));
}

#[test]
fn acknowledgement_of_a_repeated_request_through_a_relay() {
    let mut socket = requesting();
    for now in [0, 1_000, 2_000] {
        assert!(is_requesting(&mut socket, now));
    }
    let relayed = Ipv4Repr { src_addr: Ipv4Address([192, 168, 1, 2]), ..ip() };
    let ack = reply(ACK, 5, MINE, &lease(600));
    assert_eq!(socket.process(at(2_500), HW, &relayed, &udp(), &ack), Ok(()));
    match socket.poll() {
        Event::Configured(config) => assert_eq!(*config, leased_config()),
        _ => panic!("no configuration"),
    }
    assert_eq!(socket.poll_at(), PollAt::Time(at(302_500)));
    // The server of the offer is the one to renew with.
    assert_eq!(send(&mut socket, 302_500).1.unwrap().ip.dst_addr, SERVER);
}

#[test]
fn lease_defaults() {
    let mut socket = requesting();
    send(&mut socket, 0);
    receive(&mut socket, 0, &reply(ACK, 3, MINE, &[1, 4, 255, 255, 0, 0]));
    match socket.poll() {
        Event::Configured(config) => {
            assert_eq!(config.address, Ipv4Cidr::new(MINE, 16));
            assert_eq!(config.router, None);
            assert_eq!(config.dns_servers, [None, None, None]);
        }
        _ => panic!("no configuration"),
    }
    // Half of two minutes.
    assert_eq!(socket.poll_at(), PollAt::Time(at(60_000)));
}

#[test]
fn acknowledgement_is_read() {
    let packet = reply(ACK, 3, MINE, &lease(7200));
    let parsed = dhcp_client::wire::dhcpv4::DhcpPacket::new_checked(&packet).unwrap();
    let repr = DhcpRepr::parse(&parsed).unwrap();
    let (config, renew_at, expires_at) =
        Dhcpv4Socket::parse_ack(at(1_000), &ip(), &repr).unwrap();
    assert_eq!(config, leased_config());
    assert_eq!(renew_at, at(3_601_000));
    assert_eq!(expires_at, at(7_201_000));

    let mut socket = requesting();
    let mut late = repr;
    late.transaction_id = 2;
    socket.process_message(at(1_000), HW, &ip(), &late);
    assert_eq!(socket.poll_at(), PollAt::Time(at(3_601_000)));
}

#[test]
fn useless_acknowledgements_are_ignored() {
    let mut socket = requesting();
    send(&mut socket, 0);
    // No mask, a mask that is none, an address that is not unicast.
    receive(&mut socket, 0, &reply(ACK, 3, MINE, &[]));
    receive(&mut socket, 0, &reply(ACK, 3, MINE, &[1, 4, 255, 0, 255, 0]));
    receive(&mut socket, 0, &reply(ACK, 3, Ipv4Address([224, 0, 0, 1]), &lease(60)));
    assert!(matches!(socket.poll(), Event::Deconfigured));
    assert!(is_requesting(&mut socket, 1_000));
}

#[test]
fn useless_offers_are_ignored() {
    for address in [[0, 0, 0, 0], [255, 255, 255, 255], [230, 1, 1, 1]] {
        let mut socket = Dhcpv4Socket::new();
        send(&mut socket, 0);
        receive(&mut socket, 0, &reply(OFFER, 2, Ipv4Address(address), &[]));
        assert_eq!(socket.poll_at(), PollAt::Time(at(10_000)));
    }
}

#[test]
fn packets_of_strangers_are_ignored() {
    let good = reply(OFFER, 2, MINE, &[]);
    let fresh = || {
        let mut socket = Dhcpv4Socket::new();
        send(&mut socket, 0);
        socket
    };
    let idle = PollAt::Time(at(10_000));

    // Ports.
    let mut socket = fresh();
    let ports = UdpRepr { src_port: 68, dst_port: 68 };
    assert_eq!(socket.process(at(1), HW, &ip(), &ports, &good), Ok(()));
    let ports = UdpRepr { src_port: 67, dst_port: 67 };
    assert_eq!(socket.process(at(1), HW, &ip(), &ports, &good), Ok(()));
    assert_eq!(socket.poll_at(), idle);

    // Octets that are no message.
    receive(&mut socket, 1, &[]);
    receive(&mut socket, 1, &good[..200]);
    receive(&mut socket, 1, &good[..good.len() - 2]);
    assert_eq!(socket.poll_at(), idle);

    // Another client.
    let other = EthernetAddress([2, 2, 2, 2, 2, 3]);
    assert_eq!(socket.process(at(1), other, &ip(), &udp(), &good), Ok(()));
    assert_eq!(socket.poll_at(), idle);

    // Another transaction.
    receive(&mut socket, 1, &reply(OFFER, 1, MINE, &[]));
    receive(&mut socket, 1, &reply(OFFER, 3, MINE, &[]));
    assert_eq!(socket.poll_at(), idle);

    // No server identifier.
    let mut nameless = good.clone();
    nameless[243] = 12;
    receive(&mut socket, 1, &nameless);
    assert_eq!(socket.poll_at(), idle);

    // Messages that make no sense now.
    receive(&mut socket, 1, &reply(ACK, 2, MINE, &lease(60)));
    receive(&mut socket, 1, &reply(NAK, 2, MINE, &[]));
    assert_eq!(socket.poll_at(), idle);

    receive(&mut socket, 1, &good);
    assert_eq!(socket.poll_at(), PollAt::Time(at(1)));
}

#[test]
fn late_answers_do_not_count() {
    let mut socket = Dhcpv4Socket::new();
    send(&mut socket, 0);
    send(&mut socket, 10_000);
    receive(&mut socket, 10_001, &reply(OFFER, 2, MINE, &[]));
    assert_eq!(socket.poll_at(), PollAt::Time(at(20_000)));
    receive(&mut socket, 10_001, &reply(OFFER, 3, MINE, &[]));
    assert_eq!(socket.poll_at(), PollAt::Time(at(10_001)));
}

#[test]
fn requests_are_limited_to_fifteen() {
    let mut socket = requesting();
    for i in 0..15 {
        assert_eq!(socket.poll_at(), PollAt::Time(at(i * 1_000)));
        assert!(is_requesting(&mut socket, i * 1_000));
        assert_eq!(send(&mut socket, i * 1_000 + 999).0, Err(Error::Exhausted));
    }
    let (result, sent) = send(&mut socket, 15_000);
    assert_eq!(result, Ok(()));
    assert!(sent.is_none());
    assert_eq!(socket.poll_at(), PollAt::Time(at(0)));
    assert_eq!(send(&mut socket, 15_000).1.unwrap().kind, DhcpMessageType::Discover);
    assert_eq!(socket.transaction_id(), 18);
}

#[test]
fn refusals_restart() {
    let mut socket = requesting();
    assert!(matches!(socket.poll(), Event::Deconfigured));
    send(&mut socket, 0);
    receive(&mut socket, 1, &reply(NAK, 3, MINE, &[]));
    assert!(matches!(socket.poll(), Event::NoChange));
    assert_eq!(socket.poll_at(), PollAt::Time(at(0)));

    let mut socket = bound(600);
    receive(&mut socket, 1, &reply(NAK, 3, MINE, &[]));
    assert!(matches!(socket.poll(), Event::Deconfigured));
    assert_eq!(send(&mut socket, 1).1.unwrap().kind, DhcpMessageType::Discover);
}

#[test]
fn renewal_packet() {
    let mut socket = bound(600);
    assert_eq!(send(&mut socket, 299_999).0, Err(Error::Exhausted));
    let (result, sent) = send(&mut socket, 300_000);
    assert_eq!(result, Ok(()));
    let sent = sent.unwrap();
    assert_eq!(sent.kind, DhcpMessageType::Request);
    assert_eq!(sent.xid, 4);
    assert_eq!(sent.ip.src_addr, MINE);
    assert_eq!(sent.ip.dst_addr, SERVER);
    assert_eq!(sent.client_ip, MINE);
    assert_eq!(sent.requested_ip, None);
    assert_eq!(sent.server_id, None);
    assert!(!sent.broadcast);
    assert_eq!(sent.ip.payload_len, 270);
}

#[test]
fn renewals_wait_half_of_the_rest_or_a_minute() {
    let mut socket = bound(600);
    let mut times = Vec::new();
    let mut now = 0;
    while now < 600_000 {
        match socket.poll_at() {
            PollAt::Time(t) => now = t.millis,
            _ => unreachable!(),
        }
        times.push(now);
        assert_eq!(send(&mut socket, now).0, Ok(()));
    }
    // Half of 300, of 150 and of 75 seconds; then a minute would be too long.
    assert_eq!(times, vec![300_000, 450_000, 525_000, 585_000, 600_000]);
    assert!(matches!(socket.poll(), Event::Deconfigured));
}

#[test]
fn renewal_with_the_same_configuration_is_silent() {
    let mut socket = bound(600);
    send(&mut socket, 300_000);
    receive(&mut socket, 301_000, &reply(ACK, 4, MINE, &lease(600)));
    assert!(matches!(socket.poll(), Event::NoChange));
    assert_eq!(socket.poll_at(), PollAt::Time(at(601_000)));
    assert_eq!(send(&mut socket, 600_999).0, Err(Error::Exhausted));
}

#[test]
fn renewal_with_another_configuration_is_reported() {
    let mut socket = bound(600);
    send(&mut socket, 300_000);
    let other = Ipv4Address([192, 168, 1, 43]);
    receive(&mut socket, 301_000, &reply(ACK, 4, other, &lease(600)));
    match socket.poll() {
        Event::Configured(config) => assert_eq!(config.address, Ipv4Cidr::new(other, 24)),
        _ => panic!("no configuration"),
    }
}

#[test]
fn useless_renewals_are_ignored() {
    let mut socket = bound(600);
    receive(&mut socket, 10_000, &reply(ACK, 3, MINE, &[]));
    receive(&mut socket, 10_000, &reply(OFFER, 3, MINE, &[]));
    assert!(matches!(socket.poll(), Event::NoChange));
    assert_eq!(socket.poll_at(), PollAt::Time(at(300_000)));
}

#[test]
fn lease_expires() {
    let mut socket = bound(600);
    let (result, sent) = send(&mut socket, 600_000);
    assert_eq!(result, Ok(()));
    assert!(sent.is_none());
    assert!(matches!(socket.poll(), Event::Deconfigured));
    assert_eq!(socket.poll_at(), PollAt::Time(at(0)));
    assert_eq!(send(&mut socket, 600_000).1.unwrap().kind, DhcpMessageType::Discover);
}

#[test]
fn lease_of_no_time_expires_at_once() {
    let mut socket = bound(0);
    assert_eq!(socket.poll_at(), PollAt::Time(at(0)));
    let (result, sent) = send(&mut socket, 0);
    assert_eq!(result, Ok(()));
    assert!(sent.is_none());
    assert!(matches!(socket.poll(), Event::Deconfigured));
}

#[test]
fn renewal_timer_does_not_pass_the_expiry() {
    // A lease of one minute: the renewal is due after half of it, and the next one would be due
    // half a minute after the end.
    let mut socket = bound(60);
    assert!(send(&mut socket, 30_000).1.is_some());
    assert_eq!(socket.poll_at(), PollAt::Time(at(60_000)));
    assert_eq!(send(&mut socket, 59_999).0, Err(Error::Exhausted));
    assert_eq!(send(&mut socket, 60_000).0, Ok(()));
    assert!(matches!(socket.poll(), Event::Deconfigured));
}

#[test]
fn reset_loses_the_lease() {
    let mut socket = bound(600);
    socket.reset();
    assert_eq!(socket.poll_at(), PollAt::Time(at(0)));
    assert!(matches!(socket.poll(), Event::Deconfigured));
    socket.reset();
    assert!(matches!(socket.poll(), Event::NoChange));
    assert_eq!(socket.transaction_id(), 3);
}

#[test]
fn change_before_the_query_is_reported_as_it_stands() {
    let mut socket = requesting();
    send(&mut socket, 0);
    receive(&mut socket, 0, &reply(ACK, 3, MINE, &lease(600)));
    socket.reset();
    assert!(matches!(socket.poll(), Event::Deconfigured));
    assert!(matches!(socket.poll(), Event::NoChange));
}

#[test]
fn configurations_compare_by_value() {
    assert!(leased_config() == leased_config());
    let mut other = leased_config();
    other.dns_servers[2] = Some(SERVER);
    assert!(other != leased_config());
    let mut other = leased_config();
    other.router = None;
    assert!(other != leased_config());
}

#[test]
fn longest_lease_fits() {
    let mut socket = requesting();
    send(&mut socket, 0);
    let now = i64::MAX - u32::MAX as i64 * 1000;
    receive(&mut socket, now, &reply(ACK, 3, MINE, &lease(u32::MAX)));
    assert_eq!(socket.poll_at(), PollAt::Time(at(now + 2_147_483_647_000)));
}

#[test]
fn socket_of_any_kind() {
    let socket: Socket = bound(600).into();
    let Socket::Dhcpv4(inner) = socket;
    assert_eq!(inner.poll_at(), PollAt::Time(at(300_000)));
}
