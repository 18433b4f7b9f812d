use dhcp_client::error::Error;
use dhcp_client::time::{Duration, Instant};
use dhcp_client::wire::dhcpv4::{DhcpMessageType, DhcpPacket, DhcpRepr};
use dhcp_client::wire::ethernet::EthernetAddress;
use dhcp_client::wire::ipv4::{Ipv4Address, Ipv4Cidr};
use dhcp_client::wire::udp::UdpRepr;

/// A reply with the given options, up to but without the end marker.
fn reply(options: &[u8]) -> Vec<u8> {
    let mut packet = vec![0u8; 240];
    packet[0] = 2;
    packet[1] = 1;
    packet[2] = 6;
    packet[4..8].copy_from_slice(&[0x12, 0x34, 0x56, 0x78]);
    packet[10] = 0x80;
    packet[12..16].copy_from_slice(&[10, 0, 0, 1]);
    packet[16..20].copy_from_slice(&[10, 0, 0, 2]);
    packet[20..24].copy_from_slice(&[10, 0, 0, 3]);
    packet[24..28].copy_from_slice(&[10, 0, 0, 4]);
    packet[28..34].copy_from_slice(&[2, 0, 0, 0, 0, 9]);
    packet[236..240].copy_from_slice(&[0x63, 0x82, 0x53, 0x63]);
    packet.extend_from_slice(options);
    packet
}

fn parse(packet: &[u8]) -> Result<DhcpRepr<'_>, Error> {
    DhcpRepr::parse(&DhcpPacket::new_checked(packet).unwrap())
}

#[test]
fn parses_header_and_options() {
    let packet = reply(&[
        53, 1, 5, 0, 1, 4, 255, 255, 255, 0, 3, 4, 10, 0, 0, 254, 50, 4, 10, 0, 0, 50, 51, 4, 0, 1,
        0, 2, 54, 4, 10, 0, 0, 53, 55, 2, 1, 3, 57, 2, 5, 220, 61, 7, 1, 2, 0, 0, 0, 0, 9, 6, 8, 8,
        8, 8, 8, 1, 1, 1, 1, 255,
    ]);
    let repr = parse(&packet).unwrap();
    assert_eq!(repr.message_type, DhcpMessageType::Ack);
    assert_eq!(repr.transaction_id, 0x12345678);
    assert_eq!(repr.client_hardware_address, EthernetAddress([2, 0, 0, 0, 0, 9]));
    assert_eq!(repr.client_ip, Ipv4Address([10, 0, 0, 1]));
    assert_eq!(repr.your_ip, Ipv4Address([10, 0, 0, 2]));
    assert_eq!(repr.server_ip, Ipv4Address([10, 0, 0, 3]));
    assert_eq!(repr.relay_agent_ip, Ipv4Address([10, 0, 0, 4]));
    assert!(repr.broadcast);
    assert_eq!(repr.subnet_mask, Some(Ipv4Address([255, 255, 255, 0])));
    assert_eq!(repr.router, Some(Ipv4Address([10, 0, 0, 254])));
    assert_eq!(repr.requested_ip, Some(Ipv4Address([10, 0, 0, 50])));
    assert_eq!(repr.lease_duration, Some(65538));
    assert_eq!(repr.server_identifier, Some(Ipv4Address([10, 0, 0, 53])));
    assert_eq!(repr.parameter_request_list, Some(&[1u8, 3][..]));
    assert_eq!(repr.max_size, Some(1500));
    assert_eq!(repr.client_identifier, Some(EthernetAddress([2, 0, 0, 0, 0, 9])));
    assert_eq!(
        repr.dns_servers,
        Some([Some(Ipv4Address([8, 8, 8, 8])), Some(Ipv4Address([1, 1, 1, 1])), None])
    );
}

#[test]
fn absent_options_are_none() {
    let packet = reply(&[53, 1, 2, 255]);
    let repr = parse(&packet).unwrap();
    assert_eq!(repr.message_type, DhcpMessageType::Offer);
    assert_eq!(repr.subnet_mask, None);
    assert_eq!(repr.router, None);
    assert_eq!(repr.lease_duration, None);
    assert_eq!(repr.dns_servers, None);
    assert_eq!(repr.parameter_request_list, None);
}

#[test]
fn last_option_of_a_kind_wins() {
    let packet = reply(&[53, 1, 2, 51, 4, 0, 0, 0, 1, 51, 4, 0, 0, 0, 2, 51, 1, 9]);
    assert_eq!(parse(&packet).unwrap().lease_duration, Some(2));
}

#[test]
fn options_after_the_end_are_ignored() {
    let packet = reply(&[53, 1, 2, 255, 51, 4, 0, 0, 0, 1, 99]);
    assert_eq!(parse(&packet).unwrap().lease_duration, None);
}

#[test]
fn message_type_must_agree_with_operation() {
    // A request (3) is no reply; the offer before it stands.
    let packet = reply(&[53, 1, 2, 53, 1, 3]);
    assert_eq!(parse(&packet).unwrap().message_type, DhcpMessageType::Offer);
    let packet = reply(&[53, 1, 3]);
    assert_eq!(parse(&packet).unwrap_err(), Error::Malformed);
}

#[test]
fn dns_list_is_cut_to_whole_addresses_and_three() {
    let packet = reply(&[53, 1, 2, 6, 6, 1, 2, 3, 4, 5, 6]);
    let servers = parse(&packet).unwrap().dns_servers;
    assert_eq!(servers, Some([Some(Ipv4Address([1, 2, 3, 4])), None, None]));
    let packet =
        reply(&[53, 1, 2, 6, 16, 1, 1, 1, 1, 2, 2, 2, 2, 3, 3, 3, 3, 4, 4, 4, 4, 255]);
    let servers = parse(&packet).unwrap().dns_servers;
    assert_eq!(
        servers,
        Some([
            Some(Ipv4Address([1, 1, 1, 1])),
            Some(Ipv4Address([2, 2, 2, 2])),
            Some(Ipv4Address([3, 3, 3, 3]))
        ])
    );
}

#[test]
fn short_header_is_truncated() {
    let packet = reply(&[]);
    assert_eq!(DhcpPacket::new_checked(&packet[..239]).unwrap_err(), Error::Truncated);
    assert!(DhcpPacket::new_checked(&packet).is_ok());
}

#[test]
fn cut_off_option_is_truncated() {
    assert_eq!(parse(&reply(&[53, 1, 2, 51])).unwrap_err(), Error::Truncated);
    assert_eq!(parse(&reply(&[53, 1, 2, 51, 4, 0, 0, 0])).unwrap_err(), Error::Truncated);
}

#[test]
fn malformed_headers_are_refused() {
    let mut packet = reply(&[53, 1, 2]);
    packet[239] = 0;
    assert_eq!(parse(&packet).unwrap_err(), Error::Malformed);
    let mut packet = reply(&[53, 1, 2]);
    packet[2] = 5;
    assert_eq!(parse(&packet).unwrap_err(), Error::Malformed);
    assert_eq!(parse(&reply(&[])).unwrap_err(), Error::Malformed);
}

#[test]
fn foreign_hardware_is_unrecognized() {
    let mut packet = reply(&[53, 1, 2]);
    packet[1] = 7;
    assert_eq!(parse(&packet).unwrap_err(), Error::Unrecognized);
    let packet = reply(&[53, 1, 2, 61, 7, 9, 1, 2, 3, 4, 5, 6, 51]);
    assert_eq!(parse(&packet).unwrap_err(), Error::Unrecognized);
    // Identifiers of another length say nothing about hardware.
    let packet = reply(&[53, 1, 2, 61, 2, 9, 1]);
    assert_eq!(parse(&packet).unwrap().client_identifier, None);
}

#[test]
fn message_types_and_operations() {
    let ops: Vec<u8> = (0..10).map(|t| DhcpMessageType::from_octet(t).opcode()).collect();
    assert_eq!(ops, vec![0, 1, 2, 1, 1, 2, 2, 1, 1, 0]);
    assert_eq!(DhcpMessageType::from_octet(9), DhcpMessageType::Unknown(9));
}

#[test]
fn packet_lengths() {
    let packet = reply(&[
        53, 1, 5, 1, 4, 255, 255, 255, 0, 3, 4, 10, 0, 0, 254, 50, 4, 10, 0, 0, 50, 51, 4, 0, 1, 0,
        2, 54, 4, 10, 0, 0, 53, 55, 2, 1, 3, 57, 2, 5, 220, 61, 7, 1, 2, 0, 0, 0, 0, 9, 6, 8, 8, 8,
        8, 8, 1, 1, 1, 1, 255,
    ]);
    // Each option occurs once, so that an encoding is as long as the packet.
    assert_eq!(parse(&packet).unwrap().buffer_len(), packet.len());
    assert_eq!(parse(&reply(&[53, 1, 5, 255])).unwrap().buffer_len(), 244);
    assert_eq!(UdpRepr { src_port: 1, dst_port: 2 }.header_len(), 8);
}

#[test]
fn prefix_lengths() {
    assert_eq!(Ipv4Address([0, 0, 0, 0]).to_prefix_len(), Some(0));
    assert_eq!(Ipv4Address([128, 0, 0, 0]).to_prefix_len(), Some(1));
    assert_eq!(Ipv4Address([255, 255, 255, 0]).to_prefix_len(), Some(24));
    assert_eq!(Ipv4Address([255, 255, 254, 0]).to_prefix_len(), Some(23));
    assert_eq!(Ipv4Address([255, 255, 255, 255]).to_prefix_len(), Some(32));
    assert_eq!(Ipv4Address([255, 0, 255, 0]).to_prefix_len(), None);
    assert_eq!(Ipv4Address([0, 255, 0, 0]).to_prefix_len(), None);
    assert_eq!(Ipv4Address([255, 255, 255, 1]).to_prefix_len(), None);
}

#[test]
fn unicast_addresses() {
    assert!(Ipv4Address([10, 0, 0, 1]).is_unicast());
    assert!(Ipv4Address([223, 255, 255, 255]).is_unicast());
    assert!(!Ipv4Address([224, 0, 0, 1]).is_unicast());
    assert!(!Ipv4Address([239, 255, 255, 255]).is_unicast());
    assert!(Ipv4Address([240, 0, 0, 1]).is_unicast());
    assert!(!Ipv4Address::broadcast().is_unicast());
    assert!(!Ipv4Address::unspecified().is_unicast());
}

#[test]
fn addresses_and_blocks_compare_by_value() {
    let a = Ipv4Address([10, 0, 0, 1]);
    assert!(a == Ipv4Address([10, 0, 0, 1]));
    assert!(a != Ipv4Address([10, 0, 0, 2]));
    assert!(Ipv4Cidr::new(a, 24) == Ipv4Cidr::new(a, 24));
    assert!(Ipv4Cidr::new(a, 24) != Ipv4Cidr::new(a, 25));
    assert_eq!(Ipv4Cidr::new(a, 24).address(), a);
    assert!(EthernetAddress([1, 2, 3, 4, 5, 6]) != EthernetAddress([1, 2, 3, 4, 5, 7]));
}

#[test]
fn instants_and_durations() {
    let t = Instant::from_millis(-500);
    assert_eq!(t + Duration::from_secs(2), Instant::from_millis(1500));
    assert_eq!(Instant::from_millis(1500) - t, Duration::from_millis(2000));
    assert_eq!(t - Instant::from_millis(1500), Duration::from_millis(2000));
    assert_eq!(Duration::from_millis(7) / 2, Duration::from_millis(3));
    assert_eq!(
        Instant::from_millis(i64::MAX) - Instant::from_millis(i64::MIN),
        Duration::from_millis(u64::MAX)
    );
    assert_eq!(
        Instant::from_millis(i64::MIN) + Duration::from_millis(u64::MAX),
        Instant::from_millis(i64::MAX)
    );
    assert_eq!(t.min(Instant::from_millis(0)), t);
    assert_eq!(Instant::from_millis(0).min(t), t);
    assert_eq!(Duration::from_secs(1).max(Duration::from_millis(999)), Duration::from_secs(1));
    assert_eq!(Duration::from_secs(1).max(Duration::from_secs(3)), Duration::from_secs(3));
    assert!(t < Instant::from_millis(-499) && t <= t && !(t < t));
}
