//! The model of a DHCP client: its state, and what each event does to it.
//!
//! Times are in milliseconds, on an unbounded scale.

use vstd::prelude::*;

use super::dhcpv4::Config;
use super::SocketMeta;
use crate::time::{max, min};
use crate::wire::dhcpv4::{
    decoded, DhcpMessage, DhcpMessageType, DHCP_CLIENT_PORT, DHCP_SERVER_PORT,
    OPT_DOMAIN_NAME_SERVER, OPT_ROUTER, OPT_SUBNET_MASK,
};
use crate::wire::ethernet::EthernetAddress;
use crate::wire::ipv4::{IpProtocol, Ipv4Address, Ipv4Cidr, Ipv4Repr};
use crate::wire::udp::{UdpRepr, UDP_HEADER_LEN};

verus! {

/// How long to wait for an offer before the next discovery, in seconds.
pub const DISCOVER_TIMEOUT: u64 = 10;

/// How long to wait for the answer to a request before the next one, in seconds.
pub const REQUEST_TIMEOUT: u64 = 1;

/// How many requests to send for one offer.
pub const REQUEST_RETRIES: u16 = 15;

/// The least time between two attempts at renewing a lease, in seconds.
pub const MIN_RENEW_TIMEOUT: u64 = 60;

/// How long a lease is good for if the server does not say, in seconds.
pub const DEFAULT_LEASE_DURATION: u32 = 120;

/// Length of the longest IPv4 header, in octets.
pub const MAX_IPV4_HEADER_LEN: usize = 60;

/// Hop limit of the packets that a client sends.
pub const HOP_LIMIT: u8 = 64;

/// Information on how to reach a DHCP server.
#[derive(Debug, Clone, Copy)]
pub struct ServerInfo {
    /// IP address to use as destination in outgoing packets.
    pub address: Ipv4Address,
    /// Server identifier to use in outgoing packets. Usually equal to `address`, but may differ
    /// in some situations (e.g. DHCP relays).
    pub identifier: Ipv4Address,
}

/// What a client is about.
pub enum Phase {
    /// It looks for a server.
    Discovering {
        /// When to send the next discovery.
        retry_at: int,
    },
    /// It asks for an address that a server has offered.
    Requesting {
        /// When to send the next request.
        retry_at: int,
        /// How many requests have been sent.
        retry: int,
        /// The server that made the offer.
        server: ServerInfo,
        /// The address that was offered.
        requested_ip: Ipv4Address,
    },
    /// It has an address, and renews the lease on it from time to time.
    Renewing {
        /// The server that granted the lease.
        server: ServerInfo,
        /// The configuration that came with the lease.
        config: Config,
        /// When to ask for a renewal. Never after `expires_at`.
        renew_at: int,
        /// When the lease ends.
        expires_at: int,
    },
}

/// The state of a client.
pub struct Client {
    pub meta: SocketMeta,
    pub phase: Phase,
    /// Whether the configuration has changed since it was last reported.
    pub config_changed: bool,
    /// Transaction id of the message that was sent last.
    pub transaction_id: u32,
}

/// A lease that a server grants.
pub struct Lease {
    pub config: Config,
    pub renew_at: int,
    pub expires_at: int,
}

/// What a client does when it gets the chance to send.
pub enum Egress {
    /// It is not yet time for anything.
    Idle,
    /// It gives up on the server, or on the lease, and starts over.
    Restart,
    /// It sends a packet.
    Send(Ipv4Repr, UdpRepr, DhcpMessage),
}

/// How long a lease lasts that an acknowledgement grants, in seconds.
pub open spec fn lease_secs(ack: DhcpMessage) -> int {
    match ack.lease_duration {
        Some(secs) => secs as int,
        None => DEFAULT_LEASE_DURATION as int,
    }
}

/// The configuration that an acknowledgement carries, on a network with prefixes of
/// `prefix_len` bits.
pub open spec fn acked_config(ack: DhcpMessage, prefix_len: u8) -> Config {
    Config {
        address: Ipv4Cidr { address: ack.your_ip, prefix_len },
        router: ack.router,
        dns_servers: match ack.dns_servers {
            Some(servers) => servers,
            None => [None, None, None],
        },
    }
}

/// The lease that an acknowledgement grants when it comes in at `now`. It grants none without a
/// subnet mask or an address for a single host.
pub open spec fn granted(now: int, ack: DhcpMessage) -> Option<Lease> {
    match ack.subnet_mask {
        None => None,
        Some(mask) => match mask.prefix_len() {
            None => None,
            Some(prefix_len) => if !ack.your_ip.names_one_host() {
                None
            } else {
                Some(
                    Lease {
                        config: acked_config(ack, prefix_len),
                        renew_at: now + lease_secs(ack) / 2 * 1000,
                        expires_at: now + lease_secs(ack) * 1000,
                    },
                )
            },
        },
    }
}

/// The discovery that a client with the hardware address `hw` broadcasts on a link with the given
/// MTU.
pub open spec fn discover_message(xid: u32, hw: EthernetAddress, ip_mtu: int) -> DhcpMessage {
    DhcpMessage {
        message_type: DhcpMessageType::Discover,
        transaction_id: xid,
        client_hardware_address: hw,
        client_ip: Ipv4Address::unspecified(),
        your_ip: Ipv4Address::unspecified(),
        server_ip: Ipv4Address::unspecified(),
        router: None,
        subnet_mask: None,
        relay_agent_ip: Ipv4Address::unspecified(),
        broadcast: true,
        requested_ip: None,
        client_identifier: Some(hw),
        server_identifier: None,
        parameter_request_list: Some(seq![OPT_SUBNET_MASK, OPT_ROUTER, OPT_DOMAIN_NAME_SERVER]),
        max_size: Some(((ip_mtu - MAX_IPV4_HEADER_LEN - UDP_HEADER_LEN) % 0x1_0000) as u16),
        lease_duration: None,
        dns_servers: None,
    }
}

/// The request for an address that was offered.
pub open spec fn request_message(
    xid: u32,
    hw: EthernetAddress,
    ip_mtu: int,
    requested_ip: Ipv4Address,
    server_identifier: Ipv4Address,
) -> DhcpMessage {
    DhcpMessage {
        message_type: DhcpMessageType::Request,
        broadcast: false,
        requested_ip: Some(requested_ip),
        server_identifier: Some(server_identifier),
        ..discover_message(xid, hw, ip_mtu)
    }
}

/// The request to renew the lease on an address.
pub open spec fn renew_message(
    xid: u32,
    hw: EthernetAddress,
    ip_mtu: int,
    client_ip: Ipv4Address,
) -> DhcpMessage {
    DhcpMessage {
        message_type: DhcpMessageType::Request,
        broadcast: false,
        client_ip,
        ..discover_message(xid, hw, ip_mtu)
    }
}

/// The sending of a message from a client to a server, from one address to another.
pub open spec fn sending(src: Ipv4Address, dst: Ipv4Address, message: DhcpMessage) -> Egress {
    Egress::Send(
        Ipv4Repr {
            src_addr: src,
            dst_addr: dst,
            protocol: IpProtocol::Udp,
            payload_len: (UDP_HEADER_LEN + message.encoded_len()) as usize,
            hop_limit: HOP_LIMIT,
        },
        UdpRepr { src_port: DHCP_CLIENT_PORT, dst_port: DHCP_SERVER_PORT },
        message,
    )
}

/// Whether a time fits an `Instant`.
pub open spec fn is_instant(t: int) -> bool {
    i64::MIN <= t <= i64::MAX
}

impl Client {
    /// What holds of a client at all times.
    pub open spec fn wf(self) -> bool {
        match self.phase {
            Phase::Discovering { .. } => true,
            Phase::Requesting { retry, requested_ip, .. } => {
                &&& 0 <= retry <= REQUEST_RETRIES
                &&& requested_ip.names_one_host()
            },
            Phase::Renewing { config, renew_at, expires_at, .. } => {
                &&& renew_at <= expires_at
                &&& config.address.wf()
                &&& config.address.address.names_one_host()
            },
        }
    }

    /// Whether all times fit an `Instant`.
    pub open spec fn in_range(self) -> bool {
        match self.phase {
            Phase::Discovering { retry_at } => is_instant(retry_at),
            Phase::Requesting { retry_at, .. } => is_instant(retry_at),
            Phase::Renewing { renew_at, expires_at, .. } => is_instant(renew_at) && is_instant(
                expires_at,
            ),
        }
    }

    /// Whether all times fit an `Instant` in the client `next`, if they do in this one.
    pub open spec fn stays_in_range(self, next: Client) -> bool {
        self.in_range() ==> next.in_range()
    }

    /// A client that has not done anything yet.
    pub open spec fn initial() -> Client {
        Client {
            meta: SocketMeta { handle: 0 },
            phase: Phase::Discovering { retry_at: 0 },
            config_changed: true,
            transaction_id: 1,
        }
    }

    /// The configuration that the client has at present.
    pub open spec fn config(self) -> Option<Config> {
        match self.phase {
            Phase::Renewing { config, .. } => Some(config),
            _ => None,
        }
    }

    /// When the client has something to do next, if no message comes in.
    pub open spec fn wake_at(self) -> int {
        match self.phase {
            Phase::Discovering { retry_at } => retry_at,
            Phase::Requesting { retry_at, .. } => retry_at,
            Phase::Renewing { renew_at, expires_at, .. } => min(renew_at, expires_at),
        }
    }

    /// The client after it has given up what it has and started over.
    pub open spec fn restarted(self) -> Client {
        Client {
            phase: Phase::Discovering { retry_at: 0 },
            config_changed: self.config_changed || self.phase is Renewing,
            ..self
        }
    }

    /// The client after its configuration has been reported.
    pub open spec fn reported(self) -> Client {
        Client { config_changed: false, ..self }
    }

    /// Whether a message is meant for the client `hw`, answers what it sent last and names its
    /// sender.
    pub open spec fn accepts(self, hw: EthernetAddress, message: DhcpMessage) -> bool {
        &&& message.client_hardware_address == hw
        &&& message.transaction_id == self.transaction_id
        &&& message.server_identifier is Some
    }

    /// The client after an offer from a server with the address `src`.
    pub open spec fn offered(self, now: int, src: Ipv4Address, offer: DhcpMessage) -> Client {
        if offer.your_ip.names_one_host() {
            Client {
                phase: Phase::Requesting {
                    retry_at: now,
                    retry: 0,
                    server: ServerInfo { address: src, identifier: offer.server_identifier->0 },
                    requested_ip: offer.your_ip,
                },
                ..self
            }
        } else {
            self
        }
    }

    /// The client after the acknowledgement of a request that it sent to `server`.
    pub open spec fn acknowledged(self, now: int, server: ServerInfo, ack: DhcpMessage) -> Client {
        match granted(now, ack) {
            Some(lease) => Client {
                phase: Phase::Renewing {
                    server,
                    config: lease.config,
                    renew_at: lease.renew_at,
                    expires_at: lease.expires_at,
                },
                config_changed: self.config_changed || self.config() != Some(lease.config),
                ..self
            },
            None => self,
        }
    }

    /// The client after a message from the address `src` at `now`.
    pub open spec fn answered(
        self,
        now: int,
        hw: EthernetAddress,
        src: Ipv4Address,
        message: DhcpMessage,
    ) -> Client {
        if !self.accepts(hw, message) {
            self
        } else {
            match (self.phase, message.message_type) {
                (Phase::Discovering { .. }, DhcpMessageType::Offer) => self.offered(
                    now,
                    src,
                    message,
                ),
                (Phase::Requesting { server, .. }, DhcpMessageType::Ack) => self.acknowledged(
                    now,
                    server,
                    message,
                ),
                (Phase::Renewing { server, .. }, DhcpMessageType::Ack) => self.acknowledged(
                    now,
                    server,
                    message,
                ),
                (Phase::Requesting { .. }, DhcpMessageType::Nak) => self.restarted(),
                (Phase::Renewing { .. }, DhcpMessageType::Nak) => self.restarted(),
                _ => self,
            }
        }
    }

    /// The client after a UDP packet at `now`.
    pub open spec fn received(
        self,
        now: int,
        hw: EthernetAddress,
        ip: Ipv4Repr,
        udp: UdpRepr,
        payload: Seq<u8>,
    ) -> Client {
        if udp.src_port != DHCP_SERVER_PORT || udp.dst_port != DHCP_CLIENT_PORT {
            self
        } else {
            match decoded(payload) {
                Ok(message) => self.answered(now, hw, ip.src_addr, message),
                Err(_) => self,
            }
        }
    }

    /// Transaction id of the next message.
    pub open spec fn next_transaction_id(self) -> u32 {
        (self.transaction_id + 1) as u32
    }

    /// What the client does when it gets the chance to send at `now`.
    pub open spec fn egress(self, now: int, hw: EthernetAddress, ip_mtu: int) -> Egress {
        let xid = self.next_transaction_id();
        match self.phase {
            Phase::Discovering { retry_at } => if now < retry_at {
                Egress::Idle
            } else {
                sending(
                    Ipv4Address::unspecified(),
                    Ipv4Address::broadcast(),
                    discover_message(xid, hw, ip_mtu),
                )
            },
            Phase::Requesting { retry_at, retry, server, requested_ip } => if now < retry_at {
                Egress::Idle
            } else if retry >= REQUEST_RETRIES {
                Egress::Restart
            } else {
                sending(
                    Ipv4Address::unspecified(),
                    Ipv4Address::broadcast(),
                    request_message(xid, hw, ip_mtu, requested_ip, server.identifier),
                )
            },
            Phase::Renewing { server, config, renew_at, expires_at } => if expires_at <= now {
                Egress::Restart
            } else if now < renew_at {
                Egress::Idle
            } else {
                sending(
                    config.address.address,
                    server.address,
                    renew_message(xid, hw, ip_mtu, config.address.address),
                )
            },
        }
    }

    /// The client after it has sent at `now` what was due.
    pub open spec fn sent(self, now: int) -> Client {
        Client {
            phase: match self.phase {
                Phase::Discovering { .. } => Phase::Discovering {
                    retry_at: now + DISCOVER_TIMEOUT * 1000,
                },
                Phase::Requesting { retry, server, requested_ip, .. } => Phase::Requesting {
                    retry_at: now + REQUEST_TIMEOUT * 1000,
                    retry: retry + 1,
                    server,
                    requested_ip,
                },
                Phase::Renewing { server, config, expires_at, .. } => Phase::Renewing {
                    server,
                    config,
                    renew_at: min(
                        now + max(MIN_RENEW_TIMEOUT * 1000, (expires_at - now) / 2),
                        expires_at,
                    ),
                    expires_at,
                },
            },
            transaction_id: self.next_transaction_id(),
            ..self
        }
    }

    /// The client after it got the chance to send at `now`, where `delivered` says whether
    /// the packet went out, if there was one.
    pub open spec fn dispatched(
        self,
        now: int,
        hw: EthernetAddress,
        ip_mtu: int,
        delivered: bool,
    ) -> Client {
        match self.egress(now, hw, ip_mtu) {
            Egress::Idle => self,
            Egress::Restart => self.restarted(),
            Egress::Send(_, _, _) => if delivered {
                self.sent(now)
            } else {
                self
            },
        }
    }
}

} // verus!
