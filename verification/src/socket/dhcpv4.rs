//! The DHCP client socket.

use vstd::prelude::*;

use super::client::{
    granted, Client, Egress, Phase, ServerInfo, DEFAULT_LEASE_DURATION, DISCOVER_TIMEOUT,
    HOP_LIMIT, MAX_IPV4_HEADER_LEN, MIN_RENEW_TIMEOUT, REQUEST_RETRIES, REQUEST_TIMEOUT,
};
use super::{PollAt, SocketMeta};
use crate::error::Error;
use crate::time::{Duration, Instant};
use crate::wire::dhcpv4::{
    DhcpMessageType, DhcpPacket, DhcpRepr, DHCP_CLIENT_PORT, DHCP_SERVER_PORT,
    OPT_DOMAIN_NAME_SERVER, OPT_ROUTER, OPT_SUBNET_MASK,
};
use crate::wire::ethernet::EthernetAddress;
use crate::wire::ipv4::{IpProtocol, Ipv4Address, Ipv4Cidr, Ipv4Repr};
use crate::wire::udp::{UdpRepr, UDP_HEADER_LEN};

verus! {

/// IPv4 configuration data provided by the DHCP server.
#[derive(Debug, Eq)]
pub struct Config {
    /// IP address
    pub address: Ipv4Cidr,
    /// Router address, also known as default gateway. Does not necessarily
    /// match the DHCP server's address.
    pub router: Option<Ipv4Address>,
    /// DNS servers
    pub dns_servers: [Option<Ipv4Address>; 3],
}

impl PartialEq for Config {
    fn eq(&self, other: &Self) -> (r: bool) {
        let r = self.address == other.address && self.router == other.router && self.dns_servers[0]
            == other.dns_servers[0] && self.dns_servers[1] == other.dns_servers[1]
            && self.dns_servers[2] == other.dns_servers[2];
        proof {
            if r {
                assert(self.dns_servers =~= other.dns_servers);
            }
        }
        r
    }
}

impl vstd::std_specs::cmp::PartialEqSpecImpl for Config {
    open spec fn obeys_eq_spec() -> bool {
        true
    }

    open spec fn eq_spec(&self, other: &Self) -> bool {
        *self == *other
    }
}

#[derive(Debug)]
struct DiscoverState {
    /// When to send the next discovery
    retry_at: Instant,
}

#[derive(Debug)]
struct RequestState {
    /// When to send the next request
    retry_at: Instant,
    /// How many requests have been sent
    retry: u16,
    /// Server we're trying to request from
    server: ServerInfo,
    /// IP address that we're trying to request
    requested_ip: Ipv4Address,
}

#[derive(Debug)]
struct RenewState {
    /// Server that gave us the lease
    server: ServerInfo,
    /// Active network config
    config: Config,
    /// Renew timer. When reached, we will start attempting
    /// to renew this lease with the DHCP server.
    /// Must be less or equal than `expires_at`.
    renew_at: Instant,
    /// Expiration timer. When reached, this lease is no longer valid, so it must be
    /// thrown away and the ethernet interface deconfigured.
    expires_at: Instant,
}

#[derive(Debug)]
enum ClientState {
    /// Discovering the DHCP server
    Discovering(DiscoverState),
    /// Requesting an address
    Requesting(RequestState),
    /// Having an address, refresh it periodically
    Renewing(RenewState),
}

impl ClientState {
    spec fn phase(self) -> Phase {
        match self {
            ClientState::Discovering(state) => Phase::Discovering { retry_at: state.retry_at@ },
            ClientState::Requesting(state) => Phase::Requesting {
                retry_at: state.retry_at@,
                retry: state.retry as int,
                server: state.server,
                requested_ip: state.requested_ip,
            },
            ClientState::Renewing(state) => Phase::Renewing {
                server: state.server,
                config: state.config,
                renew_at: state.renew_at@,
                expires_at: state.expires_at@,
            },
        }
    }
}

/// Return value for the `Dhcpv4Socket::poll` function
#[derive(Debug)]
pub enum Event<'a> {
    /// No change has occured to the configuration.
    NoChange,
    /// Configuration has been lost (for example, the lease has expired)
    Deconfigured,
    /// Configuration has been newly acquired, or modified.
    Configured(&'a Config),
}

/// DHCP client socket.
///
/// The socket acquires an IP address configuration through DHCP autonomously.
/// You must query the configuration with `.poll()` after every call to `process` or `dispatch`,
/// and apply it to the network interface.
#[derive(Debug)]
pub struct Dhcpv4Socket {
    pub(crate) meta: SocketMeta,
    /// State of the DHCP client.
    state: ClientState,
    /// Set to true on config change, cleared back to false by the `poll` function.
    config_changed: bool,
    /// xid of the last sent message.
    transaction_id: u32,
}

impl View for Dhcpv4Socket {
    type V = Client;

    closed spec fn view(&self) -> Client {
        Client {
            meta: self.meta,
            phase: self.state.phase(),
            config_changed: self.config_changed,
            transaction_id: self.transaction_id,
        }
    }
}

/// The sending of a packet.
pub open spec fn packet_egress(packet: (Ipv4Repr, UdpRepr, DhcpRepr<'_>)) -> Egress {
    Egress::Send(packet.0, packet.1, packet.2@)
}

impl Dhcpv4Socket {
    /// Create a DHCPv4 socket
    pub fn new() -> (r: Dhcpv4Socket)
        ensures
            r@ == Client::initial(),
            r@.wf(),
    {
        Dhcpv4Socket {
            meta: SocketMeta::default(),
            state: ClientState::Discovering(DiscoverState { retry_at: Instant::from_millis(0) }),
            config_changed: true,
            transaction_id: 1,
        }
    }

    /// When the socket has something to do next, if no message comes in.
    pub fn poll_at(&self) -> (r: PollAt)
        ensures
            r matches PollAt::Time(t) && t@ == self@.wake_at(),
    {
        let t = match &self.state {
            ClientState::Discovering(state) => state.retry_at,
            ClientState::Requesting(state) => state.retry_at,
            ClientState::Renewing(state) => state.renew_at.min(state.expires_at),
        };
        PollAt::Time(t)
    }

    /// xid of the last sent message.
    pub fn transaction_id(&self) -> (r: u32)
        ensures
            r == self@.transaction_id,
    {
        self.transaction_id
    }

    /// Takes in a UDP packet that came in at `now`: the headers and the payload.
    ///
    /// A packet that is no reply to this client's last message, that is malformed or that makes
    /// no sense in the current state is ignored. The end of a lease that the packet grants must
    /// fit an `Instant`.
    pub fn process(
        &mut self,
        now: Instant,
        ethernet_addr: EthernetAddress,
        ip_repr: &Ipv4Repr,
        repr: &UdpRepr,
        payload: &[u8],
    ) -> (r: Result<(), Error>)
        requires
            old(self)@.stays_in_range(
                old(self)@.received(now@, ethernet_addr, *ip_repr, *repr, payload@),
            ),
        ensures
            r is Ok,
            final(self)@ == old(self)@.received(now@, ethernet_addr, *ip_repr, *repr, payload@),
            old(self)@.wf() ==> final(self)@.wf(),
    {
        if repr.src_port != DHCP_SERVER_PORT || repr.dst_port != DHCP_CLIENT_PORT {
            return Ok(());
        }
        let dhcp_packet = match DhcpPacket::new_checked(payload) {
            Ok(dhcp_packet) => dhcp_packet,
            Err(_) => {
                return Ok(());
            },
        };
        let dhcp_repr = match DhcpRepr::parse(&dhcp_packet) {
            Ok(dhcp_repr) => dhcp_repr,
            Err(_) => {
                return Ok(());
            },
        };
        self.process_message(now, ethernet_addr, ip_repr, &dhcp_repr);
        Ok(())
    }

    /// Takes in a DHCP message that came in at `now`.
    pub fn process_message(
        &mut self,
        now: Instant,
        ethernet_addr: EthernetAddress,
        ip_repr: &Ipv4Repr,
        dhcp_repr: &DhcpRepr<'_>,
    )
        requires
            old(self)@.stays_in_range(
                old(self)@.answered(now@, ethernet_addr, ip_repr.src_addr, dhcp_repr@),
            ),
        ensures
            final(self)@ == old(self)@.answered(
                now@,
                ethernet_addr,
                ip_repr.src_addr,
                dhcp_repr@,
            ),
            old(self)@.wf() ==> final(self)@.wf(),
    {
        let src_ip = ip_repr.src_addr;
        if dhcp_repr.client_hardware_address != ethernet_addr {
            return;
        }
        if dhcp_repr.transaction_id != self.transaction_id {
            return;
        }
        let server_identifier = match dhcp_repr.server_identifier {
            Some(server_identifier) => server_identifier,
            None => {
                return;
            },
        };
        match (&mut self.state, dhcp_repr.message_type) {
            (ClientState::Discovering(_state), DhcpMessageType::Offer) => {
                if !dhcp_repr.your_ip.is_unicast() {
                    return;
                }
                self.state =
                ClientState::Requesting(
                    RequestState {
                        retry_at: now,
                        retry: 0,
                        server: ServerInfo { address: src_ip, identifier: server_identifier },
                        requested_ip: dhcp_repr.your_ip,  // use the offered ip
                    },
                );
            },
            (ClientState::Requesting(state), DhcpMessageType::Ack) => {
                if let Some((config, renew_at, expires_at)) = Self::parse_ack(
                    now,
                    ip_repr,
                    dhcp_repr,
                ) {
                    let server = state.server;
                    self.config_changed = true;
                    self.state =
                    ClientState::Renewing(RenewState { server, config, renew_at, expires_at });
                }
            },
            (ClientState::Requesting(_), DhcpMessageType::Nak) => {
                self.reset();
            },
            (ClientState::Renewing(state), DhcpMessageType::Ack) => {
                if let Some((config, renew_at, expires_at)) = Self::parse_ack(
                    now,
                    ip_repr,
                    dhcp_repr,
                ) {
                    state.renew_at = renew_at;
                    state.expires_at = expires_at;
                    if state.config != config {
                        self.config_changed = true;
                        state.config = config;
                    }
                }
            },
            (ClientState::Renewing(_), DhcpMessageType::Nak) => {
                self.reset();
            },
            _ => {},
        }
    }

    /// Reads an acknowledgement that came in at `now`: the configuration, when to renew the
    /// lease and when it expires. Returns `None` if the acknowledgement has no subnet mask, a
    /// mask that is none, or an address that is not unicast.
    pub fn parse_ack(now: Instant, _ip_repr: &Ipv4Repr, dhcp_repr: &DhcpRepr<'_>) -> (r: Option<
        (Config, Instant, Instant),
    >)
        requires
            granted(now@, dhcp_repr@) matches Some(lease) ==> lease.expires_at <= i64::MAX,
        ensures
            match granted(now@, dhcp_repr@) {
                Some(lease) => r matches Some((config, renew_at, expires_at)) && config
                    == lease.config && renew_at@ == lease.renew_at && expires_at@
                    == lease.expires_at,
                None => r is None,
            },
    {
        let subnet_mask = match dhcp_repr.subnet_mask {
            Some(subnet_mask) => subnet_mask,
            None => {
                return None;
            },
        };
        let prefix_len: u8 = match subnet_mask.to_prefix_len() {
            Some(prefix_len) => prefix_len,
            None => {
                return None;
            },
        };
        if !dhcp_repr.your_ip.is_unicast() {
            return None;
        }
        let lease_duration: u32 = dhcp_repr.lease_duration.unwrap_or(DEFAULT_LEASE_DURATION);
        let config = Config {
            address: Ipv4Cidr::new(dhcp_repr.your_ip, prefix_len),
            router: dhcp_repr.router,
            dns_servers: dhcp_repr.dns_servers.unwrap_or([None, None, None]),
        };
        // RFC 2131 indicates clients should renew a lease halfway through its expiration.
        let renew_at = now + Duration::from_secs((lease_duration / 2) as u64);
        let expires_at = now + Duration::from_secs(lease_duration as u64);
        Some((config, renew_at, expires_at))
    }

    /// Gives the socket the chance to send a packet at `now`, by a call of `emit`, on a link that
    /// takes IP packets of up to `ip_mtu` octets.
    ///
    /// Fails with `Error::Exhausted` if it is not yet time to send anything. If `emit` fails,
    /// the socket is left as it was, and the error is handed on.
    ///
    /// The transaction id must not be used up, the link must have room for the longest IPv4 header
    /// and a UDP header, `emit` must take the packet that is due, and if it can succeed, the time
    /// of the next attempt must fit an `Instant`.
    pub fn dispatch<F>(
        &mut self,
        now: Instant,
        ethernet_addr: EthernetAddress,
        ip_mtu: usize,
        emit: F,
    ) -> (r: Result<(), Error>) where
        F: FnOnce((Ipv4Repr, UdpRepr, DhcpRepr<'_>)) -> Result<(), Error>,

        requires
            old(self)@.transaction_id < u32::MAX,
            ip_mtu >= MAX_IPV4_HEADER_LEN + UDP_HEADER_LEN,
            forall|packet: (Ipv4Repr, UdpRepr, DhcpRepr<'_>)|
                #![trigger emit.requires((packet,))]
                old(self)@.egress(now@, ethernet_addr, ip_mtu as int) == packet_egress(packet)
                    ==> emit.requires((packet,)),
            forall|packet: (Ipv4Repr, UdpRepr, DhcpRepr<'_>), outcome: Result<(), Error>|
                #![trigger emit.ensures((packet,), outcome)]
                old(self)@.egress(now@, ethernet_addr, ip_mtu as int) == packet_egress(packet)
                    && emit.ensures((packet,), outcome) && outcome is Ok ==> old(self)@.stays_in_range(
                    old(self)@.sent(now@),
                ),
        ensures
            match old(self)@.egress(now@, ethernet_addr, ip_mtu as int) {
                Egress::Idle => r == Err::<(), Error>(Error::Exhausted),
                Egress::Restart => r is Ok,
                Egress::Send(ipv4, udp, message) => exists|
                    packet: (Ipv4Repr, UdpRepr, DhcpRepr<'_>),
                |
                    #![trigger emit.ensures((packet,), r)]
                    packet_egress(packet) == Egress::Send(ipv4, udp, message) && emit.ensures(
                        (packet,),
                        r,
                    ),
            },
            final(self)@ == old(self)@.dispatched(now@, ethernet_addr, ip_mtu as int, r is Ok),
            old(self)@.wf() ==> final(self)@.wf(),
    {
        // We don't directly increment transaction_id because sending the packet
        // may fail. We only want to update state after succesfully sending.
        let next_transaction_id: u32 = self.transaction_id + 1;

        let room: usize = ip_mtu - MAX_IPV4_HEADER_LEN - UDP_HEADER_LEN;
        assert(room as u16 == room % 0x1_0000) by (bit_vector);
        let mut dhcp_repr = DhcpRepr {
            message_type: DhcpMessageType::Discover,
            transaction_id: next_transaction_id,
            client_hardware_address: ethernet_addr,
            client_ip: Ipv4Address::unspecified(),
            your_ip: Ipv4Address::unspecified(),
            server_ip: Ipv4Address::unspecified(),
            router: None,
            subnet_mask: None,
            relay_agent_ip: Ipv4Address::unspecified(),
            broadcast: true,
            requested_ip: None,
            client_identifier: Some(ethernet_addr),
            server_identifier: None,
            parameter_request_list: Some(&[OPT_SUBNET_MASK, OPT_ROUTER, OPT_DOMAIN_NAME_SERVER]),
            max_size: Some(#[verifier::truncate] (room as u16)),
            lease_duration: None,
            dns_servers: None,
        };
        let udp_repr = UdpRepr { src_port: DHCP_CLIENT_PORT, dst_port: DHCP_SERVER_PORT };
        let mut ipv4_repr = Ipv4Repr {
            src_addr: Ipv4Address::unspecified(),
            dst_addr: Ipv4Address::broadcast(),
            protocol: IpProtocol::Udp,
            payload_len: 0,  // filled right before emit
            hop_limit: HOP_LIMIT,
        };

        match &mut self.state {
            ClientState::Discovering(state) => {
                if now < state.retry_at {
                    return Err(Error::Exhausted);
                }
                // send packet
                ipv4_repr.payload_len = udp_repr.header_len() + dhcp_repr.buffer_len();
                let packet = (ipv4_repr, udp_repr, dhcp_repr);
                let outcome = emit(packet);
                if outcome.is_err() {
                    return outcome;
                }

                // Update state AFTER the packet has been successfully sent.
                state.retry_at = now + Duration::from_secs(DISCOVER_TIMEOUT);
                self.transaction_id = next_transaction_id;
                outcome
            },
            ClientState::Requesting(state) => {
                if now < state.retry_at {
                    return Err(Error::Exhausted);
                }
                if state.retry >= REQUEST_RETRIES {
                    self.reset();
                    // return Ok so we get polled again
                    return Ok(());
                }
                dhcp_repr.message_type = DhcpMessageType::Request;
                dhcp_repr.broadcast = false;
                dhcp_repr.requested_ip = Some(state.requested_ip);
                dhcp_repr.server_identifier = Some(state.server.identifier);

                ipv4_repr.payload_len = udp_repr.header_len() + dhcp_repr.buffer_len();
                let packet = (ipv4_repr, udp_repr, dhcp_repr);
                let outcome = emit(packet);
                if outcome.is_err() {
                    return outcome;
                }

                state.retry_at = now + Duration::from_secs(REQUEST_TIMEOUT);
                state.retry = state.retry + 1;
                self.transaction_id = next_transaction_id;
                outcome
            },
            ClientState::Renewing(state) => {
                if state.expires_at <= now {
                    self.reset();
                    // return Ok so we get polled again
                    return Ok(());
                }
                if now < state.renew_at {
                    return Err(Error::Exhausted);
                }
                ipv4_repr.src_addr = state.config.address.address();
                ipv4_repr.dst_addr = state.server.address;
                dhcp_repr.message_type = DhcpMessageType::Request;
                dhcp_repr.client_ip = state.config.address.address();
                dhcp_repr.broadcast = false;

                ipv4_repr.payload_len = udp_repr.header_len() + dhcp_repr.buffer_len();
                let packet = (ipv4_repr, udp_repr, dhcp_repr);
                let outcome = emit(packet);
                if outcome.is_err() {
                    return outcome;
                }

                // In both RENEWING and REBINDING states, if the client receives no
                // response to its DHCPREQUEST message, the client SHOULD wait one-half
                // of the remaining time until T2 (in RENEWING state) and one-half of
                // the remaining lease time (in REBINDING state), down to a minimum of
                // 60 seconds, before retransmitting the DHCPREQUEST message.
                //
                // A wait past the end of the lease ends with it.
                let remaining = state.expires_at - now;
                let wait = Duration::from_secs(MIN_RENEW_TIMEOUT).max(remaining / 2);
                state.renew_at =
                if wait < remaining {
                    now + wait
                } else {
                    state.expires_at
                };
                self.transaction_id = next_transaction_id;
                outcome
            },
        }
    }

    /// Reset state and restart discovery phase.
    ///
    /// Use this to speed up acquisition of an address in a new
    /// network if a link was down and it is now back up.
    pub fn reset(&mut self)
        ensures
            final(self)@ == old(self)@.restarted(),
            final(self)@.wf(),
    {
        if let ClientState::Renewing(_) = &self.state {
            self.config_changed = true;
        }
        self.state =
        ClientState::Discovering(DiscoverState { retry_at: Instant::from_millis(0) });
    }

    /// Query the socket for configuration changes.
    ///
    /// The socket has an internal "configuration changed" flag. If
    /// set, this function returns the configuration and resets the flag.
    pub fn poll(&mut self) -> (event: Event<'_>)
        ensures
            final(self)@ == old(self)@.reported(),
            match event {
                Event::NoChange => !old(self)@.config_changed,
                Event::Deconfigured => old(self)@.config_changed && old(self)@.config() is None,
                Event::Configured(config) => old(self)@.config_changed && old(self)@.config()
                    == Some(*config),
            },
    {
        if !self.config_changed {
            Event::NoChange
        } else if let ClientState::Renewing(state) = &self.state {
            self.config_changed = false;
            Event::Configured(&state.config)
        } else {
            self.config_changed = false;
            Event::Deconfigured
        }
    }
}

} // verus!
