//! What holds of a DHCP client as a whole, over all inputs, states and histories.

use vstd::prelude::*;

use vstd::std_specs::cmp::PartialEqSpec;
use vstd::std_specs::convert::FromSpec;

use super::client::{granted, Client, Egress, Phase, MAX_IPV4_HEADER_LEN};
use super::dhcpv4::{packet_egress, Config, Dhcpv4Socket};
use super::Socket;
use crate::wire::dhcpv4::{decoded, DhcpMessage, DhcpMessageType, DhcpRepr};
use crate::wire::ethernet::EthernetAddress;
use crate::wire::ipv4::{IpProtocol, Ipv4Address, Ipv4Repr};
use crate::wire::laws::{
    is_host, is_mask, prefix_len_is_that_of_mask, unicast_addresses_are_hosts,
};
use crate::wire::udp::{UdpRepr, UDP_HEADER_LEN};

verus! {

/// Something that happens to a client.
pub enum Step {
    /// A UDP packet comes in.
    Receive { now: int, hw: EthernetAddress, ip: Ipv4Repr, udp: UdpRepr, payload: Seq<u8> },
    /// The client gets the chance to send; `delivered` says whether a packet goes out.
    Dispatch { now: int, hw: EthernetAddress, ip_mtu: int, delivered: bool },
    /// The client is told to start over.
    Reset,
    /// The configuration is queried.
    Poll,
}

impl Client {
    /// The client after a step.
    pub open spec fn step(self, step: Step) -> Client {
        match step {
            Step::Receive { now, hw, ip, udp, payload } => self.received(now, hw, ip, udp, payload),
            Step::Dispatch { now, hw, ip_mtu, delivered } => self.dispatched(
                now,
                hw,
                ip_mtu,
                delivered,
            ),
            Step::Reset => self.restarted(),
            Step::Poll => self.reported(),
        }
    }

    /// The client after a number of steps.
    pub open spec fn run(self, steps: Seq<Step>) -> Client
        decreases steps.len(),
    {
        if steps.len() == 0 {
            self
        } else {
            self.run(steps.drop_last()).step(steps.last())
        }
    }

    /// The configuration that a user of the client has in effect after a number of steps, who had
    /// `known` in effect before and applies what each query reports.
    pub open spec fn applied(self, known: Option<Config>, steps: Seq<Step>) -> Option<Config>
        decreases steps.len(),
    {
        if steps.len() == 0 {
            known
        } else if steps.last() is Poll && self.run(steps.drop_last()).config_changed {
            self.run(steps.drop_last()).config()
        } else {
            self.applied(known, steps.drop_last())
        }
    }

    /// The client after it has sent what was due at each of some times in turn.
    pub open spec fn sent_at_each(self, times: Seq<int>) -> Client
        decreases times.len(),
    {
        if times.len() == 0 {
            self
        } else {
            self.sent_at_each(times.drop_last()).sent(times.last())
        }
    }
}

/// How long the lease lasts that an acknowledgement grants, in seconds: as long as it says, or
/// two minutes.
pub open spec fn term(ack: DhcpMessage) -> int {
    if ack.lease_duration is Some {
        ack.lease_duration->0 as int
    } else {
        120
    }
}

/// Whether a configuration is the one that an acknowledgement carries, on a network with prefixes
/// of a given length: each of its parts is the one of the message.
pub open spec fn config_is_that_of(config: Config, ack: DhcpMessage, prefix_len: u8) -> bool {
    &&& config.address.address == ack.your_ip
    &&& config.address.prefix_len == prefix_len
    &&& config.router == ack.router
    &&& forall|i: int|
        0 <= i < 3 ==> #[trigger] config.dns_servers[i] == (if ack.dns_servers is Some {
            (ack.dns_servers->0)[i]
        } else {
            None
        })
}

/// Every step keeps the invariant. In particular a lease is never due for renewal after it has
/// expired, and no more requests are sent for an offer than are allowed.
pub proof fn invariant_is_kept(client: Client, step: Step)
    requires
        client.wf(),
    ensures
        client.step(step).wf(),
{
    if let Step::Receive { now, hw, ip, udp, payload } = step {
        if let Ok(message) = decoded(payload) {
            if let Some(mask) = message.subnet_mask {
                if let Some(n) = mask.prefix_len() {
                    assert(mask.is_mask_of(n));
                }
            }
        }
    }
}

/// The invariant holds of a new client after any number of steps.
pub proof fn invariant_holds_always(steps: Seq<Step>)
    ensures
        Client::initial().run(steps).wf(),
    decreases steps.len(),
{
    if steps.len() > 0 {
        invariant_holds_always(steps.drop_last());
        invariant_is_kept(Client::initial().run(steps.drop_last()), steps.last());
    }
}

/// The flag is raised by those steps that change the configuration, and by no others; only a
/// query lowers it.
pub proof fn flag_marks_changes(client: Client, step: Step)
    requires
        !(step is Poll),
    ensures
        client.step(step).config_changed == (client.config_changed || client.step(step).config()
            != client.config()),
{
}

/// A query changes nothing but the flag, and a second one has nothing to report.
pub proof fn poll_reports_once(client: Client)
    ensures
        client.reported().config() == client.config(),
        client.reported().phase == client.phase,
        client.reported().transaction_id == client.transaction_id,
        !client.reported().config_changed,
        client.reported().reported() == client.reported(),
{
}

/// A user who applies what the queries report is up to date whenever the flag is down: what is
/// in effect is then the configuration of the client.
pub proof fn applied_config_is_current(steps: Seq<Step>)
    ensures
        ({
            let client = Client::initial().run(steps);
            client.config_changed || Client::initial().applied(None, steps) == client.config()
        }),
    decreases steps.len(),
{
    if steps.len() > 0 {
        applied_config_is_current(steps.drop_last());
        let before = Client::initial().run(steps.drop_last());
        if !(steps.last() is Poll) {
            flag_marks_changes(before, steps.last());
        }
    }
}

/// A client has something to do exactly from its wake-up time on.
pub proof fn idle_until_wake_time(client: Client, now: int, hw: EthernetAddress, ip_mtu: int)
    ensures
        client.egress(now, hw, ip_mtu) is Idle <==> now < client.wake_at(),
{
}

/// A client that has sent something is idle for a while: its wake-up time lies in the future.
pub proof fn sending_makes_idle(client: Client, now: int, hw: EthernetAddress, ip_mtu: int)
    requires
        client.egress(now, hw, ip_mtu) is Send,
    ensures
        now < client.sent(now).wake_at(),
{
}

/// A packet that does not go out leaves the client as it was.
pub proof fn failure_changes_nothing(client: Client, now: int, hw: EthernetAddress, ip_mtu: int)
    requires
        !(client.egress(now, hw, ip_mtu) is Restart),
    ensures
        client.dispatched(now, hw, ip_mtu, false) == client,
{
}

/// The transaction id of a client is that of the message it has sent last, and each message
/// has the id that follows the one before.
pub proof fn id_is_that_of_last_message(client: Client, now: int, hw: EthernetAddress, ip_mtu: int)
    requires
        client.transaction_id < u32::MAX,
    ensures
        client.egress(now, hw, ip_mtu) matches Egress::Send(_, _, message)
            ==> message.transaction_id == client.sent(now).transaction_id
            && message.transaction_id == client.transaction_id + 1,
{
}

/// Only a message that goes out changes the transaction id, and nothing changes what belongs to
/// the socket set.
pub proof fn only_sending_changes_id(client: Client, step: Step)
    ensures
        client.step(step).meta == client.meta,
        client.step(step).transaction_id != client.transaction_id ==> (step matches Step::Dispatch {
            now,
            hw,
            ip_mtu,
            delivered,
        } && delivered && client.egress(now, hw, ip_mtu) is Send),
{
}

/// A packet is ignored if it is not from the server port to the client port, is not a well-formed
/// message, is meant for another client, answers another message or does not name its server.
pub proof fn strangers_are_ignored(
    client: Client,
    now: int,
    hw: EthernetAddress,
    ip: Ipv4Repr,
    udp: UdpRepr,
    payload: Seq<u8>,
)
    requires
        ({
            ||| udp.src_port != 67
            ||| udp.dst_port != 68
            ||| decoded(payload) is Err
            ||| (decoded(payload)->Ok_0).client_hardware_address != hw
            ||| (decoded(payload)->Ok_0).transaction_id != client.transaction_id
            ||| (decoded(payload)->Ok_0).server_identifier is None
        }),
    ensures
        client.received(now, hw, ip, udp, payload) == client,
{
}

/// The answer to a message is ignored once the client has sent the next one.
pub proof fn late_answers_are_ignored(
    client: Client,
    sent_at: int,
    now: int,
    hw: EthernetAddress,
    src: Ipv4Address,
    message: DhcpMessage,
)
    requires
        client.transaction_id < u32::MAX,
        message.transaction_id == client.transaction_id,
    ensures
        client.sent(sent_at).answered(now, hw, src, message) == client.sent(sent_at),
{
}

/// A refusal sends a client that asks for an address, or that has one, back to the start; it is
/// then without a configuration.
pub proof fn refusal_restarts(
    client: Client,
    now: int,
    hw: EthernetAddress,
    src: Ipv4Address,
    nak: DhcpMessage,
)
    requires
        nak.client_hardware_address == hw,
        nak.transaction_id == client.transaction_id,
        nak.server_identifier is Some,
        nak.message_type == DhcpMessageType::Nak,
        !(client.phase is Discovering),
    ensures
        client.answered(now, hw, src, nak) == client.restarted(),
        client.answered(now, hw, src, nak).config() is None,
{
}

/// A client that has started over has no configuration, and says so if it had one. It sends a
/// discovery at the next chance.
pub proof fn restart_discovers_at_once(client: Client, now: int, hw: EthernetAddress, ip_mtu: int)
    requires
        now >= 0,
    ensures
        client.restarted().config() is None,
        client.config() is Some ==> client.restarted().config_changed,
        client.restarted().egress(now, hw, ip_mtu) matches Egress::Send(ipv4, _, message)
            && message.message_type == DhcpMessageType::Discover && ipv4.dst_addr
            == Ipv4Address::broadcast(),
        client.restarted().restarted() == client.restarted(),
{
}

/// An offer and the acknowledgement of a request that follows it configure a client: it asks for
/// the address that was offered, from the server that offered it. However many requests it has
/// sent by then, and from whatever address the acknowledgement of the last one comes, it then
/// has the configuration of the acknowledgement, reports it, and stays with the server of the
/// offer. The lease is to be renewed halfway through.
pub proof fn lease_is_acquired(
    client: Client,
    hw: EthernetAddress,
    ip_mtu: int,
    offer_src: Ipv4Address,
    offered_at: int,
    offer: DhcpMessage,
    requested_at: int,
    times: Seq<int>,
    ack_src: Ipv4Address,
    acked_at: int,
    ack: DhcpMessage,
    prefix_len: u8,
)
    requires
        client.phase is Discovering,
        offer.client_hardware_address == hw,
        offer.transaction_id == client.transaction_id,
        offer.server_identifier is Some,
        offer.message_type == DhcpMessageType::Offer,
        is_host(offer.your_ip.0[0], offer.your_ip.0[1], offer.your_ip.0[2], offer.your_ip.0[3]),
        offered_at <= requested_at,
        ack.client_hardware_address == hw,
        ack.transaction_id == client.answered(offered_at, hw, offer_src, offer).sent_at_each(
            times,
        ).transaction_id,
        ack.server_identifier is Some,
        ack.message_type == DhcpMessageType::Ack,
        ack.subnet_mask matches Some(mask) && is_mask(mask, prefix_len as int),
        is_host(ack.your_ip.0[0], ack.your_ip.0[1], ack.your_ip.0[2], ack.your_ip.0[3]),
    ensures
        ({
            let requesting = client.answered(offered_at, hw, offer_src, offer);
            let bound = requesting.sent_at_each(times).answered(acked_at, hw, ack_src, ack);
            &&& requesting.egress(requested_at, hw, ip_mtu) matches Egress::Send(_, _, request)
            &&& request.message_type == DhcpMessageType::Request
            &&& request.requested_ip == Some(offer.your_ip)
            &&& request.server_identifier == offer.server_identifier
            &&& bound.config() matches Some(config)
            &&& config_is_that_of(config, ack, prefix_len)
            &&& bound.config_changed
            &&& bound.wake_at() == acked_at + term(ack) / 2 * 1000
            &&& bound.phase is Renewing
            &&& bound.phase->Renewing_server == requesting.phase->Requesting_server
            &&& bound.phase->Renewing_server.address == offer_src
            &&& Some(bound.phase->Renewing_server.identifier) == offer.server_identifier
        }),
{
    unicast_addresses_are_hosts(offer.your_ip);
    unicast_addresses_are_hosts(ack.your_ip);
    prefix_len_is_that_of_mask(ack.subnet_mask->0);
    let requesting = client.answered(offered_at, hw, offer_src, offer);
    requests_are_limited(requesting, times, requested_at, hw, ip_mtu);
}

/// A lease does not outlive its term: a client that gets the chance to send at the end of the
/// lease or later is without a configuration afterwards, and reports the loss.
pub proof fn lease_ends(
    client: Client,
    now: int,
    hw: EthernetAddress,
    ip_mtu: int,
    delivered: bool,
)
    requires
        client.phase matches Phase::Renewing { expires_at, .. } && expires_at <= now,
    ensures
        client.dispatched(now, hw, ip_mtu, delivered) == client.restarted(),
        client.dispatched(now, hw, ip_mtu, delivered).config() is None,
        client.dispatched(now, hw, ip_mtu, delivered).config_changed,
{
}

/// Before a lease ends, the client keeps its configuration whenever it gets the chance to send.
pub proof fn lease_is_kept(
    client: Client,
    now: int,
    hw: EthernetAddress,
    ip_mtu: int,
    delivered: bool,
)
    requires
        client.phase matches Phase::Renewing { expires_at, .. } && now < expires_at,
    ensures
        client.dispatched(now, hw, ip_mtu, delivered).config() == client.config(),
        client.dispatched(now, hw, ip_mtu, delivered).config_changed == client.config_changed,
{
}

/// The renewal of a lease starts its term anew, and is reported only if it comes with another
/// configuration.
pub proof fn renewal_extends_lease(
    client: Client,
    now: int,
    hw: EthernetAddress,
    src: Ipv4Address,
    ack: DhcpMessage,
    prefix_len: u8,
)
    requires
        client.phase is Renewing,
        ack.client_hardware_address == hw,
        ack.transaction_id == client.transaction_id,
        ack.server_identifier is Some,
        ack.message_type == DhcpMessageType::Ack,
        ack.subnet_mask matches Some(mask) && is_mask(mask, prefix_len as int),
        is_host(ack.your_ip.0[0], ack.your_ip.0[1], ack.your_ip.0[2], ack.your_ip.0[3]),
    ensures
        ({
            let renewed = client.answered(now, hw, src, ack);
            &&& renewed.config() matches Some(config)
            &&& config_is_that_of(config, ack, prefix_len)
            &&& renewed.config_changed == (client.config_changed || client.config() != Some(config))
            &&& renewed.phase matches Phase::Renewing { renew_at, expires_at, server, .. }
            &&& renew_at == now + term(ack) / 2 * 1000
            &&& expires_at == now + term(ack) * 1000
            &&& server == client.phase->Renewing_server
        }),
{
    unicast_addresses_are_hosts(ack.your_ip);
    prefix_len_is_that_of_mask(ack.subnet_mask->0);
}

/// After a request to renew a lease, a client waits for half of the time that is left, but for
/// a minute at least, or until the lease ends. It sends nothing in the meantime.
pub proof fn renewals_are_spaced(
    client: Client,
    now: int,
    later: int,
    hw: EthernetAddress,
    ip_mtu: int,
)
    requires
        client.phase is Renewing,
        client.egress(now, hw, ip_mtu) is Send,
    ensures
        ({
            let expires_at = client.phase->Renewing_expires_at;
            let half = (expires_at - now) / 2;
            let wait = if half < 60_000 {
                60_000
            } else {
                half
            };
            &&& client.sent(now).wake_at() == if now + wait < expires_at {
                now + wait
            } else {
                expires_at
            }
            &&& (client.sent(now).egress(later, hw, ip_mtu) is Send ==> now + wait <= later)
        }),
{
}

/// For one offer a client sends a limited number of requests, all of them for the address
/// that was offered; then it starts over.
pub proof fn requests_are_limited(
    client: Client,
    times: Seq<int>,
    now: int,
    hw: EthernetAddress,
    ip_mtu: int,
)
    requires
        client.phase matches Phase::Requesting { retry, .. } && retry == 0,
    ensures
        ({
            let after = client.sent_at_each(times);
            &&& after.phase matches Phase::Requesting { retry, requested_ip, server, .. }
            &&& retry == times.len()
            &&& requested_ip == client.phase->requested_ip
            &&& server == client.phase->Requesting_server
            &&& after.egress(now, hw, ip_mtu) is Send ==> times.len() < 15
            &&& times.len() >= 15 && now >= after.wake_at() ==> after.egress(
                now,
                hw,
                ip_mtu,
            ) is Restart
        }),
    decreases times.len(),
{
    if times.len() > 0 {
        requests_are_limited(client, times.drop_last(), now, hw, ip_mtu);
    }
}

/// A message that comes in early enough for the longest of leases to end at a time that an
/// `Instant` can hold keeps all times of the client in range.
pub proof fn early_messages_fit(
    client: Client,
    now: int,
    hw: EthernetAddress,
    ip: Ipv4Repr,
    udp: UdpRepr,
    payload: Seq<u8>,
)
    requires
        i64::MIN <= now <= i64::MAX - u32::MAX * 1000,
    ensures
        client.stays_in_range(client.received(now, hw, ip, udp, payload)),
{
}

/// What a client sends goes from the client port to the server port, over UDP, with a hop limit
/// of 64.
pub proof fn packets_go_to_the_server_port(
    client: Client,
    now: int,
    hw: EthernetAddress,
    ip_mtu: int,
)
    ensures
        client.egress(now, hw, ip_mtu) matches Egress::Send(ipv4, udp, _) ==> {
            &&& udp.src_port == 68
            &&& udp.dst_port == 67
            &&& ipv4.protocol == IpProtocol::Udp
            &&& ipv4.hop_limit == 64
        },
{
}

/// A client without a lease sends from no address to everyone. A client with a lease sends from
/// the leased address, which it gives as its own, to the server of the lease.
pub proof fn packets_are_addressed_by_lease(
    client: Client,
    now: int,
    hw: EthernetAddress,
    ip_mtu: int,
)
    ensures
        client.egress(now, hw, ip_mtu) matches Egress::Send(ipv4, _, message) ==> match client.phase {
            Phase::Renewing { server, config, .. } => {
                &&& ipv4.src_addr == config.address.address
                &&& ipv4.dst_addr == server.address
                &&& message.client_ip == config.address.address
            },
            _ => {
                &&& ipv4.src_addr.0@ == seq![0u8, 0, 0, 0]
                &&& ipv4.dst_addr.0@ == seq![255u8, 255, 255, 255]
                &&& message.client_ip.0@ == seq![0u8, 0, 0, 0]
            },
        },
{
}

/// A client names itself in all that it sends, by its hardware address and as its identifier.
pub proof fn messages_name_the_client(client: Client, now: int, hw: EthernetAddress, ip_mtu: int)
    ensures
        client.egress(now, hw, ip_mtu) matches Egress::Send(_, _, message) ==> {
            &&& message.client_hardware_address == hw
            &&& message.client_identifier == Some(hw)
        },
{
}

/// A client leaves empty what only servers and relays fill in.
pub proof fn messages_leave_server_fields_empty(
    client: Client,
    now: int,
    hw: EthernetAddress,
    ip_mtu: int,
)
    ensures
        client.egress(now, hw, ip_mtu) matches Egress::Send(_, _, message) ==> {
            &&& message.your_ip.0@ == seq![0u8, 0, 0, 0]
            &&& message.server_ip.0@ == seq![0u8, 0, 0, 0]
            &&& message.relay_agent_ip.0@ == seq![0u8, 0, 0, 0]
            &&& message.router is None
            &&& message.subnet_mask is None
            &&& message.lease_duration is None
            &&& message.dns_servers is None
        },
{
}

/// A client asks for a subnet mask, a router and DNS servers, in this order, and takes messages as
/// long as fit a packet of the link behind the longest headers, counted in 16 bits.
pub proof fn messages_say_what_is_wanted(client: Client, now: int, hw: EthernetAddress, ip_mtu: int)
    requires
        ip_mtu >= 68,
    ensures
        client.egress(now, hw, ip_mtu) matches Egress::Send(_, _, message) ==> {
            &&& message.parameter_request_list == Some(seq![1u8, 3, 6])
            &&& message.max_size matches Some(size) && size == (ip_mtu - 68) % 65536
        },
        MAX_IPV4_HEADER_LEN + UDP_HEADER_LEN == 68,
{
}

/// What a client sends is told by its phase. While it discovers, it broadcasts a discovery and
/// asks for a broadcast in return. While it requests, it names the address that was offered and
/// the identifier of the server that offered it. While it renews, it names neither.
pub proof fn messages_follow_the_phase(client: Client, now: int, hw: EthernetAddress, ip_mtu: int)
    ensures
        client.egress(now, hw, ip_mtu) matches Egress::Send(_, _, message) ==> match client.phase {
            Phase::Discovering { .. } => {
                &&& message.message_type == DhcpMessageType::Discover
                &&& message.broadcast
                &&& message.requested_ip is None
                &&& message.server_identifier is None
            },
            Phase::Requesting { server, requested_ip, .. } => {
                &&& message.message_type == DhcpMessageType::Request
                &&& !message.broadcast
                &&& message.requested_ip == Some(requested_ip)
                &&& message.server_identifier == Some(server.identifier)
            },
            Phase::Renewing { .. } => {
                &&& message.message_type == DhcpMessageType::Request
                &&& !message.broadcast
                &&& message.requested_ip is None
                &&& message.server_identifier is None
            },
        },
{
}

/// The payload of what a client sends is a UDP header and the message, which takes 274 octets while
/// the client requests and 262 otherwise.
pub proof fn payloads_hold_header_and_message(
    client: Client,
    now: int,
    hw: EthernetAddress,
    ip_mtu: int,
)
    ensures
        client.egress(now, hw, ip_mtu) matches Egress::Send(ipv4, _, message) ==> {
            &&& ipv4.payload_len == 8 + message.encoded_len()
            &&& ipv4.payload_len == if client.phase is Requesting {
                282int
            } else {
                270int
            }
        },
{
}

/// When a client sends: not before the time it has set for that. It gives up an offer when it
/// has sent 15 requests for it, and a lease when it has expired.
pub proof fn sending_has_its_time(client: Client, now: int, hw: EthernetAddress, ip_mtu: int)
    ensures
        match client.phase {
            Phase::Discovering { retry_at } => {
                &&& client.egress(now, hw, ip_mtu) is Idle <==> now < retry_at
                &&& client.egress(now, hw, ip_mtu) is Send <==> now >= retry_at
            },
            Phase::Requesting { retry_at, retry, .. } => {
                &&& client.egress(now, hw, ip_mtu) is Idle <==> now < retry_at
                &&& client.egress(now, hw, ip_mtu) is Restart <==> now >= retry_at && retry >= 15
                &&& client.egress(now, hw, ip_mtu) is Send <==> now >= retry_at && retry < 15
            },
            Phase::Renewing { renew_at, expires_at, .. } => {
                &&& client.egress(now, hw, ip_mtu) is Restart <==> now >= expires_at
                &&& client.egress(now, hw, ip_mtu) is Idle <==> now < expires_at && now < renew_at
                &&& client.egress(now, hw, ip_mtu) is Send <==> renew_at <= now < expires_at
            },
        },
{
}

/// What a packet that goes out changes: the time of the next one, which comes ten seconds after a
/// discovery and a second after a request, the count of requests, and the transaction id.
pub proof fn sending_sets_the_next_time(client: Client, now: int)
    requires
        client.transaction_id < u32::MAX,
    ensures
        client.sent(now).transaction_id == client.transaction_id + 1,
        client.sent(now).config_changed == client.config_changed,
        client.sent(now).meta == client.meta,
        client.sent(now).config() == client.config(),
        client.phase is Discovering ==> client.sent(now).phase == (Phase::Discovering {
            retry_at: now + 10_000,
        }),
        client.phase matches Phase::Requesting { retry, server, requested_ip, .. }
            ==> client.sent(now).phase == (Phase::Requesting {
            retry_at: now + 1_000,
            retry: retry + 1,
            server,
            requested_ip,
        }),
        client.phase matches Phase::Renewing { server, expires_at, .. } ==> {
            &&& client.sent(now).phase matches Phase::Renewing {
                server: s,
                renew_at: r,
                expires_at: e,
                ..
            }
            &&& s == server
            &&& e == expires_at
            &&& r <= e
            &&& now < expires_at ==> (r == e || r >= now + 60_000) && (r == e || 2 * (r - now)
                >= expires_at - now - 1) && (r <= now + 60_000 || 2 * (r - now) <= expires_at - now)
        },
{
}

/// What dispatching does: nothing while the client is idle or if its packet does not go out, and
/// otherwise what sending or starting over does.
pub proof fn dispatching_follows_what_is_due(
    client: Client,
    now: int,
    hw: EthernetAddress,
    ip_mtu: int,
    delivered: bool,
)
    ensures
        ({
            let after = client.dispatched(now, hw, ip_mtu, delivered);
            &&& client.egress(now, hw, ip_mtu) is Idle ==> after == client
            &&& client.egress(now, hw, ip_mtu) is Restart ==> after == client.restarted()
            &&& client.egress(now, hw, ip_mtu) is Send && delivered ==> after == client.sent(now)
            &&& client.egress(now, hw, ip_mtu) is Send && !delivered ==> after == client
        }),
{
}

/// What is handed out as a packet is what the client sends: the headers and the message as they
/// are.
pub proof fn packets_are_handed_out_whole(ipv4: Ipv4Repr, udp: UdpRepr, dhcp: DhcpRepr<'_>)
    ensures
        packet_egress((ipv4, udp, dhcp)) matches Egress::Send(i, u, m) && i == ipv4 && u == udp && m
            == dhcp@,
{
}

/// A new client has sent nothing and has nothing; it is due at time zero and has its state to
/// report.
pub proof fn new_clients_are_due(hw: EthernetAddress, ip_mtu: int)
    ensures
        Client::initial().phase == (Phase::Discovering { retry_at: 0 }),
        Client::initial().config() is None,
        Client::initial().config_changed,
        Client::initial().transaction_id == 1,
        Client::initial().meta.handle == 0,
        Client::initial().wake_at() == 0,
{
}

/// A client wakes up when it sends next, or when its lease expires, if that comes first. It has a
/// configuration exactly while it has a lease: the one that came with it.
pub proof fn wake_time_and_config_follow_the_phase(client: Client)
    ensures
        match client.phase {
            Phase::Discovering { retry_at } => client.wake_at() == retry_at && client.config()
                is None,
            Phase::Requesting { retry_at, .. } => client.wake_at() == retry_at && client.config()
                is None,
            Phase::Renewing { renew_at, expires_at, config, .. } => {
                &&& client.wake_at() <= renew_at
                &&& client.wake_at() <= expires_at
                &&& client.wake_at() == renew_at || client.wake_at() == expires_at
                &&& client.config() == Some(config)
            },
        },
{
}

/// Starting over leads to a discovery that is due at time zero. It raises the flag if there was a
/// lease, and keeps all else.
pub proof fn restart_forgets_the_lease(client: Client)
    ensures
        client.restarted().phase == (Phase::Discovering { retry_at: 0 }),
        client.restarted().config_changed == (client.config_changed || client.phase is Renewing),
        client.restarted().transaction_id == client.transaction_id,
        client.restarted().meta == client.meta,
        client.reported().meta == client.meta,
{
}

/// A client that discovers takes an offer that is meant for it, answers its last message and names
/// a server and an address for a single host, whatever else the offer says. It then requests that
/// address, at once, and no request has been sent for it so far. The server is known by the
/// address that the offer came from and by the identifier it gave.
pub proof fn offers_are_taken(
    client: Client,
    now: int,
    hw: EthernetAddress,
    src: Ipv4Address,
    offer: DhcpMessage,
)
    requires
        client.phase is Discovering,
        offer.client_hardware_address == hw,
        offer.transaction_id == client.transaction_id,
        offer.server_identifier is Some,
        offer.message_type == DhcpMessageType::Offer,
        is_host(offer.your_ip.0[0], offer.your_ip.0[1], offer.your_ip.0[2], offer.your_ip.0[3]),
    ensures
        ({
            let after = client.answered(now, hw, src, offer);
            &&& after.phase matches Phase::Requesting { retry_at, retry, server, requested_ip }
            &&& retry_at == now
            &&& retry == 0
            &&& server.address == src
            &&& Some(server.identifier) == offer.server_identifier
            &&& requested_ip == offer.your_ip
            &&& after.config_changed == client.config_changed
            &&& after.transaction_id == client.transaction_id
            &&& after.meta == client.meta
        }),
{
    unicast_addresses_are_hosts(offer.your_ip);
}

/// A client that requests or renews takes an acknowledgement that is meant for it, answers its last
/// message and names a server, a subnet mask and an address for a single host, whatever else the
/// acknowledgement says. It then has the configuration of the acknowledgement, for as long as
/// that says, from the server it asked. The flag is raised if the configuration is a new one.
pub proof fn acknowledgements_are_taken(
    client: Client,
    now: int,
    hw: EthernetAddress,
    src: Ipv4Address,
    ack: DhcpMessage,
    prefix_len: u8,
)
    requires
        !(client.phase is Discovering),
        ack.client_hardware_address == hw,
        ack.transaction_id == client.transaction_id,
        ack.server_identifier is Some,
        ack.message_type == DhcpMessageType::Ack,
        ack.subnet_mask matches Some(mask) && is_mask(mask, prefix_len as int),
        is_host(ack.your_ip.0[0], ack.your_ip.0[1], ack.your_ip.0[2], ack.your_ip.0[3]),
    ensures
        ({
            let after = client.answered(now, hw, src, ack);
            &&& after.phase matches Phase::Renewing { server, config, renew_at, expires_at }
            &&& server == (if client.phase is Requesting {
                client.phase->Requesting_server
            } else {
                client.phase->Renewing_server
            })
            &&& config_is_that_of(config, ack, prefix_len)
            &&& renew_at == now + term(ack) / 2 * 1000
            &&& expires_at == now + term(ack) * 1000
            &&& after.config_changed == (client.config_changed || client.phase is Requesting
                || client.phase->Renewing_config != config)
            &&& after.transaction_id == client.transaction_id
            &&& after.meta == client.meta
        }),
{
    unicast_addresses_are_hosts(ack.your_ip);
    prefix_len_is_that_of_mask(ack.subnet_mask->0);
}

/// An acknowledgement grants a lease exactly if it has a subnet mask and an address for a single
/// host, whatever else it says. Each part of the configuration is then the one of the message.
/// The lease ends when its term is over, and is to be renewed after half of it, in whole
/// seconds.
pub proof fn grants_say_what_the_acknowledgement_says(now: int, ack: DhcpMessage)
    ensures
        granted(now, ack) is Some <==> (ack.subnet_mask is Some && (exists|n: u8|
            #[trigger] is_mask(ack.subnet_mask->0, n as int)) && is_host(
            ack.your_ip.0[0],
            ack.your_ip.0[1],
            ack.your_ip.0[2],
            ack.your_ip.0[3],
        )),
        granted(now, ack) matches Some(lease) ==> {
            &&& is_mask(ack.subnet_mask->0, lease.config.address.prefix_len as int)
            &&& config_is_that_of(lease.config, ack, lease.config.address.prefix_len)
            &&& lease.config.address.address == ack.your_ip
            &&& lease.config.router == ack.router
            &&& ack.dns_servers matches Some(servers) ==> lease.config.dns_servers@ == servers@
            &&& ack.dns_servers is None ==> lease.config.dns_servers@ == seq![
                None::<Ipv4Address>,
                None,
                None,
            ]
            &&& ack.lease_duration matches Some(secs) ==> lease.expires_at == now + secs * 1000
                && lease.renew_at == now + (secs as int / 2) * 1000
            &&& ack.lease_duration is None ==> lease.expires_at == now + 120_000 && lease.renew_at
                == now + 60_000
        },
{
    unicast_addresses_are_hosts(ack.your_ip);
    if ack.subnet_mask is Some {
        prefix_len_is_that_of_mask(ack.subnet_mask->0);
    }
}

/// A message that has nothing to say to a client in its phase changes nothing: anything but an
/// offer of an address for a single host while it discovers, and anything but a refusal or an
/// acknowledgement that grants a lease afterwards.
pub proof fn untimely_messages_are_ignored(
    client: Client,
    now: int,
    hw: EthernetAddress,
    src: Ipv4Address,
    message: DhcpMessage,
)
    requires
        client.phase is Discovering ==> (message.message_type != DhcpMessageType::Offer || !is_host(
            message.your_ip.0[0],
            message.your_ip.0[1],
            message.your_ip.0[2],
            message.your_ip.0[3],
        )),
        !(client.phase is Discovering) ==> message.message_type != DhcpMessageType::Nak && (
        message.message_type != DhcpMessageType::Ack || message.subnet_mask is None || (forall|n: u8|
            !#[trigger] is_mask(message.subnet_mask->0, n as int)) || !is_host(
            message.your_ip.0[0],
            message.your_ip.0[1],
            message.your_ip.0[2],
            message.your_ip.0[3],
        )),
    ensures
        client.answered(now, hw, src, message) == client,
{
    unicast_addresses_are_hosts(message.your_ip);
    if message.subnet_mask is Some {
        prefix_len_is_that_of_mask(message.subnet_mask->0);
    }
}

/// A message that is not meant for the client, answers another message or does not name its server
/// changes nothing.
pub proof fn foreign_messages_are_ignored(
    client: Client,
    now: int,
    hw: EthernetAddress,
    src: Ipv4Address,
    message: DhcpMessage,
)
    requires
        ({
            ||| message.client_hardware_address != hw
            ||| message.transaction_id != client.transaction_id
            ||| message.server_identifier is None
        }),
    ensures
        client.answered(now, hw, src, message) == client,
{
}

/// A packet from the server port to the client port whose payload is a message is taken for that
/// message from the address it came from, whatever else its headers say.
pub proof fn packets_are_taken_for_their_messages(
    client: Client,
    now: int,
    hw: EthernetAddress,
    ip: Ipv4Repr,
    udp: UdpRepr,
    payload: Seq<u8>,
)
    requires
        udp.src_port == 67,
        udp.dst_port == 68,
        decoded(payload) is Ok,
    ensures
        client.received(now, hw, ip, udp, payload) == client.answered(
            now,
            hw,
            ip.src_addr,
            decoded(payload)->Ok_0,
        ),
{
}

/// A reply reaches the client that it answers: a message that repeats the transaction id and the
/// hardware address of what a client has sent and names its server is taken by that client. An
/// offer of an address for a single host makes one that discovers request that address, a
/// refusal makes the others start over, and an acknowledgement with a subnet mask and an address
/// for a single host gives them that address.
pub proof fn replies_reach_the_sender(
    client: Client,
    now: int,
    later: int,
    hw: EthernetAddress,
    ip_mtu: int,
    src: Ipv4Address,
    reply: DhcpMessage,
)
    requires
        client.egress(now, hw, ip_mtu) matches Egress::Send(_, _, message)
            && reply.client_hardware_address == message.client_hardware_address
            && reply.transaction_id == message.transaction_id,
        reply.server_identifier is Some,
    ensures
        ({
            let after = client.sent(now).answered(later, hw, src, reply);
            let host = is_host(
                reply.your_ip.0[0],
                reply.your_ip.0[1],
                reply.your_ip.0[2],
                reply.your_ip.0[3],
            );
            &&& client.phase is Discovering && reply.message_type == DhcpMessageType::Offer && host
                ==> (after.phase matches Phase::Requesting { requested_ip, .. } && requested_ip
                == reply.your_ip)
            &&& !(client.phase is Discovering) && reply.message_type == DhcpMessageType::Nak
                ==> after.phase == (Phase::Discovering { retry_at: 0 })
            &&& !(client.phase is Discovering) && reply.message_type == DhcpMessageType::Ack && host
                && (reply.subnet_mask is Some && exists|n: u8|
                #[trigger] is_mask(reply.subnet_mask->0, n as int)) ==> (
            after.config() matches Some(config) && config.address.address == reply.your_ip)
        }),
{
    unicast_addresses_are_hosts(reply.your_ip);
    if reply.subnet_mask is Some {
        prefix_len_is_that_of_mask(reply.subnet_mask->0);
    }
}

/// What the invariant says: a lease is not due for renewal after it has expired, and is for the
/// address of a single host in a block; no more than 15 requests are sent for an offer.
pub proof fn invariant_bounds_the_client(client: Client)
    requires
        client.wf(),
    ensures
        client.phase matches Phase::Renewing { renew_at, expires_at, config, .. } ==> {
            &&& renew_at <= expires_at
            &&& config.address.prefix_len <= 32
            &&& is_host(
                config.address.address.0[0],
                config.address.address.0[1],
                config.address.address.0[2],
                config.address.address.0[3],
            )
        },
        client.phase matches Phase::Requesting { retry, requested_ip, .. } ==> {
            &&& 0 <= retry <= 15
            &&& is_host(
                requested_ip.0[0],
                requested_ip.0[1],
                requested_ip.0[2],
                requested_ip.0[3],
            )
        },
{
    if let Phase::Renewing { config, .. } = client.phase {
        unicast_addresses_are_hosts(config.address.address);
    }
    if let Phase::Requesting { requested_ip, .. } = client.phase {
        unicast_addresses_are_hosts(requested_ip);
    }
}

/// A client can send whenever the time ten seconds later fits an `Instant`.
pub proof fn early_sendings_fit(client: Client, now: int)
    requires
        i64::MIN <= now <= i64::MAX - 10_000,
        client.phase matches Phase::Renewing { expires_at, .. } ==> now < expires_at,
    ensures
        client.stays_in_range(client.sent(now)),
{
}

/// Configurations are equal exactly if they are so part by part, and a socket of any kind holds the
/// socket it was made from.
pub proof fn equality_is_by_parts(a: Config, b: Config, socket: Dhcpv4Socket)
    ensures
        a.eq_spec(&b) == (a.address == b.address && a.router == b.router && a.dns_servers[0]
            == b.dns_servers[0] && a.dns_servers[1] == b.dns_servers[1] && a.dns_servers[2]
            == b.dns_servers[2]),
        Socket::from_spec(socket) == Socket::Dhcpv4(socket),
{
    if a.dns_servers[0] == b.dns_servers[0] && a.dns_servers[1] == b.dns_servers[1]
        && a.dns_servers[2] == b.dns_servers[2] {
        assert(a.dns_servers =~= b.dns_servers);
    }
}

} // verus!
