# dhcp_client

A DHCPv4 client socket, verified with Verus.

The socket takes UDP packets (`process`), gets chances to send (`dispatch`), says when it wants the
next one (`poll_at`), and reports the IPv4 configuration that it obtains, renews and loses (`poll`).

- `src/socket/dhcpv4.rs`: the socket.
- `src/socket/client.rs`: the model of a client that the contracts of the socket speak of.
- `src/socket/laws.rs`: what holds of a client over all inputs, states and histories.
- `src/wire/`: addresses, headers, and DHCP messages with their parser.
- `src/time.rs`, `src/error.rs`: instants and durations; errors.
