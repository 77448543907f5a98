# multicast_querier

An IGMPv3 (IPv4) and MLDv2 (IPv6) querier. `src/` is the verified library:
the query wire formats, the Internet and ICMPv6 checksums, recognition of
received IGMP queries, the per-interface configuration, and the querier
election and scheduling state (time enters as a monotonic clock reading in
milliseconds). `app/` is the program around it: interface address lookup,
raw sockets, and the per-interface receive/send loops.

Usage: `multicast-querier <interface1> [interface2] ...` (raw sockets need
root or `cap_net_raw`).
