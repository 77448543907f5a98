//! Per-interface configuration, built from the system's interface address
//! list.

use vstd::prelude::*;

verus! {

/// Configuration for monitoring a specific interface.
#[derive(Debug)]
pub struct InterfaceConfig {
    /// Interface name (e.g., "eth0")
    pub name: String,
    /// The interface's IPv4 addresses, as 32-bit numbers
    pub ipv4_addresses: Vec<u32>,
    /// The interface's link-local IPv6 addresses, as 128-bit numbers
    pub ipv6_addresses: Vec<u128>,
    /// Enable IGMPv3 querying on this interface
    pub enable_igmp: bool,
    /// Enable MLDv2 querying on this interface
    pub enable_mld: bool,
}

/// The address of an interface address entry, by family.
#[derive(Clone, Copy, Debug, PartialEq, Eq, Structural)]
pub enum SocketAddress {
    /// An IPv4 address, as its 32-bit number.
    V4(u32),
    /// An IPv6 address, as its 128-bit number.
    V6(u128),
    /// An address of another family.
    Other,
}

/// One entry of the system's interface address list.
#[derive(Debug)]
pub struct InterfaceAddress {
    /// Name of the interface the entry belongs to
    pub interface_name: String,
    /// The entry's address, if it has one
    pub address: Option<SocketAddress>,
}

/// The IPv4 addresses of the entries named `name`, in list order.
pub open spec fn ipv4_addresses_of(name: Seq<char>, entries: Seq<InterfaceAddress>) -> Seq<u32>
    decreases entries.len(),
{
    if entries.len() == 0 {
        seq![]
    } else {
        let rest = ipv4_addresses_of(name, entries.drop_last());
        let e = entries.last();
        match e.address {
            Some(SocketAddress::V4(a)) if e.interface_name@ == name => rest.push(a),
            _ => rest,
        }
    }
}

/// The first address of the link-local prefix fe80::/10.
pub const LINK_LOCAL_FIRST: u128 = 0xfe80_0000_0000_0000_0000_0000_0000_0000;

/// The first address after the link-local prefix fe80::/10.
pub const LINK_LOCAL_END: u128 = 0xfec0_0000_0000_0000_0000_0000_0000_0000;

/// Whether `a` lies in the link-local prefix fe80::/10.
pub open spec fn is_link_local(a: u128) -> bool {
    LINK_LOCAL_FIRST <= a < LINK_LOCAL_END
}

/// The link-local (fe80::/10) IPv6 addresses of the entries named `name`,
/// in list order.
pub open spec fn ipv6_addresses_of(name: Seq<char>, entries: Seq<InterfaceAddress>) -> Seq<u128>
    decreases entries.len(),
{
    if entries.len() == 0 {
        seq![]
    } else {
        let rest = ipv6_addresses_of(name, entries.drop_last());
        let e = entries.last();
        match e.address {
            Some(SocketAddress::V6(a)) if e.interface_name@ == name && is_link_local(a) => rest.push(
                a,
            ),
            _ => rest,
        }
    }
}

/// The IPv4 address an entry gives to the interface `name`, if any.
pub open spec fn ipv4_of_entry(name: Seq<char>) -> spec_fn(InterfaceAddress) -> Option<u32> {
    |e: InterfaceAddress|
        match e.address {
            Some(SocketAddress::V4(a)) => if e.interface_name@ == name {
                Some(a)
            } else {
                None
            },
            _ => None,
        }
}

/// The link-local IPv6 address an entry gives to the interface `name`, if
/// any.
pub open spec fn ipv6_of_entry(name: Seq<char>) -> spec_fn(InterfaceAddress) -> Option<u128> {
    |e: InterfaceAddress|
        match e.address {
            Some(SocketAddress::V6(a)) => if e.interface_name@ == name && LINK_LOCAL_FIRST <= a
                && a < LINK_LOCAL_END {
                Some(a)
            } else {
                None
            },
            _ => None,
        }
}

/// The IPv4 addresses collected for `name` are exactly those its entries
/// give, in list order (the entries mapped to their IPv4 addresses, with
/// every other entry dropped): every IPv4 address of an entry named `name`
/// is kept, and every address kept is the IPv4 address of such an entry.
pub proof fn law_ipv4_addresses_are_the_interfaces(name: Seq<char>, entries: Seq<InterfaceAddress>)
    ensures
        ipv4_addresses_of(name, entries) == entries.filter_map(ipv4_of_entry(name)),
        forall|i: int, a: u32|
            #![trigger entries[i], ipv4_addresses_of(name, entries).contains(a)]
            0 <= i < entries.len() && entries[i].interface_name@ == name && entries[i].address
                == Some(SocketAddress::V4(a)) ==> ipv4_addresses_of(name, entries).contains(a),
        forall|k: int|
            #![trigger ipv4_addresses_of(name, entries)[k]]
            0 <= k < ipv4_addresses_of(name, entries).len() ==> exists|i: int|
                0 <= i < entries.len() && (#[trigger] entries[i]).interface_name@ == name
                    && entries[i].address == Some(
                    SocketAddress::V4(ipv4_addresses_of(name, entries)[k]),
                ),
    decreases entries.len(),
{
    if entries.len() > 0 {
        let rest = entries.drop_last();
        law_ipv4_addresses_are_the_interfaces(name, rest);
        let r = ipv4_addresses_of(name, entries);
        let rr = ipv4_addresses_of(name, rest);
        let last = entries.last();
        match last.address {
            Some(SocketAddress::V4(a)) if last.interface_name@ == name => {
                assert(r =~= rr + seq![a]);
            },
            _ => {
                assert(r == rr);
            },
        }
        assert forall|i: int, a: u32|
            #![trigger entries[i], r.contains(a)]
            0 <= i < entries.len() && entries[i].interface_name@ == name && entries[i].address
                == Some(SocketAddress::V4(a)) implies r.contains(a) by {
            if i < entries.len() - 1 {
                assert(entries[i] == rest[i]);
                assert(rr.contains(a));
                let j = choose|j: int| 0 <= j < rr.len() && rr[j] == a;
                assert(r[j] == a);
            } else {
                assert(r[r.len() - 1] == a);
            }
        }
        assert forall|k: int| #![trigger r[k]] 0 <= k < r.len() implies exists|i: int|
            0 <= i < entries.len() && (#[trigger] entries[i]).interface_name@ == name
                && entries[i].address == Some(SocketAddress::V4(r[k])) by {
            if k < rr.len() {
                assert(r[k] == rr[k]);
                let i = choose|i: int|
                    0 <= i < rest.len() && (#[trigger] rest[i]).interface_name@ == name
                        && rest[i].address == Some(SocketAddress::V4(rr[k]));
                assert(entries[i] == rest[i]);
            } else {
                assert(entries[entries.len() - 1] == last);
            }
        }
    }
}

/// The IPv6 addresses collected for `name` are exactly the link-local
/// (fe80::/10) ones its entries give, in list order: every link-local IPv6
/// address of an entry named `name` is kept, and every address kept is a
/// link-local IPv6 address of such an entry.
pub proof fn law_ipv6_addresses_are_the_interfaces_link_local(
    name: Seq<char>,
    entries: Seq<InterfaceAddress>,
)
    ensures
        ipv6_addresses_of(name, entries) == entries.filter_map(ipv6_of_entry(name)),
        forall|i: int, a: u128|
            #![trigger entries[i], ipv6_addresses_of(name, entries).contains(a)]
            0 <= i < entries.len() && entries[i].interface_name@ == name && entries[i].address
                == Some(SocketAddress::V6(a)) && 0xfe80_0000_0000_0000_0000_0000_0000_0000 <= a <= 0xfebf_ffff_ffff_ffff_ffff_ffff_ffff_ffff ==> ipv6_addresses_of(name, entries).contains(a),
        forall|k: int|
            #![trigger ipv6_addresses_of(name, entries)[k]]
            0 <= k < ipv6_addresses_of(name, entries).len() ==> exists|i: int|
                0 <= i < entries.len() && (#[trigger] entries[i]).interface_name@ == name
                    && entries[i].address == Some(
                    SocketAddress::V6(ipv6_addresses_of(name, entries)[k]),
                ) && 0xfe80_0000_0000_0000_0000_0000_0000_0000 <= ipv6_addresses_of(
                    name,
                    entries,
                )[k] <= 0xfebf_ffff_ffff_ffff_ffff_ffff_ffff_ffff,
    decreases entries.len(),
{
    if entries.len() > 0 {
        let rest = entries.drop_last();
        law_ipv6_addresses_are_the_interfaces_link_local(name, rest);
        let r = ipv6_addresses_of(name, entries);
        let rr = ipv6_addresses_of(name, rest);
        let last = entries.last();
        match last.address {
            Some(SocketAddress::V6(a)) if last.interface_name@ == name && is_link_local(a) => {
                assert(r =~= rr + seq![a]);
            },
            _ => {
                assert(r == rr);
            },
        }
        assert forall|i: int, a: u128|
            #![trigger entries[i], r.contains(a)]
            0 <= i < entries.len() && entries[i].interface_name@ == name && entries[i].address
                == Some(SocketAddress::V6(a)) && 0xfe80_0000_0000_0000_0000_0000_0000_0000 <= a <= 0xfebf_ffff_ffff_ffff_ffff_ffff_ffff_ffff implies r.contains(a) by {
            if i < entries.len() - 1 {
                assert(entries[i] == rest[i]);
                assert(rr.contains(a));
                let j = choose|j: int| 0 <= j < rr.len() && rr[j] == a;
                assert(r[j] == a);
            } else {
                assert(r[r.len() - 1] == a);
            }
        }
        assert forall|k: int| #![trigger r[k]] 0 <= k < r.len() implies exists|i: int|
            0 <= i < entries.len() && (#[trigger] entries[i]).interface_name@ == name
                && entries[i].address == Some(SocketAddress::V6(r[k]))
                && 0xfe80_0000_0000_0000_0000_0000_0000_0000 <= r[k]
                <= 0xfebf_ffff_ffff_ffff_ffff_ffff_ffff_ffff by {
            if k < rr.len() {
                assert(r[k] == rr[k]);
                let i = choose|i: int|
                    0 <= i < rest.len() && (#[trigger] rest[i]).interface_name@ == name
                        && rest[i].address == Some(SocketAddress::V6(rr[k]))
                        && 0xfe80_0000_0000_0000_0000_0000_0000_0000 <= rr[k]
                        <= 0xfebf_ffff_ffff_ffff_ffff_ffff_ffff_ffff;
                assert(entries[i] == rest[i]);
            } else {
                assert(entries[entries.len() - 1] == last);
            }
        }
    }
}

/// Creates the configuration of the interface `interface_name` from the
/// system's interface address list: its IPv4 addresses and its link-local
/// IPv6 addresses in list order, with IGMP enabled when it has an IPv4
/// address and MLD when it has a link-local IPv6 address.
pub fn create_interface_config(interface_name: String, ifaddrs: &Vec<InterfaceAddress>) -> (r:
    InterfaceConfig)
    ensures
        r.name@ == interface_name@,
        r.ipv4_addresses@ == ipv4_addresses_of(interface_name@, ifaddrs@),
        r.ipv6_addresses@ == ipv6_addresses_of(interface_name@, ifaddrs@),
        r.enable_igmp == (r.ipv4_addresses@.len() > 0),
        r.enable_mld == (r.ipv6_addresses@.len() > 0),
        r.enable_igmp <==> exists|i: int|
            0 <= i < ifaddrs@.len() && (#[trigger] ifaddrs@[i]).interface_name@ == interface_name@
                && ifaddrs@[i].address matches Some(SocketAddress::V4(_)),
        r.enable_mld <==> exists|i: int|
            0 <= i < ifaddrs@.len() && (#[trigger] ifaddrs@[i]).interface_name@ == interface_name@
                && match ifaddrs@[i].address {
                Some(SocketAddress::V6(a)) => LINK_LOCAL_FIRST <= a && a < LINK_LOCAL_END,
                _ => false,
            },
{
    let mut ipv4_addrs: Vec<u32> = Vec::new();
    let mut ipv6_addrs: Vec<u128> = Vec::new();
    let mut i: usize = 0;
    while i < ifaddrs.len()
        invariant
            0 <= i <= ifaddrs.len(),
            ipv4_addrs@ == ipv4_addresses_of(interface_name@, ifaddrs@.take(i as int)),
            ipv6_addrs@ == ipv6_addresses_of(interface_name@, ifaddrs@.take(i as int)),
        decreases ifaddrs.len() - i,
    {
        let ifaddr = &ifaddrs[i];
        assert(ifaddrs@.take(i + 1).drop_last() =~= ifaddrs@.take(i as int));
        if ifaddr.interface_name == interface_name {
            if let Some(sock_addr) = ifaddr.address {
                match sock_addr {
                    SocketAddress::V4(inet4) => ipv4_addrs.push(inet4),
                    SocketAddress::V6(inet6) => {
                        if LINK_LOCAL_FIRST <= inet6 && inet6 < LINK_LOCAL_END {
                            ipv6_addrs.push(inet6);
                        }
                    },
                    SocketAddress::Other => {},
                }
            }
        }
        i = i + 1;
    }
    assert(ifaddrs@.take(ifaddrs.len() as int) =~= ifaddrs@);
    proof {
        let name = interface_name@;
        let es = ifaddrs@;
        law_ipv4_addresses_are_the_interfaces(name, es);
        law_ipv6_addresses_are_the_interfaces_link_local(name, es);
        if exists|i: int|
            0 <= i < es.len() && (#[trigger] es[i]).interface_name@ == name
                && es[i].address matches Some(SocketAddress::V4(_)) {
            let i = choose|i: int|
                0 <= i < es.len() && (#[trigger] es[i]).interface_name@ == name
                    && es[i].address matches Some(SocketAddress::V4(_));
            if let Some(SocketAddress::V4(a)) = es[i].address {
                assert(ipv4_addresses_of(name, es).contains(a));
            }
        }
        if ipv4_addrs@.len() > 0 {
            assert(ipv4_addresses_of(name, es)[0] == ipv4_addrs@[0]);
        }
        if exists|i: int|
            0 <= i < es.len() && (#[trigger] es[i]).interface_name@ == name
                && match es[i].address {
                Some(SocketAddress::V6(a)) => LINK_LOCAL_FIRST <= a && a < LINK_LOCAL_END,
                _ => false,
            } {
            let i = choose|i: int|
                0 <= i < es.len() && (#[trigger] es[i]).interface_name@ == name
                    && match es[i].address {
                    Some(SocketAddress::V6(a)) => LINK_LOCAL_FIRST <= a && a < LINK_LOCAL_END,
                    _ => false,
                };
            if let Some(SocketAddress::V6(a)) = es[i].address {
                assert(ipv6_addresses_of(name, es).contains(a));
            }
        }
        if ipv6_addrs@.len() > 0 {
            assert(ipv6_addresses_of(name, es)[0] == ipv6_addrs@[0]);
        }
    }
    let enable_igmp = ipv4_addrs.len() > 0;
    let enable_mld = ipv6_addrs.len() > 0;
    InterfaceConfig {
        name: interface_name,
        enable_igmp,
        enable_mld,
        ipv4_addresses: ipv4_addrs,
        ipv6_addresses: ipv6_addrs,
    }
}

} // verus!
