//! MLD querier: election on IPv6 source addresses and query scheduling.

use vstd::prelude::*;

use crate::config::{MLD_ALL_NODES, OTHER_QUERIER_PRESENT_INTERVAL_MS, QUERY_INTERVAL_MS};
use crate::packet::mld::{
    get_ip6_from_query, ip6_from_query, mld_checksum, mld_general_query, mld_wire, with_checksum,
    MldQueryPacket, MLD_LISTENER_QUERY,
};
use crate::querier::{
    after_query_heard, after_query_sent, initial_state, is_querier_at, query_due, QuerierView,
};

verus! {

/// Whether `data`, received from `source`, is an MLD query from an address
/// lower than `local_ip`.
pub open spec fn is_query_from_lower_v6(data: Seq<u8>, source: u128, local_ip: u128) -> bool {
    match ip6_from_query(data, source) {
        Some(ip) => ip < local_ip,
        None => false,
    }
}

/// The checksum source address of the queries we send: the unspecified
/// address ::.
pub open spec fn unspecified_address() -> Seq<u8> {
    Seq::new(16, |i: int| 0u8)
}

/// The general MLD query as sent: checksummed for :: to ff02::1.
pub open spec fn mld_query_to_all_nodes() -> Seq<u8> {
    mld_wire(
        with_checksum(
            mld_general_query(),
            mld_checksum(unspecified_address(), MLD_ALL_NODES@, mld_wire(mld_general_query())),
        ),
    )
}

/// State for managing MLD querier election and query scheduling.
#[derive(Debug)]
pub struct QuerierV6State {
    /// Our local IPv6 address on the interface, as its 128-bit number
    local_ip: u128,
    /// Clock reading of the last query from a querier with a lower address
    other_querier_seen: Option<u64>,
    /// Clock reading when we last sent a general query
    last_query_sent: Option<u64>,
}

impl View for QuerierV6State {
    type V = QuerierView<u128>;

    closed spec fn view(&self) -> QuerierView<u128> {
        QuerierView {
            local_ip: self.local_ip,
            other_querier_seen: self.other_querier_seen,
            last_query_sent: self.last_query_sent,
        }
    }
}

impl QuerierV6State {
    /// Creates a new querier state for the given local address; it starts
    /// out as the querier, with no query sent.
    pub fn new(local_ip: u128) -> (r: Self)
        ensures
            r@ == initial_state(local_ip),
    {
        Self { local_ip, other_querier_seen: None, last_query_sent: None }
    }

    /// Handles an ICMPv6 message received from `source` at clock reading
    /// `now`.
    ///
    /// Returns true if we should back off: the message is an MLD query from
    /// a lower source address, and we then stay quiet for an Other Querier
    /// Present Interval.
    pub fn handle_received_query(&mut self, query_data: &[u8], source: u128, now: u64) -> (r: bool)
        ensures
            r == is_query_from_lower_v6(query_data@, source, old(self)@.local_ip),
            r <==> (query_data@.len() >= 28 && query_data@[0] == 130 && source
                < old(self)@.local_ip),
            final(self)@ == after_query_heard(old(self)@, r, now),
    {
        let src_ip = get_ip6_from_query(query_data, source);
        if let Some(ip) = src_ip {
            if ip < self.local_ip {
                self.other_querier_seen = Some(now);
                return true;
            }
        }
        false
    }

    /// Checks if it's time to send a query at clock reading `now`: we are
    /// the querier, and we have not sent one yet or a full query interval
    /// has elapsed since the last.
    pub fn should_send_query(&self, now: u64) -> (r: bool)
        ensures
            r == query_due(self@, now),
    {
        let time_has_passed = match self.last_query_sent {
            None => true,
            Some(t) => now >= t && now - t >= QUERY_INTERVAL_MS,
        };
        let am_i_the_querier = match self.other_querier_seen {
            None => true,
            Some(t) => now >= t && now - t >= OTHER_QUERIER_PRESENT_INTERVAL_MS,
        };
        time_has_passed && am_i_the_querier
    }

    /// Marks that we just sent a query, at clock reading `now`.
    pub fn mark_query_sent(&mut self, now: u64)
        ensures
            final(self)@ == after_query_sent(old(self)@, now),
    {
        self.last_query_sent = Some(now);
    }
}

/// The bytes of the general MLD query to send to ff02::1, its checksum
/// computed for the unspecified source address.
pub fn mld_query_payload() -> (r: Vec<u8>)
    ensures
        r@ == mld_query_to_all_nodes(),
        mld_checksum(unspecified_address(), MLD_ALL_NODES@, r@) == 0,
{
    let mut mld_packet = MldQueryPacket::new();
    let src: [u8; 16] = [0, 0, 0, 0, 0, 0, 0, 0, 0, 0, 0, 0, 0, 0, 0, 0];
    let dst: [u8; 16] = MLD_ALL_NODES;
    assert(src@ =~= unspecified_address());
    mld_packet.calculate_checksum(&src, &dst);
    mld_packet.serialize()
}

/// An MLD query received from a lower address at `t` ends our role as
/// querier until an Other Querier Present Interval later.
pub proof fn law_mld_query_from_lower_address_displaces(
    s: QuerierView<u128>,
    data: Seq<u8>,
    source: u128,
    t: u64,
    now: u64,
)
    requires
        data.len() >= 28,
        data[0] == MLD_LISTENER_QUERY,
        source < s.local_ip,
        t <= now < t + OTHER_QUERIER_PRESENT_INTERVAL_MS,
    ensures
        is_query_from_lower_v6(data, source, s.local_ip),
        !is_querier_at(after_query_heard(s, true, t), now),
        !query_due(after_query_heard(s, true, t), now),
{
}

} // verus!
