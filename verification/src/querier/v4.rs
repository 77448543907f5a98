//! IGMP querier: election on IPv4 source addresses and query scheduling.

use vstd::prelude::*;

use crate::config::{OTHER_QUERIER_PRESENT_INTERVAL_MS, QUERY_INTERVAL_MS};
use crate::packet::checksum::internet_checksum;
use crate::packet::igmp::{get_ip4_from_query, general_query, igmp_wire, ip4_from_query, IgmpPacket};
use crate::querier::{after_query_heard, after_query_sent, initial_state, query_due, QuerierView};

verus! {

/// Whether `data` is an IGMP query from an address lower than `local_ip`.
pub open spec fn is_query_from_lower_v4(data: Seq<u8>, local_ip: u32) -> bool {
    match ip4_from_query(data) {
        Some(ip) => ip < local_ip,
        None => false,
    }
}

/// State for managing IGMP querier election and query scheduling.
#[derive(Debug)]
pub struct QuerierV4State {
    /// Our local IPv4 address on the interface, as its 32-bit number
    local_ip: u32,
    /// Clock reading of the last query from a querier with a lower address
    other_querier_seen: Option<u64>,
    /// Clock reading when we last sent a general query
    last_query_sent: Option<u64>,
}

impl View for QuerierV4State {
    type V = QuerierView<u32>;

    closed spec fn view(&self) -> QuerierView<u32> {
        QuerierView {
            local_ip: self.local_ip,
            other_querier_seen: self.other_querier_seen,
            last_query_sent: self.last_query_sent,
        }
    }
}

impl QuerierV4State {
    /// Creates a new querier state for the given local address; it starts
    /// out as the querier, with no query sent.
    pub fn new(local_ip: u32) -> (r: Self)
        ensures
            r@ == initial_state(local_ip),
    {
        Self { local_ip, other_querier_seen: None, last_query_sent: None }
    }

    /// Handles raw data received at clock reading `now`.
    ///
    /// Returns true if we should back off: the data is an IGMP query from a
    /// lower source address, and we then stay quiet for an Other Querier
    /// Present Interval.
    pub fn handle_received_query(&mut self, query_data: &[u8], now: u64) -> (r: bool)
        ensures
            r == is_query_from_lower_v4(query_data@, old(self)@.local_ip),
            r <==> (ip4_from_query(query_data@) is Some && ip4_from_query(query_data@)->0
                < old(self)@.local_ip),
            final(self)@ == after_query_heard(old(self)@, r, now),
    {
        let src_ip = get_ip4_from_query(query_data);
        if let Some(ip) = src_ip {
            if ip < self.local_ip {
                self.other_querier_seen = Some(now);
                return true;
            }
        }
        false
    }

    /// Checks if it's time to send a query at clock reading `now`: we are
    /// the querier, and we have not sent one yet or a full query interval
    /// has elapsed since the last.
    pub fn should_send_query(&self, now: u64) -> (r: bool)
        ensures
            r == query_due(self@, now),
    {
        let time_has_passed = match self.last_query_sent {
            None => true,
            Some(t) => now >= t && now - t >= QUERY_INTERVAL_MS,
        };
        let am_i_the_querier = match self.other_querier_seen {
            None => true,
            Some(t) => now >= t && now - t >= OTHER_QUERIER_PRESENT_INTERVAL_MS,
        };
        time_has_passed && am_i_the_querier
    }

    /// Marks that we just sent a query, at clock reading `now`.
    pub fn mark_query_sent(&mut self, now: u64)
        ensures
            final(self)@ == after_query_sent(old(self)@, now),
    {
        self.last_query_sent = Some(now);
    }
}

/// The bytes of the general IGMP query to send to 224.0.0.1.
pub fn igmp_query_payload() -> (r: Vec<u8>)
    ensures
        r@ == igmp_wire(general_query()),
        internet_checksum(r@) == 0,
{
    let packet = IgmpPacket::new();
    packet.serialize()
}

/// We back off exactly for a recognised IGMP query whose source address,
/// as a 32-bit number, is smaller than ours; for any local address, a lower
/// one backs off for at least the same queries.
pub proof fn law_v4_backs_off_by_numeric_order(data: Seq<u8>, local_ip: u32, other_local: u32)
    ensures
        is_query_from_lower_v4(data, local_ip) <==> (ip4_from_query(data) is Some && (
        ip4_from_query(data)->0 as int) < (local_ip as int)),
        ip4_from_query(data) is None ==> !is_query_from_lower_v4(data, local_ip),
        other_local <= local_ip && is_query_from_lower_v4(data, other_local)
            ==> is_query_from_lower_v4(data, local_ip),
{
}

} // verus!
