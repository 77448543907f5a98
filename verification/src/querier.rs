//! Querier election and query scheduling.
//!
//! Time is a monotonic clock reading in milliseconds, supplied by the caller
//! with each decision that depends on it.  A querier stays querier until it
//! hears a query from a lower address; it then keeps quiet until the Other
//! Querier Present Interval has passed without such a query, and takes over
//! again.

pub mod v4;
pub mod v6;

use vstd::prelude::*;

use crate::config::{OTHER_QUERIER_PRESENT_INTERVAL_MS, QUERY_INTERVAL_MS};

verus! {

/// An interface address of either family.
#[derive(Clone, Copy, Debug, PartialEq, Eq, Structural)]
pub enum IpAddress {
    /// An IPv4 address, as its 32-bit number.
    V4(u32),
    /// An IPv6 address, as its 128-bit number.
    V6(u128),
}

/// Address order: every IPv4 address precedes every IPv6 address; within a
/// family, addresses are ordered by their numbers.
pub open spec fn address_lt(a: IpAddress, b: IpAddress) -> bool {
    match (a, b) {
        (IpAddress::V4(x), IpAddress::V4(y)) => x < y,
        (IpAddress::V6(x), IpAddress::V6(y)) => x < y,
        (IpAddress::V4(_), IpAddress::V6(_)) => true,
        (IpAddress::V6(_), IpAddress::V4(_)) => false,
    }
}

fn is_lower_address(a: IpAddress, b: IpAddress) -> (r: bool)
    ensures
        r == address_lt(a, b),
{
    match (a, b) {
        (IpAddress::V4(x), IpAddress::V4(y)) => x < y,
        (IpAddress::V6(x), IpAddress::V6(y)) => x < y,
        (IpAddress::V4(_), IpAddress::V6(_)) => true,
        (IpAddress::V6(_), IpAddress::V4(_)) => false,
    }
}

/// The state of a querier: its own address, the clock reading of the last
/// query heard from a querier with a lower address (if any), and the clock
/// reading when it last sent a general query (if ever).
pub struct QuerierView<A> {
    pub local_ip: A,
    pub other_querier_seen: Option<u64>,
    pub last_query_sent: Option<u64>,
}

/// Whether at least `span` lies between `since` and `now`; a reading earlier
/// than `since` counts as no time elapsed.
pub open spec fn elapsed_at_least(since: u64, now: u64, span: u64) -> bool {
    now >= since && now - since >= span
}

/// Whether a query interval lies between `last` and `now`.
pub open spec fn interval_elapsed(last: u64, now: u64) -> bool {
    elapsed_at_least(last, now, QUERY_INTERVAL_MS)
}

/// Whether a querier in state `s` is the querier at `now`: it has heard no
/// query from a lower address, or the last one is at least an Other Querier
/// Present Interval old.
pub open spec fn is_querier_at<A>(s: QuerierView<A>, now: u64) -> bool {
    match s.other_querier_seen {
        None => true,
        Some(t) => elapsed_at_least(t, now, OTHER_QUERIER_PRESENT_INTERVAL_MS),
    }
}

/// Whether a querier in state `s` sends a query at `now`: it must be the
/// querier, and either it has never sent one or a full query interval has
/// elapsed since the last.
pub open spec fn query_due<A>(s: QuerierView<A>, now: u64) -> bool {
    is_querier_at(s, now) && match s.last_query_sent {
        None => true,
        Some(t) => interval_elapsed(t, now),
    }
}

/// `s` after hearing, at `now`, a query whose sender is lower than us
/// (`lower`) or not: only a lower one is recorded.
pub open spec fn after_query_heard<A>(s: QuerierView<A>, lower: bool, now: u64) -> QuerierView<A> {
    if lower {
        QuerierView { other_querier_seen: Some(now), ..s }
    } else {
        s
    }
}

/// `s` after recording a query sent at `now`.
pub open spec fn after_query_sent<A>(s: QuerierView<A>, now: u64) -> QuerierView<A> {
    QuerierView { last_query_sent: Some(now), ..s }
}

/// The starting state: querier, no query heard, none sent.
pub open spec fn initial_state<A>(local_ip: A) -> QuerierView<A> {
    QuerierView { local_ip, other_querier_seen: None, last_query_sent: None }
}

/// State for managing querier election and query scheduling.
#[derive(Debug)]
pub struct QuerierState {
    /// Our own IP address on this interface
    local_ip: IpAddress,
    /// Clock reading of the last query from a querier with a lower address
    other_querier_seen: Option<u64>,
    /// Clock reading when we last sent a general query
    last_query_sent: Option<u64>,
}

impl View for QuerierState {
    type V = QuerierView<IpAddress>;

    closed spec fn view(&self) -> QuerierView<IpAddress> {
        QuerierView {
            local_ip: self.local_ip,
            other_querier_seen: self.other_querier_seen,
            last_query_sent: self.last_query_sent,
        }
    }
}

impl QuerierState {
    /// Creates a new querier state for the given local IP address; it starts
    /// out as the querier.
    pub fn new(local_ip: IpAddress) -> (r: Self)
        ensures
            r@ == initial_state(local_ip),
    {
        Self { local_ip, other_querier_seen: None, last_query_sent: None }
    }

    /// Handles receiving, at clock reading `now`, a query from another
    /// querier.
    ///
    /// Returns true if we should back off (the other querier has a lower
    /// address); we then stay quiet for an Other Querier Present Interval.
    pub fn handle_received_query(&mut self, source_ip: IpAddress, now: u64) -> (r: bool)
        ensures
            r == address_lt(source_ip, old(self)@.local_ip),
            final(self)@ == after_query_heard(old(self)@, r, now),
    {
        let back_off = is_lower_address(source_ip, self.local_ip);
        if back_off {
            self.other_querier_seen = Some(now);
        }
        back_off
    }

    /// Checks if it's time to send a query at clock reading `now`.
    ///
    /// Returns true if we are the querier and we have not sent a query yet
    /// or a full query interval has elapsed since the last one.
    pub fn should_send_query(&self, now: u64) -> (r: bool)
        ensures
            r == query_due(self@, now),
    {
        let time_has_passed = match self.last_query_sent {
            None => true,
            Some(t) => now >= t && now - t >= QUERY_INTERVAL_MS,
        };
        self.am_i_querier(now) && time_has_passed
    }

    /// Marks that we just sent a query, at clock reading `now`.
    pub fn mark_query_sent(&mut self, now: u64)
        ensures
            final(self)@ == after_query_sent(old(self)@, now),
    {
        self.last_query_sent = Some(now);
    }

    /// Returns whether we are the querier at clock reading `now`.
    pub fn am_i_querier(&self, now: u64) -> (r: bool)
        ensures
            r == is_querier_at(self@, now),
    {
        match self.other_querier_seen {
            None => true,
            Some(t) => now >= t && now - t >= OTHER_QUERIER_PRESENT_INTERVAL_MS,
        }
    }
}

/// Creates a new IPv4 querier state.
pub fn new_ipv4_querier(local_ip: u32) -> (r: QuerierState)
    ensures
        r@ == initial_state(IpAddress::V4(local_ip)),
{
    QuerierState::new(IpAddress::V4(local_ip))
}

/// Creates a new IPv6 querier state.
pub fn new_ipv6_querier(local_ip: u128) -> (r: QuerierState)
    ensures
        r@ == initial_state(IpAddress::V6(local_ip)),
{
    QuerierState::new(IpAddress::V6(local_ip))
}

/// A fresh querier is the querier and sends its first query at once,
/// whatever the clock says.
pub proof fn law_first_query_is_immediate<A>(local_ip: A, now: u64)
    ensures
        is_querier_at(initial_state(local_ip), now),
        query_due(initial_state(local_ip), now),
{
}

/// After a query is sent at `t`, the next one is due exactly when a full
/// query interval has passed since `t`, provided we are the querier then.
pub proof fn law_queries_spaced_by_interval<A>(s: QuerierView<A>, t: u64, now: u64)
    ensures
        query_due(after_query_sent(s, t), now) <==> (is_querier_at(s, now) && now >= t
            + QUERY_INTERVAL_MS),
{
}

/// A query from a lower address heard at `t` ends our role as querier: from
/// `t` until an Other Querier Present Interval later we are not the querier
/// and send nothing, whatever we sent before.
pub proof fn law_backs_off_for_lower_address<A>(s: QuerierView<A>, t: u64, now: u64)
    requires
        t <= now < t + OTHER_QUERIER_PRESENT_INTERVAL_MS,
    ensures
        !is_querier_at(after_query_heard(s, true, t), now),
        !query_due(after_query_heard(s, true, t), now),
{
}

/// A query from an address that is not lower changes nothing.
pub proof fn law_higher_address_is_ignored<A>(s: QuerierView<A>, t: u64)
    ensures
        after_query_heard(s, false, t) == s,
{
}

/// Once an Other Querier Present Interval has passed since the last query
/// from a lower address, we are the querier again, and a query is due at
/// once unless we sent one less than a query interval ago.
pub proof fn law_takes_over_after_other_querier_interval<A>(s: QuerierView<A>, t: u64, now: u64)
    requires
        now >= t + OTHER_QUERIER_PRESENT_INTERVAL_MS,
    ensures
        is_querier_at(after_query_heard(s, true, t), now),
        query_due(after_query_heard(s, true, t), now) == match s.last_query_sent {
            None => true,
            Some(last) => interval_elapsed(last, now),
        },
{
}

/// The address order used in elections is a strict total order that agrees
/// with the numeric order within each family and puts every IPv4 address
/// before every IPv6 address (the order of std's `IpAddr`).
pub proof fn law_address_order(a: IpAddress, b: IpAddress, c: IpAddress, x: u32, y: u32, u: u128, v: u128)
    ensures
        !address_lt(a, a),
        address_lt(a, b) ==> !address_lt(b, a),
        address_lt(a, b) && address_lt(b, c) ==> address_lt(a, c),
        a != b ==> address_lt(a, b) || address_lt(b, a),
        address_lt(IpAddress::V4(x), IpAddress::V4(y)) <==> x < y,
        address_lt(IpAddress::V6(u), IpAddress::V6(v)) <==> u < v,
        address_lt(IpAddress::V4(x), IpAddress::V6(u)),
        !address_lt(IpAddress::V6(u), IpAddress::V4(x)),
{
}

} // verus!
