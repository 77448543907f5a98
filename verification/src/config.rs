//! Protocol constants shared by the IGMP and MLD queriers.

use vstd::prelude::*;

verus! {

/// How often a querier sends general queries: 125 seconds (IGMPv3/MLDv2
/// default Query Interval), in milliseconds.
pub const QUERY_INTERVAL_MS: u64 = 125_000;

/// How long after the last query from a querier with a lower address we
/// take over as querier again: 255 seconds (Other Querier Present
/// Interval), in milliseconds.
pub const OTHER_QUERIER_PRESENT_INTERVAL_MS: u64 = 255_000;

/// The MLD all-nodes multicast address ff02::1.
pub const MLD_ALL_NODES: [u8; 16] = [0xff, 0x02, 0, 0, 0, 0, 0, 0, 0, 0, 0, 0, 0, 0, 0, 0x01];

} // verus!
