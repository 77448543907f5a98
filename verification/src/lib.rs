//! Verified core of an IGMPv3 / MLDv2 multicast querier: wire formats,
//! Internet checksums, query recognition and the querier election state.

pub mod config;
pub mod packet;
pub mod querier;
pub mod interface;
