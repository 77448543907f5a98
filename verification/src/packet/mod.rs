//! Packet construction, checksums and query recognition.

pub mod checksum;
pub mod igmp;
pub mod mld;
