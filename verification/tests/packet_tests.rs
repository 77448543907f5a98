use multicast_querier::config::MLD_ALL_NODES;
use multicast_querier::packet::igmp::{calculate_checksum, get_ip4_from_query, IgmpPacket};
use multicast_querier::packet::mld::{get_ip6_from_query, MldQueryPacket};
use multicast_querier::querier::v4::igmp_query_payload;
use multicast_querier::querier::v6::mld_query_payload;

const IGMP_QUERY: [u8; 12] = [0x11, 0x64, 0xEC, 0x1E, 0, 0, 0, 0, 0x02, 0x7D, 0, 0];

#[test]
fn checksum_of_rfc1071_example() {
    assert_eq!(calculate_checksum(&[0x00, 0x01, 0xf2, 0x03, 0xf4, 0xf5, 0xf6, 0xf7]), 0x220d);
}

#[test]
fn checksum_of_empty_data_is_all_ones() {
    assert_eq!(calculate_checksum(&[]), 0xFFFF);
}

#[test]
fn checksum_pads_odd_byte_with_zero() {
    assert_eq!(calculate_checksum(&[0x01]), 0xFEFF);
    assert_eq!(calculate_checksum(&[0x12, 0x34, 0x56]), !(0x1234u16 + 0x5600));
}

#[test]
fn checksum_folds_carries() {
    // 0xFFFF + 0x0002 = 0x10001, folded to 0x0002, complemented to 0xFFFD.
    assert_eq!(calculate_checksum(&[0xFF, 0xFF, 0x00, 0x02]), 0xFFFD);
}

#[test]
fn checksum_of_data_carrying_its_checksum_is_zero() {
    let mut data = vec![0x45, 0x00, 0x00, 0x00, 0x12, 0x34, 0xAB];
    let c = calculate_checksum(&data);
    data[2] = (c >> 8) as u8;
    data[3] = (c & 0xFF) as u8;
    assert_eq!(calculate_checksum(&data), 0);
}

#[test]
fn igmp_general_query_bytes() {
    assert_eq!(IgmpPacket::new().serialize(), IGMP_QUERY.to_vec());
}

#[test]
fn igmp_general_query_validates() {
    assert_eq!(calculate_checksum(&IgmpPacket::new().serialize()), 0);
}

#[test]
fn igmp_query_payload_is_the_general_query() {
    assert_eq!(igmp_query_payload(), IGMP_QUERY.to_vec());
}

fn ipv4_datagram(ihl: u8, protocol: u8, src: [u8; 4], payload: &[u8]) -> Vec<u8> {
    let mut d = vec![0u8; (ihl as usize) * 4];
    d[0] = 0x40 | ihl;
    d[9] = protocol;
    d[12..16].copy_from_slice(&src);
    d.extend_from_slice(payload);
    d
}

#[test]
fn recognises_igmp_query_source() {
    let d = ipv4_datagram(5, 2, [192, 168, 1, 5], &IGMP_QUERY);
    assert_eq!(get_ip4_from_query(&d), Some(0xC0A8_0105));
}

#[test]
fn recognises_query_behind_header_with_options() {
    let d = ipv4_datagram(6, 2, [10, 0, 0, 1], &IGMP_QUERY);
    assert_eq!(d.len(), 36);
    assert_eq!(get_ip4_from_query(&d), Some(0x0A00_0001));
}

#[test]
fn rejects_short_data() {
    let d = ipv4_datagram(5, 2, [10, 0, 0, 1], &IGMP_QUERY);
    assert_eq!(get_ip4_from_query(&d[..31]), None);
    assert_eq!(get_ip4_from_query(&[]), None);
}

#[test]
fn rejects_other_ip_version() {
    let mut d = ipv4_datagram(5, 2, [10, 0, 0, 1], &IGMP_QUERY);
    d[0] = 0x65;
    assert_eq!(get_ip4_from_query(&d), None);
}

#[test]
fn rejects_short_header_length() {
    let mut d = ipv4_datagram(5, 2, [10, 0, 0, 1], &IGMP_QUERY);
    d[0] = 0x44;
    assert_eq!(get_ip4_from_query(&d), None);
}

#[test]
fn rejects_header_longer_than_data_allows() {
    // IHL 7 gives a 28-byte header, leaving only 4 bytes of a 32-byte datagram.
    let mut d = ipv4_datagram(5, 2, [10, 0, 0, 1], &IGMP_QUERY);
    d[0] = 0x47;
    assert_eq!(get_ip4_from_query(&d), None);
}

#[test]
fn rejects_other_protocol() {
    let d = ipv4_datagram(5, 17, [10, 0, 0, 1], &IGMP_QUERY);
    assert_eq!(get_ip4_from_query(&d), None);
}

#[test]
fn rejects_membership_report() {
    let mut report = IGMP_QUERY;
    report[0] = 0x22;
    let d = ipv4_datagram(5, 2, [10, 0, 0, 1], &report);
    assert_eq!(get_ip4_from_query(&d), None);
}

const MLD_QUERY_ZERO_CHECKSUM: [u8; 28] = [
    130, 0, 0, 0, 0x27, 0x10, 0, 0, 0, 0, 0, 0, 0, 0, 0, 0, 0, 0, 0, 0, 0, 0, 0, 0, 0x02, 0x7D,
    0, 0,
];

#[test]
fn mld_general_query_bytes() {
    assert_eq!(MldQueryPacket::new().serialize(), MLD_QUERY_ZERO_CHECKSUM.to_vec());
}

#[test]
fn mld_checksum_for_all_nodes() {
    let mut p = MldQueryPacket::new();
    assert_eq!(p.calculate_checksum(&[0u8; 16], &MLD_ALL_NODES), 0x5518);
    let mut expected = MLD_QUERY_ZERO_CHECKSUM;
    expected[2] = 0x55;
    expected[3] = 0x18;
    assert_eq!(p.serialize(), expected.to_vec());
}

#[test]
fn mld_checksum_recomputed_over_checksummed_packet_is_zero() {
    let mut p = MldQueryPacket::new();
    p.calculate_checksum(&[0u8; 16], &MLD_ALL_NODES);
    assert_eq!(p.calculate_checksum(&[0u8; 16], &MLD_ALL_NODES), 0);
    assert_eq!(p.serialize(), MLD_QUERY_ZERO_CHECKSUM.to_vec());
}

#[test]
fn mld_checksum_depends_on_addresses() {
    let mut p = MldQueryPacket::new();
    let mut src = [0u8; 16];
    src[0] = 0xfe;
    src[1] = 0x80;
    src[15] = 0x01;
    p.calculate_checksum(&src, &MLD_ALL_NODES);
    // 0x5518 is the complement of the sum without the source; adding
    // 0xfe80 + 0x0001 to that sum changes the result accordingly.
    let bytes = p.serialize();
    let c = u16::from_be_bytes([bytes[2], bytes[3]]);
    let base: u32 = (!0x5518u16) as u32 + 0xfe80 + 0x0001;
    let folded = (base & 0xFFFF) + (base >> 16);
    assert_eq!(c, !(folded as u16));
}

#[test]
fn mld_query_payload_is_checksummed_query() {
    let mut expected = MLD_QUERY_ZERO_CHECKSUM;
    expected[2] = 0x55;
    expected[3] = 0x18;
    assert_eq!(mld_query_payload(), expected.to_vec());
}

const FE80_1: u128 = 0xfe80_0000_0000_0000_0000_0000_0000_0001;

#[test]
fn recognises_mld_query_source() {
    assert_eq!(get_ip6_from_query(&MLD_QUERY_ZERO_CHECKSUM, FE80_1), Some(FE80_1));
    assert_eq!(get_ip6_from_query(&mld_query_payload(), 7), Some(7));
}

#[test]
fn recognises_longer_mld_query() {
    let mut d = MLD_QUERY_ZERO_CHECKSUM.to_vec();
    d.extend_from_slice(&[0u8; 16]);
    assert_eq!(get_ip6_from_query(&d, FE80_1), Some(FE80_1));
}

#[test]
fn rejects_short_mld_data() {
    assert_eq!(get_ip6_from_query(&MLD_QUERY_ZERO_CHECKSUM[..27], FE80_1), None);
    assert_eq!(get_ip6_from_query(&[], FE80_1), None);
}

#[test]
fn rejects_other_icmpv6_messages() {
    let mut report = MLD_QUERY_ZERO_CHECKSUM;
    report[0] = 143;
    assert_eq!(get_ip6_from_query(&report, FE80_1), None);
}
