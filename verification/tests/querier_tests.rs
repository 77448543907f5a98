use multicast_querier::config::{OTHER_QUERIER_PRESENT_INTERVAL_MS, QUERY_INTERVAL_MS};
use multicast_querier::interface::{create_interface_config, InterfaceAddress, SocketAddress};
use multicast_querier::querier::v4::QuerierV4State;
use multicast_querier::querier::v6::{mld_query_payload, QuerierV6State};
use multicast_querier::querier::{new_ipv4_querier, new_ipv6_querier, IpAddress, QuerierState};

const OQPI: u64 = OTHER_QUERIER_PRESENT_INTERVAL_MS;

fn igmp_query_from(src: [u8; 4]) -> Vec<u8> {
    let mut d = vec![0u8; 20];
    d[0] = 0x45;
    d[9] = 2;
    d[12..16].copy_from_slice(&src);
    d.extend_from_slice(&[0x11, 0x64, 0xEC, 0x1E, 0, 0, 0, 0, 0x02, 0x7D, 0, 0]);
    d
}

#[test]
fn intervals_are_125_and_255_seconds() {
    assert_eq!(QUERY_INTERVAL_MS, 125_000);
    assert_eq!(OQPI, 255_000);
}

#[test]
fn querier_starts_as_querier_and_sends_at_once() {
    let s = QuerierState::new(IpAddress::V4(0x0A00_0005));
    assert!(s.am_i_querier(0));
    assert!(s.should_send_query(0));
}

#[test]
fn querier_backs_off_for_lower_address() {
    let mut s = new_ipv4_querier(0x0A00_0005);
    assert!(s.handle_received_query(IpAddress::V4(0x0A00_0001), 1_000));
    assert!(!s.am_i_querier(1_000));
    assert!(!s.should_send_query(1_000 + OQPI - 1));
}

#[test]
fn querier_keeps_role_for_higher_or_equal_address() {
    let mut s = new_ipv4_querier(0x0A00_0005);
    assert!(!s.handle_received_query(IpAddress::V4(0x0A00_0009), 0));
    assert!(!s.handle_received_query(IpAddress::V4(0x0A00_0005), 0));
    assert!(s.am_i_querier(0));
}

#[test]
fn ipv4_addresses_order_before_ipv6() {
    let mut s = new_ipv6_querier(1);
    assert!(s.handle_received_query(IpAddress::V4(u32::MAX), 0));
    let mut t = new_ipv4_querier(0);
    assert!(!t.handle_received_query(IpAddress::V6(0), 0));
    assert!(t.am_i_querier(0));
}

#[test]
fn querier_takes_over_after_other_querier_interval() {
    let mut s = new_ipv6_querier(5);
    s.mark_query_sent(0);
    assert!(s.handle_received_query(IpAddress::V6(4), 10_000));
    assert!(!s.handle_received_query(IpAddress::V6(9), 20_000));
    assert!(!s.am_i_querier(10_000 + OQPI - 1));
    assert!(s.am_i_querier(10_000 + OQPI));
    assert!(s.should_send_query(10_000 + OQPI));
}

#[test]
fn later_lower_query_restarts_the_timer() {
    let mut s = new_ipv4_querier(5);
    assert!(s.handle_received_query(IpAddress::V4(4), 0));
    assert!(s.handle_received_query(IpAddress::V4(3), 100_000));
    assert!(!s.am_i_querier(OQPI));
    assert!(s.am_i_querier(100_000 + OQPI));
}

#[test]
fn querier_spaces_queries_by_interval() {
    let mut s = new_ipv4_querier(1);
    s.mark_query_sent(10_000);
    assert!(!s.should_send_query(10_000));
    assert!(!s.should_send_query(10_000 + QUERY_INTERVAL_MS - 1));
    assert!(s.should_send_query(10_000 + QUERY_INTERVAL_MS));
    // A reading before the last send counts as no time elapsed.
    assert!(!s.should_send_query(5_000));
}

#[test]
fn v4_querier_sends_at_once() {
    let s = QuerierV4State::new(0x0A00_0005);
    assert!(s.should_send_query(0));
}

#[test]
fn v4_querier_sends_after_interval() {
    let mut s = QuerierV4State::new(0x0A00_0005);
    s.mark_query_sent(0);
    assert!(!s.should_send_query(QUERY_INTERVAL_MS - 1));
    assert!(s.should_send_query(QUERY_INTERVAL_MS));
}

#[test]
fn v4_querier_backs_off_for_lower_source_then_takes_over() {
    let mut s = QuerierV4State::new(0x0A00_0005);
    s.mark_query_sent(0);
    assert!(!s.handle_received_query(&igmp_query_from([10, 0, 0, 9]), 1_000));
    assert!(s.should_send_query(QUERY_INTERVAL_MS));
    assert!(s.handle_received_query(&igmp_query_from([10, 0, 0, 1]), QUERY_INTERVAL_MS));
    assert!(!s.should_send_query(QUERY_INTERVAL_MS));
    assert!(!s.should_send_query(QUERY_INTERVAL_MS + OQPI - 1));
    assert!(s.should_send_query(QUERY_INTERVAL_MS + OQPI));
}

#[test]
fn v4_querier_ignores_non_queries() {
    let mut s = QuerierV4State::new(0x0A00_0005);
    s.mark_query_sent(0);
    let mut d = igmp_query_from([10, 0, 0, 1]);
    d[20] = 0x22;
    assert!(!s.handle_received_query(&d, 1));
    assert!(!s.handle_received_query(&[], 2));
    assert!(s.should_send_query(QUERY_INTERVAL_MS));
}

const FE80_9: u128 = 0xfe80_0000_0000_0000_0000_0000_0000_0009;

#[test]
fn v6_querier_sends_at_once_then_after_interval() {
    let mut s = QuerierV6State::new(FE80_9);
    assert!(s.should_send_query(7));
    s.mark_query_sent(7);
    assert!(!s.should_send_query(7 + QUERY_INTERVAL_MS - 1));
    assert!(s.should_send_query(7 + QUERY_INTERVAL_MS));
}

#[test]
fn v6_querier_backs_off_for_lower_mld_query_then_takes_over() {
    let mut s = QuerierV6State::new(FE80_9);
    let query = mld_query_payload();
    assert!(!s.handle_received_query(&query, FE80_9 + 1, 0));
    assert!(s.should_send_query(0));
    assert!(s.handle_received_query(&query, FE80_9 - 8, 50));
    assert!(!s.should_send_query(50));
    assert!(!s.should_send_query(50 + OQPI - 1));
    assert!(s.should_send_query(50 + OQPI));
}

#[test]
fn v6_querier_ignores_other_messages() {
    let mut s = QuerierV6State::new(FE80_9);
    let mut report = mld_query_payload();
    report[0] = 143;
    assert!(!s.handle_received_query(&report, 1, 0));
    assert!(!s.handle_received_query(&[130u8; 10], 1, 0));
    assert!(s.should_send_query(0));
}

fn entry(name: &str, address: Option<SocketAddress>) -> InterfaceAddress {
    InterfaceAddress { interface_name: name.to_string(), address }
}

#[test]
fn interface_config_collects_addresses_of_named_interface() {
    let entries = vec![
        entry("lo", Some(SocketAddress::V4(0x7F00_0001))),
        entry("eth0", None),
        entry("eth0", Some(SocketAddress::Other)),
        entry("eth0", Some(SocketAddress::V4(0xC0A8_0002))),
        entry("eth0", Some(SocketAddress::V6(0xfe80 << 112 | 1))),
        entry("eth1", Some(SocketAddress::V6(0xfe80 << 112 | 5))),
        entry("eth0", Some(SocketAddress::V4(0xC0A8_0003))),
    ];
    let c = create_interface_config("eth0".to_string(), &entries);
    assert_eq!(c.name, "eth0");
    assert_eq!(c.ipv4_addresses, vec![0xC0A8_0002, 0xC0A8_0003]);
    assert_eq!(c.ipv6_addresses, vec![0xfe80 << 112 | 1]);
    assert!(c.enable_igmp);
    assert!(c.enable_mld);
}

#[test]
fn interface_config_keeps_only_link_local_ipv6() {
    let entries = vec![
        entry("eth0", Some(SocketAddress::V6(0x2001_0db8 << 96 | 1))),
        entry("eth0", Some(SocketAddress::V6(0xfec0 << 112))),
        entry("eth0", Some(SocketAddress::V6(1))),
        entry("eth0", Some(SocketAddress::V6(0xfebf_ffff << 96))),
        entry("eth0", Some(SocketAddress::V6(0xfe80 << 112))),
    ];
    let c = create_interface_config("eth0".to_string(), &entries);
    assert_eq!(c.ipv6_addresses, vec![0xfebf_ffff << 96, 0xfe80 << 112]);
    assert!(c.enable_mld);
}

#[test]
fn interface_config_global_ipv6_alone_does_not_enable_mld() {
    let entries = vec![entry("eth0", Some(SocketAddress::V6(0x2001_0db8 << 96 | 1)))];
    let c = create_interface_config("eth0".to_string(), &entries);
    assert!(c.ipv6_addresses.is_empty());
    assert!(!c.enable_mld);
}

#[test]
fn interface_config_without_addresses_enables_nothing() {
    let entries = vec![entry("eth0", Some(SocketAddress::V4(1)))];
    let c = create_interface_config("wlan0".to_string(), &entries);
    assert!(c.ipv4_addresses.is_empty());
    assert!(c.ipv6_addresses.is_empty());
    assert!(!c.enable_igmp);
    assert!(!c.enable_mld);
}
