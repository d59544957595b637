use ddns::interface::{get_interested_addrs, Ipv4Address, Ipv6Address};

#[test]
fn loopback_and_link_local_are_dropped() {
    let v4 = vec![
        Ipv4Address::from_octets(127, 0, 0, 1),
        Ipv4Address::from_octets(192, 0, 2, 10),
        Ipv4Address::from_octets(169, 254, 3, 4),
        Ipv4Address::from_octets(203, 0, 113, 9),
    ];
    let v6 = vec![
        Ipv6Address::from_segments([0, 0, 0, 0, 0, 0, 0, 1]),
        Ipv6Address::from_segments([0x2001, 0xdb8, 0, 0, 0, 0, 0, 5]),
        Ipv6Address::from_segments([0xfe80, 0, 0, 0, 0, 0, 0, 9]),
        Ipv6Address::from_segments([0xfebf, 0, 0, 0, 0, 0, 0, 3]),
    ];
    let addrs = get_interested_addrs(v4, v6);
    assert_eq!(
        addrs.v4_addrs,
        vec![Ipv4Address::from_octets(192, 0, 2, 10), Ipv4Address::from_octets(203, 0, 113, 9)]
    );
    assert_eq!(
        addrs.v6_addrs,
        vec![Ipv6Address::from_segments([0x2001, 0xdb8, 0, 0, 0, 0, 0, 5])]
    );
}

#[test]
fn address_predicates_read_the_bits() {
    assert!(Ipv4Address::from_octets(127, 42, 0, 1).is_loopback());
    assert!(!Ipv4Address::from_octets(128, 0, 0, 1).is_loopback());
    assert!(Ipv4Address::from_octets(169, 254, 0, 7).is_link_local());
    assert!(!Ipv4Address::from_octets(169, 253, 0, 7).is_link_local());
    assert!(Ipv6Address::from_segments([0, 0, 0, 0, 0, 0, 0, 1]).is_loopback());
    assert!(!Ipv6Address::from_segments([0, 0, 0, 0, 0, 0, 0, 2]).is_loopback());
    assert!(Ipv6Address::from_segments([0xfe80, 0, 0, 0, 0, 0, 0, 1]).is_unicast_link_local());
    assert!(Ipv6Address::from_segments([0xfebf, 0, 0, 0, 0, 0, 0, 1]).is_unicast_link_local());
    assert!(!Ipv6Address::from_segments([0xfec0, 0, 0, 0, 0, 0, 0, 1]).is_unicast_link_local());
    assert!(!Ipv6Address::from_segments([0x2001, 0, 0, 0, 0, 0, 0, 1]).is_unicast_link_local());
}

#[test]
fn test_get_interested_addrs() {
    let all_v4 = vec![
        Ipv4Address::from_octets(127, 0, 0, 1),
        Ipv4Address::from_octets(198, 51, 100, 34),
    ];
    let all_v6 = vec![
        Ipv6Address::from_segments([0, 0, 0, 0, 0, 0, 0, 1]),
        Ipv6Address::from_segments([0xfe80, 0, 0, 0, 0, 0, 0, 0x34]),
        Ipv6Address::from_segments([0x2001, 0xdb8, 0, 0, 0, 0, 0, 0x34]),
    ];
    let addrs = get_interested_addrs(all_v4, all_v6);
    println!("{:?}", addrs.v4_addrs);
    println!("{:?}", addrs.v6_addrs);
}
