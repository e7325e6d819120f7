use tcping::ip::{parse_ip, parse_ipv4, parse_ipv6, IpAddress, Ipv4Address, Ipv6Address};

fn v4(o0: u8, o1: u8, o2: u8, o3: u8) -> Ipv4Address {
    Ipv4Address { o0, o1, o2, o3 }
}

fn v6(g: [u16; 8]) -> Ipv6Address {
    Ipv6Address {
        g0: g[0],
        g1: g[1],
        g2: g[2],
        g3: g[3],
        g4: g[4],
        g5: g[5],
        g6: g[6],
        g7: g[7],
    }
}

#[test]
fn ipv4_simple() {
    assert_eq!(parse_ipv4(b"1.2.3.4"), Some(v4(1, 2, 3, 4)));
    assert_eq!(parse_ipv4(b"127.0.0.1"), Some(v4(127, 0, 0, 1)));
    assert_eq!(parse_ipv4(b"0.0.0.0"), Some(v4(0, 0, 0, 0)));
    assert_eq!(parse_ipv4(b"255.255.255.255"), Some(v4(255, 255, 255, 255)));
}

#[test]
fn ipv4_rejects_out_of_range_octet() {
    assert_eq!(parse_ipv4(b"256.1.1.1"), None);
    assert_eq!(parse_ipv4(b"1.1.1.999"), None);
    assert_eq!(parse_ipv4(b"1234.1.1.1"), None);
}

#[test]
fn ipv4_rejects_leading_zeros() {
    assert_eq!(parse_ipv4(b"01.2.3.4"), None);
    assert_eq!(parse_ipv4(b"1.2.3.04"), None);
    assert_eq!(parse_ipv4(b"00.0.0.0"), None);
}

#[test]
fn ipv4_rejects_wrong_shape() {
    assert_eq!(parse_ipv4(b""), None);
    assert_eq!(parse_ipv4(b"1.2.3"), None);
    assert_eq!(parse_ipv4(b"1.2.3.4.5"), None);
    assert_eq!(parse_ipv4(b"1.2.3.4 "), None);
    assert_eq!(parse_ipv4(b" 1.2.3.4"), None);
    assert_eq!(parse_ipv4(b"1..2.3"), None);
    assert_eq!(parse_ipv4(b"1.2.3."), None);
    assert_eq!(parse_ipv4(b"a.b.c.d"), None);
}

#[test]
fn ipv6_full_form() {
    assert_eq!(
        parse_ipv6(b"1:2:3:4:5:6:7:8"),
        Some(v6([1, 2, 3, 4, 5, 6, 7, 8]))
    );
    assert_eq!(
        parse_ipv6(b"fe80:0:0:0:0:0:0:1"),
        Some(v6([0xfe80, 0, 0, 0, 0, 0, 0, 1]))
    );
    assert_eq!(
        parse_ipv6(b"FFFF:abcd:EF01:2345:6789:aBcD:ef01:2345"),
        Some(v6([0xffff, 0xabcd, 0xef01, 0x2345, 0x6789, 0xabcd, 0xef01, 0x2345]))
    );
}

#[test]
fn ipv6_compressed() {
    assert_eq!(parse_ipv6(b"::"), Some(v6([0, 0, 0, 0, 0, 0, 0, 0])));
    assert_eq!(parse_ipv6(b"::1"), Some(v6([0, 0, 0, 0, 0, 0, 0, 1])));
    assert_eq!(parse_ipv6(b"1::"), Some(v6([1, 0, 0, 0, 0, 0, 0, 0])));
    assert_eq!(
        parse_ipv6(b"fe80::1"),
        Some(v6([0xfe80, 0, 0, 0, 0, 0, 0, 1]))
    );
    assert_eq!(
        parse_ipv6(b"1:2:3:4:5:6:7::"),
        Some(v6([1, 2, 3, 4, 5, 6, 7, 0]))
    );
    assert_eq!(
        parse_ipv6(b"::2:3:4:5:6:7:8"),
        Some(v6([0, 2, 3, 4, 5, 6, 7, 8]))
    );
}

#[test]
fn ipv6_embedded_ipv4() {
    assert_eq!(
        parse_ipv6(b"::ffff:192.0.2.1"),
        Some(v6([0, 0, 0, 0, 0, 0xffff, 0xc000, 0x0201]))
    );
    assert_eq!(
        parse_ipv6(b"1:2:3:4:5:6:1.2.3.4"),
        Some(v6([1, 2, 3, 4, 5, 6, 0x0102, 0x0304]))
    );
}

#[test]
fn ipv6_rejects_malformed() {
    assert_eq!(parse_ipv6(b""), None);
    assert_eq!(parse_ipv6(b":"), None);
    assert_eq!(parse_ipv6(b":::"), None);
    assert_eq!(parse_ipv6(b"1:2:3:4:5:6:7"), None);
    assert_eq!(parse_ipv6(b"1:2:3:4:5:6:7:8:9"), None);
    assert_eq!(parse_ipv6(b"1::2::3"), None);
    assert_eq!(parse_ipv6(b"1:2:3:4:5:6:7:8::"), None);
    assert_eq!(parse_ipv6(b"12345::"), None);
    assert_eq!(parse_ipv6(b"g::1"), None);
    assert_eq!(parse_ipv6(b"1.2.3.4::1"), None);
}

#[test]
fn parse_ip_picks_family() {
    assert_eq!(parse_ip(b"10.0.0.1"), Some(IpAddress::V4(v4(10, 0, 0, 1))));
    assert_eq!(
        parse_ip(b"::1"),
        Some(IpAddress::V6(v6([0, 0, 0, 0, 0, 0, 0, 1])))
    );
    assert_eq!(parse_ip(b"localhost"), None);
    assert_eq!(parse_ip(b"example.com"), None);
}
