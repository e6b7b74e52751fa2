use wg_mesh::ip::{
    ip_string, ipv4_string, parse_ip_address, parse_ipv4, IpAddress, IpNet, Ipv4, Ipv6,
};
use wg_mesh::text::{chars_of, decimal_string, is_white_space_char, string_of, trim};

#[test]
fn decimal_string_writes_numbers() {
    assert_eq!(decimal_string(0), "0");
    assert_eq!(decimal_string(7), "7");
    assert_eq!(decimal_string(255), "255");
    assert_eq!(decimal_string(51820), "51820");
    assert_eq!(decimal_string(u64::MAX), u64::MAX.to_string());
}

#[test]
fn chars_and_strings_round_trip() {
    let cs = chars_of("mesh0 ü");
    assert_eq!(cs, vec!['m', 'e', 's', 'h', '0', ' ', 'ü']);
    assert_eq!(string_of(&cs), "mesh0 ü");
}

#[test]
fn trim_removes_unicode_whitespace() {
    assert_eq!(trim("  203.0.113.7\n"), "203.0.113.7");
    assert_eq!(trim("\u{a0}\t x y \u{3000}"), "x y");
    assert_eq!(trim(" \r\n "), "");
    assert_eq!(trim(""), "");
    assert_eq!(trim("abc"), "abc");
    for s in ["  a b ", "\u{2003}q\u{2029}", "\u{85}z\u{1680}", "\u{200b}x"] {
        assert_eq!(trim(s), s.trim());
    }
}

#[test]
fn whitespace_matches_std() {
    for n in 0u32..0x3100 {
        if let Some(c) = char::from_u32(n) {
            assert_eq!(is_white_space_char(c), c.is_whitespace(), "{n:#x}");
        }
    }
}

#[test]
fn ipv4_text_is_dotted_quad() {
    assert_eq!(ipv4_string(Ipv4(10, 100, 0, 1)), "10.100.0.1");
    assert_eq!(ipv4_string(Ipv4(0, 0, 0, 0)), "0.0.0.0");
    assert_eq!(ipv4_string(Ipv4(255, 255, 255, 255)), "255.255.255.255");
}

#[test]
fn ipv4_parses_canonical_text_only() {
    assert_eq!(parse_ipv4("10.100.0.1"), Some(Ipv4(10, 100, 0, 1)));
    assert_eq!(parse_ipv4("0.0.0.0"), Some(Ipv4(0, 0, 0, 0)));
    assert_eq!(parse_ipv4("255.255.255.255"), Some(Ipv4(255, 255, 255, 255)));
    for bad in [
        "", "1.2.3", "1.2.3.4.5", "256.1.1.1", "01.2.3.4", "1.2.3.04", "1..2.3", " 1.2.3.4",
        "1.2.3.4 ", "1.2.3.4/32", "a.b.c.d", "1.2.3.-4", "1000.1.1.1", "+1.2.3.4", "1.2.3.",
    ] {
        assert_eq!(parse_ipv4(bad), None, "{bad}");
    }
}

#[test]
fn ipv4_refuses_leading_zeros_and_large_octets() {
    assert_eq!(parse_ipv4("00.0.0.0"), None);
    assert_eq!(parse_ipv4("192.168.001.1"), None);
    assert_eq!(parse_ipv4("999.1.1.1"), None);
    assert_eq!(parse_ipv4("1.2.3.256"), None);
    assert_eq!(parse_ipv4("12.34.56.78"), Some(Ipv4(12, 34, 56, 78)));
    assert_eq!(parse_ipv4("1.2.3.255"), Some(Ipv4(1, 2, 3, 255)));
}

#[test]
fn law_ipv4_round_trip_on_values() {
    for x in [Ipv4(10, 100, 0, 254), Ipv4(1, 0, 10, 100), Ipv4(0, 9, 99, 200)] {
        assert_eq!(parse_ipv4(&ipv4_string(x)), Some(x));
    }
}

#[test]
fn ip_addresses_of_both_families() {
    assert_eq!(parse_ip_address("192.0.2.1"), Some(IpAddress::V4(Ipv4(192, 0, 2, 1))));
    assert_eq!(parse_ip_address("::1"), Some(IpAddress::V6(Ipv6(1))));
    assert_eq!(parse_ip_address("2001:db8::1"), Some(IpAddress::V6(Ipv6(0x2001_0db8_0000_0000_0000_0000_0000_0001))));
    assert_eq!(parse_ip_address("example.com"), None);
    assert_eq!(ip_string(IpAddress::V6(Ipv6(0x2001_0db8_0000_0000_0000_0000_0000_0001))), "2001:db8::1");
    assert_eq!(ip_string(IpAddress::V4(Ipv4(8, 8, 4, 4))), "8.8.4.4");
}

#[test]
fn networks_check_their_prefix() {
    let v4 = IpAddress::V4(Ipv4(10, 0, 0, 0));
    let v6 = IpAddress::V6(Ipv6(0));
    assert_eq!(IpNet::new(v4, 24), Some(IpNet { addr: v4, prefix: 24 }));
    assert_eq!(IpNet::new(v4, 32).map(|n| n.prefix), Some(32));
    assert_eq!(IpNet::new(v4, 33), None);
    assert_eq!(IpNet::new(v6, 128).map(|n| n.prefix), Some(128));
    assert_eq!(IpNet::new(v6, 129), None);
    let h = IpNet::host_v4(Ipv4(10, 100, 0, 7));
    assert_eq!(h.prefix, 32);
    assert_eq!(h.addr, IpAddress::V4(Ipv4(10, 100, 0, 7)));
}
