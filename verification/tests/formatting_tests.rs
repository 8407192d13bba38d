use rnp::endpoint::{Endpoint, IpAddress, IpV4Addr, IpV6Addr};
use rnp::strfmt::{dec_pad, dec_u128, ms_two_decimals, pad_left};
use rnp::timestamp::Timestamp;

#[test]
fn decimal_rendering_is_exact() {
    assert_eq!("0", dec_u128(0));
    assert_eq!("7", dec_u128(7));
    assert_eq!("443", dec_u128(443));
    assert_eq!("4294967295", dec_u128(u32::MAX as u128));
}

#[test]
fn zero_padding_is_exact() {
    assert_eq!("07", dec_pad(7, 2));
    assert_eq!("012", dec_pad(12, 3));
    assert_eq!("2021", dec_pad(2021, 4));
    assert_eq!("000", dec_pad(0, 3));
}

#[test]
fn milliseconds_render_with_two_decimals() {
    assert_eq!("10.00", ms_two_decimals(10_000));
    assert_eq!("1000.00", ms_two_decimals(1_000_000));
    assert_eq!("0.00", ms_two_decimals(0));
    assert_eq!("1.23", ms_two_decimals(1_234));
    // Rounded to the nearest hundredth, ties upward.
    assert_eq!("1.00", ms_two_decimals(999));
    assert_eq!("0.99", ms_two_decimals(994));
}

#[test]
fn pad_left_right_aligns() {
    assert_eq!("          Total", pad_left("Total", 15));
    assert_eq!("Latency", pad_left("Latency", 5));
    assert_eq!("", pad_left("", 0));
}

#[test]
fn timestamp_renders_iso8601() {
    let t = Timestamp::new(2021, 7, 6, 9, 10, 11, 12);
    assert_eq!("2021-07-06T09:10:11.012Z", t.to_iso8601_string());
    let t = Timestamp::new(999, 12, 31, 23, 59, 59, 999);
    assert_eq!("0999-12-31T23:59:59.999Z", t.to_iso8601_string());
}

#[test]
fn endpoint_renders_ip_and_port() {
    let e = Endpoint::new(IpAddress::V4(IpV4Addr::new(1, 2, 3, 4)), 443);
    assert_eq!("1.2.3.4", e.ip.to_display_string());
    assert_eq!("1.2.3.4:443", e.to_display_string());
    let e = Endpoint::new(IpAddress::V4(IpV4Addr::new(255, 255, 255, 255)), 65535);
    assert_eq!("255.255.255.255:65535", e.to_display_string());
}

#[test]
fn ipv6_renders_canonical_form() {
    let ip = IpV6Addr::new([0x2001, 0xdb8, 0, 0, 0, 0, 0, 1]);
    assert_eq!("2001:db8::1", ip.to_display_string());

    // Hex groups are lowercase and unpadded.
    let ip = IpV6Addr::new([0xfe80, 0, 0, 0, 0x02ab, 0xcdef, 0x1234, 0x5678]);
    assert_eq!("fe80::2ab:cdef:1234:5678", ip.to_display_string());

    // No run of two zero groups: nothing is compressed.
    let ip = IpV6Addr::new([1, 2, 3, 4, 5, 6, 7, 8]);
    assert_eq!("1:2:3:4:5:6:7:8", ip.to_display_string());

    // A single zero group is not compressed; the two-group run is.
    let ip = IpV6Addr::new([0x2001, 0xdb8, 0, 1, 1, 0, 0, 1]);
    assert_eq!("2001:db8:0:1:1::1", ip.to_display_string());

    // Two equal runs: the leftmost is compressed.
    let ip = IpV6Addr::new([0x2001, 0, 0, 1, 0, 0, 1, 1]);
    assert_eq!("2001::1:0:0:1:1", ip.to_display_string());
}

#[test]
fn ipv6_renders_edge_addresses() {
    assert_eq!("::", IpV6Addr::new([0; 8]).to_display_string());
    assert_eq!("::1", IpV6Addr::new([0, 0, 0, 0, 0, 0, 0, 1]).to_display_string());
    // A trailing run compresses to a trailing `::`.
    assert_eq!("1::", IpV6Addr::new([1, 0, 0, 0, 0, 0, 0, 0]).to_display_string());
    // An IPv4-mapped address shows its dotted tail.
    let mapped = IpV6Addr::new([0, 0, 0, 0, 0, 0xffff, 0x0102, 0x0304]);
    assert_eq!("::ffff:1.2.3.4", mapped.to_display_string());
}

#[test]
fn ipv6_endpoint_is_bracketed() {
    let e = Endpoint::new(
        IpAddress::V6(IpV6Addr::new([0x2001, 0xdb8, 0, 0, 0, 0, 0, 1])),
        443,
    );
    assert_eq!("[2001:db8::1]:443", e.to_display_string());
    assert_eq!("2001:db8::1", e.ip.to_display_string());
}
