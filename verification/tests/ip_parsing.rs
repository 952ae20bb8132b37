use atlas_rs::ip::IpAddress;
use atlas_rs::ip_parse::parse_ip_text;

fn v4(a: u8, b: u8, c: u8, d: u8) -> Option<IpAddress> {
    Some(IpAddress::v4(a, b, c, d))
}

#[test]
fn parses_dotted_quads() {
    assert_eq!(parse_ip_text("214.78.120.1"), v4(214, 78, 120, 1));
    assert_eq!(parse_ip_text("0.0.0.0"), v4(0, 0, 0, 0));
    assert_eq!(parse_ip_text("255.255.255.255"), v4(255, 255, 255, 255));
    assert_eq!(parse_ip_text("1.1.1.1"), v4(1, 1, 1, 1));
}

#[test]
fn rejects_malformed_ipv4() {
    assert_eq!(parse_ip_text("192.168.1."), None);
    assert_eq!(parse_ip_text(".1.2.3"), None);
    assert_eq!(parse_ip_text("1.2.3"), None);
    assert_eq!(parse_ip_text("1.2.3.4.5"), None);
    assert_eq!(parse_ip_text("256.1.1.1"), None);
    assert_eq!(parse_ip_text("01.1.1.1"), None);
    assert_eq!(parse_ip_text("1.1.1.1 "), None);
    assert_eq!(parse_ip_text(""), None);
    assert_eq!(parse_ip_text("a.b.c.d"), None);
}

#[test]
fn parses_ipv6() {
    assert_eq!(parse_ip_text("::"), Some(IpAddress::V6(0)));
    assert_eq!(parse_ip_text("::1"), Some(IpAddress::V6(1)));
    assert_eq!(
        parse_ip_text("1:2:3:4:5:6:7:8"),
        Some(IpAddress::v6([1, 2, 3, 4, 5, 6, 7, 8]))
    );
    assert_eq!(
        parse_ip_text("2001:db8::8a2e:370:7334"),
        Some(IpAddress::v6([0x2001, 0xdb8, 0, 0, 0, 0x8a2e, 0x370, 0x7334]))
    );
    assert_eq!(
        parse_ip_text("1:2:3:4:5:6:7::"),
        Some(IpAddress::v6([1, 2, 3, 4, 5, 6, 7, 0]))
    );
    assert_eq!(
        parse_ip_text("::ffff:1.2.3.4"),
        Some(IpAddress::v6([0, 0, 0, 0, 0, 0xffff, 0x0102, 0x0304]))
    );
    assert_eq!(
        parse_ip_text("64:ff9b::192.0.2.33"),
        Some(IpAddress::v6([0x64, 0xff9b, 0, 0, 0, 0, 0xc000, 0x0221]))
    );
    assert_eq!(
        parse_ip_text("1:2:3:4:5:6:1.2.3.4"),
        Some(IpAddress::v6([1, 2, 3, 4, 5, 6, 0x0102, 0x0304]))
    );
    assert_eq!(parse_ip_text("0:0:0:0:0:0:0:1"), Some(IpAddress::V6(1)));
}

#[test]
fn rejects_malformed_ipv6() {
    assert_eq!(parse_ip_text(":"), None);
    assert_eq!(parse_ip_text(":::"), None);
    assert_eq!(parse_ip_text("1::2::3"), None);
    assert_eq!(parse_ip_text("1:2:3:4:5:6:7:8:9"), None);
    assert_eq!(parse_ip_text("1::2:3:4:5:6:7:8"), None);
    assert_eq!(parse_ip_text("12345::"), None);
    assert_eq!(parse_ip_text("1.2.3.4::"), None);
    assert_eq!(parse_ip_text("::1.2.3.4:5"), None);
    assert_eq!(parse_ip_text("g::1"), None);
}
