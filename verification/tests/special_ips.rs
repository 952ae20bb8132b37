use atlas_rs::ip::IpAddress;
use atlas_rs::ip_parse::parse_ip_text;
use atlas_rs::network_utils::SpecialIPCheck;

fn special(text: &str) -> bool {
    parse_ip_text(text).expect("the address must parse").is_special_ip()
}

#[test]
fn private_loopback_multicast_are_special() {
    assert!(special("10.0.0.1"));
    assert!(special("10.255.255.255"));
    assert!(special("172.16.0.1"));
    assert!(special("172.31.255.255"));
    assert!(special("192.168.1.1"));
    assert!(special("127.0.0.1"));
    assert!(special("224.0.0.1"));
    assert!(special("239.255.255.255"));
    assert!(special("255.255.255.255"));
    assert!(special("0.0.0.0"));
}

#[test]
fn public_addresses_are_not_special() {
    assert!(!special("8.8.8.8"));
    assert!(!special("172.32.0.1"));
    assert!(!special("172.15.255.255"));
    assert!(!special("192.167.1.1"));
    assert!(!special("214.78.120.1"));
    assert!(!special("223.255.255.255"));
    assert!(!special("128.0.0.1"));
}

#[test]
fn special_ipv6() {
    assert!(special("::"));
    assert!(special("::1"));
    assert!(special("ff02::1"));
    assert!(!special("2001:db8::1"));
    assert!(!special("fe80::1"));
    let addr = IpAddress::v6([0, 0, 0, 0, 0, 0, 0, 2]);
    assert_eq!(addr, IpAddress::V6(2));
    assert!(!addr.is_special_ip());
}
