use k8s_insider::net::{check_ip_addr_text, IpAddrPair, IpNetValue, IpNetwork, SocketAddress};

#[test]
fn address_pairs() {
    assert_eq!(IpAddrPair::from_str("10.0.0.1").unwrap().to_string(), "10.0.0.1");
    assert_eq!(IpAddrPair::from_str("fd00::1").unwrap().to_string(), "fd00::1");
    assert_eq!(IpAddrPair::from_str("10.0.0.1,fd00::1").unwrap().to_string(), "10.0.0.1,fd00::1");
    assert!(IpAddrPair::from_str("fd00::1,10.0.0.1").is_err());
    assert!(IpAddrPair::from_str("10.0.0.256").is_err());
    assert!(IpAddrPair::from_str("").is_err());
    assert!(IpAddrPair::from_str("10.0.0.1/24").is_err());
}

#[test]
fn single_addresses() {
    assert!(check_ip_addr_text("192.168.1.1"));
    assert!(check_ip_addr_text("::1"));
    assert!(!check_ip_addr_text("10.0.0.1,fd00::1"));
    assert!(!check_ip_addr_text("host"));
}

#[test]
fn ipv4_octets_follow_the_standard_grammar() {
    assert!(check_ip_addr_text("0.0.0.0"));
    assert!(check_ip_addr_text("255.255.255.255"));
    assert!(!check_ip_addr_text("010.0.0.1"));
    assert!(!check_ip_addr_text("10.00.0.1"));
    assert!(!check_ip_addr_text("1.2.3"));
    assert!(!check_ip_addr_text("1.2.3.4.5"));
    assert!(!check_ip_addr_text("1..3.4"));
    assert!(!check_ip_addr_text("1.2.3.4."));
    assert!(!check_ip_addr_text("+1.2.3.4"));
    assert!(check_ip_addr_text("::ffff:10.0.0.1"));
    assert!(!check_ip_addr_text("::ffff:010.0.0.1"));
    assert!(IpAddrPair::from_str("010.0.0.1").is_err());
}

#[test]
fn socket_addresses() {
    assert_eq!(SocketAddress::from_str("1.2.3.4:51820").unwrap().to_string(), "1.2.3.4:51820");
    assert!(SocketAddress::from_str("[fd00::1]:443").is_ok());
    assert!(SocketAddress::from_str("1.2.3.4:65536").is_err());
    assert!(SocketAddress::from_str("1.2.3.4").is_err());
    assert!(SocketAddress::from_str("fd00::1:443").is_err());
    assert!(SocketAddress::from_str("1.2.3.4:").is_err());
    assert!(SocketAddress::from_str("[fe80::1%2]:443").is_ok());
    assert!(SocketAddress::from_str("[fe80::1%4294967295]:443").is_ok());
    assert!(SocketAddress::from_str("[fe80::1%4294967296]:443").is_err());
    assert!(SocketAddress::from_str("[fe80::1%]:443").is_err());
    assert!(SocketAddress::from_str("[fe80::1%x]:443").is_err());
    assert!(SocketAddress::from_str("01.2.3.4:80").is_err());
    assert!(SocketAddress::from_str("1.2.3.4:0080").is_ok());
}

#[test]
fn networks_are_read_by_ipnet() {
    let n = IpNetwork::from_str("10.11.11.0/24").unwrap();
    assert_eq!(n.to_string(), "10.11.11.0/24");
    assert_eq!(n.value(), IpNetValue::V4 { addr: 0x0a0b0b00, prefix_len: 24 });
    let v6 = IpNetwork::from_str("fd00::/64").unwrap();
    assert!(matches!(v6.value(), IpNetValue::V6 { prefix_len: 64, .. }));
    assert!(IpNetwork::from_str("10.0.0.0/33").is_err());
    assert!(IpNetwork::from_str("10.0.0.0").is_err());
    assert!(IpNetwork::from_str("10.0.0.0/8,10.1.0.0/16").is_err());
}
