use udpcluster::addr::{parse_socket_addr, HostIp};

#[test]
fn parses_ipv4_with_port() {
    let sa = parse_socket_addr("127.0.0.1:8080").expect("valid address");
    assert_eq!(sa.ip, HostIp::V4(127, 0, 0, 1));
    assert_eq!(sa.port, 8080);
}

#[test]
fn parses_wildcard_ipv4() {
    let sa = parse_socket_addr("0.0.0.0:9").expect("valid address");
    assert_eq!(sa.ip, HostIp::V4(0, 0, 0, 0));
    assert_eq!(sa.port, 9);
}

#[test]
fn parses_limit_octets_and_port() {
    let sa = parse_socket_addr("255.255.255.255:65535").expect("valid address");
    assert_eq!(sa.ip, HostIp::V4(255, 255, 255, 255));
    assert_eq!(sa.port, 65535);
}

#[test]
fn rejects_octet_out_of_range() {
    assert!(parse_socket_addr("256.0.0.1:80").is_none());
    assert!(parse_socket_addr("1.2.3.999:80").is_none());
}

#[test]
fn rejects_missing_or_empty_port() {
    assert!(parse_socket_addr("1.2.3.4").is_none());
    assert!(parse_socket_addr("1.2.3.4:").is_none());
}

#[test]
fn rejects_port_out_of_range() {
    assert!(parse_socket_addr("1.2.3.4:65536").is_none());
    assert!(parse_socket_addr("1.2.3.4:999999").is_none());
}

#[test]
fn rejects_non_numeric_port() {
    assert!(parse_socket_addr("1.2.3.4:12a").is_none());
    assert!(parse_socket_addr("1.2.3.4:p").is_none());
}

#[test]
fn rejects_wrong_field_count() {
    assert!(parse_socket_addr("1.2.3:80").is_none());
    assert!(parse_socket_addr("1.2.3.4.5:80").is_none());
}

#[test]
fn rejects_hostname_and_empty() {
    assert!(parse_socket_addr("localhost:80").is_none());
    assert!(parse_socket_addr("").is_none());
    assert!(parse_socket_addr(":80").is_none());
}

#[test]
fn parses_ipv6_loopback() {
    let sa = parse_socket_addr("[::1]:443").expect("valid address");
    let mut want = vec![0u8; 16];
    want[15] = 1;
    assert_eq!(sa.ip, HostIp::V6(want, 0));
    assert_eq!(sa.port, 443);
}

#[test]
fn parses_ipv6_unspecified() {
    let sa = parse_socket_addr("[::]:0").expect("valid address");
    assert_eq!(sa.ip, HostIp::V6(vec![0u8; 16], 0));
    assert_eq!(sa.port, 0);
}

#[test]
fn parses_ipv6_full_form() {
    let sa = parse_socket_addr("[1:2:3:4:5:6:7:8]:1").expect("valid address");
    let want = vec![0u8, 1, 0, 2, 0, 3, 0, 4, 0, 5, 0, 6, 0, 7, 0, 8];
    assert_eq!(sa.ip, HostIp::V6(want, 0));
    assert_eq!(sa.port, 1);
}

#[test]
fn parses_ipv6_compressed_middle() {
    let sa = parse_socket_addr("[2001:db8::ff00:42:8329]:9").expect("valid address");
    let want = vec![
        0x20, 0x01, 0x0d, 0xb8, 0, 0, 0, 0, 0, 0, 0xff, 0x00, 0x00, 0x42, 0x83, 0x29,
    ];
    assert_eq!(sa.ip, HostIp::V6(want, 0));
    assert_eq!(sa.port, 9);
}

#[test]
fn parses_ipv6_trailing_compression() {
    let sa = parse_socket_addr("[fe80::]:5353").expect("valid address");
    let mut want = vec![0u8; 16];
    want[0] = 0xfe;
    want[1] = 0x80;
    assert_eq!(sa.ip, HostIp::V6(want, 0));
    assert_eq!(sa.port, 5353);
}

#[test]
fn rejects_leading_zero_octets() {
    assert!(parse_socket_addr("01.2.3.4:80").is_none());
    assert!(parse_socket_addr("1.02.3.4:80").is_none());
    assert!(parse_socket_addr("0.0.00.0:1").is_none());
    assert!(parse_socket_addr("0.0.0.0:1").is_some());
    assert!(parse_socket_addr("10.20.30.40:1").is_some());
}

#[test]
fn parses_ipv6_scope_id() {
    let sa = parse_socket_addr("[fe80::1%1]:80").expect("valid address");
    let mut want = vec![0u8; 16];
    want[0] = 0xfe;
    want[1] = 0x80;
    want[15] = 1;
    assert_eq!(sa.ip, HostIp::V6(want, 1));
    assert_eq!(sa.port, 80);
    let sa2 = parse_socket_addr("[fe80::1%4294967295]:2").expect("valid address");
    assert!(matches!(sa2.ip, HostIp::V6(_, 4294967295)));
}

#[test]
fn rejects_bad_scope_id() {
    assert!(parse_socket_addr("[fe80::1%]:80").is_none());
    assert!(parse_socket_addr("[fe80::1%eth0]:80").is_none());
    assert!(parse_socket_addr("[fe80::1%4294967296]:80").is_none());
    assert!(parse_socket_addr("[fe80::1%1%2]:80").is_none());
}

#[test]
fn parses_ipv4_mapped_tail() {
    let sa = parse_socket_addr("[::ffff:127.0.0.1]:80").expect("valid address");
    let want = vec![0u8, 0, 0, 0, 0, 0, 0, 0, 0, 0, 0xff, 0xff, 127, 0, 0, 1];
    assert_eq!(sa.ip, HostIp::V6(want, 0));
    assert_eq!(sa.port, 80);
    let sa2 = parse_socket_addr("[::1.2.3.4]:5").expect("valid address");
    let want2 = vec![0u8, 0, 0, 0, 0, 0, 0, 0, 0, 0, 0, 0, 1, 2, 3, 4];
    assert_eq!(sa2.ip, HostIp::V6(want2, 0));
    let sa3 = parse_socket_addr("[1:2:3:4:5:6:1.2.3.4]:9").expect("valid address");
    let want3 = vec![0u8, 1, 0, 2, 0, 3, 0, 4, 0, 5, 0, 6, 1, 2, 3, 4];
    assert_eq!(sa3.ip, HostIp::V6(want3, 0));
}

#[test]
fn rejects_bad_ipv4_mapped_tail() {
    assert!(parse_socket_addr("[::ffff:127.0.0.256]:80").is_none());
    assert!(parse_socket_addr("[::ffff:1.2.3]:80").is_none());
    assert!(parse_socket_addr("[::ffff:1.2.3.4.5]:80").is_none());
    assert!(parse_socket_addr("[::ffff:01.2.3.4]:80").is_none());
    assert!(parse_socket_addr("[1:2:3:4:5:6:7:1.2.3.4]:80").is_none());
    assert!(parse_socket_addr("[1.2.3.4]:80").is_none());
    assert!(parse_socket_addr("[::1.2.3.4:5]:80").is_none());
}

#[test]
fn rejects_ipv6_double_compression() {
    assert!(parse_socket_addr("[1::2::3]:1").is_none());
    assert!(parse_socket_addr("[:::1]:1").is_none());
}

#[test]
fn rejects_ipv6_too_many_groups() {
    assert!(parse_socket_addr("[1:2:3:4:5:6:7:8:9]:1").is_none());
    assert!(parse_socket_addr("[1:2:3:4:5:6:7:8::]:1").is_none());
}

#[test]
fn rejects_ipv6_group_too_long() {
    assert!(parse_socket_addr("[12345::]:1").is_none());
}

#[test]
fn rejects_ipv6_incomplete() {
    assert!(parse_socket_addr("[1:2:3]:1").is_none());
    assert!(parse_socket_addr("[::1:443").is_none());
    assert!(parse_socket_addr("[::1]443").is_none());
    assert!(parse_socket_addr("[::1]:").is_none());
}
