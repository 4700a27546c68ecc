use netpulse::engines::dns::extract_host as dns_extract_host;
use netpulse::engines::ping::extract_host as ping_extract_host;
use netpulse::netaddr::{ip_matches, IpAddress};
use netpulse::urlcheck::{lookup_target, resolved_verdict, validate_ping_target, validate_url};

#[test]
fn test_public_urls() {
    assert!(validate_url("https://www.baidu.com").is_ok());
    assert!(validate_url("http://github.com").is_ok());
    assert!(validate_url("https://1.1.1.1").is_ok());
    assert!(validate_url("https://8.8.8.8").is_ok());
}

#[test]
fn test_private_urls() {
    assert!(validate_url("http://127.0.0.1").is_err());
    assert!(validate_url("http://192.168.1.1").is_err());
    assert!(validate_url("http://10.0.0.1").is_err());
    assert!(validate_url("http://172.16.0.1").is_err());
    assert!(validate_url("http://169.254.169.254").is_err());
    assert!(validate_url("http://[::1]").is_err());
}

#[test]
fn test_invalid_scheme() {
    assert!(validate_url("file:///etc/passwd").is_err());
    assert!(validate_url("javascript:alert(1)").is_err());
    assert!(validate_url("ftp://example.com").is_err());
}

#[test]
fn test_cgnat() {
    assert!(validate_url("http://100.64.0.1").is_err());
    assert!(validate_url("http://100.127.255.255").is_err());
}

#[test]
fn test_ping_targets() {
    assert!(validate_ping_target("1.1.1.1:443").is_ok());
    assert!(validate_ping_target("example.com").is_ok());
    assert!(validate_ping_target("[2001:db8::1]").is_ok());
    assert!(validate_ping_target("bad target").is_err());
}

#[test]
fn test_ipv6_url_parsing() {
    assert!(validate_url("https://[2001:4860:4860::8888]/").is_ok());
    assert!(validate_url("https://[fe80::1]/").is_err());
}

#[test]
fn test_extract_host() {
    assert_eq!(dns_extract_host("https://www.example.com/path"), "www.example.com");
    assert_eq!(dns_extract_host("http://example.com:8080"), "example.com");
    assert_eq!(dns_extract_host("example.com"), "example.com");
}

#[test]
fn mod_test_extract_host() {
    assert_eq!(ping_extract_host("https://www.example.com/path"), "www.example.com");
    assert_eq!(ping_extract_host("http://example.com:8080"), "example.com");
    assert_eq!(ping_extract_host("8.8.8.8"), "8.8.8.8");
    assert_eq!(ping_extract_host("8.8.8.8:53"), "8.8.8.8");
}

fn v4(a: u32, b: u32, c: u32, d: u32) -> IpAddress {
    IpAddress::V4((a << 24) | (b << 16) | (c << 8) | d)
}

#[test]
fn matches_explicit_proxy_networks_only() {
    assert!(ip_matches("127.0.0.1", v4(127, 0, 0, 1)));
    assert!(ip_matches("10.0.0.0/8", v4(10, 2, 3, 4)));
    assert!(!ip_matches("10.0.0.0/8", v4(192, 168, 1, 1)));
    assert!(!ip_matches("bad", v4(127, 0, 0, 1)));
}

#[test]
fn url_error_messages() {
    assert_eq!(validate_url(""), Err("URL 不能为空".to_string()));
    assert_eq!(validate_url("ftp://example.com"), Err("不支持的协议: ftp（仅支持 http/https）".to_string()));
    assert_eq!(validate_url("not a url"), Err("无效的 URL: not a url".to_string()));
    assert_eq!(validate_url("http://10.1.2.3/x"), Err("不允许访问内网地址: 10.1.2.3".to_string()));
    let long = format!("https://example.com/{}", "a".repeat(2100));
    assert_eq!(validate_url(&long), Err("URL 过长".to_string()));
}

#[test]
fn reserved_ranges_refused() {
    for u in [
        "http://0.1.2.3",
        "http://255.255.255.255",
        "http://192.0.2.7",
        "http://198.51.100.1",
        "http://203.0.113.9",
        "http://198.18.0.1",
        "http://198.19.255.1",
        "http://[::]",
        "http://[fc00::1]",
        "http://[fd12::1]",
        "http://[ff02::1]",
        "http://[febf::1]",
    ] {
        assert!(validate_url(u).is_err(), "{}", u);
    }
    for u in ["http://100.128.0.1", "http://172.32.0.1", "http://198.20.0.1", "http://[2606:4700::1111]", "http://[::ffff:127.0.0.1]"] {
        assert!(validate_url(u).is_ok(), "{}", u);
    }
}

#[test]
fn ping_target_forms() {
    assert!(validate_ping_target("  example.com  ").is_ok());
    assert!(validate_ping_target("https://example.com/path").is_ok());
    assert!(validate_ping_target("").is_err());
    assert!(validate_ping_target("[not-an-ip]").is_err());
    assert!(validate_ping_target("exa$mple.com").is_err());
    assert_eq!(validate_ping_target("a\tb"), Err("无效的 Ping 目标".to_string()));
    assert_eq!(validate_ping_target("a$b"), Err("无效的 Ping 主机名".to_string()));
    let long = "a".repeat(254);
    assert!(validate_ping_target(&long).is_err());
}

#[test]
fn proxy_entries_ipv6_and_edges() {
    let ip6 = IpAddress::V6(0x2001_0db8_0000_0000_0000_0000_0000_0001);
    assert!(ip_matches("2001:db8::/32", ip6));
    assert!(ip_matches(" 2001:db8::1 ", ip6));
    assert!(!ip_matches("2001:db9::/32", ip6));
    assert!(!ip_matches("10.0.0.0/8", ip6));
    assert!(ip_matches("0.0.0.0/0", v4(8, 8, 8, 8)));
    assert!(!ip_matches("10.0.0.0/33", v4(10, 0, 0, 1)));
    assert!(!ip_matches("010.0.0.1", v4(10, 0, 0, 1)));
}

#[test]
fn ping_host_keeps_bracketed_address_whole() {
    assert_eq!(ping_extract_host("[2001:db8::1]"), "2001:db8::1");
    assert_eq!(ping_extract_host(" [2001:db8::1]:443 "), "2001:db8::1");
    assert_eq!(ping_extract_host("https://[::1]:8080/x"), "::1");
    assert_eq!(ping_extract_host("example.com:22"), "example.com");
}

#[test]
fn lookup_target_names_host_and_port() {
    assert_eq!(lookup_target("https://example.com/x"), Ok(Some(("example.com".to_string(), 443))));
    assert_eq!(lookup_target("http://example.com:8080"), Ok(Some(("example.com".to_string(), 8080))));
    assert_eq!(lookup_target("http://1.1.1.1/"), Ok(None));
    assert!(lookup_target("http://127.0.0.1").is_err());
    assert_eq!(resolved_verdict("h", &vec![IpAddress::V4(0x08080808)]), Ok(()));
    assert_eq!(
        resolved_verdict("h", &vec![IpAddress::V4(0x08080808), IpAddress::V4(0x7f000001)]),
        Err("不允许访问内网地址: h".to_string())
    );
}
