use ipeek::config::{default_blocklist_timeout, default_reverse_dns_timeout, DnsConfig};
use ipeek::headers::{client_supports_color, contains_sub, get_ip, is_browser};
use ipeek::ip::{parse_ipv4, IpAddress};

fn ip_text(ip: IpAddress) -> String {
    ip.to_text()
}

#[test]
fn parse_ipv4_accepts_dotted_quads() {
    assert_eq!(parse_ipv4("203.0.113.7"), Some((203, 0, 113, 7)));
    assert_eq!(parse_ipv4("0.0.0.0"), Some((0, 0, 0, 0)));
    assert_eq!(parse_ipv4("255.255.255.255"), Some((255, 255, 255, 255)));
}

#[test]
fn parse_ipv4_rejects_bad_text() {
    assert_eq!(parse_ipv4("256.1.1.1"), None);
    assert_eq!(parse_ipv4("01.2.3.4"), None);
    assert_eq!(parse_ipv4("1.2.3"), None);
    assert_eq!(parse_ipv4("1.2.3.4.5"), None);
    assert_eq!(parse_ipv4("1.2.3."), None);
    assert_eq!(parse_ipv4("a.b.c.d"), None);
    assert_eq!(parse_ipv4(""), None);
}

#[test]
fn ip_parse_classifies_addresses() {
    match IpAddress::parse("203.0.113.7") {
        Some(IpAddress::V4 { a, b, c, d }) => assert_eq!((a, b, c, d), (203, 0, 113, 7)),
        other => panic!("unexpected {:?}", other.map(ip_text)),
    }
    match IpAddress::parse("2001:db8::1") {
        Some(IpAddress::V6 { text }) => assert_eq!(text, "2001:db8::1"),
        other => panic!("unexpected {:?}", other.map(ip_text)),
    }
    assert!(IpAddress::parse("not an address").is_none());
}

#[test]
fn ip_parse_checks_ipv6_grammar() {
    assert!(IpAddress::parse("1:2:3:4:5:6:7:8").is_some());
    assert!(IpAddress::parse("::").is_some());
    assert!(IpAddress::parse("::1").is_some());
    assert!(IpAddress::parse("fe80::1").is_some());
    assert!(IpAddress::parse("::ffff:192.0.2.1").is_some());
    assert!(IpAddress::parse("1:2:3:4:5:6:192.0.2.1").is_some());
    assert!(IpAddress::parse("a:b").is_none());
    assert!(IpAddress::parse("1::2::3").is_none());
    assert!(IpAddress::parse(":").is_none());
    assert!(IpAddress::parse(":::").is_none());
    assert!(IpAddress::parse("1:2:3:4:5:6:7:8:9").is_none());
    assert!(IpAddress::parse("12345::1").is_none());
    assert!(IpAddress::parse("g::1").is_none());
}

#[test]
fn ip_to_text_renders_dotted_quad() {
    assert_eq!(IpAddress::V4 { a: 203, b: 0, c: 113, d: 7 }.to_text(), "203.0.113.7");
    assert_eq!(IpAddress::V6 { text: "::1".to_string() }.to_text(), "::1");
}

#[test]
fn get_ip_prefers_forwarded_for() {
    let ip = get_ip(Some(" 203.0.113.7 , 10.0.0.1"), Some("198.51.100.9"), Some("192.0.2.1"));
    assert_eq!(ip.to_text(), "203.0.113.7");
}

#[test]
fn get_ip_falls_back_to_real_ip() {
    let ip = get_ip(Some("garbage"), Some(" 198.51.100.9 "), Some("192.0.2.1"));
    assert_eq!(ip.to_text(), "198.51.100.9");
}

#[test]
fn get_ip_rejects_colon_garbage() {
    let ip = get_ip(Some("a:b"), Some("198.51.100.9"), None);
    assert_eq!(ip.to_text(), "198.51.100.9");
    let fallback = get_ip(Some("a:b"), Some("also:bad"), None);
    assert_eq!(fallback.to_text(), "127.0.0.1");
}

#[test]
fn get_ip_falls_back_to_peer_then_loopback() {
    let ip = get_ip(None, None, Some("192.0.2.1"));
    assert_eq!(ip.to_text(), "192.0.2.1");
    let fallback = get_ip(None, None, None);
    assert_eq!(fallback.to_text(), "127.0.0.1");
    let nothing_parses = get_ip(Some("x"), Some("y"), Some("z"));
    assert_eq!(nothing_parses.to_text(), "127.0.0.1");
}

#[test]
fn contains_sub_finds_substrings() {
    assert!(contains_sub("hello world", "lo wo"));
    assert!(contains_sub("hello", ""));
    assert!(!contains_sub("hello", "world"));
    assert!(!contains_sub("hi", "hello"));
}

#[test]
fn is_browser_matches_known_names() {
    assert!(is_browser(Some(
        "Mozilla/5.0 (X11; Linux x86_64) AppleWebKit/537.36 Chrome/120.0 Safari/537.36"
    )));
    assert!(is_browser(Some("FIREFOX/121.0")));
    assert!(!is_browser(Some("curl/8.4.0")));
    assert!(!is_browser(None));
}

#[test]
fn color_denied_for_browsers_and_tools() {
    assert!(!client_supports_color(Some("Chrome/120.0"), None, false));
    assert!(!client_supports_color(Some("PostmanRuntime/7.36"), None, false));
    assert!(!client_supports_color(Some("curl/8.4.0"), Some("pie.dev"), false));
    assert!(!client_supports_color(Some("curl/8.4.0"), None, true));
}

#[test]
fn color_allowed_for_plain_terminals() {
    assert!(client_supports_color(Some("curl/8.4.0"), Some("ipeek.io"), false));
    assert!(client_supports_color(None, None, false));
}

#[test]
fn dns_config_defaults() {
    assert_eq!(default_reverse_dns_timeout(), 1000);
    assert_eq!(default_blocklist_timeout(), 2000);
    let filled = DnsConfig::with_defaults(None, Some(350));
    assert_eq!(filled.reverse_dns_timeout_ms, 1000);
    assert_eq!(filled.blocklist_timeout_ms, 350);
    let explicit = DnsConfig::with_defaults(Some(42), None);
    assert_eq!(explicit.reverse_dns_timeout_ms, 42);
    assert_eq!(explicit.blocklist_timeout_ms, 2000);
}
