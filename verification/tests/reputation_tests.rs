use std::cell::RefCell;
use std::time::{Duration, Instant};

use ipeek::blocklist::{
    blocklist_zones, check_blocklists, check_zones, get_blocklist, DnsblLookup,
};
use ipeek::ip::IpAddress;
use ipeek::models::{BlacklistReason, BlocklistReason};

struct MapResolver {
    answers: Vec<(String, String)>,
    calls: RefCell<u32>,
    seen_queries: RefCell<Vec<String>>,
}

impl MapResolver {
    fn new(answers: Vec<(&str, &str)>) -> MapResolver {
        MapResolver {
            answers: answers
                .into_iter()
                .map(|(q, a)| (q.to_string(), a.to_string()))
                .collect(),
            calls: RefCell::new(0),
            seen_queries: RefCell::new(Vec::new()),
        }
    }
}

impl DnsblLookup for MapResolver {
    fn lookup_all(&self, queries: &Vec<String>) -> Vec<Option<String>> {
        *self.calls.borrow_mut() += 1;
        self.seen_queries.borrow_mut().extend(queries.iter().cloned());
        queries
            .iter()
            .map(|q| {
                self.answers
                    .iter()
                    .find(|(name, _)| name == q)
                    .map(|(_, a)| a.clone())
            })
            .collect()
    }
}

fn ipv4(a: u8, b: u8, c: u8, d: u8) -> IpAddress {
    IpAddress::V4 { a, b, c, d }
}

#[test]
fn classify_zen_table() {
    assert_eq!(
        BlocklistReason::from("zen.spamhaus.org", "127.0.0.2"),
        BlocklistReason::SpamSource
    );
    assert_eq!(
        BlocklistReason::from("zen.spamhaus.org", "127.0.0.3"),
        BlocklistReason::SpamSupport
    );
    assert_eq!(
        BlocklistReason::from("zen.spamhaus.org", "127.0.0.4"),
        BlocklistReason::ExploitedOrMalicious
    );
    assert_eq!(
        BlocklistReason::from("zen.spamhaus.org", "127.0.0.10"),
        BlocklistReason::DynamicResidential
    );
    assert_eq!(
        BlocklistReason::from("zen.spamhaus.org", "127.0.0.9"),
        BlocklistReason::Unknown
    );
}

#[test]
fn classify_other_providers() {
    assert_eq!(
        BlocklistReason::from("bl.spamcop.net", "127.0.0.2"),
        BlocklistReason::SpamSource
    );
    assert_eq!(
        BlocklistReason::from("bl.spamcop.net", "127.0.0.10"),
        BlocklistReason::Unknown
    );
    assert_eq!(
        BlocklistReason::from("b.barracudacentral.org", "127.0.0.10"),
        BlocklistReason::DynamicResidential
    );
    assert_eq!(
        BlocklistReason::from("nobody.example", "127.0.0.2"),
        BlocklistReason::Unknown
    );
}

#[test]
fn classify_blacklist_matches_blocklist() {
    assert_eq!(
        BlacklistReason::from("zen.spamhaus.org", "127.0.0.2"),
        BlacklistReason::SpamSource
    );
    assert_eq!(
        BlacklistReason::from("zen.spamhaus.org", "nonsense"),
        BlacklistReason::Unknown
    );
}

#[test]
fn check_flags_single_provider() {
    let resolver = MapResolver::new(vec![("7.113.0.203.zen.spamhaus.org", "127.0.0.2")]);
    let record = get_blocklist(&ipv4(203, 0, 113, 7), &resolver);
    assert_eq!(record.ip, "203.0.113.7");
    assert!(record.blocked);
    assert_eq!(record.listed_in.len(), 1);
    assert_eq!(record.listed_in[0].dnsbl, "zen.spamhaus.org");
    assert_eq!(record.listed_in[0].reason, BlocklistReason::SpamSource);
}

#[test]
fn check_builds_reversed_queries() {
    let resolver = MapResolver::new(vec![]);
    let entries = check_blocklists(&ipv4(203, 0, 113, 7), &resolver);
    assert!(entries.is_empty());
    assert_eq!(
        *resolver.seen_queries.borrow(),
        vec![
            "7.113.0.203.zen.spamhaus.org".to_string(),
            "7.113.0.203.bl.spamcop.net".to_string(),
            "7.113.0.203.b.barracudacentral.org".to_string(),
        ]
    );
}

#[test]
fn check_keeps_provider_order() {
    let resolver = MapResolver::new(vec![
        ("7.113.0.203.b.barracudacentral.org", "127.0.0.2"),
        ("7.113.0.203.zen.spamhaus.org", "127.0.0.3"),
    ]);
    let entries = check_blocklists(&ipv4(203, 0, 113, 7), &resolver);
    assert_eq!(entries.len(), 2);
    assert_eq!(entries[0].dnsbl, "zen.spamhaus.org");
    assert_eq!(entries[0].reason, BlocklistReason::SpamSupport);
    assert_eq!(entries[1].dnsbl, "b.barracudacentral.org");
    assert_eq!(entries[1].reason, BlocklistReason::SpamSource);
}

#[test]
fn check_ipv6_issues_no_queries() {
    let resolver = MapResolver::new(vec![("whatever", "127.0.0.2")]);
    let ip = IpAddress::V6 { text: "2001:db8::1".to_string() };
    let record = get_blocklist(&ip, &resolver);
    assert!(!record.blocked);
    assert!(record.listed_in.is_empty());
    assert_eq!(*resolver.calls.borrow(), 0);
    assert!(resolver.seen_queries.borrow().is_empty());
}

#[test]
fn check_unmapped_answers_not_flagged() {
    let resolver = MapResolver::new(vec![
        ("7.113.0.203.zen.spamhaus.org", "127.0.0.99"),
        ("7.113.0.203.bl.spamcop.net", "127.0.0.99"),
        ("7.113.0.203.b.barracudacentral.org", "127.0.0.99"),
    ]);
    let record = get_blocklist(&ipv4(203, 0, 113, 7), &resolver);
    assert!(!record.blocked);
    assert!(record.listed_in.is_empty());
}

#[test]
fn check_total_failure_yields_clean_record() {
    let resolver = MapResolver::new(vec![]);
    let record = get_blocklist(&ipv4(8, 8, 8, 8), &resolver);
    assert_eq!(record.ip, "8.8.8.8");
    assert!(!record.blocked);
    assert!(record.listed_in.is_empty());
}

#[test]
fn check_custom_zone_list() {
    let resolver = MapResolver::new(vec![
        ("1.0.0.127.bl.spamcop.net", "127.0.0.2"),
        ("1.0.0.127.dnsbl.example", "127.0.0.2"),
    ]);
    let zones = vec!["bl.spamcop.net".to_string(), "dnsbl.example".to_string()];
    let entries = check_zones(&ipv4(127, 0, 0, 1), &zones, &resolver);
    assert_eq!(entries.len(), 1);
    assert_eq!(entries[0].dnsbl, "bl.spamcop.net");
    assert_eq!(entries[0].reason, BlocklistReason::SpamSource);
}

#[test]
fn zones_are_in_configured_order() {
    assert_eq!(
        blocklist_zones(),
        vec![
            "zen.spamhaus.org".to_string(),
            "bl.spamcop.net".to_string(),
            "b.barracudacentral.org".to_string(),
        ]
    );
}

struct TimeoutResolver {
    per_query_timeout: Duration,
    slow_query: String,
    slow_latency: Duration,
    answer: String,
}

impl DnsblLookup for TimeoutResolver {
    fn lookup_all(&self, queries: &Vec<String>) -> Vec<Option<String>> {
        let runtime = tokio::runtime::Builder::new_current_thread()
            .enable_time()
            .build()
            .unwrap();
        queries
            .iter()
            .map(|q| {
                let latency = if *q == self.slow_query {
                    self.slow_latency
                } else {
                    Duration::from_millis(0)
                };
                let outcome = runtime.block_on(async {
                    tokio::time::timeout(self.per_query_timeout, tokio::time::sleep(latency))
                        .await
                });
                match outcome {
                    Ok(()) => Some(self.answer.clone()),
                    Err(_) => None,
                }
            })
            .collect()
    }
}

#[test]
fn check_timeout_bounds_slow_provider() {
    let resolver = TimeoutResolver {
        per_query_timeout: Duration::from_millis(100),
        slow_query: "7.113.0.203.bl.spamcop.net".to_string(),
        slow_latency: Duration::from_secs(5),
        answer: "127.0.0.2".to_string(),
    };
    let started = Instant::now();
    let record = get_blocklist(&ipv4(203, 0, 113, 7), &resolver);
    let elapsed = started.elapsed();
    assert!(elapsed < Duration::from_secs(2), "took {:?}", elapsed);
    assert!(record.blocked);
    assert_eq!(record.listed_in.len(), 2);
    assert_eq!(record.listed_in[0].dnsbl, "zen.spamhaus.org");
    assert_eq!(record.listed_in[1].dnsbl, "b.barracudacentral.org");
}
