use ipeek::models::{BlacklistEntry, BlacklistReason, BlacklistRecord, ToCsv, ToPlainText};

fn listed() -> BlacklistRecord {
    BlacklistRecord {
        ip: "1.2.3.4".to_string(),
        blacklisted: true,
        listed_in: vec![
            BlacklistEntry {
                dnsbl: "zen.spamhaus.org".to_string(),
                reason: BlacklistReason::SpamSource,
            },
            BlacklistEntry {
                dnsbl: "bl.spamcop.net".to_string(),
                reason: BlacklistReason::Unknown,
            },
        ],
    }
}

#[test]
fn blacklist_plain_text_lists_entries() {
    assert_eq!(
        listed().to_plain_text(),
        "IP: 1.2.3.4\nBlacklisted: yes\nLists:\n - zen.spamhaus.org (SpamSource)\n - bl.spamcop.net (Unknown)"
    );
}

#[test]
fn blacklist_plain_text_clean() {
    let record = BlacklistRecord {
        ip: "9.9.9.9".to_string(),
        blacklisted: false,
        listed_in: vec![],
    };
    assert_eq!(record.to_plain_text(), "IP: 9.9.9.9\nBlacklisted: no");
}

#[test]
fn blacklist_csv_entries_drop_unknown() {
    let rows = listed().to_csv_entries();
    assert_eq!(rows.len(), 1);
    assert_eq!(rows[0].ip, "1.2.3.4");
    assert_eq!(rows[0].dnsbl, "zen.spamhaus.org");
    assert_eq!(rows[0].reason, BlacklistReason::SpamSource);
}
