use ipeek::encode::{format_response, Encoded};
use ipeek::format::Format;
use ipeek::models::{
    AllResponse, AsnRecord, BlocklistEntry, BlocklistReason, BlocklistRecord, SimpleResponse,
    ToCsv, ToPlainText,
};

fn simple(value: &str) -> SimpleResponse {
    SimpleResponse { value: value.to_string() }
}

fn listed_record() -> BlocklistRecord {
    BlocklistRecord {
        ip: "1.2.3.4".to_string(),
        blocked: true,
        listed_in: vec![
            BlocklistEntry {
                dnsbl: "zen.spamhaus.org".to_string(),
                reason: BlocklistReason::SpamSource,
            },
            BlocklistEntry {
                dnsbl: "bl.spamcop.net".to_string(),
                reason: BlocklistReason::ExploitedOrMalicious,
            },
        ],
    }
}

fn all_response() -> AllResponse {
    AllResponse {
        ip: "1.2.3.4".to_string(),
        reverse_dns: "host.example".to_string(),
        country: "Atlantis".to_string(),
        country_code: "AT".to_string(),
        region: "Deep".to_string(),
        city: "Reef".to_string(),
        asn: AsnRecord { aso: Some("Example Org".to_string()), asn: Some(64500) },
        blocklist: BlocklistRecord {
            ip: "1.2.3.4".to_string(),
            blocked: false,
            listed_in: vec![],
        },
    }
}

fn text_body(e: Encoded) -> (String, String) {
    match e {
        Encoded::Text { content_type, body } => (content_type, body),
        _ => panic!("expected a textual body"),
    }
}

fn binary_body(e: Encoded) -> (String, Vec<u8>) {
    match e {
        Encoded::Binary { content_type, bytes } => (content_type, bytes),
        _ => panic!("expected a binary body"),
    }
}

#[test]
fn encode_plain_simple() {
    let (ct, body) = text_body(format_response(&Format::Plain, &simple("203.0.113.7"), false));
    assert_eq!(ct, "text/plain");
    assert_eq!(body, "203.0.113.7\n");
}

#[test]
fn encode_json_compact_simple() {
    let (ct, body) = text_body(format_response(&Format::Json, &simple("hello"), false));
    assert_eq!(ct, "application/json");
    assert_eq!(body, "{\"value\":\"hello\"}\n");
}

#[test]
fn encode_json_pretty_simple() {
    let (_, body) = text_body(format_response(&Format::Json, &simple("hello"), true));
    assert_eq!(body, "{\n  \"value\": \"hello\"\n}\n");
}

#[test]
fn encode_json_escapes_specials() {
    let value = "a\"b\\c\nd";
    let (_, body) = text_body(format_response(&Format::Json, &simple(value), false));
    let parsed: serde_json::Value = serde_json::from_str(body.trim_end()).unwrap();
    assert_eq!(parsed.get("value").unwrap().as_str().unwrap(), value);
}

#[test]
fn encode_json_control_escapes_exact() {
    let (_, body) = text_body(format_response(&Format::Json, &simple("\u{1}\u{1f}\u{8}"), false));
    assert_eq!(body, "{\"value\":\"\\u0001\\u001f\\b\"}\n");
}

#[test]
fn encode_json_round_trip_simple() {
    let (_, body) = text_body(format_response(&Format::Json, &simple("round trip"), false));
    let parsed: serde_json::Value = serde_json::from_str(&body).unwrap();
    assert_eq!(parsed.get("value").unwrap().as_str().unwrap(), "round trip");
}

#[test]
fn encode_json_round_trip_blocklist() {
    let record = listed_record();
    let (_, body) = text_body(format_response(&Format::Json, &record, false));
    let parsed: serde_json::Value = serde_json::from_str(&body).unwrap();
    assert_eq!(parsed.get("ip").unwrap().as_str().unwrap(), "1.2.3.4");
    assert_eq!(parsed.get("blocked").unwrap().as_bool().unwrap(), true);
    let listed = parsed.get("listed_in").unwrap().as_array().unwrap();
    assert_eq!(listed.len(), 2);
    assert_eq!(listed[0].get("dnsbl").unwrap().as_str().unwrap(), "zen.spamhaus.org");
    assert_eq!(listed[0].get("reason").unwrap().as_str().unwrap(), "SpamSource");
    assert_eq!(listed[1].get("reason").unwrap().as_str().unwrap(), "ExploitedOrMalicious");
}

#[test]
fn encode_json_round_trip_all() {
    let (_, body) = text_body(format_response(&Format::Json, &all_response(), true));
    let parsed: serde_json::Value = serde_json::from_str(&body).unwrap();
    assert_eq!(parsed.get("country").unwrap().as_str().unwrap(), "Atlantis");
    let asn = parsed.get("asn").unwrap();
    assert_eq!(asn.get("asn").unwrap().as_u64().unwrap(), 64500);
    assert_eq!(asn.get("aso").unwrap().as_str().unwrap(), "Example Org");
    let bl = parsed.get("blocklist").unwrap();
    assert_eq!(bl.get("blocked").unwrap().as_bool().unwrap(), false);
    assert_eq!(bl.get("listed_in").unwrap().as_array().unwrap().len(), 0);
}

#[test]
fn encode_json_null_asn_fields() {
    let record = AsnRecord { aso: None, asn: None };
    let (_, body) = text_body(format_response(&Format::Json, &record, false));
    assert_eq!(body, "{\"aso\":null,\"asn\":null}\n");
}

#[test]
fn encode_xml_simple_escapes() {
    let (ct, body) = text_body(format_response(&Format::Xml, &simple("a<b&c"), false));
    assert_eq!(ct, "application/xml");
    assert_eq!(
        body,
        "<?xml version=\"1.0\" encoding=\"utf-8\"?><SimpleResponse><value>a&lt;b&amp;c</value></SimpleResponse>\n"
    );
}

#[test]
fn encode_xml_pretty_blocklist() {
    let record = listed_record();
    let (_, body) = text_body(format_response(&Format::Xml, &record, true));
    let expected = "<?xml version=\"1.0\" encoding=\"utf-8\"?>\n\
        <BlocklistRecord>\n  <ip>1.2.3.4</ip>\n  <blocked>true</blocked>\n\
        \x20\x20<listed_in>\n    <dnsbl>zen.spamhaus.org</dnsbl>\n    <reason>SpamSource</reason>\n  </listed_in>\n\
        \x20\x20<listed_in>\n    <dnsbl>bl.spamcop.net</dnsbl>\n    <reason>ExploitedOrMalicious</reason>\n  </listed_in>\n\
        </BlocklistRecord>\n";
    assert_eq!(body, expected);
}

#[test]
fn encode_yaml_simple_round_trip() {
    let (ct, body) = text_body(format_response(&Format::Yaml, &simple("hello"), false));
    assert_eq!(ct, "application/x-yaml");
    let parsed: serde_yml::Value = serde_yml::from_str(&body).unwrap();
    assert_eq!(parsed.get("value").unwrap().as_str().unwrap(), "hello");
}

#[test]
fn encode_yaml_quotes_numeric_string() {
    let (_, body) = text_body(format_response(&Format::Yaml, &simple("123"), false));
    let parsed: serde_yml::Value = serde_yml::from_str(&body).unwrap();
    assert_eq!(parsed.get("value").unwrap().as_str().unwrap(), "123");
}

#[test]
fn encode_yaml_multiline_value() {
    let (_, body) = text_body(format_response(
        &Format::Yaml,
        &simple("line one\nline two"),
        false,
    ));
    let parsed: serde_yml::Value = serde_yml::from_str(&body).unwrap();
    assert_eq!(parsed.get("value").unwrap().as_str().unwrap(), "line one\nline two");
}

#[test]
fn encode_yaml_multiline_nested_value() {
    let mut all = all_response();
    all.asn.aso = Some("Org One\nOrg Two".to_string());
    let (_, body) = text_body(format_response(&Format::Yaml, &all, false));
    let parsed: serde_yml::Value = serde_yml::from_str(&body).unwrap();
    assert_eq!(
        parsed.get("asn").unwrap().get("aso").unwrap().as_str().unwrap(),
        "Org One\nOrg Two"
    );
}

#[test]
fn encode_yaml_blocklist_round_trip() {
    let record = listed_record();
    let (_, body) = text_body(format_response(&Format::Yaml, &record, false));
    let parsed: serde_yml::Value = serde_yml::from_str(&body).unwrap();
    assert_eq!(parsed.get("ip").unwrap().as_str().unwrap(), "1.2.3.4");
    assert_eq!(parsed.get("blocked").unwrap().as_bool().unwrap(), true);
    let listed = parsed.get("listed_in").unwrap().as_sequence().unwrap();
    assert_eq!(listed.len(), 2);
    assert_eq!(listed[0].get("dnsbl").unwrap().as_str().unwrap(), "zen.spamhaus.org");
    assert_eq!(listed[0].get("reason").unwrap().as_str().unwrap(), "SpamSource");
}

#[test]
fn encode_yaml_all_round_trip() {
    let (_, body) = text_body(format_response(&Format::Yaml, &all_response(), false));
    let parsed: serde_yml::Value = serde_yml::from_str(&body).unwrap();
    assert_eq!(parsed.get("city").unwrap().as_str().unwrap(), "Reef");
    let asn = parsed.get("asn").unwrap();
    assert_eq!(asn.get("asn").unwrap().as_u64().unwrap(), 64500);
    let bl = parsed.get("blocklist").unwrap();
    assert_eq!(bl.get("blocked").unwrap().as_bool().unwrap(), false);
    assert_eq!(bl.get("listed_in").unwrap().as_sequence().unwrap().len(), 0);
}

#[test]
fn encode_msgpack_round_trip_simple() {
    let (ct, bytes) = binary_body(format_response(&Format::Msgpack, &simple("hello"), false));
    assert_eq!(ct, "application/msgpack");
    let decoded: (String,) = rmp_serde::from_slice(&bytes).unwrap();
    assert_eq!(decoded.0, "hello");
}

#[test]
fn encode_msgpack_round_trip_blocklist() {
    let record = listed_record();
    let (_, bytes) = binary_body(format_response(&Format::Msgpack, &record, false));
    let decoded: (String, bool, Vec<(String, String)>) = rmp_serde::from_slice(&bytes).unwrap();
    assert_eq!(decoded.0, "1.2.3.4");
    assert!(decoded.1);
    assert_eq!(
        decoded.2,
        vec![
            ("zen.spamhaus.org".to_string(), "SpamSource".to_string()),
            ("bl.spamcop.net".to_string(), "ExploitedOrMalicious".to_string()),
        ]
    );
}

#[test]
fn encode_csv_simple() {
    let (ct, bytes) = binary_body(format_response(&Format::Csv, &simple("hello"), false));
    assert_eq!(ct, "text/csv");
    assert_eq!(String::from_utf8(bytes).unwrap(), "value\nhello\n");
}

#[test]
fn encode_csv_quotes_when_needed() {
    let (_, bytes) = binary_body(format_response(&Format::Csv, &simple("a,b"), false));
    let text = String::from_utf8(bytes).unwrap();
    assert_eq!(text, "value\n\"a,b\"\n");
    let mut reader = csv::Reader::from_reader(text.as_bytes());
    let rows: Vec<csv::StringRecord> = reader.records().map(|r| r.unwrap()).collect();
    assert_eq!(rows.len(), 1);
    assert_eq!(&rows[0][0], "a,b");
}

#[test]
fn encode_csv_blocklist_rows() {
    let record = listed_record();
    let (_, bytes) = binary_body(format_response(&Format::Csv, &record, false));
    assert_eq!(
        String::from_utf8(bytes).unwrap(),
        "ip,dnsbl,reason\n1.2.3.4,zen.spamhaus.org,SpamSource\n1.2.3.4,bl.spamcop.net,ExploitedOrMalicious\n"
    );
}

#[test]
fn encode_csv_drops_unknown_rows() {
    let record = BlocklistRecord {
        ip: "1.2.3.4".to_string(),
        blocked: true,
        listed_in: vec![
            BlocklistEntry {
                dnsbl: "zen.spamhaus.org".to_string(),
                reason: BlocklistReason::Unknown,
            },
            BlocklistEntry {
                dnsbl: "bl.spamcop.net".to_string(),
                reason: BlocklistReason::SpamSource,
            },
        ],
    };
    let rows = record.to_csv_entries();
    assert_eq!(rows.len(), 1);
    assert_eq!(rows[0].dnsbl, "bl.spamcop.net");
    let (_, bytes) = binary_body(format_response(&Format::Csv, &record, false));
    assert_eq!(
        String::from_utf8(bytes).unwrap(),
        "ip,dnsbl,reason\n1.2.3.4,bl.spamcop.net,SpamSource\n"
    );
}

#[test]
fn encode_csv_all_single_row() {
    let (_, bytes) = binary_body(format_response(&Format::Csv, &all_response(), false));
    assert_eq!(
        String::from_utf8(bytes).unwrap(),
        "ip,reverse_dns,country,country_code,region,city,asn,aso,blocked,blocklist_listed_in\n\
         1.2.3.4,host.example,Atlantis,AT,Deep,Reef,64500,Example Org,false,\n"
    );
}

#[test]
fn plain_text_blocklist_lists_entries() {
    let record = listed_record();
    assert_eq!(
        record.to_plain_text(),
        "IP: 1.2.3.4\nBlocked: yes\nLists:\n - zen.spamhaus.org (SpamSource)\n - bl.spamcop.net (ExploitedOrMalicious)"
    );
}

#[test]
fn plain_text_blocklist_clean() {
    let record = BlocklistRecord {
        ip: "9.9.9.9".to_string(),
        blocked: false,
        listed_in: vec![],
    };
    assert_eq!(record.to_plain_text(), "IP: 9.9.9.9\nBlocked: no");
}

#[test]
fn plain_text_asn() {
    let record = AsnRecord { aso: Some("Example Org".to_string()), asn: Some(64500) };
    assert_eq!(record.to_plain_text(), "ASN: 64500\nOrganization: Example Org");
    let empty = AsnRecord { aso: None, asn: None };
    assert_eq!(empty.to_plain_text(), "ASN: 0\nOrganization: ");
}

#[test]
fn plain_text_all() {
    let text = all_response().to_plain_text();
    assert_eq!(
        text,
        "IP: 1.2.3.4\nHostname: host.example\nCountry: Atlantis (AT)\nRegion: Deep\nCity: Reef\n\
         ASN: ASN: 64500\nOrganization: Example Org\nBlocklist: IP: 1.2.3.4\nBlocked: no"
    );
}

#[test]
fn all_csv_entry_joins_listings() {
    let mut all = all_response();
    all.blocklist = listed_record();
    let rows = all.to_csv_entries();
    assert_eq!(rows.len(), 1);
    assert_eq!(
        rows[0].blocklist_listed_in,
        "zen.spamhaus.org (SpamSource):bl.spamcop.net (ExploitedOrMalicious)"
    );
    assert!(rows[0].blocked);
}
