use ipeek::format::{endpoint_url, resolve, Format};

fn assert_resolve(path: &str, accept: Option<&str>, format: Format, canonical: &str) {
    let (f, p) = resolve(path, accept);
    assert_eq!(f, format);
    assert_eq!(p, canonical);
}

#[test]
fn resolve_every_recognized_extension() {
    assert_resolve("/x.json", None, Format::Json, "/x");
    assert_resolve("/x.xml", None, Format::Xml, "/x");
    assert_resolve("/x.csv", None, Format::Csv, "/x");
    assert_resolve("/x.yaml", None, Format::Yaml, "/x");
    assert_resolve("/x.yml", None, Format::Yaml, "/x");
    assert_resolve("/x.msgpack", None, Format::Msgpack, "/x");
}

#[test]
fn resolve_extension_is_case_insensitive() {
    assert_resolve("/x.JSON", None, Format::Json, "/x");
    assert_resolve("/x.YmL", None, Format::Yaml, "/x");
}

#[test]
fn resolve_unrecognized_extension_keeps_path() {
    assert_resolve("/x.weirdext", None, Format::Plain, "/x.weirdext");
}

#[test]
fn resolve_header_fallback_first_match_wins() {
    assert_resolve(
        "/x",
        Some("application/xml;q=0.9, application/json"),
        Format::Xml,
        "/x",
    );
}

#[test]
fn resolve_header_entries_in_client_order() {
    assert_resolve("/x", Some("application/json, text/csv"), Format::Json, "/x");
    assert_resolve("/x", Some("nonsense/e, text/csv"), Format::Csv, "/x");
    assert_resolve("/x", Some("text/plain, application/json"), Format::Plain, "/x");
    assert_resolve("/x", Some("nonsense/e, other/things"), Format::Plain, "/x");
    assert_resolve("/x", Some("application/x-msgpack"), Format::Msgpack, "/x");
    assert_resolve("/x", Some(" text/yaml ; q=0.2"), Format::Yaml, "/x");
}

#[test]
fn resolve_path_wins_over_header() {
    assert_resolve("/x.csv", Some("application/json"), Format::Csv, "/x");
}

#[test]
fn resolve_trailing_dot_gives_no_extension() {
    assert_resolve("/x.", None, Format::Plain, "/x.");
}

#[test]
fn resolve_extension_only_from_last_segment() {
    assert_resolve("/a.json/b", None, Format::Plain, "/a.json/b");
    assert_resolve("/a.json/b.xml", None, Format::Xml, "/a.json/b");
}

#[test]
fn resolve_is_idempotent() {
    let path = "/ip.json";
    let accept = Some("text/csv");
    let first = resolve(path, accept);
    let second = resolve(path, accept);
    assert_eq!(first, second);
    let third = resolve("/x", Some("application/yaml"));
    let fourth = resolve("/x", Some("application/yaml"));
    assert_eq!(third, fourth);
}

#[test]
fn from_path_returns_token() {
    let (f, token) = Format::from_path("/city.msgpack");
    assert_eq!(f, Format::Msgpack);
    assert_eq!(token, "msgpack");
    let (f2, token2) = Format::from_path("/city");
    assert_eq!(f2, Format::Plain);
    assert_eq!(token2, "");
    let (f3, token3) = Format::from_path("/x.weirdext");
    assert_eq!(f3, Format::Plain);
    assert_eq!(token3, "");
}

#[test]
fn content_types_match_formats() {
    assert_eq!(Format::Json.content_type(), "application/json");
    assert_eq!(Format::Xml.content_type(), "application/xml");
    assert_eq!(Format::Csv.content_type(), "text/csv");
    assert_eq!(Format::Yaml.content_type(), "application/x-yaml");
    assert_eq!(Format::Msgpack.content_type(), "application/msgpack");
    assert_eq!(Format::Plain.content_type(), "text/plain");
}

#[test]
fn endpoint_url_appends_extension() {
    assert_eq!(endpoint_url("/ip", &Format::Json), "ipeek.io/ip.json");
    assert_eq!(endpoint_url("/ip", &Format::Plain), "ipeek.io/ip");
    assert_eq!(endpoint_url("/country", &Format::Yaml), "ipeek.io/country.yaml");
}
