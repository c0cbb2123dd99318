//! The response encoder: turns a resolved format and a response value
//! into the wire body and content type. Text framing — which fields
//! appear, in which order, with which names and separators — is the
//! library's own format and is verified exactly; escaping a string for
//! JSON or YAML, packing values into MessagePack, and quoting CSV fields
//! are the outside serializers' work, named and trusted.

use vstd::prelude::*;
use crate::format::Format;
use crate::models::{
    AllResponse, AllResponseV, AsnRecord, AsnRecordV, BlocklistCsvEntry, BlocklistCsvEntryV,
    BlocklistEntry, BlocklistEntryV, BlocklistRecord, BlocklistRecordV, CsvInfoEntry,
    CsvInfoEntryV, SimpleResponse, SimpleResponseV, ToCsv, ToPlainText,
    spec_blocklist_reason_name,
};
use crate::seqs::{spec_concat_map, lemma_concat_map_take};
use crate::text::{append_dec_u64, dec_of, push_char};

verus! {

/// An encoded response: a textual or binary body with its content type,
/// or the internal error a serializer reported.
pub enum Encoded {
    Text { content_type: String, body: String },
    Binary { content_type: String, bytes: Vec<u8> },
    Internal { message: String },
}

// ---------------------------------------------------------------------
// Trusted serializer calls
// ---------------------------------------------------------------------

/// A lowercase hexadecimal digit.
pub open spec fn spec_hex_char(d: int) -> char
    recommends
        0 <= d < 16,
{
    if d < 10 {
        ((d + 48) as u8) as char
    } else {
        ((d + 87) as u8) as char
    }
}

/// The escaped form of one character inside a JSON string literal, as
/// `serde_json` writes it: the quote, the backslash and the control
/// characters are escaped — five controls by letter, the rest as
/// `\u00` and two lowercase hex digits; every other character stands
/// as itself.
pub open spec fn spec_json_escape_char(c: char) -> Seq<char> {
    if c == '"' {
        seq!['\\', '"']
    } else if c == '\\' {
        seq!['\\', '\\']
    } else if c == '\u{08}' {
        seq!['\\', 'b']
    } else if c == '\t' {
        seq!['\\', 't']
    } else if c == '\n' {
        seq!['\\', 'n']
    } else if c == '\u{0c}' {
        seq!['\\', 'f']
    } else if c == '\r' {
        seq!['\\', 'r']
    } else if (c as int) < 32 {
        seq!['\\', 'u', '0', '0', spec_hex_char(c as int / 16), spec_hex_char(c as int % 16)]
    } else {
        seq![c]
    }
}

/// The character escape as a function value.
pub open spec fn json_escape_fn() -> spec_fn(char) -> Seq<char> {
    |c: char| spec_json_escape_char(c)
}

/// What `serde_json::to_string` returns for a string slice: the
/// character-wise escaped text between double quotes. Opaque by
/// default; callers that reason about the quoted text reveal it.
#[verifier::opaque]
pub open spec fn json_string_of(s: Seq<char>) -> Seq<char> {
    seq!['"'] + spec_concat_map(s, json_escape_fn()) + seq!['"']
}

/// Relies on `serde_json::to_string::<&str>`: produces the quoted,
/// escaped JSON string literal for the given text. It cannot fail for a
/// string value: serialization errors arise only from the value's own
/// `Serialize` or from I/O, and the sink is an in-memory buffer.
#[verifier::external_body]
fn json_quote(s: &str) -> (r: Result<String, String>)
    ensures
        r is Ok,
        r matches Ok(q) ==> q@ == json_string_of(s@),
{
    serde_json::to_string(&s).map_err(|e| e.to_string())
}

/// What `serde_yml::to_string` returns for a string slice: the YAML
/// scalar form of exactly those characters, quoted where YAML needs it.
pub uninterp spec fn yaml_scalar_of(s: Seq<char>) -> Seq<char>;

/// Relies on `serde_yml::to_string::<&str>`: produces the YAML scalar
/// for the given text. Rendering a string scalar has no failure path:
/// the serializer's errors concern depth limits and non-string keys,
/// neither of which a scalar reaches.
#[verifier::external_body]
fn yaml_scalar(s: &str) -> (r: Result<String, String>)
    ensures
        r is Ok,
        r matches Ok(q) ==> q@ == yaml_scalar_of(s@),
{
    serde_yml::to_string(&s).map_err(|e| e.to_string())
}

/// What `rmp_serde::to_vec` returns for a one-string tuple.
pub uninterp spec fn msgpack_simple_of(value: Seq<char>) -> Seq<u8>;

/// Relies on `rmp_serde::to_vec`: packs the record's single value as a
/// one-element MessagePack array. Packing strings and other plain
/// values into the in-memory buffer cannot fail.
#[verifier::external_body]
fn msgpack_simple(v: &SimpleResponse) -> (r: Result<Vec<u8>, String>)
    ensures
        r is Ok,
        r matches Ok(b) ==> b@ == msgpack_simple_of(v.value@),
{
    rmp_serde::to_vec(&(&v.value,)).map_err(|e| e.to_string())
}

/// What `rmp_serde::to_vec` returns for an ASN field pair.
pub uninterp spec fn msgpack_asn_of(aso: Option<Seq<char>>, asn: Option<u32>) -> Seq<u8>;

/// Relies on `rmp_serde::to_vec`: packs the two ASN fields as a
/// MessagePack array; packing plain values into the in-memory buffer
/// cannot fail.
#[verifier::external_body]
fn msgpack_asn(v: &AsnRecord) -> (r: Result<Vec<u8>, String>)
    ensures
        r is Ok,
        r matches Ok(b) ==> b@ == msgpack_asn_of(v@.aso, v@.asn),
{
    rmp_serde::to_vec(&(&v.aso, &v.asn)).map_err(|e| e.to_string())
}

/// What `rmp_serde::to_vec` returns for a reputation record flattened
/// to its address, flag, and `(zone, reason name)` pairs.
pub uninterp spec fn msgpack_blocklist_of(
    ip: Seq<char>,
    blocked: bool,
    entries: Seq<(Seq<char>, Seq<char>)>,
) -> Seq<u8>;

/// Relies on `rmp_serde::to_vec`: packs the flattened reputation record
/// as a MessagePack array; packing plain values into the in-memory
/// buffer cannot fail.
#[verifier::external_body]
fn msgpack_blocklist(ip: &String, blocked: bool, entries: &Vec<(String, String)>) -> (r: Result<
    Vec<u8>,
    String,
>)
    ensures
        r is Ok,
        r matches Ok(b) ==> b@ == msgpack_blocklist_of(ip@, blocked, entries.deep_view()),
{
    rmp_serde::to_vec(&(ip, blocked, entries)).map_err(|e| e.to_string())
}

/// What `rmp_serde::to_vec` returns for the combined record flattened
/// to plain values.
pub uninterp spec fn msgpack_all_of(
    ip: Seq<char>,
    reverse_dns: Seq<char>,
    country: Seq<char>,
    country_code: Seq<char>,
    region: Seq<char>,
    city: Seq<char>,
    aso: Option<Seq<char>>,
    asn: Option<u32>,
    blocklist_ip: Seq<char>,
    blocked: bool,
    entries: Seq<(Seq<char>, Seq<char>)>,
) -> Seq<u8>;

/// Relies on `rmp_serde::to_vec`: packs the flattened combined record
/// as nested MessagePack arrays; packing plain values into the
/// in-memory buffer cannot fail.
#[verifier::external_body]
fn msgpack_all(
    ip: &String,
    reverse_dns: &String,
    country: &String,
    country_code: &String,
    region: &String,
    city: &String,
    aso: &Option<String>,
    asn: &Option<u32>,
    blocklist_ip: &String,
    blocked: bool,
    entries: &Vec<(String, String)>,
) -> (r: Result<Vec<u8>, String>)
    ensures
        r is Ok,
        r matches Ok(b) ==> b@ == msgpack_all_of(
            ip@,
            reverse_dns@,
            country@,
            country_code@,
            region@,
            city@,
            match aso {
                Some(s) => Some(s@),
                None => None,
            },
            *asn,
            blocklist_ip@,
            blocked,
            entries.deep_view(),
        ),
{
    rmp_serde::to_vec(
        &(ip, reverse_dns, country, country_code, region, city, (aso, asn), (blocklist_ip, blocked, entries)),
    ).map_err(|e| e.to_string())
}

/// Holds a `csv::Writer` over an in-memory byte sink. The writer's own
/// type cannot be declared here (its `W: io::Write` bound has no
/// specification), so it stands behind this opaque struct.
#[verifier::external_body]
pub struct CsvSink {
    inner: csv::Writer<Vec<u8>>,
}

/// The bytes a CSV sink has accepted so far.
pub uninterp spec fn csv_buf(w: CsvSink) -> Seq<u8>;

/// What `csv::Writer::write_record` appends for one record: the fields
/// comma-joined, quoted where CSV needs it, terminated with a newline.
pub uninterp spec fn csv_record_of(fields: Seq<Seq<char>>) -> Seq<u8>;

/// Relies on `csv::WriterBuilder`: a fresh writer over an in-memory
/// buffer has written nothing. The writer is flexible — record lengths
/// are not checked — which leaves writing a record no failure path on a
/// memory sink; the encoding of each record is unchanged.
#[verifier::external_body]
fn csv_writer_new() -> (w: CsvSink)
    ensures
        csv_buf(w) == Seq::<u8>::empty(),
{
    CsvSink { inner: csv::WriterBuilder::new().flexible(true).from_writer(Vec::new()) }
}

/// Relies on `csv::Writer::write_record`: appends exactly one encoded
/// record to what was written before. On a flexible writer over an
/// in-memory buffer the call cannot fail: its only errors are unequal
/// record lengths (not checked) and I/O (the sink is a `Vec`).
#[verifier::external_body]
fn csv_write_row(w: &mut CsvSink, fields: &Vec<String>) -> (r: Result<(), String>)
    ensures
        r is Ok,
        r is Ok ==> csv_buf(*final(w)) == csv_buf(*old(w)) + csv_record_of(fields.deep_view()),
{
    w.inner.write_record(fields.iter()).map_err(|e| e.to_string())
}

/// Relies on `csv::Writer::into_inner`: flushing hands back exactly the
/// written bytes; flushing into the in-memory buffer cannot fail.
#[verifier::external_body]
fn csv_into_bytes(w: CsvSink) -> (r: Result<Vec<u8>, String>)
    ensures
        r is Ok,
        r matches Ok(b) ==> b@ == csv_buf(w),
{
    w.inner.into_inner().map_err(|e| e.to_string())
}

// ---------------------------------------------------------------------
// JSON framing
// ---------------------------------------------------------------------

/// `n` spaces.
pub open spec fn spec_spaces(n: nat) -> Seq<char>
    decreases n,
{
    if n == 0 {
        Seq::empty()
    } else {
        spec_spaces((n - 1) as nat).push(' ')
    }
}

/// Appends `n` spaces.
pub fn append_spaces(out: &mut String, n: usize)
    ensures
        final(out)@ == old(out)@ + spec_spaces(n as nat),
    decreases n,
{
    if n > 0 {
        append_spaces(out, n - 1);
        push_char(out, ' ');
        assert(final(out)@ =~= old(out)@ + spec_spaces(n as nat));
    } else {
        assert(final(out)@ =~= old(out)@ + spec_spaces(0));
    }
}

/// One compact JSON member: the quoted name, a colon, the rendered
/// value.
pub open spec fn spec_json_member(f: (Seq<char>, Seq<char>)) -> Seq<char> {
    "\""@ + f.0 + "\":"@ + f.1
}

/// One pretty JSON member at the given indentation.
pub open spec fn spec_json_member_pretty(f: (Seq<char>, Seq<char>), indent: nat) -> Seq<char> {
    spec_spaces(indent + 2) + "\""@ + f.0 + "\": "@ + f.1
}

/// A compact member preceded by the separator, as a function value.
pub open spec fn json_member_sep_fn() -> spec_fn((Seq<char>, Seq<char>)) -> Seq<char> {
    |f: (Seq<char>, Seq<char>)| ","@ + spec_json_member(f)
}

/// A pretty member preceded by the separator, as a function value.
pub open spec fn json_member_sep_pretty_fn(indent: nat) -> spec_fn((Seq<char>, Seq<char>)) -> Seq<
    char,
> {
    |f: (Seq<char>, Seq<char>)| ",\n"@ + spec_json_member_pretty(f, indent)
}

/// A JSON object over pre-rendered member values. `indent` is the
/// column of the object's braces; pretty objects put each member on its
/// own line two columns deeper.
pub open spec fn spec_json_object(
    fields: Seq<(Seq<char>, Seq<char>)>,
    pretty: bool,
    indent: nat,
) -> Seq<char> {
    if fields.len() == 0 {
        "{}"@
    } else if pretty {
        "{\n"@ + spec_json_member_pretty(fields[0], indent) + spec_concat_map(
            fields.drop_first(),
            json_member_sep_pretty_fn(indent),
        ) + "\n"@ + spec_spaces(indent) + "}"@
    } else {
        "{"@ + spec_json_member(fields[0]) + spec_concat_map(
            fields.drop_first(),
            json_member_sep_fn(),
        ) + "}"@
    }
}

/// Renders a JSON object from pre-rendered member values.
#[verifier::rlimit(50)]
pub fn json_object(fields: &Vec<(String, String)>, pretty: bool, indent: usize) -> (r: String)
    requires
        indent + 2 <= usize::MAX,
    ensures
        r@ == spec_json_object(fields.deep_view(), pretty, indent as nat),
{
    let ghost model = fields.deep_view();
    if fields.len() == 0 {
        return "{}".to_owned();
    }
    let mut out = String::new();
    if pretty {
        out.append("{\n");
    } else {
        out.append("{");
    }
    let mut i: usize = 0;
    while i < fields.len()
        invariant
            i <= fields@.len(),
            model == fields.deep_view(),
            model.len() == fields@.len(),
            model.len() > 0,
            indent + 2 <= usize::MAX,
            i == 0 ==> out@ == (if pretty { "{\n"@ } else { "{"@ }),
            i > 0 ==> out@ == (if pretty {
                "{\n"@ + spec_json_member_pretty(model[0], indent as nat) + spec_concat_map(
                    model.drop_first().take(i - 1),
                    json_member_sep_pretty_fn(indent as nat),
                )
            } else {
                "{"@ + spec_json_member(model[0]) + spec_concat_map(
                    model.drop_first().take(i - 1),
                    json_member_sep_fn(),
                )
            }),
        decreases fields@.len() - i,
    {
        if i > 0 {
            if pretty {
                out.append(",\n");
            } else {
                out.append(",");
            }
        }
        if pretty {
            append_spaces(&mut out, indent + 2);
        }
        out.append("\"");
        out.append(fields[i].0.as_str());
        if pretty {
            out.append("\": ");
        } else {
            out.append("\":");
        }
        out.append(fields[i].1.as_str());
        i = i + 1;
        proof {
            assert(model[i - 1] == (fields@[i - 1].0@, fields@[i - 1].1@));
            if i == 1 {
                assert(out@ =~= (if pretty {
                    "{\n"@ + spec_json_member_pretty(model[0], indent as nat) + spec_concat_map(
                        model.drop_first().take(0),
                        json_member_sep_pretty_fn(indent as nat),
                    )
                } else {
                    "{"@ + spec_json_member(model[0]) + spec_concat_map(
                        model.drop_first().take(0),
                        json_member_sep_fn(),
                    )
                })) by {
                    assert(model.drop_first().take(0) =~= Seq::<(Seq<char>, Seq<char>)>::empty());
                }
            } else {
                let rest = model.drop_first();
                if pretty {
                    lemma_concat_map_take(rest, json_member_sep_pretty_fn(indent as nat), i - 1);
                } else {
                    lemma_concat_map_take(rest, json_member_sep_fn(), i - 1);
                }
                assert(rest[i - 2] == model[i - 1]);
                assert(out@ =~= (if pretty {
                    "{\n"@ + spec_json_member_pretty(model[0], indent as nat) + spec_concat_map(
                        rest.take(i - 1),
                        json_member_sep_pretty_fn(indent as nat),
                    )
                } else {
                    "{"@ + spec_json_member(model[0]) + spec_concat_map(
                        rest.take(i - 1),
                        json_member_sep_fn(),
                    )
                }));
            }
        }
    }
    if pretty {
        out.append("\n");
        append_spaces(&mut out, indent);
        out.append("}");
    } else {
        out.append("}");
    }
    proof {
        assert(model.drop_first().take(model.len() - 1) =~= model.drop_first());
        assert(out@ =~= spec_json_object(model, pretty, indent as nat));
    }
    out
}

/// A compact JSON array item preceded by the separator.
pub open spec fn json_item_sep_fn() -> spec_fn(Seq<char>) -> Seq<char> {
    |v: Seq<char>| ","@ + v
}

/// A pretty JSON array item preceded by the separator.
pub open spec fn json_item_sep_pretty_fn(indent: nat) -> spec_fn(Seq<char>) -> Seq<char> {
    |v: Seq<char>| ",\n"@ + spec_spaces(indent + 2) + v
}

/// A JSON array over pre-rendered items. `indent` is the column of the
/// array's brackets.
pub open spec fn spec_json_array(items: Seq<Seq<char>>, pretty: bool, indent: nat) -> Seq<char> {
    if items.len() == 0 {
        "[]"@
    } else if pretty {
        "[\n"@ + spec_spaces(indent + 2) + items[0] + spec_concat_map(
            items.drop_first(),
            json_item_sep_pretty_fn(indent),
        ) + "\n"@ + spec_spaces(indent) + "]"@
    } else {
        "["@ + items[0] + spec_concat_map(items.drop_first(), json_item_sep_fn()) + "]"@
    }
}

/// Renders a JSON array from pre-rendered items.
#[verifier::rlimit(50)]
pub fn json_array(items: &Vec<String>, pretty: bool, indent: usize) -> (r: String)
    requires
        indent + 2 <= usize::MAX,
    ensures
        r@ == spec_json_array(items.deep_view(), pretty, indent as nat),
{
    let ghost model = items.deep_view();
    if items.len() == 0 {
        return "[]".to_owned();
    }
    let mut out = String::new();
    if pretty {
        out.append("[\n");
        append_spaces(&mut out, indent + 2);
    } else {
        out.append("[");
    }
    let mut i: usize = 0;
    while i < items.len()
        invariant
            i <= items@.len(),
            model == items.deep_view(),
            model.len() == items@.len(),
            model.len() > 0,
            indent + 2 <= usize::MAX,
            i == 0 ==> out@ == (if pretty {
                "[\n"@ + spec_spaces(indent as nat + 2)
            } else {
                "["@
            }),
            i > 0 ==> out@ == (if pretty {
                "[\n"@ + spec_spaces(indent as nat + 2) + model[0] + spec_concat_map(
                    model.drop_first().take(i - 1),
                    json_item_sep_pretty_fn(indent as nat),
                )
            } else {
                "["@ + model[0] + spec_concat_map(
                    model.drop_first().take(i - 1),
                    json_item_sep_fn(),
                )
            }),
        decreases items@.len() - i,
    {
        if i > 0 {
            if pretty {
                out.append(",\n");
                append_spaces(&mut out, indent + 2);
            } else {
                out.append(",");
            }
        }
        out.append(items[i].as_str());
        i = i + 1;
        proof {
            assert(model[i - 1] == items@[i - 1]@);
            if i == 1 {
                assert(model.drop_first().take(0) =~= Seq::<Seq<char>>::empty());
                assert(out@ =~= (if pretty {
                    "[\n"@ + spec_spaces(indent as nat + 2) + model[0] + spec_concat_map(
                        model.drop_first().take(0),
                        json_item_sep_pretty_fn(indent as nat),
                    )
                } else {
                    "["@ + model[0] + spec_concat_map(
                        model.drop_first().take(0),
                        json_item_sep_fn(),
                    )
                }));
            } else {
                let rest = model.drop_first();
                if pretty {
                    lemma_concat_map_take(rest, json_item_sep_pretty_fn(indent as nat), i - 1);
                } else {
                    lemma_concat_map_take(rest, json_item_sep_fn(), i - 1);
                }
                assert(rest[i - 2] == model[i - 1]);
                assert(out@ =~= (if pretty {
                    "[\n"@ + spec_spaces(indent as nat + 2) + model[0] + spec_concat_map(
                        rest.take(i - 1),
                        json_item_sep_pretty_fn(indent as nat),
                    )
                } else {
                    "["@ + model[0] + spec_concat_map(rest.take(i - 1), json_item_sep_fn())
                }));
            }
        }
    }
    if pretty {
        out.append("\n");
        append_spaces(&mut out, indent);
        out.append("]");
    } else {
        out.append("]");
    }
    proof {
        assert(model.drop_first().take(model.len() - 1) =~= model.drop_first());
        assert(out@ =~= spec_json_array(model, pretty, indent as nat));
    }
    out
}

// ---------------------------------------------------------------------
// XML framing
// ---------------------------------------------------------------------

/// The escaped form of one character in XML text content.
pub open spec fn spec_xml_escape_char(c: char) -> Seq<char> {
    if c == '&' {
        "&amp;"@
    } else if c == '<' {
        "&lt;"@
    } else if c == '>' {
        "&gt;"@
    } else if c == '"' {
        "&quot;"@
    } else if c == '\'' {
        "&apos;"@
    } else {
        seq![c]
    }
}

/// The character escape as a function value.
pub open spec fn xml_escape_char_fn() -> spec_fn(char) -> Seq<char> {
    |c: char| spec_xml_escape_char(c)
}

/// XML-escapes a whole text.
pub open spec fn spec_xml_escape(s: Seq<char>) -> Seq<char> {
    spec_concat_map(s, xml_escape_char_fn())
}

/// Appends the XML-escaped text.
pub fn append_xml_escaped(out: &mut String, s: &str)
    ensures
        final(out)@ == old(out)@ + spec_xml_escape(s@),
{
    let ghost start = out@;
    let n = s.unicode_len();
    let mut i: usize = 0;
    while i < n
        invariant
            i <= n,
            n == s@.len(),
            out@ == start + spec_xml_escape(s@.take(i as int)),
        decreases n - i,
    {
        let c = s.get_char(i);
        if c == '&' {
            out.append("&amp;");
        } else if c == '<' {
            out.append("&lt;");
        } else if c == '>' {
            out.append("&gt;");
        } else if c == '"' {
            out.append("&quot;");
        } else if c == '\'' {
            out.append("&apos;");
        } else {
            push_char(out, c);
        }
        i = i + 1;
        proof {
            lemma_concat_map_take(s@, xml_escape_char_fn(), i as int);
            assert(out@ =~= start + spec_xml_escape(s@.take(i as int)));
        }
    }
    proof {
        assert(s@.take(n as int) =~= s@);
    }
}

/// The XML document header.
pub open spec fn spec_xml_header() -> Seq<char> {
    "<?xml version=\"1.0\" encoding=\"utf-8\"?>"@
}

/// A text element: the tag pair around the escaped text.
pub open spec fn spec_xml_text_el(name: Seq<char>, text: Seq<char>) -> Seq<char> {
    "<"@ + name + ">"@ + spec_xml_escape(text) + "</"@ + name + ">"@
}

/// Appends a text element.
pub fn append_xml_text_el(out: &mut String, name: &str, text: &str)
    ensures
        final(out)@ == old(out)@ + spec_xml_text_el(name@, text@),
{
    out.append("<");
    out.append(name);
    out.append(">");
    append_xml_escaped(out, text);
    out.append("</");
    out.append(name);
    out.append(">");
    assert(final(out)@ =~= old(out)@ + spec_xml_text_el(name@, text@));
}

/// A text element on its own line: the prefix, the element, a newline.
pub open spec fn spec_xml_text_line(
    prefix: Seq<char>,
    name: Seq<char>,
    text: Seq<char>,
) -> Seq<char> {
    prefix + spec_xml_text_el(name, text) + "\n"@
}

/// Appends a text element as an indented line.
pub fn append_xml_text_line(out: &mut String, prefix: &str, name: &str, text: &str)
    ensures
        final(out)@ == old(out)@ + spec_xml_text_line(prefix@, name@, text@),
{
    out.append(prefix);
    append_xml_text_el(out, name, text);
    out.append("\n");
    assert(final(out)@ =~= old(out)@ + spec_xml_text_line(prefix@, name@, text@));
}

/// An element whose content is already rendered and needs no escaping
/// (numbers, booleans, fixed names).
pub open spec fn spec_xml_raw_el(name: Seq<char>, content: Seq<char>) -> Seq<char> {
    "<"@ + name + ">"@ + content + "</"@ + name + ">"@
}

/// Appends an element with pre-rendered content.
pub fn append_xml_raw_el(out: &mut String, name: &str, content: &str)
    ensures
        final(out)@ == old(out)@ + spec_xml_raw_el(name@, content@),
{
    out.append("<");
    out.append(name);
    out.append(">");
    out.append(content);
    out.append("</");
    out.append(name);
    out.append(">");
    assert(final(out)@ =~= old(out)@ + spec_xml_raw_el(name@, content@));
}

/// A pre-rendered element on its own line.
pub open spec fn spec_xml_raw_line(
    prefix: Seq<char>,
    name: Seq<char>,
    content: Seq<char>,
) -> Seq<char> {
    prefix + spec_xml_raw_el(name, content) + "\n"@
}

/// Appends a pre-rendered element as an indented line.
pub fn append_xml_raw_line(out: &mut String, prefix: &str, name: &str, content: &str)
    ensures
        final(out)@ == old(out)@ + spec_xml_raw_line(prefix@, name@, content@),
{
    out.append(prefix);
    append_xml_raw_el(out, name, content);
    out.append("\n");
    assert(final(out)@ =~= old(out)@ + spec_xml_raw_line(prefix@, name@, content@));
}

// ---------------------------------------------------------------------
// Shared scalar renderings
// ---------------------------------------------------------------------

/// `true` or `false`.
pub open spec fn spec_bool_text(b: bool) -> Seq<char> {
    if b {
        "true"@
    } else {
        "false"@
    }
}

/// Renders a boolean.
pub fn bool_text(b: bool) -> (r: &'static str)
    ensures
        r@ == spec_bool_text(b),
{
    if b {
        "true"
    } else {
        "false"
    }
}

/// One character of a reindented text: a line break is followed by the
/// indentation, any other character stands alone.
pub open spec fn spec_reindent_char(c: char, ind: Seq<char>) -> Seq<char> {
    if c == '\n' {
        seq!['\n'] + ind
    } else {
        seq![c]
    }
}

/// The reindenting as a function value.
pub open spec fn reindent_fn(ind: Seq<char>) -> spec_fn(char) -> Seq<char> {
    |c: char| spec_reindent_char(c, ind)
}

/// A text with the indentation inserted after every line break, so a
/// multi-line scalar rendered at column zero stays well-formed when it
/// is spliced into an indented context. Single-line texts are
/// unchanged.
pub open spec fn spec_reindent(s: Seq<char>, ind: Seq<char>) -> Seq<char> {
    spec_concat_map(s, reindent_fn(ind))
}

/// Appends `s` with `ind` inserted after every line break.
fn append_reindented(out: &mut String, s: &str, ind: &str)
    ensures
        final(out)@ == old(out)@ + spec_reindent(s@, ind@),
{
    let ghost start = out@;
    let n = s.unicode_len();
    let mut i: usize = 0;
    while i < n
        invariant
            i <= n,
            n == s@.len(),
            out@ == start + spec_reindent(s@.take(i as int), ind@),
        decreases n - i,
    {
        let c = s.get_char(i);
        push_char(out, c);
        if c == '\n' {
            out.append(ind);
        }
        i = i + 1;
        proof {
            lemma_concat_map_take(s@, reindent_fn(ind@), i as int);
            assert(out@ =~= start + spec_reindent(s@.take(i as int), ind@));
        }
    }
    proof {
        assert(s@.take(n as int) =~= s@);
    }
}

/// A JSON member value for an optional string: the quoted string, or
/// `null`.
pub open spec fn spec_json_opt_string(o: Option<Seq<char>>) -> Seq<char> {
    match o {
        Some(s) => json_string_of(s),
        None => "null"@,
    }
}

/// Renders an optional string as a JSON member value.
fn json_opt_string(o: &Option<String>) -> (r: Result<String, String>)
    ensures
        r is Ok,
        r matches Ok(q) ==> q@ == spec_json_opt_string(
            match o {
                Some(s) => Some(s@),
                None => None,
            },
        ),
{
    match o {
        Some(s) => json_quote(s.as_str()),
        None => Ok("null".to_owned()),
    }
}

/// A JSON member value for an optional number: its decimal digits, or
/// `null`.
pub open spec fn spec_json_opt_u32(o: Option<u32>) -> Seq<char> {
    match o {
        Some(n) => dec_of(n as nat),
        None => "null"@,
    }
}

/// Renders an optional number as a JSON member value.
fn json_opt_u32(o: &Option<u32>) -> (r: String)
    ensures
        r@ == spec_json_opt_u32(*o),
{
    match o {
        Some(n) => crate::text::u64_to_dec(*n as u64),
        None => "null".to_owned(),
    }
}

/// The `(zone, reason name)` pair of one entry.
pub open spec fn spec_entry_pair(e: BlocklistEntryV) -> (Seq<char>, Seq<char>) {
    (e.dnsbl, spec_blocklist_reason_name(e.reason))
}

/// The flattened `(zone, reason name)` pairs of an entry list.
pub open spec fn spec_entry_pairs(s: Seq<BlocklistEntryV>) -> Seq<(Seq<char>, Seq<char>)> {
    s.map_values(|e: BlocklistEntryV| spec_entry_pair(e))
}

/// Flattens the entries to `(zone, reason name)` pairs.
fn entry_pairs(entries: &Vec<BlocklistEntry>) -> (r: Vec<(String, String)>)
    ensures
        r.deep_view() == spec_entry_pairs(entries.deep_view()),
{
    let ghost model = entries.deep_view();
    let mut r: Vec<(String, String)> = Vec::new();
    let mut i: usize = 0;
    while i < entries.len()
        invariant
            i <= entries@.len(),
            model == entries.deep_view(),
            model.len() == entries@.len(),
            r@.len() == i as int,
            r.deep_view() =~~= spec_entry_pairs(model).take(i as int),
        decreases entries@.len() - i,
    {
        let e = &entries[i];
        r.push((e.dnsbl.clone(), e.reason.name().to_owned()));
        i = i + 1;
        proof {
            assert(r.deep_view() =~~= spec_entry_pairs(model).take(i as int));
        }
    }
    proof {
        assert(spec_entry_pairs(model).take(model.len() as int) =~= spec_entry_pairs(model));
    }
    r
}

// ---------------------------------------------------------------------
// Per-record wire renderings
// ---------------------------------------------------------------------

/// The JSON form of a simple response.
pub open spec fn spec_json_simple(v: SimpleResponseV, pretty: bool, indent: nat) -> Seq<char> {
    spec_json_object(seq![("value"@, json_string_of(v.value))], pretty, indent)
}

/// The JSON form of an ASN record.
pub open spec fn spec_json_asn(v: AsnRecordV, pretty: bool, indent: nat) -> Seq<char> {
    spec_json_object(
        seq![("aso"@, spec_json_opt_string(v.aso)), ("asn"@, spec_json_opt_u32(v.asn))],
        pretty,
        indent,
    )
}

/// The JSON form of one reputation entry.
pub open spec fn spec_json_entry(e: BlocklistEntryV, pretty: bool, indent: nat) -> Seq<char> {
    spec_json_object(
        seq![
            ("dnsbl"@, json_string_of(e.dnsbl)),
            ("reason"@, json_string_of(spec_blocklist_reason_name(e.reason))),
        ],
        pretty,
        indent,
    )
}

/// The entry rendering as a function value.
pub open spec fn json_entry_fn(pretty: bool, indent: nat) -> spec_fn(BlocklistEntryV) -> Seq<
    char,
> {
    |e: BlocklistEntryV| spec_json_entry(e, pretty, indent)
}

/// The JSON form of a reputation record.
pub open spec fn spec_json_blocklist(v: BlocklistRecordV, pretty: bool, indent: nat) -> Seq<
    char,
> {
    spec_json_object(
        seq![
            ("ip"@, json_string_of(v.ip)),
            ("blocked"@, spec_bool_text(v.blocked)),
            (
                "listed_in"@,
                spec_json_array(
                    v.listed_in.map_values(json_entry_fn(pretty, indent + 4)),
                    pretty,
                    indent + 2,
                ),
            ),
        ],
        pretty,
        indent,
    )
}

/// The JSON form of the combined record.
pub open spec fn spec_json_all(v: AllResponseV, pretty: bool, indent: nat) -> Seq<char> {
    spec_json_object(
        seq![
            ("ip"@, json_string_of(v.ip)),
            ("reverse_dns"@, json_string_of(v.reverse_dns)),
            ("country"@, json_string_of(v.country)),
            ("country_code"@, json_string_of(v.country_code)),
            ("region"@, json_string_of(v.region)),
            ("city"@, json_string_of(v.city)),
            ("asn"@, spec_json_asn(v.asn, pretty, indent + 2)),
            ("blocklist"@, spec_json_blocklist(v.blocklist, pretty, indent + 2)),
        ],
        pretty,
        indent,
    )
}

/// The XML form of a simple response.
pub open spec fn spec_xml_simple(v: SimpleResponseV, pretty: bool) -> Seq<char> {
    if pretty {
        spec_xml_header() + "\n<SimpleResponse>\n"@ + spec_xml_text_line("  "@, "value"@, v.value)
            + "</SimpleResponse>"@
    } else {
        spec_xml_header() + "<SimpleResponse>"@ + spec_xml_text_el("value"@, v.value)
            + "</SimpleResponse>"@
    }
}

/// The two ASN field elements.
pub open spec fn spec_xml_asn_fields(v: AsnRecordV, pretty: bool, prefix: Seq<char>) -> Seq<
    char,
> {
    let aso = match v.aso {
        Some(s) => s,
        None => Seq::empty(),
    };
    let asn = match v.asn {
        Some(n) => dec_of(n as nat),
        None => Seq::empty(),
    };
    if pretty {
        spec_xml_text_line(prefix, "aso"@, aso) + spec_xml_raw_line(prefix, "asn"@, asn)
    } else {
        spec_xml_text_el("aso"@, aso) + spec_xml_raw_el("asn"@, asn)
    }
}

/// The XML form of an ASN record.
pub open spec fn spec_xml_asn(v: AsnRecordV, pretty: bool) -> Seq<char> {
    if pretty {
        spec_xml_header() + "\n<AsnRecord>\n"@ + spec_xml_asn_fields(v, true, "  "@)
            + "</AsnRecord>"@
    } else {
        spec_xml_header() + "<AsnRecord>"@ + spec_xml_asn_fields(v, false, ""@) + "</AsnRecord>"@
    }
}

/// The XML form of one reputation entry.
pub open spec fn spec_xml_entry(e: BlocklistEntryV, pretty: bool, prefix: Seq<char>) -> Seq<
    char,
> {
    if pretty {
        prefix + "<listed_in>\n"@ + spec_xml_text_line(prefix + "  "@, "dnsbl"@, e.dnsbl)
            + spec_xml_raw_line(prefix + "  "@, "reason"@, spec_blocklist_reason_name(e.reason))
            + prefix + "</listed_in>\n"@
    } else {
        "<listed_in>"@ + spec_xml_text_el("dnsbl"@, e.dnsbl) + spec_xml_raw_el(
            "reason"@,
            spec_blocklist_reason_name(e.reason),
        ) + "</listed_in>"@
    }
}

/// The XML entry rendering as a function value.
pub open spec fn xml_entry_fn(pretty: bool, prefix: Seq<char>) -> spec_fn(BlocklistEntryV) -> Seq<
    char,
> {
    |e: BlocklistEntryV| spec_xml_entry(e, pretty, prefix)
}

/// The field elements of a reputation record.
pub open spec fn spec_xml_blocklist_fields(
    v: BlocklistRecordV,
    pretty: bool,
    prefix: Seq<char>,
) -> Seq<char> {
    if pretty {
        spec_xml_text_line(prefix, "ip"@, v.ip) + spec_xml_raw_line(
            prefix,
            "blocked"@,
            spec_bool_text(v.blocked),
        ) + spec_concat_map(v.listed_in, xml_entry_fn(true, prefix))
    } else {
        spec_xml_text_el("ip"@, v.ip) + spec_xml_raw_el("blocked"@, spec_bool_text(v.blocked))
            + spec_concat_map(v.listed_in, xml_entry_fn(false, prefix))
    }
}

/// The XML form of a reputation record.
pub open spec fn spec_xml_blocklist(v: BlocklistRecordV, pretty: bool) -> Seq<char> {
    if pretty {
        spec_xml_header() + "\n<BlocklistRecord>\n"@ + spec_xml_blocklist_fields(v, true, "  "@)
            + "</BlocklistRecord>"@
    } else {
        spec_xml_header() + "<BlocklistRecord>"@ + spec_xml_blocklist_fields(v, false, ""@)
            + "</BlocklistRecord>"@
    }
}

/// The XML form of the combined record.
pub open spec fn spec_xml_all(v: AllResponseV, pretty: bool) -> Seq<char> {
    if pretty {
        spec_xml_header() + "\n<AllResponse>\n"@ + spec_xml_text_line("  "@, "ip"@, v.ip)
            + spec_xml_text_line("  "@, "reverse_dns"@, v.reverse_dns) + spec_xml_text_line(
            "  "@,
            "country"@,
            v.country,
        ) + spec_xml_text_line("  "@, "country_code"@, v.country_code) + spec_xml_text_line(
            "  "@,
            "region"@,
            v.region,
        ) + spec_xml_text_line("  "@, "city"@, v.city) + "  <asn>\n"@ + spec_xml_asn_fields(
            v.asn,
            true,
            "    "@,
        ) + "  </asn>\n"@ + "  <blocklist>\n"@ + spec_xml_blocklist_fields(
            v.blocklist,
            true,
            "    "@,
        ) + "  </blocklist>\n"@ + "</AllResponse>"@
    } else {
        spec_xml_header() + "<AllResponse>"@ + spec_xml_text_el("ip"@, v.ip) + spec_xml_text_el(
            "reverse_dns"@,
            v.reverse_dns,
        ) + spec_xml_text_el("country"@, v.country) + spec_xml_text_el(
            "country_code"@,
            v.country_code,
        ) + spec_xml_text_el("region"@, v.region) + spec_xml_text_el("city"@, v.city) + "<asn>"@
            + spec_xml_asn_fields(v.asn, false, ""@) + "</asn>"@ + "<blocklist>"@
            + spec_xml_blocklist_fields(v.blocklist, false, ""@) + "</blocklist>"@
            + "</AllResponse>"@
    }
}

/// A YAML member value for an optional string: its scalar reindented
/// for the context, or `null`.
pub open spec fn spec_yaml_opt_scalar(o: Option<Seq<char>>, ind: Seq<char>) -> Seq<char> {
    match o {
        Some(s) => spec_reindent(yaml_scalar_of(s), ind),
        None => "null"@,
    }
}

/// A YAML member value for an optional number.
pub open spec fn spec_yaml_opt_u32(o: Option<u32>) -> Seq<char> {
    match o {
        Some(n) => dec_of(n as nat),
        None => "null"@,
    }
}

/// One YAML field line: the prefix, the key, `: `, the rendered value,
/// a newline.
pub open spec fn spec_yaml_line(prefix: Seq<char>, key: Seq<char>, value: Seq<char>) -> Seq<char> {
    prefix + key + ": "@ + value + "\n"@
}

/// The YAML form of a simple response.
pub open spec fn spec_yaml_simple(v: SimpleResponseV) -> Seq<char> {
    spec_yaml_line(""@, "value"@, spec_reindent(yaml_scalar_of(v.value), ""@ + "  "@))
}

/// The YAML field lines of an ASN record.
pub open spec fn spec_yaml_asn(v: AsnRecordV, prefix: Seq<char>) -> Seq<char> {
    spec_yaml_line(prefix, "aso"@, spec_yaml_opt_scalar(v.aso, prefix + "  "@)) + spec_yaml_line(
        prefix,
        "asn"@,
        spec_yaml_opt_u32(v.asn),
    )
}

/// The YAML lines of one reputation entry, as a list item.
pub open spec fn spec_yaml_entry(e: BlocklistEntryV, prefix: Seq<char>) -> Seq<char> {
    prefix + "- "@ + "dnsbl"@ + ": "@ + spec_reindent(yaml_scalar_of(e.dnsbl), prefix + "  "@)
        + "\n"@ + prefix + "  "@ + "reason"@ + ": "@ + spec_blocklist_reason_name(e.reason)
        + "\n"@
}

/// The YAML entry rendering as a function value.
pub open spec fn yaml_entry_fn(prefix: Seq<char>) -> spec_fn(BlocklistEntryV) -> Seq<char> {
    |e: BlocklistEntryV| spec_yaml_entry(e, prefix)
}

/// The YAML field lines of a reputation record.
pub open spec fn spec_yaml_blocklist(v: BlocklistRecordV, prefix: Seq<char>) -> Seq<char> {
    spec_yaml_line(prefix, "ip"@, spec_reindent(yaml_scalar_of(v.ip), prefix + "  "@))
        + spec_yaml_line(prefix, "blocked"@, spec_bool_text(v.blocked)) + if v.listed_in.len() == 0 {
        prefix + "listed_in"@ + ": []\n"@
    } else {
        prefix + "listed_in"@ + ":\n"@ + spec_concat_map(v.listed_in, yaml_entry_fn(prefix))
    }
}

/// The YAML form of the combined record.
pub open spec fn spec_yaml_all(v: AllResponseV) -> Seq<char> {
    spec_yaml_line(""@, "ip"@, spec_reindent(yaml_scalar_of(v.ip), ""@ + "  "@)) + spec_yaml_line(
        ""@,
        "reverse_dns"@,
        spec_reindent(yaml_scalar_of(v.reverse_dns), ""@ + "  "@),
    ) + spec_yaml_line(""@, "country"@, spec_reindent(yaml_scalar_of(v.country), ""@ + "  "@))
        + spec_yaml_line(
        ""@,
        "country_code"@,
        spec_reindent(yaml_scalar_of(v.country_code), ""@ + "  "@),
    ) + spec_yaml_line(""@, "region"@, spec_reindent(yaml_scalar_of(v.region), ""@ + "  "@))
        + spec_yaml_line(""@, "city"@, spec_reindent(yaml_scalar_of(v.city), ""@ + "  "@))
        + "asn"@ + ":\n"@ + spec_yaml_asn(v.asn, "  "@) + "blocklist"@ + ":\n"@
        + spec_yaml_blocklist(v.blocklist, "  "@)
}

// ---------------------------------------------------------------------
// Rendering helpers per record
// ---------------------------------------------------------------------

/// Appends a YAML field line `key: scalar`.
fn append_yaml_scalar_line(out: &mut String, prefix: &str, key: &str, value: &str) -> (r: Result<
    (),
    String,
>)
    ensures
        r is Ok,
        r is Ok ==> final(out)@ == old(out)@ + spec_yaml_line(
            prefix@,
            key@,
            spec_reindent(yaml_scalar_of(value@), prefix@ + "  "@),
        ),
{
    out.append(prefix);
    out.append(key);
    out.append(": ");
    let s = match yaml_scalar(value) {
        Ok(s) => s,
        Err(m) => {
            return Err(m);
        },
    };
    let mut ind = prefix.to_owned();
    ind.append("  ");
    append_reindented(out, s.as_str(), ind.as_str());
    out.append("\n");
    assert(final(out)@ =~= old(out)@ + spec_yaml_line(
        prefix@,
        key@,
        spec_reindent(yaml_scalar_of(value@), prefix@ + "  "@),
    ));
    Ok(())
}

/// Appends the YAML field lines of an ASN record.
fn append_yaml_asn(out: &mut String, v: &AsnRecord, prefix: &str) -> (r: Result<(), String>)
    ensures
        r is Ok,
        r is Ok ==> final(out)@ == old(out)@ + spec_yaml_asn(v@, prefix@),
{
    out.append(prefix);
    out.append("aso");
    out.append(": ");
    match &v.aso {
        Some(s) => {
            let q = match yaml_scalar(s.as_str()) {
                Ok(q) => q,
                Err(m) => {
                    return Err(m);
                },
            };
            let mut ind = prefix.to_owned();
            ind.append("  ");
            append_reindented(out, q.as_str(), ind.as_str());
        },
        None => {
            out.append("null");
        },
    }
    out.append("\n");
    out.append(prefix);
    out.append("asn");
    out.append(": ");
    match v.asn {
        Some(n) => {
            append_dec_u64(out, n as u64);
        },
        None => {
            out.append("null");
        },
    }
    out.append("\n");
    assert(final(out)@ =~= old(out)@ + spec_yaml_asn(v@, prefix@));
    Ok(())
}

/// Appends the YAML field lines of a reputation record.
#[verifier::rlimit(50)]
fn append_yaml_blocklist(out: &mut String, v: &BlocklistRecord, prefix: &str) -> (r: Result<
    (),
    String,
>)
    ensures
        r is Ok,
        r is Ok ==> final(out)@ == old(out)@ + spec_yaml_blocklist(v@, prefix@),
{
    match append_yaml_scalar_line(out, prefix, "ip", v.ip.as_str()) {
        Ok(()) => (),
        Err(m) => {
            return Err(m);
        },
    }
    out.append(prefix);
    out.append("blocked");
    out.append(": ");
    out.append(bool_text(v.blocked));
    out.append("\n");
    if v.listed_in.len() == 0 {
        out.append(prefix);
        out.append("listed_in");
        out.append(": []\n");
        assert(final(out)@ =~= old(out)@ + spec_yaml_blocklist(v@, prefix@));
    } else {
        out.append(prefix);
        out.append("listed_in");
        out.append(":\n");
        let ghost head = out@;
        let ghost model = v@.listed_in;
        let mut i: usize = 0;
        while i < v.listed_in.len()
            invariant
                i <= v.listed_in@.len(),
                model == v@.listed_in,
                model.len() == v.listed_in@.len(),
                out@ == head + spec_concat_map(model.take(i as int), yaml_entry_fn(prefix@)),
            decreases v.listed_in@.len() - i,
        {
            let e = &v.listed_in[i];
            out.append(prefix);
            out.append("- ");
            out.append("dnsbl");
            out.append(": ");
            let q = match yaml_scalar(e.dnsbl.as_str()) {
                Ok(q) => q,
                Err(m) => {
                    return Err(m);
                },
            };
            let mut ind = prefix.to_owned();
            ind.append("  ");
            append_reindented(out, q.as_str(), ind.as_str());
            out.append("\n");
            out.append(prefix);
            out.append("  ");
            out.append("reason");
            out.append(": ");
            out.append(e.reason.name());
            out.append("\n");
            i = i + 1;
            proof {
                lemma_concat_map_take(model, yaml_entry_fn(prefix@), i as int);
                assert(out@ =~= head + spec_concat_map(
                    model.take(i as int),
                    yaml_entry_fn(prefix@),
                ));
            }
        }
        proof {
            assert(model.take(model.len() as int) =~= model);
            assert(final(out)@ =~= old(out)@ + spec_yaml_blocklist(v@, prefix@));
        }
    }
    Ok(())
}

/// Appends the XML field elements of an ASN record.
fn append_xml_asn_fields(out: &mut String, v: &AsnRecord, pretty: bool, prefix: &str)
    ensures
        final(out)@ == old(out)@ + spec_xml_asn_fields(v@, pretty, prefix@),
{
    let aso: &str = match &v.aso {
        Some(s) => s.as_str(),
        None => "",
    };
    let asn = match v.asn {
        Some(n) => crate::text::u64_to_dec(n as u64),
        None => String::new(),
    };
    if pretty {
        append_xml_text_line(out, prefix, "aso", aso);
        append_xml_raw_line(out, prefix, "asn", asn.as_str());
    } else {
        append_xml_text_el(out, "aso", aso);
        append_xml_raw_el(out, "asn", asn.as_str());
    }
    proof {
        reveal_strlit("");
        assert(final(out)@ =~= old(out)@ + spec_xml_asn_fields(v@, pretty, prefix@));
    }
}

/// Appends the XML field elements of a reputation record.
#[verifier::rlimit(100)]
fn append_xml_blocklist_fields(out: &mut String, v: &BlocklistRecord, pretty: bool, prefix: &str)
    ensures
        final(out)@ == old(out)@ + spec_xml_blocklist_fields(v@, pretty, prefix@),
{
    if pretty {
        append_xml_text_line(out, prefix, "ip", v.ip.as_str());
        append_xml_raw_line(out, prefix, "blocked", bool_text(v.blocked));
    } else {
        append_xml_text_el(out, "ip", v.ip.as_str());
        append_xml_raw_el(out, "blocked", bool_text(v.blocked));
    }
    let ghost head = out@;
    let ghost model = v@.listed_in;
    let mut inner = prefix.to_owned();
    inner.append("  ");
    let mut i: usize = 0;
    while i < v.listed_in.len()
        invariant
            i <= v.listed_in@.len(),
            model == v@.listed_in,
            model.len() == v.listed_in@.len(),
            inner@ == prefix@ + "  "@,
            out@ == head + spec_concat_map(model.take(i as int), xml_entry_fn(pretty, prefix@)),
        decreases v.listed_in@.len() - i,
    {
        let e = &v.listed_in[i];
        if pretty {
            out.append(prefix);
            out.append("<listed_in>\n");
            append_xml_text_line(out, inner.as_str(), "dnsbl", e.dnsbl.as_str());
            append_xml_raw_line(out, inner.as_str(), "reason", e.reason.name());
            out.append(prefix);
            out.append("</listed_in>\n");
        } else {
            out.append("<listed_in>");
            append_xml_text_el(out, "dnsbl", e.dnsbl.as_str());
            append_xml_raw_el(out, "reason", e.reason.name());
            out.append("</listed_in>");
        }
        i = i + 1;
        proof {
            lemma_concat_map_take(model, xml_entry_fn(pretty, prefix@), i as int);
            assert(out@ =~= head + spec_concat_map(
                model.take(i as int),
                xml_entry_fn(pretty, prefix@),
            ));
        }
    }
    proof {
        assert(model.take(model.len() as int) =~= model);
        assert(final(out)@ =~= old(out)@ + spec_xml_blocklist_fields(v@, pretty, prefix@));
    }
}

/// Renders an ASN record as a JSON object.
fn json_asn_string(v: &AsnRecord, pretty: bool, indent: usize) -> (r: Result<String, String>)
    requires
        indent + 2 <= usize::MAX,
    ensures
        r is Ok,
        r matches Ok(s) ==> s@ == spec_json_asn(v@, pretty, indent as nat),
{
    let aso = match json_opt_string(&v.aso) {
        Ok(q) => q,
        Err(m) => {
            return Err(m);
        },
    };
    let asn = json_opt_u32(&v.asn);
    let mut fields: Vec<(String, String)> = Vec::new();
    fields.push(("aso".to_owned(), aso));
    fields.push(("asn".to_owned(), asn));
    proof {
        assert(fields.deep_view() =~~= seq![
            ("aso"@, spec_json_opt_string(v@.aso)),
            ("asn"@, spec_json_opt_u32(v@.asn)),
        ]);
    }
    Ok(json_object(&fields, pretty, indent))
}

/// Renders a reputation record as a JSON object.
#[verifier::rlimit(50)]
fn json_blocklist_string(v: &BlocklistRecord, pretty: bool, indent: usize) -> (r: Result<
    String,
    String,
>)
    requires
        indent + 8 <= usize::MAX,
    ensures
        r is Ok,
        r matches Ok(s) ==> s@ == spec_json_blocklist(v@, pretty, indent as nat),
{
    let ghost model = v@.listed_in;
    let ghost f = json_entry_fn(pretty, indent as nat + 4);
    let mut items: Vec<String> = Vec::new();
    let mut i: usize = 0;
    while i < v.listed_in.len()
        invariant
            i <= v.listed_in@.len(),
            model == v@.listed_in,
            model.len() == v.listed_in@.len(),
            f == json_entry_fn(pretty, indent as nat + 4),
            indent + 8 <= usize::MAX,
            items@.len() == i as int,
            items.deep_view() =~~= model.map_values(f).take(i as int),
        decreases v.listed_in@.len() - i,
    {
        let e = &v.listed_in[i];
        let dq = match json_quote(e.dnsbl.as_str()) {
            Ok(q) => q,
            Err(m) => {
                return Err(m);
            },
        };
        let rq = match json_quote(e.reason.name()) {
            Ok(q) => q,
            Err(m) => {
                return Err(m);
            },
        };
        let mut ef: Vec<(String, String)> = Vec::new();
        ef.push(("dnsbl".to_owned(), dq));
        ef.push(("reason".to_owned(), rq));
        proof {
            assert(ef.deep_view() =~~= seq![
                ("dnsbl"@, json_string_of(model[i as int].dnsbl)),
                ("reason"@, json_string_of(spec_blocklist_reason_name(model[i as int].reason))),
            ]);
        }
        let item = json_object(&ef, pretty, indent + 4);
        items.push(item);
        i = i + 1;
        proof {
            assert(items.deep_view() =~~= model.map_values(f).take(i as int));
        }
    }
    proof {
        assert(model.map_values(f).take(model.len() as int) =~= model.map_values(f));
    }
    let arr = json_array(&items, pretty, indent + 2);
    let ipq = match json_quote(v.ip.as_str()) {
        Ok(q) => q,
        Err(m) => {
            return Err(m);
        },
    };
    let mut fields: Vec<(String, String)> = Vec::new();
    fields.push(("ip".to_owned(), ipq));
    fields.push(("blocked".to_owned(), bool_text(v.blocked).to_owned()));
    fields.push(("listed_in".to_owned(), arr));
    proof {
        assert(fields.deep_view() =~~= seq![
            ("ip"@, json_string_of(v@.ip)),
            ("blocked"@, spec_bool_text(v@.blocked)),
            (
                "listed_in"@,
                spec_json_array(
                    v@.listed_in.map_values(json_entry_fn(pretty, indent as nat + 4)),
                    pretty,
                    indent as nat + 2,
                ),
            ),
        ]);
    }
    Ok(json_object(&fields, pretty, indent))
}

// ---------------------------------------------------------------------
// The structured projection
// ---------------------------------------------------------------------

/// The structured wire forms of a response record: JSON, XML, YAML and
/// MessagePack, each pinned to its exact rendering.
pub trait Structured {
    /// The exact JSON text of the value.
    spec fn json_view(&self, pretty: bool) -> Seq<char>;

    /// Renders the value as JSON; the rendering cannot fail.
    fn to_json(&self, pretty: bool) -> (r: Result<String, String>)
        ensures
            r is Ok,
            r matches Ok(s) ==> s@ == self.json_view(pretty),
    ;

    /// The exact XML text of the value.
    spec fn xml_view(&self, pretty: bool) -> Seq<char>;

    /// Renders the value as XML; the rendering cannot fail.
    fn to_xml(&self, pretty: bool) -> (r: String)
        ensures
            r@ == self.xml_view(pretty),
    ;

    /// The exact YAML text of the value.
    spec fn yaml_view(&self) -> Seq<char>;

    /// Renders the value as YAML; the rendering cannot fail.
    fn to_yaml(&self) -> (r: Result<String, String>)
        ensures
            r is Ok,
            r matches Ok(s) ==> s@ == self.yaml_view(),
    ;

    /// The exact MessagePack bytes of the value.
    spec fn msgpack_view(&self) -> Seq<u8>;

    /// Packs the value as MessagePack; the packing cannot fail.
    fn to_msgpack(&self) -> (r: Result<Vec<u8>, String>)
        ensures
            r is Ok,
            r matches Ok(b) ==> b@ == self.msgpack_view(),
    ;
}

impl Structured for SimpleResponse {
    open spec fn json_view(&self, pretty: bool) -> Seq<char> {
        spec_json_simple(self@, pretty, 0)
    }

    fn to_json(&self, pretty: bool) -> (r: Result<String, String>) {
        let q = match json_quote(self.value.as_str()) {
            Ok(q) => q,
            Err(m) => {
                return Err(m);
            },
        };
        let mut fields: Vec<(String, String)> = Vec::new();
        fields.push(("value".to_owned(), q));
        proof {
            assert(fields.deep_view() =~~= seq![("value"@, json_string_of(self@.value))]);
        }
        Ok(json_object(&fields, pretty, 0))
    }

    open spec fn xml_view(&self, pretty: bool) -> Seq<char> {
        spec_xml_simple(self@, pretty)
    }

    fn to_xml(&self, pretty: bool) -> (r: String) {
        let mut out = "<?xml version=\"1.0\" encoding=\"utf-8\"?>".to_owned();
        if pretty {
            out.append("\n<SimpleResponse>\n");
            append_xml_text_line(&mut out, "  ", "value", self.value.as_str());
            out.append("</SimpleResponse>");
        } else {
            out.append("<SimpleResponse>");
            append_xml_text_el(&mut out, "value", self.value.as_str());
            out.append("</SimpleResponse>");
        }
        proof {
            assert(out@ =~= self.xml_view(pretty));
        }
        out
    }

    open spec fn yaml_view(&self) -> Seq<char> {
        spec_yaml_simple(self@)
    }

    fn to_yaml(&self) -> (r: Result<String, String>) {
        let mut out = String::new();
        match append_yaml_scalar_line(&mut out, "", "value", self.value.as_str()) {
            Ok(()) => (),
            Err(m) => {
                return Err(m);
            },
        }
        proof {
            reveal_strlit("");
            assert(out@ =~= self.yaml_view());
        }
        Ok(out)
    }

    open spec fn msgpack_view(&self) -> Seq<u8> {
        msgpack_simple_of(self@.value)
    }

    fn to_msgpack(&self) -> (r: Result<Vec<u8>, String>) {
        msgpack_simple(self)
    }
}

impl Structured for AsnRecord {
    open spec fn json_view(&self, pretty: bool) -> Seq<char> {
        spec_json_asn(self@, pretty, 0)
    }

    fn to_json(&self, pretty: bool) -> (r: Result<String, String>) {
        json_asn_string(self, pretty, 0)
    }

    open spec fn xml_view(&self, pretty: bool) -> Seq<char> {
        spec_xml_asn(self@, pretty)
    }

    fn to_xml(&self, pretty: bool) -> (r: String) {
        let mut out = "<?xml version=\"1.0\" encoding=\"utf-8\"?>".to_owned();
        if pretty {
            out.append("\n<AsnRecord>\n");
            append_xml_asn_fields(&mut out, self, true, "  ");
            out.append("</AsnRecord>");
        } else {
            out.append("<AsnRecord>");
            append_xml_asn_fields(&mut out, self, false, "");
            out.append("</AsnRecord>");
        }
        proof {
            assert(out@ =~= self.xml_view(pretty));
        }
        out
    }

    open spec fn yaml_view(&self) -> Seq<char> {
        spec_yaml_asn(self@, ""@)
    }

    fn to_yaml(&self) -> (r: Result<String, String>) {
        let mut out = String::new();
        match append_yaml_asn(&mut out, self, "") {
            Ok(()) => (),
            Err(m) => {
                return Err(m);
            },
        }
        Ok(out)
    }

    open spec fn msgpack_view(&self) -> Seq<u8> {
        msgpack_asn_of(self@.aso, self@.asn)
    }

    fn to_msgpack(&self) -> (r: Result<Vec<u8>, String>) {
        msgpack_asn(self)
    }
}

impl Structured for BlocklistRecord {
    open spec fn json_view(&self, pretty: bool) -> Seq<char> {
        spec_json_blocklist(self@, pretty, 0)
    }

    fn to_json(&self, pretty: bool) -> (r: Result<String, String>) {
        json_blocklist_string(self, pretty, 0)
    }

    open spec fn xml_view(&self, pretty: bool) -> Seq<char> {
        spec_xml_blocklist(self@, pretty)
    }

    fn to_xml(&self, pretty: bool) -> (r: String) {
        let mut out = "<?xml version=\"1.0\" encoding=\"utf-8\"?>".to_owned();
        if pretty {
            out.append("\n<BlocklistRecord>\n");
            append_xml_blocklist_fields(&mut out, self, true, "  ");
            out.append("</BlocklistRecord>");
        } else {
            out.append("<BlocklistRecord>");
            append_xml_blocklist_fields(&mut out, self, false, "");
            out.append("</BlocklistRecord>");
        }
        proof {
            assert(out@ =~= self.xml_view(pretty));
        }
        out
    }

    open spec fn yaml_view(&self) -> Seq<char> {
        spec_yaml_blocklist(self@, ""@)
    }

    fn to_yaml(&self) -> (r: Result<String, String>) {
        let mut out = String::new();
        match append_yaml_blocklist(&mut out, self, "") {
            Ok(()) => (),
            Err(m) => {
                return Err(m);
            },
        }
        Ok(out)
    }

    open spec fn msgpack_view(&self) -> Seq<u8> {
        msgpack_blocklist_of(self@.ip, self@.blocked, spec_entry_pairs(self@.listed_in))
    }

    fn to_msgpack(&self) -> (r: Result<Vec<u8>, String>) {
        let pairs = entry_pairs(&self.listed_in);
        msgpack_blocklist(&self.ip, self.blocked, &pairs)
    }
}

impl Structured for AllResponse {
    open spec fn json_view(&self, pretty: bool) -> Seq<char> {
        spec_json_all(self@, pretty, 0)
    }

    fn to_json(&self, pretty: bool) -> (r: Result<String, String>) {
        let ipq = match json_quote(self.ip.as_str()) {
            Ok(q) => q,
            Err(m) => {
                return Err(m);
            },
        };
        let rdq = match json_quote(self.reverse_dns.as_str()) {
            Ok(q) => q,
            Err(m) => {
                return Err(m);
            },
        };
        let cq = match json_quote(self.country.as_str()) {
            Ok(q) => q,
            Err(m) => {
                return Err(m);
            },
        };
        let ccq = match json_quote(self.country_code.as_str()) {
            Ok(q) => q,
            Err(m) => {
                return Err(m);
            },
        };
        let rq = match json_quote(self.region.as_str()) {
            Ok(q) => q,
            Err(m) => {
                return Err(m);
            },
        };
        let cityq = match json_quote(self.city.as_str()) {
            Ok(q) => q,
            Err(m) => {
                return Err(m);
            },
        };
        let asnj = match json_asn_string(&self.asn, pretty, 2) {
            Ok(s) => s,
            Err(m) => {
                return Err(m);
            },
        };
        let blj = match json_blocklist_string(&self.blocklist, pretty, 2) {
            Ok(s) => s,
            Err(m) => {
                return Err(m);
            },
        };
        let mut fields: Vec<(String, String)> = Vec::new();
        fields.push(("ip".to_owned(), ipq));
        fields.push(("reverse_dns".to_owned(), rdq));
        fields.push(("country".to_owned(), cq));
        fields.push(("country_code".to_owned(), ccq));
        fields.push(("region".to_owned(), rq));
        fields.push(("city".to_owned(), cityq));
        fields.push(("asn".to_owned(), asnj));
        fields.push(("blocklist".to_owned(), blj));
        proof {
            assert(fields.deep_view() =~~= seq![
                ("ip"@, json_string_of(self@.ip)),
                ("reverse_dns"@, json_string_of(self@.reverse_dns)),
                ("country"@, json_string_of(self@.country)),
                ("country_code"@, json_string_of(self@.country_code)),
                ("region"@, json_string_of(self@.region)),
                ("city"@, json_string_of(self@.city)),
                ("asn"@, spec_json_asn(self@.asn, pretty, 2)),
                ("blocklist"@, spec_json_blocklist(self@.blocklist, pretty, 2)),
            ]);
        }
        Ok(json_object(&fields, pretty, 0))
    }

    open spec fn xml_view(&self, pretty: bool) -> Seq<char> {
        spec_xml_all(self@, pretty)
    }

    fn to_xml(&self, pretty: bool) -> (r: String) {
        let mut out = "<?xml version=\"1.0\" encoding=\"utf-8\"?>".to_owned();
        if pretty {
            out.append("\n<AllResponse>\n");
            append_xml_text_line(&mut out, "  ", "ip", self.ip.as_str());
            append_xml_text_line(&mut out, "  ", "reverse_dns", self.reverse_dns.as_str());
            append_xml_text_line(&mut out, "  ", "country", self.country.as_str());
            append_xml_text_line(&mut out, "  ", "country_code", self.country_code.as_str());
            append_xml_text_line(&mut out, "  ", "region", self.region.as_str());
            append_xml_text_line(&mut out, "  ", "city", self.city.as_str());
            out.append("  <asn>\n");
            append_xml_asn_fields(&mut out, &self.asn, true, "    ");
            out.append("  </asn>\n");
            out.append("  <blocklist>\n");
            append_xml_blocklist_fields(&mut out, &self.blocklist, true, "    ");
            out.append("  </blocklist>\n");
            out.append("</AllResponse>");
        } else {
            out.append("<AllResponse>");
            append_xml_text_el(&mut out, "ip", self.ip.as_str());
            append_xml_text_el(&mut out, "reverse_dns", self.reverse_dns.as_str());
            append_xml_text_el(&mut out, "country", self.country.as_str());
            append_xml_text_el(&mut out, "country_code", self.country_code.as_str());
            append_xml_text_el(&mut out, "region", self.region.as_str());
            append_xml_text_el(&mut out, "city", self.city.as_str());
            out.append("<asn>");
            append_xml_asn_fields(&mut out, &self.asn, false, "");
            out.append("</asn>");
            out.append("<blocklist>");
            append_xml_blocklist_fields(&mut out, &self.blocklist, false, "");
            out.append("</blocklist>");
            out.append("</AllResponse>");
        }
        proof {
            assert(out@ =~= self.xml_view(pretty));
        }
        out
    }

    open spec fn yaml_view(&self) -> Seq<char> {
        spec_yaml_all(self@)
    }

    fn to_yaml(&self) -> (r: Result<String, String>) {
        let mut out = String::new();
        match append_yaml_scalar_line(&mut out, "", "ip", self.ip.as_str()) {
            Ok(()) => (),
            Err(m) => {
                return Err(m);
            },
        }
        match append_yaml_scalar_line(&mut out, "", "reverse_dns", self.reverse_dns.as_str()) {
            Ok(()) => (),
            Err(m) => {
                return Err(m);
            },
        }
        match append_yaml_scalar_line(&mut out, "", "country", self.country.as_str()) {
            Ok(()) => (),
            Err(m) => {
                return Err(m);
            },
        }
        match append_yaml_scalar_line(&mut out, "", "country_code", self.country_code.as_str()) {
            Ok(()) => (),
            Err(m) => {
                return Err(m);
            },
        }
        match append_yaml_scalar_line(&mut out, "", "region", self.region.as_str()) {
            Ok(()) => (),
            Err(m) => {
                return Err(m);
            },
        }
        match append_yaml_scalar_line(&mut out, "", "city", self.city.as_str()) {
            Ok(()) => (),
            Err(m) => {
                return Err(m);
            },
        }
        out.append("asn");
        out.append(":\n");
        match append_yaml_asn(&mut out, &self.asn, "  ") {
            Ok(()) => (),
            Err(m) => {
                return Err(m);
            },
        }
        out.append("blocklist");
        out.append(":\n");
        match append_yaml_blocklist(&mut out, &self.blocklist, "  ") {
            Ok(()) => (),
            Err(m) => {
                return Err(m);
            },
        }
        proof {
            reveal_strlit("");
            assert(out@ =~= self.yaml_view());
        }
        Ok(out)
    }

    open spec fn msgpack_view(&self) -> Seq<u8> {
        msgpack_all_of(
            self@.ip,
            self@.reverse_dns,
            self@.country,
            self@.country_code,
            self@.region,
            self@.city,
            self@.asn.aso,
            self@.asn.asn,
            self@.blocklist.ip,
            self@.blocklist.blocked,
            spec_entry_pairs(self@.blocklist.listed_in),
        )
    }

    fn to_msgpack(&self) -> (r: Result<Vec<u8>, String>) {
        let pairs = entry_pairs(&self.blocklist.listed_in);
        msgpack_all(
            &self.ip,
            &self.reverse_dns,
            &self.country,
            &self.country_code,
            &self.region,
            &self.city,
            &self.asn.aso,
            &self.asn.asn,
            &self.blocklist.ip,
            self.blocklist.blocked,
            &pairs,
        )
    }
}

// ---------------------------------------------------------------------
// CSV rows and the encoder
// ---------------------------------------------------------------------

/// A flat record type that CSV output is built from: a fixed header row
/// and one field row per value.
pub trait CsvRow: DeepView {
    /// The header fields.
    spec fn spec_header() -> Seq<Seq<char>>;

    /// The field texts of one row.
    spec fn spec_fields(v: Self::V) -> Seq<Seq<char>>;

    /// Produces the header fields.
    fn header() -> (r: Vec<String>)
        ensures
            r.deep_view() == Self::spec_header(),
    ;

    /// Produces the row's field texts.
    fn fields(&self) -> (r: Vec<String>)
        ensures
            r.deep_view() == Self::spec_fields(self.deep_view()),
    ;
}

impl CsvRow for SimpleResponse {
    open spec fn spec_header() -> Seq<Seq<char>> {
        seq!["value"@]
    }

    open spec fn spec_fields(v: SimpleResponseV) -> Seq<Seq<char>> {
        seq![v.value]
    }

    fn header() -> (r: Vec<String>) {
        let mut v: Vec<String> = Vec::new();
        v.push("value".to_owned());
        proof {
            assert(v.deep_view() =~~= Self::spec_header());
        }
        v
    }

    fn fields(&self) -> (r: Vec<String>) {
        let mut v: Vec<String> = Vec::new();
        v.push(self.value.clone());
        proof {
            assert(v.deep_view() =~~= Self::spec_fields(self.deep_view()));
        }
        v
    }
}

impl CsvRow for AsnRecord {
    open spec fn spec_header() -> Seq<Seq<char>> {
        seq!["aso"@, "asn"@]
    }

    open spec fn spec_fields(v: AsnRecordV) -> Seq<Seq<char>> {
        seq![
            match v.aso {
                Some(s) => s,
                None => Seq::empty(),
            },
            match v.asn {
                Some(n) => dec_of(n as nat),
                None => Seq::empty(),
            },
        ]
    }

    fn header() -> (r: Vec<String>) {
        let mut v: Vec<String> = Vec::new();
        v.push("aso".to_owned());
        v.push("asn".to_owned());
        proof {
            assert(v.deep_view() =~~= Self::spec_header());
        }
        v
    }

    fn fields(&self) -> (r: Vec<String>) {
        let mut v: Vec<String> = Vec::new();
        v.push(
            match &self.aso {
                Some(s) => s.clone(),
                None => String::new(),
            },
        );
        v.push(
            match self.asn {
                Some(n) => crate::text::u64_to_dec(n as u64),
                None => String::new(),
            },
        );
        proof {
            assert(v.deep_view() =~~= Self::spec_fields(self.deep_view()));
        }
        v
    }
}

impl CsvRow for BlocklistCsvEntry {
    open spec fn spec_header() -> Seq<Seq<char>> {
        seq!["ip"@, "dnsbl"@, "reason"@]
    }

    open spec fn spec_fields(v: BlocklistCsvEntryV) -> Seq<Seq<char>> {
        seq![v.ip, v.dnsbl, spec_blocklist_reason_name(v.reason)]
    }

    fn header() -> (r: Vec<String>) {
        let mut v: Vec<String> = Vec::new();
        v.push("ip".to_owned());
        v.push("dnsbl".to_owned());
        v.push("reason".to_owned());
        proof {
            assert(v.deep_view() =~~= Self::spec_header());
        }
        v
    }

    fn fields(&self) -> (r: Vec<String>) {
        let mut v: Vec<String> = Vec::new();
        v.push(self.ip.clone());
        v.push(self.dnsbl.clone());
        v.push(self.reason.name().to_owned());
        proof {
            assert(v.deep_view() =~~= Self::spec_fields(self.deep_view()));
        }
        v
    }
}

impl CsvRow for CsvInfoEntry {
    open spec fn spec_header() -> Seq<Seq<char>> {
        seq![
            "ip"@,
            "reverse_dns"@,
            "country"@,
            "country_code"@,
            "region"@,
            "city"@,
            "asn"@,
            "aso"@,
            "blocked"@,
            "blocklist_listed_in"@,
        ]
    }

    open spec fn spec_fields(v: CsvInfoEntryV) -> Seq<Seq<char>> {
        seq![
            v.ip,
            v.reverse_dns,
            v.country,
            v.country_code,
            v.region,
            v.city,
            dec_of(v.asn as nat),
            v.aso,
            spec_bool_text(v.blocked),
            v.blocklist_listed_in,
        ]
    }

    fn header() -> (r: Vec<String>) {
        let mut v: Vec<String> = Vec::new();
        v.push("ip".to_owned());
        v.push("reverse_dns".to_owned());
        v.push("country".to_owned());
        v.push("country_code".to_owned());
        v.push("region".to_owned());
        v.push("city".to_owned());
        v.push("asn".to_owned());
        v.push("aso".to_owned());
        v.push("blocked".to_owned());
        v.push("blocklist_listed_in".to_owned());
        proof {
            assert(v.deep_view() =~~= Self::spec_header());
        }
        v
    }

    fn fields(&self) -> (r: Vec<String>) {
        let mut v: Vec<String> = Vec::new();
        v.push(self.ip.clone());
        v.push(self.reverse_dns.clone());
        v.push(self.country.clone());
        v.push(self.country_code.clone());
        v.push(self.region.clone());
        v.push(self.city.clone());
        v.push(crate::text::u64_to_dec(self.asn as u64));
        v.push(self.aso.clone());
        v.push(bool_text(self.blocked).to_owned());
        v.push(self.blocklist_listed_in.clone());
        proof {
            assert(v.deep_view() =~~= Self::spec_fields(self.deep_view()));
        }
        v
    }
}

/// One row's bytes, as a function value.
pub open spec fn csv_row_fn<R: CsvRow>() -> spec_fn(R::V) -> Seq<u8> {
    |v: R::V| csv_record_of(R::spec_fields(v))
}

/// The whole CSV body: the header record, then one record per row.
pub open spec fn spec_csv_body<R: CsvRow>(rows: Seq<R::V>) -> Seq<u8> {
    csv_record_of(R::spec_header()) + spec_concat_map(rows, csv_row_fn::<R>())
}

/// Encodes a value's flattened rows as CSV: one header record followed
/// by the data records.
fn encode_csv<T: ToCsv<R>, R: CsvRow>(data: &T) -> (r: Encoded)
    ensures
        r is Binary,
        r matches Encoded::Binary { content_type, bytes } ==> content_type@ == "text/csv"@
            && bytes@ == spec_csv_body::<R>(data.csv_rows()),
{
    let mut w = csv_writer_new();
    let header = R::header();
    match csv_write_row(&mut w, &header) {
        Ok(()) => (),
        Err(m) => {
            return Encoded::Internal { message: m };
        },
    }
    let entries = data.to_csv_entries();
    let ghost rows = data.csv_rows();
    let mut i: usize = 0;
    while i < entries.len()
        invariant
            i <= entries@.len(),
            entries.deep_view() == rows,
            rows.len() == entries@.len(),
            csv_buf(w) == csv_record_of(R::spec_header()) + spec_concat_map(
                rows.take(i as int),
                csv_row_fn::<R>(),
            ),
        decreases entries@.len() - i,
    {
        let fields = entries[i].fields();
        match csv_write_row(&mut w, &fields) {
            Ok(()) => (),
            Err(m) => {
                return Encoded::Internal { message: m };
            },
        }
        i = i + 1;
        proof {
            lemma_concat_map_take(rows, csv_row_fn::<R>(), i as int);
            assert(entries.deep_view()[i - 1] == entries@[i - 1].deep_view());
            assert(csv_buf(w) == csv_record_of(R::spec_header()) + spec_concat_map(
                rows.take(i as int),
                csv_row_fn::<R>(),
            ));
        }
    }
    proof {
        assert(rows.take(rows.len() as int) =~= rows);
    }
    match csv_into_bytes(w) {
        Ok(bytes) => Encoded::Binary { content_type: "text/csv".to_owned(), bytes },
        Err(m) => Encoded::Internal { message: m },
    }
}

/// Encodes a response value in the resolved format: picks the value's
/// rendering for that format, frames it, and pairs it with the format's
/// content type. Encoding always succeeds for these records — the
/// serializer calls are proven not to fail on them — so the outcome is
/// fully determined by the format, the value and the pretty flag. A
/// reported serializer failure would surface as `Internal` carrying the
/// serializer's message; the contract shows that arm is never taken.
pub fn format_response<T: ToPlainText + ToCsv<R> + Structured, R: CsvRow>(
    format: &Format,
    data: &T,
    pretty: bool,
) -> (r: Encoded)
    ensures
        *format == Format::Json ==> r is Text,
        *format == Format::Json ==> (r matches Encoded::Text { content_type, body }
            ==> content_type@ == "application/json"@ && body@ == data.json_view(pretty) + "\n"@),
        *format == Format::Xml ==> r is Text,
        *format == Format::Xml ==> (r matches Encoded::Text { content_type, body }
            ==> content_type@ == "application/xml"@ && body@ == data.xml_view(pretty) + "\n"@),
        *format == Format::Yaml ==> r is Text,
        *format == Format::Yaml ==> (r matches Encoded::Text { content_type, body }
            ==> content_type@ == "application/x-yaml"@ && body@ == data.yaml_view()),
        *format == Format::Msgpack ==> r is Binary,
        *format == Format::Msgpack ==> (r matches Encoded::Binary { content_type, bytes }
            ==> content_type@ == "application/msgpack"@ && bytes@ == data.msgpack_view()),
        *format == Format::Csv ==> r is Binary,
        *format == Format::Csv ==> (r matches Encoded::Binary { content_type, bytes }
            ==> content_type@ == "text/csv"@ && bytes@ == spec_csv_body::<R>(data.csv_rows())),
        *format == Format::Plain ==> r is Text,
        *format == Format::Plain ==> (r matches Encoded::Text { content_type, body }
            ==> content_type@ == "text/plain"@ && body@ == data.plain_view() + "\n"@),
{
    match format {
        Format::Json => {
            match data.to_json(pretty) {
                Ok(body) => {
                    let mut b = body;
                    b.append("\n");
                    Encoded::Text { content_type: "application/json".to_owned(), body: b }
                },
                Err(m) => Encoded::Internal { message: m },
            }
        },
        Format::Xml => {
            let mut b = data.to_xml(pretty);
            b.append("\n");
            Encoded::Text { content_type: "application/xml".to_owned(), body: b }
        },
        Format::Yaml => {
            match data.to_yaml() {
                Ok(body) => {
                    Encoded::Text { content_type: "application/x-yaml".to_owned(), body }
                },
                Err(m) => Encoded::Internal { message: m },
            }
        },
        Format::Msgpack => {
            match data.to_msgpack() {
                Ok(bytes) => {
                    Encoded::Binary { content_type: "application/msgpack".to_owned(), bytes }
                },
                Err(m) => Encoded::Internal { message: m },
            }
        },
        Format::Csv => encode_csv(data),
        Format::Plain => {
            let mut b = data.to_plain_text();
            b.append("\n");
            Encoded::Text { content_type: "text/plain".to_owned(), body: b }
        },
    }
}

} // verus!
