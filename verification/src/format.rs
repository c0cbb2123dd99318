//! Output-format negotiation: which wire representation a request asked
//! for, read from a path suffix or from the `Accept` header, and the
//! canonical path with a recognized suffix stripped.

use vstd::prelude::*;
use crate::text::{str_eq, push_char};

verus! {

/// The closed set of wire formats the service can produce.
#[derive(Clone, Copy, Debug, PartialEq, Eq, Structural)]
pub enum Format {
    Json,
    Xml,
    Csv,
    Yaml,
    Msgpack,
    Plain,
}

/// Lowercases one ASCII letter; other characters are unchanged.
pub open spec fn lower_char(c: char) -> char {
    if 65 <= c as int <= 90 {
        ((c as int + 32) as u8) as char
    } else {
        c
    }
}

/// ASCII-lowercases every character of a sequence.
pub open spec fn lower_seq(s: Seq<char>) -> Seq<char> {
    Seq::new(s.len(), |i: int| lower_char(s[i]))
}

/// ASCII-lowercases a string slice.
pub fn to_ascii_lower(s: &str) -> (r: String)
    ensures
        r@ == lower_seq(s@),
{
    let n = s.unicode_len();
    let mut out = String::new();
    let mut i: usize = 0;
    while i < n
        invariant
            i <= n,
            n == s@.len(),
            out@ == lower_seq(s@).subrange(0, i as int),
        decreases n - i,
    {
        let c = s.get_char(i);
        let u = c as u32;
        if 65 <= u && u <= 90 {
            let lc: char = ((u + 32) as u8) as char;
            push_char(&mut out, lc);
        } else {
            push_char(&mut out, c);
        }
        i = i + 1;
        assert(out@ =~= lower_seq(s@).subrange(0, i as int));
    }
    assert(out@ =~= lower_seq(s@));
    out
}

/// Index of the first occurrence of `c` at or after `from`, or the length
/// of the sequence if there is none.
pub open spec fn spec_find(s: Seq<char>, c: char, from: int) -> int
    decreases s.len() - from when 0 <= from <= s.len()
{
    if from >= s.len() {
        s.len() as int
    } else if s[from] == c {
        from
    } else {
        spec_find(s, c, from + 1)
    }
}

/// Index of the last occurrence of `c` at or before `upto`, or -1 if
/// there is none.
pub open spec fn spec_rfind(s: Seq<char>, c: char, upto: int) -> int
    decreases upto + 1 when upto < s.len()
{
    if upto < 0 {
        -1
    } else if s[upto] == c {
        upto
    } else {
        spec_rfind(s, c, upto - 1)
    }
}

/// Finds the first occurrence of `c` at or after `from`.
pub fn find_char_at(s: &str, c: char, from: usize) -> (r: usize)
    requires
        from <= s@.len(),
    ensures
        r == spec_find(s@, c, from as int),
        from <= r <= s@.len(),
        r < s@.len() ==> s@[r as int] == c,
{
    let n = s.unicode_len();
    let mut i = from;
    while i < n
        invariant
            from <= i <= n,
            n == s@.len(),
            spec_find(s@, c, from as int) == spec_find(s@, c, i as int),
        decreases n - i,
    {
        if s.get_char(i) == c {
            return i;
        }
        i = i + 1;
    }
    n
}

/// Finds the last occurrence of `c` in `s`.
pub fn rfind_char(s: &str, c: char) -> (r: Option<usize>)
    ensures
        match r {
            Some(j) => j == spec_rfind(s@, c, s@.len() - 1) && j < s@.len() && s@[j as int] == c,
            None => spec_rfind(s@, c, s@.len() - 1) == -1,
        },
{
    let n = s.unicode_len();
    let mut i = n;
    loop
        invariant
            i <= n,
            n == s@.len(),
            spec_rfind(s@, c, n as int - 1) == spec_rfind(s@, c, i as int - 1),
        decreases i,
    {
        if i == 0 {
            return None;
        }
        i = i - 1;
        if s.get_char(i) == c {
            return Some(i);
        }
    }
}

/// `spec_rfind` stays within `[-1, upto]` and lands on `c` when it finds
/// anything.
pub proof fn lemma_rfind_bounds(s: Seq<char>, c: char, upto: int)
    requires
        -1 <= upto < s.len(),
    ensures
        -1 <= spec_rfind(s, c, upto) <= upto,
        spec_rfind(s, c, upto) >= 0 ==> s[spec_rfind(s, c, upto)] == c,
    decreases upto + 1,
{
    if upto >= 0 && s[upto] != c {
        lemma_rfind_bounds(s, c, upto - 1);
    }
}

/// The format a lowercase extension token selects; anything unrecognized
/// yields `Plain`.
pub open spec fn spec_format_of_ext(token: Seq<char>) -> Format {
    let t = lower_seq(token);
    if t == "json"@ {
        Format::Json
    } else if t == "xml"@ {
        Format::Xml
    } else if t == "csv"@ {
        Format::Csv
    } else if t == "yaml"@ || t == "yml"@ {
        Format::Yaml
    } else if t == "msgpack"@ {
        Format::Msgpack
    } else {
        Format::Plain
    }
}

/// The extension token of a path: the text after the last `.` of the last
/// path segment, provided that `.` is not the segment's final character.
pub open spec fn spec_path_ext(path: Seq<char>) -> Option<Seq<char>> {
    let seg_start = spec_rfind(path, '/', path.len() - 1) + 1;
    let dot = spec_rfind(path, '.', path.len() - 1);
    if dot >= seg_start && dot < path.len() - 1 {
        Some(path.subrange(dot + 1, path.len() as int))
    } else {
        None
    }
}

/// The format selected by a path, together with the recognized extension
/// token that selected it. An unrecognized or absent extension yields
/// `Plain` with the empty token.
pub open spec fn spec_from_path(path: Seq<char>) -> (Format, Seq<char>) {
    match spec_path_ext(path) {
        Some(tok) => {
            if spec_format_of_ext(tok) == Format::Plain {
                (Format::Plain, ""@)
            } else {
                (spec_format_of_ext(tok), tok)
            }
        },
        None => (Format::Plain, ""@),
    }
}

impl Format {
    /// Maps an extension token, case-insensitively, through the fixed
    /// extension table; unrecognized tokens yield `Plain`.
    pub fn from_extension(token: &str) -> (r: Format)
        ensures
            r == spec_format_of_ext(token@),
    {
        let t = to_ascii_lower(token);
        let ts = t.as_str();
        if str_eq(ts, "json") {
            Format::Json
        } else if str_eq(ts, "xml") {
            Format::Xml
        } else if str_eq(ts, "csv") {
            Format::Csv
        } else if str_eq(ts, "yaml") || str_eq(ts, "yml") {
            Format::Yaml
        } else if str_eq(ts, "msgpack") {
            Format::Msgpack
        } else {
            Format::Plain
        }
    }

    /// Extracts the trailing extension token of the path's last segment
    /// and maps it through the extension table. Returns the format and
    /// the recognized token; an unrecognized or absent extension yields
    /// `Plain` with the empty token.
    pub fn from_path(path: &str) -> (r: (Format, &str))
        ensures
            (r.0, r.1@) == spec_from_path(path@),
    {
        let n = path.unicode_len();
        let seg_start = match rfind_char(path, '/') {
            Some(j) => j + 1,
            None => 0,
        };
        let dot = match rfind_char(path, '.') {
            Some(j) => j,
            None => {
                return (Format::Plain, "");
            },
        };
        if dot >= seg_start && dot + 1 < n {
            let token = path.substring_char(dot + 1, n);
            let format = Format::from_extension(token);
            if matches!(format, Format::Plain) {
                (Format::Plain, "")
            } else {
                (format, token)
            }
        } else {
            (Format::Plain, "")
        }
    }

    /// The canonical lowercase extension token of this format; empty for
    /// `Plain`.
    pub fn extension_token(&self) -> (r: &'static str)
        ensures
            r@ == spec_extension_token(*self),
    {
        match self {
            Format::Json => "json",
            Format::Xml => "xml",
            Format::Csv => "csv",
            Format::Yaml => "yaml",
            Format::Msgpack => "msgpack",
            Format::Plain => "",
        }
    }

    /// The content type of responses in this format.
    pub fn content_type(&self) -> (r: &'static str)
        ensures
            r@ == spec_content_type(*self),
    {
        match self {
            Format::Json => "application/json",
            Format::Xml => "application/xml",
            Format::Csv => "text/csv",
            Format::Yaml => "application/x-yaml",
            Format::Msgpack => "application/msgpack",
            Format::Plain => "text/plain",
        }
    }
}

/// Whether a character counts as trimmable whitespace in header values.
pub open spec fn is_ws(c: char) -> bool {
    c == ' ' || c == '\t' || c == '\r' || c == '\n'
}

/// First index in `[lo, hi)` holding a non-whitespace character, or `hi`.
pub open spec fn spec_skip_ws(s: Seq<char>, lo: int, hi: int) -> int
    decreases hi - lo when lo <= hi <= s.len()
{
    if lo >= hi {
        hi
    } else if is_ws(s[lo]) {
        spec_skip_ws(s, lo + 1, hi)
    } else {
        lo
    }
}

/// One past the last non-whitespace character in `[lo, hi)`, or `lo`.
pub open spec fn spec_rskip_ws(s: Seq<char>, lo: int, hi: int) -> int
    decreases hi - lo when 0 <= lo <= hi
{
    if hi <= lo {
        lo
    } else if is_ws(s[hi - 1]) {
        spec_rskip_ws(s, lo, hi - 1)
    } else {
        hi
    }
}

/// The range `[lo, hi)` of `s` with surrounding whitespace trimmed.
pub open spec fn spec_trim_range(s: Seq<char>, lo: int, hi: int) -> Seq<char> {
    let a = spec_skip_ws(s, lo, hi);
    let b = spec_rskip_ws(s, a, hi);
    s.subrange(a, b)
}

/// The format selected by a single media type, if the fixed media-type
/// table holds it; matching is case-sensitive.
pub open spec fn spec_media_format(m: Seq<char>) -> Option<Format> {
    if m == "application/json"@ {
        Some(Format::Json)
    } else if m == "application/xml"@ || m == "text/xml"@ {
        Some(Format::Xml)
    } else if m == "text/csv"@ {
        Some(Format::Csv)
    } else if m == "application/yaml"@ || m == "text/yaml"@ {
        Some(Format::Yaml)
    } else if m == "application/msgpack"@ || m == "application/x-msgpack"@ {
        Some(Format::Msgpack)
    } else if m == "text/plain"@ {
        Some(Format::Plain)
    } else {
        None
    }
}

/// The format selected by the `Accept` media ranges of `s` starting at
/// `pos`: the first comma-separated range whose media type (text before
/// any `;`, whitespace-trimmed) stands in the media-type table wins;
/// if none matches, the result is `Plain`.
pub open spec fn spec_accept_format_from(s: Seq<char>, pos: int) -> Format
    decreases s.len() - pos when 0 <= pos <= s.len()
{
    let comma = spec_find(s, ',', pos);
    let semi = spec_find(s, ';', pos);
    let media_end = if semi < comma { semi } else { comma };
    let media = spec_trim_range(s, pos, media_end);
    match spec_media_format(media) {
        Some(f) => f,
        None => {
            if comma >= s.len() || comma < pos {
                Format::Plain
            } else {
                spec_accept_format_from(s, comma + 1)
            }
        },
    }
}

/// The format an `Accept` header value selects.
pub open spec fn spec_accept_format(s: Seq<char>) -> Format {
    spec_accept_format_from(s, 0)
}

/// Resolves the output format of a request from its path and optional
/// `Accept` header, and gives the canonical path: the path with the
/// recognized extension suffix removed, or unchanged if none was
/// recognized.
pub open spec fn spec_resolve(path: Seq<char>, accept: Option<Seq<char>>) -> (Format, Seq<char>) {
    let (pf, tok) = spec_from_path(path);
    if pf != Format::Plain {
        (pf, path.subrange(0, path.len() - tok.len() - 1))
    } else {
        match accept {
            Some(a) => (spec_accept_format(a), path),
            None => (Format::Plain, path),
        }
    }
}

impl Format {
    /// Splits the `Accept` value on commas; for each media range, takes
    /// the text before any `;`, trims whitespace, and matches it
    /// case-sensitively against the fixed media-type table in client
    /// order. The first match wins; with no match the result is `Plain`.
    pub fn from_accept_header(accept: &str) -> (r: Format)
        ensures
            r == spec_accept_format(accept@),
    {
        let n = accept.unicode_len();
        let mut pos: usize = 0;
        loop
            invariant
                pos <= n,
                n == accept@.len(),
                spec_accept_format(accept@) == spec_accept_format_from(accept@, pos as int),
            decreases n - pos,
        {
            let comma = find_char_at(accept, ',', pos);
            let semi = find_char_at(accept, ';', pos);
            let media_end = if semi < comma { semi } else { comma };
            let a = skip_ws_exec(accept, pos, media_end);
            let b = rskip_ws_exec(accept, a, media_end);
            let media = accept.substring_char(a, b);
            assert(media@ == spec_trim_range(accept@, pos as int, media_end as int));
            if let Some(f) = media_format_exec(media) {
                return f;
            }
            if comma >= n {
                return Format::Plain;
            }
            pos = comma + 1;
        }
    }
}

/// Looks a media type up in the fixed media-type table.
fn media_format_exec(m: &str) -> (r: Option<Format>)
    ensures
        r == spec_media_format(m@),
{
    if str_eq(m, "application/json") {
        Some(Format::Json)
    } else if str_eq(m, "application/xml") || str_eq(m, "text/xml") {
        Some(Format::Xml)
    } else if str_eq(m, "text/csv") {
        Some(Format::Csv)
    } else if str_eq(m, "application/yaml") || str_eq(m, "text/yaml") {
        Some(Format::Yaml)
    } else if str_eq(m, "application/msgpack") || str_eq(m, "application/x-msgpack") {
        Some(Format::Msgpack)
    } else if str_eq(m, "text/plain") {
        Some(Format::Plain)
    } else {
        None
    }
}

/// Whether a character is trimmable whitespace.
fn is_ws_exec(c: char) -> (r: bool)
    ensures
        r == is_ws(c),
{
    c == ' ' || c == '\t' || c == '\r' || c == '\n'
}

/// Advances `lo` past leading whitespace within `[lo, hi)`.
pub(crate) fn skip_ws_exec(s: &str, lo: usize, hi: usize) -> (r: usize)
    requires
        lo <= hi <= s@.len(),
    ensures
        r == spec_skip_ws(s@, lo as int, hi as int),
        lo <= r <= hi,
{
    let mut i = lo;
    while i < hi && is_ws_exec(s.get_char(i))
        invariant
            lo <= i <= hi,
            hi <= s@.len(),
            spec_skip_ws(s@, lo as int, hi as int) == spec_skip_ws(s@, i as int, hi as int),
        decreases hi - i,
    {
        i = i + 1;
    }
    i
}

/// Retreats `hi` past trailing whitespace within `[lo, hi)`.
pub(crate) fn rskip_ws_exec(s: &str, lo: usize, hi: usize) -> (r: usize)
    requires
        lo <= hi <= s@.len(),
    ensures
        r == spec_rskip_ws(s@, lo as int, hi as int),
        lo <= r <= hi,
{
    let mut i = hi;
    while i > lo && is_ws_exec(s.get_char(i - 1))
        invariant
            lo <= i <= hi,
            hi <= s@.len(),
            spec_rskip_ws(s@, lo as int, hi as int) == spec_rskip_ws(s@, lo as int, i as int),
        decreases i,
    {
        i = i - 1;
    }
    i
}

/// Resolves a request's output format and canonical path: the path
/// suffix decides first; a path that selects nothing falls back to the
/// `Accept` header; with no match anywhere the format is `Plain` and the
/// path is kept as it is. Resolution is total: it never fails.
pub fn resolve(path: &str, accept: Option<&str>) -> (r: (Format, String))
    ensures
        (r.0, r.1@) == spec_resolve(path@, match accept {
            Some(a) => Some(a@),
            None => None,
        }),
{
    let n = path.unicode_len();
    let (pf, token) = Format::from_path(path);
    if !matches!(pf, Format::Plain) {
        proof {
            lemma_rfind_bounds(path@, '/', path@.len() - 1);
            lemma_rfind_bounds(path@, '.', path@.len() - 1);
        }
        let tok_len = token.unicode_len();
        let canonical = path.substring_char(0, n - tok_len - 1);
        (pf, canonical.to_owned())
    } else {
        let f = match accept {
            Some(a) => Format::from_accept_header(a),
            None => Format::Plain,
        };
        (f, path.to_owned())
    }
}

/// A resolved `(format, canonical path)` outcome is a function of the
/// path and the `Accept` header alone: resolving the same pair twice
/// yields identical results.
pub proof fn lemma_resolve_deterministic(
    path: Seq<char>,
    accept: Option<Seq<char>>,
    r1: (Format, Seq<char>),
    r2: (Format, Seq<char>),
)
    requires
        r1 == spec_resolve(path, accept),
        r2 == spec_resolve(path, accept),
    ensures
        r1 == r2,
{
}

/// The advertised URL of an endpoint in a format: the host, the
/// endpoint path, and the format's extension suffix (none for `Plain`).
pub open spec fn spec_endpoint_url(endpoint: Seq<char>, f: Format) -> Seq<char> {
    if f == Format::Plain {
        "ipeek.io"@ + endpoint
    } else {
        "ipeek.io"@ + endpoint + "."@ + spec_extension_token(f)
    }
}

/// Renders the advertised URL of an endpoint in a format.
pub fn endpoint_url(endpoint: &str, format: &Format) -> (r: String)
    ensures
        r@ == spec_endpoint_url(endpoint@, *format),
{
    let mut out = "ipeek.io".to_owned();
    out.append(endpoint);
    if !matches!(format, Format::Plain) {
        out.append(".");
        out.append(format.extension_token());
    }
    assert(out@ =~= spec_endpoint_url(endpoint@, *format));
    out
}

/// The canonical lowercase extension token of a format.
pub open spec fn spec_extension_token(f: Format) -> Seq<char> {
    match f {
        Format::Json => "json"@,
        Format::Xml => "xml"@,
        Format::Csv => "csv"@,
        Format::Yaml => "yaml"@,
        Format::Msgpack => "msgpack"@,
        Format::Plain => ""@,
    }
}

/// The content type of responses in a format.
pub open spec fn spec_content_type(f: Format) -> Seq<char> {
    match f {
        Format::Json => "application/json"@,
        Format::Xml => "application/xml"@,
        Format::Csv => "text/csv"@,
        Format::Yaml => "application/x-yaml"@,
        Format::Msgpack => "application/msgpack"@,
        Format::Plain => "text/plain"@,
    }
}

} // verus!
