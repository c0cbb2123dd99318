//! The library's own model of an IP address: the four octets of an IPv4
//! address as plain numbers, or the text of an IPv6 address, which the
//! reputation checker only needs to recognize as "not IPv4".

use vstd::prelude::*;
use crate::text::{append_dec_u64, dec_of, push_char};

verus! {

/// An IP address as the library models it.
pub enum IpAddress {
    V4 { a: u8, b: u8, c: u8, d: u8 },
    V6 { text: String },
}

/// The abstract form of an `IpAddress`.
pub enum IpAddressV {
    V4 { a: u8, b: u8, c: u8, d: u8 },
    V6 { text: Seq<char> },
}

impl View for IpAddress {
    type V = IpAddressV;

    open spec fn view(&self) -> IpAddressV {
        match self {
            IpAddress::V4 { a, b, c, d } => IpAddressV::V4 { a: *a, b: *b, c: *c, d: *d },
            IpAddress::V6 { text } => IpAddressV::V6 { text: text@ },
        }
    }
}

/// The dotted-quad rendering of four octets.
pub open spec fn spec_dotted_quad(a: u8, b: u8, c: u8, d: u8) -> Seq<char> {
    dec_of(a as nat) + "."@ + dec_of(b as nat) + "."@ + dec_of(c as nat) + "."@ + dec_of(d as nat)
}

/// The textual form of an address: dotted quad for IPv4, the carried
/// text for IPv6.
pub open spec fn spec_ip_text(ip: IpAddressV) -> Seq<char> {
    match ip {
        IpAddressV::V4 { a, b, c, d } => spec_dotted_quad(a, b, c, d),
        IpAddressV::V6 { text } => text,
    }
}

impl IpAddress {
    /// Whether this is an IPv4 address.
    pub fn is_v4(&self) -> (r: bool)
        ensures
            r == (self@ is V4),
    {
        matches!(self, IpAddress::V4 { .. })
    }

    /// The textual form of the address.
    pub fn to_text(&self) -> (r: String)
        ensures
            r@ == spec_ip_text(self@),
    {
        match self {
            IpAddress::V4 { a, b, c, d } => {
                let mut out = String::new();
                append_dec_u64(&mut out, *a as u64);
                push_char(&mut out, '.');
                append_dec_u64(&mut out, *b as u64);
                push_char(&mut out, '.');
                append_dec_u64(&mut out, *c as u64);
                push_char(&mut out, '.');
                append_dec_u64(&mut out, *d as u64);
                proof {
                    reveal_strlit(".");
                    assert(out@ =~= spec_ip_text(self@));
                }
                out
            },
            IpAddress::V6 { text } => text.clone(),
        }
    }
}

/// Whether a character is a decimal digit.
pub open spec fn spec_is_digit(c: char) -> bool {
    48 <= c as int <= 57
}

/// The value of a digit sequence read as a decimal number.
pub open spec fn octet_val(s: Seq<char>) -> int
    decreases s.len(),
{
    if s.len() == 0 {
        0
    } else {
        octet_val(s.drop_last()) * 10 + (s.last() as int - 48)
    }
}

/// A valid dotted-quad octet: one to three digits, no leading zero, at
/// most 255.
pub open spec fn valid_octet(s: Seq<char>) -> bool {
    1 <= s.len() <= 3 && (forall |i: int| 0 <= i < s.len() ==> spec_is_digit(#[trigger] s[i])) && (
    s.len() > 1 ==> s[0] != '0') && octet_val(s) <= 255
}

/// Parses a dotted-quad IPv4 address: four valid octets joined by
/// exactly three dots.
pub open spec fn spec_parse_ipv4(s: Seq<char>) -> Option<(u8, u8, u8, u8)> {
    let d1 = crate::format::spec_find(s, '.', 0);
    if d1 >= s.len() {
        None
    } else {
        let d2 = crate::format::spec_find(s, '.', d1 + 1);
        if d2 >= s.len() {
            None
        } else {
            let d3 = crate::format::spec_find(s, '.', d2 + 1);
            if d3 >= s.len() {
                None
            } else {
                let d4 = crate::format::spec_find(s, '.', d3 + 1);
                if d4 != s.len() {
                    None
                } else {
                    let p1 = s.subrange(0, d1);
                    let p2 = s.subrange(d1 + 1, d2);
                    let p3 = s.subrange(d2 + 1, d3);
                    let p4 = s.subrange(d3 + 1, s.len() as int);
                    if valid_octet(p1) && valid_octet(p2) && valid_octet(p3) && valid_octet(p4) {
                        Some(
                            (
                                octet_val(p1) as u8,
                                octet_val(p2) as u8,
                                octet_val(p3) as u8,
                                octet_val(p4) as u8,
                            ),
                        )
                    } else {
                        None
                    }
                }
            }
        }
    }
}

/// Parses one octet of a dotted quad, the text between `lo` and `hi`.
fn parse_octet(s: &str, lo: usize, hi: usize) -> (r: Option<u8>)
    requires
        lo <= hi <= s@.len(),
    ensures
        match r {
            Some(v) => valid_octet(s@.subrange(lo as int, hi as int)) && v as int == octet_val(
                s@.subrange(lo as int, hi as int),
            ),
            None => !valid_octet(s@.subrange(lo as int, hi as int)),
        },
{
    let len = hi - lo;
    if len < 1 || len > 3 {
        return None;
    }
    if len > 1 && s.get_char(lo) == '0' {
        proof {
            assert(s@.subrange(lo as int, hi as int)[0] == s@[lo as int]);
        }
        return None;
    }
    let mut val: u32 = 0;
    let mut i = lo;
    while i < hi
        invariant
            lo <= i <= hi,
            hi <= s@.len(),
            1 <= hi - lo <= 3,
            forall |j: int| lo <= j < i ==> spec_is_digit(#[trigger] s@[j]),
            val == octet_val(s@.subrange(lo as int, i as int)),
            i - lo == 0 ==> val == 0,
            i - lo == 1 ==> val <= 9,
            i - lo == 2 ==> val <= 99,
            i - lo == 3 ==> val <= 999,
        decreases hi - i,
    {
        let c = s.get_char(i);
        let u = c as u32;
        if u < 48 || u > 57 {
            proof {
                assert(s@.subrange(lo as int, hi as int)[i as int - lo as int] == s@[i as int]);
            }
            return None;
        }
        val = val * 10 + (u - 48);
        i = i + 1;
        proof {
            assert(s@.subrange(lo as int, i as int).drop_last() =~= s@.subrange(
                lo as int,
                i as int - 1,
            ));
            assert(s@.subrange(lo as int, i as int).last() == s@[i as int - 1]);
        }
    }
    proof {
        assert(s@.subrange(lo as int, hi as int).len() > 1 ==> s@.subrange(
            lo as int,
            hi as int,
        )[0] == s@[lo as int]);
    }
    if val > 255 {
        return None;
    }
    Some(val as u8)
}

/// Parses a dotted-quad IPv4 address.
pub fn parse_ipv4(s: &str) -> (r: Option<(u8, u8, u8, u8)>)
    ensures
        r == spec_parse_ipv4(s@),
{
    let n = s.unicode_len();
    let d1 = crate::format::find_char_at(s, '.', 0);
    if d1 >= n {
        return None;
    }
    let d2 = crate::format::find_char_at(s, '.', d1 + 1);
    if d2 >= n {
        return None;
    }
    let d3 = crate::format::find_char_at(s, '.', d2 + 1);
    if d3 >= n {
        return None;
    }
    let d4 = crate::format::find_char_at(s, '.', d3 + 1);
    if d4 != n {
        return None;
    }
    let a = match parse_octet(s, 0, d1) {
        Some(v) => v,
        None => {
            return None;
        },
    };
    let b = match parse_octet(s, d1 + 1, d2) {
        Some(v) => v,
        None => {
            return None;
        },
    };
    let c = match parse_octet(s, d2 + 1, d3) {
        Some(v) => v,
        None => {
            return None;
        },
    };
    let d = match parse_octet(s, d3 + 1, n) {
        Some(v) => v,
        None => {
            return None;
        },
    };
    Some((a, b, c, d))
}

/// First occurrence of `c` in `[from, to)`, or `to` if there is none.
pub open spec fn spec_find_to(s: Seq<char>, c: char, from: int, to: int) -> int
    decreases to - from when 0 <= from <= to <= s.len()
{
    if from >= to {
        to
    } else if s[from] == c {
        from
    } else {
        spec_find_to(s, c, from + 1, to)
    }
}

/// Finds the first occurrence of `c` in `[from, to)`.
fn find_char_to(s: &str, c: char, from: usize, to: usize) -> (r: usize)
    requires
        from <= to <= s@.len(),
    ensures
        r == spec_find_to(s@, c, from as int, to as int),
        from <= r <= to,
{
    let mut i = from;
    while i < to
        invariant
            from <= i <= to,
            to <= s@.len(),
            spec_find_to(s@, c, from as int, to as int) == spec_find_to(
                s@,
                c,
                i as int,
                to as int,
            ),
        decreases to - i,
    {
        if s.get_char(i) == c {
            return i;
        }
        i = i + 1;
    }
    to
}

/// Whether a character is a hexadecimal digit.
pub open spec fn spec_is_hex_digit(c: char) -> bool {
    (48 <= c as int <= 57) || (97 <= c as int <= 102) || (65 <= c as int <= 70)
}

/// A valid IPv6 group: one to four hexadecimal digits.
pub open spec fn valid_hex_group(s: Seq<char>) -> bool {
    1 <= s.len() <= 4 && forall |i: int| 0 <= i < s.len() ==> spec_is_hex_digit(#[trigger] s[i])
}

/// Checks one candidate group, the text between `lo` and `hi`.
fn valid_hex_group_exec(s: &str, lo: usize, hi: usize) -> (r: bool)
    requires
        lo <= hi <= s@.len(),
    ensures
        r == valid_hex_group(s@.subrange(lo as int, hi as int)),
{
    let len = hi - lo;
    if len < 1 || len > 4 {
        return false;
    }
    let mut i = lo;
    while i < hi
        invariant
            lo <= i <= hi,
            hi <= s@.len(),
            forall |j: int| lo <= j < i ==> spec_is_hex_digit(#[trigger] s@[j]),
        decreases hi - i,
    {
        let u = s.get_char(i) as u32;
        if !((48 <= u && u <= 57) || (97 <= u && u <= 102) || (65 <= u && u <= 70)) {
            proof {
                assert(s@.subrange(lo as int, hi as int)[i as int - lo as int] == s@[i as int]);
            }
            return false;
        }
        i = i + 1;
    }
    proof {
        assert forall |j: int|
            0 <= j < s@.subrange(lo as int, hi as int).len() implies spec_is_hex_digit(
            #[trigger] s@.subrange(lo as int, hi as int)[j],
        ) by {
            assert(s@.subrange(lo as int, hi as int)[j] == s@[lo + j]);
        }
    }
    true
}

/// Counts the group-equivalents of the colon-separated pieces in
/// `[lo, hi)`: a hexadecimal group counts one; when `allow_v4` is set,
/// the final piece may be a dotted quad and counts two; anything else —
/// an empty piece included — makes the whole range invalid (-1).
pub open spec fn spec_groups(s: Seq<char>, lo: int, hi: int, allow_v4: bool) -> int
    decreases hi - lo when 0 <= lo <= hi <= s.len()
{
    let c = spec_find_to(s, ':', lo, hi);
    if c >= hi || c < lo {
        if valid_hex_group(s.subrange(lo, hi)) {
            1
        } else if allow_v4 && spec_parse_ipv4(s.subrange(lo, hi)) is Some {
            2
        } else {
            -1
        }
    } else {
        if valid_hex_group(s.subrange(lo, c)) {
            let rest = spec_groups(s, c + 1, hi, allow_v4);
            if rest < 0 {
                -1
            } else {
                1 + rest
            }
        } else {
            -1
        }
    }
}

/// Counts the group-equivalents in `[lo, hi)`.
fn count_groups(s: &str, lo: usize, hi: usize, allow_v4: bool) -> (r: Option<usize>)
    requires
        lo <= hi <= s@.len(),
    ensures
        match r {
            Some(k) => k as int == spec_groups(s@, lo as int, hi as int, allow_v4) && k <= hi - lo
                + 2,
            None => spec_groups(s@, lo as int, hi as int, allow_v4) == -1,
        },
{
    let mut pos = lo;
    let mut count: usize = 0;
    loop
        invariant
            lo <= pos <= hi,
            hi <= s@.len(),
            2 * count <= pos - lo + 1,
            spec_groups(s@, lo as int, hi as int, allow_v4) == (if spec_groups(
                s@,
                pos as int,
                hi as int,
                allow_v4,
            ) >= 0 {
                count + spec_groups(s@, pos as int, hi as int, allow_v4)
            } else {
                -1
            }),
        decreases hi - pos,
    {
        let c = find_char_to(s, ':', pos, hi);
        if c == hi {
            if valid_hex_group_exec(s, pos, hi) {
                return Some(count + 1);
            }
            if allow_v4 {
                let piece = s.substring_char(pos, hi);
                assert(piece@ == s@.subrange(pos as int, hi as int));
                if parse_ipv4(piece).is_some() {
                    return Some(count + 2);
                }
            }
            return None;
        }
        if !valid_hex_group_exec(s, pos, c) {
            return None;
        }
        count = count + 1;
        pos = c + 1;
    }
}

/// Position of the first `::` at or after `from`, or -1.
pub open spec fn spec_double_colon(s: Seq<char>, from: int) -> int
    decreases s.len() - from when 0 <= from <= s.len()
{
    if from + 1 >= s.len() {
        -1
    } else if s[from] == ':' && s[from + 1] == ':' {
        from
    } else {
        spec_double_colon(s, from + 1)
    }
}

/// Finds the first `::` at or after `from`.
fn find_double_colon(s: &str, from: usize) -> (r: Option<usize>)
    requires
        from <= s@.len(),
    ensures
        match r {
            Some(j) => j as int == spec_double_colon(s@, from as int) && from <= j && j + 1
                < s@.len(),
            None => spec_double_colon(s@, from as int) == -1,
        },
{
    let n = s.unicode_len();
    let mut i = from;
    loop
        invariant
            from <= i <= n,
            n == s@.len(),
            spec_double_colon(s@, from as int) == spec_double_colon(s@, i as int),
        decreases n - i,
    {
        if n - i <= 1 {
            return None;
        }
        if s.get_char(i) == ':' && s.get_char(i + 1) == ':' {
            return Some(i);
        }
        i = i + 1;
    }
}

/// The textual IPv6 grammar the library accepts: colon-separated groups
/// of one to four hexadecimal digits, at most one `::`, and optionally a
/// dotted quad as the final piece (counting as two groups); exactly
/// eight groups without `::`, at most seven with it.
pub open spec fn valid_ipv6_text(s: Seq<char>) -> bool {
    let d = spec_double_colon(s, 0);
    if d < 0 {
        spec_groups(s, 0, s.len() as int, true) == 8
    } else {
        let left = if d == 0 {
            0int
        } else {
            spec_groups(s, 0, d, false)
        };
        let right = if d + 2 == s.len() {
            0int
        } else {
            spec_groups(s, d + 2, s.len() as int, true)
        };
        spec_double_colon(s, d + 1) == -1 && left >= 0 && right >= 0 && left + right <= 7
    }
}

/// Checks a text against the IPv6 grammar.
pub fn is_valid_ipv6(s: &str) -> (r: bool)
    ensures
        r == valid_ipv6_text(s@),
{
    let n = s.unicode_len();
    match find_double_colon(s, 0) {
        None => {
            match count_groups(s, 0, n, true) {
                Some(k) => k == 8,
                None => false,
            }
        },
        Some(d) => {
            if find_double_colon(s, d + 1).is_some() {
                return false;
            }
            let left: usize = if d == 0 {
                0
            } else {
                match count_groups(s, 0, d, false) {
                    Some(k) => k,
                    None => {
                        return false;
                    },
                }
            };
            let right: usize = if d + 2 == n {
                0
            } else {
                match count_groups(s, d + 2, n, true) {
                    Some(k) => k,
                    None => {
                        return false;
                    },
                }
            };
            left <= 7 && right <= 7 - left
        },
    }
}

/// Classifies a textual address: a valid dotted quad is IPv4; text
/// matching the IPv6 grammar is carried as IPv6 text, which the rest of
/// the library only needs to recognize as "not IPv4"; anything else is
/// not an address.
pub open spec fn spec_parse_ip(s: Seq<char>) -> Option<IpAddressV> {
    match spec_parse_ipv4(s) {
        Some((a, b, c, d)) => Some(IpAddressV::V4 { a, b, c, d }),
        None => {
            if valid_ipv6_text(s) {
                Some(IpAddressV::V6 { text: s })
            } else {
                None
            }
        },
    }
}

impl IpAddress {
    /// Reads an address from text, as `spec_parse_ip` classifies it.
    pub fn parse(s: &str) -> (r: Option<IpAddress>)
        ensures
            match r {
                Some(ip) => spec_parse_ip(s@) == Some(ip@),
                None => spec_parse_ip(s@) is None,
            },
    {
        match parse_ipv4(s) {
            Some((a, b, c, d)) => Some(IpAddress::V4 { a, b, c, d }),
            None => {
                if is_valid_ipv6(s) {
                    Some(IpAddress::V6 { text: s.to_owned() })
                } else {
                    None
                }
            },
        }
    }
}

/// The reversed-octet label DNSBL queries use: the four octets of an
/// IPv4 address reversed and dot-joined.
pub open spec fn spec_reversed_label(a: u8, b: u8, c: u8, d: u8) -> Seq<char> {
    spec_dotted_quad(d, c, b, a)
}

/// Renders the reversed-octet label of an IPv4 address.
pub fn reversed_label(a: u8, b: u8, c: u8, d: u8) -> (r: String)
    ensures
        r@ == spec_reversed_label(a, b, c, d),
{
    let mut out = String::new();
    append_dec_u64(&mut out, d as u64);
    push_char(&mut out, '.');
    append_dec_u64(&mut out, c as u64);
    push_char(&mut out, '.');
    append_dec_u64(&mut out, b as u64);
    push_char(&mut out, '.');
    append_dec_u64(&mut out, a as u64);
    proof {
        reveal_strlit(".");
        assert(out@ =~= spec_reversed_label(a, b, c, d));
    }
    out
}

} // verus!
