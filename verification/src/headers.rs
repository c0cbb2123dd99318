//! Decisions the service takes from request headers: which address a
//! request speaks for, whether the client looks like a browser, and
//! whether it can take colored terminal output. The header values
//! arrive as plain optional strings.

use vstd::prelude::*;
use crate::format::{
    lower_seq, spec_find, spec_trim_range, to_ascii_lower, find_char_at, skip_ws_exec,
    rskip_ws_exec,
};
use crate::ip::{IpAddress, IpAddressV, spec_parse_ip};
use crate::text::str_eq;

verus! {

/// Whether `needle` occurs as a contiguous part of `hay`.
pub open spec fn spec_contains(hay: Seq<char>, needle: Seq<char>) -> bool {
    exists |i: int|
        0 <= i <= hay.len() - needle.len() && #[trigger] hay.subrange(i, i + needle.len())
            == needle
}

/// Substring search.
pub fn contains_sub(hay: &str, needle: &str) -> (r: bool)
    ensures
        r == spec_contains(hay@, needle@),
{
    let hn = hay.unicode_len();
    let nn = needle.unicode_len();
    if nn > hn {
        proof {
            assert(!spec_contains(hay@, needle@));
        }
        return false;
    }
    if nn == 0 {
        proof {
            assert(hay@.subrange(0, 0 + needle@.len() as int) =~= needle@);
        }
        return true;
    }
    let mut i: usize = 0;
    while i <= hn - nn
        invariant
            nn <= hn,
            1 <= nn,
            hn == hay@.len(),
            nn == needle@.len(),
            i <= hn - nn + 1,
            forall |k: int|
                0 <= k < i ==> #[trigger] hay@.subrange(k, k + needle@.len()) != needle@,
        decreases hn - i,
    {
        let mut j: usize = 0;
        let mut matched = true;
        while j < nn
            invariant
                i + nn <= hn,
                hn == hay@.len(),
                nn == needle@.len(),
                1 <= nn,
                j <= nn,
                matched ==> forall |k: int| 0 <= k < j ==> hay@[i + k] == #[trigger] needle@[k],
                !matched ==> hay@.subrange(i as int, i as int + nn as int) != needle@,
            ensures
                matched ==> forall |k: int| 0 <= k < nn ==> hay@[i + k] == #[trigger] needle@[k],
                !matched ==> hay@.subrange(i as int, i as int + nn as int) != needle@,
                1 <= nn,
            decreases nn - j,
        {
            if hay.get_char(i + j) != needle.get_char(j) {
                proof {
                    assert(hay@.subrange(i as int, i as int + nn as int)[j as int] == hay@[
                        i as int + j as int]);
                }
                matched = false;
                break;
            }
            j = j + 1;
        }
        if matched {
            proof {
                assert forall |k: int| 0 <= k < nn implies hay@.subrange(
                    i as int,
                    i as int + nn as int,
                )[k] == needle@[k] by {
                    assert(hay@[i + k] == needle@[k]);
                }
                assert(hay@.subrange(i as int, i as int + nn as int) =~= needle@);
            }
            return true;
        }
        i = i + 1;
    }
    proof {
        assert forall |k: int| 0 <= k <= hay@.len() - needle@.len() implies #[trigger]
            hay@.subrange(k, k + needle@.len()) != needle@ by {
            assert(k < i);
        }
    }
    false
}

/// The browser names recognized in a lowercased `User-Agent` value.
pub open spec fn spec_is_browser_ua(u: Seq<char>) -> bool {
    let l = lower_seq(u);
    spec_contains(l, "chrome"@) || spec_contains(l, "firefox"@) || spec_contains(l, "safari"@)
        || spec_contains(l, "edge"@) || spec_contains(l, "opera"@) || spec_contains(
        l,
        "chromium"@,
    ) || spec_contains(l, "msie"@) || spec_contains(l, "internet explorer"@)
}

/// Whether the request comes from a browser: its `User-Agent`, taken
/// case-insensitively, names a known browser.
pub open spec fn spec_is_browser(user_agent: Option<Seq<char>>) -> bool {
    match user_agent {
        Some(u) => spec_is_browser_ua(u),
        None => false,
    }
}

/// Decides whether the client is a browser from its `User-Agent`.
pub fn is_browser(user_agent: Option<&str>) -> (r: bool)
    ensures
        r == spec_is_browser(
            match user_agent {
                Some(u) => Some(u@),
                None => None,
            },
        ),
{
    match user_agent {
        None => false,
        Some(u) => {
            let l = to_ascii_lower(u);
            let ls = l.as_str();
            contains_sub(ls, "chrome") || contains_sub(ls, "firefox") || contains_sub(
                ls,
                "safari",
            ) || contains_sub(ls, "edge") || contains_sub(ls, "opera") || contains_sub(
                ls,
                "chromium",
            ) || contains_sub(ls, "msie") || contains_sub(ls, "internet explorer")
        },
    }
}

/// The API-tool names recognized in a lowercased `User-Agent` value.
pub open spec fn spec_is_api_tool_ua(u: Seq<char>) -> bool {
    let l = lower_seq(u);
    spec_contains(l, "postman"@) || spec_contains(l, "httpie"@) || spec_contains(l, "insomnia"@)
        || spec_contains(l, "swagger"@) || spec_contains(l, "apifox"@) || spec_contains(
        l,
        "soapui"@,
    ) || spec_contains(l, "paw/"@) || spec_contains(l, "rest-client"@)
}

/// The `Host` values of hosted API consoles, which take no color.
pub open spec fn spec_is_console_host(h: Seq<char>) -> bool {
    h == "pie.dev"@ || h == "api.hoppscotch.io"@ || h == "thunder-client.com"@
}

/// Whether the client takes colored terminal output: not a browser, not
/// a known API tool by `User-Agent`, not a hosted console by `Host`,
/// and none of the tool marker headers present.
pub open spec fn spec_client_supports_color(
    user_agent: Option<Seq<char>>,
    host: Option<Seq<char>>,
    has_tool_marker: bool,
) -> bool {
    if spec_is_browser(user_agent) {
        false
    } else if match user_agent {
        Some(u) => spec_is_api_tool_ua(u),
        None => false,
    } {
        false
    } else if match host {
        Some(h) => spec_is_console_host(h),
        None => false,
    } {
        false
    } else {
        !has_tool_marker
    }
}

/// Decides whether the client takes colored output. `has_tool_marker`
/// says whether any of the API-tool marker headers was present on the
/// request.
pub fn client_supports_color(
    user_agent: Option<&str>,
    host: Option<&str>,
    has_tool_marker: bool,
) -> (r: bool)
    ensures
        r == spec_client_supports_color(
            match user_agent {
                Some(u) => Some(u@),
                None => None,
            },
            match host {
                Some(h) => Some(h@),
                None => None,
            },
            has_tool_marker,
        ),
{
    if is_browser(user_agent) {
        return false;
    }
    let tool = match user_agent {
        Some(u) => {
            let l = to_ascii_lower(u);
            let ls = l.as_str();
            contains_sub(ls, "postman") || contains_sub(ls, "httpie") || contains_sub(
                ls,
                "insomnia",
            ) || contains_sub(ls, "swagger") || contains_sub(ls, "apifox") || contains_sub(
                ls,
                "soapui",
            ) || contains_sub(ls, "paw/") || contains_sub(ls, "rest-client")
        },
        None => false,
    };
    if tool {
        return false;
    }
    let console = match host {
        Some(h) => str_eq(h, "pie.dev") || str_eq(h, "api.hoppscotch.io") || str_eq(
            h,
            "thunder-client.com",
        ),
        None => false,
    };
    if console {
        return false;
    }
    !has_tool_marker
}

/// The first `X-Forwarded-For` entry: the text before the first comma,
/// whitespace-trimmed.
pub open spec fn spec_first_forwarded(s: Seq<char>) -> Seq<char> {
    spec_trim_range(s, 0, spec_find(s, ',', 0))
}

/// The address a request speaks for: the first `X-Forwarded-For` entry
/// if it parses as an address, else a parsing `X-Real-IP` value, else a
/// parsing peer address, else the loopback address.
pub open spec fn spec_client_ip(
    forwarded_for: Option<Seq<char>>,
    real_ip: Option<Seq<char>>,
    peer: Option<Seq<char>>,
) -> IpAddressV {
    if forwarded_for is Some && spec_parse_ip(spec_first_forwarded(forwarded_for->0)) is Some {
        spec_parse_ip(spec_first_forwarded(forwarded_for->0))->0
    } else if real_ip is Some && spec_parse_ip(
        spec_trim_range(real_ip->0, 0, real_ip->0.len() as int),
    ) is Some {
        spec_parse_ip(spec_trim_range(real_ip->0, 0, real_ip->0.len() as int))->0
    } else if peer is Some && spec_parse_ip(peer->0) is Some {
        spec_parse_ip(peer->0)->0
    } else {
        IpAddressV::V4 { a: 127, b: 0, c: 0, d: 1 }
    }
}

/// Picks the client address from the forwarding headers and the peer
/// address, falling back to loopback when nothing parses.
pub fn get_ip(forwarded_for: Option<&str>, real_ip: Option<&str>, peer: Option<&str>) -> (r:
    IpAddress)
    ensures
        r@ == spec_client_ip(
            match forwarded_for {
                Some(s) => Some(s@),
                None => None,
            },
            match real_ip {
                Some(s) => Some(s@),
                None => None,
            },
            match peer {
                Some(s) => Some(s@),
                None => None,
            },
        ),
{
    if let Some(xff) = forwarded_for {
        let comma = find_char_at(xff, ',', 0);
        let a = skip_ws_exec(xff, 0, comma);
        let b = rskip_ws_exec(xff, a, comma);
        let first = xff.substring_char(a, b);
        assert(first@ == spec_first_forwarded(xff@));
        if let Some(ip) = IpAddress::parse(first) {
            return ip;
        }
    }
    if let Some(xri) = real_ip {
        let n = xri.unicode_len();
        let a = skip_ws_exec(xri, 0, n);
        let b = rskip_ws_exec(xri, a, n);
        let trimmed = xri.substring_char(a, b);
        assert(trimmed@ == spec_trim_range(xri@, 0, xri@.len() as int));
        if let Some(ip) = IpAddress::parse(trimmed) {
            return ip;
        }
    }
    if let Some(p) = peer {
        if let Some(ip) = IpAddress::parse(p) {
            return ip;
        }
    }
    IpAddress::V4 { a: 127, b: 0, c: 0, d: 1 }
}

} // verus!
