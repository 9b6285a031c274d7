//! Bearer-token extraction from a redirect URL.
//!
//! The redirect delivers the token either in the fragment
//! (`#access_token=...`), scanned with `&`-delimited pieces that must split
//! on `=` into exactly two parts and returned verbatim, or — as a fallback —
//! in the query, scanned with standard first-`=` parameter splitting and
//! percent-decoded (`+` as space). The fragment always takes priority over
//! the query.

use vstd::prelude::*;

use crate::encoding::{pct_decode, spec_pct_decode};
use crate::error::{McpError, McpResult};
use crate::strutil::{find_char, lemma_find_props, spec_find, str_eq};
use crate::urlcheck::{check_url, url_parse_ok, url_parse_outcome};

verus! {

/// Whether `url` carries a fragment (a `#`).
pub open spec fn spec_has_fragment(url: Seq<char>) -> bool {
    spec_find(url, '#', 0) < url.len()
}

/// Everything after the first `#`.
pub open spec fn spec_fragment(url: Seq<char>) -> Seq<char>
    recommends
        spec_has_fragment(url),
{
    url.subrange(spec_find(url, '#', 0) + 1, url.len() as int)
}

/// Everything before the first `#` (the whole URL when there is none).
pub open spec fn spec_before_fragment(url: Seq<char>) -> Seq<char> {
    url.subrange(0, spec_find(url, '#', 0))
}

/// The query: what stands between the first `?` and the fragment;
/// empty when there is no `?` before the fragment.
pub open spec fn spec_query(url: Seq<char>) -> Seq<char> {
    let b = spec_before_fragment(url);
    let q = spec_find(b, '?', 0);
    if q < b.len() {
        b.subrange(q + 1, b.len() as int)
    } else {
        Seq::empty()
    }
}

/// The token carried by one `key=value` piece.
///
/// With `exact` the piece must split on `=` into exactly two parts
/// (exactly one `=`) and the value is returned verbatim; otherwise the
/// piece is split at its first `=` and key and value are percent-decoded
/// (`+` as space), a key without `=` having an empty value.
pub open spec fn spec_piece_token(p: Seq<char>, exact: bool) -> Option<Seq<char>> {
    let eq = spec_find(p, '=', 0);
    if exact {
        if eq < p.len() && spec_find(p, '=', eq + 1) == p.len() && p.subrange(0, eq)
            == "access_token"@ {
            Some(p.subrange(eq + 1, p.len() as int))
        } else {
            None
        }
    } else {
        if spec_pct_decode(p.subrange(0, eq)) == "access_token"@ {
            if eq < p.len() {
                Some(spec_pct_decode(p.subrange(eq + 1, p.len() as int)))
            } else {
                Some(Seq::empty())
            }
        } else {
            None
        }
    }
}

/// The token carried by the first matching `&`-delimited piece of `s`.
pub open spec fn spec_scan_params(s: Seq<char>, exact: bool) -> Option<Seq<char>>
    decreases s.len()
        via spec_scan_params_decreases
{
    let amp = spec_find(s, '&', 0);
    let r = spec_piece_token(s.subrange(0, amp), exact);
    if r is Some {
        r
    } else if amp < s.len() {
        spec_scan_params(s.subrange(amp + 1, s.len() as int), exact)
    } else {
        None
    }
}

#[via_fn]
proof fn spec_scan_params_decreases(s: Seq<char>, exact: bool) {
    lemma_find_props(s, '&', 0);
}

/// The token the redirect URL carries: from the fragment when the fragment
/// yields one, else from the query.
pub open spec fn spec_extract_token(url: Seq<char>) -> Option<Seq<char>> {
    let from_fragment = if spec_has_fragment(url) {
        spec_scan_params(spec_fragment(url), true)
    } else {
        None
    };
    if from_fragment is Some {
        from_fragment
    } else {
        spec_scan_params(spec_query(url), false)
    }
}

/// Law: the fragment wins. Whenever the fragment yields a token, that token
/// is the extraction result, whatever the query holds.
pub proof fn lemma_fragment_priority(url: Seq<char>)
    requires
        spec_has_fragment(url),
        spec_scan_params(spec_fragment(url), true) is Some,
    ensures
        spec_extract_token(url) == spec_scan_params(spec_fragment(url), true),
{
}

/// The token of `p` if it is a matching `key=value` piece.
fn piece_token(p: &str, exact: bool) -> (r: Option<String>)
    ensures
        r is Some <==> spec_piece_token(p@, exact) is Some,
        r is Some ==> r->0@ == spec_piece_token(p@, exact)->0,
{
    let len = p.unicode_len();
    let eq = find_char(p, '=', 0);
    proof {
        lemma_find_props(p@, '=', 0);
    }
    if exact {
        if eq < len {
            let second = find_char(p, '=', eq + 1);
            if second == len {
                if str_eq(p.substring_char(0, eq), "access_token") {
                    return Some(p.substring_char(eq + 1, len).to_owned());
                }
            }
        }
        None
    } else {
        let key = pct_decode(p.substring_char(0, eq));
        if str_eq(key.as_str(), "access_token") {
            if eq < len {
                Some(pct_decode(p.substring_char(eq + 1, len)))
            } else {
                Some(String::new())
            }
        } else {
            None
        }
    }
}

/// The token of the first matching `&`-delimited piece of `s`.
fn scan_params(s: &str, exact: bool) -> (r: Option<String>)
    ensures
        r is Some <==> spec_scan_params(s@, exact) is Some,
        r is Some ==> r->0@ == spec_scan_params(s@, exact)->0,
{
    let mut rest: &str = s;
    loop
        invariant
            spec_scan_params(s@, exact) == spec_scan_params(rest@, exact),
        decreases rest@.len(),
    {
        let len = rest.unicode_len();
        let amp = find_char(rest, '&', 0);
        proof {
            lemma_find_props(rest@, '&', 0);
        }
        let r = piece_token(rest.substring_char(0, amp), exact);
        if r.is_some() {
            return r;
        }
        if amp < len {
            rest = rest.substring_char(amp + 1, len);
        } else {
            return None;
        }
    }
}

/// Extract the access token from a redirect URL.
///
/// A URL that does not parse is a malformed-URL authentication failure
/// carrying the parse error's message; a URL without a token is an
/// authentication failure too; otherwise the extracted token is returned,
/// the fragment taking priority over the query. The whole result is a
/// function of the URL alone: repeated calls on equal input give equal
/// results.
pub fn extract_token_from_url(url: &str) -> (r: McpResult<String>)
    ensures
        !url_parse_ok(url@) ==> (r matches Err(McpError::AuthError(m)) && m@
            == url_parse_outcome(url@)->0),
        url_parse_ok(url@) && spec_extract_token(url@) is Some ==> (r matches Ok(t) && t@
            == spec_extract_token(url@)->0),
        url_parse_ok(url@) && spec_extract_token(url@) is None ==> (r matches Err(
            McpError::AuthError(m),
        ) && m@ == "Could not extract access token from URL"@),
{
    if let Err(m) = check_url(url) {
        return Err(McpError::AuthError(m));
    }
    let len = url.unicode_len();
    let h = find_char(url, '#', 0);
    proof {
        lemma_find_props(url@, '#', 0);
    }
    if h < len {
        if let Some(t) = scan_params(url.substring_char(h + 1, len), true) {
            return Ok(t);
        }
    }
    let before = url.substring_char(0, h);
    let blen = before.unicode_len();
    let q = find_char(before, '?', 0);
    proof {
        lemma_find_props(before@, '?', 0);
    }
    if q < blen {
        if let Some(t) = scan_params(before.substring_char(q + 1, blen), false) {
            return Ok(t);
        }
    } else {
        proof {
            reveal_strlit("access_token");
            assert(spec_query(url@) =~= Seq::<char>::empty());
            assert(Seq::<char>::empty().subrange(0, 0) =~= Seq::<char>::empty());
            assert(spec_scan_params(spec_query(url@), false) is None);
        }
    }
    Err(McpError::AuthError("Could not extract access token from URL".to_owned()))
}

} // verus!
