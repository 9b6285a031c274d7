//! Syntactic URL validation through the `url` crate.

use vstd::prelude::*;

verus! {

/// What `url::Url::parse` makes of `s`: `None` when it parses, the parse
/// error's message when it does not. A function of the input alone.
pub uninterp spec fn url_parse_outcome(s: Seq<char>) -> Option<Seq<char>>;

/// Whether `url::Url::parse` accepts `s`.
pub open spec fn url_parse_ok(s: Seq<char>) -> bool {
    url_parse_outcome(s) is None
}

/// Relies on url::Url::parse: deterministic syntactic validation of an
/// absolute URL. On failure the parse error's message is returned.
#[verifier::external_body]
pub(crate) fn check_url(s: &str) -> (r: Result<(), String>)
    ensures
        r is Ok <==> url_parse_ok(s@),
        r matches Err(m) ==> m@ == url_parse_outcome(s@)->0,
{
    match url::Url::parse(s) {
        Ok(_) => Ok(()),
        Err(e) => Err(format!("{}", e)),
    }
}

} // verus!
