//! Base-URL validation and resolution of `href` attributes.
//!
//! Parsing and joining URLs is the `url` crate's work; both are functions of
//! their input strings alone, so their results carry names that the
//! contracts here are stated over.

use vstd::prelude::*;

verus! {

/// Whether `url::Url::parse` accepts the string as an absolute URL.
pub uninterp spec fn url_ok(s: Seq<char>) -> bool;

/// The serialization of joining `href` against the base URL, or `None`
/// where the join fails.
pub uninterp spec fn url_join(base: Seq<char>, href: Seq<char>) -> Option<Seq<char>>;

/// Relies on url::Url::parse: whether it returns `Ok` depends on the input
/// string alone.
#[verifier::external_body]
fn parse_ok(s: &str) -> (r: bool)
    ensures
        r == url_ok(s@),
{
    url::Url::parse(s).is_ok()
}

/// Relies on url::Url::parse and url::Url::join: both depend on their input
/// strings alone; `join` resolves a (possibly relative) reference against
/// the base, and `to_string` returns the joined URL's serialization.
#[verifier::external_body]
fn join_with_base(base: &str, href: &str) -> (r: Option<String>)
    requires
        url_ok(base@),
    ensures
        r.deep_view() == url_join(base@, href@),
{
    match url::Url::parse(base) {
        Ok(b) => match b.join(href) {
            Ok(joined) => Some(joined.to_string()),
            Err(_) => None,
        },
        Err(_) => None,
    }
}

/// Whether the string parses as an absolute URL, fit to serve as the base
/// for resolving relative links.
pub fn url_is_valid(s: &str) -> (r: bool)
    ensures
        r == url_ok(s@),
{
    parse_ok(s)
}

/// The absolute link an optional `href` attribute yields: the join against
/// the base where the attribute exists and the join succeeds, and the empty
/// string otherwise.
pub open spec fn spec_resolved_href(base: Seq<char>, href: Option<Seq<char>>) -> Seq<char> {
    match href {
        Some(h) => match url_join(base, h) {
            Some(u) => u,
            None => Seq::empty(),
        },
        None => Seq::empty(),
    }
}

/// Resolve an optional `href` attribute against the base URL.
pub(crate) fn resolve_href(base: &str, href: &Option<String>) -> (r: String)
    requires
        url_ok(base@),
    ensures
        r@ == spec_resolved_href(base@, href.deep_view()),
{
    match href {
        Some(h) => match join_with_base(base, h.as_str()) {
            Some(u) => u,
            None => String::new(),
        },
        None => String::new(),
    }
}

} // verus!
