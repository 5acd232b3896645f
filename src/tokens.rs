//! The checks that the `http` and `regex` crates make on route fields.
use std::str::FromStr;
use vstd::prelude::*;

verus! {

/// The name that the `http` crate stores for a header name, if it accepts it.
pub uninterp spec fn header_name_of(s: Seq<char>) -> Option<Seq<char>>;

/// Whether the `http` crate accepts a header value.
pub uninterp spec fn header_value_valid(s: Seq<char>) -> bool;

/// Whether the `http` crate accepts a method token.
pub uninterp spec fn method_valid(s: Seq<char>) -> bool;

/// Whether the `http` crate accepts a URI scheme.
pub uninterp spec fn scheme_valid(s: Seq<char>) -> bool;

/// Whether the `regex` crate compiles a pattern.
pub uninterp spec fn regex_compiles(s: Seq<char>) -> bool;

pub open spec fn opt_string_view(o: Option<String>) -> Option<Seq<char>> {
    match o {
        Some(s) => Some(s@),
        None => None,
    }
}

pub open spec fn strings_view(v: Seq<String>) -> Seq<Seq<char>> {
    v.map_values(|s: String| s@)
}

/// The pieces of `s` between occurrences of `sep`, in order, empty pieces
/// included; a string without `sep` is one piece.
pub open spec fn split_on(s: Seq<char>, sep: char) -> Seq<Seq<char>>
    decreases s.len(),
{
    if s.len() == 0 {
        seq![Seq::<char>::empty()]
    } else {
        let init = split_on(s.drop_last(), sep);
        if s.last() == sep {
            init.push(Seq::<char>::empty())
        } else {
            init.update(init.len() - 1, init.last().push(s.last()))
        }
    }
}

/// Relies on `http::HeaderName::from_str` to accept or refuse a header name,
/// and on `HeaderName::as_str` for the name it keeps.
#[verifier::external_body]
pub(crate) fn parse_header_name(s: &str) -> (r: Option<String>)
    ensures
        opt_string_view(r) == header_name_of(s@),
{
    http::HeaderName::from_str(s).ok().map(|n| n.as_str().to_string())
}

/// Relies on `http::HeaderValue::from_str` to accept or refuse a header value;
/// an accepted value keeps its bytes as given.
#[verifier::external_body]
pub(crate) fn is_header_value(s: &str) -> (r: bool)
    ensures
        r == header_value_valid(s@),
{
    http::HeaderValue::from_str(s).is_ok()
}

/// Relies on `http::Method`'s `TryFrom<&str>` to accept or refuse a method
/// token; an accepted method reads back as given.
#[verifier::external_body]
pub(crate) fn is_method(s: &str) -> (r: bool)
    ensures
        r == method_valid(s@),
{
    http::Method::try_from(s).is_ok()
}

/// Relies on `http::uri::Scheme`'s `TryFrom<&str>` to accept or refuse a
/// scheme; an accepted scheme reads back as given.
#[verifier::external_body]
pub(crate) fn is_scheme(s: &str) -> (r: bool)
    ensures
        r == scheme_valid(s@),
{
    http::uri::Scheme::try_from(s).is_ok()
}

/// Relies on `http::StatusCode::from_u16`, which accepts exactly 100..=999.
#[verifier::external_body]
pub(crate) fn is_status_code(code: u16) -> (r: bool)
    ensures
        r == (100 <= code <= 999),
{
    http::StatusCode::from_u16(code).is_ok()
}

/// Relies on `regex::Regex::from_str` to compile a pattern or refuse it.
#[verifier::external_body]
pub(crate) fn is_regex(s: &str) -> (r: bool)
    ensures
        r == regex_compiles(s@),
{
    regex::Regex::from_str(s).is_ok()
}

/// Relies on `str::split`: the pieces of `s` between dots.
#[verifier::external_body]
pub(crate) fn split_dots(s: &str) -> (r: Vec<String>)
    ensures
        strings_view(r@) == split_on(s@, '.'),
{
    s.split('.').map(|l| l.to_string()).collect()
}

} // verus!
