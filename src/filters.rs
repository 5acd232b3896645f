//! Conversion of request filters: header modifiers and redirects.
use crate::gateway;
use crate::matchers::{is_absolute, opt_seq, starts_with_slash};
use crate::routes::{HeaderModifierFilter, PathModifier, RequestRedirectFilter, RouteError};
use crate::tokens::{
    header_name_of, header_value_valid, is_header_value, is_scheme, is_status_code,
    parse_header_name, scheme_valid,
};
use vstd::prelude::*;

verus! {

/// The error a header name and value give, if any: the name is checked first.
pub open spec fn header_error(h: gateway::HttpHeader) -> Option<RouteError> {
    if header_name_of(h.name@) is None {
        Some(RouteError::InvalidHeaderName(h.name))
    } else if !header_value_valid(h.value@) {
        Some(RouteError::InvalidHeaderValue(h.value))
    } else {
        None
    }
}

/// `p` is the normalized name of `h` with its value as given.
pub open spec fn header_converts(h: gateway::HttpHeader, p: (String, String)) -> bool {
    header_name_of(h.name@) == Some(p.0@) && p.1 == h.value
}

/// The header at `i` is the first in `s` that fails, and fails with `e`.
pub open spec fn headers_fail_at(s: Seq<gateway::HttpHeader>, i: int, e: RouteError) -> bool {
    &&& 0 <= i < s.len()
    &&& forall|j: int| 0 <= j < i ==> header_error(#[trigger] s[j]) is None
    &&& header_error(s[i]) == Some(e)
}

pub open spec fn headers_ok(s: Seq<gateway::HttpHeader>) -> bool {
    forall|j: int| 0 <= j < s.len() ==> header_error(#[trigger] s[j]) is None
}

pub open spec fn headers_converted(s: Seq<gateway::HttpHeader>, r: Seq<(String, String)>) -> bool {
    &&& headers_ok(s)
    &&& r.len() == s.len()
    &&& forall|j: int| 0 <= j < s.len() ==> header_converts(#[trigger] s[j], r[j])
}

fn header_pairs(hs: Option<Vec<gateway::HttpHeader>>) -> (r: Result<
    Vec<(String, String)>,
    RouteError,
>)
    ensures
        (match r {
            Ok(out) => headers_converted(opt_seq(hs), out@),
            Err(e) => exists|i: int| headers_fail_at(opt_seq(hs), i, e),
        }),
{
    let ghost all = opt_seq(hs);
    let mut rest = match hs {
        Some(v) => v,
        None => Vec::new(),
    };
    let mut out: Vec<(String, String)> = Vec::new();
    while rest.len() > 0
        invariant
            all == opt_seq(hs),
            out@.len() <= all.len(),
            rest@ == all.skip(out@.len() as int),
            forall|j: int|
                0 <= j < out@.len() ==> header_error(#[trigger] all[j]) is None
                    && header_converts(all[j], out@[j]),
        decreases rest.len(),
    {
        let ghost k = out@.len() as int;
        let h = rest.remove(0);
        assert(h == all[k]);
        let gateway::HttpHeader { name, value } = h;
        match parse_header_name(&name) {
            None => {
                assert(headers_fail_at(all, k, RouteError::InvalidHeaderName(name)));
                return Err(RouteError::InvalidHeaderName(name));
            },
            Some(n) => {
                if !is_header_value(&value) {
                    assert(headers_fail_at(all, k, RouteError::InvalidHeaderValue(value)));
                    return Err(RouteError::InvalidHeaderValue(value));
                }
                out.push((n, value));
                assert(rest@ =~= all.skip(out@.len() as int));
            },
        }
    }
    Ok(out)
}

/// The name at `i` is the first in `s` that the `http` crate refuses.
pub open spec fn names_fail_at(s: Seq<String>, i: int) -> bool {
    &&& 0 <= i < s.len()
    &&& forall|j: int| 0 <= j < i ==> (#[trigger] header_name_of(s[j]@)) is Some
    &&& header_name_of(s[i]@) is None
}

pub open spec fn names_converted(s: Seq<String>, r: Seq<String>) -> bool {
    &&& r.len() == s.len()
    &&& forall|j: int| 0 <= j < s.len() ==> header_name_of(#[trigger] s[j]@) == Some(r[j]@)
}

fn header_names(ns: Option<Vec<String>>) -> (r: Result<Vec<String>, RouteError>)
    ensures
        (match r {
            Ok(out) => names_converted(opt_seq(ns), out@),
            Err(e) => exists|i: int|
                names_fail_at(opt_seq(ns), i) && e == RouteError::InvalidHeaderName(
                    opt_seq(ns)[i],
                ),
        }),
{
    let ghost all = opt_seq(ns);
    let mut rest = match ns {
        Some(v) => v,
        None => Vec::new(),
    };
    let mut out: Vec<String> = Vec::new();
    while rest.len() > 0
        invariant
            all == opt_seq(ns),
            out@.len() <= all.len(),
            rest@ == all.skip(out@.len() as int),
            forall|j: int|
                0 <= j < out@.len() ==> header_name_of(#[trigger] all[j]@) == Some(out@[j]@),
        decreases rest.len(),
    {
        let ghost k = out@.len() as int;
        let name = rest.remove(0);
        assert(name == all[k]);
        match parse_header_name(&name) {
            None => {
                assert(names_fail_at(all, k));
                return Err(RouteError::InvalidHeaderName(name));
            },
            Some(n) => {
                out.push(n);
                assert(rest@ =~= all.skip(out@.len() as int));
            },
        }
    }
    Ok(out)
}

/// A header modifier fails with `e`: the lists are checked in the order add,
/// set, remove, each from its first element, and the first failure is `e`.
pub open spec fn header_modifier_fails_with(f: gateway::HttpRequestHeaderFilter, e: RouteError) -> bool {
    let add = opt_seq(f.add);
    let set = opt_seq(f.set);
    let remove = opt_seq(f.remove);
    ||| exists|i: int| headers_fail_at(add, i, e)
    ||| headers_ok(add) && exists|i: int| headers_fail_at(set, i, e)
    ||| headers_ok(add) && headers_ok(set) && exists|i: int|
        names_fail_at(remove, i) && e == RouteError::InvalidHeaderName(remove[i])
}

/// `r` is the conversion of a header modifier on which nothing fails.
pub open spec fn header_modifier_converted(
    f: gateway::HttpRequestHeaderFilter,
    r: HeaderModifierFilter,
) -> bool {
    &&& headers_converted(opt_seq(f.add), r.add@)
    &&& headers_converted(opt_seq(f.set), r.set@)
    &&& names_converted(opt_seq(f.remove), r.remove@)
}

/// Converts a header modifier. Absent lists become empty; every name must be a
/// valid header name and every value a valid header value.
pub fn header_modifier(f: gateway::HttpRequestHeaderFilter) -> (r: Result<
    HeaderModifierFilter,
    RouteError,
>)
    ensures
        (match r {
            Ok(c) => header_modifier_converted(f, c),
            Err(e) => header_modifier_fails_with(f, e),
        }),
{
    let gateway::HttpRequestHeaderFilter { set, add, remove } = f;
    let add = match header_pairs(add) {
        Ok(v) => v,
        Err(e) => {
            return Err(e);
        },
    };
    let set = match header_pairs(set) {
        Ok(v) => v,
        Err(e) => {
            return Err(e);
        },
    };
    let remove = match header_names(remove) {
        Ok(v) => v,
        Err(e) => {
            return Err(e);
        },
    };
    Ok(HeaderModifierFilter { add, set, remove })
}

pub open spec fn path_modifier_result(m: gateway::HttpPathModifier) -> Result<
    PathModifier,
    RouteError,
> {
    match m {
        gateway::HttpPathModifier::ReplaceFullPath { replace_full_path } => if is_absolute(
            replace_full_path@,
        ) {
            Ok(PathModifier::Full(replace_full_path))
        } else {
            Err(RouteError::RelativeRedirectPath(replace_full_path))
        },
        gateway::HttpPathModifier::ReplacePrefixMatch { replace_prefix_match } => if is_absolute(
            replace_prefix_match@,
        ) {
            Ok(PathModifier::Prefix(replace_prefix_match))
        } else {
            Err(RouteError::RelativeRedirectPath(replace_prefix_match))
        },
    }
}

/// Converts a redirect's path rewrite; the path must be absolute.
pub fn path_modifier(m: gateway::HttpPathModifier) -> (r: Result<PathModifier, RouteError>)
    ensures
        r == path_modifier_result(m),
{
    match m {
        gateway::HttpPathModifier::ReplaceFullPath { replace_full_path } => {
            if starts_with_slash(&replace_full_path) {
                Ok(PathModifier::Full(replace_full_path))
            } else {
                Err(RouteError::RelativeRedirectPath(replace_full_path))
            }
        },
        gateway::HttpPathModifier::ReplacePrefixMatch { replace_prefix_match } => {
            if starts_with_slash(&replace_prefix_match) {
                Ok(PathModifier::Prefix(replace_prefix_match))
            } else {
                Err(RouteError::RelativeRedirectPath(replace_prefix_match))
            }
        },
    }
}

/// The port a redirect keeps: one in 1..=65535, else none.
pub open spec fn port_override_of(port: u32) -> Option<u16> {
    if 1 <= port <= 65535 {
        Some(port as u16)
    } else {
        None
    }
}

/// The port a redirect keeps; a port out of 1..=65535 is dropped.
pub fn port_override(port: u32) -> (r: Option<u16>)
    ensures
        r == port_override_of(port),
{
    if 1 <= port && port <= 65535 {
        Some(port as u16)
    } else {
        None
    }
}

pub open spec fn redirect_result(f: gateway::HttpRequestRedirectFilter) -> Result<
    RequestRedirectFilter,
    RouteError,
> {
    match (f.scheme, f.path, f.status_code) {
        (Some(s), _, _) if !scheme_valid(s@) => Err(RouteError::InvalidScheme(s)),
        (_, Some(p), _) if path_modifier_result(p) is Err => Err(path_modifier_result(p)->Err_0),
        (_, _, Some(c)) if !(100 <= c <= 999) => Err(RouteError::InvalidStatusCode(c)),
        _ => Ok(
            RequestRedirectFilter {
                scheme: f.scheme,
                host: f.hostname,
                path: match f.path {
                    Some(p) => Some(path_modifier_result(p)->Ok_0),
                    None => None,
                },
                port: match f.port {
                    Some(p) => port_override_of(p),
                    None => None,
                },
                status: f.status_code,
            },
        ),
    }
}

/// Converts a redirect. The scheme must be one the `http` crate accepts, the
/// path rewrite absolute and the status code in 100..=999, checked in that
/// order; a port out of 1..=65535 is dropped.
pub fn req_redirect(f: gateway::HttpRequestRedirectFilter) -> (r: Result<
    RequestRedirectFilter,
    RouteError,
>)
    ensures
        r == redirect_result(f),
{
    let gateway::HttpRequestRedirectFilter { scheme, hostname, path, port, status_code } = f;
    if let Some(s) = &scheme {
        if !is_scheme(s) {
            return Err(RouteError::InvalidScheme(s.clone()));
        }
    }
    let path = match path {
        Some(p) => match path_modifier(p) {
            Ok(m) => Some(m),
            Err(e) => {
                return Err(e);
            },
        },
        None => None,
    };
    if let Some(c) = status_code {
        if !is_status_code(c) {
            return Err(RouteError::InvalidStatusCode(c));
        }
    }
    let port = match port {
        Some(p) => port_override(p),
        None => None,
    };
    Ok(RequestRedirectFilter { scheme, host: hostname, path, port, status: status_code })
}

} // verus!
