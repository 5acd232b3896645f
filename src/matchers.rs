//! Conversion of request matches: path, host, header, query parameter, method.
use crate::gateway;
use crate::routes::{HeaderMatch, HostMatch, HttpRouteMatch, PathMatch, QueryParamMatch, RouteError};
use crate::tokens::{
    header_name_of, header_value_valid, is_header_value, is_method, is_regex, method_valid,
    parse_header_name, regex_compiles, split_dots, split_on, strings_view,
};
use vstd::prelude::*;

verus! {

/// A path is absolute when it begins with `/`.
pub open spec fn is_absolute(s: Seq<char>) -> bool {
    s.len() > 0 && s[0] == '/'
}

/// A host is a wildcard when it begins with `*.`.
pub open spec fn is_wildcard_host(s: Seq<char>) -> bool {
    s.len() >= 2 && s[0] == '*' && s[1] == '.'
}

/// The elements of an optional list; an absent list has none.
pub open spec fn opt_seq<T>(o: Option<Vec<T>>) -> Seq<T> {
    match o {
        Some(v) => v@,
        None => Seq::empty(),
    }
}

/// Whether `s` begins with `/`.
pub fn starts_with_slash(s: &str) -> (r: bool)
    ensures
        r == is_absolute(s@),
{
    broadcast use vstd::string::axiom_spec_iter, vstd::string::next_postcondition;

    let mut chars = s.chars();
    match chars.next() {
        Some(c) => c == '/',
        None => false,
    }
}

/// Whether `s` begins with `*.`.
pub fn starts_with_wildcard(s: &str) -> (r: bool)
    ensures
        r == is_wildcard_host(s@),
{
    broadcast use vstd::string::axiom_spec_iter, vstd::string::next_postcondition;

    let mut chars = s.chars();
    let first = chars.next();
    let second = chars.next();
    match (first, second) {
        (Some(a), Some(b)) => a == '*' && b == '.',
        _ => false,
    }
}

pub open spec fn path_match_result(m: gateway::HttpPathMatch) -> Result<PathMatch, RouteError> {
    match m {
        gateway::HttpPathMatch::Exact { value } => if is_absolute(value@) {
            Ok(PathMatch::Exact(value))
        } else {
            Err(RouteError::RelativePath(value))
        },
        gateway::HttpPathMatch::PathPrefix { value } => if is_absolute(value@) {
            Ok(PathMatch::Prefix(value))
        } else {
            Err(RouteError::RelativePath(value))
        },
        gateway::HttpPathMatch::RegularExpression { value } => if regex_compiles(value@) {
            Ok(PathMatch::Regex(value))
        } else {
            Err(RouteError::InvalidRegex(value))
        },
    }
}

/// Converts a path match. Exact and prefix paths must be absolute; a pattern
/// must compile.
pub fn path_match(m: gateway::HttpPathMatch) -> (r: Result<PathMatch, RouteError>)
    ensures
        r == path_match_result(m),
{
    match m {
        gateway::HttpPathMatch::Exact { value } => {
            if starts_with_slash(&value) {
                Ok(PathMatch::Exact(value))
            } else {
                Err(RouteError::RelativePath(value))
            }
        },
        gateway::HttpPathMatch::PathPrefix { value } => {
            if starts_with_slash(&value) {
                Ok(PathMatch::Prefix(value))
            } else {
                Err(RouteError::RelativePath(value))
            }
        },
        gateway::HttpPathMatch::RegularExpression { value } => {
            if is_regex(&value) {
                Ok(PathMatch::Regex(value))
            } else {
                Err(RouteError::InvalidRegex(value))
            }
        },
    }
}

/// Exact and prefix matches on an absolute path convert to that same path;
/// on any other path both fail with an error that holds the path.
pub proof fn absolute_paths_round_trip(p: String)
    ensures
        is_absolute(p@) ==> path_match_result((gateway::HttpPathMatch::Exact { value: p }))
            == Ok::<PathMatch, RouteError>(PathMatch::Exact(p)),
        is_absolute(p@) ==> path_match_result((gateway::HttpPathMatch::PathPrefix { value: p }))
            == Ok::<PathMatch, RouteError>(PathMatch::Prefix(p)),
        !is_absolute(p@) ==> path_match_result((gateway::HttpPathMatch::Exact { value: p }))
            == Err::<PathMatch, RouteError>(RouteError::RelativePath(p)),
        !is_absolute(p@) ==> path_match_result((gateway::HttpPathMatch::PathPrefix { value: p }))
            == Err::<PathMatch, RouteError>(RouteError::RelativePath(p)),
{
}

/// The labels of a wildcard host after the wildcard, outermost first.
pub open spec fn reverse_labels_of(s: Seq<char>) -> Seq<Seq<char>> {
    split_on(s, '.').drop_first().reverse()
}

pub open spec fn host_match_converts(hostname: String, r: HostMatch) -> bool {
    if is_wildcard_host(hostname@) {
        &&& r is Suffix
        &&& strings_view(r->reverse_labels@) == reverse_labels_of(hostname@)
    } else {
        r == HostMatch::Exact(hostname)
    }
}

proof fn lemma_split_nonempty(s: Seq<char>, sep: char)
    ensures
        split_on(s, sep).len() >= 1,
    decreases s.len(),
{
    if s.len() > 0 {
        lemma_split_nonempty(s.drop_last(), sep);
    }
}

/// Converts a host name. A wildcard host `*.a.b` becomes a suffix match on the
/// labels after the wildcard, outermost first; any other host matches exactly.
pub fn host_match(hostname: String) -> (r: HostMatch)
    ensures
        host_match_converts(hostname, r),
{
    if starts_with_wildcard(&hostname) {
        let labels = split_dots(&hostname);
        proof {
            lemma_split_nonempty(hostname@, '.');
        }
        let n = labels.len();
        let mut reverse_labels: Vec<String> = Vec::new();
        let mut i: usize = n;
        while i > 1
            invariant
                1 <= i <= n,
                n == labels@.len(),
                strings_view(labels@) == split_on(hostname@, '.'),
                reverse_labels@.len() == n - i,
                forall|k: int|
                    0 <= k < reverse_labels@.len() ==> (#[trigger] reverse_labels@[k])@
                        == labels@[n - 1 - k]@,
            decreases i,
        {
            i = i - 1;
            reverse_labels.push(labels[i].clone());
        }
        proof {
            assert(strings_view(reverse_labels@) =~= reverse_labels_of(hostname@));
        }
        HostMatch::Suffix { reverse_labels }
    } else {
        HostMatch::Exact(hostname)
    }
}

/// The error a header match gives, if any: the name is checked first.
pub open spec fn header_match_error(m: gateway::HttpHeaderMatch) -> Option<RouteError> {
    match m {
        gateway::HttpHeaderMatch::Exact { name, value } => if header_name_of(name@) is None {
            Some(RouteError::InvalidHeaderName(name))
        } else if !header_value_valid(value@) {
            Some(RouteError::InvalidHeaderValue(value))
        } else {
            None
        },
        gateway::HttpHeaderMatch::RegularExpression { name, value } => if header_name_of(
            name@,
        ) is None {
            Some(RouteError::InvalidHeaderName(name))
        } else if !regex_compiles(value@) {
            Some(RouteError::InvalidRegex(value))
        } else {
            None
        },
    }
}

/// `r` is the conversion of a header match that converts: the normalized name
/// and the value as given.
pub open spec fn header_match_converts(m: gateway::HttpHeaderMatch, r: HeaderMatch) -> bool {
    match (m, r) {
        (gateway::HttpHeaderMatch::Exact { name, value }, HeaderMatch::Exact(n, v)) => {
            header_name_of(name@) == Some(n@) && v == value
        },
        (gateway::HttpHeaderMatch::RegularExpression { name, value }, HeaderMatch::Regex(n, v)) => {
            header_name_of(name@) == Some(n@) && v == value
        },
        _ => false,
    }
}

/// Converts a header match: the name must be a valid header name, and the
/// value a valid header value (exact) or a pattern that compiles.
pub fn header_match(m: gateway::HttpHeaderMatch) -> (r: Result<HeaderMatch, RouteError>)
    ensures
        (match r {
            Ok(h) => header_match_error(m) is None && header_match_converts(m, h),
            Err(e) => header_match_error(m) == Some(e),
        }),
{
    match m {
        gateway::HttpHeaderMatch::Exact { name, value } => {
            match parse_header_name(&name) {
                None => Err(RouteError::InvalidHeaderName(name)),
                Some(n) => {
                    if is_header_value(&value) {
                        Ok(HeaderMatch::Exact(n, value))
                    } else {
                        Err(RouteError::InvalidHeaderValue(value))
                    }
                },
            }
        },
        gateway::HttpHeaderMatch::RegularExpression { name, value } => {
            match parse_header_name(&name) {
                None => Err(RouteError::InvalidHeaderName(name)),
                Some(n) => {
                    if is_regex(&value) {
                        Ok(HeaderMatch::Regex(n, value))
                    } else {
                        Err(RouteError::InvalidRegex(value))
                    }
                },
            }
        },
    }
}

pub open spec fn query_param_result(m: gateway::HttpQueryParamMatch) -> Result<
    QueryParamMatch,
    RouteError,
> {
    match m {
        gateway::HttpQueryParamMatch::Exact { name, value } => Ok(
            QueryParamMatch::Exact(name, value),
        ),
        gateway::HttpQueryParamMatch::RegularExpression { name, value } => if regex_compiles(
            value@,
        ) {
            Ok(QueryParamMatch::Regex(name, value))
        } else {
            Err(RouteError::InvalidRegex(value))
        },
    }
}

/// Converts a query parameter match: name and value are kept as given; a
/// pattern must compile.
pub fn query_param_match(m: gateway::HttpQueryParamMatch) -> (r: Result<
    QueryParamMatch,
    RouteError,
>)
    ensures
        r == query_param_result(m),
{
    match m {
        gateway::HttpQueryParamMatch::Exact { name, value } => Ok(
            QueryParamMatch::Exact(name, value),
        ),
        gateway::HttpQueryParamMatch::RegularExpression { name, value } => {
            if is_regex(&value) {
                Ok(QueryParamMatch::Regex(name, value))
            } else {
                Err(RouteError::InvalidRegex(value))
            }
        },
    }
}

pub open spec fn method_result(m: String) -> Result<String, RouteError> {
    if method_valid(m@) {
        Ok(m)
    } else {
        Err(RouteError::InvalidMethod(m))
    }
}

/// Converts a method token; an accepted method is kept as given.
pub fn method_match(m: String) -> (r: Result<String, RouteError>)
    ensures
        r == method_result(m),
{
    if is_method(&m) {
        Ok(m)
    } else {
        Err(RouteError::InvalidMethod(m))
    }
}

/// The header match at `i` is the first in `s` that fails, and fails with `e`.
pub open spec fn header_matches_fail_at(
    s: Seq<gateway::HttpHeaderMatch>,
    i: int,
    e: RouteError,
) -> bool {
    &&& 0 <= i < s.len()
    &&& forall|j: int| 0 <= j < i ==> header_match_error(#[trigger] s[j]) is None
    &&& header_match_error(s[i]) == Some(e)
}

pub open spec fn header_matches_ok(s: Seq<gateway::HttpHeaderMatch>) -> bool {
    forall|j: int| 0 <= j < s.len() ==> header_match_error(#[trigger] s[j]) is None
}

pub open spec fn header_matches_converted(
    s: Seq<gateway::HttpHeaderMatch>,
    r: Seq<HeaderMatch>,
) -> bool {
    &&& header_matches_ok(s)
    &&& r.len() == s.len()
    &&& forall|j: int| 0 <= j < s.len() ==> header_match_converts(#[trigger] s[j], r[j])
}

fn header_matches(hs: Option<Vec<gateway::HttpHeaderMatch>>) -> (r: Result<
    Vec<HeaderMatch>,
    RouteError,
>)
    ensures
        (match r {
            Ok(out) => header_matches_converted(opt_seq(hs), out@),
            Err(e) => exists|i: int| header_matches_fail_at(opt_seq(hs), i, e),
        }),
{
    let ghost all = opt_seq(hs);
    let mut rest = match hs {
        Some(v) => v,
        None => Vec::new(),
    };
    let mut out: Vec<HeaderMatch> = Vec::new();
    while rest.len() > 0
        invariant
            all == opt_seq(hs),
            out@.len() <= all.len(),
            rest@ == all.skip(out@.len() as int),
            forall|j: int|
                0 <= j < out@.len() ==> header_match_error(#[trigger] all[j]) is None
                    && header_match_converts(all[j], out@[j]),
        decreases rest.len(),
    {
        let ghost k = out@.len() as int;
        let m = rest.remove(0);
        assert(m == all[k]);
        match header_match(m) {
            Ok(h) => {
                out.push(h);
                assert(rest@ =~= all.skip(out@.len() as int));
            },
            Err(e) => {
                assert(header_matches_fail_at(all, k, e));
                return Err(e);
            },
        }
    }
    Ok(out)
}

/// The query parameter match at `i` is the first in `s` that fails, and fails
/// with `e`.
pub open spec fn query_params_fail_at(
    s: Seq<gateway::HttpQueryParamMatch>,
    i: int,
    e: RouteError,
) -> bool {
    &&& 0 <= i < s.len()
    &&& forall|j: int| 0 <= j < i ==> (#[trigger] query_param_result(s[j])) is Ok
    &&& query_param_result(s[i]) == Err::<QueryParamMatch, RouteError>(e)
}

pub open spec fn query_params_converted(
    s: Seq<gateway::HttpQueryParamMatch>,
    r: Seq<QueryParamMatch>,
) -> bool {
    &&& r.len() == s.len()
    &&& forall|j: int|
        0 <= j < s.len() ==> query_param_result(#[trigger] s[j]) == Ok::<
            QueryParamMatch,
            RouteError,
        >(r[j])
}

fn query_param_matches(qs: Option<Vec<gateway::HttpQueryParamMatch>>) -> (r: Result<
    Vec<QueryParamMatch>,
    RouteError,
>)
    ensures
        (match r {
            Ok(out) => query_params_converted(opt_seq(qs), out@),
            Err(e) => exists|i: int| query_params_fail_at(opt_seq(qs), i, e),
        }),
{
    let ghost all = opt_seq(qs);
    let mut rest = match qs {
        Some(v) => v,
        None => Vec::new(),
    };
    let mut out: Vec<QueryParamMatch> = Vec::new();
    while rest.len() > 0
        invariant
            all == opt_seq(qs),
            out@.len() <= all.len(),
            rest@ == all.skip(out@.len() as int),
            forall|j: int|
                0 <= j < out@.len() ==> query_param_result(#[trigger] all[j]) == Ok::<
                    QueryParamMatch,
                    RouteError,
                >(out@[j]),
        decreases rest.len(),
    {
        let ghost k = out@.len() as int;
        let m = rest.remove(0);
        assert(m == all[k]);
        match query_param_match(m) {
            Ok(q) => {
                out.push(q);
                assert(rest@ =~= all.skip(out@.len() as int));
            },
            Err(e) => {
                assert(query_params_fail_at(all, k, e));
                return Err(e);
            },
        }
    }
    Ok(out)
}

pub open spec fn path_error(p: Option<gateway::HttpPathMatch>) -> Option<RouteError> {
    match p {
        Some(m) => match path_match_result(m) {
            Ok(_) => None,
            Err(e) => Some(e),
        },
        None => None,
    }
}

pub open spec fn method_error(m: Option<String>) -> Option<RouteError> {
    match m {
        Some(t) => match method_result(t) {
            Ok(_) => None,
            Err(e) => Some(e),
        },
        None => None,
    }
}

/// A request match fails with `e`: the criteria are checked in the order
/// path, headers, query parameters, method, and the first failure is `e`.
pub open spec fn route_match_fails_with(m: gateway::HttpRouteMatch, e: RouteError) -> bool {
    let hs = opt_seq(m.headers);
    let qs = opt_seq(m.query_params);
    ||| path_error(m.path) == Some(e)
    ||| path_error(m.path) is None && exists|i: int| header_matches_fail_at(hs, i, e)
    ||| path_error(m.path) is None && header_matches_ok(hs) && exists|i: int|
        query_params_fail_at(qs, i, e)
    ||| path_error(m.path) is None && header_matches_ok(hs) && (forall|j: int|
        0 <= j < qs.len() ==> (#[trigger] query_param_result(qs[j])) is Ok) && method_error(
        m.method,
    ) == Some(e)
}

/// `r` is the conversion of a request match on which no criterion fails.
pub open spec fn route_match_converted(m: gateway::HttpRouteMatch, r: HttpRouteMatch) -> bool {
    &&& path_error(m.path) is None
    &&& r.path == match m.path {
        Some(p) => Some(path_match_result(p)->Ok_0),
        None => None,
    }
    &&& header_matches_converted(opt_seq(m.headers), r.headers@)
    &&& query_params_converted(opt_seq(m.query_params), r.query_params@)
    &&& method_error(m.method) is None
    &&& r.method == m.method
}

/// Converts a request match. Absent lists become empty; the first criterion
/// that fails makes the whole conversion fail with its error.
pub fn try_match(m: gateway::HttpRouteMatch) -> (r: Result<HttpRouteMatch, RouteError>)
    ensures
        (match r {
            Ok(c) => route_match_converted(m, c),
            Err(e) => route_match_fails_with(m, e),
        }),
{
    let gateway::HttpRouteMatch { path, headers, query_params, method } = m;
    let path = match path {
        Some(p) => match path_match(p) {
            Ok(c) => Some(c),
            Err(e) => {
                return Err(e);
            },
        },
        None => None,
    };
    let headers = match header_matches(headers) {
        Ok(v) => v,
        Err(e) => {
            return Err(e);
        },
    };
    let query_params = match query_param_matches(query_params) {
        Ok(v) => v,
        Err(e) => {
            return Err(e);
        },
    };
    let method = match method {
        Some(t) => match method_match(t) {
            Ok(c) => Some(c),
            Err(e) => {
                return Err(e);
            },
        },
        None => None,
    };
    Ok(HttpRouteMatch { path, headers, query_params, method })
}

} // verus!
