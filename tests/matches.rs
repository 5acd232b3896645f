use http_route_policy::gateway::{
    HttpHeaderMatch, HttpPathMatch, HttpQueryParamMatch, HttpRouteMatch as ApiRouteMatch,
};
use http_route_policy::matchers::{
    header_match, host_match, method_match, path_match, query_param_match, starts_with_slash,
    starts_with_wildcard, try_match,
};
use http_route_policy::routes::{
    HeaderMatch, HostMatch, HttpRouteMatch, PathMatch, QueryParamMatch, RouteError,
};

fn s(v: &str) -> String {
    v.to_string()
}

#[test]
fn exact_absolute_path_round_trips() {
    let r = path_match(HttpPathMatch::Exact { value: s("/api/v1") });
    assert_eq!(r, Ok(PathMatch::Exact(s("/api/v1"))));
}

#[test]
fn prefix_absolute_path_round_trips() {
    let r = path_match(HttpPathMatch::PathPrefix { value: s("/") });
    assert_eq!(r, Ok(PathMatch::Prefix(s("/"))));
}

#[test]
fn relative_paths_fail_naming_the_path() {
    let r = path_match(HttpPathMatch::Exact { value: s("api") });
    assert_eq!(r, Err(RouteError::RelativePath(s("api"))));
    let r = path_match(HttpPathMatch::PathPrefix { value: s("") });
    assert_eq!(r, Err(RouteError::RelativePath(s(""))));
}

#[test]
fn regex_paths_compile_or_fail() {
    let r = path_match(HttpPathMatch::RegularExpression { value: s("/users/[0-9]+") });
    assert_eq!(r, Ok(PathMatch::Regex(s("/users/[0-9]+"))));
    let r = path_match(HttpPathMatch::RegularExpression { value: s("/users/(") });
    assert_eq!(r, Err(RouteError::InvalidRegex(s("/users/("))));
}

#[test]
fn leading_character_checks() {
    assert!(starts_with_slash("/x"));
    assert!(!starts_with_slash("x/"));
    assert!(!starts_with_slash(""));
    assert!(starts_with_wildcard("*.a"));
    assert!(!starts_with_wildcard("*"));
    assert!(!starts_with_wildcard("a.*"));
}

#[test]
fn wildcard_host_becomes_reversed_suffix() {
    let r = host_match(s("*.example.com"));
    assert_eq!(r, HostMatch::Suffix { reverse_labels: vec![s("com"), s("example")] });
}

#[test]
fn deeper_wildcard_host_keeps_every_label() {
    let r = host_match(s("*.a.b.c"));
    assert_eq!(r, HostMatch::Suffix { reverse_labels: vec![s("c"), s("b"), s("a")] });
}

#[test]
fn plain_host_matches_exactly() {
    assert_eq!(host_match(s("example.com")), HostMatch::Exact(s("example.com")));
    assert_eq!(host_match(s("a.*.com")), HostMatch::Exact(s("a.*.com")));
}

#[test]
fn header_exact_normalizes_the_name() {
    let r = header_match(HttpHeaderMatch::Exact { name: s("X-Trace"), value: s("On") });
    assert_eq!(r, Ok(HeaderMatch::Exact(s("x-trace"), s("On"))));
}

#[test]
fn header_with_invalid_name_fails() {
    let r = header_match(HttpHeaderMatch::Exact { name: s("X-Bad Name"), value: s("1") });
    assert_eq!(r, Err(RouteError::InvalidHeaderName(s("X-Bad Name"))));
}

#[test]
fn header_with_invalid_value_fails() {
    let r = header_match(HttpHeaderMatch::Exact { name: s("x-a"), value: s("a\nb") });
    assert_eq!(r, Err(RouteError::InvalidHeaderValue(s("a\nb"))));
}

#[test]
fn header_regex_compiles_or_fails() {
    let r = header_match(HttpHeaderMatch::RegularExpression { name: s("X-Id"), value: s("^[a-f]+$") });
    assert_eq!(r, Ok(HeaderMatch::Regex(s("x-id"), s("^[a-f]+$"))));
    let r = header_match(HttpHeaderMatch::RegularExpression { name: s("x-id"), value: s("[a-") });
    assert_eq!(r, Err(RouteError::InvalidRegex(s("[a-"))));
}

#[test]
fn query_params_are_kept_verbatim() {
    let r = query_param_match(HttpQueryParamMatch::Exact { name: s("Odd Name"), value: s("a b") });
    assert_eq!(r, Ok(QueryParamMatch::Exact(s("Odd Name"), s("a b"))));
    let r = query_param_match(HttpQueryParamMatch::RegularExpression { name: s("q"), value: s("x+") });
    assert_eq!(r, Ok(QueryParamMatch::Regex(s("q"), s("x+"))));
    let r = query_param_match(HttpQueryParamMatch::RegularExpression { name: s("q"), value: s("(") });
    assert_eq!(r, Err(RouteError::InvalidRegex(s("("))));
}

#[test]
fn methods_are_tokens() {
    assert_eq!(method_match(s("GET")), Ok(s("GET")));
    assert_eq!(method_match(s("GE T")), Err(RouteError::InvalidMethod(s("GE T"))));
    assert_eq!(method_match(s("")), Err(RouteError::InvalidMethod(s(""))));
}

#[test]
fn absent_criteria_convert_to_empty() {
    let r = try_match(ApiRouteMatch { path: None, headers: None, query_params: None, method: None });
    let expected =
        HttpRouteMatch { path: None, headers: vec![], query_params: vec![], method: None };
    assert_eq!(r, Ok(expected));
}

#[test]
fn path_and_method_convert_together() {
    let r = try_match(ApiRouteMatch {
        path: Some(HttpPathMatch::PathPrefix { value: s("/api") }),
        headers: None,
        query_params: None,
        method: Some(s("GET")),
    });
    let expected = HttpRouteMatch {
        path: Some(PathMatch::Prefix(s("/api"))),
        headers: vec![],
        query_params: vec![],
        method: Some(s("GET")),
    };
    assert_eq!(r, Ok(expected));
}

#[test]
fn first_failing_criterion_wins() {
    let r = try_match(ApiRouteMatch {
        path: Some(HttpPathMatch::Exact { value: s("/ok") }),
        headers: Some(vec![
            HttpHeaderMatch::Exact { name: s("x-good"), value: s("1") },
            HttpHeaderMatch::Exact { name: s("bad name"), value: s("1") },
            HttpHeaderMatch::Exact { name: s("x-c"), value: s("bad\nvalue") },
        ]),
        query_params: Some(vec![HttpQueryParamMatch::RegularExpression {
            name: s("q"),
            value: s("("),
        }]),
        method: Some(s("G T")),
    });
    assert_eq!(r, Err(RouteError::InvalidHeaderName(s("bad name"))));
}

#[test]
fn path_failure_comes_before_method_failure() {
    let r = try_match(ApiRouteMatch {
        path: Some(HttpPathMatch::Exact { value: s("rel") }),
        headers: None,
        query_params: None,
        method: Some(s("G T")),
    });
    assert_eq!(r, Err(RouteError::RelativePath(s("rel"))));
}

#[test]
fn query_failure_comes_before_method_failure() {
    let r = try_match(ApiRouteMatch {
        path: None,
        headers: Some(vec![]),
        query_params: Some(vec![
            HttpQueryParamMatch::Exact { name: s("a"), value: s("b") },
            HttpQueryParamMatch::RegularExpression { name: s("q"), value: s("(") },
        ]),
        method: Some(s("G T")),
    });
    assert_eq!(r, Err(RouteError::InvalidRegex(s("("))));
}

#[test]
fn headers_and_queries_convert_in_order() {
    let r = try_match(ApiRouteMatch {
        path: None,
        headers: Some(vec![
            HttpHeaderMatch::Exact { name: s("A"), value: s("1") },
            HttpHeaderMatch::Exact { name: s("B"), value: s("2") },
        ]),
        query_params: Some(vec![HttpQueryParamMatch::Exact { name: s("k"), value: s("v") }]),
        method: None,
    });
    let expected = HttpRouteMatch {
        path: None,
        headers: vec![HeaderMatch::Exact(s("a"), s("1")), HeaderMatch::Exact(s("b"), s("2"))],
        query_params: vec![QueryParamMatch::Exact(s("k"), s("v"))],
        method: None,
    };
    assert_eq!(r, Ok(expected));
}
