//! The canonical route model, and the errors of converting into it.
use vstd::prelude::*;

verus! {

/// A path matcher. `Exact` and `Prefix` hold absolute paths; `Regex` holds a
/// pattern that compiles.
#[derive(Debug, Clone, PartialEq, Eq)]
pub enum PathMatch {
    Exact(String),
    Prefix(String),
    Regex(String),
}

/// A header matcher: a normalized header name, and a valid header value or a
/// pattern that compiles.
#[derive(Debug, Clone, PartialEq, Eq)]
pub enum HeaderMatch {
    Exact(String, String),
    Regex(String, String),
}

/// A query parameter matcher: a name, and a value or a pattern that compiles.
#[derive(Debug, Clone, PartialEq, Eq)]
pub enum QueryParamMatch {
    Exact(String, String),
    Regex(String, String),
}

/// A host matcher. A wildcard host `*.a.b` becomes the suffix whose labels,
/// outermost first, are `["b", "a"]`.
#[derive(Debug, Clone, PartialEq, Eq)]
pub enum HostMatch {
    Exact(String),
    Suffix { reverse_labels: Vec<String> },
}

/// A request matcher; absent criteria are `None` or empty.
#[derive(Debug, Clone, PartialEq, Eq)]
pub struct HttpRouteMatch {
    pub path: Option<PathMatch>,
    pub headers: Vec<HeaderMatch>,
    pub query_params: Vec<QueryParamMatch>,
    pub method: Option<String>,
}

/// Header edits: normalized names with valid values.
#[derive(Debug, Clone, PartialEq, Eq)]
pub struct HeaderModifierFilter {
    pub add: Vec<(String, String)>,
    pub set: Vec<(String, String)>,
    pub remove: Vec<String>,
}

/// A redirect's path rewrite; the path is absolute.
#[derive(Debug, Clone, PartialEq, Eq)]
pub enum PathModifier {
    Full(String),
    Prefix(String),
}

/// A redirect: a port, when present, is in 1..=65535 and a status code in
/// 100..=999.
#[derive(Debug, Clone, PartialEq, Eq)]
pub struct RequestRedirectFilter {
    pub scheme: Option<String>,
    pub host: Option<String>,
    pub path: Option<PathModifier>,
    pub port: Option<u16>,
    pub status: Option<u16>,
}

/// Why a conversion failed; each variant holds the offending value.
#[derive(Debug, Clone, PartialEq, Eq)]
pub enum RouteError {
    /// A path match whose path does not begin with `/`.
    RelativePath(String),
    /// A redirect path rewrite whose path does not begin with `/`.
    RelativeRedirectPath(String),
    InvalidHeaderName(String),
    InvalidHeaderValue(String),
    InvalidRegex(String),
    InvalidMethod(String),
    InvalidScheme(String),
    InvalidStatusCode(u16),
}

} // verus!
