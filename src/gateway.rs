//! Route rules as the resource schemas spell them: optional fields, raw strings.
use vstd::prelude::*;

verus! {

/// How a request path is to be matched.
#[derive(Debug, Clone, PartialEq, Eq)]
pub enum HttpPathMatch {
    Exact { value: String },
    PathPrefix { value: String },
    RegularExpression { value: String },
}

/// How a request header is to be matched.
#[derive(Debug, Clone, PartialEq, Eq)]
pub enum HttpHeaderMatch {
    Exact { name: String, value: String },
    RegularExpression { name: String, value: String },
}

/// How a query parameter is to be matched.
#[derive(Debug, Clone, PartialEq, Eq)]
pub enum HttpQueryParamMatch {
    Exact { name: String, value: String },
    RegularExpression { name: String, value: String },
}

/// One match of a route rule; every criterion may be absent.
#[derive(Debug, Clone, PartialEq, Eq)]
pub struct HttpRouteMatch {
    pub path: Option<HttpPathMatch>,
    pub headers: Option<Vec<HttpHeaderMatch>>,
    pub query_params: Option<Vec<HttpQueryParamMatch>>,
    pub method: Option<String>,
}

/// A header name and value.
#[derive(Debug, Clone, PartialEq, Eq)]
pub struct HttpHeader {
    pub name: String,
    pub value: String,
}

/// A filter that adds, sets or removes request headers.
#[derive(Debug, Clone, PartialEq, Eq)]
pub struct HttpRequestHeaderFilter {
    pub set: Option<Vec<HttpHeader>>,
    pub add: Option<Vec<HttpHeader>>,
    pub remove: Option<Vec<String>>,
}

/// How a redirect rewrites the request path.
#[derive(Debug, Clone, PartialEq, Eq)]
pub enum HttpPathModifier {
    ReplaceFullPath { replace_full_path: String },
    ReplacePrefixMatch { replace_prefix_match: String },
}

/// A filter that answers the request with a redirect.
#[derive(Debug, Clone, PartialEq, Eq)]
pub struct HttpRequestRedirectFilter {
    pub scheme: Option<String>,
    pub hostname: Option<String>,
    pub path: Option<HttpPathModifier>,
    pub port: Option<u32>,
    pub status_code: Option<u16>,
}

} // verus!
