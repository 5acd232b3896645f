//! A uniform view of the two route resource schemas, and their identity keys.
use k8s_gateway_api::{CommonRouteSpec, RouteStatus};
use kube::Resource;
use vstd::prelude::*;

verus! {

#[verifier::external_type_specification]
#[verifier::external_body]
pub struct ExCommonRouteSpec(CommonRouteSpec);

#[verifier::external_type_specification]
#[verifier::external_body]
pub struct ExRouteStatus(RouteStatus);

/// The API group of the vendor's route resource.
pub open spec fn linkerd_route_group() -> Seq<char> {
    "policy.linkerd.io"@
}

/// The API group of the Gateway API's route resource.
pub open spec fn gateway_route_group() -> Seq<char> {
    "gateway.networking.k8s.io"@
}

/// The kind that both route resources declare.
pub open spec fn http_route_kind() -> Seq<char> {
    "HTTPRoute"@
}

/// Relies on `kube::Resource::group` for the Gateway API's `HttpRoute`, which
/// its `kube(group = ...)` attribute fixes.
#[verifier::external_body]
fn gateway_group() -> (r: String)
    ensures
        r@ == gateway_route_group(),
{
    <k8s_gateway_api::HttpRoute as Resource>::group(&()).into_owned()
}

/// Relies on `kube::Resource::kind` for the Gateway API's `HttpRoute`, which
/// its `kube(kind = ...)` attribute fixes.
#[verifier::external_body]
fn gateway_kind() -> (r: String)
    ensures
        r@ == http_route_kind(),
{
    <k8s_gateway_api::HttpRoute as Resource>::kind(&()).into_owned()
}

/// Which schema a route resource comes from.
#[derive(Debug, Clone, Copy, PartialEq, Eq)]
pub enum RouteSchema {
    Linkerd,
    Gateway,
}

/// The identity of a resource: its group and kind, fixed by its schema, and
/// its name.
#[derive(Debug, Clone, PartialEq, Eq, Hash)]
pub struct GroupKindName {
    pub group: String,
    pub kind: String,
    pub name: String,
}

/// The identity of a namespaced resource.
#[derive(Debug, Clone, PartialEq, Eq, Hash)]
pub struct GroupKindNamespaceName {
    pub group: String,
    pub kind: String,
    pub namespace: String,
    pub name: String,
}

/// An identity key as values: group, kind and name.
pub open spec fn gkn_view(g: GroupKindName) -> (Seq<char>, Seq<char>, Seq<char>) {
    (g.group@, g.kind@, g.name@)
}

/// A namespaced identity key as values: group, kind, namespace and name.
pub open spec fn gknn_view(g: GroupKindNamespaceName) -> (
    Seq<char>,
    Seq<char>,
    Seq<char>,
    Seq<char>,
) {
    (g.group@, g.kind@, g.namespace@, g.name@)
}

pub open spec fn schema_group(s: RouteSchema) -> Seq<char> {
    match s {
        RouteSchema::Linkerd => linkerd_route_group(),
        RouteSchema::Gateway => gateway_route_group(),
    }
}

/// The identity of the route named `name` of schema `s`.
pub open spec fn identity_of(s: RouteSchema, name: Seq<char>) -> (Seq<char>, Seq<char>, Seq<char>) {
    (schema_group(s), http_route_kind(), name)
}

impl GroupKindName {
    /// This identity within `namespace`.
    pub fn namespaced(self, namespace: String) -> (r: GroupKindNamespaceName)
        ensures
            gknn_view(r) == (self.group@, self.kind@, namespace@, self.name@),
    {
        GroupKindNamespaceName {
            group: self.group,
            kind: self.kind,
            namespace,
            name: self.name,
        }
    }
}

/// The identity of the route named `name` of schema `schema`.
pub fn identity_for(schema: RouteSchema, name: String) -> (r: GroupKindName)
    ensures
        gkn_view(r) == identity_of(schema, name@),
{
    match schema {
        RouteSchema::Linkerd => gkn_for_linkerd_http_route(name),
        RouteSchema::Gateway => gkn_for_gateway_http_route(name),
    }
}

/// The identity of the vendor's route named `name`.
pub fn gkn_for_linkerd_http_route(name: String) -> (r: GroupKindName)
    ensures
        gkn_view(r) == identity_of(RouteSchema::Linkerd, name@),
{
    proof {
        reveal_strlit("policy.linkerd.io");
        reveal_strlit("HTTPRoute");
    }
    GroupKindName { group: "policy.linkerd.io".to_owned(), kind: "HTTPRoute".to_owned(), name }
}

/// The identity of the Gateway API's route named `name`.
pub fn gkn_for_gateway_http_route(name: String) -> (r: GroupKindName)
    ensures
        gkn_view(r) == identity_of(RouteSchema::Gateway, name@),
{
    GroupKindName { group: gateway_group(), kind: gateway_kind(), name }
}

/// Identity keys depend on the schema and the name alone: the same inputs
/// give the same key, and the group and kind do not vary with the name.
pub proof fn identity_is_deterministic(s: RouteSchema, a: Seq<char>, b: Seq<char>)
    ensures
        a == b ==> identity_of(s, a) == identity_of(s, b),
        identity_of(s, a).0 == identity_of(s, b).0,
        identity_of(s, a).1 == identity_of(s, b).1,
        identity_of(s, a).2 == a,
{
}

/// A route resource as this library reads it, whatever its schema.
#[derive(Debug)]
pub struct HttpRoute {
    pub name: String,
    pub namespace: Option<String>,
    pub inner: CommonRouteSpec,
    pub status: Option<RouteStatus>,
}

/// A route resource of one of the two schemas.
#[derive(Debug)]
pub enum HttpRouteResource {
    Linkerd(HttpRoute),
    Gateway(HttpRoute),
}

impl HttpRouteResource {
    pub open spec fn route(&self) -> HttpRoute {
        match self {
            HttpRouteResource::Linkerd(r) => *r,
            HttpRouteResource::Gateway(r) => *r,
        }
    }

    pub open spec fn schema(&self) -> RouteSchema {
        match self {
            HttpRouteResource::Linkerd(_) => RouteSchema::Linkerd,
            HttpRouteResource::Gateway(_) => RouteSchema::Gateway,
        }
    }

    /// Which schema this resource comes from.
    pub fn route_schema(&self) -> (r: RouteSchema)
        ensures
            r == self.schema(),
    {
        match self {
            HttpRouteResource::Linkerd(_) => RouteSchema::Linkerd,
            HttpRouteResource::Gateway(_) => RouteSchema::Gateway,
        }
    }

    fn route_ref(&self) -> (r: &HttpRoute)
        ensures
            *r == self.route(),
    {
        match self {
            HttpRouteResource::Linkerd(r) => r,
            HttpRouteResource::Gateway(r) => r,
        }
    }

    /// The resource's declared name.
    pub fn name(&self) -> (r: String)
        ensures
            r == self.route().name,
    {
        self.route_ref().name.clone()
    }

    /// The resource's namespace, which a route resource always has.
    pub fn namespace(&self) -> (r: String)
        requires
            self.route().namespace is Some,
        ensures
            Some(r) == self.route().namespace,
    {
        match &self.route_ref().namespace {
            Some(ns) => ns.clone(),
            None => String::new(),
        }
    }

    /// The route's common spec: its parent references.
    pub fn inner(&self) -> (r: &CommonRouteSpec)
        ensures
            *r == self.route().inner,
    {
        &self.route_ref().inner
    }

    /// The route's status, if it has one.
    pub fn status(&self) -> (r: Option<&RouteStatus>)
        ensures
            r == (match self.route().status {
                Some(s) => Some(&s),
                None => None,
            }),
    {
        match &self.route_ref().status {
            Some(s) => Some(s),
            None => None,
        }
    }

    /// The resource's identity, with its namespace.
    pub fn gknn(&self) -> (r: GroupKindNamespaceName)
        requires
            self.route().namespace is Some,
        ensures
            gknn_view(r) == (
                schema_group(self.schema()),
                http_route_kind(),
                self.route().namespace->Some_0@,
                self.route().name@,
            ),
    {
        gkn_for_resource(self).namespaced(self.namespace())
    }
}

/// The identity of a route resource: group and kind from its schema, and its
/// declared name.
pub fn gkn_for_resource(route: &HttpRouteResource) -> (r: GroupKindName)
    ensures
        gkn_view(r) == identity_of(route.schema(), route.route().name@),
{
    identity_for(route.route_schema(), route.name())
}

} // verus!
