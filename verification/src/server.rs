//! The request router: mounted services, their routes, and the decision which
//! route a request belongs to.
//!
//! Matching has two tiers. The path selects a service by its mount prefix;
//! the rest of the path and the method select a route of that service. Each
//! tier is matched against every entry, so overlapping mounts are reported
//! and never settled by the order of registration.

use crate::ast::HttpMethod;
use crate::matcher::{regex_capture, regex_compiles, regex_group, regex_new, regex_source};
use crate::regexset_map::{Entry, GetResult, RegexSetMap, Selection};
use crate::routes::CompiledRoute;
use vstd::prelude::*;
use vstd::string::StringExecFns;

verus! {

/// What the router reads of a request.
pub struct Request {
    /// The method; `None` stands for a method that no route can have.
    pub method: Option<HttpMethod>,
    /// The path of the request URI.
    pub path: String,
    /// The query string, without the question mark, if there is one.
    pub query: Option<String>,
    /// The body.
    pub body: Vec<u8>,
}

/// A route associates an HTTP method and a pattern of the path behind the
/// mount prefix with the types to bind. It only makes sense within a
/// `Service`.
pub struct Route {
    pub method: HttpMethod,
    pub regex: regex::Regex,
    pub binding: CompiledRoute,
}

/// A service is a collection of routes that share a mount prefix.
pub struct Service(pub (regex::Regex, RegexSetMap<Request, Route>));

impl Entry<Request> for Route {
    open spec fn regex_of(&self) -> regex::Regex {
        self.regex
    }

    open spec fn accepts(&self, req: &Request) -> bool {
        req.method == Some(self.method)
    }

    fn regex(&self) -> (r: &regex::Regex) {
        &self.regex
    }

    fn matches_input(&self, req: &Request) -> (b: bool) {
        match req.method {
            Some(m) => m == self.method,
            None => false,
        }
    }
}

impl Entry<Request> for Service {
    open spec fn regex_of(&self) -> regex::Regex {
        self.0.0
    }

    open spec fn accepts(&self, req: &Request) -> bool {
        true
    }

    fn regex(&self) -> (r: &regex::Regex) {
        &self.0.0
    }

    fn matches_input(&self, _req: &Request) -> (b: bool) {
        true
    }
}

/// A failure of the runtime to bring a request to a handler or its answer
/// back.
#[derive(Debug, PartialEq, Eq)]
pub enum RuntimeError {
    /// The path matches no mounted service.
    NoServiceMounted,
    /// The path matches more than one mounted service.
    ServiceMountsAmbiguous,
    /// The service has no route for the method and the rest of the path.
    NoRouteMountedInService { service: String },
    /// The service has more than one route for them.
    RouteMountsAmbiguous { service: String },
    /// A path variable could not be decoded.
    RouteParamInvalid { param_name: String, parse_error: String },
    /// The query string could not be decoded.
    QueryInvalid(String),
    /// The body could not be read or decoded.
    PostBodyReadError(String),
    /// What the handler returned could not be encoded.
    SerializeHandlerResponse(String),
}

/// The mathematical value of a `RuntimeError`.
pub enum RuntimeErrorModel {
    NoServiceMounted,
    ServiceMountsAmbiguous,
    NoRouteMountedInService { service: Seq<char> },
    RouteMountsAmbiguous { service: Seq<char> },
    RouteParamInvalid { param_name: Seq<char>, parse_error: Seq<char> },
    QueryInvalid(Seq<char>),
    PostBodyReadError(Seq<char>),
    SerializeHandlerResponse(Seq<char>),
}

impl View for RuntimeError {
    type V = RuntimeErrorModel;

    open spec fn view(&self) -> RuntimeErrorModel {
        match self {
            RuntimeError::NoServiceMounted => RuntimeErrorModel::NoServiceMounted,
            RuntimeError::ServiceMountsAmbiguous => RuntimeErrorModel::ServiceMountsAmbiguous,
            RuntimeError::NoRouteMountedInService { service } => {
                RuntimeErrorModel::NoRouteMountedInService { service: service@ }
            },
            RuntimeError::RouteMountsAmbiguous { service } => {
                RuntimeErrorModel::RouteMountsAmbiguous { service: service@ }
            },
            RuntimeError::RouteParamInvalid { param_name, parse_error } => {
                RuntimeErrorModel::RouteParamInvalid {
                    param_name: param_name@,
                    parse_error: parse_error@,
                }
            },
            RuntimeError::QueryInvalid(s) => RuntimeErrorModel::QueryInvalid(s@),
            RuntimeError::PostBodyReadError(s) => RuntimeErrorModel::PostBodyReadError(s@),
            RuntimeError::SerializeHandlerResponse(s) => {
                RuntimeErrorModel::SerializeHandlerResponse(s@)
            },
        }
    }
}

/// Where a request belongs: the mount prefix of its service as the path holds
/// it, the rest of the path, and the route.
pub struct RouteMatch<'a> {
    pub service: String,
    pub suffix: String,
    pub route: &'a Route,
}

/// Where a request belongs, as indices into the services and their routes.
pub struct RoutingModel {
    pub service_index: int,
    pub service: Seq<char>,
    pub suffix: Seq<char>,
    pub route_index: int,
}

/// The routing decision for a request.
///
/// The path selects a service; none gives `NoServiceMounted`, several give
/// `ServiceMountsAmbiguous`. The service's pattern splits the path into the
/// groups `root` and `suffix`; a match that lacks either group counts as no
/// mount. The suffix and the method select a route of the service; none
/// gives `NoRouteMountedInService`, several give `RouteMountsAmbiguous`.
pub open spec fn routing(services: &RegexSetMap<Request, Service>, req: &Request) -> Result<
    RoutingModel,
    RuntimeErrorModel,
> {
    match services.selection(req.path@, req) {
        Selection::NoMatch => Err(RuntimeErrorModel::NoServiceMounted),
        Selection::Ambiguous => Err(RuntimeErrorModel::ServiceMountsAmbiguous),
        Selection::One(k) => {
            let service = services.entries()[k];
            match (
                regex_group(service.0.0, req.path@, "root"@),
                regex_group(service.0.0, req.path@, "suffix"@),
            ) {
                (Some(root), Some(suffix)) => match service.0.1.selection(suffix, req) {
                    Selection::NoMatch => Err(
                        RuntimeErrorModel::NoRouteMountedInService { service: root },
                    ),
                    Selection::Ambiguous => Err(
                        RuntimeErrorModel::RouteMountsAmbiguous { service: root },
                    ),
                    Selection::One(j) => Ok(
                        RoutingModel {
                            service_index: k,
                            service: root,
                            suffix,
                            route_index: j,
                        },
                    ),
                },
                _ => Err(RuntimeErrorModel::NoServiceMounted),
            }
        },
    }
}

/// Decides which route of which service a request belongs to, or why none
/// does.
pub fn route_request<'a>(services: &'a RegexSetMap<Request, Service>, req: &Request) -> (r: Result<
    RouteMatch<'a>,
    RuntimeError,
>)
    ensures
        match routing(services, req) {
            Err(e) => r is Err && r->Err_0@ == e,
            Ok(m) => {
                &&& r is Ok
                &&& r->Ok_0.service@ == m.service
                &&& r->Ok_0.suffix@ == m.suffix
                &&& 0 <= m.service_index < services.entries().len()
                &&& 0 <= m.route_index < services.entries()[m.service_index].0.1.entries().len()
                &&& *r->Ok_0.route == services.entries()[m.service_index].0.1.entries()[m.route_index]
            },
        },
{
    match services.get(req.path.as_str(), req) {
        GetResult::NoMatch => Err(RuntimeError::NoServiceMounted),
        GetResult::Ambiguous => Err(RuntimeError::ServiceMountsAmbiguous),
        GetResult::One(service) => {
            let root = regex_capture(&service.0.0, req.path.as_str(), "root");
            let suffix = regex_capture(&service.0.0, req.path.as_str(), "suffix");
            match (root, suffix) {
                (Some(root), Some(suffix)) => match service.0.1.get(suffix.as_str(), req) {
                    GetResult::NoMatch => Err(
                        RuntimeError::NoRouteMountedInService { service: root },
                    ),
                    GetResult::Ambiguous => Err(
                        RuntimeError::RouteMountsAmbiguous { service: root },
                    ),
                    GetResult::One(route) => Ok(RouteMatch { service: root, suffix, route }),
                },
                _ => Err(RuntimeError::NoServiceMounted),
            }
        },
    }
}

/// Whether a string can be a mount prefix: it starts with a slash and does
/// not end with one.
pub open spec fn valid_mount_prefix(root: Seq<char>) -> bool {
    root.len() > 0 && root[0] == '/' && root.last() != '/'
}

/// The pattern of a service mounted at `root`: the prefix as the group
/// `root`, and what follows, from a slash on, as the group `suffix`.
pub open spec fn mount_pattern(root: Seq<char>) -> Seq<char> {
    "^(?P<root>"@ + root + ")(?P<suffix>/.*)"@
}

/// Whether a string can be a mount prefix.
pub fn is_valid_mount_prefix(root: &str) -> (r: bool)
    ensures
        r == valid_mount_prefix(root@),
{
    let n = root.unicode_len();
    n > 0 && root.get_char(0) == '/' && root.get_char(n - 1) != '/'
}

/// Why a service could not be mounted.
#[derive(Debug, PartialEq, Eq)]
pub enum MountError {
    /// The pattern of the mount prefix, or of a route, is no regular
    /// expression that can be compiled.
    InvalidPattern(String),
}

/// Whether a route was made from a compiled route.
pub open spec fn route_made_from(route: Route, compiled: CompiledRoute) -> bool {
    &&& route.method == compiled.method
    &&& regex_source(route.regex) == compiled.url_pattern@
    &&& route.binding@ == compiled@
}

/// Whether a service was made for a mount prefix from compiled routes: its
/// pattern is that of the prefix, its routes are made from them, in order.
pub open spec fn service_made_from(service: Service, root: Seq<char>, routes: Seq<CompiledRoute>)
    -> bool {
    &&& regex_source(service.0.0) == mount_pattern(root)
    &&& service.0.1.entries().len() == routes.len()
    &&& forall|i: int|
        0 <= i < routes.len() ==> route_made_from(#[trigger] service.0.1.entries()[i], routes[i])
}

/// Whether the pattern of the route at `i` is the first among the routes
/// that cannot be compiled.
pub open spec fn first_bad_route(routes: Seq<CompiledRoute>, i: int) -> bool {
    &&& 0 <= i < routes.len()
    &&& !regex_compiles(routes[i].url_pattern@)
    &&& forall|j: int| 0 <= j < i ==> regex_compiles((#[trigger] routes[j]).url_pattern@)
}

/// The first pattern of a mount that cannot be compiled: that of the prefix,
/// or else that of the first such route.
pub open spec fn first_bad_pattern(root: Seq<char>, routes: Seq<CompiledRoute>) -> Option<
    Seq<char>,
> {
    if !regex_compiles(mount_pattern(root)) {
        Some(mount_pattern(root))
    } else if exists|i: int| first_bad_route(routes, i) {
        Some(routes[choose|i: int| first_bad_route(routes, i)].url_pattern@)
    } else {
        None
    }
}

/// Builds the services of a server, one mount after the other.
pub struct Builder {
    services: Vec<Service>,
}

impl Builder {
    /// The services mounted so far, in the order of mounting.
    pub closed spec fn services(&self) -> Seq<Service> {
        self.services@
    }

    /// A builder with no service mounted.
    pub fn new() -> (r: Self)
        ensures
            r.services().len() == 0,
    {
        Builder { services: Vec::new() }
    }

    /// Mounts a service, given by its compiled routes, at the URL path prefix
    /// `root`: a route with pattern `^/bar$` then answers `/api/bar` where
    /// `root` is `/api`.
    ///
    /// The patterns are compiled here: that of the prefix, then those of the
    /// routes in their order. The first that cannot be compiled comes back
    /// in the error, and nothing is mounted.
    pub fn add(self, root: &str, routes: &Vec<CompiledRoute>) -> (r: Result<Self, MountError>)
        requires
            valid_mount_prefix(root@),
        ensures
            match first_bad_pattern(root@, routes@) {
                None => r is Ok && r->Ok_0.services().len() == self.services().len() + 1
                    && r->Ok_0.services().drop_last() == self.services() && service_made_from(
                    r->Ok_0.services().last(),
                    root@,
                    routes@,
                ),
                Some(p) => r is Err && r->Err_0->InvalidPattern_0@ == p,
            },
    {
        let mut pattern = String::from_str("^(?P<root>");
        pattern.append(root);
        pattern.append(")(?P<suffix>/.*)");
        let service_regex = match regex_new(pattern.as_str()) {
            Ok(re) => re,
            Err(_) => {
                return Err(MountError::InvalidPattern(pattern));
            },
        };
        let mut made: Vec<Route> = Vec::new();
        let mut i: usize = 0;
        while i < routes.len()
            invariant
                i <= routes.len(),
                made.len() == i,
                regex_compiles(mount_pattern(root@)),
                forall|j: int| 0 <= j < i ==> route_made_from(#[trigger] made[j], routes[j]),
                forall|j: int| 0 <= j < i ==> regex_compiles((#[trigger] routes[j]).url_pattern@),
            decreases routes.len() - i,
        {
            let compiled = &routes[i];
            match regex_new(compiled.url_pattern.as_str()) {
                Ok(re) => {
                    made.push(Route { method: compiled.method, regex: re, binding: compiled.clone() });
                },
                Err(_) => {
                    proof {
                        assert(first_bad_route(routes@, i as int));
                        let k = choose|k: int| first_bad_route(routes@, k);
                        assert(k == i) by {
                            if k < i {
                                assert(regex_compiles(routes[k].url_pattern@));
                            } else if k > i {
                                assert(regex_compiles(routes[i as int].url_pattern@));
                            }
                        }
                    }
                    return Err(MountError::InvalidPattern(compiled.url_pattern.clone()));
                },
            }
            i += 1;
        }
        assert(forall|k: int| !first_bad_route(routes@, k));
        let map = RegexSetMap::new(made).unwrap();
        let mut services = self.services;
        let ghost before = services@;
        services.push(Service((service_regex, map)));
        assert(services@.drop_last() =~= before);
        Ok(Builder { services })
    }

    /// The routing table of the services mounted.
    pub fn into_services(self) -> (r: RegexSetMap<Request, Service>)
        ensures
            r.entries() == self.services(),
    {
        RegexSetMap::new(self.services).unwrap()
    }
}

/// A path that matches no mounted service is answered with
/// `NoServiceMounted`.
pub proof fn unmatched_path_has_no_service(
    services: &RegexSetMap<Request, Service>,
    req: &Request,
)
    requires
        forall|k: int| !services.candidate_at(k, req.path@, req),
    ensures
        routing(services, req) == Err::<RoutingModel, _>(RuntimeErrorModel::NoServiceMounted),
{
}

/// A path that matches two mounted services is answered with
/// `ServiceMountsAmbiguous`, whatever their order.
pub proof fn overlapping_services_are_ambiguous(
    services: &RegexSetMap<Request, Service>,
    req: &Request,
    j: int,
    k: int,
)
    requires
        j != k,
        services.candidate_at(j, req.path@, req),
        services.candidate_at(k, req.path@, req),
    ensures
        routing(services, req) == Err::<RoutingModel, _>(
            RuntimeErrorModel::ServiceMountsAmbiguous,
        ),
{
}

/// Within the one service that a path matches, a method and a suffix that
/// match no route are answered with `NoRouteMountedInService`.
pub proof fn unmatched_route_in_service(
    services: &RegexSetMap<Request, Service>,
    req: &Request,
    k: int,
    root: Seq<char>,
    suffix: Seq<char>,
)
    requires
        services.selection(req.path@, req) == Selection::One(k),
        regex_group(services.entries()[k].0.0, req.path@, "root"@) == Some(root),
        regex_group(services.entries()[k].0.0, req.path@, "suffix"@) == Some(suffix),
        forall|j: int| !services.entries()[k].0.1.candidate_at(j, suffix, req),
    ensures
        routing(services, req) == Err::<RoutingModel, _>(
            RuntimeErrorModel::NoRouteMountedInService { service: root },
        ),
{
}

/// Within the one service that a path matches, two routes that both match
/// the method and the suffix are answered with `RouteMountsAmbiguous`,
/// whatever their order.
pub proof fn overlapping_routes_are_ambiguous(
    services: &RegexSetMap<Request, Service>,
    req: &Request,
    k: int,
    root: Seq<char>,
    suffix: Seq<char>,
    i: int,
    j: int,
)
    requires
        services.selection(req.path@, req) == Selection::One(k),
        regex_group(services.entries()[k].0.0, req.path@, "root"@) == Some(root),
        regex_group(services.entries()[k].0.0, req.path@, "suffix"@) == Some(suffix),
        i != j,
        services.entries()[k].0.1.candidate_at(i, suffix, req),
        services.entries()[k].0.1.candidate_at(j, suffix, req),
    ensures
        routing(services, req) == Err::<RoutingModel, _>(
            RuntimeErrorModel::RouteMountsAmbiguous { service: root },
        ),
{
}

} // verus!
