//! The course of one request once its route is known: which part is decoded
//! when, what is asked of the caller next, and what is answered.
//!
//! The caller performs what cannot be done here (reading and decoding the
//! body, running the interceptor and the handler) and reports each outcome;
//! the decisions between those steps are made here.

use crate::deser_helpers::{deser_param, param_model, ParamModel, ParamValue};
use crate::handler::{ServiceError, ServiceErrorModel};
use crate::matcher::{regex_capture, regex_group};
use crate::regexset_map::RegexSetMap;
use crate::server::{
    route_request, routing, Request, Route, RouteMatch, RuntimeError, RuntimeErrorModel, Service,
};
use crate::handler::service_error_message;
use crate::wire::{JsonMember, JsonMemberModel, JsonModel, JsonValue};
use crate::wire_text::{json_text, to_text};
use rand::Rng;
use vstd::prelude::*;
use vstd::string::StringExecFns;

verus! {

/// The body of an error response.
#[derive(Debug, PartialEq, Eq)]
pub enum ErrorResponse {
    /// The runtime could not bring the request to a handler, or its answer
    /// back.
    Runtime(RuntimeError),
    /// The interceptor or the handler refused the request.
    Service(ServiceError),
}

/// The mathematical value of an `ErrorResponse`.
pub enum ErrorResponseModel {
    Runtime(RuntimeErrorModel),
    Service(ServiceErrorModel),
}

impl View for ErrorResponse {
    type V = ErrorResponseModel;

    open spec fn view(&self) -> ErrorResponseModel {
        match self {
            ErrorResponse::Runtime(e) => ErrorResponseModel::Runtime(e@),
            ErrorResponse::Service(e) => ErrorResponseModel::Service(e@),
        }
    }
}

/// Whether an error response reports a routing error: no service or route
/// mounted, or ambiguous mounts.
pub open spec fn is_routing_error(e: ErrorResponseModel) -> bool {
    match e {
        ErrorResponseModel::Runtime(RuntimeErrorModel::NoServiceMounted) => true,
        ErrorResponseModel::Runtime(RuntimeErrorModel::ServiceMountsAmbiguous) => true,
        ErrorResponseModel::Runtime(RuntimeErrorModel::NoRouteMountedInService { .. }) => true,
        ErrorResponseModel::Runtime(RuntimeErrorModel::RouteMountsAmbiguous { .. }) => true,
        _ => false,
    }
}

impl ErrorResponse {
    /// Whether the response reports a routing error rather than a fault of
    /// the request or of its handling.
    pub fn is_routing_error(&self) -> (r: bool)
        ensures
            r == is_routing_error(self@),
    {
        match self {
            ErrorResponse::Runtime(RuntimeError::NoServiceMounted) => true,
            ErrorResponse::Runtime(RuntimeError::ServiceMountsAmbiguous) => true,
            ErrorResponse::Runtime(RuntimeError::NoRouteMountedInService { .. }) => true,
            ErrorResponse::Runtime(RuntimeError::RouteMountsAmbiguous { .. }) => true,
            _ => false,
        }
    }
}

/// The message for a path variable that the route's pattern did not capture.
pub open spec fn not_captured() -> Seq<char> {
    "no path segment was captured"@
}

/// What the variable at `k` of a route decodes to, given the path suffix.
pub open spec fn param_at(route: Route, suffix: Seq<char>, k: int) -> Result<
    ParamModel,
    RuntimeErrorModel,
> {
    let pair = route.binding.variables@[k]@;
    match regex_group(route.regex, suffix, pair.name) {
        Some(text) => param_model(pair.name, text, pair.type_ident),
        None => Err(
            RuntimeErrorModel::RouteParamInvalid {
                param_name: pair.name,
                parse_error: not_captured(),
            },
        ),
    }
}

/// What the first `n` variables of a route decode to, in declaration order:
/// all their values, or the failure of the first that cannot be decoded.
pub open spec fn params_model(route: Route, suffix: Seq<char>, n: nat) -> Result<
    Seq<ParamModel>,
    RuntimeErrorModel,
>
    decreases n,
{
    if n == 0 || n > route.binding.variables@.len() {
        Ok(Seq::empty())
    } else {
        match params_model(route, suffix, (n - 1) as nat) {
            Err(e) => Err(e),
            Ok(values) => match param_at(route, suffix, n - 1) {
                Err(e) => Err(e),
                Ok(v) => Ok(values.push(v)),
            },
        }
    }
}

/// The failure of an earlier variable is the failure of the whole list.
pub proof fn params_failure_stands(route: Route, suffix: Seq<char>, k: nat, n: nat)
    requires
        params_model(route, suffix, k) is Err,
        k <= n <= route.binding.variables@.len(),
    ensures
        params_model(route, suffix, n) == params_model(route, suffix, k),
    decreases n,
{
    if k < n {
        params_failure_stands(route, suffix, k, (n - 1) as nat);
    }
}

/// The values of a list of decoded primitives, in order.
pub open spec fn params_view(v: Seq<ParamValue>) -> Seq<ParamModel> {
    Seq::new(v.len(), |i: int| v[i]@)
}

/// Decodes the path variables of a matched route, in declaration order, from
/// what its pattern captured in the path suffix. Stops at the first failure.
pub fn decode_params(route: &Route, suffix: &str) -> (r: Result<Vec<ParamValue>, RuntimeError>)
    ensures
        match params_model(*route, suffix@, route.binding.variables@.len()) {
            Ok(values) => r is Ok && params_view(r->Ok_0@) == values,
            Err(e) => r is Err && r->Err_0@ == e,
        },
{
    let variables = &route.binding.variables;
    let mut out: Vec<ParamValue> = Vec::new();
    let mut i: usize = 0;
    assert(params_view(out@) =~= Seq::<ParamModel>::empty());
    while i < variables.len()
        invariant
            i <= variables.len(),
            *variables == route.binding.variables,
            params_model(*route, suffix@, i as nat) == Ok::<_, RuntimeErrorModel>(
                params_view(out@),
            ),
        decreases variables.len() - i,
    {
        let pair = &variables[i];
        let decoded = match regex_capture(&route.regex, suffix, pair.name.as_str()) {
            Some(text) => deser_param(pair.name.as_str(), text.as_str(), &pair.type_ident),
            None => Err(
                RuntimeError::RouteParamInvalid {
                    param_name: pair.name.clone(),
                    parse_error: String::from_str("no path segment was captured"),
                },
            ),
        };
        match decoded {
            Err(e) => {
                proof {
                    params_failure_stands(*route, suffix@, (i + 1) as nat, variables@.len());
                }
                return Err(e);
            },
            Ok(v) => {
                let ghost prev = params_view(out@);
                out.push(v);
                assert(params_view(out@) =~= prev.push(v@));
            },
        }
        i += 1;
    }
    Ok(out)
}

/// What the caller is to do next for a request.
#[derive(Debug, PartialEq, Eq)]
pub enum Action {
    /// Decode the query string into the route's query type.
    DecodeQuery,
    /// Read the body and decode it into the route's body type.
    DecodeBody,
    /// Run the interceptor on the request.
    Intercept,
    /// Call the handler with the context, the body, the query and the path
    /// variables in declaration order.
    Invoke,
    /// Answer: with the JSON text of the handler's value, or with an error.
    Respond(Result<String, ErrorResponse>),
}

/// What the caller reports back.
#[derive(Debug, PartialEq, Eq)]
pub enum Event {
    /// The query string was decoded, or not, with the decoder's message.
    QueryDecoded(Result<(), String>),
    /// The body was read and decoded, or not, with the reader's or the
    /// decoder's message.
    BodyDecoded(Result<(), String>),
    /// The interceptor gave a context, or refused the request.
    Intercepted(Result<(), ServiceError>),
    /// The handler returned a value, here as its JSON text or as the message
    /// of the encoder that failed on it, or a service error.
    Handled(Result<Result<String, String>, ServiceError>),
}

/// Whether a request on a route has a query to decode: the route binds one
/// and the request carries one.
pub open spec fn wants_query(route: Route, req: Request) -> bool {
    route.binding.query is Some && req.query is Some
}

/// Whether a request on a route has a body to decode: the route binds one.
pub open spec fn wants_body(route: Route) -> bool {
    route.binding.body is Some
}

/// The step that follows the decoding of the path variables.
pub open spec fn step_after_params(route: Route, req: Request) -> ActionModel {
    if wants_query(route, req) {
        ActionModel::DecodeQuery
    } else {
        step_after_query(route)
    }
}

/// The step that follows the decoding of the query.
pub open spec fn step_after_query(route: Route) -> ActionModel {
    if wants_body(route) {
        ActionModel::DecodeBody
    } else {
        ActionModel::Intercept
    }
}

/// The mathematical value of an `Action`.
pub enum ActionModel {
    DecodeQuery,
    DecodeBody,
    Intercept,
    Invoke,
    Respond(Result<Seq<char>, ErrorResponseModel>),
}

impl View for Action {
    type V = ActionModel;

    open spec fn view(&self) -> ActionModel {
        match self {
            Action::DecodeQuery => ActionModel::DecodeQuery,
            Action::DecodeBody => ActionModel::DecodeBody,
            Action::Intercept => ActionModel::Intercept,
            Action::Invoke => ActionModel::Invoke,
            Action::Respond(Ok(s)) => ActionModel::Respond(Ok(s@)),
            Action::Respond(Err(e)) => ActionModel::Respond(Err(e@)),
        }
    }
}

/// The first step for a request on its route, given what its path variables
/// decoded to: a failure there is answered at once, before the query or the
/// body is looked at.
pub open spec fn first_step(
    route: Route,
    req: Request,
    params: Result<Seq<ParamModel>, RuntimeErrorModel>,
) -> ActionModel {
    match params {
        Err(e) => ActionModel::Respond(Err(ErrorResponseModel::Runtime(e))),
        Ok(_) => step_after_params(route, req),
    }
}

/// The step that follows an event.
///
/// A part that fails to decode is answered with its error; so is a refusal
/// by the interceptor or the handler, and a value that cannot be encoded.
/// Otherwise the parts follow in their order: query, body, interceptor,
/// handler, answer.
pub open spec fn next_step(route: Route, event: Event) -> ActionModel {
    match event {
        Event::QueryDecoded(Err(m)) => ActionModel::Respond(
            Err(ErrorResponseModel::Runtime(RuntimeErrorModel::QueryInvalid(m@))),
        ),
        Event::QueryDecoded(Ok(_)) => step_after_query(route),
        Event::BodyDecoded(Err(m)) => ActionModel::Respond(
            Err(ErrorResponseModel::Runtime(RuntimeErrorModel::PostBodyReadError(m@))),
        ),
        Event::BodyDecoded(Ok(_)) => ActionModel::Intercept,
        Event::Intercepted(Err(e)) => ActionModel::Respond(Err(ErrorResponseModel::Service(e@))),
        Event::Intercepted(Ok(_)) => ActionModel::Invoke,
        Event::Handled(r) => ActionModel::Respond(handler_response_model(r)),
    }
}

/// What a handler's result is answered with: the JSON text of its value; the
/// failure of the encoder, as `SerializeHandlerResponse`; or its service
/// error.
pub open spec fn handler_response_model(r: Result<Result<String, String>, ServiceError>) -> Result<
    Seq<char>,
    ErrorResponseModel,
> {
    match r {
        Ok(Ok(json)) => Ok(json@),
        Ok(Err(m)) => Err(
            ErrorResponseModel::Runtime(RuntimeErrorModel::SerializeHandlerResponse(m@)),
        ),
        Err(e) => Err(ErrorResponseModel::Service(e@)),
    }
}

/// Turns what a handler returned into what is answered.
pub fn handler_response_to_response(handler_response: Result<Result<String, String>, ServiceError>)
    -> (r: Result<String, ErrorResponse>)
    ensures
        match handler_response_model(handler_response) {
            Ok(s) => r is Ok && r->Ok_0@ == s,
            Err(e) => r is Err && r->Err_0@ == e,
        },
{
    match handler_response {
        Ok(Ok(json)) => Ok(json),
        Ok(Err(m)) => Err(ErrorResponse::Runtime(RuntimeError::SerializeHandlerResponse(m))),
        Err(e) => Err(ErrorResponse::Service(e)),
    }
}

/// The step after the query: the body where the route binds one, else the
/// interceptor.
fn after_query(route: &Route) -> (r: Action)
    ensures
        r@ == step_after_query(*route),
{
    if route.binding.body.is_some() {
        Action::DecodeBody
    } else {
        Action::Intercept
    }
}

/// Begins a request on its matched route: decodes the path variables and
/// says what comes next. A variable that cannot be decoded is answered at
/// once; the query and the body are not touched then.
pub fn begin_request(route: &Route, suffix: &str, req: &Request) -> (r: (Action, Vec<ParamValue>))
    ensures
        r.0@ == first_step(
            *route,
            *req,
            params_model(*route, suffix@, route.binding.variables@.len()),
        ),
        params_model(*route, suffix@, route.binding.variables@.len()) matches Ok(values)
            ==> params_view(r.1@) == values,
{
    match decode_params(route, suffix) {
        Err(e) => (Action::Respond(Err(ErrorResponse::Runtime(e))), Vec::new()),
        Ok(values) => {
            let action = if route.binding.query.is_some() && req.query.is_some() {
                Action::DecodeQuery
            } else {
                after_query(route)
            };
            (action, values)
        },
    }
}

/// Continues a request after the caller has done what was asked of it.
pub fn continue_request(route: &Route, event: Event) -> (r: Action)
    ensures
        r@ == next_step(*route, event),
{
    match event {
        Event::QueryDecoded(Err(m)) => Action::Respond(
            Err(ErrorResponse::Runtime(RuntimeError::QueryInvalid(m))),
        ),
        Event::QueryDecoded(Ok(_)) => after_query(route),
        Event::BodyDecoded(Err(m)) => Action::Respond(
            Err(ErrorResponse::Runtime(RuntimeError::PostBodyReadError(m))),
        ),
        Event::BodyDecoded(Ok(_)) => Action::Intercept,
        Event::Intercepted(Err(e)) => Action::Respond(Err(ErrorResponse::Service(e))),
        Event::Intercepted(Ok(_)) => Action::Invoke,
        Event::Handled(r) => Action::Respond(handler_response_to_response(r)),
    }
}

/// A request whose path variables cannot be decoded is answered with the
/// error of the first such variable, whatever its query and body hold: the
/// step that reports it comes before any that reads them.
pub proof fn parameter_error_comes_first(
    route: Route,
    req: Request,
    suffix: Seq<char>,
    e: RuntimeErrorModel,
)
    requires
        params_model(route, suffix, route.binding.variables@.len()) == Err::<Seq<ParamModel>, _>(e),
    ensures
        first_step(route, req, params_model(route, suffix, route.binding.variables@.len()))
            == ActionModel::Respond(Err(ErrorResponseModel::Runtime(e))),
        e is RouteParamInvalid,
{
    params_fail_by_a_parameter(route, suffix, route.binding.variables@.len());
}

/// Decoding path variables fails with no other error than
/// `RouteParamInvalid`.
pub proof fn params_fail_by_a_parameter(route: Route, suffix: Seq<char>, n: nat)
    requires
        params_model(route, suffix, n) is Err,
    ensures
        params_model(route, suffix, n)->Err_0 is RouteParamInvalid,
    decreases n,
{
    if n > 0 && n <= route.binding.variables@.len() {
        if params_model(route, suffix, (n - 1) as nat) is Err {
            params_fail_by_a_parameter(route, suffix, (n - 1) as nat);
        }
    }
}

/// Whether a character is an ASCII letter or digit.
pub open spec fn is_alphanumeric(c: char) -> bool {
    ('a' <= c && c <= 'z') || ('A' <= c && c <= 'Z') || ('0' <= c && c <= '9')
}

/// Whether a text can be a request identifier: 30 ASCII letters and digits.
pub open spec fn is_request_id(s: Seq<char>) -> bool {
    s.len() == 30 && forall|i: int| 0 <= i < s.len() ==> is_alphanumeric(#[trigger] s[i])
}

/// Draws 30 characters from `rand::distributions::Alphanumeric` with the
/// thread's generator of `rand::thread_rng`. Which characters come is
/// chance; each is an ASCII letter or digit.
#[verifier::external_body]
fn random_request_id() -> (r: String)
    ensures
        is_request_id(r@),
{
    rand::thread_rng().sample_iter(&rand::distributions::Alphanumeric).take(30).collect()
}

/// The name of the response header that carries the request identifier.
pub open spec fn request_id_header() -> Seq<char> {
    "Request-ID"@
}

/// A member of an object whose value is a text.
pub open spec fn text_member(key: Seq<char>, value: Seq<char>) -> JsonMemberModel {
    JsonMemberModel { key, value: JsonModel::Text(value) }
}

/// The kind of an error: a routing error, a fault of the request, or a
/// refusal or failure of the service.
pub open spec fn error_kind(e: ErrorResponseModel) -> Seq<char> {
    match e {
        ErrorResponseModel::Service(_) => "service"@,
        ErrorResponseModel::Runtime(_) => if is_routing_error(e) {
            "routing"@
        } else {
            "request"@
        },
    }
}

/// The name of an error.
pub open spec fn error_name(e: ErrorResponseModel) -> Seq<char> {
    match e {
        ErrorResponseModel::Runtime(RuntimeErrorModel::NoServiceMounted) => "NoServiceMounted"@,
        ErrorResponseModel::Runtime(RuntimeErrorModel::ServiceMountsAmbiguous) => {
            "ServiceMountsAmbiguous"@
        },
        ErrorResponseModel::Runtime(RuntimeErrorModel::NoRouteMountedInService { .. }) => {
            "NoRouteMountedInService"@
        },
        ErrorResponseModel::Runtime(RuntimeErrorModel::RouteMountsAmbiguous { .. }) => {
            "RouteMountsAmbiguous"@
        },
        ErrorResponseModel::Runtime(RuntimeErrorModel::RouteParamInvalid { .. }) => {
            "RouteParamInvalid"@
        },
        ErrorResponseModel::Runtime(RuntimeErrorModel::QueryInvalid(_)) => "QueryInvalid"@,
        ErrorResponseModel::Runtime(RuntimeErrorModel::PostBodyReadError(_)) => {
            "PostBodyReadError"@
        },
        ErrorResponseModel::Runtime(RuntimeErrorModel::SerializeHandlerResponse(_)) => {
            "SerializeHandlerResponse"@
        },
        ErrorResponseModel::Service(ServiceErrorModel::Authentication) => "Authentication"@,
        ErrorResponseModel::Service(ServiceErrorModel::Authorization) => "Authorization"@,
        ErrorResponseModel::Service(ServiceErrorModel::Internal(_)) => "Internal"@,
    }
}

/// What an error document says beyond kind and name: the service, the
/// parameter with the reason, or the message.
pub open spec fn error_details(e: ErrorResponseModel) -> Seq<JsonMemberModel> {
    match e {
        ErrorResponseModel::Runtime(RuntimeErrorModel::NoServiceMounted) => Seq::empty(),
        ErrorResponseModel::Runtime(RuntimeErrorModel::ServiceMountsAmbiguous) => Seq::empty(),
        ErrorResponseModel::Runtime(RuntimeErrorModel::NoRouteMountedInService { service }) => {
            seq![text_member("service"@, service)]
        },
        ErrorResponseModel::Runtime(RuntimeErrorModel::RouteMountsAmbiguous { service }) => {
            seq![text_member("service"@, service)]
        },
        ErrorResponseModel::Runtime(
            RuntimeErrorModel::RouteParamInvalid { param_name, parse_error },
        ) => seq![
            text_member("param_name"@, param_name),
            text_member("parse_error"@, parse_error),
        ],
        ErrorResponseModel::Runtime(RuntimeErrorModel::QueryInvalid(m)) => {
            seq![text_member("message"@, m)]
        },
        ErrorResponseModel::Runtime(RuntimeErrorModel::PostBodyReadError(m)) => {
            seq![text_member("message"@, m)]
        },
        ErrorResponseModel::Runtime(RuntimeErrorModel::SerializeHandlerResponse(m)) => {
            seq![text_member("message"@, m)]
        },
        ErrorResponseModel::Service(s) => seq![text_member("message"@, service_error_message(s))],
    }
}

/// The JSON document that reports an error: its kind, its name, and what
/// tells the failing service, parameter or cause.
pub open spec fn error_document_model(e: ErrorResponseModel) -> JsonModel {
    JsonModel::Object(
        seq![text_member("kind"@, error_kind(e)), text_member("error"@, error_name(e))]
            + error_details(e),
    )
}

/// A member of an object whose value is a text.
fn text_entry(key: &str, value: String) -> (r: JsonMember)
    ensures
        r.key@ == key@,
        r.value@ == JsonModel::Text(value@),
{
    JsonMember { key: String::from_str(key), value: JsonValue::Text(value) }
}

/// The name of an error.
pub fn error_name_of(e: &ErrorResponse) -> (r: &'static str)
    ensures
        r@ == error_name(e@),
{
    match e {
        ErrorResponse::Runtime(RuntimeError::NoServiceMounted) => "NoServiceMounted",
        ErrorResponse::Runtime(RuntimeError::ServiceMountsAmbiguous) => "ServiceMountsAmbiguous",
        ErrorResponse::Runtime(RuntimeError::NoRouteMountedInService { .. }) => {
            "NoRouteMountedInService"
        },
        ErrorResponse::Runtime(RuntimeError::RouteMountsAmbiguous { .. }) => {
            "RouteMountsAmbiguous"
        },
        ErrorResponse::Runtime(RuntimeError::RouteParamInvalid { .. }) => "RouteParamInvalid",
        ErrorResponse::Runtime(RuntimeError::QueryInvalid(_)) => "QueryInvalid",
        ErrorResponse::Runtime(RuntimeError::PostBodyReadError(_)) => "PostBodyReadError",
        ErrorResponse::Runtime(RuntimeError::SerializeHandlerResponse(_)) => {
            "SerializeHandlerResponse"
        },
        ErrorResponse::Service(ServiceError::Authentication) => "Authentication",
        ErrorResponse::Service(ServiceError::Authorization) => "Authorization",
        ErrorResponse::Service(ServiceError::Internal(_)) => "Internal",
    }
}

/// The JSON document that reports an error.
pub fn error_document(e: &ErrorResponse) -> (r: JsonValue)
    ensures
        r@ == error_document_model(e@),
{
    let kind = match e {
        ErrorResponse::Service(_) => "service",
        ErrorResponse::Runtime(_) => if e.is_routing_error() {
            "routing"
        } else {
            "request"
        },
    };
    let mut members: Vec<JsonMember> = Vec::new();
    members.push(text_entry("kind", String::from_str(kind)));
    members.push(text_entry("error", String::from_str(error_name_of(e))));
    match e {
        ErrorResponse::Runtime(RuntimeError::NoServiceMounted) => {},
        ErrorResponse::Runtime(RuntimeError::ServiceMountsAmbiguous) => {},
        ErrorResponse::Runtime(RuntimeError::NoRouteMountedInService { service }) => {
            members.push(text_entry("service", service.clone()));
        },
        ErrorResponse::Runtime(RuntimeError::RouteMountsAmbiguous { service }) => {
            members.push(text_entry("service", service.clone()));
        },
        ErrorResponse::Runtime(RuntimeError::RouteParamInvalid { param_name, parse_error }) => {
            members.push(text_entry("param_name", param_name.clone()));
            members.push(text_entry("parse_error", parse_error.clone()));
        },
        ErrorResponse::Runtime(RuntimeError::QueryInvalid(m)) => {
            members.push(text_entry("message", m.clone()));
        },
        ErrorResponse::Runtime(RuntimeError::PostBodyReadError(m)) => {
            members.push(text_entry("message", m.clone()));
        },
        ErrorResponse::Runtime(RuntimeError::SerializeHandlerResponse(m)) => {
            members.push(text_entry("message", m.clone()));
        },
        ErrorResponse::Service(s) => {
            members.push(text_entry("message", s.to_string()));
        },
    }
    let r = JsonValue::Object(members);
    assert(r@->Object_0 =~= error_document_model(e@)->Object_0);
    r
}

/// The status that an outcome implies: success, a path that leads nowhere,
/// a fault of the request, a refusal, or a fault of the server.
pub open spec fn status_model(body: Result<Seq<char>, ErrorResponseModel>) -> u16 {
    match body {
        Ok(_) => 200,
        Err(ErrorResponseModel::Runtime(RuntimeErrorModel::NoServiceMounted)) => 404,
        Err(ErrorResponseModel::Runtime(RuntimeErrorModel::NoRouteMountedInService { .. })) => 404,
        Err(ErrorResponseModel::Runtime(RuntimeErrorModel::RouteParamInvalid { .. })) => 400,
        Err(ErrorResponseModel::Runtime(RuntimeErrorModel::QueryInvalid(_))) => 400,
        Err(ErrorResponseModel::Runtime(RuntimeErrorModel::PostBodyReadError(_))) => 400,
        Err(ErrorResponseModel::Service(ServiceErrorModel::Authentication)) => 401,
        Err(ErrorResponseModel::Service(ServiceErrorModel::Authorization)) => 403,
        Err(_) => 500,
    }
}

/// What an outcome is, with its texts taken as their characters.
pub open spec fn outcome_model(body: Result<String, ErrorResponse>) -> Result<
    Seq<char>,
    ErrorResponseModel,
> {
    match body {
        Ok(s) => Ok(s@),
        Err(e) => Err(e@),
    }
}

/// The text that an outcome is answered with: the JSON text of the value,
/// or that of the document that reports the error.
pub open spec fn body_text(body: Result<Seq<char>, ErrorResponseModel>) -> Seq<char> {
    match body {
        Ok(s) => s,
        Err(e) => json_text(error_document_model(e)),
    }
}

/// A response: what is sent back for a request.
#[derive(Debug, PartialEq, Eq)]
pub struct Response {
    /// The outcome: the JSON text of the handler's value, or the error.
    pub body: Result<String, ErrorResponse>,
    /// The status that the outcome implies.
    pub status: u16,
    /// The text of the body: always a JSON document.
    pub text: String,
    /// The header fields, name and value, in order.
    pub headers: Vec<(String, String)>,
}

/// Whether the headers are those that every response carries: the request
/// identifier, then the JSON content type.
pub open spec fn standard_headers(headers: Seq<(String, String)>, request_id: Seq<char>) -> bool {
    &&& headers.len() == 2
    &&& headers[0].0@ == request_id_header()
    &&& headers[0].1@ == request_id
    &&& headers[1].0@ == "Content-Type"@
    &&& headers[1].1@ == "application/json"@
}

/// The status that an outcome implies.
pub fn status_of(body: &Result<String, ErrorResponse>) -> (r: u16)
    ensures
        r == status_model(outcome_model(*body)),
{
    match body {
        Ok(_) => 200,
        Err(ErrorResponse::Runtime(RuntimeError::NoServiceMounted)) => 404,
        Err(ErrorResponse::Runtime(RuntimeError::NoRouteMountedInService { .. })) => 404,
        Err(ErrorResponse::Runtime(RuntimeError::RouteParamInvalid { .. })) => 400,
        Err(ErrorResponse::Runtime(RuntimeError::QueryInvalid(_))) => 400,
        Err(ErrorResponse::Runtime(RuntimeError::PostBodyReadError(_))) => 400,
        Err(ErrorResponse::Service(ServiceError::Authentication)) => 401,
        Err(ErrorResponse::Service(ServiceError::Authorization)) => 403,
        Err(_) => 500,
    }
}

/// Makes the response for a request: the outcome with its status and its
/// text, tagged with the request identifier and the JSON content type,
/// whatever the outcome.
pub fn finish_response(body: Result<String, ErrorResponse>, request_id: String) -> (r: Response)
    ensures
        r.body == body,
        r.status == status_model(outcome_model(body)),
        r.text@ == body_text(outcome_model(body)),
        standard_headers(r.headers@, request_id@),
{
    let mut headers: Vec<(String, String)> = Vec::new();
    headers.push((String::from_str("Request-ID"), request_id));
    headers.push((String::from_str("Content-Type"), String::from_str("application/json")));
    let status = status_of(&body);
    let text = match &body {
        Ok(s) => s.clone(),
        Err(e) => to_text(&error_document(e)),
    };
    Response { body, status, text, headers }
}

/// A request on its way: its identifier, and where it belongs.
pub struct Routed<'a> {
    pub request_id: String,
    pub outcome: Result<RouteMatch<'a>, RuntimeError>,
}

/// Routes a request under a given identifier.
pub fn handle_request_impl<'a>(
    services: &'a RegexSetMap<Request, Service>,
    req: &Request,
    request_id: String,
) -> (r: Routed<'a>)
    ensures
        r.request_id == request_id,
        match routing(services, req) {
            Err(e) => r.outcome is Err && r.outcome->Err_0@ == e,
            Ok(m) => {
                &&& r.outcome is Ok
                &&& r.outcome->Ok_0.service@ == m.service
                &&& r.outcome->Ok_0.suffix@ == m.suffix
                &&& 0 <= m.service_index < services.entries().len()
                &&& 0 <= m.route_index < services.entries()[m.service_index].0.1.entries().len()
                &&& *r.outcome->Ok_0.route
                    == services.entries()[m.service_index].0.1.entries()[m.route_index]
            },
        },
{
    Routed { request_id, outcome: route_request(services, req) }
}

/// Takes a request in: gives it a fresh random identifier of 30 letters and
/// digits, and routes it.
pub fn handle_request<'a>(services: &'a RegexSetMap<Request, Service>, req: &Request) -> (r: Routed<
    'a,
>)
    ensures
        is_request_id(r.request_id@),
        match routing(services, req) {
            Err(e) => r.outcome is Err && r.outcome->Err_0@ == e,
            Ok(m) => {
                &&& r.outcome is Ok
                &&& r.outcome->Ok_0.service@ == m.service
                &&& r.outcome->Ok_0.suffix@ == m.suffix
                &&& 0 <= m.service_index < services.entries().len()
                &&& 0 <= m.route_index < services.entries()[m.service_index].0.1.entries().len()
                &&& *r.outcome->Ok_0.route
                    == services.entries()[m.service_index].0.1.entries()[m.route_index]
            },
        },
{
    handle_request_impl(services, req, random_request_id())
}

} // verus!
