use humblegen::ast::{AtomType, HttpMethod, Spec, SpecItem};
use humblegen::compile::lower_all_services;
use humblegen::deser_helpers::ParamValue;
use humblegen::dispatcher::{
    begin_request, continue_request, finish_response, handle_request, Action, ErrorResponse, Event,
};
use humblegen::parser::{parse, ParseNode, Rule};
use humblegen::server::{Builder, Request, RuntimeError};
use humblegen::wire::{to_json, Member, Value};
use humblegen::wire_text::to_text;

fn node(rule: Rule, text: &str, children: Vec<ParseNode>) -> ParseNode {
    ParseNode { rule, text: text.to_string(), start: 0, end: text.len(), children }
}

fn leaf(rule: Rule, text: &str) -> ParseNode {
    node(rule, text, vec![])
}

fn ty(inner: ParseNode) -> ParseNode {
    let text = inner.text.clone();
    node(Rule::Other, &text, vec![inner])
}

fn pair(name: &str, t: ParseNode) -> ParseNode {
    node(Rule::Other, name, vec![leaf(Rule::Other, name), t])
}

fn field(name: &str, t: ParseNode) -> ParseNode {
    node(
        Rule::StructFieldDef,
        name,
        vec![node(Rule::StructFieldDefNode, name, vec![pair(name, t)])],
    )
}

/// struct Point { x: i32, y: i32 }
/// service Points { GET /points/{id: i32} -> Point }
fn points_schema() -> ParseNode {
    let point = node(
        Rule::StructDefinition,
        "Point",
        vec![
            leaf(Rule::Other, "Point"),
            node(
                Rule::StructFields,
                "",
                vec![
                    field("x", ty(leaf(Rule::BuiltInAtom, "i32"))),
                    field("y", ty(leaf(Rule::BuiltInAtom, "i32"))),
                ],
            ),
        ],
    );
    let route = node(
        Rule::Other,
        "",
        vec![
            leaf(Rule::HttpGet, "GET"),
            node(
                Rule::Other,
                "/points/{id: i32}",
                vec![
                    node(Rule::Other, "points", vec![leaf(Rule::KebabCaseIdent, "points")]),
                    node(
                        Rule::Other,
                        "{id: i32}",
                        vec![node(
                            Rule::HttpRouteSegmentArg,
                            "{id: i32}",
                            vec![pair("id", ty(leaf(Rule::BuiltInAtom, "i32")))],
                        )],
                    ),
                ],
            ),
            ty(leaf(Rule::CamelCaseIdent, "Point")),
        ],
    );
    let service = node(
        Rule::ServiceDefinition,
        "Points",
        vec![
            leaf(Rule::Other, "Points"),
            node(Rule::Other, "", vec![node(Rule::Other, "", vec![route])]),
        ],
    );
    node(Rule::Other, "", vec![point, service])
}

fn compiled() -> (Spec, Vec<humblegen::compile::CompiledService>) {
    let spec = parse(&points_schema()).unwrap();
    let services = lower_all_services(&spec).unwrap();
    (spec, services)
}

#[test]
fn points_schema_compiles_to_its_contract() {
    let (spec, services) = compiled();
    assert_eq!(spec.iter().len(), 2);
    assert!(matches!(spec.iter()[0], SpecItem::StructDef(_)));
    assert_eq!(services.len(), 1);
    assert_eq!(services[0].name, "Points");
    assert_eq!(services[0].routes.len(), 1);
    let route = &services[0].routes[0];
    assert_eq!(route.url_pattern, "^/points/(?P<id>[^/]+)$");
    assert_eq!(route.method, HttpMethod::Get);
    assert_eq!(route.handler_name, "get_points_id");
    assert_eq!(route.variables.len(), 1);
    assert_eq!(route.variables[0].name, "id");
}

#[test]
fn get_of_a_point_answers_with_its_json() {
    let (_, services) = compiled();
    let table = Builder::new().add("/geo", &services[0].routes).unwrap().into_services();
    let request = Request {
        method: Some(HttpMethod::Get),
        path: "/geo/points/42".to_string(),
        query: None,
        body: Vec::new(),
    };
    let routed = handle_request(&table, &request);
    let matched = routed.outcome.unwrap();
    let (action, params) = begin_request(matched.route, &matched.suffix, &request);
    assert_eq!(params, vec![ParamValue::I32(42)]);
    assert_eq!(action, Action::Intercept);
    let action = continue_request(matched.route, Event::Intercepted(Ok(())));
    assert_eq!(action, Action::Invoke);
    let point = Value::Struct(vec![
        Member { name: "x".to_string(), value: Value::Int(1) },
        Member { name: "y".to_string(), value: Value::Int(2) },
    ]);
    let action =
        continue_request(matched.route, Event::Handled(Ok(Ok(to_text(&to_json(&point))))));
    let body = match action {
        Action::Respond(body) => body,
        other => panic!("unexpected {:?}", other),
    };
    let response = finish_response(body, routed.request_id.clone());
    assert_eq!(response.body, Ok("{\"x\":1,\"y\":2}".to_string()));
    assert_eq!(response.headers[0], ("Request-ID".to_string(), routed.request_id));
    assert_eq!(response.headers[0].1.len(), 30);
    assert_eq!(response.headers[1], ("Content-Type".to_string(), "application/json".to_string()));
}

#[test]
fn get_of_a_point_with_a_bad_id_names_the_parameter() {
    let (_, services) = compiled();
    let table = Builder::new().add("/geo", &services[0].routes).unwrap().into_services();
    let request = Request {
        method: Some(HttpMethod::Get),
        path: "/geo/points/abc".to_string(),
        query: None,
        body: Vec::new(),
    };
    let routed = handle_request(&table, &request);
    let matched = routed.outcome.unwrap();
    let (action, _) = begin_request(matched.route, &matched.suffix, &request);
    assert_eq!(
        action,
        Action::Respond(Err(ErrorResponse::Runtime(RuntimeError::RouteParamInvalid {
            param_name: "id".to_string(),
            parse_error: "invalid digit found in string".to_string(),
        })))
    );
    let nested = Request { path: "/geo/points/4/2".to_string(), ..request };
    assert_eq!(
        handle_request(&table, &nested).outcome.err(),
        Some(RuntimeError::NoRouteMountedInService { service: "/geo".to_string() })
    );
}

#[test]
fn items_can_be_changed_in_place() {
    let (mut spec, _) = compiled();
    spec.iter_mut().pop();
    assert_eq!(spec.iter().len(), 1);
    assert_eq!(AtomType::I32, AtomType::I32);
}
