use humblegen::ast::{AtomType, FieldDefPair, HttpMethod, TypeIdent};
use humblegen::deser_helpers::{deser_param, deser_query_primitive, parse_integer, ParamValue};
use humblegen::dispatcher::{
    begin_request, continue_request, finish_response, handle_request, handle_request_impl,
    handler_response_to_response, Action, ErrorResponse, Event,
};
use humblegen::handler::ServiceError;
use humblegen::regexset_map::{GetResult, RegexSetMap};
use humblegen::routes::CompiledRoute;
use humblegen::server::{
    is_valid_mount_prefix, route_request, Builder, MountError, Request, RuntimeError, Service,
};

fn compiled(method: HttpMethod, pattern: &str, variables: Vec<(&str, AtomType)>, body: Option<TypeIdent>) -> CompiledRoute {
    CompiledRoute {
        method,
        url_pattern: pattern.to_string(),
        handler_name: "handle".to_string(),
        variables: variables
            .into_iter()
            .map(|(n, a)| FieldDefPair { name: n.to_string(), type_ident: TypeIdent::BuiltIn(a) })
            .collect(),
        query: None,
        body,
        ret: TypeIdent::UserDefined("Point".to_string()),
    }
}

fn request(method: HttpMethod, path: &str) -> Request {
    Request { method: Some(method), path: path.to_string(), query: None, body: Vec::new() }
}

fn points_server() -> RegexSetMap<Request, Service> {
    Builder::new()
        .add(
            "/api",
            &vec![
                compiled(HttpMethod::Get, "^/points/(?P<id>[^/]+)$", vec![("id", AtomType::I32)], None),
                compiled(
                    HttpMethod::Post,
                    "^/points/(?P<id>[^/]+)$",
                    vec![("id", AtomType::I32)],
                    Some(TypeIdent::UserDefined("Point".to_string())),
                ),
            ],
        )
        .unwrap()
        .into_services()
}

#[test]
fn mount_prefix_starts_with_a_slash_and_ends_without() {
    assert!(is_valid_mount_prefix("/api"));
    assert!(is_valid_mount_prefix("/a/b"));
    assert!(!is_valid_mount_prefix("api"));
    assert!(!is_valid_mount_prefix("/api/"));
    assert!(!is_valid_mount_prefix("/"));
    assert!(!is_valid_mount_prefix(""));
}

#[test]
fn request_is_routed_to_its_route() {
    let services = points_server();
    let req = request(HttpMethod::Get, "/api/points/42");
    let m = route_request(&services, &req).unwrap();
    assert_eq!(m.service, "/api");
    assert_eq!(m.suffix, "/points/42");
    assert_eq!(m.route.method, HttpMethod::Get);
    let (action, params) = begin_request(m.route, &m.suffix, &req);
    assert_eq!(action, Action::Intercept);
    assert_eq!(params, vec![ParamValue::I32(42)]);
}

#[test]
fn unmatched_path_has_no_service() {
    let services = points_server();
    let req = request(HttpMethod::Get, "/other/points/42");
    assert_eq!(route_request(&services, &req).err(), Some(RuntimeError::NoServiceMounted));
    let bare = request(HttpMethod::Get, "/api");
    assert_eq!(route_request(&services, &bare).err(), Some(RuntimeError::NoServiceMounted));
}

#[test]
fn unmatched_route_is_reported_with_its_service() {
    let services = points_server();
    let req = request(HttpMethod::Get, "/api/lines/42");
    assert_eq!(
        route_request(&services, &req).err(),
        Some(RuntimeError::NoRouteMountedInService { service: "/api".to_string() })
    );
    let wrong_method = request(HttpMethod::Delete, "/api/points/42");
    assert_eq!(
        route_request(&services, &wrong_method).err(),
        Some(RuntimeError::NoRouteMountedInService { service: "/api".to_string() })
    );
    let unknown_method = Request {
        method: None,
        path: "/api/points/42".to_string(),
        query: None,
        body: Vec::new(),
    };
    assert_eq!(
        route_request(&services, &unknown_method).err(),
        Some(RuntimeError::NoRouteMountedInService { service: "/api".to_string() })
    );
}

#[test]
fn variable_and_literal_at_one_place_are_ambiguous() {
    let routes = vec![
        compiled(HttpMethod::Get, "^/points/(?P<id>[^/]+)$", vec![("id", AtomType::Str)], None),
        compiled(HttpMethod::Get, "^/points/origin$", vec![], None),
    ];
    let services = Builder::new().add("/api", &routes).unwrap().into_services();
    assert_eq!(
        route_request(&services, &request(HttpMethod::Get, "/api/points/origin")).err(),
        Some(RuntimeError::RouteMountsAmbiguous { service: "/api".to_string() })
    );
    assert!(route_request(&services, &request(HttpMethod::Get, "/api/points/7")).is_ok());
    let reversed = vec![
        compiled(HttpMethod::Get, "^/points/origin$", vec![], None),
        compiled(HttpMethod::Get, "^/points/(?P<id>[^/]+)$", vec![("id", AtomType::Str)], None),
    ];
    let services = Builder::new().add("/api", &reversed).unwrap().into_services();
    assert_eq!(
        route_request(&services, &request(HttpMethod::Get, "/api/points/origin")).err(),
        Some(RuntimeError::RouteMountsAmbiguous { service: "/api".to_string() })
    );
}

#[test]
fn same_pattern_under_two_methods_is_not_ambiguous() {
    let services = points_server();
    let m = route_request(&services, &request(HttpMethod::Post, "/api/points/1")).unwrap();
    assert_eq!(m.route.method, HttpMethod::Post);
}

#[test]
fn overlapping_mounts_are_ambiguous() {
    let routes = vec![compiled(HttpMethod::Get, "^/x$", vec![], None)];
    let services = Builder::new()
        .add("/api", &routes)
        .unwrap()
        .add("/api/v1", &routes)
        .unwrap()
        .into_services();
    assert_eq!(
        route_request(&services, &request(HttpMethod::Get, "/api/v1/x")).err(),
        Some(RuntimeError::ServiceMountsAmbiguous)
    );
    assert_eq!(
        route_request(&services, &request(HttpMethod::Get, "/api/x")).map(|m| m.service).ok(),
        Some("/api".to_string())
    );
}

#[test]
fn pattern_that_cannot_be_compiled_is_not_mounted() {
    let routes = vec![compiled(HttpMethod::Get, "^/x($", vec![], None)];
    match Builder::new().add("/api", &routes) {
        Err(MountError::InvalidPattern(p)) => assert_eq!(p, "^/x($"),
        Ok(_) => panic!("mounted"),
    }
    match Builder::new().add("/a(pi", &vec![]) {
        Err(MountError::InvalidPattern(p)) => assert_eq!(p, "^(?P<root>/a(pi)(?P<suffix>/.*)"),
        Ok(_) => panic!("mounted"),
    }
}

#[test]
fn lookup_tells_none_one_and_many() {
    let routes = vec![
        compiled(HttpMethod::Get, "^/a$", vec![], None),
        compiled(HttpMethod::Get, "^/[ab]$", vec![], None),
    ];
    let services = Builder::new().add("/s", &routes).unwrap().into_services();
    assert_eq!(services.len(), 1);
    let routes = &services.entry(0).0 .1;
    assert_eq!(routes.len(), 2);
    let get = request(HttpMethod::Get, "");
    assert!(matches!(routes.get("/c", &get), GetResult::NoMatch));
    assert!(matches!(routes.get("/a", &get), GetResult::Ambiguous));
    match routes.get("/b", &get) {
        GetResult::One(r) => assert_eq!(r.regex.as_str(), "^/[ab]$"),
        _ => panic!("not one"),
    }
    assert!(matches!(routes.get("/b", &request(HttpMethod::Put, "")), GetResult::NoMatch));
    let empty: RegexSetMap<Request, Service> = RegexSetMap::new(Vec::new()).unwrap();
    assert!(matches!(empty.get("/a", &get), GetResult::NoMatch));
}

#[test]
fn parameter_error_comes_before_the_body() {
    let services = points_server();
    let req = Request {
        method: Some(HttpMethod::Post),
        path: "/api/points/abc".to_string(),
        query: None,
        body: b"{ not json".to_vec(),
    };
    let m = route_request(&services, &req).unwrap();
    let (action, params) = begin_request(m.route, &m.suffix, &req);
    assert!(params.is_empty());
    match action {
        Action::Respond(Err(ErrorResponse::Runtime(RuntimeError::RouteParamInvalid {
            param_name,
            parse_error,
        }))) => {
            assert_eq!(param_name, "id");
            assert_eq!(parse_error, "invalid digit found in string");
        }
        other => panic!("unexpected {:?}", other),
    }
    let good = Request { path: "/api/points/5".to_string(), ..req };
    let m = route_request(&services, &good).unwrap();
    let (action, params) = begin_request(m.route, &m.suffix, &good);
    assert_eq!(action, Action::DecodeBody);
    assert_eq!(params, vec![ParamValue::I32(5)]);
    assert_eq!(
        continue_request(m.route, Event::BodyDecoded(Err("expected value".to_string()))),
        Action::Respond(Err(ErrorResponse::Runtime(RuntimeError::PostBodyReadError(
            "expected value".to_string()
        ))))
    );
}

#[test]
fn steps_follow_in_their_order() {
    let mut with_query = compiled(
        HttpMethod::Put,
        "^/p$",
        vec![],
        Some(TypeIdent::UserDefined("Point".to_string())),
    );
    with_query.query = Some(TypeIdent::UserDefined("Filter".to_string()));
    let services = Builder::new().add("/s", &vec![with_query]).unwrap().into_services();
    let req = Request {
        method: Some(HttpMethod::Put),
        path: "/s/p".to_string(),
        query: Some("a=1".to_string()),
        body: Vec::new(),
    };
    let m = route_request(&services, &req).unwrap();
    assert_eq!(begin_request(m.route, &m.suffix, &req).0, Action::DecodeQuery);
    let without = Request { query: None, ..request(HttpMethod::Put, "/s/p") };
    assert_eq!(begin_request(m.route, &m.suffix, &without).0, Action::DecodeBody);
    assert_eq!(continue_request(m.route, Event::QueryDecoded(Ok(()))), Action::DecodeBody);
    assert_eq!(
        continue_request(m.route, Event::QueryDecoded(Err("bad".to_string()))),
        Action::Respond(Err(ErrorResponse::Runtime(RuntimeError::QueryInvalid("bad".to_string()))))
    );
    assert_eq!(continue_request(m.route, Event::BodyDecoded(Ok(()))), Action::Intercept);
    assert_eq!(continue_request(m.route, Event::Intercepted(Ok(()))), Action::Invoke);
    assert_eq!(
        continue_request(m.route, Event::Intercepted(Err(ServiceError::Authentication))),
        Action::Respond(Err(ErrorResponse::Service(ServiceError::Authentication)))
    );
    assert_eq!(
        continue_request(m.route, Event::Handled(Ok(Ok("{\"x\":1,\"y\":2}".to_string())))),
        Action::Respond(Ok("{\"x\":1,\"y\":2}".to_string()))
    );
}

#[test]
fn handler_result_maps_to_the_answer() {
    assert_eq!(handler_response_to_response(Ok(Ok("3".to_string()))), Ok("3".to_string()));
    assert_eq!(
        handler_response_to_response(Ok(Err("key must be a string".to_string()))),
        Err(ErrorResponse::Runtime(RuntimeError::SerializeHandlerResponse(
            "key must be a string".to_string()
        )))
    );
    assert_eq!(
        handler_response_to_response(Err(ServiceError::Authorization)),
        Err(ErrorResponse::Service(ServiceError::Authorization))
    );
    assert!(ErrorResponse::Runtime(RuntimeError::NoServiceMounted).is_routing_error());
    assert!(ErrorResponse::Runtime(RuntimeError::RouteMountsAmbiguous { service: "/a".to_string() })
        .is_routing_error());
    assert!(!ErrorResponse::Runtime(RuntimeError::QueryInvalid("q".to_string())).is_routing_error());
    assert!(!ErrorResponse::Service(ServiceError::Authentication).is_routing_error());
}

#[test]
fn service_error_has_its_message() {
    assert_eq!(ServiceError::Authentication.to_string(), "authentication error");
    assert_eq!(ServiceError::Authorization.to_string(), "not authorized");
    assert_eq!(
        ServiceError::Internal("Timeout".to_string()).to_string(),
        "internal server error: Timeout"
    );
}

#[test]
fn every_response_carries_id_and_content_type() {
    let ok = finish_response(Ok("{}".to_string()), "abc".to_string());
    assert_eq!(ok.body, Ok("{}".to_string()));
    assert_eq!(
        ok.headers,
        vec![
            ("Request-ID".to_string(), "abc".to_string()),
            ("Content-Type".to_string(), "application/json".to_string())
        ]
    );
    let err = finish_response(
        Err(ErrorResponse::Runtime(RuntimeError::NoServiceMounted)),
        "xyz".to_string(),
    );
    assert_eq!(err.headers[0], ("Request-ID".to_string(), "xyz".to_string()));
    assert_eq!(err.headers[1], ("Content-Type".to_string(), "application/json".to_string()));
}

#[test]
fn request_id_is_thirty_letters_and_digits() {
    let services = points_server();
    let req = request(HttpMethod::Get, "/api/points/42");
    let a = handle_request(&services, &req);
    assert_eq!(a.request_id.chars().count(), 30);
    assert!(a.request_id.chars().all(|c| c.is_ascii_alphanumeric()));
    assert!(a.outcome.is_ok());
    let b = handle_request_impl(&services, &request(HttpMethod::Get, "/nowhere"), "id".to_string());
    assert_eq!(b.request_id, "id");
    assert_eq!(b.outcome.err(), Some(RuntimeError::NoServiceMounted));
}

#[test]
fn primitives_decode_by_their_type() {
    let int = TypeIdent::BuiltIn(AtomType::I32);
    assert_eq!(deser_param("id", "42", &int), Ok(ParamValue::I32(42)));
    assert_eq!(deser_param("id", "-7", &int), Ok(ParamValue::I32(-7)));
    assert_eq!(
        deser_param("id", "abc", &int),
        Err(RuntimeError::RouteParamInvalid {
            param_name: "id".to_string(),
            parse_error: "invalid digit found in string".to_string()
        })
    );
    assert_eq!(
        deser_param("id", "2147483648", &int),
        Err(RuntimeError::RouteParamInvalid {
            param_name: "id".to_string(),
            parse_error: "number too large to fit in target type".to_string()
        })
    );
    assert_eq!(deser_param("n", "4294967295", &TypeIdent::BuiltIn(AtomType::U32)), Ok(ParamValue::U32(4294967295)));
    assert_eq!(deser_param("n", "255", &TypeIdent::BuiltIn(AtomType::U8)), Ok(ParamValue::U8(255)));
    assert!(deser_param("n", "256", &TypeIdent::BuiltIn(AtomType::U8)).is_err());
    assert!(deser_param("n", "-1", &TypeIdent::BuiltIn(AtomType::U32)).is_err());
    assert_eq!(
        deser_param("s", "a b", &TypeIdent::BuiltIn(AtomType::Str)),
        Ok(ParamValue::Str("a b".to_string()))
    );
    assert_eq!(deser_param("b", "true", &TypeIdent::BuiltIn(AtomType::Bool)), Ok(ParamValue::Bool(true)));
    assert_eq!(deser_param("b", "false", &TypeIdent::BuiltIn(AtomType::Bool)), Ok(ParamValue::Bool(false)));
    assert_eq!(
        deser_param("b", "yes", &TypeIdent::BuiltIn(AtomType::Bool)),
        Err(RuntimeError::RouteParamInvalid {
            param_name: "b".to_string(),
            parse_error: "provided string was not `true` or `false`".to_string()
        })
    );
    assert_eq!(
        deser_param("u", "67e55044-10b1-426f-9247-bb680e5fe0c8", &TypeIdent::BuiltIn(AtomType::Uuid)),
        Ok(ParamValue::Raw("67e55044-10b1-426f-9247-bb680e5fe0c8".to_string()))
    );
    assert!(deser_param("e", "", &TypeIdent::BuiltIn(AtomType::Empty)).is_err());
    assert!(deser_param("l", "1", &TypeIdent::List(Box::new(TypeIdent::BuiltIn(AtomType::I32)))).is_err());
}

#[test]
fn primitive_query_decodes_or_is_invalid() {
    assert_eq!(
        deser_query_primitive("17", &TypeIdent::BuiltIn(AtomType::U8)),
        Ok(ParamValue::U8(17))
    );
    assert_eq!(
        deser_query_primitive("", &TypeIdent::BuiltIn(AtomType::U8)),
        Err(RuntimeError::QueryInvalid("cannot parse integer from empty string".to_string()))
    );
}

#[test]
fn integers_are_read_as_their_type_reads_them() {
    assert_eq!(parse_integer("0", true, -128, 127), Ok(0));
    assert_eq!(parse_integer("+127", true, -128, 127), Ok(127));
    assert_eq!(parse_integer("-128", true, -128, 127), Ok(-128));
    assert_eq!(parse_integer("-0", true, -128, 127), Ok(0));
    assert_eq!(parse_integer("000000000000000000000000017", false, 0, 255), Ok(17));
    assert_eq!(
        parse_integer("128", true, -128, 127),
        Err("number too large to fit in target type".to_string())
    );
    assert_eq!(
        parse_integer("-129", true, -128, 127),
        Err("number too small to fit in target type".to_string())
    );
    assert_eq!(
        parse_integer("99999999999999999999999999999", true, -2147483648, 2147483647),
        Err("number too large to fit in target type".to_string())
    );
    assert_eq!(
        parse_integer("-99999999999999999999999999999", true, -2147483648, 2147483647),
        Err("number too small to fit in target type".to_string())
    );
    assert_eq!(
        parse_integer("", true, -128, 127),
        Err("cannot parse integer from empty string".to_string())
    );
    for bad in ["+", "-", " 1", "1 ", "1_0", "0x10", "1.0", "--1", "+-1", "١"] {
        assert_eq!(
            parse_integer(bad, true, -128, 127),
            Err("invalid digit found in string".to_string()),
            "{:?}",
            bad
        );
        assert_eq!(bad.parse::<i8>().map_err(|e| e.to_string()), parse_integer(bad, true, -128, 127).map(|v| v as i8));
    }
    assert_eq!(
        parse_integer("-1", false, 0, 255),
        Err("invalid digit found in string".to_string())
    );
    assert_eq!(
        parse_integer("999x", true, -128, 127),
        Err("number too large to fit in target type".to_string())
    );
    assert_eq!(
        parse_integer("99x", true, -128, 127),
        Err("invalid digit found in string".to_string())
    );
    for text in ["0", "-1", "255", "256", "-129", "+5", "12a", "", "-", "999x", "99x", "+0", "-0", "00256"] {
        assert_eq!(
            text.parse::<u8>().map(|v| v as i64).map_err(|e| e.to_string()),
            parse_integer(text, false, 0, 255),
            "{:?}",
            text
        );
        assert_eq!(
            text.parse::<i32>().map(|v| v as i64).map_err(|e| e.to_string()),
            parse_integer(text, true, -2147483648, 2147483647),
            "{:?}",
            text
        );
    }
}

#[test]
fn errors_are_reported_as_json_documents() {
    let cases: Vec<(ErrorResponse, u16, &str)> = vec![
        (
            ErrorResponse::Runtime(RuntimeError::NoServiceMounted),
            404,
            "{\"kind\":\"routing\",\"error\":\"NoServiceMounted\"}",
        ),
        (
            ErrorResponse::Runtime(RuntimeError::ServiceMountsAmbiguous),
            500,
            "{\"kind\":\"routing\",\"error\":\"ServiceMountsAmbiguous\"}",
        ),
        (
            ErrorResponse::Runtime(RuntimeError::NoRouteMountedInService {
                service: "/api".to_string(),
            }),
            404,
            "{\"kind\":\"routing\",\"error\":\"NoRouteMountedInService\",\"service\":\"/api\"}",
        ),
        (
            ErrorResponse::Runtime(RuntimeError::RouteMountsAmbiguous { service: "/api".to_string() }),
            500,
            "{\"kind\":\"routing\",\"error\":\"RouteMountsAmbiguous\",\"service\":\"/api\"}",
        ),
        (
            ErrorResponse::Runtime(RuntimeError::RouteParamInvalid {
                param_name: "id".to_string(),
                parse_error: "invalid digit found in string".to_string(),
            }),
            400,
            "{\"kind\":\"request\",\"error\":\"RouteParamInvalid\",\"param_name\":\"id\",\"parse_error\":\"invalid digit found in string\"}",
        ),
        (
            ErrorResponse::Runtime(RuntimeError::QueryInvalid("missing field".to_string())),
            400,
            "{\"kind\":\"request\",\"error\":\"QueryInvalid\",\"message\":\"missing field\"}",
        ),
        (
            ErrorResponse::Runtime(RuntimeError::PostBodyReadError("EOF \"here\"".to_string())),
            400,
            "{\"kind\":\"request\",\"error\":\"PostBodyReadError\",\"message\":\"EOF \\\"here\\\"\"}",
        ),
        (
            ErrorResponse::Runtime(RuntimeError::SerializeHandlerResponse("nan".to_string())),
            500,
            "{\"kind\":\"request\",\"error\":\"SerializeHandlerResponse\",\"message\":\"nan\"}",
        ),
        (
            ErrorResponse::Service(ServiceError::Authentication),
            401,
            "{\"kind\":\"service\",\"error\":\"Authentication\",\"message\":\"authentication error\"}",
        ),
        (
            ErrorResponse::Service(ServiceError::Authorization),
            403,
            "{\"kind\":\"service\",\"error\":\"Authorization\",\"message\":\"not authorized\"}",
        ),
        (
            ErrorResponse::Service(ServiceError::Internal("Oops".to_string())),
            500,
            "{\"kind\":\"service\",\"error\":\"Internal\",\"message\":\"internal server error: Oops\"}",
        ),
    ];
    for (error, status, text) in cases {
        let response = finish_response(Err(error), "r".to_string());
        assert_eq!(response.status, status);
        assert_eq!(response.text, text);
        assert_eq!(response.headers.len(), 2);
    }
    let ok = finish_response(Ok("[1]".to_string()), "r".to_string());
    assert_eq!(ok.status, 200);
    assert_eq!(ok.text, "[1]");
}
