use humblegen::ast::{
    AtomType, FieldDefPair, FieldNode, HttpMethod, ServiceDef, ServiceEndpoint, ServiceRoute,
    ServiceRouteComponent, Spec, SpecItem, StructDef, StructFields, TupleDef, TypeIdent,
};
use humblegen::compile::lower_all_services;
use humblegen::error::CompileError;
use humblegen::routes::{
    check_type, handler_name, lower_service_route, route_name_stem, route_url_pattern,
};

fn point_struct() -> SpecItem {
    SpecItem::StructDef(StructDef {
        name: "Point".to_string(),
        fields: StructFields(vec![
            FieldNode {
                pair: FieldDefPair {
                    name: "x".to_string(),
                    type_ident: TypeIdent::BuiltIn(AtomType::I32),
                },
                doc_comment: None,
            },
            FieldNode {
                pair: FieldDefPair {
                    name: "y".to_string(),
                    type_ident: TypeIdent::BuiltIn(AtomType::I32),
                },
                doc_comment: None,
            },
        ]),
        doc_comment: None,
    })
}

fn var(name: &str, atom: AtomType) -> ServiceRouteComponent {
    ServiceRouteComponent::Variable(FieldDefPair {
        name: name.to_string(),
        type_ident: TypeIdent::BuiltIn(atom),
    })
}

fn lit(s: &str) -> ServiceRouteComponent {
    ServiceRouteComponent::Literal(s.to_string())
}

fn get(components: Vec<ServiceRouteComponent>, query: Option<TypeIdent>, ret: TypeIdent) -> ServiceEndpoint {
    ServiceEndpoint { doc_comment: None, route: ServiceRoute::Get { components, query, ret } }
}

#[test]
fn points_route_compiles_to_its_pattern() {
    let spec = Spec(vec![point_struct()]);
    let endpoint = get(
        vec![lit("points"), var("id", AtomType::I32)],
        None,
        TypeIdent::UserDefined("Point".to_string()),
    );
    let route = lower_service_route(&spec, &endpoint).unwrap();
    assert_eq!(route.url_pattern, "^/points/(?P<id>[^/]+)$");
    assert_eq!(route.handler_name, "get_points_id");
    assert_eq!(route.method, HttpMethod::Get);
    assert_eq!(endpoint.route.http_method_as_str(), "GET");
    assert_eq!(
        route.variables,
        vec![FieldDefPair { name: "id".to_string(), type_ident: TypeIdent::BuiltIn(AtomType::I32) }]
    );
    assert_eq!(route.query, None);
    assert_eq!(route.body, None);
    assert_eq!(route.ret, TypeIdent::UserDefined("Point".to_string()));
}

#[test]
fn pattern_of_no_components_is_empty_between_anchors() {
    assert_eq!(route_url_pattern(&vec![]), "^$");
    assert_eq!(
        route_url_pattern(&vec![var("a", AtomType::Str), lit("b-c"), var("d", AtomType::U8)]),
        "^/(?P<a>[^/]+)/b-c/(?P<d>[^/]+)$"
    );
}

#[test]
fn unknown_return_type_is_unresolved() {
    let spec = Spec(vec![point_struct()]);
    let endpoint = get(vec![lit("lines")], None, TypeIdent::UserDefined("Line".to_string()));
    assert_eq!(
        lower_service_route(&spec, &endpoint),
        Err(CompileError::UnresolvedTypeReference("Line".to_string()))
    );
}

#[test]
fn query_must_be_user_defined() {
    let spec = Spec(vec![point_struct()]);
    let endpoint = get(
        vec![lit("points")],
        Some(TypeIdent::BuiltIn(AtomType::Str)),
        TypeIdent::BuiltIn(AtomType::Empty),
    );
    assert_eq!(lower_service_route(&spec, &endpoint), Err(CompileError::QueryNotUserDefined));
    let good = get(
        vec![lit("points")],
        Some(TypeIdent::UserDefined("Point".to_string())),
        TypeIdent::BuiltIn(AtomType::Empty),
    );
    assert_eq!(
        lower_service_route(&spec, &good).unwrap().query,
        Some(TypeIdent::UserDefined("Point".to_string()))
    );
    let missing = get(
        vec![lit("points")],
        Some(TypeIdent::UserDefined("Filter".to_string())),
        TypeIdent::BuiltIn(AtomType::Empty),
    );
    assert_eq!(
        lower_service_route(&spec, &missing),
        Err(CompileError::UnresolvedTypeReference("Filter".to_string()))
    );
}

#[test]
fn map_key_must_be_string_like() {
    let spec = Spec(vec![point_struct()]);
    let bad = TypeIdent::Mapping(
        Box::new(TypeIdent::BuiltIn(AtomType::I32)),
        Box::new(TypeIdent::BuiltIn(AtomType::Str)),
    );
    assert_eq!(check_type(&spec, &bad), Err(CompileError::MapKeyNotStringLike));
    for key in [AtomType::Str, AtomType::Uuid, AtomType::Bytes] {
        let good = TypeIdent::Mapping(
            Box::new(TypeIdent::BuiltIn(key)),
            Box::new(TypeIdent::UserDefined("Point".to_string())),
        );
        assert_eq!(check_type(&spec, &good), Ok(()));
    }
}

#[test]
fn first_defect_of_a_type_is_reported() {
    let spec = Spec(vec![point_struct()]);
    let t = TypeIdent::Tuple(TupleDef(vec![
        TypeIdent::UserDefined("Point".to_string()),
        TypeIdent::Result(
            Box::new(TypeIdent::UserDefined("A".to_string())),
            Box::new(TypeIdent::Mapping(
                Box::new(TypeIdent::BuiltIn(AtomType::Bool)),
                Box::new(TypeIdent::BuiltIn(AtomType::Str)),
            )),
        ),
        TypeIdent::UserDefined("B".to_string()),
    ]));
    assert_eq!(check_type(&spec, &t), Err(CompileError::UnresolvedTypeReference("A".to_string())));
}

#[test]
fn variable_named_twice_is_refused() {
    let spec = Spec(vec![]);
    let endpoint = get(
        vec![var("id", AtomType::I32), lit("of"), var("id", AtomType::Str)],
        None,
        TypeIdent::BuiltIn(AtomType::Empty),
    );
    assert_eq!(
        lower_service_route(&spec, &endpoint),
        Err(CompileError::DuplicateRouteVariable("id".to_string()))
    );
}

#[test]
fn body_is_bound_for_post_and_checked() {
    let spec = Spec(vec![point_struct()]);
    let endpoint = ServiceEndpoint {
        doc_comment: Some("Move a point.".to_string()),
        route: ServiceRoute::Post {
            components: vec![lit("points")],
            query: None,
            body: TypeIdent::UserDefined("Point".to_string()),
            ret: TypeIdent::List(Box::new(TypeIdent::UserDefined("Point".to_string()))),
        },
    };
    let route = lower_service_route(&spec, &endpoint).unwrap();
    assert_eq!(route.method, HttpMethod::Post);
    assert_eq!(route.body, Some(TypeIdent::UserDefined("Point".to_string())));
    assert_eq!(route.url_pattern, "^/points$");
    let bad = ServiceEndpoint {
        doc_comment: None,
        route: ServiceRoute::Put {
            components: vec![lit("points")],
            query: None,
            body: TypeIdent::UserDefined("Nope".to_string()),
            ret: TypeIdent::UserDefined("AlsoNope".to_string()),
        },
    };
    assert_eq!(
        lower_service_route(&spec, &bad),
        Err(CompileError::UnresolvedTypeReference("Nope".to_string()))
    );
}

#[test]
fn services_compile_in_order_after_definitions() {
    let service = SpecItem::ServiceDef(ServiceDef {
        name: "PointApi".to_string(),
        doc_comment: None,
        endpoints: vec![
            get(
                vec![lit("points"), var("id", AtomType::I32)],
                None,
                TypeIdent::UserDefined("Point".to_string()),
            ),
            get(vec![lit("points")], None, TypeIdent::List(Box::new(TypeIdent::UserDefined("Point".to_string())))),
        ],
    });
    let spec = Spec(vec![service, point_struct()]);
    let services = lower_all_services(&spec).unwrap();
    assert_eq!(services.len(), 1);
    assert_eq!(services[0].name, "PointApi");
    assert_eq!(services[0].routes.len(), 2);
    assert_eq!(services[0].routes[0].url_pattern, "^/points/(?P<id>[^/]+)$");
    assert_eq!(services[0].routes[1].url_pattern, "^/points$");
}

#[test]
fn defect_of_a_definition_comes_before_that_of_a_service() {
    let service = SpecItem::ServiceDef(ServiceDef {
        name: "Api".to_string(),
        doc_comment: None,
        endpoints: vec![get(vec![], None, TypeIdent::UserDefined("InService".to_string()))],
    });
    let broken = SpecItem::StructDef(StructDef {
        name: "Broken".to_string(),
        fields: StructFields(vec![FieldNode {
            pair: FieldDefPair {
                name: "f".to_string(),
                type_ident: TypeIdent::UserDefined("InStruct".to_string()),
            },
            doc_comment: None,
        }]),
        doc_comment: None,
    });
    let spec = Spec(vec![service, broken]);
    assert_eq!(
        lower_all_services(&spec),
        Err(CompileError::UnresolvedTypeReference("InStruct".to_string()))
    );
}

#[test]
fn handler_is_named_after_method_and_path() {
    let spec = Spec(vec![]);
    let endpoint = ServiceEndpoint {
        doc_comment: None,
        route: ServiceRoute::Delete {
            components: vec![lit("monster-pens"), var("penId", AtomType::Str), lit("gates")],
            query: None,
            ret: TypeIdent::BuiltIn(AtomType::Empty),
        },
    };
    let route = lower_service_route(&spec, &endpoint).unwrap();
    assert_eq!(route.handler_name, "delete_monster_pens_pen_id_gates");
    assert_eq!(
        route_name_stem(&vec![lit("monster-pens"), var("penId", AtomType::Str), lit("gates")]),
        "monster-pens_penId_gates"
    );
    assert_eq!(route_name_stem(&vec![]), "");
    assert_eq!(route_name_stem(&vec![lit("a")]), "a");
    assert_eq!(handler_name(HttpMethod::Get, "a_b"), "get_a_b");
    assert_eq!(handler_name(HttpMethod::Post, "x"), "post_x");
    assert_eq!(handler_name(HttpMethod::Put, "x"), "put_x");
    assert_eq!(handler_name(HttpMethod::Patch, "x"), "patch_x");
    assert_eq!(handler_name(HttpMethod::Delete, ""), "delete_");
}
