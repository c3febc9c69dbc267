use humblegen::ast::{
    AtomType, FieldDefPair, FieldNode, ServiceRoute, ServiceRouteComponent, Spec, SpecItem,
    StructDef, StructFields, TupleDef, TypeIdent, VariantType,
};
use humblegen::error::CompileError;
use humblegen::parser::{
    build_spec, parse, parse_built_in_atom, parse_doc_comment, parse_enum_variant_def,
    parse_service_rule_def, parse_spec_item, parse_type_ident, Artifact, LibError, ParseError,
    ParseNode, Rule,
};

fn node(rule: Rule, text: &str, children: Vec<ParseNode>) -> ParseNode {
    ParseNode { rule, text: text.to_string(), start: 0, end: text.len(), children }
}

fn leaf(rule: Rule, text: &str) -> ParseNode {
    node(rule, text, vec![])
}

fn ty(inner: ParseNode) -> ParseNode {
    let text = inner.text.clone();
    node(Rule::Other, &text, vec![inner])
}

fn atom(name: &str) -> ParseNode {
    ty(leaf(Rule::BuiltInAtom, name))
}

fn user(name: &str) -> ParseNode {
    ty(leaf(Rule::CamelCaseIdent, name))
}

fn doc(lines: &[&str]) -> ParseNode {
    node(
        Rule::DocComment,
        "",
        lines.iter().map(|l| node(Rule::Other, l, vec![leaf(Rule::Other, l)])).collect(),
    )
}

fn pair(name: &str, t: ParseNode) -> ParseNode {
    node(Rule::Other, name, vec![leaf(Rule::Other, name), t])
}

fn field(docs: Option<ParseNode>, name: &str, t: ParseNode) -> ParseNode {
    let mut children = Vec::new();
    if let Some(d) = docs {
        children.push(d);
    }
    children.push(pair(name, t));
    node(Rule::StructFieldDef, name, vec![node(Rule::StructFieldDefNode, name, children)])
}

fn embed(target: &str) -> ParseNode {
    node(Rule::StructFieldDef, target, vec![node(Rule::StructFieldDefEmbed, target, vec![user(target)])])
}

fn structure(docs: Option<ParseNode>, name: &str, fields: Vec<ParseNode>) -> ParseNode {
    let mut children = Vec::new();
    if let Some(d) = docs {
        children.push(d);
    }
    children.push(leaf(Rule::Other, name));
    children.push(node(Rule::StructFields, "", fields));
    node(Rule::StructDefinition, name, children)
}

#[test]
fn atoms_are_read_by_keyword() {
    let expected = [
        ("()", AtomType::Empty),
        ("str", AtomType::Str),
        ("i32", AtomType::I32),
        ("u32", AtomType::U32),
        ("u8", AtomType::U8),
        ("f64", AtomType::F64),
        ("bool", AtomType::Bool),
        ("datetime", AtomType::DateTime),
        ("date", AtomType::Date),
        ("uuid", AtomType::Uuid),
        ("bytes", AtomType::Bytes),
    ];
    for (text, atom) in expected {
        assert_eq!(parse_built_in_atom(&text.to_string()), Some(atom));
    }
    assert_eq!(parse_built_in_atom(&"int".to_string()), None);
    assert_eq!(parse_built_in_atom(&"".to_string()), None);
}

#[test]
fn nested_types_are_built() {
    let list = ty(node(Rule::ListType, "", vec![atom("i32")]));
    assert_eq!(
        parse_type_ident(&list),
        Some(TypeIdent::List(Box::new(TypeIdent::BuiltIn(AtomType::I32))))
    );
    let option = ty(node(Rule::OptionType, "", vec![list]));
    let result = ty(node(Rule::ResultType, "", vec![option, user("Oops")]));
    let map = ty(node(Rule::MapType, "", vec![atom("str"), result]));
    let tuple = ty(node(Rule::TupleDef, "", vec![map, atom("()")]));
    assert_eq!(
        parse_type_ident(&tuple),
        Some(TypeIdent::Tuple(TupleDef(vec![
            TypeIdent::Mapping(
                Box::new(TypeIdent::BuiltIn(AtomType::Str)),
                Box::new(TypeIdent::Result(
                    Box::new(TypeIdent::Option(Box::new(TypeIdent::List(Box::new(
                        TypeIdent::BuiltIn(AtomType::I32)
                    ))))),
                    Box::new(TypeIdent::UserDefined("Oops".to_string())),
                )),
            ),
            TypeIdent::BuiltIn(AtomType::Empty),
        ])))
    );
    assert_eq!(parse_type_ident(&leaf(Rule::Other, "x")), None);
    assert_eq!(parse_type_ident(&ty(node(Rule::ResultType, "", vec![atom("i32")]))), None);
    assert_eq!(parse_type_ident(&ty(leaf(Rule::BuiltInAtom, "i64"))), None);
    assert_eq!(parse_type_ident(&ty(leaf(Rule::KebabCaseIdent, "a-b"))), None);
}

#[test]
fn doc_comment_lines_are_joined_by_newlines() {
    let n = node(Rule::Other, "", vec![doc(&["first", "second", "third"]), leaf(Rule::Other, "x")]);
    assert_eq!(parse_doc_comment(&n), Some(Some("first\nsecond\nthird".to_string())));
    let one = node(Rule::Other, "", vec![doc(&["only"])]);
    assert_eq!(parse_doc_comment(&one), Some(Some("only".to_string())));
    let none = node(Rule::Other, "", vec![leaf(Rule::Other, "x")]);
    assert_eq!(parse_doc_comment(&none), Some(None));
    assert_eq!(parse_doc_comment(&leaf(Rule::Other, "")), Some(None));
    let broken = node(
        Rule::Other,
        "",
        vec![node(Rule::DocComment, "", vec![leaf(Rule::Other, "no text node")])],
    );
    assert_eq!(parse_doc_comment(&broken), None);
}

#[test]
fn struct_with_embed_is_built_and_resolved() {
    let tree = node(
        Rule::Other,
        "",
        vec![
            structure(
                Some(doc(&["A monster."])),
                "Monster",
                vec![field(Some(doc(&["Its number."])), "id", atom("i32")), embed("MonsterData")],
            ),
            structure(None, "MonsterData", vec![field(None, "name", atom("str"))]),
        ],
    );
    let built = build_spec(&tree).unwrap();
    match &built.0[0] {
        SpecItem::StructDef(d) => {
            assert_eq!(d.name, "Monster");
            assert_eq!(d.doc_comment, Some("A monster.".to_string()));
            assert_eq!(d.fields.0[0].doc_comment, Some("Its number.".to_string()));
            assert!(d.fields.0[1].pair.is_embed());
            assert_eq!(d.fields.0[1].pair.name, "MonsterData");
        }
        _ => panic!("not a struct"),
    }
    let name = FieldNode {
        pair: FieldDefPair { name: "name".to_string(), type_ident: TypeIdent::BuiltIn(AtomType::Str) },
        doc_comment: None,
    };
    let id = FieldNode {
        pair: FieldDefPair { name: "id".to_string(), type_ident: TypeIdent::BuiltIn(AtomType::I32) },
        doc_comment: Some("Its number.".to_string()),
    };
    assert_eq!(
        parse(&tree),
        Ok(Spec(vec![
            SpecItem::StructDef(StructDef {
                name: "Monster".to_string(),
                fields: StructFields(vec![id, name.clone()]),
                doc_comment: Some("A monster.".to_string()),
            }),
            SpecItem::StructDef(StructDef {
                name: "MonsterData".to_string(),
                fields: StructFields(vec![name]),
                doc_comment: None,
            }),
        ]))
    );
}

#[test]
fn embed_failures_come_out_of_parse() {
    let cycle = node(
        Rule::Other,
        "",
        vec![structure(None, "A", vec![embed("B")]), structure(None, "B", vec![embed("A")])],
    );
    assert_eq!(parse(&cycle), Err(LibError::Compile(CompileError::EmbedDepthExceeded)));
    let unknown = node(Rule::Other, "", vec![structure(None, "A", vec![embed("B")])]);
    assert_eq!(
        parse(&unknown),
        Err(LibError::Compile(CompileError::UnresolvedEmbed("B".to_string())))
    );
}

#[test]
fn first_node_that_is_no_item_is_located() {
    let mut bad = leaf(Rule::Other, "???");
    bad.start = 17;
    bad.end = 20;
    let mut worse = leaf(Rule::StructDefinition, "struct");
    worse.start = 30;
    worse.end = 36;
    let tree = node(Rule::Other, "", vec![structure(None, "A", vec![]), bad, worse]);
    assert_eq!(build_spec(&tree), Err(ParseError { start: 17, end: 20 }));
    assert_eq!(parse(&tree), Err(LibError::ParseError(ParseError { start: 17, end: 20 })));
    assert_eq!(parse(&node(Rule::Other, "", vec![])), Ok(Spec(vec![])));
}

fn variant(children: Vec<ParseNode>) -> ParseNode {
    node(Rule::Other, "", children)
}

#[test]
fn variants_are_classified_by_payload() {
    let simple = variant(vec![leaf(Rule::Other, "Red")]);
    assert_eq!(parse_enum_variant_def(&simple).unwrap().variant_type, VariantType::Simple);
    let documented = variant(vec![doc(&["The red one."]), leaf(Rule::Other, "Red")]);
    let v = parse_enum_variant_def(&documented).unwrap();
    assert_eq!(v.name, "Red");
    assert_eq!(v.doc_comment, Some("The red one.".to_string()));
    assert!(v.is_simple());
    let tuple = variant(vec![
        leaf(Rule::Other, "Rgb"),
        node(Rule::TupleDef, "", vec![atom("u8"), atom("u8"), atom("u8")]),
    ]);
    assert_eq!(
        parse_enum_variant_def(&tuple).unwrap().variant_type,
        VariantType::Tuple(TupleDef(vec![
            TypeIdent::BuiltIn(AtomType::U8),
            TypeIdent::BuiltIn(AtomType::U8),
            TypeIdent::BuiltIn(AtomType::U8)
        ]))
    );
    let newtype = variant(vec![
        leaf(Rule::Other, "Named"),
        node(Rule::NewtypeDef, "", vec![atom("str")]),
    ]);
    assert_eq!(
        parse_enum_variant_def(&newtype).unwrap().variant_type,
        VariantType::Newtype(TypeIdent::BuiltIn(AtomType::Str))
    );
    let structured = variant(vec![
        leaf(Rule::Other, "Hsv"),
        node(Rule::StructFields, "", vec![field(None, "h", atom("f64"))]),
    ]);
    match parse_enum_variant_def(&structured).unwrap().variant_type {
        VariantType::Struct(f) => assert_eq!(f.0[0].pair.name, "h"),
        other => panic!("unexpected {:?}", other),
    }
    let wrong = variant(vec![leaf(Rule::Other, "X"), leaf(Rule::KebabCaseIdent, "x")]);
    assert_eq!(parse_enum_variant_def(&wrong), None);
    assert_eq!(parse_enum_variant_def(&variant(vec![])), None);
}

#[test]
fn enum_definition_takes_its_name_from_its_body() {
    let body = node(
        Rule::Other,
        "",
        vec![
            leaf(Rule::Other, "Color"),
            variant(vec![leaf(Rule::Other, "Red")]),
            variant(vec![leaf(Rule::Other, "Blue")]),
        ],
    );
    let n = node(Rule::EnumDefinition, "", vec![doc(&["Colors."]), body]);
    match parse_spec_item(&n).unwrap() {
        SpecItem::EnumDef(e) => {
            assert_eq!(e.name, "Color");
            assert_eq!(e.doc_comment, Some("Colors.".to_string()));
            let names: Vec<&str> = e.variants.iter().map(|v| v.name.as_str()).collect();
            assert_eq!(names, vec!["Red", "Blue"]);
        }
        other => panic!("unexpected {:?}", other),
    }
}

fn segment(inner: ParseNode) -> ParseNode {
    node(Rule::Other, "", vec![inner])
}

fn path() -> ParseNode {
    node(
        Rule::Other,
        "",
        vec![
            segment(leaf(Rule::KebabCaseIdent, "points")),
            segment(node(Rule::HttpRouteSegmentArg, "", vec![pair("id", atom("i32"))])),
        ],
    )
}

#[test]
fn routes_are_built_by_method() {
    let get = node(Rule::Other, "", vec![leaf(Rule::HttpGet, "GET"), path(), user("Point")]);
    assert_eq!(
        parse_service_rule_def(&get),
        Some(ServiceRoute::Get {
            components: vec![
                ServiceRouteComponent::Literal("points".to_string()),
                ServiceRouteComponent::Variable(FieldDefPair {
                    name: "id".to_string(),
                    type_ident: TypeIdent::BuiltIn(AtomType::I32)
                }),
            ],
            query: None,
            ret: TypeIdent::UserDefined("Point".to_string()),
        })
    );
    let post = node(
        Rule::Other,
        "",
        vec![
            leaf(Rule::HttpPost, "POST"),
            path(),
            node(Rule::HttpQuery, "", vec![user("Filter")]),
            user("Point"),
            atom("()"),
        ],
    );
    match parse_service_rule_def(&post).unwrap() {
        ServiceRoute::Post { query, body, ret, .. } => {
            assert_eq!(query, Some(TypeIdent::UserDefined("Filter".to_string())));
            assert_eq!(body, TypeIdent::UserDefined("Point".to_string()));
            assert_eq!(ret, TypeIdent::BuiltIn(AtomType::Empty));
        }
        other => panic!("unexpected {:?}", other),
    }
    let delete = node(Rule::Other, "", vec![leaf(Rule::HttpDelete, "DELETE"), path(), atom("()")]);
    assert!(matches!(parse_service_rule_def(&delete), Some(ServiceRoute::Delete { .. })));
    let put = node(Rule::Other, "", vec![leaf(Rule::HttpPut, "PUT"), path(), atom("str"), atom("()")]);
    assert!(matches!(parse_service_rule_def(&put), Some(ServiceRoute::Put { .. })));
    let patch = node(Rule::Other, "", vec![leaf(Rule::HttpPatch, "PATCH"), path(), atom("str"), atom("()")]);
    assert!(matches!(parse_service_rule_def(&patch), Some(ServiceRoute::Patch { .. })));
    let post_without_body = node(Rule::Other, "", vec![leaf(Rule::HttpPost, "POST"), path(), atom("()")]);
    assert_eq!(parse_service_rule_def(&post_without_body), None);
    let get_with_body = node(Rule::Other, "", vec![leaf(Rule::HttpGet, "GET"), path(), atom("str"), atom("()")]);
    assert_eq!(parse_service_rule_def(&get_with_body), None);
    let no_method = node(Rule::Other, "", vec![leaf(Rule::Other, "HEAD"), path(), atom("()")]);
    assert_eq!(parse_service_rule_def(&no_method), None);
}

#[test]
fn service_definition_holds_its_endpoints() {
    let rule = node(Rule::Other, "", vec![leaf(Rule::HttpGet, "GET"), path(), user("Point")]);
    let endpoint = node(Rule::Other, "", vec![doc(&["One point."]), rule]);
    let n = node(
        Rule::ServiceDefinition,
        "",
        vec![leaf(Rule::Other, "PointApi"), node(Rule::Other, "", vec![endpoint])],
    );
    match parse_spec_item(&n).unwrap() {
        SpecItem::ServiceDef(s) => {
            assert_eq!(s.name, "PointApi");
            assert_eq!(s.doc_comment, None);
            assert_eq!(s.endpoints.len(), 1);
            assert_eq!(s.endpoints[0].doc_comment, Some("One point.".to_string()));
            assert_eq!(s.endpoints[0].route.http_method_as_str(), "GET");
        }
        other => panic!("unexpected {:?}", other),
    }
    let item = parse_spec_item(&n).unwrap();
    assert!(item.service_def().is_some());
    assert!(parse_spec_item(&structure(None, "A", vec![])).unwrap().service_def().is_none());
}

#[test]
fn artifact_defaults_to_types_only() {
    assert_eq!(Artifact::default(), Artifact::TypesOnly);
    assert_eq!(Artifact::TypesOnly.to_string(), "TypesOnly");
    assert_eq!(Artifact::ClientEndpoints.to_string(), "ClientEndpoints");
    assert_eq!(Artifact::ServerEndpoints.to_string(), "ServerEndpoints");
}
