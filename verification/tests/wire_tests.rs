use humblegen::ast::{
    AtomType, EnumDef, FieldDefPair, FieldNode, Spec, SpecItem, StructDef, StructFields, TupleDef,
    TypeIdent, VariantDef, VariantType,
};
use humblegen::wire::{deser_bytes, ser_bytes, to_json, JsonMember, JsonValue, Member, Number, Payload, Value};
use humblegen::wire_decode::{from_json, DecodeError};
use humblegen::wire_text::{query_parameters, to_text, QueryParameter};

fn atom(a: AtomType) -> TypeIdent {
    TypeIdent::BuiltIn(a)
}

fn user(name: &str) -> TypeIdent {
    TypeIdent::UserDefined(name.to_string())
}

fn field(name: &str, ty: TypeIdent) -> FieldNode {
    FieldNode { pair: FieldDefPair { name: name.to_string(), type_ident: ty }, doc_comment: None }
}

fn member(name: &str, value: Value) -> Member {
    Member { name: name.to_string(), value }
}

fn jmember(key: &str, value: JsonValue) -> JsonMember {
    JsonMember { key: key.to_string(), value }
}

fn integer(n: i64) -> JsonValue {
    JsonValue::Number(Number::Integer(n))
}

fn text(s: &str) -> JsonValue {
    JsonValue::Text(s.to_string())
}

fn schema() -> Spec {
    Spec(vec![
        SpecItem::StructDef(StructDef {
            name: "Point".to_string(),
            fields: StructFields(vec![field("x", atom(AtomType::I32)), field("y", atom(AtomType::I32))]),
            doc_comment: None,
        }),
        SpecItem::EnumDef(EnumDef {
            name: "Shape".to_string(),
            variants: vec![
                VariantDef { name: "Nothing".to_string(), variant_type: VariantType::Simple, doc_comment: None },
                VariantDef {
                    name: "Line".to_string(),
                    variant_type: VariantType::Tuple(TupleDef(vec![user("Point"), user("Point")])),
                    doc_comment: None,
                },
                VariantDef {
                    name: "Dot".to_string(),
                    variant_type: VariantType::Newtype(user("Point")),
                    doc_comment: None,
                },
                VariantDef {
                    name: "Circle".to_string(),
                    variant_type: VariantType::Struct(StructFields(vec![
                        field("center", user("Point")),
                        field("radius", atom(AtomType::U32)),
                        field("label", TypeIdent::Option(Box::new(atom(AtomType::Str)))),
                    ])),
                    doc_comment: None,
                },
            ],
            doc_comment: None,
        }),
    ])
}

fn point(x: i64, y: i64) -> Value {
    Value::Struct(vec![member("x", Value::Int(x)), member("y", Value::Int(y))])
}

fn round_trips(ty: &TypeIdent, v: Value) {
    let spec = schema();
    let json = to_json(&v);
    assert_eq!(from_json(&spec, ty, &json), Ok(v));
}

#[test]
fn point_is_an_object_of_its_fields() {
    let json = to_json(&point(1, 2));
    assert_eq!(json, JsonValue::Object(vec![jmember("x", integer(1)), jmember("y", integer(2))]));
    assert_eq!(to_text(&json), "{\"x\":1,\"y\":2}");
    round_trips(&user("Point"), point(1, 2));
}

#[test]
fn simple_variant_is_a_bare_string() {
    let v = Value::Variant("Nothing".to_string(), Payload::Simple);
    assert_eq!(to_json(&v), text("Nothing"));
    assert_eq!(to_text(&to_json(&v)), "\"Nothing\"");
    round_trips(&user("Shape"), v);
}

#[test]
fn other_variants_are_objects_with_one_key() {
    let line = Value::Variant("Line".to_string(), Payload::Tuple(vec![point(0, 0), point(3, 4)]));
    assert_eq!(
        to_text(&to_json(&line)),
        "{\"Line\":[{\"x\":0,\"y\":0},{\"x\":3,\"y\":4}]}"
    );
    round_trips(&user("Shape"), line);
    let dot = Value::Variant("Dot".to_string(), Payload::Newtype(Box::new(point(5, 6))));
    assert_eq!(to_text(&to_json(&dot)), "{\"Dot\":{\"x\":5,\"y\":6}}");
    round_trips(&user("Shape"), dot);
    let circle = Value::Variant(
        "Circle".to_string(),
        Payload::Struct(vec![
            member("center", point(1, 1)),
            member("radius", Value::Int(9)),
            member("label", Value::Optional(None)),
        ]),
    );
    assert_eq!(
        to_text(&to_json(&circle)),
        "{\"Circle\":{\"center\":{\"x\":1,\"y\":1},\"radius\":9,\"label\":null}}"
    );
    round_trips(&user("Shape"), circle);
}

#[test]
fn variant_decoding_rejects_the_shape_of_another_kind() {
    let spec = schema();
    let shape = user("Shape");
    let err = Err(DecodeError::Deserialization);
    assert_eq!(from_json(&spec, &shape, &text("Dot")), err);
    assert_eq!(from_json(&spec, &shape, &text("Unknown")), err);
    assert_eq!(
        from_json(&spec, &shape, &JsonValue::Object(vec![jmember("Nothing", JsonValue::Null)])),
        err
    );
    assert_eq!(
        from_json(&spec, &shape, &JsonValue::Object(vec![jmember("Dot", JsonValue::Array(vec![]))])),
        err
    );
    assert_eq!(
        from_json(
            &spec,
            &shape,
            &JsonValue::Object(vec![jmember("Line", JsonValue::Array(vec![to_json(&point(1, 2))]))])
        ),
        err
    );
    assert_eq!(
        from_json(
            &spec,
            &shape,
            &JsonValue::Object(vec![
                jmember("Dot", to_json(&point(1, 2))),
                jmember("Nothing", JsonValue::Null)
            ])
        ),
        err
    );
    assert_eq!(from_json(&spec, &shape, &JsonValue::Object(vec![])), err);
    assert_eq!(from_json(&spec, &shape, &integer(0)), err);
}

#[test]
fn nested_containers_round_trip() {
    let ty = TypeIdent::Option(Box::new(TypeIdent::List(Box::new(TypeIdent::Result(
        Box::new(atom(AtomType::Str)),
        Box::new(atom(AtomType::I32)),
    )))));
    let v = Value::Optional(Some(Box::new(Value::List(vec![
        Value::Outcome(Ok(Box::new(Value::Text("fine".to_string())))),
        Value::Outcome(Err(Box::new(Value::Int(-3)))),
    ]))));
    assert_eq!(to_text(&to_json(&v)), "[{\"Ok\":\"fine\"},{\"Err\":-3}]");
    round_trips(&ty, v);
    round_trips(&ty, Value::Optional(None));
    assert_eq!(to_json(&Value::Optional(None)), JsonValue::Null);
    let map = TypeIdent::Mapping(
        Box::new(atom(AtomType::Str)),
        Box::new(TypeIdent::Tuple(TupleDef(vec![atom(AtomType::Bool), atom(AtomType::U8)]))),
    );
    let v = Value::Mapping(vec![
        member("a", Value::Tuple(vec![Value::Bool(true), Value::Int(255)])),
        member("b", Value::Tuple(vec![Value::Bool(false), Value::Int(0)])),
    ]);
    assert_eq!(to_text(&to_json(&v)), "{\"a\":[true,255],\"b\":[false,0]}");
    round_trips(&map, v);
}

#[test]
fn atoms_have_their_json_kind() {
    round_trips(&atom(AtomType::Empty), Value::Empty);
    assert_eq!(to_json(&Value::Empty), JsonValue::Null);
    round_trips(&atom(AtomType::Bool), Value::Bool(true));
    round_trips(&atom(AtomType::I32), Value::Int(-2147483648));
    round_trips(&atom(AtomType::U32), Value::Int(4294967295));
    round_trips(&atom(AtomType::U8), Value::Int(255));
    round_trips(&atom(AtomType::F64), Value::Float(Number::Decimal("1.5e3".to_string())));
    round_trips(&atom(AtomType::F64), Value::Float(Number::Integer(2)));
    round_trips(&atom(AtomType::Str), Value::Text("x".to_string()));
    round_trips(&atom(AtomType::Uuid), Value::Text("67e55044-10b1-426f-9247-bb680e5fe0c8".to_string()));
    round_trips(&atom(AtomType::DateTime), Value::Text("2020-05-01T12:00:00Z".to_string()));
    round_trips(&atom(AtomType::Date), Value::Text("2020-05-01".to_string()));
    round_trips(&atom(AtomType::Bytes), Value::Bytes(vec![0, 1, 2, 253, 254, 255]));
    assert_eq!(to_json(&Value::Bytes(b"hello world".to_vec())), text("aGVsbG8gd29ybGQ="));
}

#[test]
fn integers_out_of_range_are_refused_on_decode() {
    let spec = schema();
    let err = Err(DecodeError::Deserialization);
    assert_eq!(from_json(&spec, &atom(AtomType::U8), &integer(256)), err);
    assert_eq!(from_json(&spec, &atom(AtomType::U8), &integer(-1)), err);
    assert_eq!(from_json(&spec, &atom(AtomType::I32), &integer(2147483648)), err);
    assert_eq!(from_json(&spec, &atom(AtomType::I32), &integer(-2147483649)), err);
    assert_eq!(from_json(&spec, &atom(AtomType::U32), &integer(4294967296)), err);
    assert_eq!(from_json(&spec, &atom(AtomType::U32), &integer(-1)), err);
    assert_eq!(
        from_json(&spec, &atom(AtomType::I32), &JsonValue::Number(Number::Decimal("1.0".to_string()))),
        err
    );
    assert_eq!(from_json(&spec, &atom(AtomType::I32), &text("1")), err);
    assert_eq!(from_json(&spec, &atom(AtomType::Bytes), &text("not base64!")), err);
    assert_eq!(from_json(&spec, &user("Missing"), &JsonValue::Null), err);
}

#[test]
fn option_of_a_null_encoding_does_not_come_back() {
    let spec = schema();
    let ty = TypeIdent::Option(Box::new(atom(AtomType::Empty)));
    let v = Value::Optional(Some(Box::new(Value::Empty)));
    assert_eq!(to_json(&v), JsonValue::Null);
    assert_eq!(from_json(&spec, &ty, &to_json(&v)), Ok(Value::Optional(None)));
}

#[test]
fn struct_fields_are_found_by_name() {
    let spec = schema();
    let reordered = JsonValue::Object(vec![
        jmember("extra", JsonValue::Null),
        jmember("y", integer(2)),
        jmember("x", integer(1)),
        jmember("x", integer(7)),
    ]);
    assert_eq!(from_json(&spec, &user("Point"), &reordered), Ok(point(1, 2)));
    let missing = JsonValue::Object(vec![jmember("x", integer(1))]);
    assert_eq!(from_json(&spec, &user("Point"), &missing), Err(DecodeError::Deserialization));
    let circle = JsonValue::Object(vec![jmember(
        "Circle",
        JsonValue::Object(vec![jmember("radius", integer(1)), jmember("center", to_json(&point(0, 0)))]),
    )]);
    assert_eq!(
        from_json(&spec, &user("Shape"), &circle),
        Ok(Value::Variant(
            "Circle".to_string(),
            Payload::Struct(vec![
                member("center", point(0, 0)),
                member("radius", Value::Int(1)),
                member("label", Value::Optional(None)),
            ])
        ))
    );
}

#[test]
fn text_is_escaped_and_numbers_are_decimal() {
    assert_eq!(to_text(&text("a\"b\\c\nd\te\rf\u{8}g\u{c}h\u{1}i\u{1f}j/é")), "\"a\\\"b\\\\c\\nd\\te\\rf\\bg\\fh\\u0001i\\u001fj/é\"");
    assert_eq!(to_text(&integer(0)), "0");
    assert_eq!(to_text(&integer(-1)), "-1");
    assert_eq!(to_text(&integer(1234567890)), "1234567890");
    assert_eq!(to_text(&integer(i64::MAX)), "9223372036854775807");
    assert_eq!(to_text(&integer(i64::MIN)), "-9223372036854775808");
    assert_eq!(to_text(&JsonValue::Number(Number::Decimal("2.50".to_string()))), "2.50");
    assert_eq!(to_text(&JsonValue::Null), "null");
    assert_eq!(to_text(&JsonValue::Bool(true)), "true");
    assert_eq!(to_text(&JsonValue::Bool(false)), "false");
    assert_eq!(to_text(&JsonValue::Array(vec![])), "[]");
    assert_eq!(to_text(&JsonValue::Object(vec![])), "{}");
    assert_eq!(
        to_text(&JsonValue::Object(vec![jmember("k\"", JsonValue::Array(vec![JsonValue::Null, integer(1)]))])),
        "{\"k\\\"\":[null,1]}"
    );
}

#[test]
fn bytes_travel_as_base64() {
    assert_eq!(ser_bytes(b"hello world"), "aGVsbG8gd29ybGQ=");
    assert_eq!(ser_bytes(b""), "");
    assert_eq!(deser_bytes("aGVsbG8gd29ybGQ="), Ok(b"hello world".to_vec()));
    assert!(deser_bytes("a").is_err());
}

#[test]
fn struct_flattens_into_query_parameters() {
    let fields = vec![
        field("name", atom(AtomType::Str)),
        field("id", atom(AtomType::Uuid)),
        field("blob", atom(AtomType::Bytes)),
        field("count", atom(AtomType::I32)),
        field("small", atom(AtomType::U8)),
        field("big", atom(AtomType::U32)),
        field("flag", atom(AtomType::Bool)),
        field("when", atom(AtomType::DateTime)),
        field("tags", TypeIdent::List(Box::new(atom(AtomType::Str)))),
        field("at", user("Point")),
        field("maybe", TypeIdent::Option(Box::new(atom(AtomType::I32)))),
    ];
    let members = vec![
        member("name", Value::Text("a \"b\"".to_string())),
        member("id", Value::Text("67e55044".to_string())),
        member("blob", Value::Bytes(b"hello world".to_vec())),
        member("count", Value::Int(-12)),
        member("small", Value::Int(7)),
        member("big", Value::Int(4000000000)),
        member("flag", Value::Bool(true)),
        member("when", Value::Text("2020-05-01T12:00:00Z".to_string())),
        member("tags", Value::List(vec![Value::Text("x".to_string()), Value::Text("y".to_string())])),
        member("at", point(1, 2)),
        member("maybe", Value::Optional(None)),
    ];
    let got: Vec<(String, String)> = query_parameters(&fields, &members)
        .unwrap()
        .into_iter()
        .map(|QueryParameter { name, value }| (name, value))
        .collect();
    let expected = vec![
        ("name", "a \"b\""),
        ("id", "67e55044"),
        ("blob", "aGVsbG8gd29ybGQ="),
        ("count", "-12"),
        ("small", "7"),
        ("big", "4000000000"),
        ("flag", "true"),
        ("when", "\"2020-05-01T12:00:00Z\""),
        ("tags", "[\"x\",\"y\"]"),
        ("at", "{\"x\":1,\"y\":2}"),
        ("maybe", "null"),
    ];
    let expected: Vec<(String, String)> =
        expected.into_iter().map(|(n, v)| (n.to_string(), v.to_string())).collect();
    assert_eq!(got, expected);
    assert_eq!(query_parameters(&fields, &vec![]), None);
    assert_eq!(query_parameters(&vec![], &vec![]), Some(vec![]));
}
