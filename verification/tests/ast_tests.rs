use humblegen::ast::{AtomType, FieldDefPair, TypeIdent};

#[test]
fn embed_marker_is_told_by_name() {
    let embed = FieldDefPair {
        name: "MonsterData".to_string(),
        type_ident: TypeIdent::UserDefined("MonsterData".to_string()),
    };
    assert!(embed.is_embed());
    let plain = FieldDefPair {
        name: "data".to_string(),
        type_ident: TypeIdent::UserDefined("MonsterData".to_string()),
    };
    assert!(!plain.is_embed());
    let atom = FieldDefPair { name: "Str".to_string(), type_ident: TypeIdent::BuiltIn(AtomType::Str) };
    assert!(!atom.is_embed());
}

use humblegen::ast::{
    EnumDef, HttpMethod, ServiceRoute, ServiceRouteComponent, TupleDef, VariantDef, VariantType,
};

fn variant(name: &str, variant_type: VariantType) -> VariantDef {
    VariantDef { name: name.to_string(), variant_type, doc_comment: None }
}

#[test]
fn variants_are_told_apart_in_order() {
    let e = EnumDef {
        name: "E".to_string(),
        variants: vec![
            variant("A", VariantType::Simple),
            variant("B", VariantType::Newtype(TypeIdent::BuiltIn(AtomType::I32))),
            variant("C", VariantType::Simple),
            variant("D", VariantType::Tuple(TupleDef(vec![TypeIdent::BuiltIn(AtomType::Str)]))),
        ],
        doc_comment: None,
    };
    let simple: Vec<&str> = e.simple_variants().iter().map(|v| v.name.as_str()).collect();
    let complex: Vec<&str> = e.complex_variants().iter().map(|v| v.name.as_str()).collect();
    assert_eq!(simple, vec!["A", "C"]);
    assert_eq!(complex, vec!["B", "D"]);
    assert!(e.variants[0].is_simple());
    assert!(!e.variants[1].is_simple());
}

#[test]
fn route_getters_follow_the_method() {
    let get = ServiceRoute::Get {
        components: vec![ServiceRouteComponent::Literal("monsters".to_string())],
        query: Some(TypeIdent::UserDefined("Q".to_string())),
        ret: TypeIdent::BuiltIn(AtomType::I32),
    };
    assert_eq!(get.http_method_as_str(), "GET");
    assert_eq!(get.method(), HttpMethod::Get);
    assert_eq!(get.body(), None);
    assert_eq!(get.query(), &Some(TypeIdent::UserDefined("Q".to_string())));
    assert_eq!(get.return_type(), &TypeIdent::BuiltIn(AtomType::I32));
    assert_eq!(get.components().len(), 1);
    let patch = ServiceRoute::Patch {
        components: vec![],
        query: None,
        body: TypeIdent::BuiltIn(AtomType::Str),
        ret: TypeIdent::BuiltIn(AtomType::Empty),
    };
    assert_eq!(patch.http_method_as_str(), "PATCH");
    assert_eq!(patch.body(), Some(&TypeIdent::BuiltIn(AtomType::Str)));
    let post = ServiceRoute::Post {
        components: vec![],
        query: None,
        body: TypeIdent::BuiltIn(AtomType::Str),
        ret: TypeIdent::BuiltIn(AtomType::Empty),
    };
    assert_eq!(post.http_method_as_str(), "POST");
    let put = ServiceRoute::Put {
        components: vec![],
        query: None,
        body: TypeIdent::BuiltIn(AtomType::Str),
        ret: TypeIdent::BuiltIn(AtomType::Empty),
    };
    assert_eq!(put.http_method_as_str(), "PUT");
    let delete = ServiceRoute::Delete {
        components: vec![],
        query: None,
        ret: TypeIdent::BuiltIn(AtomType::Empty),
    };
    assert_eq!(delete.http_method_as_str(), "DELETE");
}

#[test]
fn clone_keeps_a_nested_type() {
    let t = TypeIdent::Option(Box::new(TypeIdent::List(Box::new(TypeIdent::Result(
        Box::new(TypeIdent::BuiltIn(AtomType::Str)),
        Box::new(TypeIdent::Tuple(TupleDef(vec![
            TypeIdent::BuiltIn(AtomType::I32),
            TypeIdent::Mapping(
                Box::new(TypeIdent::BuiltIn(AtomType::Uuid)),
                Box::new(TypeIdent::UserDefined("Point".to_string())),
            ),
        ]))),
    )))));
    assert_eq!(t.clone(), t);
    assert_eq!(t.user_defined(), None);
    assert_eq!(
        TypeIdent::UserDefined("Point".to_string()).user_defined(),
        Some(&"Point".to_string())
    );
}

#[test]
fn struct_fields_can_be_changed_in_place() {
    let mut v = VariantType::Struct(humblegen::ast::StructFields(vec![]));
    v.struct_fields_mut().unwrap().0.push(humblegen::ast::FieldNode {
        pair: FieldDefPair { name: "x".to_string(), type_ident: TypeIdent::BuiltIn(AtomType::U8) },
        doc_comment: None,
    });
    assert_eq!(v.struct_fields().unwrap().iter().len(), 1);
    let mut s = VariantType::Simple;
    assert!(s.struct_fields_mut().is_none());
    assert!(s.struct_fields().is_none());
    let t = TupleDef(vec![TypeIdent::BuiltIn(AtomType::Bool)]);
    assert_eq!(t.elements(), t.components());
}
