use humblegen::ast::{
    AtomType, EnumDef, FieldDefPair, FieldNode, Spec, SpecItem, StructDef, StructFields,
    TypeIdent, VariantDef, VariantType,
};
use humblegen::embeds::{lookup_fields, resolve_embeds, spec_resolve_embeds_one_level, MAX_EMBED_DEPTH};
use humblegen::error::CompileError;

fn field(name: &str, atom: AtomType) -> FieldNode {
    FieldNode {
        pair: FieldDefPair { name: name.to_string(), type_ident: TypeIdent::BuiltIn(atom) },
        doc_comment: None,
    }
}

fn embed(target: &str) -> FieldNode {
    FieldNode {
        pair: FieldDefPair {
            name: target.to_string(),
            type_ident: TypeIdent::UserDefined(target.to_string()),
        },
        doc_comment: None,
    }
}

fn structure(name: &str, fields: Vec<FieldNode>) -> SpecItem {
    SpecItem::StructDef(StructDef {
        name: name.to_string(),
        fields: StructFields(fields),
        doc_comment: None,
    })
}

fn names(spec: &Spec, index: usize) -> Vec<String> {
    match &spec.0[index] {
        SpecItem::StructDef(d) => d.fields.iter().iter().map(|f| f.pair.name.clone()).collect(),
        _ => panic!("not a struct"),
    }
}

#[test]
fn embed_is_spliced_in_place() {
    let mut spec = Spec(vec![
        structure(
            "Monster",
            vec![field("id", AtomType::I32), embed("MonsterData"), field("seen", AtomType::Bool)],
        ),
        structure("MonsterData", vec![field("name", AtomType::Str), field("hp", AtomType::I32)]),
    ]);
    assert_eq!(resolve_embeds(&mut spec), Ok(()));
    assert_eq!(names(&spec, 0), vec!["id", "name", "hp", "seen"]);
    assert_eq!(names(&spec, 1), vec!["name", "hp"]);
    match &spec.0[0] {
        SpecItem::StructDef(d) => {
            assert_eq!(d.fields.0[1], field("name", AtomType::Str));
            assert_eq!(d.fields.0[2], field("hp", AtomType::I32));
        }
        _ => panic!("not a struct"),
    }
}

#[test]
fn spec_without_embeds_is_left_alone() {
    let mut spec = Spec(vec![structure("A", vec![field("x", AtomType::I32)])]);
    assert_eq!(spec_resolve_embeds_one_level(&mut spec), Ok(false));
    assert_eq!(spec, Spec(vec![structure("A", vec![field("x", AtomType::I32)])]));
    assert_eq!(resolve_embeds(&mut spec), Ok(()));
    assert_eq!(spec, Spec(vec![structure("A", vec![field("x", AtomType::I32)])]));
}

#[test]
fn one_level_expands_one_level_only() {
    let mut spec = Spec(vec![
        structure("A", vec![embed("B")]),
        structure("B", vec![embed("C")]),
        structure("C", vec![field("c", AtomType::U8)]),
    ]);
    assert_eq!(spec_resolve_embeds_one_level(&mut spec), Ok(true));
    assert_eq!(names(&spec, 0), vec!["C"]);
    assert_eq!(names(&spec, 1), vec!["c"]);
    assert_eq!(spec_resolve_embeds_one_level(&mut spec), Ok(true));
    assert_eq!(names(&spec, 0), vec!["c"]);
    assert_eq!(spec_resolve_embeds_one_level(&mut spec), Ok(false));
}

#[test]
fn two_cycle_exceeds_the_depth() {
    let mut spec = Spec(vec![structure("A", vec![embed("B")]), structure("B", vec![embed("A")])]);
    assert_eq!(resolve_embeds(&mut spec), Err(CompileError::EmbedDepthExceeded));
}

#[test]
fn self_embed_exceeds_the_depth() {
    let mut spec = Spec(vec![structure("A", vec![field("x", AtomType::I32), embed("A")])]);
    assert_eq!(resolve_embeds(&mut spec), Err(CompileError::EmbedDepthExceeded));
}

#[test]
fn unknown_embed_is_reported_by_name() {
    let mut spec = Spec(vec![structure("A", vec![field("x", AtomType::I32), embed("Nowhere")])]);
    assert_eq!(
        resolve_embeds(&mut spec),
        Err(CompileError::UnresolvedEmbed("Nowhere".to_string()))
    );
    assert_eq!(names(&spec, 0), vec!["x", "Nowhere"]);
}

#[test]
fn first_unknown_embed_is_the_one_reported() {
    let mut spec = Spec(vec![
        structure("A", vec![embed("First"), embed("Second")]),
        structure("B", vec![embed("Third")]),
    ]);
    assert_eq!(
        spec_resolve_embeds_one_level(&mut spec),
        Err(CompileError::UnresolvedEmbed("First".to_string()))
    );
}

fn chain(depth: usize) -> Spec {
    let mut items = Vec::new();
    for i in 0..depth {
        items.push(structure(&format!("S{}", i), vec![embed(&format!("S{}", i + 1))]));
    }
    items.push(structure(&format!("S{}", depth), vec![field("leaf", AtomType::Str)]));
    Spec(items)
}

#[test]
fn chain_of_the_maximum_depth_resolves() {
    assert_eq!(MAX_EMBED_DEPTH, 10);
    let mut spec = chain(10);
    assert_eq!(resolve_embeds(&mut spec), Ok(()));
    for i in 0..=10 {
        assert_eq!(names(&spec, i), vec!["leaf"]);
    }
}

#[test]
fn rounds_run_out_on_a_very_long_chain() {
    // Every round replaces a marker by what its target held before the
    // round, so the distance that a marker spans doubles with each round.
    let mut longest = chain(1023);
    assert_eq!(resolve_embeds(&mut longest), Ok(()));
    assert_eq!(names(&longest, 0), vec!["leaf"]);
    let mut too_long = chain(1024);
    assert_eq!(resolve_embeds(&mut too_long), Err(CompileError::EmbedDepthExceeded));
}

#[test]
fn struct_variant_takes_embeds_and_has_a_key() {
    let mut spec = Spec(vec![
        SpecItem::EnumDef(EnumDef {
            name: "Event".to_string(),
            variants: vec![
                VariantDef {
                    name: "Plain".to_string(),
                    variant_type: VariantType::Simple,
                    doc_comment: None,
                },
                VariantDef {
                    name: "Seen".to_string(),
                    variant_type: VariantType::Struct(StructFields(vec![
                        embed("Place"),
                        field("at", AtomType::DateTime),
                    ])),
                    doc_comment: Some("seen somewhere".to_string()),
                },
            ],
            doc_comment: None,
        }),
        structure("Place", vec![field("x", AtomType::I32), field("y", AtomType::I32)]),
    ]);
    assert!(lookup_fields(&spec, &"Event.Seen".to_string()).is_some());
    assert!(lookup_fields(&spec, &"Event.Plain".to_string()).is_none());
    assert!(lookup_fields(&spec, &"Event".to_string()).is_none());
    assert_eq!(resolve_embeds(&mut spec), Ok(()));
    match &spec.0[0] {
        SpecItem::EnumDef(e) => {
            assert_eq!(e.variants[0].variant_type, VariantType::Simple);
            assert_eq!(e.variants[1].doc_comment, Some("seen somewhere".to_string()));
            let fields = e.variants[1].variant_type.struct_fields().unwrap();
            let got: Vec<&str> = fields.iter().iter().map(|f| f.pair.name.as_str()).collect();
            assert_eq!(got, vec!["x", "y", "at"]);
        }
        _ => panic!("not an enum"),
    }
}

#[test]
fn last_definition_of_a_name_is_the_one_embedded() {
    let mut spec = Spec(vec![
        structure("D", vec![field("old", AtomType::I32)]),
        structure("D", vec![field("new", AtomType::I32)]),
        structure("U", vec![embed("D")]),
    ]);
    assert_eq!(resolve_embeds(&mut spec), Ok(()));
    assert_eq!(names(&spec, 2), vec!["new"]);
}
