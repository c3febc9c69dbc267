//! The syntax tree builder: from the parse tree that the grammar front-end
//! hands over to the typed syntax tree.
//!
//! The tree is built by syntax alone. No name is resolved and no
//! arity checked here; a tree that the grammar cannot have produced is
//! refused.

use crate::ast::{
    AtomType, ComponentModel, EndpointModel, EnumDef, FieldDefPair, FieldModel,
    FieldNode, HttpMethod, ItemModel, PairModel, RouteModel, ServiceDef, ServiceEndpoint,
    ServiceRoute, ServiceRouteComponent, Spec, SpecItem, StructDef, StructFields, TupleDef,
    TypeIdent, TypeModel, VariantDef, VariantModel, VariantType, VariantTypeModel,
};
use crate::embeds::{resolve_embeds, resolve_model, MAX_EMBED_DEPTH};
use crate::error::CompileError;
use vstd::prelude::*;
use vstd::string::StringExecFns;

verus! {

/// The grammar rules that the builder tells apart.
#[derive(Debug, Clone, Copy, PartialEq, Eq, Structural)]
pub enum Rule {
    StructDefinition,
    EnumDefinition,
    ServiceDefinition,
    DocComment,
    StructFields,
    StructFieldDef,
    StructFieldDefNode,
    StructFieldDefEmbed,
    TupleDef,
    NewtypeDef,
    HttpGet,
    HttpDelete,
    HttpPost,
    HttpPut,
    HttpPatch,
    HttpQuery,
    HttpRouteSegmentArg,
    KebabCaseIdent,
    BuiltInAtom,
    ListType,
    OptionType,
    ResultType,
    MapType,
    CamelCaseIdent,
    /// Any rule that the builder does not branch on: a document, a name, a
    /// line of a comment, a list of endpoints.
    Other,
}

/// A node of the parse tree: the rule that matched, the text it matched,
/// where that text stands in the source, and the nodes of the rules matched
/// within it.
#[derive(Debug, PartialEq, Eq)]
pub struct ParseNode {
    pub rule: Rule,
    pub text: String,
    pub start: usize,
    pub end: usize,
    pub children: Vec<ParseNode>,
}

/// A parse tree that is no tree of the grammar, with the place in the source
/// of the item that is at fault.
#[derive(Debug, PartialEq, Eq)]
pub struct ParseError {
    pub start: usize,
    pub end: usize,
}

/// The atom that a keyword names.
pub open spec fn atom_of(text: Seq<char>) -> Option<AtomType> {
    if text == "()"@ {
        Some(AtomType::Empty)
    } else if text == "str"@ {
        Some(AtomType::Str)
    } else if text == "i32"@ {
        Some(AtomType::I32)
    } else if text == "u32"@ {
        Some(AtomType::U32)
    } else if text == "u8"@ {
        Some(AtomType::U8)
    } else if text == "f64"@ {
        Some(AtomType::F64)
    } else if text == "bool"@ {
        Some(AtomType::Bool)
    } else if text == "datetime"@ {
        Some(AtomType::DateTime)
    } else if text == "date"@ {
        Some(AtomType::Date)
    } else if text == "uuid"@ {
        Some(AtomType::Uuid)
    } else if text == "bytes"@ {
        Some(AtomType::Bytes)
    } else {
        None
    }
}

/// The type that a type node stands for: that of its first child, by rule.
pub open spec fn type_of(n: ParseNode) -> Option<TypeModel>
    decreases n, 1nat,
{
    if n.children.len() == 0 {
        None
    } else {
        let inner = n.children[0];
        match inner.rule {
            Rule::BuiltInAtom => match atom_of(inner.text@) {
                Some(a) => Some(TypeModel::BuiltIn(a)),
                None => None,
            },
            Rule::ListType => if inner.children.len() == 0 {
                None
            } else {
                match type_of(inner.children[0]) {
                    Some(t) => Some(TypeModel::List(Box::new(t))),
                    None => None,
                }
            },
            Rule::OptionType => if inner.children.len() == 0 {
                None
            } else {
                match type_of(inner.children[0]) {
                    Some(t) => Some(TypeModel::Optional(Box::new(t))),
                    None => None,
                }
            },
            Rule::ResultType => if inner.children.len() != 2 {
                None
            } else {
                match (type_of(inner.children[0]), type_of(inner.children[1])) {
                    (Some(o), Some(e)) => Some(TypeModel::Either(Box::new(o), Box::new(e))),
                    _ => None,
                }
            },
            Rule::MapType => if inner.children.len() < 2 {
                None
            } else {
                match (type_of(inner.children[0]), type_of(inner.children[1])) {
                    (Some(k), Some(v)) => Some(TypeModel::Dict(Box::new(k), Box::new(v))),
                    _ => None,
                }
            },
            Rule::TupleDef => match tuple_of(inner) {
                Some(ts) => Some(TypeModel::Tuple(ts)),
                None => None,
            },
            Rule::CamelCaseIdent => Some(TypeModel::UserDefined(inner.text@)),
            _ => None,
        }
    }
}

/// The element types of a tuple node: one per child, in order.
pub open spec fn tuple_of(n: ParseNode) -> Option<Seq<TypeModel>>
    decreases n, 0nat,
{
    if forall|i: int| 0 <= i < n.children.len() ==> type_of(#[trigger] n.children[i]) is Some {
        Some(
            Seq::new(
                n.children.len() as nat,
                |i: int|
                    if 0 <= i < n.children.len() {
                        type_of(n.children[i])->Some_0
                    } else {
                        TypeModel::BuiltIn(AtomType::Empty)
                    },
            ),
        )
    } else {
        None
    }
}

/// How many children a doc comment takes at the head of a node: one where
/// the first child is a doc comment, else none.
pub open spec fn doc_offset(n: ParseNode) -> int {
    if n.children.len() > 0 && n.children[0].rule == Rule::DocComment {
        1
    } else {
        0
    }
}

/// The text of the first `k` lines of a doc comment, joined by newlines. The
/// text of a line is that of its first child.
pub open spec fn doc_text(d: ParseNode, k: nat) -> Seq<char>
    decreases k,
{
    if k == 0 || k > d.children.len() {
        Seq::empty()
    } else if k == 1 {
        d.children[0].children[0].text@
    } else {
        doc_text(d, (k - 1) as nat) + "\n"@ + d.children[k - 1].children[0].text@
    }
}

/// The doc comment at the head of a node: `Some(None)` where there is none,
/// and `None` where there is one with a line that holds no text node.
pub open spec fn doc_comment_of(n: ParseNode) -> Option<Option<Seq<char>>> {
    if doc_offset(n) == 0 {
        Some(None)
    } else {
        let d = n.children[0];
        if forall|i: int| 0 <= i < d.children.len() ==> (#[trigger] d.children[i]).children.len() > 0 {
            Some(Some(doc_text(d, d.children.len() as nat)))
        } else {
            None
        }
    }
}

/// The field pair of a pair node: a name and a type, and nothing else.
pub open spec fn pair_of(n: ParseNode) -> Option<PairModel> {
    if n.children.len() != 2 {
        None
    } else {
        match type_of(n.children[1]) {
            Some(t) => Some(PairModel { name: n.children[0].text@, type_ident: t }),
            None => None,
        }
    }
}

/// The field of a field node: a doc comment, if any, and a pair.
pub open spec fn field_node_of(n: ParseNode) -> Option<FieldModel> {
    match doc_comment_of(n) {
        None => None,
        Some(doc) => if n.children.len() <= doc_offset(n) {
            None
        } else {
            match pair_of(n.children[doc_offset(n)]) {
                Some(p) => Some(FieldModel { pair: p, doc_comment: doc }),
                None => None,
            }
        },
    }
}

/// The field of a field definition: that of its one child, a field node or
/// an embed. An embed becomes a field named as the type it names.
pub open spec fn field_def_of(n: ParseNode) -> Option<FieldModel> {
    if n.rule != Rule::StructFieldDef || n.children.len() != 1 {
        None
    } else {
        let d = n.children[0];
        match d.rule {
            Rule::StructFieldDefNode => field_node_of(d),
            Rule::StructFieldDefEmbed => if d.children.len() != 1 {
                None
            } else {
                match type_of(d.children[0]) {
                    Some(t) => Some(
                        FieldModel {
                            pair: PairModel { name: d.children[0].text@, type_ident: t },
                            doc_comment: None,
                        },
                    ),
                    None => None,
                }
            },
            _ => None,
        }
    }
}

/// The fields of a field list: one per child, in order.
pub open spec fn fields_of(n: ParseNode) -> Option<Seq<FieldModel>> {
    if forall|i: int| 0 <= i < n.children.len() ==> field_def_of(#[trigger] n.children[i]) is Some {
        Some(Seq::new(n.children.len() as nat, |i: int| field_def_of(n.children[i])->Some_0))
    } else {
        None
    }
}

/// The variant of a variant node: a doc comment, if any, a name, and a
/// payload, if any, which decides the kind of the variant.
pub open spec fn variant_of(n: ParseNode) -> Option<VariantModel> {
    match doc_comment_of(n) {
        None => None,
        Some(doc) => {
            let k = doc_offset(n);
            if n.children.len() <= k {
                None
            } else {
                let name = n.children[k].text@;
                if n.children.len() == k + 1 {
                    Some(
                        VariantModel {
                            name,
                            variant_type: VariantTypeModel::Simple,
                            doc_comment: doc,
                        },
                    )
                } else {
                    match payload_of(n.children[k + 1]) {
                        Some(p) => Some(VariantModel { name, variant_type: p, doc_comment: doc }),
                        None => None,
                    }
                }
            }
        },
    }
}

/// The kind of variant that a payload node makes.
pub open spec fn payload_of(p: ParseNode) -> Option<VariantTypeModel> {
    match p.rule {
        Rule::StructFields => match fields_of(p) {
            Some(f) => Some(VariantTypeModel::Struct(f)),
            None => None,
        },
        Rule::TupleDef => match tuple_of(p) {
            Some(ts) => Some(VariantTypeModel::Tuple(ts)),
            None => None,
        },
        Rule::NewtypeDef => if p.children.len() == 0 {
            None
        } else {
            match type_of(p.children[0]) {
                Some(t) => Some(VariantTypeModel::Newtype(t)),
                None => None,
            }
        },
        _ => None,
    }
}

/// The variants of an enum body: one per child after the name, in order.
pub open spec fn variants_of(body: ParseNode) -> Option<Seq<VariantModel>> {
    if forall|i: int| 1 <= i < body.children.len() ==> variant_of(#[trigger] body.children[i]) is Some {
        Some(
            Seq::new(
                (body.children.len() - 1) as nat,
                |i: int| variant_of(body.children[i + 1])->Some_0,
            ),
        )
    } else {
        None
    }
}

/// The component of a route segment: a literal, or a variable with its pair.
pub open spec fn component_of(n: ParseNode) -> Option<ComponentModel> {
    if n.children.len() == 0 {
        None
    } else {
        let c = n.children[0];
        match c.rule {
            Rule::KebabCaseIdent => Some(ComponentModel::Literal(c.text@)),
            Rule::HttpRouteSegmentArg => if c.children.len() != 1 {
                None
            } else {
                match pair_of(c.children[0]) {
                    Some(p) => Some(ComponentModel::Variable(p)),
                    None => None,
                }
            },
            _ => None,
        }
    }
}

/// The components of a route node: one per segment, in order.
pub open spec fn components_of(n: ParseNode) -> Option<Seq<ComponentModel>> {
    if forall|i: int| 0 <= i < n.children.len() ==> component_of(#[trigger] n.children[i]) is Some {
        Some(Seq::new(n.children.len() as nat, |i: int| component_of(n.children[i])->Some_0))
    } else {
        None
    }
}

/// The method that a method node names.
pub open spec fn method_of(rule: Rule) -> Option<HttpMethod> {
    match rule {
        Rule::HttpGet => Some(HttpMethod::Get),
        Rule::HttpDelete => Some(HttpMethod::Delete),
        Rule::HttpPost => Some(HttpMethod::Post),
        Rule::HttpPut => Some(HttpMethod::Put),
        Rule::HttpPatch => Some(HttpMethod::Patch),
        _ => None,
    }
}

/// Whether a method carries a body.
pub open spec fn has_body(m: HttpMethod) -> bool {
    m == HttpMethod::Post || m == HttpMethod::Put || m == HttpMethod::Patch
}

/// The route of a rule node: a method, the path, a query if one follows, a
/// body where the method carries one, and the return type, and nothing else.
pub open spec fn route_of(n: ParseNode) -> Option<RouteModel> {
    if n.children.len() < 2 {
        None
    } else {
        match (method_of(n.children[0].rule), components_of(n.children[1])) {
            (Some(method), Some(components)) => {
                let q: int = if n.children.len() > 2 && n.children[2].rule == Rule::HttpQuery {
                    1
                } else {
                    0
                };
                let b: int = if has_body(method) {
                    1
                } else {
                    0
                };
                if n.children.len() != 3 + q + b {
                    None
                } else {
                    let query = if q == 1 {
                        if n.children[2].children.len() != 1 {
                            None
                        } else {
                            match type_of(n.children[2].children[0]) {
                                Some(t) => Some(Some(t)),
                                None => None,
                            }
                        }
                    } else {
                        Some(None)
                    };
                    let body = if b == 1 {
                        match type_of(n.children[2 + q]) {
                            Some(t) => Some(Some(t)),
                            None => None,
                        }
                    } else {
                        Some(None)
                    };
                    match (query, body, type_of(n.children[2 + q + b])) {
                        (Some(query), Some(body), Some(ret)) => Some(
                            RouteModel { method, components, query, body, ret },
                        ),
                        _ => None,
                    }
                }
            },
            _ => None,
        }
    }
}

/// The endpoint of an endpoint node: a doc comment, if any, and a rule, and
/// nothing else.
pub open spec fn endpoint_of(n: ParseNode) -> Option<EndpointModel> {
    match doc_comment_of(n) {
        None => None,
        Some(doc) => if n.children.len() != doc_offset(n) + 1 {
            None
        } else {
            match route_of(n.children[doc_offset(n)]) {
                Some(r) => Some(EndpointModel { doc_comment: doc, route: r }),
                None => None,
            }
        },
    }
}

/// The endpoints of an endpoint list: one per child, in order.
pub open spec fn endpoints_of(n: ParseNode) -> Option<Seq<EndpointModel>> {
    if forall|i: int| 0 <= i < n.children.len() ==> endpoint_of(#[trigger] n.children[i]) is Some {
        Some(Seq::new(n.children.len() as nat, |i: int| endpoint_of(n.children[i])->Some_0))
    } else {
        None
    }
}

/// The struct that a struct definition node defines: a doc comment, if
/// any, a name and a field list.
pub open spec fn struct_def_of(n: ParseNode) -> Option<ItemModel> {
    match doc_comment_of(n) {
        None => None,
        Some(doc) => {
            let k = doc_offset(n);
            if n.children.len() < k + 2 {
                None
            } else {
                match fields_of(n.children[k + 1]) {
                    Some(f) => Some(
                        ItemModel::StructDef {
                            name: n.children[k].text@,
                            fields: f,
                            doc_comment: doc,
                        },
                    ),
                    None => None,
                }
            }
        },
    }
}

/// The enum that an enum definition node defines: a doc comment, if any,
/// and a body that holds the name and the variants.
pub open spec fn enum_def_of(n: ParseNode) -> Option<ItemModel> {
    match doc_comment_of(n) {
        None => None,
        Some(doc) => {
            let k = doc_offset(n);
            if n.children.len() < k + 1 || n.children[k].children.len() == 0 {
                None
            } else {
                match variants_of(n.children[k]) {
                    Some(v) => Some(
                        ItemModel::EnumDef {
                            name: n.children[k].children[0].text@,
                            variants: v,
                            doc_comment: doc,
                        },
                    ),
                    None => None,
                }
            }
        },
    }
}

/// The service that a service definition node defines: a doc comment, if
/// any, a name and a list of endpoints, and nothing else.
pub open spec fn service_def_of(n: ParseNode) -> Option<ItemModel> {
    match doc_comment_of(n) {
        None => None,
        Some(doc) => {
            let k = doc_offset(n);
            if n.children.len() != k + 2 {
                None
            } else {
                match endpoints_of(n.children[k + 1]) {
                    Some(e) => Some(
                        ItemModel::ServiceDef {
                            name: n.children[k].text@,
                            doc_comment: doc,
                            endpoints: e,
                        },
                    ),
                    None => None,
                }
            }
        },
    }
}

/// The item of a top-level node: a struct, an enum or a service definition,
/// by the rule of the node.
pub open spec fn item_of(n: ParseNode) -> Option<ItemModel> {
    match n.rule {
        Rule::StructDefinition => struct_def_of(n),
        Rule::EnumDefinition => enum_def_of(n),
        Rule::ServiceDefinition => service_def_of(n),
        _ => None,
    }
}

/// Whether a string is a given text.
fn text_is(s: &String, text: &str) -> (r: bool)
    ensures
        r == (s@ == text@),
{
    *s == String::from_str(text)
}

/// Parse a built-in atomic type.
pub fn parse_built_in_atom(text: &String) -> (r: Option<AtomType>)
    ensures
        r == atom_of(text@),
{
    if text_is(text, "()") {
        Some(AtomType::Empty)
    } else if text_is(text, "str") {
        Some(AtomType::Str)
    } else if text_is(text, "i32") {
        Some(AtomType::I32)
    } else if text_is(text, "u32") {
        Some(AtomType::U32)
    } else if text_is(text, "u8") {
        Some(AtomType::U8)
    } else if text_is(text, "f64") {
        Some(AtomType::F64)
    } else if text_is(text, "bool") {
        Some(AtomType::Bool)
    } else if text_is(text, "datetime") {
        Some(AtomType::DateTime)
    } else if text_is(text, "date") {
        Some(AtomType::Date)
    } else if text_is(text, "uuid") {
        Some(AtomType::Uuid)
    } else if text_is(text, "bytes") {
        Some(AtomType::Bytes)
    } else {
        None
    }
}

/// Parse type identifier.
pub fn parse_type_ident(n: &ParseNode) -> (r: Option<TypeIdent>)
    ensures
        match type_of(*n) {
            Some(t) => r is Some && r->Some_0@ == t,
            None => r is None,
        },
    decreases n, 1nat,
{
    if n.children.len() == 0 {
        return None;
    }
    proof {
        vstd::std_specs::vec::axiom_vec_index_decreases(n.children, 0);
    }
    let inner = &n.children[0];
    match inner.rule {
        Rule::BuiltInAtom => match parse_built_in_atom(&inner.text) {
            Some(a) => Some(TypeIdent::BuiltIn(a)),
            None => None,
        },
        Rule::ListType => {
            if inner.children.len() == 0 {
                return None;
            }
            proof {
                vstd::std_specs::vec::axiom_vec_index_decreases(inner.children, 0);
            }
            match parse_type_ident(&inner.children[0]) {
                Some(t) => Some(TypeIdent::List(Box::new(t))),
                None => None,
            }
        },
        Rule::OptionType => {
            if inner.children.len() == 0 {
                return None;
            }
            proof {
                vstd::std_specs::vec::axiom_vec_index_decreases(inner.children, 0);
            }
            match parse_type_ident(&inner.children[0]) {
                Some(t) => Some(TypeIdent::Option(Box::new(t))),
                None => None,
            }
        },
        Rule::ResultType => {
            if inner.children.len() != 2 {
                return None;
            }
            proof {
                vstd::std_specs::vec::axiom_vec_index_decreases(inner.children, 0);
                vstd::std_specs::vec::axiom_vec_index_decreases(inner.children, 1);
            }
            match (parse_type_ident(&inner.children[0]), parse_type_ident(&inner.children[1])) {
                (Some(o), Some(e)) => Some(TypeIdent::Result(Box::new(o), Box::new(e))),
                _ => None,
            }
        },
        Rule::MapType => {
            if inner.children.len() < 2 {
                return None;
            }
            proof {
                vstd::std_specs::vec::axiom_vec_index_decreases(inner.children, 0);
                vstd::std_specs::vec::axiom_vec_index_decreases(inner.children, 1);
            }
            match (parse_type_ident(&inner.children[0]), parse_type_ident(&inner.children[1])) {
                (Some(k), Some(v)) => Some(TypeIdent::Mapping(Box::new(k), Box::new(v))),
                _ => None,
            }
        },
        Rule::TupleDef => match parse_tuple_def(inner) {
            Some(d) => {
                let r = TypeIdent::Tuple(d);
                assert(r@->Tuple_0 =~= d@);
                Some(r)
            },
            None => None,
        },
        Rule::CamelCaseIdent => Some(TypeIdent::UserDefined(inner.text.clone())),
        _ => None,
    }
}

/// Parse a tuple definition.
pub fn parse_tuple_def(n: &ParseNode) -> (r: Option<TupleDef>)
    ensures
        match tuple_of(*n) {
            Some(ts) => r is Some && r->Some_0@ == ts,
            None => r is None,
        },
    decreases n, 0nat,
{
    let mut out: Vec<TypeIdent> = Vec::new();
    let mut i: usize = 0;
    while i < n.children.len()
        invariant
            i <= n.children.len(),
            out.len() == i,
            forall|j: int|
                0 <= j < i ==> type_of(#[trigger] n.children[j]) is Some && out[j]@ == type_of(
                    n.children[j],
                )->Some_0,
        decreases n.children.len() - i,
    {
        proof {
            vstd::std_specs::vec::axiom_vec_index_decreases(n.children, i as int);
        }
        match parse_type_ident(&n.children[i]) {
            Some(t) => {
                out.push(t);
            },
            None => {
                return None;
            },
        }
        i += 1;
    }
    let r = TupleDef(out);
    assert(r@ =~= tuple_of(*n)->Some_0);
    Some(r)
}

/// Parse a doc comment: looks whether the first child of a node is a doc
/// comment and, if it is, returns its lines joined by newlines.
pub fn parse_doc_comment(n: &ParseNode) -> (r: Option<Option<String>>)
    ensures
        match doc_comment_of(*n) {
            None => r is None,
            Some(None) => r == Some(None::<String>),
            Some(Some(s)) => r is Some && r->Some_0 is Some && r->Some_0->Some_0@ == s,
        },
{
    if n.children.len() == 0 {
        return Some(None);
    }
    let d = &n.children[0];
    match d.rule {
        Rule::DocComment => {},
        _ => {
            return Some(None);
        },
    }
    let mut text = String::new();
    let mut i: usize = 0;
    while i < d.children.len()
        invariant
            i <= d.children.len(),
            doc_offset(*n) == 1,
            *d == n.children[0],
            text@ == doc_text(*d, i as nat),
            forall|j: int| 0 <= j < i ==> (#[trigger] d.children[j]).children.len() > 0,
        decreases d.children.len() - i,
    {
        let line = &d.children[i];
        if line.children.len() == 0 {
            assert(!(d.children[i as int].children.len() > 0));
            return None;
        }
        let ghost before = text@;
        if i > 0 {
            text.append("\n");
        }
        text.append(line.children[0].text.as_str());
        proof {
            if i == 0 {
                assert(text@ =~= line.children[0].text@);
            } else {
                assert(text@ =~= before + "\n"@ + line.children[0].text@);
            }
        }
        i += 1;
    }
    Some(Some(text))
}

/// Parse the pair of a field definition: its name and its type.
pub fn parse_struct_field_def_pair(n: &ParseNode) -> (r: Option<FieldDefPair>)
    ensures
        match pair_of(*n) {
            Some(p) => r is Some && r->Some_0@ == p,
            None => r is None,
        },
{
    if n.children.len() != 2 {
        return None;
    }
    match parse_type_ident(&n.children[1]) {
        Some(t) => Some(FieldDefPair { name: n.children[0].text.clone(), type_ident: t }),
        None => None,
    }
}

/// How many children the doc comment at the head of a node takes.
fn doc_children(n: &ParseNode) -> (k: usize)
    ensures
        k == doc_offset(*n),
        k <= 1,
{
    if n.children.len() == 0 {
        return 0;
    }
    match n.children[0].rule {
        Rule::DocComment => 1,
        _ => 0,
    }
}

/// Parse field definitions in struct.
pub fn parse_struct_field_def_node(n: &ParseNode) -> (r: Option<FieldNode>)
    ensures
        match field_node_of(*n) {
            Some(f) => r is Some && r->Some_0@ == f,
            None => r is None,
        },
{
    let doc = match parse_doc_comment(n) {
        None => {
            return None;
        },
        Some(doc) => doc,
    };
    let k = doc_children(n);
    if n.children.len() <= k {
        return None;
    }
    match parse_struct_field_def_pair(&n.children[k]) {
        Some(pair) => Some(FieldNode { pair, doc_comment: doc }),
        None => None,
    }
}

/// Parse one field definition: a documented pair, or an embed. An embed
/// takes the name of the struct it names as its field name; the grammar
/// keeps field names and type names apart, so no field proper can look so.
pub fn parse_struct_field_def(n: &ParseNode) -> (r: Option<FieldNode>)
    ensures
        match field_def_of(*n) {
            Some(f) => r is Some && r->Some_0@ == f,
            None => r is None,
        },
{
    match n.rule {
        Rule::StructFieldDef => {},
        _ => {
            return None;
        },
    }
    if n.children.len() != 1 {
        return None;
    }
    let d = &n.children[0];
    match d.rule {
        Rule::StructFieldDefNode => parse_struct_field_def_node(d),
        Rule::StructFieldDefEmbed => {
            if d.children.len() != 1 {
                return None;
            }
            let ty = &d.children[0];
            match parse_type_ident(ty) {
                Some(t) => Some(
                    FieldNode {
                        pair: FieldDefPair { name: ty.text.clone(), type_ident: t },
                        doc_comment: None,
                    },
                ),
                None => None,
            }
        },
        _ => None,
    }
}

/// Parse inner struct fields of struct definition.
pub fn parse_struct_fields(n: &ParseNode) -> (r: Option<StructFields>)
    ensures
        match fields_of(*n) {
            Some(f) => r is Some && r->Some_0@ == f,
            None => r is None,
        },
{
    let mut out: Vec<FieldNode> = Vec::new();
    let mut i: usize = 0;
    while i < n.children.len()
        invariant
            i <= n.children.len(),
            out.len() == i,
            forall|j: int|
                0 <= j < i ==> field_def_of(#[trigger] n.children[j]) is Some && out[j]@
                    == field_def_of(n.children[j])->Some_0,
        decreases n.children.len() - i,
    {
        match parse_struct_field_def(&n.children[i]) {
            Some(f) => {
                out.push(f);
            },
            None => {
                return None;
            },
        }
        i += 1;
    }
    let r = StructFields(out);
    assert(r@ =~= fields_of(*n)->Some_0);
    Some(r)
}

/// Parse the payload of an enum variant, which decides its kind.
pub fn parse_variant_payload(p: &ParseNode) -> (r: Option<VariantType>)
    ensures
        match payload_of(*p) {
            Some(v) => r is Some && r->Some_0@ == v,
            None => r is None,
        },
{
    match p.rule {
        Rule::StructFields => match parse_struct_fields(p) {
            Some(f) => Some(VariantType::Struct(f)),
            None => None,
        },
        Rule::TupleDef => match parse_tuple_def(p) {
            Some(t) => Some(VariantType::Tuple(t)),
            None => None,
        },
        Rule::NewtypeDef => {
            if p.children.len() == 0 {
                return None;
            }
            match parse_type_ident(&p.children[0]) {
                Some(t) => Some(VariantType::Newtype(t)),
                None => None,
            }
        },
        _ => None,
    }
}

/// Parse enum variant definitions.
pub fn parse_enum_variant_def(n: &ParseNode) -> (r: Option<VariantDef>)
    ensures
        match variant_of(*n) {
            Some(v) => r is Some && r->Some_0@ == v,
            None => r is None,
        },
{
    let doc = match parse_doc_comment(n) {
        None => {
            return None;
        },
        Some(doc) => doc,
    };
    let k = doc_children(n);
    if n.children.len() <= k {
        return None;
    }
    let name = n.children[k].text.clone();
    if n.children.len() == k + 1 {
        return Some(VariantDef { name, variant_type: VariantType::Simple, doc_comment: doc });
    }
    match parse_variant_payload(&n.children[k + 1]) {
        Some(variant_type) => Some(VariantDef { name, variant_type, doc_comment: doc }),
        None => None,
    }
}

/// Parse one segment of a route.
pub fn parse_http_route_segment(n: &ParseNode) -> (r: Option<ServiceRouteComponent>)
    ensures
        match component_of(*n) {
            Some(c) => r is Some && r->Some_0@ == c,
            None => r is None,
        },
{
    if n.children.len() == 0 {
        return None;
    }
    let c = &n.children[0];
    match c.rule {
        Rule::KebabCaseIdent => Some(ServiceRouteComponent::Literal(c.text.clone())),
        Rule::HttpRouteSegmentArg => {
            if c.children.len() != 1 {
                return None;
            }
            match parse_struct_field_def_pair(&c.children[0]) {
                Some(p) => Some(ServiceRouteComponent::Variable(p)),
                None => None,
            }
        },
        _ => None,
    }
}

/// Parse the path of a route.
pub fn parse_http_route(n: &ParseNode) -> (r: Option<Vec<ServiceRouteComponent>>)
    ensures
        match components_of(*n) {
            Some(c) => r is Some && crate::ast::components_view(r->Some_0@) == c,
            None => r is None,
        },
{
    let mut out: Vec<ServiceRouteComponent> = Vec::new();
    let mut i: usize = 0;
    while i < n.children.len()
        invariant
            i <= n.children.len(),
            out.len() == i,
            forall|j: int|
                0 <= j < i ==> component_of(#[trigger] n.children[j]) is Some && out[j]@
                    == component_of(n.children[j])->Some_0,
        decreases n.children.len() - i,
    {
        match parse_http_route_segment(&n.children[i]) {
            Some(c) => {
                out.push(c);
            },
            None => {
                return None;
            },
        }
        i += 1;
    }
    assert(crate::ast::components_view(out@) =~= components_of(*n)->Some_0);
    Some(out)
}

/// The method that a rule names.
pub fn parse_http_method(rule: Rule) -> (r: Option<HttpMethod>)
    ensures
        r == method_of(rule),
{
    match rule {
        Rule::HttpGet => Some(HttpMethod::Get),
        Rule::HttpDelete => Some(HttpMethod::Delete),
        Rule::HttpPost => Some(HttpMethod::Post),
        Rule::HttpPut => Some(HttpMethod::Put),
        Rule::HttpPatch => Some(HttpMethod::Patch),
        _ => None,
    }
}

/// Parse the query of a route: the type in its braces.
pub fn parse_http_query(n: &ParseNode) -> (r: Option<TypeIdent>)
    ensures
        n.children.len() != 1 ==> r is None,
        n.children.len() == 1 ==> match type_of(n.children[0]) {
            Some(t) => r is Some && r->Some_0@ == t,
            None => r is None,
        },
{
    if n.children.len() != 1 {
        return None;
    }
    parse_type_ident(&n.children[0])
}

/// Parse the definition of a route: method, path, query, body and return
/// type.
pub fn parse_service_rule_def(n: &ParseNode) -> (r: Option<ServiceRoute>)
    ensures
        match route_of(*n) {
            Some(m) => r is Some && r->Some_0@ == m,
            None => r is None,
        },
{
    if n.children.len() < 2 {
        return None;
    }
    let method = match parse_http_method(n.children[0].rule) {
        Some(m) => m,
        None => {
            return None;
        },
    };
    let components = match parse_http_route(&n.children[1]) {
        Some(c) => c,
        None => {
            return None;
        },
    };
    let q: usize = if n.children.len() > 2 {
        match n.children[2].rule {
            Rule::HttpQuery => 1,
            _ => 0,
        }
    } else {
        0
    };
    let b: usize = match method {
        HttpMethod::Post => 1,
        HttpMethod::Put => 1,
        HttpMethod::Patch => 1,
        _ => 0,
    };
    if n.children.len() != 3 + q + b {
        return None;
    }
    let query = if q == 1 {
        match parse_http_query(&n.children[2]) {
            Some(t) => Some(t),
            None => {
                return None;
            },
        }
    } else {
        None
    };
    let body = if b == 1 {
        match parse_type_ident(&n.children[2 + q]) {
            Some(t) => Some(t),
            None => {
                return None;
            },
        }
    } else {
        None
    };
    let ret = match parse_type_ident(&n.children[2 + q + b]) {
        Some(t) => t,
        None => {
            return None;
        },
    };
    match (method, body) {
        (HttpMethod::Get, _) => Some(ServiceRoute::Get { components, query, ret }),
        (HttpMethod::Delete, _) => Some(ServiceRoute::Delete { components, query, ret }),
        (HttpMethod::Post, Some(body)) => Some(ServiceRoute::Post { components, query, body, ret }),
        (HttpMethod::Put, Some(body)) => Some(ServiceRoute::Put { components, query, body, ret }),
        (HttpMethod::Patch, Some(body)) => Some(
            ServiceRoute::Patch { components, query, body, ret },
        ),
        _ => None,
    }
}

/// Parse one endpoint of a service.
pub fn parse_service_rule(n: &ParseNode) -> (r: Option<ServiceEndpoint>)
    ensures
        match endpoint_of(*n) {
            Some(e) => r is Some && r->Some_0@ == e,
            None => r is None,
        },
{
    let doc = match parse_doc_comment(n) {
        None => {
            return None;
        },
        Some(doc) => doc,
    };
    let k = doc_children(n);
    if n.children.len() != k + 1 {
        return None;
    }
    match parse_service_rule_def(&n.children[k]) {
        Some(route) => Some(ServiceEndpoint { doc_comment: doc, route }),
        None => None,
    }
}

/// Parse a struct definition.
pub fn parse_struct_definition(n: &ParseNode) -> (r: Option<StructDef>)
    ensures
        match struct_def_of(*n) {
            Some(m) => r is Some && SpecItem::StructDef(r->Some_0)@ == m,
            None => r is None,
        },
{
    let doc = match parse_doc_comment(n) {
        None => {
            return None;
        },
        Some(doc) => doc,
    };
    let k = doc_children(n);
    if n.children.len() < k + 2 {
        return None;
    }
    match parse_struct_fields(&n.children[k + 1]) {
        Some(fields) => Some(
            StructDef { name: n.children[k].text.clone(), fields, doc_comment: doc },
        ),
        None => None,
    }
}

/// Parse enum definition.
pub fn parse_enum_definition(n: &ParseNode) -> (r: Option<EnumDef>)
    ensures
        match enum_def_of(*n) {
            Some(m) => r is Some && SpecItem::EnumDef(r->Some_0)@ == m,
            None => r is None,
        },
{
    let doc = match parse_doc_comment(n) {
        None => {
            return None;
        },
        Some(doc) => doc,
    };
    let k = doc_children(n);
    if n.children.len() < k + 1 {
        return None;
    }
    let body = &n.children[k];
    if body.children.len() == 0 {
        return None;
    }
    let mut variants: Vec<VariantDef> = Vec::new();
    let mut i: usize = 1;
    while i < body.children.len()
        invariant
            1 <= i <= body.children.len(),
            variants_of(*body) is None ==> enum_def_of(*n) is None,
            variants.len() == i - 1,
            forall|j: int|
                1 <= j < i ==> variant_of(#[trigger] body.children[j]) is Some && variants[j - 1]@
                    == variant_of(body.children[j])->Some_0,
        decreases body.children.len() - i,
    {
        match parse_enum_variant_def(&body.children[i]) {
            Some(v) => {
                variants.push(v);
            },
            None => {
                assert(variant_of(body.children[i as int]) is None);
                assert(variants_of(*body) is None);
                return None;
            },
        }
        i += 1;
    }
    assert(crate::ast::variants_view(variants@) =~= variants_of(*body)->Some_0);
    Some(EnumDef { name: body.children[0].text.clone(), variants, doc_comment: doc })
}

/// Parse a service definition.
pub fn parse_service_definition(n: &ParseNode) -> (r: Option<ServiceDef>)
    ensures
        match service_def_of(*n) {
            Some(m) => r is Some && SpecItem::ServiceDef(r->Some_0)@ == m,
            None => r is None,
        },
{
    let doc = match parse_doc_comment(n) {
        None => {
            return None;
        },
        Some(doc) => doc,
    };
    let k = doc_children(n);
    if n.children.len() != k + 2 {
        return None;
    }
    let list = &n.children[k + 1];
    let mut endpoints: Vec<ServiceEndpoint> = Vec::new();
    let mut i: usize = 0;
    while i < list.children.len()
        invariant
            i <= list.children.len(),
            endpoints_of(*list) is None ==> service_def_of(*n) is None,
            endpoints.len() == i,
            forall|j: int|
                0 <= j < i ==> endpoint_of(#[trigger] list.children[j]) is Some && endpoints[j]@
                    == endpoint_of(list.children[j])->Some_0,
        decreases list.children.len() - i,
    {
        match parse_service_rule(&list.children[i]) {
            Some(e) => {
                endpoints.push(e);
            },
            None => {
                assert(endpoint_of(list.children[i as int]) is None);
                assert(endpoints_of(*list) is None);
                return None;
            },
        }
        i += 1;
    }
    assert(crate::ast::endpoints_view(endpoints@) =~= endpoints_of(*list)->Some_0);
    Some(ServiceDef { name: n.children[k].text.clone(), doc_comment: doc, endpoints })
}

/// Parse a spec item: a `struct`, an `enum` or a `service`.
pub fn parse_spec_item(n: &ParseNode) -> (r: Option<SpecItem>)
    ensures
        match item_of(*n) {
            Some(m) => r is Some && r->Some_0@ == m,
            None => r is None,
        },
{
    match n.rule {
        Rule::StructDefinition => match parse_struct_definition(n) {
            Some(d) => Some(SpecItem::StructDef(d)),
            None => None,
        },
        Rule::EnumDefinition => match parse_enum_definition(n) {
            Some(d) => Some(SpecItem::EnumDef(d)),
            None => None,
        },
        Rule::ServiceDefinition => match parse_service_definition(n) {
            Some(d) => Some(SpecItem::ServiceDef(d)),
            None => None,
        },
        _ => None,
    }
}

/// Which artifacts to produce in addition to user defined types.
#[derive(Debug, Clone, Copy, PartialEq, Eq, Structural)]
pub enum Artifact {
    /// Only generate user defined type definitions.
    TypesOnly,
    /// Generate encoders, decoders and client-side REST API endpoints.
    ClientEndpoints,
    /// Generate encoders, decoders and server-side REST API endpoints.
    ServerEndpoints,
}

impl Default for Artifact {
    fn default() -> (r: Self)
        ensures
            r == Artifact::TypesOnly,
    {
        Artifact::TypesOnly
    }
}

/// The name of an artifact.
pub open spec fn artifact_name(a: Artifact) -> Seq<char> {
    match a {
        Artifact::TypesOnly => "TypesOnly"@,
        Artifact::ClientEndpoints => "ClientEndpoints"@,
        Artifact::ServerEndpoints => "ServerEndpoints"@,
    }
}

impl Artifact {
    /// The name of the artifact, as it is shown to a user.
    pub fn to_string(&self) -> (r: String)
        ensures
            r@ == artifact_name(*self),
    {
        match self {
            Artifact::TypesOnly => String::from_str("TypesOnly"),
            Artifact::ClientEndpoints => String::from_str("ClientEndpoints"),
            Artifact::ServerEndpoints => String::from_str("ServerEndpoints"),
        }
    }
}

/// A failure of the compiler as a whole.
#[derive(Debug, PartialEq, Eq)]
pub enum LibError {
    /// The parse tree is no tree of the grammar.
    ParseError(ParseError),
    /// The spec does not compile.
    Compile(CompileError),
}

/// Whether every top-level node of a document is an item.
pub open spec fn items_ok(doc: ParseNode) -> bool {
    forall|i: int| 0 <= i < doc.children.len() ==> item_of(#[trigger] doc.children[i]) is Some
}

/// The items of a document, one per top-level node, in order.
pub open spec fn items_of(doc: ParseNode) -> Seq<ItemModel> {
    Seq::new(doc.children.len() as nat, |i: int| item_of(doc.children[i])->Some_0)
}

/// Whether the top-level node at `i` is the first that is no item.
pub open spec fn first_bad_item(doc: ParseNode, i: int) -> bool {
    &&& 0 <= i < doc.children.len()
    &&& item_of(doc.children[i]) is None
    &&& forall|j: int| 0 <= j < i ==> item_of(#[trigger] doc.children[j]) is Some
}

/// Builds the syntax tree of a document: one item per top-level node, in
/// order, embeds not yet resolved. Fails at the first node that is no item,
/// with its place in the source.
pub fn build_spec(doc: &ParseNode) -> (r: Result<Spec, ParseError>)
    ensures
        items_ok(*doc) ==> r is Ok && r->Ok_0@ == items_of(*doc),
        !items_ok(*doc) ==> r is Err && exists|i: int|
            first_bad_item(*doc, i) && r->Err_0.start == doc.children[i].start && r->Err_0.end
                == doc.children[i].end,
{
    let mut items: Vec<SpecItem> = Vec::new();
    let mut i: usize = 0;
    while i < doc.children.len()
        invariant
            i <= doc.children.len(),
            items.len() == i,
            forall|j: int|
                0 <= j < i ==> item_of(#[trigger] doc.children[j]) is Some && items[j]@ == item_of(
                    doc.children[j],
                )->Some_0,
        decreases doc.children.len() - i,
    {
        let node = &doc.children[i];
        match parse_spec_item(node) {
            Some(item) => {
                items.push(item);
            },
            None => {
                assert(first_bad_item(*doc, i as int));
                assert(item_of(doc.children[i as int]) is None);
                return Err(ParseError { start: node.start, end: node.end });
            },
        }
        i += 1;
    }
    let spec = Spec(items);
    assert(spec@ =~= items_of(*doc));
    Ok(spec)
}

/// Parse complete spec: builds the syntax tree of a document and resolves
/// its embeds.
pub fn parse(doc: &ParseNode) -> (r: Result<Spec, LibError>)
    ensures
        items_ok(*doc) ==> match resolve_model(items_of(*doc), (MAX_EMBED_DEPTH + 1) as nat) {
            Ok(s) => r is Ok && r->Ok_0@ == s,
            Err(e) => r is Err && r->Err_0 is Compile && r->Err_0->Compile_0@ == e,
        },
        !items_ok(*doc) ==> r is Err && r->Err_0 is ParseError && exists|i: int|
            first_bad_item(*doc, i) && r->Err_0->ParseError_0.start == doc.children[i].start
                && r->Err_0->ParseError_0.end == doc.children[i].end,
{
    match build_spec(doc) {
        Err(e) => Err(LibError::ParseError(e)),
        Ok(spec) => {
            let mut spec = spec;
            match resolve_embeds(&mut spec) {
                Ok(()) => Ok(spec),
                Err(e) => Err(LibError::Compile(e)),
            }
        },
    }
}

} // verus!
