//! Decoding of the canonical JSON encoding, directed by the type expected.

use crate::ast::{
    fields_view, variants_view, AtomType, FieldModel, FieldNode, ItemModel, Spec, SpecItem,
    TypeIdent, TypeModel, VariantDef, VariantModel, VariantType, VariantTypeModel,
};
use crate::routes::defines;
use crate::wire::{
    base64_bytes, deser_bytes, json_members_model, jsons_model, members_model,
    value_model, values_model, JsonMember, JsonMemberModel, JsonModel, JsonValue, Member,
    MemberModel, Number, NumberModel, Payload, PayloadModel, Value, ValueModel,
};
use vstd::prelude::*;
use vstd::string::StringExecFns;

verus! {

/// A JSON document that is no encoding of a value of the type expected.
#[derive(Debug, PartialEq, Eq)]
pub enum DecodeError {
    Deserialization,
}

/// The index of the first member from `k` on whose key is `name`.
pub open spec fn member_index_from(o: Seq<JsonMemberModel>, name: Seq<char>, k: int) -> Option<int>
    decreases o.len() - k,
{
    if k < 0 || k >= o.len() {
        None
    } else if o[k].key == name {
        Some(k)
    } else {
        member_index_from(o, name, k + 1)
    }
}

/// The index of the first variant from `k` on whose name is `name`.
pub open spec fn variant_index_from(vs: Seq<VariantModel>, name: Seq<char>, k: int) -> Option<int>
    decreases vs.len() - k,
{
    if k < 0 || k >= vs.len() {
        None
    } else if vs[k].name == name {
        Some(k)
    } else {
        variant_index_from(vs, name, k + 1)
    }
}

/// The index of the first item from `k` on that defines a struct or an enum
/// called `name`.
pub open spec fn definition_index_from(spec: Seq<ItemModel>, name: Seq<char>, k: int) -> Option<
    int,
>
    decreases spec.len() - k,
{
    if k < 0 || k >= spec.len() {
        None
    } else if defines(spec[k], name) {
        Some(k)
    } else {
        definition_index_from(spec, name, k + 1)
    }
}

/// Whether an integer is a value of an integer atom.
pub open spec fn in_range(a: AtomType, n: i64) -> bool {
    match a {
        AtomType::I32 => -2147483648 <= n <= 2147483647,
        AtomType::U32 => 0 <= n <= 4294967295,
        AtomType::U8 => 0 <= n <= 255,
        _ => false,
    }
}

/// How many options a type is wrapped in at its top.
pub open spec fn option_depth(ty: TypeModel) -> nat
    decreases ty,
{
    match ty {
        TypeModel::Optional(t) => option_depth(*t) + 1,
        _ => 0,
    }
}

/// A bound on the steps that decoding a payload takes before it goes on
/// into the JSON document.
pub open spec fn payload_rank(vt: VariantTypeModel) -> nat {
    match vt {
        VariantTypeModel::Newtype(t) => option_depth(t) + 2,
        _ => 0,
    }
}

/// What a JSON document decodes to as a value of an atom.
pub open spec fn decode_atom(a: AtomType, j: JsonModel) -> Option<ValueModel> {
    match a {
        AtomType::Empty => match j {
            JsonModel::Null => Some(ValueModel::Empty),
            _ => None,
        },
        AtomType::Bool => match j {
            JsonModel::Bool(b) => Some(ValueModel::Bool(b)),
            _ => None,
        },
        AtomType::I32 | AtomType::U32 | AtomType::U8 => match j {
            JsonModel::Integer(n) => if in_range(a, n) {
                Some(ValueModel::Int(n))
            } else {
                None
            },
            _ => None,
        },
        AtomType::F64 => match j {
            JsonModel::Integer(n) => Some(ValueModel::Float(NumberModel::Integer(n))),
            JsonModel::Decimal(s) => Some(ValueModel::Float(NumberModel::Decimal(s))),
            _ => None,
        },
        AtomType::Str | AtomType::Uuid | AtomType::DateTime | AtomType::Date => match j {
            JsonModel::Text(s) => Some(ValueModel::Text(s)),
            _ => None,
        },
        AtomType::Bytes => match j {
            JsonModel::Text(s) => match base64_bytes(s) {
                Ok(b) => Some(ValueModel::Bytes(b)),
                Err(_) => None,
            },
            _ => None,
        },
    }
}

/// What a JSON document decodes to as a value of a type, if it is the
/// encoding of one.
///
/// An integer must lie in the range of its type. An option takes `null` for
/// nothing and anything else for its value. A result is an object with the
/// one key `Ok` or `Err`. A tuple is an array of its arity. A struct is an
/// object; each field is decoded from the first member under its name, a
/// field without a member is nothing where its type is an option and a
/// failure elsewhere, and members that no field names are passed over. An
/// enum is the name of a simple variant, or an object with the name of
/// another variant as its one key.
pub open spec fn decode(spec: Seq<ItemModel>, ty: TypeModel, j: JsonModel) -> Option<ValueModel>
    decreases j, option_depth(ty) + 1,
{
    match ty {
        TypeModel::BuiltIn(a) => decode_atom(a, j),
        TypeModel::List(t) => match j {
            JsonModel::Array(a) => match decode_all(spec, *t, a) {
                Some(vs) => Some(ValueModel::List(vs)),
                None => None,
            },
            _ => None,
        },
        TypeModel::Optional(t) => match j {
            JsonModel::Null => Some(ValueModel::Optional(None)),
            _ => match decode(spec, *t, j) {
                Some(v) => Some(ValueModel::Optional(Some(Box::new(v)))),
                None => None,
            },
        },
        TypeModel::Either(o, e) => match j {
            JsonModel::Object(m) => if m.len() != 1 {
                None
            } else if m[0].key == "Ok"@ {
                match decode(spec, *o, m[0].value) {
                    Some(v) => Some(ValueModel::Outcome(Ok(Box::new(v)))),
                    None => None,
                }
            } else if m[0].key == "Err"@ {
                match decode(spec, *e, m[0].value) {
                    Some(v) => Some(ValueModel::Outcome(Err(Box::new(v)))),
                    None => None,
                }
            } else {
                None
            },
            _ => None,
        },
        TypeModel::Dict(_, v) => match j {
            JsonModel::Object(m) => match decode_entries(spec, *v, m) {
                Some(ms) => Some(ValueModel::Mapping(ms)),
                None => None,
            },
            _ => None,
        },
        TypeModel::Tuple(ts) => match j {
            JsonModel::Array(a) => match decode_each(spec, ts, a) {
                Some(vs) => Some(ValueModel::Tuple(vs)),
                None => None,
            },
            _ => None,
        },
        TypeModel::UserDefined(n) => match definition_index_from(spec, n, 0) {
            Some(k) => if 0 <= k < spec.len() {
                match spec[k] {
                    ItemModel::StructDef { fields, .. } => match j {
                        JsonModel::Object(m) => match decode_fields(spec, fields, m) {
                            Some(ms) => Some(ValueModel::Struct(ms)),
                            None => None,
                        },
                        _ => None,
                    },
                    ItemModel::EnumDef { variants, .. } => decode_variant(spec, variants, j),
                    ItemModel::ServiceDef { .. } => None,
                }
            } else {
                None
            },
            None => None,
        },
    }
}

/// What an array decodes to as values of one type, element by element.
pub open spec fn decode_all(spec: Seq<ItemModel>, ty: TypeModel, a: Seq<JsonModel>) -> Option<
    Seq<ValueModel>,
>
    decreases a, 0nat,
{
    if forall|i: int| 0 <= i < a.len() ==> decode(spec, ty, #[trigger] a[i]) is Some {
        Some(
            Seq::new(
                a.len(),
                |i: int|
                    if 0 <= i < a.len() {
                        decode(spec, ty, a[i])->Some_0
                    } else {
                        ValueModel::Empty
                    },
            ),
        )
    } else {
        None
    }
}

/// What an array decodes to as the elements of a tuple, each by its type.
pub open spec fn decode_each(spec: Seq<ItemModel>, ts: Seq<TypeModel>, a: Seq<JsonModel>)
    -> Option<Seq<ValueModel>>
    decreases a, 0nat,
{
    if a.len() == ts.len() && forall|i: int|
        0 <= i < a.len() ==> decode(spec, ts[i], #[trigger] a[i]) is Some {
        Some(
            Seq::new(
                a.len(),
                |i: int|
                    if 0 <= i < a.len() {
                        decode(spec, ts[i], a[i])->Some_0
                    } else {
                        ValueModel::Empty
                    },
            ),
        )
    } else {
        None
    }
}

/// What the members of an object decode to as the entries of a map.
pub open spec fn decode_entries(spec: Seq<ItemModel>, ty: TypeModel, m: Seq<JsonMemberModel>)
    -> Option<Seq<MemberModel>>
    decreases m, 0nat,
{
    if forall|i: int| 0 <= i < m.len() ==> decode(spec, ty, (#[trigger] m[i]).value) is Some {
        Some(
            Seq::new(
                m.len(),
                |i: int|
                    if 0 <= i < m.len() {
                        MemberModel { name: m[i].key, value: decode(spec, ty, m[i].value)->Some_0 }
                    } else {
                        MemberModel { name: Seq::empty(), value: ValueModel::Empty }
                    },
            ),
        )
    } else {
        None
    }
}

/// What one field of a struct decodes to from the members of an object.
pub open spec fn decode_field(spec: Seq<ItemModel>, f: FieldModel, m: Seq<JsonMemberModel>)
    -> Option<ValueModel>
    decreases m, 0nat,
{
    match member_index_from(m, f.pair.name, 0) {
        Some(k) => if 0 <= k < m.len() {
            decode(spec, f.pair.type_ident, m[k].value)
        } else {
            None
        },
        None => if f.pair.type_ident is Optional {
            Some(ValueModel::Optional(None))
        } else {
            None
        },
    }
}

/// What the members of an object decode to as the fields of a struct, in
/// the order of the fields.
pub open spec fn decode_fields(spec: Seq<ItemModel>, fields: Seq<FieldModel>, m: Seq<JsonMemberModel>)
    -> Option<Seq<MemberModel>>
    decreases m, 1nat,
{
    if forall|i: int| 0 <= i < fields.len() ==> decode_field(spec, #[trigger] fields[i], m) is Some {
        Some(
            Seq::new(
                fields.len(),
                |i: int|
                    if 0 <= i < fields.len() {
                        MemberModel {
                            name: fields[i].pair.name,
                            value: decode_field(spec, fields[i], m)->Some_0,
                        }
                    } else {
                        MemberModel { name: Seq::empty(), value: ValueModel::Empty }
                    },
            ),
        )
    } else {
        None
    }
}

/// What a JSON document decodes to as a variant of an enum.
pub open spec fn decode_variant(spec: Seq<ItemModel>, variants: Seq<VariantModel>, j: JsonModel)
    -> Option<ValueModel>
    decreases j, 0nat,
{
    match j {
        JsonModel::Text(name) => match variant_index_from(variants, name, 0) {
            Some(k) => if 0 <= k < variants.len() && variants[k].variant_type is Simple {
                Some(ValueModel::Variant(name, PayloadModel::Simple))
            } else {
                None
            },
            None => None,
        },
        JsonModel::Object(m) => if m.len() != 1 {
            None
        } else {
            match variant_index_from(variants, m[0].key, 0) {
                Some(k) => if 0 <= k < variants.len() {
                    match decode_payload(spec, variants[k].variant_type, m[0].value) {
                        Some(p) => Some(ValueModel::Variant(m[0].key, p)),
                        None => None,
                    }
                } else {
                    None
                },
                None => None,
            }
        },
        _ => None,
    }
}

/// What a JSON document decodes to as the payload of a variant that is not
/// simple.
pub open spec fn decode_payload(spec: Seq<ItemModel>, vt: VariantTypeModel, j: JsonModel) -> Option<
    PayloadModel,
>
    decreases j, payload_rank(vt),
{
    match vt {
        VariantTypeModel::Simple => None,
        VariantTypeModel::Tuple(ts) => match j {
            JsonModel::Array(a) => match decode_each(spec, ts, a) {
                Some(vs) => Some(PayloadModel::Tuple(vs)),
                None => None,
            },
            _ => None,
        },
        VariantTypeModel::Struct(fields) => match j {
            JsonModel::Object(m) => match decode_fields(spec, fields, m) {
                Some(ms) => Some(PayloadModel::Struct(ms)),
                None => None,
            },
            _ => None,
        },
        VariantTypeModel::Newtype(t) => match decode(spec, t, j) {
            Some(v) => Some(PayloadModel::Newtype(Box::new(v))),
            None => None,
        },
    }
}

/// Finds the first member of an object under a key.
pub fn find_member(o: &Vec<JsonMember>, name: &String) -> (r: Option<usize>)
    ensures
        match member_index_from(json_members_model(*o), name@, 0) {
            Some(k) => r == Some(k as usize) && 0 <= k < o.len(),
            None => r is None,
        },
{
    let ghost m = json_members_model(*o);
    let mut i: usize = 0;
    while i < o.len()
        invariant
            i <= o.len(),
            m == json_members_model(*o),
            member_index_from(m, name@, 0) == member_index_from(m, name@, i as int),
        decreases o.len() - i,
    {
        assert(m[i as int].key == o[i as int].key@);
        if o[i].key == *name {
            return Some(i);
        }
        i += 1;
    }
    None
}

/// Finds the first variant of an enum under a name.
pub fn find_variant(vs: &Vec<VariantDef>, name: &String) -> (r: Option<usize>)
    ensures
        match variant_index_from(variants_view(vs@), name@, 0) {
            Some(k) => r == Some(k as usize) && 0 <= k < vs.len(),
            None => r is None,
        },
{
    let ghost m = variants_view(vs@);
    let mut i: usize = 0;
    while i < vs.len()
        invariant
            i <= vs.len(),
            m == variants_view(vs@),
            variant_index_from(m, name@, 0) == variant_index_from(m, name@, i as int),
        decreases vs.len() - i,
    {
        assert(m[i as int].name == vs[i as int].name@);
        if vs[i].name == *name {
            return Some(i);
        }
        i += 1;
    }
    None
}

/// Finds the first struct or enum of a spec under a name.
pub fn find_definition(spec: &Spec, name: &String) -> (r: Option<usize>)
    ensures
        match definition_index_from(spec@, name@, 0) {
            Some(k) => r == Some(k as usize) && 0 <= k < spec.0.len(),
            None => r is None,
        },
{
    let mut i: usize = 0;
    while i < spec.0.len()
        invariant
            i <= spec.0.len(),
            definition_index_from(spec@, name@, 0) == definition_index_from(
                spec@,
                name@,
                i as int,
            ),
        decreases spec.0.len() - i,
    {
        assert(spec@[i as int] == spec.0[i as int]@);
        let found = match &spec.0[i] {
            SpecItem::StructDef(d) => d.name == *name,
            SpecItem::EnumDef(d) => d.name == *name,
            SpecItem::ServiceDef(_) => false,
        };
        if found {
            return Some(i);
        }
        i += 1;
    }
    None
}

/// Decodes a JSON document as a value of an atom.
pub fn atom_from_json(a: AtomType, j: &JsonValue) -> (r: Result<Value, DecodeError>)
    ensures
        match decode_atom(a, j@) {
            Some(v) => r is Ok && r->Ok_0@ == v,
            None => r is Err,
        },
{
    match a {
        AtomType::Empty => match j {
            JsonValue::Null => Ok(Value::Empty),
            _ => Err(DecodeError::Deserialization),
        },
        AtomType::Bool => match j {
            JsonValue::Bool(b) => Ok(Value::Bool(*b)),
            _ => Err(DecodeError::Deserialization),
        },
        AtomType::I32 => match j {
            JsonValue::Number(Number::Integer(n)) => if -2147483648 <= *n && *n <= 2147483647 {
                Ok(Value::Int(*n))
            } else {
                Err(DecodeError::Deserialization)
            },
            _ => Err(DecodeError::Deserialization),
        },
        AtomType::U32 => match j {
            JsonValue::Number(Number::Integer(n)) => if 0 <= *n && *n <= 4294967295 {
                Ok(Value::Int(*n))
            } else {
                Err(DecodeError::Deserialization)
            },
            _ => Err(DecodeError::Deserialization),
        },
        AtomType::U8 => match j {
            JsonValue::Number(Number::Integer(n)) => if 0 <= *n && *n <= 255 {
                Ok(Value::Int(*n))
            } else {
                Err(DecodeError::Deserialization)
            },
            _ => Err(DecodeError::Deserialization),
        },
        AtomType::F64 => match j {
            JsonValue::Number(Number::Integer(n)) => Ok(Value::Float(Number::Integer(*n))),
            JsonValue::Number(Number::Decimal(s)) => Ok(Value::Float(Number::Decimal(s.clone()))),
            _ => Err(DecodeError::Deserialization),
        },
        AtomType::Str | AtomType::Uuid | AtomType::DateTime | AtomType::Date => match j {
            JsonValue::Text(s) => Ok(Value::Text(s.clone())),
            _ => Err(DecodeError::Deserialization),
        },
        AtomType::Bytes => match j {
            JsonValue::Text(s) => match deser_bytes(s.as_str()) {
                Ok(b) => Ok(Value::Bytes(b)),
                Err(_) => Err(DecodeError::Deserialization),
            },
            _ => Err(DecodeError::Deserialization),
        },
    }
}

/// Decodes a JSON document as a value of a type of a spec.
pub fn from_json(spec: &Spec, ty: &TypeIdent, j: &JsonValue) -> (r: Result<Value, DecodeError>)
    ensures
        match decode(spec@, ty@, j@) {
            Some(v) => r is Ok && r->Ok_0@ == v,
            None => r is Err,
        },
    decreases j, option_depth(ty@) + 1,
{
    match ty {
        TypeIdent::BuiltIn(a) => atom_from_json(*a, j),
        TypeIdent::List(t) => match j {
            JsonValue::Array(a) => match all_from_json(spec, t, a) {
                Ok(vs) => Ok(Value::List(vs)),
                Err(e) => Err(e),
            },
            _ => Err(DecodeError::Deserialization),
        },
        TypeIdent::Option(t) => match j {
            JsonValue::Null => Ok(Value::Optional(None)),
            _ => match from_json(spec, t, j) {
                Ok(v) => Ok(Value::Optional(Some(Box::new(v)))),
                Err(e) => Err(e),
            },
        },
        TypeIdent::Result(o, e) => match j {
            JsonValue::Object(m) => {
                if m.len() != 1 {
                    return Err(DecodeError::Deserialization);
                }
                proof {
                    vstd::std_specs::vec::axiom_vec_index_decreases(*m, 0);
                    assert(json_members_model(*m)[0].key == m[0].key@);
                }
                if m[0].key == String::from_str("Ok") {
                    match from_json(spec, o, &m[0].value) {
                        Ok(v) => Ok(Value::Outcome(Ok(Box::new(v)))),
                        Err(e) => Err(e),
                    }
                } else if m[0].key == String::from_str("Err") {
                    match from_json(spec, e, &m[0].value) {
                        Ok(v) => Ok(Value::Outcome(Err(Box::new(v)))),
                        Err(e) => Err(e),
                    }
                } else {
                    Err(DecodeError::Deserialization)
                }
            },
            _ => Err(DecodeError::Deserialization),
        },
        TypeIdent::Mapping(_, v) => match j {
            JsonValue::Object(m) => match entries_from_json(spec, v, m) {
                Ok(ms) => Ok(Value::Mapping(ms)),
                Err(e) => Err(e),
            },
            _ => Err(DecodeError::Deserialization),
        },
        TypeIdent::Tuple(d) => match j {
            JsonValue::Array(a) => {
                assert(ty@->Tuple_0 =~= crate::ast::types_view(d.0@));
                match each_from_json(spec, &d.0, a) {
                    Ok(vs) => Ok(Value::Tuple(vs)),
                    Err(e) => Err(e),
                }
            },
            _ => Err(DecodeError::Deserialization),
        },
        TypeIdent::UserDefined(n) => match find_definition(spec, n) {
            None => Err(DecodeError::Deserialization),
            Some(k) => {
                assert(spec@[k as int] == spec.0[k as int]@);
                match &spec.0[k] {
                    SpecItem::StructDef(d) => match j {
                        JsonValue::Object(m) => match fields_from_json(spec, &d.fields.0, m) {
                            Ok(ms) => Ok(Value::Struct(ms)),
                            Err(e) => Err(e),
                        },
                        _ => Err(DecodeError::Deserialization),
                    },
                    SpecItem::EnumDef(d) => variant_from_json(spec, &d.variants, j),
                    SpecItem::ServiceDef(_) => Err(DecodeError::Deserialization),
                }
            },
        },
    }
}

/// Decodes the elements of an array as values of one type.
pub fn all_from_json(spec: &Spec, ty: &TypeIdent, a: &Vec<JsonValue>) -> (r: Result<
    Vec<Value>,
    DecodeError,
>)
    ensures
        match decode_all(spec@, ty@, jsons_model(*a)) {
            Some(vs) => r is Ok && values_model(r->Ok_0) == vs,
            None => r is Err,
        },
    decreases a, 0nat,
{
    let ghost jm = jsons_model(*a);
    let mut out: Vec<Value> = Vec::new();
    let mut i: usize = 0;
    while i < a.len()
        invariant
            i <= a.len(),
            jm == jsons_model(*a),
            out.len() == i,
            forall|k: int|
                0 <= k < i ==> decode(spec@, ty@, #[trigger] jm[k]) is Some && out[k]@ == decode(
                    spec@,
                    ty@,
                    jm[k],
                )->Some_0,
        decreases a.len() - i,
    {
        proof {
            vstd::std_specs::vec::axiom_vec_index_decreases(*a, i as int);
            assert(jm[i as int] == a[i as int]@);
        }
        match from_json(spec, ty, &a[i]) {
            Ok(v) => {
                out.push(v);
            },
            Err(e) => {
                assert(decode(spec@, ty@, jm[i as int]) is None);
                return Err(e);
            },
        }
        i += 1;
    }
    assert(values_model(out) =~= decode_all(spec@, ty@, jm)->Some_0);
    Ok(out)
}

/// Decodes the elements of an array as the elements of a tuple.
pub fn each_from_json(spec: &Spec, ts: &Vec<TypeIdent>, a: &Vec<JsonValue>) -> (r: Result<
    Vec<Value>,
    DecodeError,
>)
    ensures
        match decode_each(spec@, crate::ast::types_view(ts@), jsons_model(*a)) {
            Some(vs) => r is Ok && values_model(r->Ok_0) == vs,
            None => r is Err,
        },
    decreases a, 0nat,
{
    let ghost jm = jsons_model(*a);
    let ghost tm = crate::ast::types_view(ts@);
    if a.len() != ts.len() {
        return Err(DecodeError::Deserialization);
    }
    let mut out: Vec<Value> = Vec::new();
    let mut i: usize = 0;
    while i < a.len()
        invariant
            i <= a.len(),
            a.len() == ts.len(),
            jm == jsons_model(*a),
            tm == crate::ast::types_view(ts@),
            out.len() == i,
            forall|k: int|
                0 <= k < i ==> decode(spec@, tm[k], #[trigger] jm[k]) is Some && out[k]@ == decode(
                    spec@,
                    tm[k],
                    jm[k],
                )->Some_0,
        decreases a.len() - i,
    {
        proof {
            vstd::std_specs::vec::axiom_vec_index_decreases(*a, i as int);
            assert(jm[i as int] == a[i as int]@);
            assert(tm[i as int] == ts[i as int]@);
        }
        match from_json(spec, &ts[i], &a[i]) {
            Ok(v) => {
                out.push(v);
            },
            Err(e) => {
                assert(decode(spec@, tm[i as int], jm[i as int]) is None);
                return Err(e);
            },
        }
        i += 1;
    }
    assert(values_model(out) =~= decode_each(spec@, tm, jm)->Some_0);
    Ok(out)
}

/// Decodes the members of an object as the entries of a map.
pub fn entries_from_json(spec: &Spec, ty: &TypeIdent, m: &Vec<JsonMember>) -> (r: Result<
    Vec<Member>,
    DecodeError,
>)
    ensures
        match decode_entries(spec@, ty@, json_members_model(*m)) {
            Some(ms) => r is Ok && members_model(r->Ok_0) == ms,
            None => r is Err,
        },
    decreases m, 0nat,
{
    let ghost jm = json_members_model(*m);
    let mut out: Vec<Member> = Vec::new();
    let mut i: usize = 0;
    while i < m.len()
        invariant
            i <= m.len(),
            jm == json_members_model(*m),
            out.len() == i,
            forall|k: int|
                0 <= k < i ==> decode(spec@, ty@, (#[trigger] jm[k]).value) is Some && out[k].name@
                    == jm[k].key && out[k].value@ == decode(spec@, ty@, jm[k].value)->Some_0,
        decreases m.len() - i,
    {
        proof {
            vstd::std_specs::vec::axiom_vec_index_decreases(*m, i as int);
            assert(jm[i as int].value == m[i as int].value@);
            assert(jm[i as int].key == m[i as int].key@);
        }
        match from_json(spec, ty, &m[i].value) {
            Ok(v) => {
                out.push(Member { name: m[i].key.clone(), value: v });
            },
            Err(e) => {
                assert(decode(spec@, ty@, jm[i as int].value) is None);
                return Err(e);
            },
        }
        i += 1;
    }
    assert(members_model(out) =~= decode_entries(spec@, ty@, jm)->Some_0);
    Ok(out)
}

/// Decodes one field of a struct from the members of an object.
pub fn field_from_json(spec: &Spec, f: &FieldNode, m: &Vec<JsonMember>) -> (r: Result<
    Value,
    DecodeError,
>)
    ensures
        match decode_field(spec@, f@, json_members_model(*m)) {
            Some(v) => r is Ok && r->Ok_0@ == v,
            None => r is Err,
        },
    decreases m, 0nat,
{
    match find_member(m, &f.pair.name) {
        Some(k) => {
            proof {
                vstd::std_specs::vec::axiom_vec_index_decreases(*m, k as int);
                assert(json_members_model(*m)[k as int].value == m[k as int].value@);
            }
            from_json(spec, &f.pair.type_ident, &m[k].value)
        },
        None => match &f.pair.type_ident {
            TypeIdent::Option(_) => Ok(Value::Optional(None)),
            _ => Err(DecodeError::Deserialization),
        },
    }
}

/// Decodes the members of an object as the fields of a struct.
pub fn fields_from_json(spec: &Spec, fields: &Vec<FieldNode>, m: &Vec<JsonMember>) -> (r: Result<
    Vec<Member>,
    DecodeError,
>)
    ensures
        match decode_fields(spec@, fields_view(fields@), json_members_model(*m)) {
            Some(ms) => r is Ok && members_model(r->Ok_0) == ms,
            None => r is Err,
        },
    decreases m, 1nat,
{
    let ghost jm = json_members_model(*m);
    let ghost fm = fields_view(fields@);
    let mut out: Vec<Member> = Vec::new();
    let mut i: usize = 0;
    while i < fields.len()
        invariant
            i <= fields.len(),
            jm == json_members_model(*m),
            fm == fields_view(fields@),
            out.len() == i,
            forall|k: int|
                0 <= k < i ==> decode_field(spec@, #[trigger] fm[k], jm) is Some && out[k].name@
                    == fm[k].pair.name && out[k].value@ == decode_field(spec@, fm[k], jm)->Some_0,
        decreases fields.len() - i,
    {
        assert(fm[i as int] == fields[i as int]@);
        match field_from_json(spec, &fields[i], m) {
            Ok(v) => {
                out.push(Member { name: fields[i].pair.name.clone(), value: v });
            },
            Err(e) => {
                assert(decode_field(spec@, fm[i as int], jm) is None);
                return Err(e);
            },
        }
        i += 1;
    }
    assert(members_model(out) =~= decode_fields(spec@, fm, jm)->Some_0);
    Ok(out)
}

/// Decodes a JSON document as a variant of an enum.
pub fn variant_from_json(spec: &Spec, variants: &Vec<VariantDef>, j: &JsonValue) -> (r: Result<
    Value,
    DecodeError,
>)
    ensures
        match decode_variant(spec@, variants_view(variants@), j@) {
            Some(v) => r is Ok && r->Ok_0@ == v,
            None => r is Err,
        },
    decreases j, 0nat,
{
    match j {
        JsonValue::Text(name) => match find_variant(variants, name) {
            Some(k) => {
                assert(variants_view(variants@)[k as int] == variants[k as int]@);
                match &variants[k].variant_type {
                    VariantType::Simple => Ok(Value::Variant(name.clone(), Payload::Simple)),
                    _ => Err(DecodeError::Deserialization),
                }
            },
            None => Err(DecodeError::Deserialization),
        },
        JsonValue::Object(m) => {
            if m.len() != 1 {
                return Err(DecodeError::Deserialization);
            }
            proof {
                vstd::std_specs::vec::axiom_vec_index_decreases(*m, 0);
                assert(json_members_model(*m)[0].key == m[0].key@);
                assert(json_members_model(*m)[0].value == m[0].value@);
            }
            match find_variant(variants, &m[0].key) {
                Some(k) => {
                    assert(variants_view(variants@)[k as int] == variants[k as int]@);
                    match payload_from_json(spec, &variants[k].variant_type, &m[0].value) {
                        Ok(p) => Ok(Value::Variant(m[0].key.clone(), p)),
                        Err(e) => Err(e),
                    }
                },
                None => Err(DecodeError::Deserialization),
            }
        },
        _ => Err(DecodeError::Deserialization),
    }
}

/// The mathematical value of a payload.
pub open spec fn payload_model(p: Payload) -> PayloadModel {
    match p {
        Payload::Simple => PayloadModel::Simple,
        Payload::Tuple(l) => PayloadModel::Tuple(values_model(l)),
        Payload::Struct(m) => PayloadModel::Struct(members_model(m)),
        Payload::Newtype(x) => PayloadModel::Newtype(Box::new(value_model(*x))),
    }
}

/// Decodes a JSON document as the payload of a variant that is not simple.
pub fn payload_from_json(spec: &Spec, vt: &VariantType, j: &JsonValue) -> (r: Result<
    Payload,
    DecodeError,
>)
    ensures
        match decode_payload(spec@, vt@, j@) {
            Some(p) => r is Ok && payload_model(r->Ok_0) == p,
            None => r is Err,
        },
    decreases j, payload_rank(vt@),
{
    match vt {
        VariantType::Simple => Err(DecodeError::Deserialization),
        VariantType::Tuple(d) => match j {
            JsonValue::Array(a) => match each_from_json(spec, &d.0, a) {
                Ok(vs) => Ok(Payload::Tuple(vs)),
                Err(e) => Err(e),
            },
            _ => Err(DecodeError::Deserialization),
        },
        VariantType::Struct(f) => match j {
            JsonValue::Object(m) => match fields_from_json(spec, &f.0, m) {
                Ok(ms) => Ok(Payload::Struct(ms)),
                Err(e) => Err(e),
            },
            _ => Err(DecodeError::Deserialization),
        },
        VariantType::Newtype(t) => match from_json(spec, t, j) {
            Ok(v) => Ok(Payload::Newtype(Box::new(v))),
            Err(e) => Err(e),
        },
    }
}

} // verus!
