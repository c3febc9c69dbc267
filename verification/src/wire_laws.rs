//! What holds of the canonical JSON encoding, whatever the value.

use crate::ast::{AtomType, FieldModel, ItemModel, TypeModel, VariantModel, VariantTypeModel};
use crate::wire::{
    base64_bytes, base64_text, encode, encode_all, encode_members, single, JsonMemberModel, JsonModel, MemberModel,
    PayloadModel, ValueModel,
};
use crate::wire_decode::{
    decode, decode_all, decode_each, decode_entries, decode_field, decode_fields, decode_payload,
    decode_variant, definition_index_from, in_range, member_index_from, variant_index_from,
};
use vstd::prelude::*;

verus! {

/// Whether no two fields of a list share a name.
pub open spec fn distinct_names(fields: Seq<FieldModel>) -> bool {
    forall|a: int, b: int|
        0 <= a < fields.len() && 0 <= b < fields.len() && a != b ==> fields[a].pair.name
            != fields[b].pair.name
}

/// Whether a value is a value of an atom. Bytes count where their base64
/// text decodes to them again, which is the word of the codec.
pub open spec fn atom_has(a: AtomType, v: ValueModel) -> bool {
    match a {
        AtomType::Empty => v is Empty,
        AtomType::Bool => v is Bool,
        AtomType::I32 | AtomType::U32 | AtomType::U8 => v is Int && in_range(a, v->Int_0),
        AtomType::F64 => v is Float,
        AtomType::Str | AtomType::Uuid | AtomType::DateTime | AtomType::Date => v is Text,
        AtomType::Bytes => v is Bytes && base64_bytes(base64_text(v->Bytes_0)) == Ok::<
            Seq<u8>,
            Seq<char>,
        >(v->Bytes_0),
    }
}

/// Whether a value is one that a type of a spec describes, and that the
/// encoding can tell apart from every other such value.
///
/// The value under an option must not itself encode to `null`; the fields of
/// a struct must be the declared ones in their order, under names that are
/// all different; a variant must be one that the enum declares, with a
/// payload of its kind.
pub open spec fn has_type(spec: Seq<ItemModel>, ty: TypeModel, v: ValueModel) -> bool
    decreases v, 0nat,
{
    match ty {
        TypeModel::BuiltIn(a) => atom_has(a, v),
        TypeModel::List(t) => match v {
            ValueModel::List(l) => forall|i: int|
                0 <= i < l.len() ==> has_type(spec, *t, #[trigger] l[i]),
            _ => false,
        },
        TypeModel::Optional(t) => match v {
            ValueModel::Optional(None) => true,
            ValueModel::Optional(Some(x)) => has_type(spec, *t, *x) && !(encode(*x) is Null),
            _ => false,
        },
        TypeModel::Either(o, e) => match v {
            ValueModel::Outcome(Ok(x)) => has_type(spec, *o, *x),
            ValueModel::Outcome(Err(x)) => has_type(spec, *e, *x),
            _ => false,
        },
        TypeModel::Dict(_, t) => match v {
            ValueModel::Mapping(m) => forall|i: int|
                0 <= i < m.len() ==> has_type(spec, *t, (#[trigger] m[i]).value),
            _ => false,
        },
        TypeModel::Tuple(ts) => match v {
            ValueModel::Tuple(l) => tuple_has(spec, ts, l),
            _ => false,
        },
        TypeModel::UserDefined(n) => match definition_index_from(spec, n, 0) {
            Some(k) => 0 <= k < spec.len() && match spec[k] {
                ItemModel::StructDef { fields, .. } => match v {
                    ValueModel::Struct(m) => struct_has(spec, fields, m),
                    _ => false,
                },
                ItemModel::EnumDef { variants, .. } => match v {
                    ValueModel::Variant(name, p) => match variant_index_from(variants, name, 0) {
                        Some(i) => 0 <= i < variants.len() && payload_has(
                            spec,
                            variants[i].variant_type,
                            p,
                        ),
                        None => false,
                    },
                    _ => false,
                },
                ItemModel::ServiceDef { .. } => false,
            },
            None => false,
        },
    }
}

/// Whether values are the elements of a tuple of the given types.
pub open spec fn tuple_has(spec: Seq<ItemModel>, ts: Seq<TypeModel>, l: Seq<ValueModel>) -> bool
    decreases l, 1nat,
{
    l.len() == ts.len() && forall|i: int| 0 <= i < l.len() ==> has_type(spec, ts[i], #[trigger] l[i])
}

/// Whether members are the fields of a struct with the given field list.
pub open spec fn struct_has(spec: Seq<ItemModel>, fields: Seq<FieldModel>, m: Seq<MemberModel>)
    -> bool
    decreases m, 1nat,
{
    &&& m.len() == fields.len()
    &&& distinct_names(fields)
    &&& forall|i: int|
        0 <= i < m.len() ==> (#[trigger] m[i]).name == fields[i].pair.name && has_type(
            spec,
            fields[i].pair.type_ident,
            m[i].value,
        )
}

/// Whether a payload is one of a variant of the given kind.
pub open spec fn payload_has(spec: Seq<ItemModel>, vt: VariantTypeModel, p: PayloadModel) -> bool
    decreases p, 2nat,
{
    match vt {
        VariantTypeModel::Simple => p is Simple,
        VariantTypeModel::Tuple(ts) => match p {
            PayloadModel::Tuple(l) => tuple_has(spec, ts, l),
            _ => false,
        },
        VariantTypeModel::Struct(fields) => match p {
            PayloadModel::Struct(m) => struct_has(spec, fields, m),
            _ => false,
        },
        VariantTypeModel::Newtype(t) => match p {
            PayloadModel::Newtype(x) => has_type(spec, t, *x),
            _ => false,
        },
    }
}

/// Among members with keys that are all different, each is the first under
/// its key.
pub proof fn member_is_first_under_its_key(m: Seq<JsonMemberModel>, i: int, k: int)
    requires
        0 <= k <= i < m.len(),
        forall|a: int, b: int| 0 <= a < m.len() && 0 <= b < m.len() && a != b ==> m[a].key != m[b].key,
    ensures
        member_index_from(m, m[i].key, k) == Some(i),
    decreases i - k,
{
    if k < i {
        member_is_first_under_its_key(m, i, k + 1);
    }
}

/// The elements of a tuple come back from their encodings.
pub proof fn tuple_round_trip(spec: Seq<ItemModel>, ts: Seq<TypeModel>, l: Seq<ValueModel>)
    requires
        tuple_has(spec, ts, l),
    ensures
        decode_each(spec, ts, encode_all(l)) == Some(l),
    decreases l, 1nat,
{
    let a = encode_all(l);
    assert forall|i: int| 0 <= i < a.len() implies decode(spec, ts[i], #[trigger] a[i]) == Some(
        l[i],
    ) by {
        round_trip(spec, ts[i], l[i]);
    }
    assert(decode_each(spec, ts, a)->Some_0 =~= l);
}

/// The fields of a struct come back from their encodings.
pub proof fn struct_round_trip(spec: Seq<ItemModel>, fields: Seq<FieldModel>, m: Seq<MemberModel>)
    requires
        struct_has(spec, fields, m),
    ensures
        decode_fields(spec, fields, encode_members(m)) == Some(m),
    decreases m, 1nat,
{
    let o = encode_members(m);
    assert forall|a: int, b: int| 0 <= a < o.len() && 0 <= b < o.len() && a != b implies o[a].key
        != o[b].key by {
        assert(o[a].key == m[a].name);
        assert(o[b].key == m[b].name);
    }
    assert forall|i: int| 0 <= i < fields.len() implies decode_field(spec, #[trigger] fields[i], o)
        == Some(m[i].value) by {
        member_is_first_under_its_key(o, i, 0);
        assert(o[i].key == m[i].name);
        round_trip(spec, fields[i].pair.type_ident, m[i].value);
    }
    assert(decode_fields(spec, fields, o)->Some_0 =~= m);
}

/// The payload of a variant that is not simple comes back from its encoding.
pub proof fn payload_round_trip(spec: Seq<ItemModel>, vt: VariantTypeModel, p: PayloadModel)
    requires
        payload_has(spec, vt, p),
        !(p is Simple),
    ensures
        decode_payload(spec, vt, payload_json(p)) == Some(p),
    decreases p, 2nat,
{
    match p {
        PayloadModel::Simple => {},
        PayloadModel::Tuple(l) => {
            tuple_round_trip(spec, vt->Tuple_0, l);
        },
        PayloadModel::Struct(m) => {
            struct_round_trip(spec, vt->Struct_0, m);
        },
        PayloadModel::Newtype(x) => {
            round_trip(spec, vt->Newtype_0, *x);
        },
    }
}

/// What stands under the name of a variant that is not simple.
pub open spec fn payload_json(p: PayloadModel) -> JsonModel {
    match p {
        PayloadModel::Simple => JsonModel::Null,
        PayloadModel::Tuple(l) => JsonModel::Array(encode_all(l)),
        PayloadModel::Struct(m) => JsonModel::Object(encode_members(m)),
        PayloadModel::Newtype(x) => encode(*x),
    }
}

/// Decoding undoes encoding: a value of a type, encoded and then decoded as
/// a value of that type, comes back as it was.
pub proof fn round_trip(spec: Seq<ItemModel>, ty: TypeModel, v: ValueModel)
    requires
        has_type(spec, ty, v),
    ensures
        decode(spec, ty, encode(v)) == Some(v),
    decreases v, 0nat,
{
    match ty {
        TypeModel::BuiltIn(_) => {},
        TypeModel::List(t) => {
            let l = v->List_0;
            let a = encode_all(l);
            assert forall|i: int| 0 <= i < a.len() implies decode(spec, *t, #[trigger] a[i])
                == Some(l[i]) by {
                round_trip(spec, *t, l[i]);
            }
            assert(decode_all(spec, *t, a)->Some_0 =~= l);
        },
        TypeModel::Optional(t) => {
            match v {
                ValueModel::Optional(Some(x)) => {
                    round_trip(spec, *t, *x);
                },
                _ => {},
            }
        },
        TypeModel::Either(o, e) => {
            match v {
                ValueModel::Outcome(Ok(x)) => {
                    round_trip(spec, *o, *x);
                    reveal_strlit("Ok");
                    reveal_strlit("Err");
                },
                ValueModel::Outcome(Err(x)) => {
                    round_trip(spec, *e, *x);
                    reveal_strlit("Ok");
                    reveal_strlit("Err");
                    assert("Ok"@ != "Err"@) by {
                        assert("Ok"@.len() == 2);
                        assert("Err"@.len() == 3);
                    }
                },
                _ => {},
            }
        },
        TypeModel::Dict(_, t) => {
            let m = v->Mapping_0;
            let o = encode_members(m);
            assert forall|i: int| 0 <= i < o.len() implies decode(spec, *t, (#[trigger] o[i]).value)
                == Some(m[i].value) by {
                round_trip(spec, *t, m[i].value);
            }
            assert(decode_entries(spec, *t, o)->Some_0 =~= m);
        },
        TypeModel::Tuple(ts) => {
            tuple_round_trip(spec, ts, v->Tuple_0);
        },
        TypeModel::UserDefined(n) => {
            let k = definition_index_from(spec, n, 0)->Some_0;
            match spec[k] {
                ItemModel::StructDef { fields, .. } => {
                    struct_round_trip(spec, fields, v->Struct_0);
                },
                ItemModel::EnumDef { variants, .. } => {
                    let name = v->Variant_0;
                    let p = v->Variant_1;
                    let i = variant_index_from(variants, name, 0)->Some_0;
                    assert(payload_has(spec, variants[i].variant_type, p));
                    if !(p is Simple) {
                        payload_round_trip(spec, variants[i].variant_type, p);
                        assert(encode(v) == single(name, payload_json(p)));
                    }
                    assert(decode_variant(spec, variants, encode(v)) == Some(v));
                },
                ItemModel::ServiceDef { .. } => {},
            }
        },
    }
}

/// A simple variant encodes to a bare string, its name; any other variant
/// encodes to an object with one key, its name.
pub proof fn variant_shape(name: Seq<char>, p: PayloadModel)
    ensures
        p is Simple ==> encode(ValueModel::Variant(name, p)) == JsonModel::Text(name),
        !(p is Simple) ==> encode(ValueModel::Variant(name, p)) == single(name, payload_json(p)),
{
}

/// Decoding a variant accepts the shape of its kind and no other: a string
/// only for a simple variant that the enum declares under that name, an
/// object only with one key that names a declared variant that is not simple,
/// and nothing else. What comes out is the variant of that name, with a
/// payload of the declared kind.
pub proof fn variant_decoding_is_strict(
    spec: Seq<ItemModel>,
    variants: Seq<VariantModel>,
    j: JsonModel,
)
    requires
        decode_variant(spec, variants, j) is Some,
    ensures
        j is Text || j is Object,
        j is Text ==> {
            let k = variant_index_from(variants, j->Text_0, 0);
            &&& k is Some
            &&& 0 <= k->Some_0 < variants.len()
            &&& variants[k->Some_0].variant_type is Simple
            &&& decode_variant(spec, variants, j) == Some(
                ValueModel::Variant(j->Text_0, PayloadModel::Simple),
            )
        },
        j is Object ==> {
            let m = j->Object_0;
            let k = variant_index_from(variants, m[0].key, 0);
            let v = decode_variant(spec, variants, j)->Some_0;
            &&& m.len() == 1
            &&& k is Some
            &&& 0 <= k->Some_0 < variants.len()
            &&& !(variants[k->Some_0].variant_type is Simple)
            &&& v is Variant
            &&& v->Variant_0 == m[0].key
            &&& same_kind(variants[k->Some_0].variant_type, v->Variant_1)
        },
{
}

/// Whether a payload is of the kind that a variant declares.
pub open spec fn same_kind(vt: VariantTypeModel, p: PayloadModel) -> bool {
    match vt {
        VariantTypeModel::Simple => p is Simple,
        VariantTypeModel::Tuple(_) => p is Tuple,
        VariantTypeModel::Struct(_) => p is Struct,
        VariantTypeModel::Newtype(_) => p is Newtype,
    }
}

} // verus!
