//! Decoding of a query string into the struct that a route binds to it.
//!
//! The query string arrives taken apart into its parameters. A field that
//! is a string, a UUID, bytes or an integer is read from the text of its
//! parameter; any other field is read from the JSON document that the text
//! of its parameter holds.

use crate::ast::{fields_view, AtomType, FieldModel, FieldNode, ItemModel, Spec, TypeIdent, TypeModel};
use crate::deser_helpers::{integer_model, parse_integer};
use crate::server::{RuntimeError, RuntimeErrorModel};
use crate::wire::{
    base64_bytes, deser_bytes, members_model, JsonModel, JsonValue, Member, MemberModel, Value,
    ValueModel,
};
use crate::wire_decode::{decode, from_json};
use vstd::prelude::*;
use vstd::string::StringExecFns;

verus! {

/// A parameter of a query string, percent-decoded: its name, its text, and
/// the JSON document that the text holds, or the message of the JSON reader
/// where it holds none.
#[derive(Debug, PartialEq, Eq)]
pub struct QueryEntry {
    pub name: String,
    pub value: String,
    pub json: Result<JsonValue, String>,
}

/// The mathematical value of a `QueryEntry`.
pub struct EntryModel {
    pub name: Seq<char>,
    pub value: Seq<char>,
    pub json: Result<JsonModel, Seq<char>>,
}

impl View for QueryEntry {
    type V = EntryModel;

    open spec fn view(&self) -> EntryModel {
        EntryModel {
            name: self.name@,
            value: self.value@,
            json: match self.json {
                Ok(j) => Ok(j@),
                Err(m) => Err(m@),
            },
        }
    }
}

/// The values of a list of query entries, in order.
pub open spec fn entries_view(v: Seq<QueryEntry>) -> Seq<EntryModel> {
    Seq::new(v.len(), |i: int| v[i]@)
}

/// The index of the first entry from `k` on whose name is `name`.
pub open spec fn entry_index_from(e: Seq<EntryModel>, name: Seq<char>, k: int) -> Option<int>
    decreases e.len() - k,
{
    if k < 0 || k >= e.len() {
        None
    } else if e[k].name == name {
        Some(k)
    } else {
        entry_index_from(e, name, k + 1)
    }
}

/// The message for a JSON document that is no value of the type expected.
pub open spec fn not_of_type() -> Seq<char> {
    "invalid value for the type of the field"@
}

/// The message for a field that the query string does not hold.
pub open spec fn missing_field() -> Seq<char> {
    "missing field"@
}

/// What a query parameter decodes to as a value of a type.
pub open spec fn query_value_model(spec: Seq<ItemModel>, ty: TypeModel, e: EntryModel) -> Result<
    ValueModel,
    Seq<char>,
> {
    match ty {
        TypeModel::BuiltIn(AtomType::Str) => Ok(ValueModel::Text(e.value)),
        TypeModel::BuiltIn(AtomType::Uuid) => Ok(ValueModel::Text(e.value)),
        TypeModel::BuiltIn(AtomType::Bytes) => match base64_bytes(e.value) {
            Ok(b) => Ok(ValueModel::Bytes(b)),
            Err(m) => Err(m),
        },
        TypeModel::BuiltIn(AtomType::I32) => match integer_model(
            e.value,
            true,
            -2147483648,
            2147483647,
        ) {
            Ok(v) => Ok(ValueModel::Int(v as i64)),
            Err(m) => Err(m),
        },
        TypeModel::BuiltIn(AtomType::U32) => match integer_model(e.value, false, 0, 4294967295) {
            Ok(v) => Ok(ValueModel::Int(v as i64)),
            Err(m) => Err(m),
        },
        TypeModel::BuiltIn(AtomType::U8) => match integer_model(e.value, false, 0, 255) {
            Ok(v) => Ok(ValueModel::Int(v as i64)),
            Err(m) => Err(m),
        },
        _ => match e.json {
            Err(m) => Err(m),
            Ok(j) => match decode(spec, ty, j) {
                Some(v) => Ok(v),
                None => Err(not_of_type()),
            },
        },
    }
}

/// What a field of the query struct decodes to: the value of the first
/// parameter under its name; nothing, for an option without a parameter; a
/// failure, for any other field without one.
pub open spec fn query_field_model(spec: Seq<ItemModel>, f: FieldModel, e: Seq<EntryModel>)
    -> Result<ValueModel, Seq<char>> {
    match entry_index_from(e, f.pair.name, 0) {
        Some(k) => if 0 <= k < e.len() {
            query_value_model(spec, f.pair.type_ident, e[k])
        } else {
            Err(missing_field())
        },
        None => if f.pair.type_ident is Optional {
            Ok(ValueModel::Optional(None))
        } else {
            Err(missing_field())
        },
    }
}

/// What the first `n` fields of the query struct decode to, in order, or
/// the failure of the first field that does not decode.
pub open spec fn query_struct_model(
    spec: Seq<ItemModel>,
    fields: Seq<FieldModel>,
    e: Seq<EntryModel>,
    n: nat,
) -> Result<Seq<MemberModel>, Seq<char>>
    decreases n,
{
    if n == 0 || n > fields.len() {
        Ok(Seq::empty())
    } else {
        match query_struct_model(spec, fields, e, (n - 1) as nat) {
            Err(m) => Err(m),
            Ok(members) => match query_field_model(spec, fields[n - 1], e) {
                Err(m) => Err(m),
                Ok(v) => Ok(members.push(MemberModel { name: fields[n - 1].pair.name, value: v })),
            },
        }
    }
}

/// The failure of an earlier field is the failure of the whole struct.
proof fn query_failure_stands(
    spec: Seq<ItemModel>,
    fields: Seq<FieldModel>,
    e: Seq<EntryModel>,
    k: nat,
    n: nat,
)
    requires
        query_struct_model(spec, fields, e, k) is Err,
        k <= n <= fields.len(),
    ensures
        query_struct_model(spec, fields, e, n) == query_struct_model(spec, fields, e, k),
    decreases n,
{
    if k < n {
        query_failure_stands(spec, fields, e, k, (n - 1) as nat);
    }
}

/// Finds the first query entry under a name.
pub fn find_entry(entries: &Vec<QueryEntry>, name: &String) -> (r: Option<usize>)
    ensures
        match entry_index_from(entries_view(entries@), name@, 0) {
            Some(k) => r == Some(k as usize) && 0 <= k < entries.len(),
            None => r is None,
        },
{
    let ghost e = entries_view(entries@);
    let mut i: usize = 0;
    while i < entries.len()
        invariant
            i <= entries.len(),
            e == entries_view(entries@),
            entry_index_from(e, name@, 0) == entry_index_from(e, name@, i as int),
        decreases entries.len() - i,
    {
        assert(e[i as int].name == entries[i as int].name@);
        if entries[i].name == *name {
            return Some(i);
        }
        i += 1;
    }
    None
}

/// Decodes a query parameter as a value of a type.
pub fn query_value(spec: &Spec, ty: &TypeIdent, entry: &QueryEntry) -> (r: Result<Value, String>)
    ensures
        match query_value_model(spec@, ty@, entry@) {
            Ok(v) => r is Ok && r->Ok_0@ == v,
            Err(m) => r is Err && r->Err_0@ == m,
        },
{
    match ty {
        TypeIdent::BuiltIn(AtomType::Str) => Ok(Value::Text(entry.value.clone())),
        TypeIdent::BuiltIn(AtomType::Uuid) => Ok(Value::Text(entry.value.clone())),
        TypeIdent::BuiltIn(AtomType::Bytes) => match deser_bytes(entry.value.as_str()) {
            Ok(b) => Ok(Value::Bytes(b)),
            Err(m) => Err(m),
        },
        TypeIdent::BuiltIn(AtomType::I32) => match parse_integer(
            entry.value.as_str(),
            true,
            -2147483648,
            2147483647,
        ) {
            Ok(v) => Ok(Value::Int(v)),
            Err(m) => Err(m),
        },
        TypeIdent::BuiltIn(AtomType::U32) => match parse_integer(
            entry.value.as_str(),
            false,
            0,
            4294967295,
        ) {
            Ok(v) => Ok(Value::Int(v)),
            Err(m) => Err(m),
        },
        TypeIdent::BuiltIn(AtomType::U8) => match parse_integer(entry.value.as_str(), false, 0, 255) {
            Ok(v) => Ok(Value::Int(v)),
            Err(m) => Err(m),
        },
        _ => match &entry.json {
            Err(m) => Err(m.clone()),
            Ok(j) => match from_json(spec, ty, j) {
                Ok(v) => Ok(v),
                Err(_) => Err(String::from_str("invalid value for the type of the field")),
            },
        },
    }
}

/// Decodes one field of the query struct from the parameters.
pub fn query_field(spec: &Spec, f: &FieldNode, entries: &Vec<QueryEntry>) -> (r: Result<
    Value,
    String,
>)
    ensures
        match query_field_model(spec@, f@, entries_view(entries@)) {
            Ok(v) => r is Ok && r->Ok_0@ == v,
            Err(m) => r is Err && r->Err_0@ == m,
        },
{
    match find_entry(entries, &f.pair.name) {
        Some(k) => {
            assert(entries_view(entries@)[k as int] == entries[k as int]@);
            query_value(spec, &f.pair.type_ident, &entries[k])
        },
        None => match &f.pair.type_ident {
            TypeIdent::Option(_) => Ok(Value::Optional(None)),
            _ => Err(String::from_str("missing field")),
        },
    }
}

/// Decodes the parameters of a query string into the struct with the given
/// fields. The first field that does not decode makes the query invalid,
/// with its message.
pub fn deser_query_serde_urlencoded(
    spec: &Spec,
    fields: &Vec<FieldNode>,
    entries: &Vec<QueryEntry>,
) -> (r: Result<Value, RuntimeError>)
    ensures
        match query_struct_model(
            spec@,
            fields_view(fields@),
            entries_view(entries@),
            fields.len() as nat,
        ) {
            Ok(members) => r is Ok && r->Ok_0@ == ValueModel::Struct(members),
            Err(m) => r is Err && r->Err_0@ == RuntimeErrorModel::QueryInvalid(m),
        },
{
    let ghost fm = fields_view(fields@);
    let ghost em = entries_view(entries@);
    let mut out: Vec<Member> = Vec::new();
    let mut i: usize = 0;
    assert(members_model(out) =~= Seq::<MemberModel>::empty());
    while i < fields.len()
        invariant
            i <= fields.len(),
            fm == fields_view(fields@),
            em == entries_view(entries@),
            query_struct_model(spec@, fm, em, i as nat) == Ok::<_, Seq<char>>(members_model(out)),
        decreases fields.len() - i,
    {
        assert(fm[i as int] == fields[i as int]@);
        match query_field(spec, &fields[i], entries) {
            Err(m) => {
                proof {
                    query_failure_stands(spec@, fm, em, (i + 1) as nat, fm.len());
                }
                return Err(RuntimeError::QueryInvalid(m));
            },
            Ok(v) => {
                let ghost prev = members_model(out);
                let member = Member { name: fields[i].pair.name.clone(), value: v };
                out.push(member);
                assert(members_model(out) =~= prev.push(
                    MemberModel { name: fm[i as int].pair.name, value: v@ },
                ));
            },
        }
        i += 1;
    }
    let r = Value::Struct(out);
    Ok(r)
}

} // verus!
