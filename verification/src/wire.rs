//! The canonical JSON encoding of the values that a schema describes.
//!
//! Every consumer of a compiled schema has to agree on this encoding. A
//! struct is an object keyed by its field names. A simple variant of an enum
//! is its name as a string; any other variant is an object with the variant's
//! name as its one key. An option is `null` or its value, bare. A result is
//! an object with the one key `Ok` or `Err`. Lists and tuples are arrays,
//! maps are objects. Bytes travel as base64 text.

use vstd::prelude::*;
use vstd::string::StringExecFns;

verus! {

/// A JSON number: an integer, or the text of a literal that is none.
#[derive(Debug, PartialEq, Eq)]
pub enum Number {
    Integer(i64),
    Decimal(String),
}

/// A JSON document.
#[derive(Debug, PartialEq, Eq)]
pub enum JsonValue {
    Null,
    Bool(bool),
    Number(Number),
    Text(String),
    Array(Vec<JsonValue>),
    Object(Vec<JsonMember>),
}

/// A member of a JSON object.
#[derive(Debug, PartialEq, Eq)]
pub struct JsonMember {
    pub key: String,
    pub value: JsonValue,
}

/// A value of a type of a schema.
#[derive(Debug, PartialEq, Eq)]
pub enum Value {
    /// The value of the empty type.
    Empty,
    Bool(bool),
    /// A value of one of the integer types.
    Int(i64),
    /// A floating-point number, held as the JSON number that writes it.
    Float(Number),
    /// A string, a UUID, a timestamp or a date, as text.
    Text(String),
    Bytes(Vec<u8>),
    List(Vec<Value>),
    Tuple(Vec<Value>),
    /// An option: its value, or nothing.
    Optional(Option<Box<Value>>),
    /// A result: its success or its error.
    Outcome(Result<Box<Value>, Box<Value>>),
    /// A map, as its entries in order.
    Mapping(Vec<Member>),
    /// A struct, as its fields in order.
    Struct(Vec<Member>),
    /// A variant of an enum, by its name, with its payload.
    Variant(String, Payload),
}

/// A named value: a field of a struct, or an entry of a map.
#[derive(Debug, PartialEq, Eq)]
pub struct Member {
    pub name: String,
    pub value: Value,
}

/// What a variant of an enum carries.
#[derive(Debug, PartialEq, Eq)]
pub enum Payload {
    Simple,
    Tuple(Vec<Value>),
    Struct(Vec<Member>),
    Newtype(Box<Value>),
}

/// The mathematical value of a JSON document.
pub enum JsonModel {
    Null,
    Bool(bool),
    Integer(i64),
    Decimal(Seq<char>),
    Text(Seq<char>),
    Array(Seq<JsonModel>),
    Object(Seq<JsonMemberModel>),
}

/// The mathematical value of a member of a JSON object.
pub struct JsonMemberModel {
    pub key: Seq<char>,
    pub value: JsonModel,
}

/// The mathematical value of a number.
pub enum NumberModel {
    Integer(i64),
    Decimal(Seq<char>),
}

/// The mathematical value of a `Value`.
pub enum ValueModel {
    Empty,
    Bool(bool),
    Int(i64),
    Float(NumberModel),
    Text(Seq<char>),
    Bytes(Seq<u8>),
    List(Seq<ValueModel>),
    Tuple(Seq<ValueModel>),
    Optional(Option<Box<ValueModel>>),
    Outcome(Result<Box<ValueModel>, Box<ValueModel>>),
    Mapping(Seq<MemberModel>),
    Struct(Seq<MemberModel>),
    Variant(Seq<char>, PayloadModel),
}

/// The mathematical value of a `Member`.
pub struct MemberModel {
    pub name: Seq<char>,
    pub value: ValueModel,
}

/// The mathematical value of a `Payload`.
pub enum PayloadModel {
    Simple,
    Tuple(Seq<ValueModel>),
    Struct(Seq<MemberModel>),
    Newtype(Box<ValueModel>),
}

impl View for Number {
    type V = NumberModel;

    open spec fn view(&self) -> NumberModel {
        match self {
            Number::Integer(n) => NumberModel::Integer(*n),
            Number::Decimal(s) => NumberModel::Decimal(s@),
        }
    }
}

/// The mathematical value of a JSON document.
pub open spec fn json_model(j: JsonValue) -> JsonModel
    decreases j, 0nat,
{
    match j {
        JsonValue::Null => JsonModel::Null,
        JsonValue::Bool(b) => JsonModel::Bool(b),
        JsonValue::Number(Number::Integer(n)) => JsonModel::Integer(n),
        JsonValue::Number(Number::Decimal(s)) => JsonModel::Decimal(s@),
        JsonValue::Text(s) => JsonModel::Text(s@),
        JsonValue::Array(a) => JsonModel::Array(jsons_model(a)),
        JsonValue::Object(o) => JsonModel::Object(json_members_model(o)),
    }
}

/// The mathematical values of a list of JSON documents.
pub open spec fn jsons_model(a: Vec<JsonValue>) -> Seq<JsonModel>
    decreases a, 1nat,
{
    Seq::new(
        a.len() as nat,
        |i: int|
            if 0 <= i < a.len() {
                json_model(a[i])
            } else {
                JsonModel::Null
            },
    )
}

/// The mathematical values of the members of a JSON object.
pub open spec fn json_members_model(o: Vec<JsonMember>) -> Seq<JsonMemberModel>
    decreases o, 1nat,
{
    Seq::new(
        o.len() as nat,
        |i: int|
            if 0 <= i < o.len() {
                JsonMemberModel { key: o[i].key@, value: json_model(o[i].value) }
            } else {
                JsonMemberModel { key: Seq::empty(), value: JsonModel::Null }
            },
    )
}

/// The mathematical value of a `Value`.
pub open spec fn value_model(v: Value) -> ValueModel
    decreases v, 0nat,
{
    match v {
        Value::Empty => ValueModel::Empty,
        Value::Bool(b) => ValueModel::Bool(b),
        Value::Int(n) => ValueModel::Int(n),
        Value::Float(n) => ValueModel::Float(n@),
        Value::Text(s) => ValueModel::Text(s@),
        Value::Bytes(b) => ValueModel::Bytes(b@),
        Value::List(l) => ValueModel::List(values_model(l)),
        Value::Tuple(l) => ValueModel::Tuple(values_model(l)),
        Value::Optional(None) => ValueModel::Optional(None),
        Value::Optional(Some(x)) => ValueModel::Optional(Some(Box::new(value_model(*x)))),
        Value::Outcome(Ok(x)) => ValueModel::Outcome(Ok(Box::new(value_model(*x)))),
        Value::Outcome(Err(x)) => ValueModel::Outcome(Err(Box::new(value_model(*x)))),
        Value::Mapping(m) => ValueModel::Mapping(members_model(m)),
        Value::Struct(m) => ValueModel::Struct(members_model(m)),
        Value::Variant(name, Payload::Simple) => ValueModel::Variant(name@, PayloadModel::Simple),
        Value::Variant(name, Payload::Tuple(l)) => ValueModel::Variant(
            name@,
            PayloadModel::Tuple(values_model(l)),
        ),
        Value::Variant(name, Payload::Struct(m)) => ValueModel::Variant(
            name@,
            PayloadModel::Struct(members_model(m)),
        ),
        Value::Variant(name, Payload::Newtype(x)) => ValueModel::Variant(
            name@,
            PayloadModel::Newtype(Box::new(value_model(*x))),
        ),
    }
}

/// The mathematical values of a list of values.
pub open spec fn values_model(l: Vec<Value>) -> Seq<ValueModel>
    decreases l, 1nat,
{
    Seq::new(
        l.len() as nat,
        |i: int|
            if 0 <= i < l.len() {
                value_model(l[i])
            } else {
                ValueModel::Empty
            },
    )
}

/// The mathematical values of a list of members.
pub open spec fn members_model(m: Vec<Member>) -> Seq<MemberModel>
    decreases m, 1nat,
{
    Seq::new(
        m.len() as nat,
        |i: int|
            if 0 <= i < m.len() {
                MemberModel { name: m[i].name@, value: value_model(m[i].value) }
            } else {
                MemberModel { name: Seq::empty(), value: ValueModel::Empty }
            },
    )
}

impl View for JsonValue {
    type V = JsonModel;

    open spec fn view(&self) -> JsonModel {
        json_model(*self)
    }
}

impl View for Value {
    type V = ValueModel;

    open spec fn view(&self) -> ValueModel {
        value_model(*self)
    }
}

/// The base64 text of a byte string, which is what `base64::encode` returns.
pub uninterp spec fn base64_text(bytes: Seq<u8>) -> Seq<char>;

/// What `base64::decode` returns for a text: the bytes it stands for, or the
/// message of the decoding error.
pub uninterp spec fn base64_bytes(text: Seq<char>) -> Result<Seq<u8>, Seq<char>>;

/// Encodes a byte string as base64 text, by `base64::encode`.
#[verifier::external_body]
pub fn ser_bytes(v: &[u8]) -> (r: String)
    ensures
        r@ == base64_text(v@),
{
    base64::encode(v)
}

/// Decodes base64 text into the byte string it stands for, by
/// `base64::decode`. Text that is no base64 gives the message of the error.
#[verifier::external_body]
pub fn deser_bytes(input: &str) -> (r: Result<Vec<u8>, String>)
    ensures
        match base64_bytes(input@) {
            Ok(b) => r is Ok && r->Ok_0@ == b,
            Err(m) => r is Err && r->Err_0@ == m,
        },
{
    match base64::decode(input) {
        Ok(b) => Ok(b),
        Err(e) => Err(format!("{}", e)),
    }
}

/// An object with one member.
pub open spec fn single(key: Seq<char>, value: JsonModel) -> JsonModel {
    JsonModel::Object(seq![JsonMemberModel { key, value }])
}

/// The canonical JSON encoding of a value.
pub open spec fn encode(v: ValueModel) -> JsonModel
    decreases v, 0nat,
{
    match v {
        ValueModel::Empty => JsonModel::Null,
        ValueModel::Bool(b) => JsonModel::Bool(b),
        ValueModel::Int(n) => JsonModel::Integer(n),
        ValueModel::Float(NumberModel::Integer(n)) => JsonModel::Integer(n),
        ValueModel::Float(NumberModel::Decimal(s)) => JsonModel::Decimal(s),
        ValueModel::Text(s) => JsonModel::Text(s),
        ValueModel::Bytes(b) => JsonModel::Text(base64_text(b)),
        ValueModel::List(l) => JsonModel::Array(encode_all(l)),
        ValueModel::Tuple(l) => JsonModel::Array(encode_all(l)),
        ValueModel::Optional(None) => JsonModel::Null,
        ValueModel::Optional(Some(x)) => encode(*x),
        ValueModel::Outcome(Ok(x)) => single("Ok"@, encode(*x)),
        ValueModel::Outcome(Err(x)) => single("Err"@, encode(*x)),
        ValueModel::Mapping(m) => JsonModel::Object(encode_members(m)),
        ValueModel::Struct(m) => JsonModel::Object(encode_members(m)),
        ValueModel::Variant(name, PayloadModel::Simple) => JsonModel::Text(name),
        ValueModel::Variant(name, PayloadModel::Tuple(l)) => single(
            name,
            JsonModel::Array(encode_all(l)),
        ),
        ValueModel::Variant(name, PayloadModel::Struct(m)) => single(
            name,
            JsonModel::Object(encode_members(m)),
        ),
        ValueModel::Variant(name, PayloadModel::Newtype(x)) => single(name, encode(*x)),
    }
}

/// The encodings of a list of values, in order.
pub open spec fn encode_all(l: Seq<ValueModel>) -> Seq<JsonModel>
    decreases l, 1nat,
{
    Seq::new(
        l.len(),
        |i: int|
            if 0 <= i < l.len() {
                encode(l[i])
            } else {
                JsonModel::Null
            },
    )
}

/// The encodings of a list of members, in order, each under its name.
pub open spec fn encode_members(m: Seq<MemberModel>) -> Seq<JsonMemberModel>
    decreases m, 1nat,
{
    Seq::new(
        m.len(),
        |i: int|
            if 0 <= i < m.len() {
                JsonMemberModel { key: m[i].name, value: encode(m[i].value) }
            } else {
                JsonMemberModel { key: Seq::empty(), value: JsonModel::Null }
            },
    )
}

/// An object with one member.
fn single_member(key: String, value: JsonValue) -> (r: JsonValue)
    ensures
        r@ == single(key@, value@),
{
    let mut members: Vec<JsonMember> = Vec::new();
    members.push(JsonMember { key, value });
    let r = JsonValue::Object(members);
    assert(r@->Object_0 =~= seq![JsonMemberModel { key: key@, value: value@ }]);
    r
}

/// Encodes a list of values, in order.
pub fn encode_values(l: &Vec<Value>) -> (r: Vec<JsonValue>)
    ensures
        jsons_model(r) == encode_all(values_model(*l)),
    decreases l, 1nat,
{
    let mut out: Vec<JsonValue> = Vec::new();
    let mut i: usize = 0;
    while i < l.len()
        invariant
            i <= l.len(),
            out.len() == i,
            forall|j: int| 0 <= j < i ==> (#[trigger] out[j])@ == encode(l[j]@),
        decreases l.len() - i,
    {
        proof {
            vstd::std_specs::vec::axiom_vec_index_decreases(*l, i as int);
        }
        out.push(to_json(&l[i]));
        i += 1;
    }
    assert(jsons_model(out) =~= encode_all(values_model(*l)));
    out
}

/// Encodes a list of members, in order.
pub fn encode_member_list(m: &Vec<Member>) -> (r: Vec<JsonMember>)
    ensures
        json_members_model(r) == encode_members(members_model(*m)),
    decreases m, 1nat,
{
    let mut out: Vec<JsonMember> = Vec::new();
    let mut i: usize = 0;
    while i < m.len()
        invariant
            i <= m.len(),
            out.len() == i,
            forall|j: int|
                0 <= j < i ==> (#[trigger] out[j]).key@ == m[j].name@ && out[j].value@ == encode(
                    m[j].value@,
                ),
        decreases m.len() - i,
    {
        proof {
            vstd::std_specs::vec::axiom_vec_index_decreases(*m, i as int);
        }
        out.push(JsonMember { key: m[i].name.clone(), value: to_json(&m[i].value) });
        i += 1;
    }
    assert(json_members_model(out) =~= encode_members(members_model(*m)));
    out
}

/// Copies a number.
fn clone_number(n: &Number) -> (r: Number)
    ensures
        r@ == n@,
{
    match n {
        Number::Integer(k) => Number::Integer(*k),
        Number::Decimal(s) => Number::Decimal(s.clone()),
    }
}

/// Encodes a value in the canonical JSON encoding.
pub fn to_json(v: &Value) -> (r: JsonValue)
    ensures
        r@ == encode(v@),
    decreases v, 0nat,
{
    match v {
        Value::Empty => JsonValue::Null,
        Value::Bool(b) => JsonValue::Bool(*b),
        Value::Int(n) => JsonValue::Number(Number::Integer(*n)),
        Value::Float(n) => JsonValue::Number(clone_number(n)),
        Value::Text(s) => JsonValue::Text(s.clone()),
        Value::Bytes(b) => JsonValue::Text(ser_bytes(b.as_slice())),
        Value::List(l) => JsonValue::Array(encode_values(l)),
        Value::Tuple(l) => JsonValue::Array(encode_values(l)),
        Value::Optional(None) => JsonValue::Null,
        Value::Optional(Some(x)) => to_json(x),
        Value::Outcome(Ok(x)) => single_member(String::from_str("Ok"), to_json(x)),
        Value::Outcome(Err(x)) => single_member(String::from_str("Err"), to_json(x)),
        Value::Mapping(m) => JsonValue::Object(encode_member_list(m)),
        Value::Struct(m) => JsonValue::Object(encode_member_list(m)),
        Value::Variant(name, Payload::Simple) => JsonValue::Text(name.clone()),
        Value::Variant(name, Payload::Tuple(l)) => single_member(
            name.clone(),
            JsonValue::Array(encode_values(l)),
        ),
        Value::Variant(name, Payload::Struct(m)) => single_member(
            name.clone(),
            JsonValue::Object(encode_member_list(m)),
        ),
        Value::Variant(name, Payload::Newtype(x)) => single_member(name.clone(), to_json(x)),
    }
}

} // verus!
