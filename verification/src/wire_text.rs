//! JSON documents as text: the bytes that travel.

use crate::ast::{fields_view, AtomType, FieldModel, FieldNode, TypeIdent, TypeModel};
use crate::wire::{
    base64_text, encode, json_members_model, jsons_model, members_model, ser_bytes, to_json,
    JsonMemberModel, JsonModel, JsonValue, Member, MemberModel, Number, Value, ValueModel,
};
use vstd::prelude::*;

verus! {

/// The character of a decimal digit.
pub open spec fn digit_char(d: int) -> char {
    if d == 0 {
        '0'
    } else if d == 1 {
        '1'
    } else if d == 2 {
        '2'
    } else if d == 3 {
        '3'
    } else if d == 4 {
        '4'
    } else if d == 5 {
        '5'
    } else if d == 6 {
        '6'
    } else if d == 7 {
        '7'
    } else if d == 8 {
        '8'
    } else {
        '9'
    }
}

/// The character of a hexadecimal digit, in lower case.
pub open spec fn hex_char(d: int) -> char {
    if d < 10 {
        digit_char(d)
    } else if d == 10 {
        'a'
    } else if d == 11 {
        'b'
    } else if d == 12 {
        'c'
    } else if d == 13 {
        'd'
    } else if d == 14 {
        'e'
    } else {
        'f'
    }
}

/// The decimal digits of a natural number, without leading zeros.
pub open spec fn nat_text(n: nat) -> Seq<char>
    decreases n,
{
    if n < 10 {
        seq![digit_char(n as int)]
    } else {
        nat_text(n / 10).push(digit_char((n % 10) as int))
    }
}

/// The decimal text of an integer: a minus sign where it is negative, then
/// its digits.
pub open spec fn int_text(n: int) -> Seq<char> {
    if n < 0 {
        seq!['-'] + nat_text((-n) as nat)
    } else {
        nat_text(n as nat)
    }
}

/// How a character stands inside a JSON string: the quote, the backslash
/// and the control characters are escaped, every other character stands for
/// itself.
pub open spec fn escape_char(c: char) -> Seq<char> {
    if c == '"' {
        seq!['\\', '"']
    } else if c == '\\' {
        seq!['\\', '\\']
    } else if c == '\n' {
        seq!['\\', 'n']
    } else if c == '\r' {
        seq!['\\', 'r']
    } else if c == '\t' {
        seq!['\\', 't']
    } else if c == '\u{8}' {
        seq!['\\', 'b']
    } else if c == '\u{c}' {
        seq!['\\', 'f']
    } else if (c as u32) < 32 {
        seq!['\\', 'u', '0', '0', hex_char((c as u32) as int / 16), hex_char((c as u32) as int % 16)]
    } else {
        seq![c]
    }
}

/// The first `n` characters of a text, escaped.
pub open spec fn escape_text(s: Seq<char>, n: nat) -> Seq<char>
    decreases n,
{
    if n == 0 || n > s.len() {
        Seq::empty()
    } else {
        escape_text(s, (n - 1) as nat) + escape_char(s[n - 1])
    }
}

/// A text as a JSON string: escaped, between quotes.
pub open spec fn quote(s: Seq<char>) -> Seq<char> {
    seq!['"'] + escape_text(s, s.len()) + seq!['"']
}

/// The text of a JSON document, with no space in it.
pub open spec fn json_text(j: JsonModel) -> Seq<char>
    decreases j, 0nat,
{
    match j {
        JsonModel::Null => seq!['n', 'u', 'l', 'l'],
        JsonModel::Bool(true) => seq!['t', 'r', 'u', 'e'],
        JsonModel::Bool(false) => seq!['f', 'a', 'l', 's', 'e'],
        JsonModel::Integer(n) => int_text(n as int),
        JsonModel::Decimal(s) => s,
        JsonModel::Text(s) => quote(s),
        JsonModel::Array(a) => seq!['['] + array_text(a, a.len()) + seq![']'],
        JsonModel::Object(o) => seq!['{'] + object_text(o, o.len()) + seq!['}'],
    }
}

/// The texts of the first `n` elements of an array, with commas between.
pub open spec fn array_text(a: Seq<JsonModel>, n: nat) -> Seq<char>
    decreases a, n,
{
    if n == 0 || n > a.len() {
        Seq::empty()
    } else if n == 1 {
        json_text(a[0])
    } else {
        array_text(a, (n - 1) as nat) + seq![','] + json_text(a[n - 1])
    }
}

/// The text of a member of an object: its key as a string, a colon, and
/// its value.
pub open spec fn member_text(m: JsonMemberModel) -> Seq<char>
    decreases m, 0nat,
{
    quote(m.key) + seq![':'] + json_text(m.value)
}

/// The texts of the first `n` members of an object, with commas between.
pub open spec fn object_text(o: Seq<JsonMemberModel>, n: nat) -> Seq<char>
    decreases o, n,
{
    if n == 0 || n > o.len() {
        Seq::empty()
    } else if n == 1 {
        member_text(o[0])
    } else {
        object_text(o, (n - 1) as nat) + seq![','] + member_text(o[n - 1])
    }
}

/// Collects characters into a string, by `String::from_iter`: the string
/// holds these characters, in order.
#[verifier::external_body]
pub(crate) fn chars_to_string(v: &Vec<char>) -> (r: String)
    ensures
        r@ == v@,
{
    v.iter().collect()
}

/// Takes a string apart into its characters, by `str::chars`: the
/// characters of the string, in order.
#[verifier::external_body]
pub(crate) fn string_to_chars(s: &str) -> (r: Vec<char>)
    ensures
        r@ == s@,
{
    s.chars().collect()
}

/// The character of a digit below sixteen.
fn hex_digit(d: u32) -> (c: char)
    requires
        d < 16,
    ensures
        c == hex_char(d as int),
{
    if d == 0 {
        '0'
    } else if d == 1 {
        '1'
    } else if d == 2 {
        '2'
    } else if d == 3 {
        '3'
    } else if d == 4 {
        '4'
    } else if d == 5 {
        '5'
    } else if d == 6 {
        '6'
    } else if d == 7 {
        '7'
    } else if d == 8 {
        '8'
    } else if d == 9 {
        '9'
    } else if d == 10 {
        'a'
    } else if d == 11 {
        'b'
    } else if d == 12 {
        'c'
    } else if d == 13 {
        'd'
    } else if d == 14 {
        'e'
    } else {
        'f'
    }
}

/// Writes the decimal digits of a natural number.
pub fn write_nat(n: u64, out: &mut Vec<char>)
    ensures
        final(out)@ == old(out)@ + nat_text(n as nat),
    decreases n,
{
    let ghost start = out@;
    if n >= 10 {
        write_nat(n / 10, out);
    }
    out.push(hex_digit((n % 10) as u32));
    assert(out@ =~= start + nat_text(n as nat));
}

/// Writes the decimal text of an integer.
pub fn write_int(n: i64, out: &mut Vec<char>)
    ensures
        final(out)@ == old(out)@ + int_text(n as int),
{
    let ghost start = out@;
    if n < 0 {
        out.push('-');
        let magnitude: u64 = if n == i64::MIN {
            9223372036854775808u64
        } else {
            (-n) as u64
        };
        write_nat(magnitude, out);
        assert(out@ =~= start + int_text(n as int));
    } else {
        write_nat(n as u64, out);
    }
}

/// Writes a character as it stands inside a JSON string.
pub fn write_escaped_char(c: char, out: &mut Vec<char>)
    ensures
        final(out)@ == old(out)@ + escape_char(c),
{
    let ghost start = out@;
    if c == '"' {
        out.push('\\');
        out.push('"');
    } else if c == '\\' {
        out.push('\\');
        out.push('\\');
    } else if c == '\n' {
        out.push('\\');
        out.push('n');
    } else if c == '\r' {
        out.push('\\');
        out.push('r');
    } else if c == '\t' {
        out.push('\\');
        out.push('t');
    } else if c == '\u{8}' {
        out.push('\\');
        out.push('b');
    } else if c == '\u{c}' {
        out.push('\\');
        out.push('f');
    } else if (c as u32) < 32 {
        out.push('\\');
        out.push('u');
        out.push('0');
        out.push('0');
        out.push(hex_digit((c as u32) / 16));
        out.push(hex_digit((c as u32) % 16));
    } else {
        out.push(c);
    }
    assert(out@ =~= start + escape_char(c));
}

/// Writes a text as a JSON string.
pub fn write_quoted(s: &str, out: &mut Vec<char>)
    ensures
        final(out)@ == old(out)@ + quote(s@),
{
    let ghost start = out@;
    let chars = string_to_chars(s);
    out.push('"');
    let mut i: usize = 0;
    assert(out@ =~= start + seq!['"'] + escape_text(s@, 0));
    while i < chars.len()
        invariant
            i <= chars.len(),
            chars@ == s@,
            out@ == start + seq!['"'] + escape_text(s@, i as nat),
        decreases chars.len() - i,
    {
        let ghost before = out@;
        write_escaped_char(chars[i], out);
        assert(out@ =~= start + seq!['"'] + escape_text(s@, (i + 1) as nat));
        i += 1;
    }
    out.push('"');
    assert(out@ =~= start + quote(s@));
}

/// Writes the text of a JSON document.
pub fn write_json(j: &JsonValue, out: &mut Vec<char>)
    ensures
        final(out)@ == old(out)@ + json_text(j@),
    decreases j,
{
    let ghost start = out@;
    match j {
        JsonValue::Null => {
            out.push('n');
            out.push('u');
            out.push('l');
            out.push('l');
            assert(out@ =~= start + json_text(j@));
        },
        JsonValue::Bool(true) => {
            out.push('t');
            out.push('r');
            out.push('u');
            out.push('e');
            assert(out@ =~= start + json_text(j@));
        },
        JsonValue::Bool(false) => {
            out.push('f');
            out.push('a');
            out.push('l');
            out.push('s');
            out.push('e');
            assert(out@ =~= start + json_text(j@));
        },
        JsonValue::Number(Number::Integer(n)) => {
            write_int(*n, out);
        },
        JsonValue::Number(Number::Decimal(s)) => {
            let mut chars = string_to_chars(s.as_str());
            out.append(&mut chars);
        },
        JsonValue::Text(s) => {
            write_quoted(s.as_str(), out);
        },
        JsonValue::Array(a) => {
            let ghost am = jsons_model(*a);
            out.push('[');
            let mut i: usize = 0;
            assert(out@ =~= start + seq!['['] + array_text(am, 0));
            while i < a.len()
                invariant
                    i <= a.len(),
                    am == jsons_model(*a),
                    *j is Array,
                    (*j)->Array_0 == *a,
                    out@ == start + seq!['['] + array_text(am, i as nat),
                decreases a.len() - i,
            {
                proof {
                    vstd::std_specs::vec::axiom_vec_index_decreases(*a, i as int);
                    assert(am[i as int] == a[i as int]@);
                }
                if i > 0 {
                    out.push(',');
                }
                write_json(&a[i], out);
                assert(out@ =~= start + seq!['['] + array_text(am, (i + 1) as nat));
                i += 1;
            }
            out.push(']');
            assert(out@ =~= start + json_text(j@));
        },
        JsonValue::Object(o) => {
            let ghost om = json_members_model(*o);
            out.push('{');
            let mut i: usize = 0;
            assert(out@ =~= start + seq!['{'] + object_text(om, 0));
            while i < o.len()
                invariant
                    i <= o.len(),
                    om == json_members_model(*o),
                    *j is Object,
                    (*j)->Object_0 == *o,
                    out@ == start + seq!['{'] + object_text(om, i as nat),
                decreases o.len() - i,
            {
                proof {
                    vstd::std_specs::vec::axiom_vec_index_decreases(*o, i as int);
                    assert(om[i as int].key == o[i as int].key@);
                    assert(om[i as int].value == o[i as int].value@);
                }
                if i > 0 {
                    out.push(',');
                }
                let ghost before = out@;
                write_quoted(o[i].key.as_str(), out);
                out.push(':');
                write_json(&o[i].value, out);
                assert(out@ =~= before + member_text(om[i as int]));
                assert(out@ =~= start + seq!['{'] + object_text(om, (i + 1) as nat));
                i += 1;
            }
            out.push('}');
            assert(out@ =~= start + json_text(j@));
        },
    }
}

/// The text of a JSON document, with no space in it.
pub fn to_text(j: &JsonValue) -> (r: String)
    ensures
        r@ == json_text(j@),
{
    let mut out: Vec<char> = Vec::new();
    write_json(j, &mut out);
    assert(out@ =~= json_text(j@));
    chars_to_string(&out)
}

/// A parameter of a query string: its name and its value, not yet
/// percent-encoded.
#[derive(Debug, PartialEq, Eq)]
pub struct QueryParameter {
    pub name: String,
    pub value: String,
}

/// The value of the query parameter that a field of a struct becomes.
///
/// A string, a UUID or bytes travel as they are, bytes as base64 text; an
/// integer travels in decimal; anything else travels as the text of its
/// canonical JSON encoding, in one parameter.
pub open spec fn parameter_text(ty: TypeModel, v: ValueModel) -> Seq<char> {
    match (ty, v) {
        (TypeModel::BuiltIn(AtomType::Str), ValueModel::Text(s)) => s,
        (TypeModel::BuiltIn(AtomType::Uuid), ValueModel::Text(s)) => s,
        (TypeModel::BuiltIn(AtomType::Bytes), ValueModel::Bytes(b)) => base64_text(b),
        (TypeModel::BuiltIn(AtomType::I32), ValueModel::Int(n)) => int_text(n as int),
        (TypeModel::BuiltIn(AtomType::U32), ValueModel::Int(n)) => int_text(n as int),
        (TypeModel::BuiltIn(AtomType::U8), ValueModel::Int(n)) => int_text(n as int),
        _ => json_text(encode(v)),
    }
}

/// The value of the query parameter that a field of a struct becomes.
pub fn query_parameter_text(ty: &TypeIdent, v: &Value) -> (r: String)
    ensures
        r@ == parameter_text(ty@, v@),
{
    match (ty, v) {
        (TypeIdent::BuiltIn(AtomType::Str), Value::Text(s)) => s.clone(),
        (TypeIdent::BuiltIn(AtomType::Uuid), Value::Text(s)) => s.clone(),
        (TypeIdent::BuiltIn(AtomType::Bytes), Value::Bytes(b)) => ser_bytes(b.as_slice()),
        (TypeIdent::BuiltIn(AtomType::I32), Value::Int(n)) => {
            let mut out: Vec<char> = Vec::new();
            write_int(*n, &mut out);
            assert(out@ =~= int_text(*n as int));
            chars_to_string(&out)
        },
        (TypeIdent::BuiltIn(AtomType::U32), Value::Int(n)) => {
            let mut out: Vec<char> = Vec::new();
            write_int(*n, &mut out);
            assert(out@ =~= int_text(*n as int));
            chars_to_string(&out)
        },
        (TypeIdent::BuiltIn(AtomType::U8), Value::Int(n)) => {
            let mut out: Vec<char> = Vec::new();
            write_int(*n, &mut out);
            assert(out@ =~= int_text(*n as int));
            chars_to_string(&out)
        },
        _ => to_text(&to_json(v)),
    }
}

/// The query parameters that the fields of a struct become: one per field,
/// in order, under the field's name.
pub open spec fn query_model(fields: Seq<FieldModel>, members: Seq<MemberModel>) -> Seq<
    (Seq<char>, Seq<char>),
> {
    Seq::new(
        fields.len(),
        |i: int| (fields[i].pair.name, parameter_text(fields[i].pair.type_ident, members[i].value)),
    )
}

/// The names and values of a list of query parameters.
pub open spec fn parameters_view(v: Seq<QueryParameter>) -> Seq<(Seq<char>, Seq<char>)> {
    Seq::new(v.len(), |i: int| (v[i].name@, v[i].value@))
}

/// Flattens the value of a struct into query parameters, one per field.
/// Gives `None` where the value has not as many members as the struct has
/// fields.
pub fn query_parameters(fields: &Vec<FieldNode>, members: &Vec<Member>) -> (r: Option<
    Vec<QueryParameter>,
>)
    ensures
        fields.len() != members.len() ==> r is None,
        fields.len() == members.len() ==> r is Some && parameters_view(r->Some_0@) == query_model(
            fields_view(fields@),
            members_model(*members),
        ),
{
    if fields.len() != members.len() {
        return None;
    }
    let ghost fm = fields_view(fields@);
    let ghost mm = members_model(*members);
    let mut out: Vec<QueryParameter> = Vec::new();
    let mut i: usize = 0;
    while i < fields.len()
        invariant
            i <= fields.len(),
            fields.len() == members.len(),
            fm == fields_view(fields@),
            mm == members_model(*members),
            out.len() == i,
            forall|k: int|
                0 <= k < i ==> (#[trigger] out[k]).name@ == fm[k].pair.name && out[k].value@
                    == parameter_text(fm[k].pair.type_ident, mm[k].value),
        decreases fields.len() - i,
    {
        assert(fm[i as int] == fields[i as int]@);
        assert(mm[i as int].value == members[i as int].value@);
        out.push(
            QueryParameter {
                name: fields[i].pair.name.clone(),
                value: query_parameter_text(&fields[i].pair.type_ident, &members[i].value),
            },
        );
        i += 1;
    }
    assert(parameters_view(out@) =~= query_model(fm, mm));
    Some(out)
}

} // verus!
