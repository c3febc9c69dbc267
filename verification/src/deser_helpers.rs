//! Decoding of the textual parts of a request, path variables and primitive
//! queries, by the type that the route binds them to.

use crate::ast::{AtomType, TypeIdent, TypeModel};
use crate::server::{RuntimeError, RuntimeErrorModel};
use crate::wire_text::string_to_chars;
use vstd::prelude::*;
use vstd::string::StringExecFns;

verus! {

/// The value of a decimal digit.
pub open spec fn digit_value(c: char) -> Option<int> {
    if '0' <= c && c <= '9' {
        Some(c as int - '0' as int)
    } else {
        None
    }
}

/// What reading digits ends in.
pub enum Scan {
    /// The number read so far.
    Value(int),
    /// A character that is no digit.
    InvalidDigit,
    /// A number that left the range.
    Overflow,
}

/// What reading the first `n` characters of `s` as decimal digits ends in,
/// for a number between `min` and `max` that is negative or not. The first
/// character that is no digit, or that takes the number out of the range,
/// ends the reading.
pub open spec fn scan_digits(s: Seq<char>, n: nat, negative: bool, min: int, max: int) -> Scan
    decreases n,
{
    if n == 0 || n > s.len() {
        Scan::Value(0)
    } else {
        match scan_digits(s, (n - 1) as nat, negative, min, max) {
            Scan::Value(acc) => match digit_value(s[n - 1]) {
                None => Scan::InvalidDigit,
                Some(d) => {
                    let next = if negative {
                        acc * 10 - d
                    } else {
                        acc * 10 + d
                    };
                    if min <= next <= max {
                        Scan::Value(next)
                    } else {
                        Scan::Overflow
                    }
                },
            },
            other => other,
        }
    }
}

/// The message for an empty text where a number is expected.
pub open spec fn empty_number() -> Seq<char> {
    "cannot parse integer from empty string"@
}

/// The message for a text with a character that is no digit.
pub open spec fn invalid_digit() -> Seq<char> {
    "invalid digit found in string"@
}

/// The message for a number above the range of its type.
pub open spec fn number_too_large() -> Seq<char> {
    "number too large to fit in target type"@
}

/// The message for a number below the range of its type.
pub open spec fn number_too_small() -> Seq<char> {
    "number too small to fit in target type"@
}

/// The integer that a text stands for, or the message that tells why it
/// stands for none.
///
/// The text is a sign, if any, and decimal digits, at least one, and nothing
/// else; a minus sign is a sign only for a signed type. The number must lie
/// between `min` and `max`.
pub open spec fn integer_model(text: Seq<char>, signed: bool, min: int, max: int) -> Result<
    int,
    Seq<char>,
> {
    if text.len() == 0 {
        Err(empty_number())
    } else {
        let negative = signed && text[0] == '-';
        let skip: int = if text[0] == '+' || negative {
            1
        } else {
            0
        };
        let digits = text.subrange(skip, text.len() as int);
        if digits.len() == 0 {
            Err(invalid_digit())
        } else {
            match scan_digits(digits, digits.len(), negative, min, max) {
                Scan::Value(v) => Ok(v),
                Scan::InvalidDigit => Err(invalid_digit()),
                Scan::Overflow => if negative {
                    Err(number_too_small())
                } else {
                    Err(number_too_large())
                },
            }
        }
    }
}

/// A failure among the first digits is the failure of them all.
proof fn scan_failure_stands(s: Seq<char>, k: nat, n: nat, negative: bool, min: int, max: int)
    requires
        !(scan_digits(s, k, negative, min, max) is Value),
        k <= n <= s.len(),
    ensures
        scan_digits(s, n, negative, min, max) == scan_digits(s, k, negative, min, max),
    decreases n,
{
    if k < n {
        scan_failure_stands(s, k, (n - 1) as nat, negative, min, max);
    }
}

/// Reads a text as an integer between `min` and `max`.
pub fn parse_integer(text: &str, signed: bool, min: i64, max: i64) -> (r: Result<i64, String>)
    requires
        -4294967296 <= min <= 0 <= max <= 4294967296,
    ensures
        match integer_model(text@, signed, min as int, max as int) {
            Ok(v) => r == Ok::<i64, String>(v as i64) && min <= v <= max,
            Err(m) => r is Err && r->Err_0@ == m,
        },
{
    let chars = string_to_chars(text);
    if chars.len() == 0 {
        return Err(String::from_str("cannot parse integer from empty string"));
    }
    let negative = signed && chars[0] == '-';
    let skip: usize = if chars[0] == '+' || negative {
        1
    } else {
        0
    };
    if chars.len() == skip {
        return Err(String::from_str("invalid digit found in string"));
    }
    let ghost digits = text@.subrange(skip as int, text@.len() as int);
    let mut acc: i64 = 0;
    let mut i: usize = skip;
    while i < chars.len()
        invariant
            skip <= i <= chars.len(),
            chars@ == text@,
            text@.len() > skip,
            negative == (signed && text@[0] == '-'),
            skip == (if text@[0] == '+' || negative {
                1int
            } else {
                0int
            }),
            digits == text@.subrange(skip as int, text@.len() as int),
            -4294967296 <= min <= 0 <= max <= 4294967296,
            min <= acc <= max,
            scan_digits(digits, (i - skip) as nat, negative, min as int, max as int) == Scan::Value(
                acc as int,
            ),
        decreases chars.len() - i,
    {
        let c = chars[i];
        assert(digits[i - skip] == c);
        if c < '0' || c > '9' {
            proof {
                scan_failure_stands(
                    digits,
                    (i - skip + 1) as nat,
                    digits.len(),
                    negative,
                    min as int,
                    max as int,
                );
            }
            return Err(String::from_str("invalid digit found in string"));
        }
        let d: i64 = (c as u32 - '0' as u32) as i64;
        let next: i64 = if negative {
            acc * 10 - d
        } else {
            acc * 10 + d
        };
        if next < min || next > max {
            proof {
                scan_failure_stands(
                    digits,
                    (i - skip + 1) as nat,
                    digits.len(),
                    negative,
                    min as int,
                    max as int,
                );
            }
            if negative {
                return Err(String::from_str("number too small to fit in target type"));
            } else {
                return Err(String::from_str("number too large to fit in target type"));
            }
        }
        acc = next;
        i += 1;
    }
    Ok(acc)
}

/// A decoded primitive.
#[derive(Debug, PartialEq, Eq)]
pub enum ParamValue {
    Str(String),
    I32(i32),
    U32(u32),
    U8(u8),
    Bool(bool),
    /// The text of a number with a fraction, a timestamp, a date or a UUID,
    /// unparsed: the caller holds the types that can read it.
    Raw(String),
}

/// The mathematical value of a `ParamValue`.
pub enum ParamModel {
    Str(Seq<char>),
    I32(i32),
    U32(u32),
    U8(u8),
    Bool(bool),
    Raw(Seq<char>),
}

impl View for ParamValue {
    type V = ParamModel;

    open spec fn view(&self) -> ParamModel {
        match self {
            ParamValue::Str(s) => ParamModel::Str(s@),
            ParamValue::I32(v) => ParamModel::I32(*v),
            ParamValue::U32(v) => ParamModel::U32(*v),
            ParamValue::U8(v) => ParamModel::U8(*v),
            ParamValue::Bool(v) => ParamModel::Bool(*v),
            ParamValue::Raw(s) => ParamModel::Raw(s@),
        }
    }
}

/// The message for a text that is no boolean.
pub open spec fn not_a_bool() -> Seq<char> {
    "provided string was not `true` or `false`"@
}

/// The message for a type that no text can be decoded into.
pub open spec fn not_primitive() -> Seq<char> {
    "type cannot be decoded from text"@
}

/// What a text decodes to as a value of a type.
///
/// A string is the text itself; an integer is the number that the text
/// writes in decimal, if it lies in the range of the type; a
/// boolean is `true` or `false`, spelled so; the text of the other atoms but
/// the empty type and bytes is handed on as it is. Nothing else is decoded
/// from text.
pub open spec fn primitive_model(ty: TypeModel, text: Seq<char>) -> Result<ParamModel, Seq<char>> {
    match ty {
        TypeModel::BuiltIn(AtomType::Str) => Ok(ParamModel::Str(text)),
        TypeModel::BuiltIn(AtomType::I32) => match integer_model(
            text,
            true,
            -2147483648,
            2147483647,
        ) {
            Ok(v) => Ok(ParamModel::I32(v as i32)),
            Err(m) => Err(m),
        },
        TypeModel::BuiltIn(AtomType::U32) => match integer_model(text, false, 0, 4294967295) {
            Ok(v) => Ok(ParamModel::U32(v as u32)),
            Err(m) => Err(m),
        },
        TypeModel::BuiltIn(AtomType::U8) => match integer_model(text, false, 0, 255) {
            Ok(v) => Ok(ParamModel::U8(v as u8)),
            Err(m) => Err(m),
        },
        TypeModel::BuiltIn(AtomType::Bool) => if text == "true"@ {
            Ok(ParamModel::Bool(true))
        } else if text == "false"@ {
            Ok(ParamModel::Bool(false))
        } else {
            Err(not_a_bool())
        },
        TypeModel::BuiltIn(AtomType::F64) => Ok(ParamModel::Raw(text)),
        TypeModel::BuiltIn(AtomType::DateTime) => Ok(ParamModel::Raw(text)),
        TypeModel::BuiltIn(AtomType::Date) => Ok(ParamModel::Raw(text)),
        TypeModel::BuiltIn(AtomType::Uuid) => Ok(ParamModel::Raw(text)),
        _ => Err(not_primitive()),
    }
}

/// Whether two texts are the same.
fn same_text(a: &str, b: &str) -> (r: bool)
    ensures
        r == (a@ == b@),
{
    String::from_str(a) == String::from_str(b)
}

/// Decodes a text as a value of a type.
pub fn deser_primitive(value: &str, ty: &TypeIdent) -> (r: Result<ParamValue, String>)
    ensures
        match primitive_model(ty@, value@) {
            Ok(v) => r is Ok && r->Ok_0@ == v,
            Err(m) => r is Err && r->Err_0@ == m,
        },
{
    match ty {
        TypeIdent::BuiltIn(a) => match a {
            AtomType::Str => Ok(ParamValue::Str(String::from_str(value))),
            AtomType::I32 => match parse_integer(value, true, -2147483648, 2147483647) {
                Ok(v) => Ok(ParamValue::I32(v as i32)),
                Err(m) => Err(m),
            },
            AtomType::U32 => match parse_integer(value, false, 0, 4294967295) {
                Ok(v) => Ok(ParamValue::U32(v as u32)),
                Err(m) => Err(m),
            },
            AtomType::U8 => match parse_integer(value, false, 0, 255) {
                Ok(v) => Ok(ParamValue::U8(v as u8)),
                Err(m) => Err(m),
            },
            AtomType::Bool => if same_text(value, "true") {
                Ok(ParamValue::Bool(true))
            } else if same_text(value, "false") {
                Ok(ParamValue::Bool(false))
            } else {
                Err(String::from_str("provided string was not `true` or `false`"))
            },
            AtomType::F64 => Ok(ParamValue::Raw(String::from_str(value))),
            AtomType::DateTime => Ok(ParamValue::Raw(String::from_str(value))),
            AtomType::Date => Ok(ParamValue::Raw(String::from_str(value))),
            AtomType::Uuid => Ok(ParamValue::Raw(String::from_str(value))),
            _ => Err(String::from_str("type cannot be decoded from text")),
        },
        _ => Err(String::from_str("type cannot be decoded from text")),
    }
}

/// What decoding a path variable ends in, given what its text decoded to: a
/// failure names the variable and keeps the message.
pub fn param_outcome(name: &str, decoded: Result<ParamValue, String>) -> (r: Result<
    ParamValue,
    RuntimeError,
>)
    ensures
        match decoded {
            Ok(v) => r is Ok && r->Ok_0 == v,
            Err(m) => r is Err && r->Err_0@ == (RuntimeErrorModel::RouteParamInvalid {
                param_name: name@,
                parse_error: m@,
            }),
        },
{
    match decoded {
        Ok(v) => Ok(v),
        Err(m) => Err(
            RuntimeError::RouteParamInvalid { param_name: String::from_str(name), parse_error: m },
        ),
    }
}

/// What decoding a primitive query ends in, given what its text decoded to:
/// a failure keeps the message.
pub fn query_outcome(decoded: Result<ParamValue, String>) -> (r: Result<ParamValue, RuntimeError>)
    ensures
        match decoded {
            Ok(v) => r is Ok && r->Ok_0 == v,
            Err(m) => r is Err && r->Err_0@ == RuntimeErrorModel::QueryInvalid(m@),
        },
{
    match decoded {
        Ok(v) => Ok(v),
        Err(m) => Err(RuntimeError::QueryInvalid(m)),
    }
}

/// What decoding the path variable `name` from `value` ends in.
pub open spec fn param_model(name: Seq<char>, value: Seq<char>, ty: TypeModel) -> Result<
    ParamModel,
    RuntimeErrorModel,
> {
    match primitive_model(ty, value) {
        Ok(v) => Ok(v),
        Err(m) => Err(RuntimeErrorModel::RouteParamInvalid { param_name: name, parse_error: m }),
    }
}

/// Decodes the path variable `name` from the text `value` as a value of the
/// type that the route gives it. A failure names the variable.
pub fn deser_param(name: &str, value: &str, ty: &TypeIdent) -> (r: Result<ParamValue, RuntimeError>)
    ensures
        match param_model(name@, value@, ty@) {
            Ok(v) => r is Ok && r->Ok_0@ == v,
            Err(e) => r is Err && r->Err_0@ == e,
        },
{
    param_outcome(name, deser_primitive(value, ty))
}

/// Decodes a whole query string as one value of a primitive type.
pub fn deser_query_primitive(query: &str, ty: &TypeIdent) -> (r: Result<ParamValue, RuntimeError>)
    ensures
        match primitive_model(ty@, query@) {
            Ok(v) => r is Ok && r->Ok_0@ == v,
            Err(m) => r is Err && r->Err_0@ == RuntimeErrorModel::QueryInvalid(m),
        },
{
    query_outcome(deser_primitive(query, ty))
}

} // verus!
