use vstd::prelude::*;

verus! {

/// A number of the generic value format.
///
/// Integers are held exactly; a floating-point number is held as the text
/// with which it is written in the wire format, since the library does no
/// floating-point arithmetic.
#[derive(Debug, PartialEq, Eq)]
pub enum JsonNumber {
    PosInt(u64),
    NegInt(i64),
    Float(String),
}

/// A value of the generic, language-neutral wire format.
///
/// An array or an object is never looked into by the library: it is held as
/// its compact wire text.
#[derive(Debug, PartialEq, Eq)]
pub enum JsonValue {
    Null,
    Bool(bool),
    Number(JsonNumber),
    String(String),
    Array(String),
    Object(String),
}

/// The mathematical model of a generic value.
pub enum Generic {
    Null,
    Bool(bool),
    Int(int),
    Float(Seq<char>),
    Str(Seq<char>),
    Array(Seq<char>),
    Object(Seq<char>),
}

impl View for JsonNumber {
    type V = Generic;

    open spec fn view(&self) -> Generic {
        match self {
            JsonNumber::PosInt(n) => Generic::Int(*n as int),
            JsonNumber::NegInt(n) => Generic::Int(*n as int),
            JsonNumber::Float(t) => Generic::Float(t@),
        }
    }
}

impl View for JsonValue {
    type V = Generic;

    open spec fn view(&self) -> Generic {
        match self {
            JsonValue::Null => Generic::Null,
            JsonValue::Bool(b) => Generic::Bool(*b),
            JsonValue::Number(n) => n@,
            JsonValue::String(s) => Generic::Str(s@),
            JsonValue::Array(t) => Generic::Array(t@),
            JsonValue::Object(t) => Generic::Object(t@),
        }
    }
}

/// The decimal digit for `d`, which is below ten.
pub open spec fn digit_char(d: nat) -> char {
    if d == 0 { '0' }
    else if d == 1 { '1' }
    else if d == 2 { '2' }
    else if d == 3 { '3' }
    else if d == 4 { '4' }
    else if d == 5 { '5' }
    else if d == 6 { '6' }
    else if d == 7 { '7' }
    else if d == 8 { '8' }
    else { '9' }
}

/// The decimal digits of `n`, without leading zeros ("0" for zero).
pub open spec fn decimal(n: nat) -> Seq<char>
    decreases n,
{
    if n < 10 {
        seq![digit_char(n)]
    } else {
        decimal(n / 10) + seq![digit_char(n % 10)]
    }
}

/// The decimal text of an integer, with a leading minus sign when negative.
pub open spec fn int_text(i: int) -> Seq<char> {
    if i < 0 {
        seq!['-'] + decimal((-i) as nat)
    } else {
        decimal(i as nat)
    }
}

/// The text with which a value is bound as a statement parameter: a string
/// as its contents, anything else as its wire text.
pub open spec fn param_text_of(v: Generic) -> Seq<char> {
    match v {
        Generic::Null => seq!['n', 'u', 'l', 'l'],
        Generic::Bool(b) => if b { seq!['t', 'r', 'u', 'e'] } else { seq!['f', 'a', 'l', 's', 'e'] },
        Generic::Int(i) => int_text(i),
        Generic::Float(t) => t,
        Generic::Str(s) => s,
        Generic::Array(t) => t,
        Generic::Object(t) => t,
    }
}

fn digit(d: u64) -> (c: char)
    requires
        d < 10,
    ensures
        c == digit_char(d as nat),
{
    if d == 0 { '0' }
    else if d == 1 { '1' }
    else if d == 2 { '2' }
    else if d == 3 { '3' }
    else if d == 4 { '4' }
    else if d == 5 { '5' }
    else if d == 6 { '6' }
    else if d == 7 { '7' }
    else if d == 8 { '8' }
    else { '9' }
}

fn push_decimal(n: u64, out: &mut Vec<char>)
    ensures
        final(out)@ == old(out)@ + decimal(n as nat),
    decreases n,
{
    if n < 10 {
        out.push(digit(n));
    } else {
        push_decimal(n / 10, out);
        out.push(digit(n % 10));
    }
}

/// Relies on `FromIterator<char>` for `String`: the characters in order.
#[verifier::external_body]
fn string_of_chars(v: &Vec<char>) -> (r: String)
    ensures
        r@ == v@,
{
    v.iter().collect()
}

/// Writes an unsigned integer in decimal.
pub fn u64_text(n: u64) -> (r: String)
    ensures
        r@ == int_text(n as int),
{
    let mut out: Vec<char> = Vec::new();
    push_decimal(n, &mut out);
    assert(out@ =~= decimal(n as nat));
    string_of_chars(&out)
}

/// Writes a signed integer in decimal.
pub fn i64_text(n: i64) -> (r: String)
    ensures
        r@ == int_text(n as int),
{
    let mut out: Vec<char> = Vec::new();
    if n < 0 {
        out.push('-');
        let m: u64 = if n == i64::MIN { 9_223_372_036_854_775_808u64 } else { (-n) as u64 };
        push_decimal(m, &mut out);
        assert(out@ =~= seq!['-'] + decimal((-(n as int)) as nat));
    } else {
        push_decimal(n as u64, &mut out);
        assert(out@ =~= decimal(n as nat));
    }
    string_of_chars(&out)
}

/// The generic number for a signed integer.
pub fn number_of_i64(n: i64) -> (r: JsonNumber)
    ensures
        r@ == Generic::Int(n as int),
{
    if n < 0 {
        JsonNumber::NegInt(n)
    } else {
        JsonNumber::PosInt(n as u64)
    }
}

/// The text with which a parameter value is bound to its positional slot.
pub fn param_text(v: &JsonValue) -> (r: String)
    ensures
        r@ == param_text_of(v@),
{
    match v {
        JsonValue::Null => {
            let r = String::from_str("null");
            proof { reveal_strlit("null"); }
            r
        },
        JsonValue::Bool(b) => {
            if *b {
                let r = String::from_str("true");
                proof { reveal_strlit("true"); }
                r
            } else {
                let r = String::from_str("false");
                proof { reveal_strlit("false"); }
                r
            }
        },
        JsonValue::Number(JsonNumber::PosInt(n)) => u64_text(*n),
        JsonValue::Number(JsonNumber::NegInt(n)) => i64_text(*n),
        JsonValue::Number(JsonNumber::Float(t)) => t.clone(),
        JsonValue::String(s) => s.clone(),
        JsonValue::Array(t) => t.clone(),
        JsonValue::Object(t) => t.clone(),
    }
}

/// Converts every parameter, in order, to the text that is bound to the
/// statement's positional slot of the same index.
pub fn bind_texts(params: &Vec<JsonValue>) -> (r: Vec<String>)
    ensures
        r@.len() == params@.len(),
        forall|i: int| 0 <= i < params@.len() ==> #[trigger] r@[i]@ == param_text_of(params@[i]@),
{
    let mut out: Vec<String> = Vec::new();
    let mut i: usize = 0;
    while i < params.len()
        invariant
            i <= params@.len(),
            out@.len() == i,
            forall|k: int| 0 <= k < i ==> #[trigger] out@[k]@ == param_text_of(params@[k]@),
        decreases params@.len() - i,
    {
        out.push(param_text(&params[i]));
        i = i + 1;
    }
    out
}

} // verus!
