use vstd::prelude::*;
use crate::value::{Generic, JsonNumber, JsonValue, number_of_i64};

verus! {

/// A floating-point cell: the value widened to 64 bits, as its bit pattern,
/// and the text with which the value is written in the wire format.
#[derive(Debug, PartialEq, Eq)]
pub struct FloatCell {
    pub bits: u64,
    pub text: String,
}

/// A naive timestamp: days counted from the common era (0001-01-01 is day
/// 1), seconds since midnight, and nanoseconds within the second.
#[derive(Debug, PartialEq, Eq)]
pub struct DateTimeParts {
    pub days: i32,
    pub secs: u32,
    pub nanos: u32,
}

/// A time of day: seconds since midnight and nanoseconds within the second.
#[derive(Debug, PartialEq, Eq)]
pub struct TimeParts {
    pub secs: u32,
    pub nanos: u32,
}

/// One cell of a result row, by the driver's native kind. `None` is a null
/// of that kind.
#[derive(Debug, PartialEq, Eq)]
pub enum Cell {
    U8(Option<u8>),
    I16(Option<i16>),
    I32(Option<i32>),
    I64(Option<i64>),
    F32(Option<FloatCell>),
    F64(Option<FloatCell>),
    Bit(Option<bool>),
    String(Option<String>),
    DateTime(Option<DateTimeParts>),
    SmallDateTime(Option<DateTimeParts>),
    DateTime2(Option<DateTimeParts>),
    Time(Option<TimeParts>),
    Date(Option<i32>),
    /// A kind that the codec does not convert.
    Other,
    /// A cell whose typed extraction failed, with the driver's detail.
    Undecodable(String),
}

/// A cell that could not be converted, with a description of why.
#[derive(Debug, PartialEq, Eq)]
pub struct DecodeError {
    pub detail: String,
}

/// What chrono's `DateTime<Utc>::to_rfc3339` writes for a timestamp read as UTC.
pub uninterp spec fn rfc3339_utc_of(days: int, secs: int, nanos: int) -> Seq<char>;

/// What chrono's `Display` for `NaiveDate` writes for a day.
pub uninterp spec fn date_text_of(days: int) -> Seq<char>;

/// What chrono's `Display` for `NaiveTime` writes for a time of day.
pub uninterp spec fn time_text_of(secs: int, nanos: int) -> Seq<char>;

/// Days of the years 1 to 9999, the range of the driver's date kinds.
pub open spec fn valid_days(days: int) -> bool {
    1 <= days <= 3_652_059
}

/// A time of day without a leap second.
pub open spec fn valid_time(secs: int, nanos: int) -> bool {
    0 <= secs < 86_400 && 0 <= nanos < 1_000_000_000
}

pub open spec fn valid_datetime(p: DateTimeParts) -> bool {
    valid_days(p.days as int) && valid_time(p.secs as int, p.nanos as int)
}

/// Relies on chrono: `NaiveDate::from_num_days_from_ce_opt`,
/// `NaiveTime::from_num_seconds_from_midnight_opt` (both `Some` in the
/// ranges required), then `and_utc` and `DateTime::to_rfc3339`.
#[verifier::external_body]
fn rfc3339_utc(days: i32, secs: u32, nanos: u32) -> (r: String)
    requires
        valid_days(days as int),
        valid_time(secs as int, nanos as int),
    ensures
        r@ == rfc3339_utc_of(days as int, secs as int, nanos as int),
{
    let date = chrono::NaiveDate::from_num_days_from_ce_opt(days).unwrap_or_default();
    let time = chrono::NaiveTime::from_num_seconds_from_midnight_opt(secs, nanos).unwrap_or_default();
    date.and_time(time).and_utc().to_rfc3339()
}

/// Relies on chrono: `NaiveDate::from_num_days_from_ce_opt` (`Some` in the
/// range required) and `NaiveDate`'s `Display`.
#[verifier::external_body]
fn date_text(days: i32) -> (r: String)
    requires
        valid_days(days as int),
    ensures
        r@ == date_text_of(days as int),
{
    chrono::NaiveDate::from_num_days_from_ce_opt(days).unwrap_or_default().to_string()
}

/// Relies on chrono: `NaiveTime::from_num_seconds_from_midnight_opt`
/// (`Some` in the range required) and `NaiveTime`'s `Display`.
#[verifier::external_body]
fn time_text(secs: u32, nanos: u32) -> (r: String)
    requires
        valid_time(secs as int, nanos as int),
    ensures
        r@ == time_text_of(secs as int, nanos as int),
{
    chrono::NaiveTime::from_num_seconds_from_midnight_opt(secs, nanos).unwrap_or_default().to_string()
}

/// A 64-bit floating-point bit pattern of a finite value: its exponent
/// field is not all ones.
pub open spec fn finite_bits(bits: u64) -> bool {
    (bits as int / 0x10_0000_0000_0000) % 0x800 != 0x7ff
}

/// Whether a cell converts without a decode failure.
pub open spec fn decodes(c: Cell) -> bool {
    match c {
        Cell::DateTime(Some(p)) => valid_datetime(p),
        Cell::SmallDateTime(Some(p)) => valid_datetime(p),
        Cell::DateTime2(Some(p)) => valid_datetime(p),
        Cell::Time(Some(t)) => valid_time(t.secs as int, t.nanos as int),
        Cell::Date(Some(d)) => valid_days(d as int),
        Cell::Undecodable(_) => false,
        _ => true,
    }
}

/// The generic value of a cell that decodes.
pub open spec fn cell_generic(c: Cell) -> Generic {
    match c {
        Cell::U8(Some(n)) => Generic::Int(n as int),
        Cell::I16(Some(n)) => Generic::Int(n as int),
        Cell::I32(Some(n)) => Generic::Int(n as int),
        Cell::I64(Some(n)) => Generic::Int(n as int),
        Cell::F32(Some(f)) => if finite_bits(f.bits) { Generic::Float(f.text@) } else { Generic::Null },
        Cell::F64(Some(f)) => if finite_bits(f.bits) { Generic::Float(f.text@) } else { Generic::Null },
        Cell::Bit(Some(b)) => Generic::Bool(b),
        Cell::String(Some(s)) => Generic::Str(s@),
        Cell::DateTime(Some(p)) => Generic::Str(rfc3339_utc_of(p.days as int, p.secs as int, p.nanos as int)),
        Cell::SmallDateTime(Some(p)) => Generic::Str(rfc3339_utc_of(p.days as int, p.secs as int, p.nanos as int)),
        Cell::DateTime2(Some(p)) => Generic::Str(rfc3339_utc_of(p.days as int, p.secs as int, p.nanos as int)),
        Cell::Time(Some(t)) => Generic::Str(time_text_of(t.secs as int, t.nanos as int)),
        Cell::Date(Some(d)) => Generic::Str(date_text_of(d as int)),
        _ => Generic::Null,
    }
}

/// Native integers, booleans and strings convert to the generic number,
/// boolean and string of the same value, without a decode failure.
pub proof fn lemma_scalars_convert_to_same_value(n: i64, b: bool, s: String)
    ensures
        decodes(Cell::I64(Some(n))) && cell_generic(Cell::I64(Some(n))) == Generic::Int(n as int),
        decodes(Cell::I32(Some(n as i32))) && cell_generic(Cell::I32(Some(n as i32))) == Generic::Int((n as i32) as int),
        decodes(Cell::Bit(Some(b))) && cell_generic(Cell::Bit(Some(b))) == Generic::Bool(b),
        decodes(Cell::String(Some(s))) && cell_generic(Cell::String(Some(s))) == Generic::Str(s@),
{
}

/// A kind that the codec does not convert gives `Null` and never a decode
/// failure; so does a null of any kind.
pub proof fn lemma_unconverted_and_null_cells_give_null(c: Cell)
    requires
        c is Other || c == Cell::U8(None) || c == Cell::I16(None) || c == Cell::I32(None)
            || c == Cell::I64(None) || c == Cell::F32(None) || c == Cell::F64(None)
            || c == Cell::Bit(None) || c == Cell::String(None) || c == Cell::DateTime(None)
            || c == Cell::SmallDateTime(None) || c == Cell::DateTime2(None)
            || c == Cell::Time(None) || c == Cell::Date(None),
    ensures
        decodes(c),
        cell_generic(c) == Generic::Null,
{
}

fn is_finite_bits(bits: u64) -> (r: bool)
    ensures
        r == finite_bits(bits),
{
    (bits / 0x10_0000_0000_0000) % 0x800 != 0x7ff
}

fn float_value(f: &FloatCell) -> (r: JsonValue)
    ensures
        r@ == (if finite_bits(f.bits) { Generic::Float(f.text@) } else { Generic::Null }),
{
    if is_finite_bits(f.bits) {
        JsonValue::Number(JsonNumber::Float(f.text.clone()))
    } else {
        JsonValue::Null
    }
}

fn timestamp_value(p: &DateTimeParts) -> (r: Result<JsonValue, DecodeError>)
    ensures
        r is Ok <==> valid_datetime(*p),
        r matches Ok(v) ==> v@ == Generic::Str(rfc3339_utc_of(p.days as int, p.secs as int, p.nanos as int)),
{
    if 1 <= p.days && p.days <= 3_652_059 && p.secs < 86_400 && p.nanos < 1_000_000_000 {
        Ok(JsonValue::String(rfc3339_utc(p.days, p.secs, p.nanos)))
    } else {
        let detail = String::from_str("timestamp out of range");
        Err(DecodeError { detail })
    }
}

/// Converts one native cell to a generic value. A null of any kind, and a
/// kind the codec does not convert, give `Null`; a date or time outside the
/// driver's range, or a cell whose extraction failed, is a decode failure.
pub fn convert_cell(c: &Cell) -> (r: Result<JsonValue, DecodeError>)
    ensures
        r is Ok <==> decodes(*c),
        r matches Ok(v) ==> v@ == cell_generic(*c),
{
    match c {
        Cell::U8(Some(n)) => Ok(JsonValue::Number(JsonNumber::PosInt(*n as u64))),
        Cell::I16(Some(n)) => Ok(JsonValue::Number(number_of_i64(*n as i64))),
        Cell::I32(Some(n)) => Ok(JsonValue::Number(number_of_i64(*n as i64))),
        Cell::I64(Some(n)) => Ok(JsonValue::Number(number_of_i64(*n))),
        Cell::F32(Some(f)) => Ok(float_value(f)),
        Cell::F64(Some(f)) => Ok(float_value(f)),
        Cell::Bit(Some(b)) => Ok(JsonValue::Bool(*b)),
        Cell::String(Some(s)) => Ok(JsonValue::String(s.clone())),
        Cell::DateTime(Some(p)) => timestamp_value(p),
        Cell::SmallDateTime(Some(p)) => timestamp_value(p),
        Cell::DateTime2(Some(p)) => timestamp_value(p),
        Cell::Time(Some(t)) => {
            if t.secs < 86_400 && t.nanos < 1_000_000_000 {
                Ok(JsonValue::String(time_text(t.secs, t.nanos)))
            } else {
                let detail = String::from_str("time of day out of range");
                Err(DecodeError { detail })
            }
        },
        Cell::Date(Some(d)) => {
            if 1 <= *d && *d <= 3_652_059 {
                Ok(JsonValue::String(date_text(*d)))
            } else {
                let detail = String::from_str("date out of range");
                Err(DecodeError { detail })
            }
        },
        Cell::Undecodable(detail) => Err(DecodeError { detail: detail.clone() }),
        _ => Ok(JsonValue::Null),
    }
}

/// Every cell of every row decodes.
pub open spec fn all_decode(rows: Seq<Vec<Cell>>) -> bool {
    forall|i: int, j: int| 0 <= i < rows.len() && 0 <= j < rows[i]@.len() ==> decodes(#[trigger] rows[i]@[j])
}

/// `out` holds the generic values of `rows`, row by row and cell by cell.
pub open spec fn converted(rows: Seq<Vec<Cell>>, out: Seq<Vec<JsonValue>>) -> bool {
    &&& out.len() == rows.len()
    &&& forall|i: int| 0 <= i < rows.len() ==> (#[trigger] out[i])@.len() == rows[i]@.len()
    &&& forall|i: int, j: int| 0 <= i < rows.len() && 0 <= j < rows[i]@.len()
        ==> (#[trigger] out[i]@[j])@ == cell_generic(rows[i]@[j])
}

/// Converts one row, cell by cell in column order.
pub fn convert_row(row: &Vec<Cell>) -> (r: Result<Vec<JsonValue>, DecodeError>)
    ensures
        r is Ok <==> forall|j: int| 0 <= j < row@.len() ==> decodes(#[trigger] row@[j]),
        r matches Ok(out) ==> out@.len() == row@.len()
            && forall|j: int| 0 <= j < row@.len() ==> (#[trigger] out@[j])@ == cell_generic(row@[j]),
{
    let mut out: Vec<JsonValue> = Vec::new();
    let mut j: usize = 0;
    while j < row.len()
        invariant
            j <= row@.len(),
            out@.len() == j,
            forall|k: int| 0 <= k < j ==> decodes(#[trigger] row@[k]),
            forall|k: int| 0 <= k < j ==> (#[trigger] out@[k])@ == cell_generic(row@[k]),
        decreases row@.len() - j,
    {
        match convert_cell(&row[j]) {
            Ok(v) => out.push(v),
            Err(e) => return Err(e),
        }
        j = j + 1;
    }
    Ok(out)
}

/// Converts every row of a result set, in order.
pub fn convert_rows(rows: &Vec<Vec<Cell>>) -> (r: Result<Vec<Vec<JsonValue>>, DecodeError>)
    ensures
        r is Ok <==> all_decode(rows@),
        r matches Ok(out) ==> converted(rows@, out@),
{
    let mut out: Vec<Vec<JsonValue>> = Vec::new();
    let mut i: usize = 0;
    while i < rows.len()
        invariant
            i <= rows@.len(),
            out@.len() == i,
            forall|a: int, b: int| 0 <= a < i && 0 <= b < rows@[a]@.len() ==> decodes(#[trigger] rows@[a]@[b]),
            forall|a: int| 0 <= a < i ==> (#[trigger] out@[a])@.len() == rows@[a]@.len(),
            forall|a: int, b: int| 0 <= a < i && 0 <= b < rows@[a]@.len()
                ==> (#[trigger] out@[a]@[b])@ == cell_generic(rows@[a]@[b]),
        decreases rows@.len() - i,
    {
        match convert_row(&rows[i]) {
            Ok(v) => out.push(v),
            Err(e) => {
                assert(!all_decode(rows@)) by {
                    let j = choose|j: int| 0 <= j < rows@[i as int]@.len() && !decodes(#[trigger] rows@[i as int]@[j]);
                }
                return Err(e);
            },
        }
        i = i + 1;
    }
    Ok(out)
}

} // verus!
