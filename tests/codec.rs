use mssql_gateway::column::{convert_cell, convert_row, Cell, DateTimeParts, FloatCell, TimeParts};
use mssql_gateway::value::{bind_texts, i64_text, param_text, u64_text, JsonNumber, JsonValue};

const DAY_2024_01_15: i32 = 738_900;

fn text(s: &str) -> JsonValue {
    JsonValue::String(s.to_string())
}

#[test]
fn integer_cell_converts_to_number() {
    assert_eq!(convert_cell(&Cell::I32(Some(42))), Ok(JsonValue::Number(JsonNumber::PosInt(42))));
    assert_eq!(convert_cell(&Cell::U8(Some(255))), Ok(JsonValue::Number(JsonNumber::PosInt(255))));
    assert_eq!(convert_cell(&Cell::I16(Some(-3))), Ok(JsonValue::Number(JsonNumber::NegInt(-3))));
    assert_eq!(
        convert_cell(&Cell::I64(Some(i64::MIN))),
        Ok(JsonValue::Number(JsonNumber::NegInt(i64::MIN)))
    );
}

#[test]
fn boolean_cell_converts_to_bool() {
    assert_eq!(convert_cell(&Cell::Bit(Some(true))), Ok(JsonValue::Bool(true)));
    assert_eq!(convert_cell(&Cell::Bit(Some(false))), Ok(JsonValue::Bool(false)));
}

#[test]
fn string_cell_passes_through() {
    assert_eq!(convert_cell(&Cell::String(Some("abc".to_string()))), Ok(text("abc")));
}

#[test]
fn utc_timestamp_converts_to_rfc3339() {
    let parts = DateTimeParts { days: DAY_2024_01_15, secs: 37_800, nanos: 0 };
    assert_eq!(convert_cell(&Cell::DateTime(Some(parts))), Ok(text("2024-01-15T10:30:00+00:00")));
    let small = DateTimeParts { days: DAY_2024_01_15, secs: 37_800, nanos: 0 };
    assert_eq!(convert_cell(&Cell::SmallDateTime(Some(small))), Ok(text("2024-01-15T10:30:00+00:00")));
    let precise = DateTimeParts { days: DAY_2024_01_15, secs: 37_800, nanos: 500_000_000 };
    assert_eq!(convert_cell(&Cell::DateTime2(Some(precise))), Ok(text("2024-01-15T10:30:00.500+00:00")));
}

#[test]
fn date_and_time_use_their_canonical_text() {
    assert_eq!(convert_cell(&Cell::Date(Some(DAY_2024_01_15))), Ok(text("2024-01-15")));
    assert_eq!(convert_cell(&Cell::Date(Some(1))), Ok(text("0001-01-01")));
    assert_eq!(convert_cell(&Cell::Date(Some(3_652_059))), Ok(text("9999-12-31")));
    let t = TimeParts { secs: 37_800, nanos: 0 };
    assert_eq!(convert_cell(&Cell::Time(Some(t))), Ok(text("10:30:00")));
}

#[test]
fn unconverted_kind_and_nulls_give_null() {
    assert_eq!(convert_cell(&Cell::Other), Ok(JsonValue::Null));
    assert_eq!(convert_cell(&Cell::I32(None)), Ok(JsonValue::Null));
    assert_eq!(convert_cell(&Cell::String(None)), Ok(JsonValue::Null));
    assert_eq!(convert_cell(&Cell::DateTime(None)), Ok(JsonValue::Null));
    assert_eq!(convert_cell(&Cell::Date(None)), Ok(JsonValue::Null));
}

#[test]
fn floats_keep_their_text_and_non_finite_gives_null() {
    let finite = FloatCell { bits: 1.5f64.to_bits(), text: "1.5".to_string() };
    assert_eq!(
        convert_cell(&Cell::F64(Some(finite))),
        Ok(JsonValue::Number(JsonNumber::Float("1.5".to_string())))
    );
    let nan = FloatCell { bits: f64::NAN.to_bits(), text: String::new() };
    assert_eq!(convert_cell(&Cell::F32(Some(nan))), Ok(JsonValue::Null));
    let inf = FloatCell { bits: f64::INFINITY.to_bits(), text: String::new() };
    assert_eq!(convert_cell(&Cell::F64(Some(inf))), Ok(JsonValue::Null));
}

#[test]
fn out_of_range_dates_are_decode_failures() {
    assert!(convert_cell(&Cell::Date(Some(0))).is_err());
    assert!(convert_cell(&Cell::Date(Some(3_652_060))).is_err());
    let late = DateTimeParts { days: DAY_2024_01_15, secs: 86_400, nanos: 0 };
    assert!(convert_cell(&Cell::DateTime(Some(late))).is_err());
    assert!(convert_cell(&Cell::Time(Some(TimeParts { secs: 0, nanos: 1_000_000_000 }))).is_err());
    let failed = convert_cell(&Cell::Undecodable("bad length".to_string()));
    assert_eq!(failed.unwrap_err().detail, "bad length");
}

#[test]
fn row_converts_in_column_order() {
    let row = vec![Cell::I32(Some(1)), Cell::String(Some("x".to_string())), Cell::Other];
    assert_eq!(
        convert_row(&row),
        Ok(vec![JsonValue::Number(JsonNumber::PosInt(1)), text("x"), JsonValue::Null])
    );
    let bad = vec![Cell::I32(Some(1)), Cell::Date(Some(-5))];
    assert!(convert_row(&bad).is_err());
}

#[test]
fn parameters_bind_in_order_as_text() {
    let params = vec![text("hello"), JsonValue::Number(JsonNumber::PosInt(5))];
    assert_eq!(bind_texts(&params), vec!["hello".to_string(), "5".to_string()]);
}

#[test]
fn every_parameter_kind_has_a_text() {
    assert_eq!(param_text(&JsonValue::Null), "null");
    assert_eq!(param_text(&JsonValue::Bool(true)), "true");
    assert_eq!(param_text(&JsonValue::Bool(false)), "false");
    assert_eq!(param_text(&JsonValue::Number(JsonNumber::NegInt(-12))), "-12");
    assert_eq!(param_text(&JsonValue::Number(JsonNumber::Float("2.5".to_string()))), "2.5");
    assert_eq!(param_text(&JsonValue::Array("[1,2]".to_string())), "[1,2]");
    assert_eq!(param_text(&JsonValue::Object("{\"a\":1}".to_string())), "{\"a\":1}");
}

#[test]
fn integers_are_written_in_decimal() {
    assert_eq!(u64_text(0), "0");
    assert_eq!(u64_text(1907), "1907");
    assert_eq!(u64_text(u64::MAX), "18446744073709551615");
    assert_eq!(i64_text(-1), "-1");
    assert_eq!(i64_text(i64::MIN), "-9223372036854775808");
    assert_eq!(i64_text(i64::MAX), "9223372036854775807");
}
