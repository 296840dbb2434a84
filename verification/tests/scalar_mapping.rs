use sas_bridge::scalar::{RawPayload, RawScalar, ScalarValue, SemanticType, TimeUnit, decode};

fn num(n: i64) -> RawScalar {
    RawScalar { is_null: false, payload: RawPayload::Number(n) }
}

#[test]
fn scalar_mapping_round_trip() {
    // A raw numeric 18700.0 under a Date column: 18700 - 3653 = 15047 days.
    let d = decode(&num(18_700_000_000_000), SemanticType::Date);
    assert_eq!(d, ScalarValue::Date(15047));

    // A raw numeric 315619200.0 + 5.0 under a DateTime column: 5 seconds
    // past the compensated epoch, in microseconds.
    let dt = decode(&num(315_619_205_000_000_000), SemanticType::DateTime(TimeUnit::Microsecond));
    assert_eq!(dt, ScalarValue::DateTime(5_000_000));

    // A raw numeric 3.5 under a Time column: 3.5 seconds in nanoseconds.
    let t = decode(&num(3_500_000_000), SemanticType::Time(TimeUnit::Nanosecond));
    assert_eq!(t, ScalarValue::Time(3_500_000_000));
}

#[test]
fn null_flag_wins_over_any_tag_and_type() {
    let raw = RawScalar { is_null: true, payload: RawPayload::Number(42_000_000_000) };
    assert_eq!(decode(&raw, SemanticType::Date), ScalarValue::Null);
    assert_eq!(decode(&raw, SemanticType::Float64), ScalarValue::Null);
    let raw_text = RawScalar { is_null: true, payload: RawPayload::Text("x".to_string()) };
    assert_eq!(decode(&raw_text, SemanticType::Text), ScalarValue::Null);
}

#[test]
fn text_tag_decodes_to_text_whatever_the_column_type() {
    let raw = RawScalar { is_null: false, payload: RawPayload::Text("abc".to_string()) };
    assert_eq!(decode(&raw, SemanticType::Date), ScalarValue::Text("abc".to_string()));
    assert_eq!(decode(&raw, SemanticType::Float64), ScalarValue::Text("abc".to_string()));
}

#[test]
fn numeric_under_plain_columns_is_unchanged() {
    assert_eq!(decode(&num(7_250_000_000), SemanticType::Float64), ScalarValue::Numeric(7_250_000_000));
    assert_eq!(decode(&num(7_250_000_000), SemanticType::Int64), ScalarValue::Numeric(7_250_000_000));
    assert_eq!(decode(&num(7_250_000_000), SemanticType::Text), ScalarValue::Numeric(7_250_000_000));
}

#[test]
fn unknown_tag_decodes_to_null() {
    let raw = RawScalar { is_null: false, payload: RawPayload::Other };
    assert_eq!(decode(&raw, SemanticType::Float64), ScalarValue::Null);
    assert_eq!(decode(&raw, SemanticType::Date), ScalarValue::Null);
}

#[test]
fn date_conversion_floors_fractional_days() {
    // -1.5 raw days floors to -2 days before the offset is applied.
    let d = decode(&num(-1_500_000_000), SemanticType::Date);
    assert_eq!(d, ScalarValue::Date(-2 - 3653));
}

#[test]
fn datetime_before_the_epoch() {
    // One second before the compensated epoch: -1_000_000 microseconds.
    let dt = decode(&num(315_619_199_000_000_000), SemanticType::DateTime(TimeUnit::Millisecond));
    assert_eq!(dt, ScalarValue::DateTime(-1_000_000));
}
