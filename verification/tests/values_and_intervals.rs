//! Typed values, NULL sentinels, integer parsing, and the duration
//! grammar.

use minerva::interval::{interval_compact_text, interval_sql_text, parse_interval};
use minerva::meas_value::{parse_i16, parse_i64, parse_meas_value, DataType, MeasValue};

#[test]
fn data_type_names_round_trip() {
    assert_eq!(DataType::from_text("smallint"), DataType::Int2);
    assert_eq!(DataType::from_text("int2"), DataType::Int2);
    assert_eq!(DataType::from_text("integer"), DataType::Integer);
    assert_eq!(DataType::from_text("bigint"), DataType::Int8);
    assert_eq!(DataType::from_text("numeric"), DataType::Numeric);
    assert_eq!(DataType::from_text("double precision"), DataType::Double);
    assert_eq!(DataType::from_text("timestamptz"), DataType::Timestamp);
    assert_eq!(DataType::from_text("something else"), DataType::Text);
    assert_eq!(DataType::Double.to_text(), "double precision");
    assert_eq!(DataType::Text.to_text(), "text");
}

#[test]
fn integer_parsing_is_exact() {
    assert_eq!(parse_i64("123"), Some(123));
    assert_eq!(parse_i64("-5"), Some(-5));
    assert_eq!(parse_i64("0"), Some(0));
    assert_eq!(parse_i64("9223372036854775807"), Some(i64::MAX));
    assert_eq!(parse_i64("-9223372036854775808"), Some(i64::MIN));
    assert_eq!(parse_i64("9223372036854775808"), None);
    assert_eq!(parse_i64(""), None);
    assert_eq!(parse_i64("-"), None);
    assert_eq!(parse_i64("12a"), None);
    assert_eq!(parse_i64("1.5"), None);
    assert_eq!(parse_i16("32767"), Some(32767));
    assert_eq!(parse_i16("32768"), None);
}

#[test]
fn absent_values_become_typed_sentinels() {
    assert!(matches!(
        MeasValue::null_value_of_type(DataType::Int2),
        MeasValue::Int2(-32768)
    ));
    assert!(matches!(
        MeasValue::null_value_of_type(DataType::Integer),
        MeasValue::Integer(-2147483648)
    ));
    assert!(matches!(
        MeasValue::null_value_of_type(DataType::Int8),
        MeasValue::Int8(i64::MIN)
    ));
    match MeasValue::null_value_of_type(DataType::Text) {
        MeasValue::Text(s) => assert_eq!(s, ""),
        _ => panic!("expected a text sentinel"),
    }
    match MeasValue::null_value_of_type(DataType::Numeric) {
        MeasValue::Numeric(s) => assert_eq!(s, "NaN"),
        _ => panic!("expected a numeric sentinel"),
    }
    match MeasValue::null_value_of_type(DataType::Timestamp) {
        MeasValue::Timestamp(s) => assert_eq!(s, "-infinity"),
        _ => panic!("expected a timestamp sentinel"),
    }
}

#[test]
fn values_parse_under_their_declared_type() {
    assert!(matches!(
        parse_meas_value(DataType::Int2, "212"),
        Some(MeasValue::Int2(212))
    ));
    assert!(parse_meas_value(DataType::Int2, "70000").is_none());
    assert!(parse_meas_value(DataType::Integer, "not a number").is_none());
    match parse_meas_value(DataType::Numeric, "212.4") {
        Some(MeasValue::Numeric(s)) => assert_eq!(s, "212.4"),
        _ => panic!("expected a numeric value"),
    }
    match parse_meas_value(DataType::Text, "hello") {
        Some(MeasValue::Text(s)) => assert_eq!(s, "hello"),
        _ => panic!("expected a text value"),
    }
}

#[test]
fn value_raw_text_renders_decimals() {
    assert_eq!(MeasValue::Int2(-32768).raw_text(), "-32768");
    assert_eq!(MeasValue::Int8(1234567890123).raw_text(), "1234567890123");
    assert_eq!(MeasValue::Numeric("212.4".to_string()).raw_text(), "212.4");
}

#[test]
fn interval_grammar_reads_both_forms() {
    assert_eq!(parse_interval("00:15:00"), Some(900));
    assert_eq!(parse_interval("01:30:00"), Some(5400));
    assert_eq!(parse_interval("1 day"), Some(86400));
    assert_eq!(parse_interval("7 days"), Some(604800));
    assert_eq!(parse_interval("2 days 01:30:00"), Some(178200));
    assert_eq!(parse_interval("15m"), Some(900));
    assert_eq!(parse_interval("1d"), Some(86400));
    assert_eq!(parse_interval("3days"), Some(259200));
    assert_eq!(parse_interval("1 mon"), Some(2592000));
    assert_eq!(parse_interval("900s"), Some(900));
    assert_eq!(parse_interval("1w"), Some(604800));
    assert_eq!(parse_interval(""), None);
    assert_eq!(parse_interval("soon"), None);
    assert_eq!(parse_interval("15"), None);
    assert_eq!(parse_interval("-15m"), None);
}

#[test]
fn interval_writing_is_exact() {
    assert_eq!(interval_sql_text(900), "900 seconds");
    assert_eq!(interval_compact_text(900), "15m");
    assert_eq!(interval_compact_text(86400), "1d");
    assert_eq!(interval_compact_text(3600), "1h");
    assert_eq!(interval_compact_text(90), "90s");
    assert_eq!(parse_interval(&interval_sql_text(12345)), Some(12345));
    assert_eq!(parse_interval(&interval_compact_text(900)), Some(900));
}
