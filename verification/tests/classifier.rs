//! Tests for the type classifier and the tag-character encoding.

use flightsql_slt::types::{classify, ArrowColumnType, PhysicalType};

#[test]
fn classify_boolean() {
    assert_eq!(classify(&PhysicalType::Boolean), ArrowColumnType::Boolean);
}

#[test]
fn classify_integers() {
    let ints = vec![
        PhysicalType::Int8,
        PhysicalType::Int16,
        PhysicalType::Int32,
        PhysicalType::Int64,
        PhysicalType::UInt8,
        PhysicalType::UInt16,
        PhysicalType::UInt32,
        PhysicalType::UInt64,
    ];
    for t in &ints {
        assert_eq!(classify(t), ArrowColumnType::Integer);
    }
}

#[test]
fn classify_floats_and_decimals() {
    assert_eq!(classify(&PhysicalType::Float16), ArrowColumnType::Float);
    assert_eq!(classify(&PhysicalType::Float32), ArrowColumnType::Float);
    assert_eq!(classify(&PhysicalType::Float64), ArrowColumnType::Float);
    assert_eq!(classify(&PhysicalType::Decimal128(38, 10)), ArrowColumnType::Float);
    assert_eq!(classify(&PhysicalType::Decimal256(76, 2)), ArrowColumnType::Float);
}

#[test]
fn classify_text() {
    assert_eq!(classify(&PhysicalType::Utf8), ArrowColumnType::Text);
    assert_eq!(classify(&PhysicalType::LargeUtf8), ArrowColumnType::Text);
    assert_eq!(classify(&PhysicalType::Utf8View), ArrowColumnType::Text);
}

#[test]
fn classify_dates_times_timestamps() {
    assert_eq!(classify(&PhysicalType::Date32), ArrowColumnType::DateTime);
    assert_eq!(classify(&PhysicalType::Date64), ArrowColumnType::DateTime);
    assert_eq!(classify(&PhysicalType::Time32), ArrowColumnType::DateTime);
    assert_eq!(classify(&PhysicalType::Time64), ArrowColumnType::DateTime);
    assert_eq!(classify(&PhysicalType::Timestamp), ArrowColumnType::Timestamp);
}

#[test]
fn classify_dictionary_shapes() {
    let text_dict = PhysicalType::Dictionary(
        Box::new(PhysicalType::Int32),
        Box::new(PhysicalType::Utf8),
    );
    assert_eq!(classify(&text_dict), ArrowColumnType::Text);

    let large_text_dict = PhysicalType::Dictionary(
        Box::new(PhysicalType::UInt8),
        Box::new(PhysicalType::LargeUtf8),
    );
    assert_eq!(classify(&large_text_dict), ArrowColumnType::Text);

    let int_dict = PhysicalType::Dictionary(
        Box::new(PhysicalType::Int32),
        Box::new(PhysicalType::Int64),
    );
    assert_eq!(classify(&int_dict), ArrowColumnType::Another);

    let odd_key_dict = PhysicalType::Dictionary(
        Box::new(PhysicalType::Utf8),
        Box::new(PhysicalType::Utf8),
    );
    assert_eq!(classify(&odd_key_dict), ArrowColumnType::Another);
}

#[test]
fn classify_other() {
    assert_eq!(classify(&PhysicalType::Null), ArrowColumnType::Another);
    assert_eq!(classify(&PhysicalType::Other), ArrowColumnType::Another);
}

#[test]
fn to_char_table() {
    assert_eq!(ArrowColumnType::Boolean.to_char(), 'B');
    assert_eq!(ArrowColumnType::DateTime.to_char(), 'D');
    assert_eq!(ArrowColumnType::Integer.to_char(), 'I');
    assert_eq!(ArrowColumnType::Timestamp.to_char(), 'P');
    assert_eq!(ArrowColumnType::Float.to_char(), 'R');
    assert_eq!(ArrowColumnType::Text.to_char(), 'T');
    assert_eq!(ArrowColumnType::Another.to_char(), '?');
}

#[test]
fn char_round_trip_for_named_tags() {
    for c in ['B', 'D', 'I', 'P', 'R', 'T'] {
        let decoded = ArrowColumnType::from_char(c).unwrap();
        assert_eq!(decoded.to_char(), c);
    }
}

#[test]
fn category_round_trip_through_char() {
    let categories = vec![
        ArrowColumnType::Boolean,
        ArrowColumnType::DateTime,
        ArrowColumnType::Integer,
        ArrowColumnType::Float,
        ArrowColumnType::Text,
        ArrowColumnType::Timestamp,
        ArrowColumnType::Another,
    ];
    for cat in categories {
        let c = cat.to_char();
        assert_eq!(ArrowColumnType::from_char(c), Some(cat));
    }
}

#[test]
fn unknown_chars_decode_as_another() {
    assert_eq!(ArrowColumnType::from_char('?'), Some(ArrowColumnType::Another));
    assert_eq!(ArrowColumnType::from_char('Z'), Some(ArrowColumnType::Another));
    assert_eq!(ArrowColumnType::from_char('b'), Some(ArrowColumnType::Another));
}
