//! Tests for cell canonicalization, row expansion, and batch conversion.

use flightsql_slt::column::{
    bool_to_str, cell_to_string, convert_batches, convert_schema_to_types, varchar_to_str,
};
use flightsql_slt::data::{Batch, Column, Field, FloatWidth, IntWidth, Schema, TextKind};
use flightsql_slt::error::FlightSqlLogicTestError;
use flightsql_slt::expand::expand_row;
use flightsql_slt::numeric::{
    big_decimal_to_str, decimal_128_to_str, decimal_256_to_str, float_to_str, FloatValue,
};
use flightsql_slt::runner::{build_output, DbOutput};
use flightsql_slt::types::{ArrowColumnType, PhysicalType};

fn field(name: &str, data_type: PhysicalType) -> Field {
    Field {
        name: name.to_string(),
        data_type,
        nullable: true,
    }
}

#[test]
fn bool_cells_render_by_name() {
    assert_eq!(bool_to_str(true), "true");
    assert_eq!(bool_to_str(false), "false");
}

#[test]
fn nan_of_either_sign_is_unsigned_nan() {
    assert_eq!(float_to_str(&FloatValue::NaN), "NaN");
}

#[test]
fn infinities_render_by_name() {
    assert_eq!(float_to_str(&FloatValue::Infinity), "Infinity");
    assert_eq!(float_to_str(&FloatValue::NegInfinity), "-Infinity");
}

#[test]
fn float_one_and_decimal_one_agree() {
    let from_float = float_to_str(&FloatValue::Finite("1.0".to_string()));
    let from_decimal = decimal_128_to_str(100, 2);
    assert_eq!(from_float, "1");
    assert_eq!(from_decimal, "1");
    assert_eq!(from_float, from_decimal);
}

#[test]
fn twelve_digit_rounding_collapses_tiny_tails() {
    let r = float_to_str(&FloatValue::Finite("1.0000000000004".to_string()));
    assert_eq!(r, "1");
}

#[test]
fn float_values_keep_meaningful_digits() {
    assert_eq!(float_to_str(&FloatValue::Finite("0.5".to_string())), "0.5");
    assert_eq!(float_to_str(&FloatValue::Finite("-2.25".to_string())), "-2.25");
}

#[test]
fn big_decimal_rounding_is_explicit() {
    assert_eq!(big_decimal_to_str("1.23456", Some(2)), "1.23");
    assert_eq!(big_decimal_to_str("1.500", None), "1.5");
}

#[test]
fn decimal_128_scales_and_normalizes() {
    assert_eq!(decimal_128_to_str(12345, 2), "123.45");
    assert_eq!(decimal_128_to_str(-150, 2), "-1.5");
    assert_eq!(decimal_128_to_str(7, 0), "7");
}

#[test]
fn decimal_256_scales_and_normalizes() {
    assert_eq!(decimal_256_to_str("100", 2), "1");
    assert_eq!(decimal_256_to_str("-12345", 3), "-12.345");
    assert_eq!(decimal_256_to_str("42", 0), "42");
}

#[test]
fn empty_text_becomes_sentinel() {
    assert_eq!(varchar_to_str(""), "(empty)");
}

#[test]
fn trailing_newlines_are_stripped_and_nul_escaped() {
    assert_eq!(varchar_to_str("abc\n\n"), "abc");
    assert_eq!(varchar_to_str("a\u{0}b"), "a\\0b");
    assert_eq!(varchar_to_str("plain"), "plain");
}

#[test]
fn null_cells_render_as_null_for_every_type() {
    let columns = vec![
        Column::Boolean { cells: vec![None] },
        Column::Int {
            width: IntWidth::Int64,
            cells: vec![None],
        },
        Column::Float {
            width: FloatWidth::Double,
            cells: vec![None],
        },
        Column::Decimal128 {
            precision: 38,
            scale: 2,
            cells: vec![None],
        },
        Column::Text {
            kind: TextKind::Utf8,
            cells: vec![None],
        },
        Column::Null { len: 1 },
    ];
    for col in &columns {
        assert_eq!(cell_to_string(col, 0).unwrap(), "NULL");
    }
}

#[test]
fn integer_cells_render_in_decimal() {
    let col = Column::Int {
        width: IntWidth::Int64,
        cells: vec![
            Some(0),
            Some(-7),
            Some(i64::MAX as i128),
            Some(i64::MIN as i128),
        ],
    };
    assert_eq!(cell_to_string(&col, 0).unwrap(), "0");
    assert_eq!(cell_to_string(&col, 1).unwrap(), "-7");
    assert_eq!(cell_to_string(&col, 2).unwrap(), "9223372036854775807");
    assert_eq!(cell_to_string(&col, 3).unwrap(), "-9223372036854775808");
}

#[test]
fn dictionary_cells_resolve_through_values() {
    let col = Column::Dictionary {
        key_width: IntWidth::Int32,
        keys: vec![Some(1), None, Some(0), Some(2)],
        values: Box::new(Column::Text {
            kind: TextKind::Utf8,
            cells: vec![
                Some("hello".to_string()),
                Some("world".to_string()),
                Some("".to_string()),
            ],
        }),
    };
    assert_eq!(cell_to_string(&col, 0).unwrap(), "world");
    assert_eq!(cell_to_string(&col, 1).unwrap(), "NULL");
    assert_eq!(cell_to_string(&col, 2).unwrap(), "hello");
    assert_eq!(cell_to_string(&col, 3).unwrap(), "(empty)");
}

#[test]
fn unsupported_cells_surface_their_type() {
    let col = Column::Unsupported {
        data_type: PhysicalType::Other,
        valid: vec![false, true],
    };
    assert_eq!(cell_to_string(&col, 0).unwrap(), "NULL");
    match cell_to_string(&col, 1) {
        Err(FlightSqlLogicTestError::UnsupportedCellEncoding { data_type }) => {
            assert_eq!(data_type, PhysicalType::Other);
        }
        other => panic!("expected an unsupported-cell error, got {:?}", other),
    }
}

#[test]
fn fallback_cells_pass_through() {
    let col = Column::Fallback {
        data_type: PhysicalType::Date32,
        cells: vec![Some("2020-01-02".to_string()), None],
    };
    assert_eq!(cell_to_string(&col, 0).unwrap(), "2020-01-02");
    assert_eq!(cell_to_string(&col, 1).unwrap(), "NULL");
}

#[test]
fn row_without_newline_is_unchanged() {
    let row = vec!["a".to_string(), "b".to_string()];
    let out = expand_row(row.clone());
    assert_eq!(out, vec![row]);
}

#[test]
fn multi_line_last_cell_expands() {
    let row = vec!["x".to_string(), "a\n  b".to_string()];
    let out = expand_row(row);
    assert_eq!(
        out,
        vec![
            vec!["x".to_string()],
            vec!["01)a".to_string()],
            vec!["02)--b".to_string()],
        ]
    );
}

#[test]
fn line_numbers_pad_to_two_digits() {
    let cell = (1..=11)
        .map(|i| format!("line{}", i))
        .collect::<Vec<_>>()
        .join("\n");
    let out = expand_row(vec![cell]);
    assert_eq!(out.len(), 12);
    assert_eq!(out[0], Vec::<String>::new());
    assert_eq!(out[1], vec!["01)line1".to_string()]);
    assert_eq!(out[9], vec!["09)line9".to_string()]);
    assert_eq!(out[10], vec!["10)line10".to_string()]);
    assert_eq!(out[11], vec!["11)line11".to_string()]);
}

#[test]
fn tabs_count_as_leading_whitespace() {
    let out = expand_row(vec!["a\n\t b".to_string()]);
    assert_eq!(
        out,
        vec![
            Vec::<String>::new(),
            vec!["01)a".to_string()],
            vec!["02)--b".to_string()],
        ]
    );
}

#[test]
fn empty_row_expands_to_itself() {
    let out = expand_row(Vec::new());
    assert_eq!(out, vec![Vec::<String>::new()]);
}

fn simple_schema() -> Schema {
    Schema {
        fields: vec![
            field("flag", PhysicalType::Boolean),
            field("name", PhysicalType::Utf8),
        ],
    }
}

fn simple_batch() -> Batch {
    Batch {
        schema: simple_schema(),
        columns: vec![
            Column::Boolean {
                cells: vec![Some(true), None],
            },
            Column::Text {
                kind: TextKind::Utf8,
                cells: vec![Some("hi".to_string()), Some("".to_string())],
            },
        ],
        num_rows: 2,
    }
}

#[test]
fn convert_batches_renders_row_major() {
    let schema = simple_schema();
    let rows = convert_batches(&schema, vec![simple_batch()]).unwrap();
    assert_eq!(
        rows,
        vec![
            vec!["true".to_string(), "hi".to_string()],
            vec!["NULL".to_string(), "(empty)".to_string()],
        ]
    );
}

#[test]
fn convert_batches_preserves_batch_order() {
    let schema = simple_schema();
    let mut second = simple_batch();
    second.columns = vec![
        Column::Boolean {
            cells: vec![Some(false)],
        },
        Column::Text {
            kind: TextKind::Utf8,
            cells: vec![Some("later".to_string())],
        },
    ];
    second.num_rows = 1;
    let rows = convert_batches(&schema, vec![simple_batch(), second]).unwrap();
    assert_eq!(rows.len(), 3);
    assert_eq!(rows[2], vec!["false".to_string(), "later".to_string()]);
}

#[test]
fn convert_batches_expands_multi_line_cells() {
    let schema = Schema {
        fields: vec![field("plan", PhysicalType::Utf8)],
    };
    let batch = Batch {
        schema: Schema {
            fields: vec![field("plan", PhysicalType::Utf8)],
        },
        columns: vec![Column::Text {
            kind: TextKind::Utf8,
            cells: vec![Some("a\n  b".to_string())],
        }],
        num_rows: 1,
    };
    let rows = convert_batches(&schema, vec![batch]).unwrap();
    assert_eq!(
        rows,
        vec![
            Vec::<String>::new(),
            vec!["01)a".to_string()],
            vec!["02)--b".to_string()],
        ]
    );
}

#[test]
fn schema_mismatch_fails_without_partial_rows() {
    let schema = simple_schema();
    let mut bad = simple_batch();
    bad.schema.fields[1].name = "other".to_string();
    match convert_batches(&schema, vec![bad]) {
        Err(FlightSqlLogicTestError::SchemaMismatch { expected, actual }) => {
            assert_eq!(expected.fields[1].name, "name");
            assert_eq!(actual.fields[1].name, "other");
        }
        other => panic!("expected a schema mismatch, got {:?}", other),
    }
}

#[test]
fn unsupported_column_fails_conversion() {
    let schema = Schema {
        fields: vec![field("odd", PhysicalType::Other)],
    };
    let batch = Batch {
        schema: Schema {
            fields: vec![field("odd", PhysicalType::Other)],
        },
        columns: vec![Column::Unsupported {
            data_type: PhysicalType::Other,
            valid: vec![true],
        }],
        num_rows: 1,
    };
    match convert_batches(&schema, vec![batch]) {
        Err(FlightSqlLogicTestError::UnsupportedCellEncoding { data_type }) => {
            assert_eq!(data_type, PhysicalType::Other);
        }
        other => panic!("expected an unsupported-cell error, got {:?}", other),
    }
}

#[test]
fn schema_types_map_in_order() {
    let fields = vec![
        field("a", PhysicalType::Boolean),
        field("b", PhysicalType::Int32),
        field("c", PhysicalType::Float64),
        field("d", PhysicalType::Utf8),
    ];
    let types = convert_schema_to_types(&fields);
    assert_eq!(
        types,
        vec![
            ArrowColumnType::Boolean,
            ArrowColumnType::Integer,
            ArrowColumnType::Float,
            ArrowColumnType::Text,
        ]
    );
}

#[test]
fn empty_results_complete_a_statement() {
    assert_eq!(build_output(Vec::new(), Vec::new()), DbOutput::StatementComplete(0));
}

#[test]
fn non_empty_results_are_rows() {
    let types = vec![ArrowColumnType::Text];
    let rows = vec![vec!["hi".to_string()]];
    match build_output(types.clone(), rows.clone()) {
        DbOutput::Rows { types: t, rows: r } => {
            assert_eq!(t, types);
            assert_eq!(r, rows);
        }
        other => panic!("expected rows, got {:?}", other),
    }
}

#[test]
fn string_errors_wrap_as_other() {
    let e = FlightSqlLogicTestError::from("boom".to_string());
    match e {
        FlightSqlLogicTestError::Other(msg) => assert_eq!(msg, "boom"),
        other => panic!("expected an Other error, got {:?}", other),
    }
}
