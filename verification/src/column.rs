//! The result normalizer: schema compatibility checking, per-cell
//! canonicalization, and assembly of the final row matrix with multi-line
//! row expansion.  Cell canonicalization erases representational noise —
//! null encodings, NaN sign, float rounding artifacts, decimal scale,
//! empty-string ambiguity — while preserving semantic equality.

use vstd::prelude::*;
use vstd::string::StringExecFns;
use vstd::string::StrSliceExecFns;
use crate::data::{Batch, Column, Field, Schema, spec_schema_contains};
use crate::error::FlightSqlLogicTestError;
use crate::expand::{expand_row, spec_expand_row};
use crate::numeric::{canon_decimal, decimal_128_to_str, decimal_256_to_str, float_to_str};
use crate::numeric::{fmt_decimal, spec_float_string, spec_scaled_literal};
use crate::text::{push_char, i128_to_string, spec_int_string};
use crate::types::{ArrowColumnType, classify, spec_classify, PhysicalType};

verus! {

/// The sentinel string rendered for every null cell.
pub open spec fn spec_null_string() -> Seq<char> {
    "NULL"@
}

/// The canonical text of a boolean cell.
pub open spec fn spec_bool_string(b: bool) -> Seq<char> {
    if b {
        "true"@
    } else {
        "false"@
    }
}

/// Renders a boolean cell.
pub fn bool_to_str(value: bool) -> (r: String)
    ensures
        r@ == spec_bool_string(value),
{
    if value {
        String::from_str("true")
    } else {
        String::from_str("false")
    }
}

/// `s` without its trailing newline characters.
pub open spec fn spec_trim_newlines(s: Seq<char>) -> Seq<char>
    decreases s.len(),
{
    if s.len() > 0 && s.last() == '\n' {
        spec_trim_newlines(s.drop_last())
    } else {
        s
    }
}

/// What one character contributes to NUL-escaped text: a NUL byte becomes
/// the two-character escape, every other character stands for itself.
pub open spec fn spec_escaped_char(c: char) -> Seq<char> {
    if c == '\0' {
        seq!['\\', '0']
    } else {
        seq![c]
    }
}

/// `s` with every NUL character replaced by its two-character escape.
pub open spec fn spec_escape_nul(s: Seq<char>) -> Seq<char>
    decreases s.len(),
{
    if s.len() == 0 {
        Seq::empty()
    } else {
        spec_escaped_char(s[0]) + spec_escape_nul(s.skip(1))
    }
}

/// The canonical text of a text cell: the empty sentinel for an empty
/// string, otherwise the string with trailing newlines stripped and NUL
/// bytes escaped.
pub open spec fn spec_varchar(s: Seq<char>) -> Seq<char> {
    if s.len() == 0 {
        "(empty)"@
    } else {
        spec_escape_nul(spec_trim_newlines(s))
    }
}

/// Trimming stops at the last non-newline character: when everything from
/// `end` on is a newline and the character before `end` is not, the trimmed
/// string is the prefix of length `end`.
proof fn lemma_trim_newlines(s: Seq<char>, end: int)
    requires
        0 <= end <= s.len(),
        forall|m: int| end <= m < s.len() ==> #[trigger] s[m] == '\n',
        end > 0 ==> s[end - 1] != '\n',
    ensures
        spec_trim_newlines(s) == s.take(end),
    decreases s.len(),
{
    if end == s.len() {
        if s.len() > 0 {
            assert(s.last() != '\n');
        }
        assert(s.take(end) =~= s);
    } else {
        assert(s.last() == '\n');
        lemma_trim_newlines(s.drop_last(), end);
        assert(s.drop_last().take(end) =~= s.take(end));
    }
}

/// How NUL escaping changes when one character is appended.
proof fn lemma_escape_push(s: Seq<char>, c: char)
    ensures
        spec_escape_nul(s.push(c)) == spec_escape_nul(s) + spec_escaped_char(c),
    decreases s.len(),
{
    assert(spec_escape_nul(Seq::<char>::empty()) == Seq::<char>::empty());
    if s.len() == 0 {
        assert(s.push(c)[0] == c);
        assert(s.push(c).skip(1) =~= Seq::<char>::empty());
        assert(spec_escape_nul(s.push(c)) =~= spec_escape_nul(s) + spec_escaped_char(c));
    } else {
        lemma_escape_push(s.skip(1), c);
        assert(s.push(c)[0] == s[0]);
        assert(s.push(c).skip(1) =~= s.skip(1).push(c));
        assert(spec_escape_nul(s.push(c)) =~= spec_escape_nul(s) + spec_escaped_char(c));
    }
}

/// Sanitizes a text cell.
pub fn varchar_to_str(value: &str) -> (r: String)
    ensures
        r@ == spec_varchar(value@),
{
    let n = value.unicode_len();
    if n == 0 {
        return String::from_str("(empty)");
    }
    let mut end: usize = n;
    while end > 0 && value.get_char(end - 1) == '\n'
        invariant
            end <= n,
            n == value@.len(),
            forall|m: int| end <= m < n ==> #[trigger] value@[m] == '\n',
        decreases end,
    {
        end = end - 1;
    }
    proof {
        lemma_trim_newlines(value@, end as int);
    }
    let mut r = String::new();
    let mut i: usize = 0;
    while i < end
        invariant
            i <= end <= n,
            n == value@.len(),
            r@ == spec_escape_nul(value@.take(i as int)),
        decreases end - i,
    {
        let c = value.get_char(i);
        proof {
            lemma_escape_push(value@.take(i as int), c);
            assert(value@.take(i + 1 as int) =~= value@.take(i as int).push(c));
        }
        if c == '\0' {
            push_char(&mut r, '\\');
            push_char(&mut r, '0');
        } else {
            push_char(&mut r, c);
        }
        i = i + 1;
        assert(r@ =~= spec_escape_nul(value@.take(i as int)));
    }
    r
}

/// The canonical text of the cell at `row` of `col`, or the physical type
/// the generic fallback formatter could not render.  A null cell of any
/// type yields the null sentinel; a dictionary cell resolves its key into
/// the values column and canonicalizes what it finds there.
pub open spec fn spec_cell(col: Column, row: int) -> Result<Seq<char>, PhysicalType>
    decreases col,
{
    match col {
        Column::Boolean { cells } => match cells@[row] {
            Option::None => Result::Ok(spec_null_string()),
            Option::Some(b) => Result::Ok(spec_bool_string(b)),
        },
        Column::Int { cells, .. } => match cells@[row] {
            Option::None => Result::Ok(spec_null_string()),
            Option::Some(v) => Result::Ok(spec_int_string(v as int)),
        },
        Column::Float { cells, .. } => match cells@[row] {
            Option::None => Result::Ok(spec_null_string()),
            Option::Some(v) => Result::Ok(spec_float_string(v)),
        },
        Column::Decimal128 { scale, cells, .. } => match cells@[row] {
            Option::None => Result::Ok(spec_null_string()),
            Option::Some(v) => Result::Ok(canon_decimal(fmt_decimal(v as int, scale as int), 12)),
        },
        Column::Decimal256 { scale, cells, .. } => match cells@[row] {
            Option::None => Result::Ok(spec_null_string()),
            Option::Some(d) => Result::Ok(
                canon_decimal(spec_scaled_literal(d@, scale as int), 12),
            ),
        },
        Column::Text { cells, .. } => match cells@[row] {
            Option::None => Result::Ok(spec_null_string()),
            Option::Some(s) => Result::Ok(spec_varchar(s@)),
        },
        Column::Dictionary { keys, values, .. } => match keys@[row] {
            Option::None => Result::Ok(spec_null_string()),
            Option::Some(k) => spec_cell(*values, k as int),
        },
        Column::Null { .. } => Result::Ok(spec_null_string()),
        Column::Fallback { cells, .. } => match cells@[row] {
            Option::None => Result::Ok(spec_null_string()),
            Option::Some(s) => Result::Ok(s@),
        },
        Column::Unsupported { data_type, valid } => if !valid@[row] {
            Result::Ok(spec_null_string())
        } else {
            Result::Err(data_type)
        },
    }
}

/// Canonicalizes one cell.  Succeeds exactly where the cell (after any
/// dictionary resolution) is renderable, and then returns its canonical
/// text; the error names the physical type the fallback formatter could
/// not render.
pub fn cell_to_string(col: &Column, row: usize) -> (r: Result<
    String,
    FlightSqlLogicTestError,
>)
    requires
        col.wf(),
        (row as nat) < col.spec_len(),
    ensures
        match r {
            Result::Ok(s) => spec_cell(*col, row as int) == Result::<Seq<char>, PhysicalType>::Ok(
                s@,
            ),
            Result::Err(e) => {
                &&& spec_cell(*col, row as int) is Err
                &&& e == (FlightSqlLogicTestError::UnsupportedCellEncoding {
                    data_type: spec_cell(*col, row as int)->Err_0,
                })
            },
        },
    decreases *col,
{
    match col {
        Column::Boolean { cells } => match &cells[row] {
            Option::None => Result::Ok(String::from_str("NULL")),
            Option::Some(b) => Result::Ok(bool_to_str(*b)),
        },
        Column::Int { cells, .. } => match &cells[row] {
            Option::None => Result::Ok(String::from_str("NULL")),
            Option::Some(v) => Result::Ok(i128_to_string(*v)),
        },
        Column::Float { cells, .. } => match &cells[row] {
            Option::None => Result::Ok(String::from_str("NULL")),
            Option::Some(v) => {
                assert(cells@[row as int] is Some);
                Result::Ok(float_to_str(v))
            },
        },
        Column::Decimal128 { scale, cells, .. } => match &cells[row] {
            Option::None => Result::Ok(String::from_str("NULL")),
            Option::Some(v) => Result::Ok(decimal_128_to_str(*v, *scale)),
        },
        Column::Decimal256 { scale, cells, .. } => match &cells[row] {
            Option::None => Result::Ok(String::from_str("NULL")),
            Option::Some(d) => {
                assert(cells@[row as int] is Some);
                Result::Ok(decimal_256_to_str(d.as_str(), *scale))
            },
        },
        Column::Text { cells, .. } => match &cells[row] {
            Option::None => Result::Ok(String::from_str("NULL")),
            Option::Some(s) => Result::Ok(varchar_to_str(s.as_str())),
        },
        Column::Dictionary { keys, values, .. } => match &keys[row] {
            Option::None => Result::Ok(String::from_str("NULL")),
            Option::Some(k) => {
                assert(keys@[row as int] is Some);
                cell_to_string(&**values, *k)
            },
        },
        Column::Null { .. } => Result::Ok(String::from_str("NULL")),
        Column::Fallback { cells, .. } => match &cells[row] {
            Option::None => Result::Ok(String::from_str("NULL")),
            Option::Some(s) => Result::Ok(s.clone()),
        },
        Column::Unsupported { data_type, valid } => if !valid[row] {
            Result::Ok(String::from_str("NULL"))
        } else {
            Result::Err(
                FlightSqlLogicTestError::UnsupportedCellEncoding {
                    data_type: data_type.duplicate(),
                },
            )
        },
    }
}

/// A non-null boolean or integer cell, or a non-null special float value,
/// never renders as the null sentinel.  (A text cell can: the four
/// characters of the sentinel are themselves legitimate text content.)
pub proof fn lemma_null_sentinel_only_for_null(col: Column, row: int)
    requires
        col.wf(),
        0 <= row < col.spec_len(),
        match col {
            Column::Boolean { cells } => cells@[row] is Some,
            Column::Int { cells, .. } => cells@[row] is Some,
            Column::Float { cells, .. } => cells@[row] is Some && !(cells@[row]->0 is Finite),
            _ => false,
        },
    ensures
        spec_cell(col, row) is Ok,
        spec_cell(col, row)->Ok_0 != spec_null_string(),
{
    reveal_strlit("NULL");
    reveal_strlit("true");
    reveal_strlit("false");
    reveal_strlit("NaN");
    reveal_strlit("Infinity");
    reveal_strlit("-Infinity");
    match col {
        Column::Boolean { cells } => {
            let b = cells@[row]->0;
            if b {
                assert(spec_bool_string(b)[0] == 't');
            } else {
                assert(spec_bool_string(b)[0] == 'f');
            }
            assert(spec_null_string()[0] == 'N');
        },
        Column::Int { cells, .. } => {
            let v = cells@[row]->0 as int;
            if v < 0 {
                assert(spec_int_string(v)[0] == '-');
            } else {
                crate::text::lemma_nat_digits_shape(v as nat);
                assert(crate::text::is_digit(spec_int_string(v)[0]));
            }
            assert(spec_null_string()[0] == 'N');
        },
        Column::Float { cells, .. } => {
            assert(spec_null_string().len() == 4);
            assert("NaN"@.len() == 3);
            assert("Infinity"@.len() == 8);
            assert("-Infinity"@.len() == 9);
        },
        _ => {},
    }
}

/// The canonical cell texts of row `row`, from column `j` on; the first
/// unrenderable cell's type wins.
pub open spec fn spec_row_cells(b: Batch, row: int, j: int) -> Result<Seq<Seq<char>>, PhysicalType>
    decreases b.columns@.len() - j,
{
    if j < 0 || j >= b.columns@.len() {
        Result::Ok(Seq::empty())
    } else {
        match spec_cell(b.columns@[j], row) {
            Result::Err(t) => Result::Err(t),
            Result::Ok(s) => match spec_row_cells(b, row, j + 1) {
                Result::Err(t) => Result::Err(t),
                Result::Ok(rest) => Result::Ok(seq![s] + rest),
            },
        }
    }
}

/// The expanded matrix of batch `b` from row `row` on, row-major: each
/// row's canonical cells are computed, the row is expanded, and the
/// expansions are concatenated in row order.
pub open spec fn spec_batch_rows(b: Batch, row: int) -> Result<
    Seq<Seq<Seq<char>>>,
    PhysicalType,
>
    decreases b.num_rows - row,
{
    if row < 0 || row >= b.num_rows {
        Result::Ok(Seq::empty())
    } else {
        match spec_row_cells(b, row, 0) {
            Result::Err(t) => Result::Err(t),
            Result::Ok(cells) => match spec_batch_rows(b, row + 1) {
                Result::Err(t) => Result::Err(t),
                Result::Ok(rest) => Result::Ok(spec_expand_row(cells) + rest),
            },
        }
    }
}

/// The full normalization of a sequence of batches against the declared
/// schema: every batch's schema must be contained in the declared one, and
/// every cell must be renderable; the matrices of the batches are
/// concatenated in batch order.
pub open spec fn spec_convert(schema: Schema, batches: Seq<Batch>) -> Result<
    Seq<Seq<Seq<char>>>,
    FlightSqlLogicTestError,
>
    decreases batches.len(),
{
    if batches.len() == 0 {
        Result::Ok(Seq::empty())
    } else {
        let b = batches[0];
        if !spec_schema_contains(schema, b.schema) {
            Result::Err(
                FlightSqlLogicTestError::SchemaMismatch { expected: schema, actual: b.schema },
            )
        } else {
            match spec_batch_rows(b, 0) {
                Result::Err(t) => Result::Err(
                    FlightSqlLogicTestError::UnsupportedCellEncoding { data_type: t },
                ),
                Result::Ok(rows) => match spec_convert(schema, batches.skip(1)) {
                    Result::Err(e) => Result::Err(e),
                    Result::Ok(rest) => Result::Ok(rows + rest),
                },
            }
        }
    }
}

/// Whether two errors describe the same failure, payloads compared by
/// content.
pub open spec fn spec_error_like(a: FlightSqlLogicTestError, b: FlightSqlLogicTestError) -> bool {
    match (a, b) {
        (
            FlightSqlLogicTestError::SchemaMismatch { expected: e1, actual: a1 },
            FlightSqlLogicTestError::SchemaMismatch { expected: e2, actual: a2 },
        ) => e1.fields@ == e2.fields@ && a1.fields@ == a2.fields@,
        (
            FlightSqlLogicTestError::UnsupportedCellEncoding { data_type: t1 },
            FlightSqlLogicTestError::UnsupportedCellEncoding { data_type: t2 },
        ) => t1 == t2,
        (FlightSqlLogicTestError::Other(s1), FlightSqlLogicTestError::Other(s2)) => s1@ == s2@,
        _ => false,
    }
}

/// Maps each declared column to its logical category, in order.
pub fn convert_schema_to_types(columns: &Vec<Field>) -> (r: Vec<ArrowColumnType>)
    ensures
        r@.len() == columns@.len(),
        forall|i: int|
            0 <= i < columns@.len() ==> r@[i] == spec_classify(
                (#[trigger] columns@[i]).data_type,
            ),
{
    let mut r: Vec<ArrowColumnType> = Vec::new();
    let mut i: usize = 0;
    while i < columns.len()
        invariant
            i <= columns@.len(),
            r@.len() == i,
            forall|m: int|
                0 <= m < i ==> r@[m] == spec_classify((#[trigger] columns@[m]).data_type),
        decreases columns@.len() - i,
    {
        r.push(classify(&columns[i].data_type));
        i = i + 1;
    }
    r
}

/// Normalizes a query's batches into the final row matrix.  Fails — with
/// no partial matrix — exactly where a batch's schema is not contained in
/// the declared schema, or a cell is unrenderable; the error of the first
/// offending batch or cell, in batch order and row-major within a batch,
/// is returned.
pub fn convert_batches(schema: &Schema, batches: Vec<Batch>) -> (r: Result<
    Vec<Vec<String>>,
    FlightSqlLogicTestError,
>)
    requires
        forall|i: int| 0 <= i < batches@.len() ==> (#[trigger] batches@[i]).wf(),
    ensures
        match r {
            Result::Ok(m) => {
                &&& spec_convert(*schema, batches@) is Ok
                &&& m.deep_view() == spec_convert(*schema, batches@)->Ok_0
            },
            Result::Err(e) => {
                &&& spec_convert(*schema, batches@) is Err
                &&& spec_error_like(e, spec_convert(*schema, batches@)->Err_0)
            },
        },
{
    let mut rows: Vec<Vec<String>> = Vec::new();
    let mut bi: usize = 0;
    proof {
        assert(batches@.skip(0) =~= batches@);
        if spec_convert(*schema, batches@) is Ok {
            assert(rows.deep_view() + spec_convert(*schema, batches@)->Ok_0 =~= spec_convert(
                *schema,
                batches@,
            )->Ok_0);
        }
    }
    while bi < batches.len()
        invariant
            bi <= batches@.len(),
            forall|i: int| 0 <= i < batches@.len() ==> (#[trigger] batches@[i]).wf(),
            match spec_convert(*schema, batches@.skip(bi as int)) {
                Result::Ok(rest) => spec_convert(*schema, batches@) == Result::<
                    Seq<Seq<Seq<char>>>,
                    FlightSqlLogicTestError,
                >::Ok(rows.deep_view() + rest),
                Result::Err(e) => spec_convert(*schema, batches@) == Result::<
                    Seq<Seq<Seq<char>>>,
                    FlightSqlLogicTestError,
                >::Err(e),
            },
        decreases batches@.len() - bi,
    {
        let b = &batches[bi];
        let ghost suffix = batches@.skip(bi as int);
        proof {
            assert(suffix[0] == batches@[bi as int]);
            assert(suffix.skip(1) =~= batches@.skip(bi as int + 1));
        }
        if !schema.contains(&b.schema) {
            return Result::Err(
                FlightSqlLogicTestError::SchemaMismatch {
                    expected: schema.duplicate(),
                    actual: b.schema.duplicate(),
                },
            );
        }
        let ghost bval = batches@[bi as int];
        let ghost whole = spec_batch_rows(bval, 0);
        let mut brows: Vec<Vec<String>> = Vec::new();
        let mut row: usize = 0;
        proof {
            if whole is Ok {
                assert(brows.deep_view() + whole->Ok_0 =~= whole->Ok_0);
            }
        }
        while row < b.num_rows
            invariant
                row <= b.num_rows,
                b == &batches@[bi as int],
                bi < batches@.len(),
                bval == batches@[bi as int],
                whole == spec_batch_rows(bval, 0),
                spec_schema_contains(*schema, bval.schema),
                forall|i: int| 0 <= i < batches@.len() ==> (#[trigger] batches@[i]).wf(),
                match spec_batch_rows(bval, row as int) {
                    Result::Ok(rest) => whole == Result::<Seq<Seq<Seq<char>>>, PhysicalType>::Ok(
                        brows.deep_view() + rest,
                    ),
                    Result::Err(t) => whole == Result::<Seq<Seq<Seq<char>>>, PhysicalType>::Err(
                        t,
                    ),
                },
                match spec_convert(*schema, batches@.skip(bi as int)) {
                    Result::Ok(rest) => spec_convert(*schema, batches@) == Result::<
                        Seq<Seq<Seq<char>>>,
                        FlightSqlLogicTestError,
                    >::Ok(rows.deep_view() + rest),
                    Result::Err(e) => spec_convert(*schema, batches@) == Result::<
                        Seq<Seq<Seq<char>>>,
                        FlightSqlLogicTestError,
                    >::Err(e),
                },
            decreases b.num_rows - row,
        {
            let mut cells: Vec<String> = Vec::new();
            let mut j: usize = 0;
            let ghost rowspec = spec_row_cells(bval, row as int, 0);
            proof {
                if rowspec is Ok {
                    assert(cells.deep_view() + rowspec->Ok_0 =~= rowspec->Ok_0);
                }
            }
            while j < b.columns.len()
                invariant
                    j <= b.columns@.len(),
                    b == &batches@[bi as int],
                    bi < batches@.len(),
                    bval == batches@[bi as int],
                    row < b.num_rows,
                    rowspec == spec_row_cells(bval, row as int, 0),
                    whole == spec_batch_rows(bval, 0),
                    spec_schema_contains(*schema, bval.schema),
                    forall|i: int| 0 <= i < batches@.len() ==> (#[trigger] batches@[i]).wf(),
                    match spec_row_cells(bval, row as int, j as int) {
                        Result::Ok(rest) => rowspec == Result::<Seq<Seq<char>>, PhysicalType>::Ok(
                            cells.deep_view() + rest,
                        ),
                        Result::Err(t) => rowspec == Result::<Seq<Seq<char>>, PhysicalType>::Err(
                            t,
                        ),
                    },
                    match spec_batch_rows(bval, row as int) {
                        Result::Ok(rest) => whole == Result::<
                            Seq<Seq<Seq<char>>>,
                            PhysicalType,
                        >::Ok(brows.deep_view() + rest),
                        Result::Err(t) => whole == Result::<
                            Seq<Seq<Seq<char>>>,
                            PhysicalType,
                        >::Err(t),
                    },
                    match spec_convert(*schema, batches@.skip(bi as int)) {
                        Result::Ok(rest) => spec_convert(*schema, batches@) == Result::<
                            Seq<Seq<Seq<char>>>,
                            FlightSqlLogicTestError,
                        >::Ok(rows.deep_view() + rest),
                        Result::Err(e) => spec_convert(*schema, batches@) == Result::<
                            Seq<Seq<Seq<char>>>,
                            FlightSqlLogicTestError,
                        >::Err(e),
                    },
                decreases b.columns@.len() - j,
            {
                proof {
                    assert(batches@[bi as int].wf());
                }
                match cell_to_string(&b.columns[j], row) {
                    Result::Ok(s) => {
                        let ghost old_cells = cells.deep_view();
                        cells.push(s);
                        proof {
                            assert(cells.deep_view() =~= old_cells.push(s@));
                            if spec_row_cells(bval, row as int, j as int + 1) is Ok {
                                assert(old_cells.push(s@) + spec_row_cells(
                                    bval,
                                    row as int,
                                    j as int + 1,
                                )->Ok_0 =~= old_cells + (seq![s@] + spec_row_cells(
                                    bval,
                                    row as int,
                                    j as int + 1,
                                )->Ok_0));
                            }
                        }
                        j = j + 1;
                    },
                    Result::Err(e) => {
                        proof {
                            let t = spec_cell(bval.columns@[j as int], row as int)->Err_0;
                            assert(spec_row_cells(bval, row as int, j as int) == Result::<
                                Seq<Seq<char>>,
                                PhysicalType,
                            >::Err(t));
                            assert(rowspec == Result::<Seq<Seq<char>>, PhysicalType>::Err(t));
                            assert(spec_batch_rows(bval, row as int) == Result::<
                                Seq<Seq<Seq<char>>>,
                                PhysicalType,
                            >::Err(t));
                            assert(whole == Result::<Seq<Seq<Seq<char>>>, PhysicalType>::Err(t));
                            assert(batches@.skip(bi as int)[0] == bval);
                            assert(spec_convert(*schema, batches@.skip(bi as int)) == Result::<
                                Seq<Seq<Seq<char>>>,
                                FlightSqlLogicTestError,
                            >::Err(
                                FlightSqlLogicTestError::UnsupportedCellEncoding {
                                    data_type: t,
                                },
                            ));
                        }
                        return Result::Err(e);
                    },
                }
            }
            proof {
                assert(spec_row_cells(bval, row as int, b.columns@.len() as int) == Result::<
                    Seq<Seq<char>>,
                    PhysicalType,
                >::Ok(Seq::empty()));
                assert(cells.deep_view() + Seq::<Seq<char>>::empty() =~= cells.deep_view());
            }
            let ghost cellsview = cells.deep_view();
            let mut expanded = expand_row(cells);
            let ghost old_brows = brows.deep_view();
            let ghost expview = expanded.deep_view();
            brows.append(&mut expanded);
            proof {
                assert(brows.deep_view() =~= old_brows + expview);
                if spec_batch_rows(bval, row as int + 1) is Ok {
                    assert(old_brows + spec_expand_row(cellsview) + spec_batch_rows(
                        bval,
                        row as int + 1,
                    )->Ok_0 =~= old_brows + (spec_expand_row(cellsview) + spec_batch_rows(
                        bval,
                        row as int + 1,
                    )->Ok_0));
                }
            }
            row = row + 1;
        }
        proof {
            assert(spec_batch_rows(bval, b.num_rows as int) == Result::<
                Seq<Seq<Seq<char>>>,
                PhysicalType,
            >::Ok(Seq::empty()));
            assert(brows.deep_view() + Seq::<Seq<Seq<char>>>::empty() =~= brows.deep_view());
        }
        let ghost old_rows = rows.deep_view();
        let ghost brview = brows.deep_view();
        let mut moved = brows;
        rows.append(&mut moved);
        proof {
            assert(rows.deep_view() =~= old_rows + brview);
            if spec_convert(*schema, batches@.skip(bi as int + 1)) is Ok {
                assert((old_rows + brview) + spec_convert(
                    *schema,
                    batches@.skip(bi as int + 1),
                )->Ok_0 =~= old_rows + (brview + spec_convert(
                    *schema,
                    batches@.skip(bi as int + 1),
                )->Ok_0));
            }
        }
        bi = bi + 1;
    }
    proof {
        assert(batches@.skip(batches@.len() as int) =~= Seq::<Batch>::empty());
        assert(spec_convert(*schema, batches@.skip(bi as int)) == Result::<
            Seq<Seq<Seq<char>>>,
            FlightSqlLogicTestError,
        >::Ok(Seq::empty()));
        assert(rows.deep_view() + Seq::<Seq<Seq<char>>>::empty() =~= rows.deep_view());
    }
    Result::Ok(rows)
}

} // verus!
