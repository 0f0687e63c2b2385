//! The decision a driver makes once a query's results are normalized:
//! whether the query produced a row set or merely completed a statement.
//! The network client that executes queries performs its calls around this
//! choice and is outside the library.

use vstd::prelude::*;
use crate::types::ArrowColumnType;

verus! {

/// What one query execution yields for comparison: a completed statement,
/// or a row matrix with the per-column logical categories.
#[derive(Debug, PartialEq, Eq)]
pub enum DbOutput {
    StatementComplete(u64),
    Rows { types: Vec<ArrowColumnType>, rows: Vec<Vec<String>> },
}

/// Builds the output of one query from its column categories and its
/// normalized row matrix: a statement completion when both are empty, the
/// rows and categories unchanged otherwise.
pub fn build_output(types: Vec<ArrowColumnType>, rows: Vec<Vec<String>>) -> (r: DbOutput)
    ensures
        (types@.len() == 0 && rows@.len() == 0) ==> r == DbOutput::StatementComplete(0u64),
        (types@.len() > 0 || rows@.len() > 0) ==> r == (DbOutput::Rows { types, rows }),
{
    if rows.len() == 0 && types.len() == 0 {
        DbOutput::StatementComplete(0)
    } else {
        DbOutput::Rows { types, rows }
    }
}

} // verus!
