//! The failures the normalizer can surface.  All of them are fatal for the
//! query being processed: no partial row matrix accompanies an error.

use vstd::prelude::*;
use crate::data::Schema;
use crate::types::PhysicalType;

verus! {

/// An error produced while normalizing one query's result set.
#[derive(Debug)]
pub enum FlightSqlLogicTestError {
    /// A batch's schema is not contained in the declared query schema; both
    /// are carried for diagnostics.
    SchemaMismatch { expected: Schema, actual: Schema },
    /// A physical type whose representation the generic fallback formatter
    /// cannot render.
    UnsupportedCellEncoding { data_type: PhysicalType },
    /// Any other failure, described in text.
    Other(String),
}

impl From<String> for FlightSqlLogicTestError {
    fn from(value: String) -> (r: Self) {
        Self::Other(value)
    }
}

impl vstd::std_specs::convert::FromSpecImpl<String> for FlightSqlLogicTestError {
    open spec fn obeys_from_spec() -> bool {
        true
    }

    open spec fn from_spec(value: String) -> Self {
        FlightSqlLogicTestError::Other(value)
    }
}

} // verus!
