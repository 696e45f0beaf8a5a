//! The closed set of filter operators. Every operator maps to exactly one
//! rendering strategy; the dispatch matches exhaustively, so adding an
//! operator forces adding a strategy.

use vstd::prelude::*;

verus! {

/// A filter node's operator.
#[derive(Clone, Copy, Debug, PartialEq, Eq, Structural)]
pub enum FilterOperator {
    Equal,
    NotEqual,
    InDateRange,
    InDateRangeExtended,
    In,
    NotIn,
    IsSet,
    NotSet,
    Gt,
    Gte,
    Lt,
    Lte,
    Contains,
    NotContains,
    StartsWith,
    NotStartsWith,
    EndsWith,
    NotEndsWith,
}

} // verus!
