//! A filter-expression compiler: turns a filter node (an operator plus an
//! ordered list of optional literal values, bound to a resolvable member)
//! into a parameterized SQL boolean fragment, with explicit handling of
//! SQL's three-valued logic around NULL and precision-aware normalization
//! of date-range bounds.

pub mod base_filter;
pub mod dates;
pub mod error;
pub mod filter_operator;
pub mod member;
pub mod params;
pub mod templates;
pub mod text;
pub mod tools;

pub use base_filter::{BaseFilter, FilterType};
pub use error::FilterError;
pub use filter_operator::FilterOperator;
pub use member::MemberSymbol;
pub use params::ParamsAllocator;
pub use tools::{FilterTools, NaiveTools};
