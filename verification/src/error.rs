//! Errors a filter compilation can end in. Every failure is a user-facing
//! validation or configuration error; none is retried internally.

use vstd::prelude::*;

use crate::text::dec_str;

verus! {

/// Why a filter could not be compiled into a SQL fragment.
#[derive(Debug, PartialEq, Eq)]
pub enum FilterError {
    /// An operator required `expected` values, only `got` were supplied.
    ArgumentCount { expected: u64, got: u64 },
    /// A date-range bound is present in the value list but holds no value.
    MissingBound,
    /// The configured fractional-second precision is neither 3 nor 6.
    UnsupportedPrecision { precision: u64 },
    /// A date literal matches none of the accepted fixed shapes.
    UnrecognizedDateFormat { date: String },
    /// The referenced member could not be resolved into SQL text.
    Resolution { message: String },
    /// The template set could not assemble a fragment.
    Template { message: String },
}

/// The user-facing text of an error.
pub open spec fn error_message(e: FilterError) -> Seq<char> {
    match e {
        FilterError::ArgumentCount { expected, got } => if expected == 2 {
            "2 arguments expected for date range, got "@ + dec_str(got as nat)
        } else {
            "Expected one parameter but nothing found"@
        },
        FilterError::MissingBound => "Arguments for date range is not valid"@,
        FilterError::UnsupportedPrecision { precision } => "Unsupported timestamp precision: "@
            + dec_str(precision as nat),
        FilterError::UnrecognizedDateFormat { date } => "Unsupported date format: "@ + date@,
        FilterError::Resolution { message } => message@,
        FilterError::Template { message } => message@,
    }
}

impl FilterError {
    /// A descriptive message for the caller or the end user.
    pub fn message(&self) -> (r: String)
        ensures
            r@ == error_message(*self),
    {
        match self {
            FilterError::ArgumentCount { expected, got } => {
                if *expected == 2 {
                    let mut s = String::from_str("2 arguments expected for date range, got ");
                    let digits = crate::text::u64_to_string(*got);
                    s.append(digits.as_str());
                    assert(s@ =~= error_message(*self));
                    s
                } else {
                    String::from_str("Expected one parameter but nothing found")
                }
            },
            FilterError::MissingBound => String::from_str("Arguments for date range is not valid"),
            FilterError::UnsupportedPrecision { precision } => {
                let mut s = String::from_str("Unsupported timestamp precision: ");
                let digits = crate::text::u64_to_string(*precision);
                s.append(digits.as_str());
                assert(s@ =~= error_message(*self));
                s
            },
            FilterError::UnrecognizedDateFormat { date } => {
                let mut s = String::from_str("Unsupported date format: ");
                s.append(date.as_str());
                assert(s@ =~= error_message(*self));
                s
            },
            FilterError::Resolution { message } => message.clone(),
            FilterError::Template { message } => message.clone(),
        }
    }
}

} // verus!
