//! The externally-owned context a compile runs against: member resolution,
//! timestamp precision and timezone conversion. The compiler promises
//! nothing about what these return; each branch validates what it gets.

use vstd::prelude::*;

use crate::error::FilterError;
use crate::member::MemberSymbol;

verus! {

/// What the compiler asks of its surroundings. Implementations decide what
/// a member resolves to, which fractional-second precision the dialect
/// uses, and how a local timestamp converts to the database timezone.
pub trait FilterTools {
    /// The SQL text of the member, or a resolution error.
    fn resolve_member(&self, member: &MemberSymbol) -> Result<String, FilterError>;

    /// The configured fractional-second precision. Values other than 3 and
    /// 6 make date formatting fail with a configuration error.
    fn timestamp_precision(&self) -> Result<u64, FilterError>;

    /// The given local timestamp text converted to the database timezone.
    fn in_db_time_zone(&self, local_timestamp: String) -> Result<String, FilterError>;
}

/// A minimal context: members resolve to their full name, the precision is
/// a stored constant, and the local timezone is the database timezone.
pub struct NaiveTools {
    pub precision: u64,
}

impl FilterTools for NaiveTools {
    fn resolve_member(&self, member: &MemberSymbol) -> (r: Result<String, FilterError>)
        ensures
            r matches Ok(s) && s@ == member@,
    {
        Ok(member.full_name())
    }

    fn timestamp_precision(&self) -> (r: Result<u64, FilterError>)
        ensures
            r matches Ok(p) && p == self.precision,
    {
        Ok(self.precision)
    }

    fn in_db_time_zone(&self, local_timestamp: String) -> (r: Result<String, FilterError>)
        ensures
            r matches Ok(s) && s@ == local_timestamp@,
    {
        Ok(local_timestamp)
    }
}

} // verus!
