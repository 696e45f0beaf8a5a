//! Date and timestamp normalization for range bounds. Only three fixed
//! shapes are accepted: a local timestamp with a 3-digit fraction, one with
//! a 6-digit fraction, and a bare date; anything else is a format error.
//! A bare date expands to start-of-day for a lower bound and end-of-day for
//! an upper bound, at the configured fractional-second precision.

use vstd::prelude::*;

use crate::error::FilterError;
use crate::text::{append_repeated, char_repeat};

verus! {

/// An ASCII decimal digit.
pub open spec fn is_digit(c: char) -> bool {
    48 <= c as u32 && c as u32 <= 57
}

/// What the character at position `i` of a bare date `YYYY-MM-DD` must be.
pub open spec fn date_char_ok(s: Seq<char>, i: int) -> bool {
    if i == 4 || i == 7 {
        s[i] == '-'
    } else {
        is_digit(s[i])
    }
}

/// A bare date: `YYYY-MM-DD`.
pub open spec fn is_date_shape(s: Seq<char>) -> bool {
    s.len() == 10 && (forall|i: int| 0 <= i < 10 ==> date_char_ok(s, i))
}

/// What the character at position `i` of a local timestamp
/// `YYYY-MM-DDTHH:MM:SS.` + fraction must be.
pub open spec fn datetime_char_ok(s: Seq<char>, i: int) -> bool {
    if i == 4 || i == 7 {
        s[i] == '-'
    } else if i == 10 {
        s[i] == 'T'
    } else if i == 13 || i == 16 {
        s[i] == ':'
    } else if i == 19 {
        s[i] == '.'
    } else {
        is_digit(s[i])
    }
}

/// A local timestamp with a `frac`-digit fractional second part.
pub open spec fn is_datetime_shape(s: Seq<char>, frac: int) -> bool {
    s.len() == 20 + frac && (forall|i: int| 0 <= i < s.len() ==> datetime_char_ok(s, i))
}

/// Start-of-day time suffix at the given precision: `T00:00:00.000...`.
pub open spec fn day_start_suffix(precision: int) -> Seq<char> {
    "T00:00:00."@ + char_repeat('0', precision as nat)
}

/// End-of-day time suffix at the given precision: `T23:59:59.999...`.
pub open spec fn day_end_suffix(precision: int) -> Seq<char> {
    "T23:59:59."@ + char_repeat('9', precision as nat)
}

fn is_digit_char(c: char) -> (r: bool)
    ensures
        r == is_digit(c),
{
    let u = c as u32;
    48 <= u && u <= 57
}

/// Whether `s` is a bare `YYYY-MM-DD` date.
pub fn is_date_match(s: &str) -> (r: bool)
    ensures
        r == is_date_shape(s@),
{
    let n = s.unicode_len();
    if n != 10 {
        return false;
    }
    let mut i: usize = 0;
    while i < 10
        invariant
            s@.len() == 10,
            i <= 10,
            forall|j: int| 0 <= j < i ==> date_char_ok(s@, j),
        decreases 10 - i,
    {
        let c = s.get_char(i);
        let ok = if i == 4 || i == 7 {
            c == '-'
        } else {
            is_digit_char(c)
        };
        if !ok {
            assert(!date_char_ok(s@, i as int));
            return false;
        }
        i = i + 1;
    }
    true
}

/// Whether `s` is a local timestamp with a `frac`-digit fraction.
pub fn is_datetime_match(s: &str, frac: usize) -> (r: bool)
    requires
        frac <= 6,
    ensures
        r == is_datetime_shape(s@, frac as int),
{
    let n = s.unicode_len();
    if n != 20 + frac {
        return false;
    }
    let mut i: usize = 0;
    while i < n
        invariant
            s@.len() == n,
            n == 20 + frac,
            i <= n,
            forall|j: int| 0 <= j < i ==> datetime_char_ok(s@, j),
        decreases n - i,
    {
        let c = s.get_char(i);
        let ok = if i == 4 || i == 7 {
            c == '-'
        } else if i == 10 {
            c == 'T'
        } else if i == 13 || i == 16 {
            c == ':'
        } else if i == 19 {
            c == '.'
        } else {
            is_digit_char(c)
        };
        if !ok {
            assert(!datetime_char_ok(s@, i as int));
            return false;
        }
        i = i + 1;
    }
    true
}

/// Normalizes a lower date-range bound to canonical local timestamp text at
/// the configured precision. Precision 3 passes a 3-digit timestamp through;
/// precision 6 zero-pads a 3-digit one and passes a 6-digit one through; a
/// bare date expands to start of day. Everything else is rejected.
pub fn format_from_date(date: &str, precision: u64) -> (r: Result<String, FilterError>)
    ensures
        precision != 3 && precision != 6 ==> (r matches Err(e) && e == (
        FilterError::UnsupportedPrecision { precision })),
        precision == 3 ==> (if is_datetime_shape(date@, 3) {
            r matches Ok(s) && s@ == date@
        } else if is_date_shape(date@) {
            r matches Ok(s) && s@ == date@ + day_start_suffix(3)
        } else {
            r matches Err(e) && (e matches FilterError::UnrecognizedDateFormat { date: d } && d@
                == date@)
        }),
        precision == 6 ==> (if is_datetime_shape(date@, 3) {
            r matches Ok(s) && s@ == date@ + "000"@
        } else if is_datetime_shape(date@, 6) {
            r matches Ok(s) && s@ == date@
        } else if is_date_shape(date@) {
            r matches Ok(s) && s@ == date@ + day_start_suffix(6)
        } else {
            r matches Err(e) && (e matches FilterError::UnrecognizedDateFormat { date: d } && d@
                == date@)
        }),
{
    if precision == 3 {
        if is_datetime_match(date, 3) {
            return Ok(String::from_str(date));
        }
    } else if precision == 6 {
        if is_datetime_match(date, 3) {
            let mut s = String::from_str(date);
            s.append("000");
            return Ok(s);
        } else if is_datetime_match(date, 6) {
            return Ok(String::from_str(date));
        }
    } else {
        return Err(FilterError::UnsupportedPrecision { precision });
    }
    if is_date_match(date) {
        let mut s = String::from_str(date);
        s.append("T00:00:00.");
        proof {
            reveal_strlit("0");
        }
        append_repeated(&mut s, "0", precision);
        proof {
            assert("0"@[0] == '0') by {
                reveal_strlit("0");
            }
            assert(s@ =~= date@ + day_start_suffix(precision as int));
        }
        return Ok(s);
    }
    Err(FilterError::UnrecognizedDateFormat { date: String::from_str(date) })
}

/// Normalizes an upper date-range bound. As `format_from_date`, except that
/// a bare date expands to end of day, and at precision 6 a 3-digit timestamp
/// already ending in `.999` is padded with `999` instead of `000`, keeping
/// the end-of-day-inclusive convention.
pub fn format_to_date(date: &str, precision: u64) -> (r: Result<String, FilterError>)
    ensures
        precision != 3 && precision != 6 ==> (r matches Err(e) && e == (
        FilterError::UnsupportedPrecision { precision })),
        precision == 3 ==> (if is_datetime_shape(date@, 3) {
            r matches Ok(s) && s@ == date@
        } else if is_date_shape(date@) {
            r matches Ok(s) && s@ == date@ + day_end_suffix(3)
        } else {
            r matches Err(e) && (e matches FilterError::UnrecognizedDateFormat { date: d } && d@
                == date@)
        }),
        precision == 6 ==> (if is_datetime_shape(date@, 3) {
            if date@[20] == '9' && date@[21] == '9' && date@[22] == '9' {
                r matches Ok(s) && s@ == date@ + "999"@
            } else {
                r matches Ok(s) && s@ == date@ + "000"@
            }
        } else if is_datetime_shape(date@, 6) {
            r matches Ok(s) && s@ == date@
        } else if is_date_shape(date@) {
            r matches Ok(s) && s@ == date@ + day_end_suffix(6)
        } else {
            r matches Err(e) && (e matches FilterError::UnrecognizedDateFormat { date: d } && d@
                == date@)
        }),
{
    if precision == 3 {
        if is_datetime_match(date, 3) {
            return Ok(String::from_str(date));
        }
    } else if precision == 6 {
        if is_datetime_match(date, 3) {
            let mut s = String::from_str(date);
            if date.get_char(20) == '9' && date.get_char(21) == '9' && date.get_char(22) == '9' {
                s.append("999");
            } else {
                s.append("000");
            }
            return Ok(s);
        } else if is_datetime_match(date, 6) {
            return Ok(String::from_str(date));
        }
    } else {
        return Err(FilterError::UnsupportedPrecision { precision });
    }
    if is_date_match(date) {
        let mut s = String::from_str(date);
        s.append("T23:59:59.");
        proof {
            reveal_strlit("9");
        }
        append_repeated(&mut s, "9", precision);
        proof {
            assert("9"@[0] == '9') by {
                reveal_strlit("9");
            }
            assert(s@ =~= date@ + day_end_suffix(precision as int));
        }
        return Ok(s);
    }
    Err(FilterError::UnrecognizedDateFormat { date: String::from_str(date) })
}

} // verus!
