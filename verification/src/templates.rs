//! The template set: one renderer per SQL construct. The compiler decides
//! which tokens go where; these renderers decide the literal syntax. Each
//! renderer's contract states the produced text exactly, over views.

use vstd::prelude::*;

use crate::text::joined;

verus! {

/// `col = v`, or `(col = v OR col IS NULL)` with the null guard.
pub open spec fn sql_equals(col: Seq<char>, v: Seq<char>, null_check: bool) -> Seq<char> {
    if null_check {
        "("@ + col + " = "@ + v + " OR "@ + col + " IS NULL)"@
    } else {
        col + " = "@ + v
    }
}

/// `col <> v`, or `(col <> v AND col IS NOT NULL)` with the null guard.
pub open spec fn sql_not_equals(col: Seq<char>, v: Seq<char>, null_check: bool) -> Seq<char> {
    if null_check {
        "("@ + col + " <> "@ + v + " AND "@ + col + " IS NOT NULL)"@
    } else {
        col + " <> "@ + v
    }
}

/// `col IN (v1, v2, ...)`, wrapped with an `OR col IS NULL` guard if asked.
pub open spec fn sql_in(col: Seq<char>, vals: Seq<Seq<char>>, null_check: bool) -> Seq<char> {
    let base = col + " IN ("@ + joined(vals, ", "@) + ")"@;
    if null_check {
        "("@ + base + " OR "@ + col + " IS NULL)"@
    } else {
        base
    }
}

/// `col NOT IN (...)`, wrapped with an `AND col IS NOT NULL` guard if asked.
pub open spec fn sql_not_in(col: Seq<char>, vals: Seq<Seq<char>>, null_check: bool) -> Seq<char> {
    let base = col + " NOT IN ("@ + joined(vals, ", "@) + ")"@;
    if null_check {
        "("@ + base + " AND "@ + col + " IS NOT NULL)"@
    } else {
        base
    }
}

/// `col IS NOT NULL`.
pub open spec fn sql_set(col: Seq<char>) -> Seq<char> {
    col + " IS NOT NULL"@
}

/// `col IS NULL`.
pub open spec fn sql_not_set(col: Seq<char>) -> Seq<char> {
    col + " IS NULL"@
}

/// `col <op> v` for an ordering comparison, `op` being the operator text.
pub open spec fn sql_binary(col: Seq<char>, op: Seq<char>, v: Seq<char>) -> Seq<char> {
    col + op + v
}

/// A case-insensitive pattern match of `col` against the parameter `pat`,
/// with `%` wildcards concatenated on the wild ends.
pub open spec fn sql_ilike(
    col: Seq<char>,
    pat: Seq<char>,
    start_wild: bool,
    end_wild: bool,
    not: bool,
) -> Seq<char> {
    col + (if not {
        " NOT ILIKE "@
    } else {
        " ILIKE "@
    }) + (if start_wild {
        "'%' || "@
    } else {
        Seq::<char>::empty()
    }) + pat + (if end_wild {
        " || '%'"@
    } else {
        Seq::<char>::empty()
    })
}

/// One pattern fragment per parameter token, all against the same column.
pub open spec fn like_patterns(
    col: Seq<char>,
    pats: Seq<Seq<char>>,
    start_wild: bool,
    end_wild: bool,
    not: bool,
) -> Seq<Seq<char>> {
    pats.map_values(|p: Seq<char>| sql_ilike(col, p, start_wild, end_wild, not))
}

/// The full pattern-match fragment: the per-value fragments joined with
/// ` OR ` (positive) or ` AND ` (negated), parenthesized, followed by the
/// null guard where three-valued logic demands one.
pub open spec fn sql_like_group(
    col: Seq<char>,
    pats: Seq<Seq<char>>,
    not: bool,
    start_wild: bool,
    end_wild: bool,
    need_null_check: bool,
) -> Seq<char> {
    "("@ + joined(
        like_patterns(col, pats, start_wild, end_wild, not),
        if not {
            " AND "@
        } else {
            " OR "@
        },
    ) + ")"@ + (if need_null_check {
        if not {
            sql_and_is_not_null(col)
        } else {
            sql_or_is_null(col)
        }
    } else {
        Seq::<char>::empty()
    })
}

/// The disjunctive null guard: ` OR col IS NULL`.
pub open spec fn sql_or_is_null(col: Seq<char>) -> Seq<char> {
    " OR "@ + col + " IS NULL"@
}

/// The conjunctive not-null guard: ` AND col IS NOT NULL`.
pub open spec fn sql_and_is_not_null(col: Seq<char>) -> Seq<char> {
    " AND "@ + col + " IS NOT NULL"@
}

/// `col >= from AND col <= to`.
pub open spec fn sql_time_range(col: Seq<char>, from: Seq<char>, to: Seq<char>) -> Seq<char> {
    col + " >= "@ + from + " AND "@ + col + " <= "@ + to
}

/// `(date + INTERVAL 'interval')`.
pub open spec fn sql_add_interval(date: Seq<char>, interval: Seq<char>) -> Seq<char> {
    "("@ + date + " + INTERVAL '"@ + interval + "')"@
}

/// `(date - INTERVAL 'interval')`.
pub open spec fn sql_sub_interval(date: Seq<char>, interval: Seq<char>) -> Seq<char> {
    "("@ + date + " - INTERVAL '"@ + interval + "')"@
}

/// The renderer collection for one SQL dialect.
#[derive(Clone, Copy)]
pub struct FilterTemplates;

impl FilterTemplates {
    pub fn new() -> (r: Self) {
        FilterTemplates
    }

    pub fn equals(&self, column: String, value: String, need_null_check: bool) -> (r: String)
        ensures
            r@ == sql_equals(column@, value@, need_null_check),
    {
        if need_null_check {
            let mut s = String::from_str("(");
            s.append(column.as_str());
            s.append(" = ");
            s.append(value.as_str());
            s.append(" OR ");
            s.append(column.as_str());
            s.append(" IS NULL)");
            assert(s@ =~= sql_equals(column@, value@, need_null_check));
            s
        } else {
            let mut s = column;
            s.append(" = ");
            s.append(value.as_str());
            assert(s@ =~= sql_equals(column@, value@, need_null_check));
            s
        }
    }

    pub fn not_equals(&self, column: String, value: String, need_null_check: bool) -> (r: String)
        ensures
            r@ == sql_not_equals(column@, value@, need_null_check),
    {
        if need_null_check {
            let mut s = String::from_str("(");
            s.append(column.as_str());
            s.append(" <> ");
            s.append(value.as_str());
            s.append(" AND ");
            s.append(column.as_str());
            s.append(" IS NOT NULL)");
            assert(s@ =~= sql_not_equals(column@, value@, need_null_check));
            s
        } else {
            let mut s = column;
            s.append(" <> ");
            s.append(value.as_str());
            assert(s@ =~= sql_not_equals(column@, value@, need_null_check));
            s
        }
    }

    pub fn in_where(&self, column: String, values: Vec<String>, need_null_check: bool) -> (r:
        String)
        ensures
            r@ == sql_in(column@, values.deep_view(), need_null_check),
    {
        let list = crate::text::join_all(&values, ", ");
        let mut s = if need_null_check {
            String::from_str("(")
        } else {
            String::new()
        };
        s.append(column.as_str());
        s.append(" IN (");
        s.append(list.as_str());
        s.append(")");
        if need_null_check {
            s.append(" OR ");
            s.append(column.as_str());
            s.append(" IS NULL)");
        }
        assert(s@ =~= sql_in(column@, values.deep_view(), need_null_check));
        s
    }

    pub fn not_in_where(&self, column: String, values: Vec<String>, need_null_check: bool) -> (r:
        String)
        ensures
            r@ == sql_not_in(column@, values.deep_view(), need_null_check),
    {
        let list = crate::text::join_all(&values, ", ");
        let mut s = if need_null_check {
            String::from_str("(")
        } else {
            String::new()
        };
        s.append(column.as_str());
        s.append(" NOT IN (");
        s.append(list.as_str());
        s.append(")");
        if need_null_check {
            s.append(" AND ");
            s.append(column.as_str());
            s.append(" IS NOT NULL)");
        }
        assert(s@ =~= sql_not_in(column@, values.deep_view(), need_null_check));
        s
    }

    pub fn set_where(&self, column: String) -> (r: String)
        ensures
            r@ == sql_set(column@),
    {
        let mut s = column;
        s.append(" IS NOT NULL");
        assert(s@ =~= sql_set(column@));
        s
    }

    pub fn not_set_where(&self, column: String) -> (r: String)
        ensures
            r@ == sql_not_set(column@),
    {
        let mut s = column;
        s.append(" IS NULL");
        assert(s@ =~= sql_not_set(column@));
        s
    }

    pub fn gt(&self, column: String, param: String) -> (r: String)
        ensures
            r@ == sql_binary(column@, " > "@, param@),
    {
        let mut s = column;
        s.append(" > ");
        s.append(param.as_str());
        assert(s@ =~= sql_binary(column@, " > "@, param@));
        s
    }

    pub fn gte(&self, column: String, param: String) -> (r: String)
        ensures
            r@ == sql_binary(column@, " >= "@, param@),
    {
        let mut s = column;
        s.append(" >= ");
        s.append(param.as_str());
        assert(s@ =~= sql_binary(column@, " >= "@, param@));
        s
    }

    pub fn lt(&self, column: String, param: String) -> (r: String)
        ensures
            r@ == sql_binary(column@, " < "@, param@),
    {
        let mut s = column;
        s.append(" < ");
        s.append(param.as_str());
        assert(s@ =~= sql_binary(column@, " < "@, param@));
        s
    }

    pub fn lte(&self, column: String, param: String) -> (r: String)
        ensures
            r@ == sql_binary(column@, " <= "@, param@),
    {
        let mut s = column;
        s.append(" <= ");
        s.append(param.as_str());
        assert(s@ =~= sql_binary(column@, " <= "@, param@));
        s
    }

    pub fn ilike(
        &self,
        column: &str,
        param: &str,
        start_wild: bool,
        end_wild: bool,
        not: bool,
    ) -> (r: String)
        ensures
            r@ == sql_ilike(column@, param@, start_wild, end_wild, not),
    {
        let mut s = String::from_str(column);
        if not {
            s.append(" NOT ILIKE ");
        } else {
            s.append(" ILIKE ");
        }
        if start_wild {
            s.append("'%' || ");
        }
        s.append(param);
        if end_wild {
            s.append(" || '%'");
        }
        assert(s@ =~= sql_ilike(column@, param@, start_wild, end_wild, not));
        s
    }

    pub fn or_is_null_check(&self, column: String) -> (r: String)
        ensures
            r@ == sql_or_is_null(column@),
    {
        let mut s = String::from_str(" OR ");
        s.append(column.as_str());
        s.append(" IS NULL");
        assert(s@ =~= sql_or_is_null(column@));
        s
    }

    pub fn and_is_not_null_check(&self, column: String) -> (r: String)
        ensures
            r@ == sql_and_is_not_null(column@),
    {
        let mut s = String::from_str(" AND ");
        s.append(column.as_str());
        s.append(" IS NOT NULL");
        assert(s@ =~= sql_and_is_not_null(column@));
        s
    }

    pub fn time_range_filter(&self, column: String, from: String, to: String) -> (r: String)
        ensures
            r@ == sql_time_range(column@, from@, to@),
    {
        let mut s = String::new();
        s.append(column.as_str());
        s.append(" >= ");
        s.append(from.as_str());
        s.append(" AND ");
        s.append(column.as_str());
        s.append(" <= ");
        s.append(to.as_str());
        assert(s@ =~= sql_time_range(column@, from@, to@));
        s
    }

    pub fn add_interval(&self, date: String, interval: String) -> (r: String)
        ensures
            r@ == sql_add_interval(date@, interval@),
    {
        let mut s = String::from_str("(");
        s.append(date.as_str());
        s.append(" + INTERVAL '");
        s.append(interval.as_str());
        s.append("')");
        assert(s@ =~= sql_add_interval(date@, interval@));
        s
    }

    pub fn sub_interval(&self, date: String, interval: String) -> (r: String)
        ensures
            r@ == sql_sub_interval(date@, interval@),
    {
        let mut s = String::from_str("(");
        s.append(date.as_str());
        s.append(" - INTERVAL '");
        s.append(interval.as_str());
        s.append("')");
        assert(s@ =~= sql_sub_interval(date@, interval@));
        s
    }
}

} // verus!
