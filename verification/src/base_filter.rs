//! The filter node and its compiler: one node (member, operator, ordered
//! optional values, kind) compiles into one boolean SQL fragment.

use vstd::prelude::*;
use vstd::std_specs::cmp::PartialEqSpecImpl;

use crate::error::FilterError;
use crate::filter_operator::FilterOperator;
use crate::member::MemberSymbol;
use crate::dates::{format_from_date, format_to_date};
use crate::params::{placeholder_seq, ParamsAllocator};
use crate::templates::{
    sql_add_interval, sql_binary, sql_equals, sql_in, sql_like_group, sql_not_equals, sql_not_in,
    sql_not_set, sql_set, sql_sub_interval, sql_time_range, FilterTemplates,
};
use crate::tools::FilterTools;

verus! {

/// Whether the filter constrains a dimension or a measure. Recorded for
/// downstream classification; it does not change the rendering.
#[derive(Clone, Copy, Debug, PartialEq, Eq, Structural)]
pub enum FilterType {
    Dimension,
    Measure,
}

/// The contents of the optional values that are present, nulls dropped,
/// in input order.
pub open spec fn non_null_values(vals: Seq<Option<Seq<char>>>) -> Seq<Seq<char>>
    decreases vals.len(),
{
    if vals.len() == 0 {
        Seq::empty()
    } else {
        non_null_values(vals.drop_last()) + (match vals.last() {
            Some(s) => seq![s],
            None => Seq::<Seq<char>>::empty(),
        })
    }
}

/// `count` consecutive placeholder tokens starting at position `start`.
pub open spec fn placeholders_from(start: nat, count: nat) -> Seq<Seq<char>> {
    Seq::new(count, |k: int| placeholder_seq((start + k) as nat))
}

/// A timestamp bind parameter: the placeholder at position `i`, wrapped
/// with the timestamp-with-timezone cast marker.
pub open spec fn timestamp_token(i: nat) -> Seq<char> {
    placeholder_seq(i) + "::timestamptz"@
}

/// A date-range bound extended by an interval: untouched when no interval
/// is supplied or it is the sentinel `unbounded`, otherwise pushed back
/// (lower bound) or forward (upper bound) by the interval.
pub open spec fn extended_bound(date: Seq<char>, interval: Option<Seq<char>>, is_sub: bool) -> Seq<
    char,
> {
    match interval {
        None => date,
        Some(ival) => if ival == "unbounded"@ {
            date
        } else if is_sub {
            sql_sub_interval(date, ival)
        } else {
            sql_add_interval(date, ival)
        },
    }
}

/// The operators whose rendering demands at least one supplied value.
pub open spec fn requires_one_value(op: FilterOperator) -> bool {
    op is Equal || op is NotEqual || op is Gt || op is Gte || op is Lt || op is Lte
}

/// An immutable filter node: a resolvable member, an operator, and an
/// ordered list of optional literal values. Position 0 and 1 are range
/// bounds for the date operators; 2 and 3 are optional interval extensions.
pub struct BaseFilter {
    member_evaluator: MemberSymbol,
    filter_type: FilterType,
    filter_operator: FilterOperator,
    values: Vec<Option<String>>,
    templates: FilterTemplates,
}

impl BaseFilter {
    /// The full name of the member the filter references.
    pub closed spec fn spec_member(&self) -> Seq<char> {
        self.member_evaluator@
    }

    pub closed spec fn spec_filter_type(&self) -> FilterType {
        self.filter_type
    }

    pub closed spec fn spec_filter_operator(&self) -> FilterOperator {
        self.filter_operator
    }

    /// The values, as optional character sequences.
    pub closed spec fn spec_values(&self) -> Seq<Option<Seq<char>>> {
        self.values.deep_view()
    }

    /// Whether any supplied value is NULL.
    pub open spec fn spec_contains_null(&self) -> bool {
        exists|i: int| 0 <= i < self.spec_values().len() && self.spec_values()[i] is None
    }

    /// Whether the node carries more than one value.
    pub open spec fn spec_is_array(&self) -> bool {
        self.spec_values().len() > 1
    }

    /// The three-valued-logic correction rule: a positive operator needs a
    /// null guard exactly when a value is NULL; a negated operator exactly
    /// when no value is.
    pub open spec fn spec_need_null_check(&self, is_negated: bool) -> bool {
        if is_negated {
            !self.spec_contains_null()
        } else {
            self.spec_contains_null()
        }
    }

    /// Builds a filter node. `None` for `values` stands for no values at
    /// all, distinct from a list holding a NULL element.
    pub fn try_new(
        member_evaluator: MemberSymbol,
        filter_type: FilterType,
        filter_operator: FilterOperator,
        values: Option<Vec<Option<String>>>,
    ) -> (r: Result<Self, FilterError>)
        ensures
            r matches Ok(f) && f.spec_member() == member_evaluator@ && f.spec_filter_type()
                == filter_type && f.spec_filter_operator() == filter_operator && f.spec_values()
                == (match values {
                Some(v) => v.deep_view(),
                None => Seq::<Option<Seq<char>>>::empty(),
            }),
    {
        let vals = match values {
            Some(values) => values,
            None => Vec::new(),
        };
        proof {
            if values is None {
                assert(vals.deep_view() =~= Seq::<Option<Seq<char>>>::empty());
            }
        }
        let f = BaseFilter {
            member_evaluator,
            filter_type,
            filter_operator,
            values: vals,
            templates: FilterTemplates::new(),
        };
        Ok(f)
    }

    /// A new node over the same member with another operator and values;
    /// the source node is untouched.
    pub fn change_operator(&self, filter_operator: FilterOperator, values: Vec<Option<String>>) -> (r:
        Self)
        ensures
            r.spec_filter_operator() == filter_operator,
            r.spec_values() == values.deep_view(),
            r.spec_filter_type() == self.spec_filter_type(),
            r.spec_member() == self.spec_member(),
    {
        BaseFilter {
            member_evaluator: self.member_evaluator.clone_symbol(),
            filter_type: self.filter_type,
            filter_operator,
            values,
            templates: self.templates,
        }
    }

    pub fn member_evaluator(&self) -> (r: &MemberSymbol)
        ensures
            r@ == self.spec_member(),
    {
        &self.member_evaluator
    }

    pub fn values(&self) -> (r: &Vec<Option<String>>)
        ensures
            r.deep_view() == self.spec_values(),
    {
        &self.values
    }

    pub fn filter_operator(&self) -> (r: &FilterOperator)
        ensures
            *r == self.spec_filter_operator(),
    {
        &self.filter_operator
    }

    /// The full name of the member the filter references.
    pub fn member_name(&self) -> (r: String)
        ensures
            r@ == self.spec_member(),
    {
        self.member_evaluator.full_name()
    }

    /// Whether any supplied value is NULL.
    pub fn is_values_contains_null(&self) -> (r: bool)
        ensures
            r == self.spec_contains_null(),
    {
        let mut i: usize = 0;
        while i < self.values.len()
            invariant
                i <= self.values.len(),
                self.spec_values().len() == self.values.len(),
                forall|j: int| 0 <= j < i ==> self.spec_values()[j] is Some,
            decreases self.values.len() - i,
        {
            if self.values[i].is_none() {
                assert(self.spec_values()[i as int] is None);
                return true;
            }
            i = i + 1;
        }
        false
    }

    /// Whether the node carries more than one value.
    pub fn is_array_value(&self) -> (r: bool)
        ensures
            r == self.spec_is_array(),
    {
        self.values.len() > 1
    }

    /// The three-valued-logic correction rule, as a decision: `true` for a
    /// positive operator exactly when a value is NULL, and for a negated
    /// operator exactly when no value is.
    pub fn is_need_null_check(&self, is_not: bool) -> (r: bool)
        ensures
            r == self.spec_need_null_check(is_not),
    {
        let contains_null = self.is_values_contains_null();
        if is_not {
            !contains_null
        } else {
            contains_null
        }
    }

    /// Allocates one bind parameter per non-null value, in input order, and
    /// returns the placeholder tokens; NULL elements are dropped.
    pub fn filter_and_allocate_values(&self, params: &mut ParamsAllocator) -> (r: Vec<String>)
        ensures
            r.deep_view() == placeholders_from(
                old(params)@.len(),
                non_null_values(self.spec_values()).len(),
            ),
            final(params)@ == old(params)@ + non_null_values(self.spec_values()),
    {
        let ghost vals = self.spec_values();
        let mut out: Vec<String> = Vec::new();
        let mut i: usize = 0;
        while i < self.values.len()
            invariant
                i <= self.values.len(),
                vals == self.spec_values(),
                vals.len() == self.values.len(),
                out.deep_view() =~= placeholders_from(
                    old(params)@.len(),
                    non_null_values(vals.take(i as int)).len(),
                ),
                params@ == old(params)@ + non_null_values(vals.take(i as int)),
            decreases self.values.len() - i,
        {
            proof {
                assert(vals.take(i + 1).drop_last() =~= vals.take(i as int));
                assert(vals.take(i + 1).last() == vals[i as int]);
            }
            match &self.values[i] {
                Some(value) => {
                    let ghost prev_out = out.deep_view();
                    let ghost prev_count = non_null_values(vals.take(i as int)).len();
                    let token = params.allocate_param(value.as_str());
                    out.push(token);
                    proof {
                        assert(non_null_values(vals.take(i + 1)) =~= non_null_values(
                            vals.take(i as int),
                        ).push(vals[i as int]->0));
                        assert(out.deep_view() =~= prev_out.push(token@));
                        assert(token@ == placeholder_seq(old(params)@.len() + prev_count));
                        assert(out.deep_view() =~= placeholders_from(
                            old(params)@.len(),
                            non_null_values(vals.take(i + 1)).len(),
                        ));
                        assert(params@ =~= old(params)@ + non_null_values(vals.take(i + 1)));
                    }
                },
                None => {
                    proof {
                        assert(non_null_values(vals.take(i + 1)) =~= non_null_values(
                            vals.take(i as int),
                        ));
                    }
                },
            }
            i = i + 1;
        }
        proof {
            assert(vals.take(self.values.len() as int) =~= vals);
        }
        out
    }

    /// The placeholder for the first value, the SQL NULL keyword when that
    /// value is a NULL element, and an argument-count error when there is
    /// no value at all.
    pub fn first_param(&self, params: &mut ParamsAllocator) -> (r: Result<String, FilterError>)
        ensures
            self.spec_values().len() == 0 ==> (r matches Err(e) && e == (
            FilterError::ArgumentCount { expected: 1, got: 0 }) && final(params)@ == old(params)@),
            self.spec_values().len() > 0 && self.spec_values()[0] is Some ==> (r matches Ok(s) && s@
                == placeholder_seq(old(params)@.len()) && final(params)@ == old(params)@.push(
                self.spec_values()[0]->0,
            )),
            self.spec_values().len() > 0 && self.spec_values()[0] is None ==> (r matches Ok(s) && s@
                == "NULL"@ && final(params)@ == old(params)@),
    {
        if self.values.len() == 0 {
            Err(FilterError::ArgumentCount { expected: 1, got: 0 })
        } else {
            match &self.values[0] {
                Some(value) => Ok(params.allocate_param(value.as_str())),
                None => Ok(String::from_str("NULL")),
            }
        }
    }

    fn allocate_timestamp_param(&self, param: &str, params: &mut ParamsAllocator) -> (r: String)
        ensures
            final(params)@ == old(params)@.push(param@),
            r@ == timestamp_token(old(params)@.len()),
    {
        let mut token = params.allocate_param(param);
        token.append("::timestamptz");
        assert(token@ =~= timestamp_token(old(params)@.len()));
        token
    }

    /// The equality strategy: many values become set membership, a sole
    /// NULL becomes a presence test (never a literal `= NULL`), and one
    /// non-null value becomes a plain comparison.
    pub fn equals_where(&self, member_sql: &str, params: &mut ParamsAllocator) -> (r: Result<
        String,
        FilterError,
    >)
        ensures
            self.spec_is_array() ==> (r matches Ok(s) && s@ == sql_in(
                member_sql@,
                placeholders_from(old(params)@.len(), non_null_values(self.spec_values()).len()),
                self.spec_contains_null(),
            ) && final(params)@ == old(params)@ + non_null_values(self.spec_values())),
            !self.spec_is_array() && self.spec_contains_null() ==> (r matches Ok(s) && s@
                == sql_not_set(member_sql@) && final(params)@ == old(params)@),
            !self.spec_is_array() && !self.spec_contains_null() && self.spec_values().len() == 0
                ==> (r matches Err(e) && e == (FilterError::ArgumentCount { expected: 1, got: 0 })
                && final(params)@ == old(params)@),
            !self.spec_is_array() && !self.spec_contains_null() && self.spec_values().len() == 1
                ==> (r matches Ok(s) && s@ == sql_equals(
                member_sql@,
                placeholder_seq(old(params)@.len()),
                false,
            ) && final(params)@ == old(params)@.push(self.spec_values()[0]->0)),
    {
        let need_null_check = self.is_need_null_check(false);
        if self.is_array_value() {
            let vals = self.filter_and_allocate_values(params);
            Ok(self.templates.in_where(String::from_str(member_sql), vals, need_null_check))
        } else if self.is_values_contains_null() {
            Ok(self.templates.not_set_where(String::from_str(member_sql)))
        } else {
            let param = self.first_param(params)?;
            Ok(self.templates.equals(String::from_str(member_sql), param, need_null_check))
        }
    }

    /// The inequality strategy, the mirror of `equals_where`: many values
    /// become negated set membership, a sole NULL a positive presence test,
    /// one non-null value a `<>` comparison with the inverted null guard.
    pub fn not_equals_where(&self, member_sql: &str, params: &mut ParamsAllocator) -> (r: Result<
        String,
        FilterError,
    >)
        ensures
            self.spec_is_array() ==> (r matches Ok(s) && s@ == sql_not_in(
                member_sql@,
                placeholders_from(old(params)@.len(), non_null_values(self.spec_values()).len()),
                !self.spec_contains_null(),
            ) && final(params)@ == old(params)@ + non_null_values(self.spec_values())),
            !self.spec_is_array() && self.spec_contains_null() ==> (r matches Ok(s) && s@
                == sql_set(member_sql@) && final(params)@ == old(params)@),
            !self.spec_is_array() && !self.spec_contains_null() && self.spec_values().len() == 0
                ==> (r matches Err(e) && e == (FilterError::ArgumentCount { expected: 1, got: 0 })
                && final(params)@ == old(params)@),
            !self.spec_is_array() && !self.spec_contains_null() && self.spec_values().len() == 1
                ==> (r matches Ok(s) && s@ == sql_not_equals(
                member_sql@,
                placeholder_seq(old(params)@.len()),
                true,
            ) && final(params)@ == old(params)@.push(self.spec_values()[0]->0)),
    {
        let need_null_check = self.is_need_null_check(true);
        if self.is_array_value() {
            let vals = self.filter_and_allocate_values(params);
            Ok(self.templates.not_in_where(String::from_str(member_sql), vals, need_null_check))
        } else if self.is_values_contains_null() {
            Ok(self.templates.set_where(String::from_str(member_sql)))
        } else {
            let param = self.first_param(params)?;
            Ok(self.templates.not_equals(String::from_str(member_sql), param, need_null_check))
        }
    }

    /// Set membership over every non-null value.
    pub fn in_where(&self, member_sql: &str, params: &mut ParamsAllocator) -> (r: Result<
        String,
        FilterError,
    >)
        ensures
            r matches Ok(s) && s@ == sql_in(
                member_sql@,
                placeholders_from(old(params)@.len(), non_null_values(self.spec_values()).len()),
                self.spec_need_null_check(false),
            ),
            final(params)@ == old(params)@ + non_null_values(self.spec_values()),
    {
        let need_null_check = self.is_need_null_check(false);
        let vals = self.filter_and_allocate_values(params);
        Ok(self.templates.in_where(String::from_str(member_sql), vals, need_null_check))
    }

    /// Negated set membership over every non-null value.
    pub fn not_in_where(&self, member_sql: &str, params: &mut ParamsAllocator) -> (r: Result<
        String,
        FilterError,
    >)
        ensures
            r matches Ok(s) && s@ == sql_not_in(
                member_sql@,
                placeholders_from(old(params)@.len(), non_null_values(self.spec_values()).len()),
                self.spec_need_null_check(true),
            ),
            final(params)@ == old(params)@ + non_null_values(self.spec_values()),
    {
        let need_null_check = self.is_need_null_check(true);
        let vals = self.filter_and_allocate_values(params);
        Ok(self.templates.not_in_where(String::from_str(member_sql), vals, need_null_check))
    }

    /// Pure presence test; any supplied values are ignored.
    pub fn set_where(&self, member_sql: &str) -> (r: Result<String, FilterError>)
        ensures
            r matches Ok(s) && s@ == sql_set(member_sql@),
    {
        Ok(self.templates.set_where(String::from_str(member_sql)))
    }

    /// Pure absence test; any supplied values are ignored.
    pub fn not_set_where(&self, member_sql: &str) -> (r: Result<String, FilterError>)
        ensures
            r matches Ok(s) && s@ == sql_not_set(member_sql@),
    {
        Ok(self.templates.not_set_where(String::from_str(member_sql)))
    }

    pub fn gt_where(&self, member_sql: &str, params: &mut ParamsAllocator) -> (r: Result<
        String,
        FilterError,
    >)
        ensures
            self.spec_values().len() == 0 ==> (r matches Err(e) && e == (
            FilterError::ArgumentCount { expected: 1, got: 0 }) && final(params)@ == old(params)@),
            self.spec_values().len() > 0 && self.spec_values()[0] is Some ==> (r matches Ok(s) && s@
                == sql_binary(member_sql@, " > "@, placeholder_seq(old(params)@.len())) && final(params)@ == old(params)@.push(self.spec_values()[0]->0)),
            self.spec_values().len() > 0 && self.spec_values()[0] is None ==> (r matches Ok(s) && s@
                == sql_binary(member_sql@, " > "@, "NULL"@) && final(params)@ == old(params)@),
    {
        let param = self.first_param(params)?;
        Ok(self.templates.gt(String::from_str(member_sql), param))
    }

    pub fn gte_where(&self, member_sql: &str, params: &mut ParamsAllocator) -> (r: Result<
        String,
        FilterError,
    >)
        ensures
            self.spec_values().len() == 0 ==> (r matches Err(e) && e == (
            FilterError::ArgumentCount { expected: 1, got: 0 }) && final(params)@ == old(params)@),
            self.spec_values().len() > 0 && self.spec_values()[0] is Some ==> (r matches Ok(s) && s@
                == sql_binary(member_sql@, " >= "@, placeholder_seq(old(params)@.len())) && final(params)@ == old(params)@.push(self.spec_values()[0]->0)),
            self.spec_values().len() > 0 && self.spec_values()[0] is None ==> (r matches Ok(s) && s@
                == sql_binary(member_sql@, " >= "@, "NULL"@) && final(params)@ == old(params)@),
    {
        let param = self.first_param(params)?;
        Ok(self.templates.gte(String::from_str(member_sql), param))
    }

    pub fn lt_where(&self, member_sql: &str, params: &mut ParamsAllocator) -> (r: Result<
        String,
        FilterError,
    >)
        ensures
            self.spec_values().len() == 0 ==> (r matches Err(e) && e == (
            FilterError::ArgumentCount { expected: 1, got: 0 }) && final(params)@ == old(params)@),
            self.spec_values().len() > 0 && self.spec_values()[0] is Some ==> (r matches Ok(s) && s@
                == sql_binary(member_sql@, " < "@, placeholder_seq(old(params)@.len())) && final(params)@ == old(params)@.push(self.spec_values()[0]->0)),
            self.spec_values().len() > 0 && self.spec_values()[0] is None ==> (r matches Ok(s) && s@
                == sql_binary(member_sql@, " < "@, "NULL"@) && final(params)@ == old(params)@),
    {
        let param = self.first_param(params)?;
        Ok(self.templates.lt(String::from_str(member_sql), param))
    }

    pub fn lte_where(&self, member_sql: &str, params: &mut ParamsAllocator) -> (r: Result<
        String,
        FilterError,
    >)
        ensures
            self.spec_values().len() == 0 ==> (r matches Err(e) && e == (
            FilterError::ArgumentCount { expected: 1, got: 0 }) && final(params)@ == old(params)@),
            self.spec_values().len() > 0 && self.spec_values()[0] is Some ==> (r matches Ok(s) && s@
                == sql_binary(member_sql@, " <= "@, placeholder_seq(old(params)@.len())) && final(params)@ == old(params)@.push(self.spec_values()[0]->0)),
            self.spec_values().len() > 0 && self.spec_values()[0] is None ==> (r matches Ok(s) && s@
                == sql_binary(member_sql@, " <= "@, "NULL"@) && final(params)@ == old(params)@),
    {
        let param = self.first_param(params)?;
        Ok(self.templates.lte(String::from_str(member_sql), param))
    }

    /// One case-insensitive pattern fragment per non-null value, joined
    /// with ` OR ` for the positive forms and ` AND ` for the negated ones
    /// (De Morgan over several NOT-LIKE conditions), then the null guard
    /// demanded by three-valued logic.
    pub fn like_or_where(
        &self,
        member_sql: &str,
        not: bool,
        start_wild: bool,
        end_wild: bool,
        params: &mut ParamsAllocator,
    ) -> (r: Result<String, FilterError>)
        ensures
            r matches Ok(s) && s@ == sql_like_group(
                member_sql@,
                placeholders_from(old(params)@.len(), non_null_values(self.spec_values()).len()),
                not,
                start_wild,
                end_wild,
                self.spec_need_null_check(not),
            ),
            final(params)@ == old(params)@ + non_null_values(self.spec_values()),
    {
        let vals = self.filter_and_allocate_values(params);
        let ghost pats = vals.deep_view();
        let mut like_parts: Vec<String> = Vec::new();
        let mut i: usize = 0;
        while i < vals.len()
            invariant
                i <= vals.len(),
                pats == vals.deep_view(),
                pats.len() == vals.len(),
                like_parts.deep_view() =~= crate::templates::like_patterns(
                    member_sql@,
                    pats.take(i as int),
                    start_wild,
                    end_wild,
                    not,
                ),
            decreases vals.len() - i,
        {
            let ghost prev_parts = like_parts.deep_view();
            let part = self.templates.ilike(member_sql, vals[i].as_str(), start_wild, end_wild, not);
            like_parts.push(part);
            proof {
                assert(vals@[i as int]@ == pats[i as int]);
                assert(like_parts.deep_view() =~= prev_parts.push(part@));
                assert(like_parts.deep_view() =~= crate::templates::like_patterns(
                    member_sql@,
                    pats.take(i + 1),
                    start_wild,
                    end_wild,
                    not,
                ));
            }
            i = i + 1;
        }
        proof {
            assert(pats.take(vals.len() as int) =~= pats);
        }
        let logical_symbol = if not {
            " AND "
        } else {
            " OR "
        };
        let joined_parts = crate::text::join_all(&like_parts, logical_symbol);
        let mut result = String::from_str("(");
        result.append(joined_parts.as_str());
        result.append(")");
        if self.is_need_null_check(not) {
            let guard = if not {
                self.templates.and_is_not_null_check(String::from_str(member_sql))
            } else {
                self.templates.or_is_null_check(String::from_str(member_sql))
            };
            result.append(guard.as_str());
        }
        proof {
            assert(result@ =~= sql_like_group(
                member_sql@,
                pats,
                not,
                start_wild,
                end_wild,
                self.spec_need_null_check(not),
            ));
        }
        Ok(result)
    }

    pub fn contains_where(&self, member_sql: &str, params: &mut ParamsAllocator) -> (r: Result<
        String,
        FilterError,
    >)
        ensures
            r matches Ok(s) && s@ == sql_like_group(
                member_sql@,
                placeholders_from(old(params)@.len(), non_null_values(self.spec_values()).len()),
                false,
                true,
                true,
                self.spec_need_null_check(false),
            ),
            final(params)@ == old(params)@ + non_null_values(self.spec_values()),
    {
        self.like_or_where(member_sql, false, true, true, params)
    }

    pub fn not_contains_where(&self, member_sql: &str, params: &mut ParamsAllocator) -> (r: Result<
        String,
        FilterError,
    >)
        ensures
            r matches Ok(s) && s@ == sql_like_group(
                member_sql@,
                placeholders_from(old(params)@.len(), non_null_values(self.spec_values()).len()),
                true,
                true,
                true,
                self.spec_need_null_check(true),
            ),
            final(params)@ == old(params)@ + non_null_values(self.spec_values()),
    {
        self.like_or_where(member_sql, true, true, true, params)
    }

    pub fn starts_with_where(&self, member_sql: &str, params: &mut ParamsAllocator) -> (r: Result<
        String,
        FilterError,
    >)
        ensures
            r matches Ok(s) && s@ == sql_like_group(
                member_sql@,
                placeholders_from(old(params)@.len(), non_null_values(self.spec_values()).len()),
                false,
                false,
                true,
                self.spec_need_null_check(false),
            ),
            final(params)@ == old(params)@ + non_null_values(self.spec_values()),
    {
        self.like_or_where(member_sql, false, false, true, params)
    }

    pub fn not_starts_with_where(&self, member_sql: &str, params: &mut ParamsAllocator) -> (r:
        Result<String, FilterError>)
        ensures
            r matches Ok(s) && s@ == sql_like_group(
                member_sql@,
                placeholders_from(old(params)@.len(), non_null_values(self.spec_values()).len()),
                true,
                false,
                true,
                self.spec_need_null_check(true),
            ),
            final(params)@ == old(params)@ + non_null_values(self.spec_values()),
    {
        self.like_or_where(member_sql, true, false, true, params)
    }

    pub fn ends_with_where(&self, member_sql: &str, params: &mut ParamsAllocator) -> (r: Result<
        String,
        FilterError,
    >)
        ensures
            r matches Ok(s) && s@ == sql_like_group(
                member_sql@,
                placeholders_from(old(params)@.len(), non_null_values(self.spec_values()).len()),
                false,
                true,
                false,
                self.spec_need_null_check(false),
            ),
            final(params)@ == old(params)@ + non_null_values(self.spec_values()),
    {
        self.like_or_where(member_sql, false, true, false, params)
    }

    pub fn not_ends_with_where(&self, member_sql: &str, params: &mut ParamsAllocator) -> (r: Result<
        String,
        FilterError,
    >)
        ensures
            r matches Ok(s) && s@ == sql_like_group(
                member_sql@,
                placeholders_from(old(params)@.len(), non_null_values(self.spec_values()).len()),
                true,
                true,
                false,
                self.spec_need_null_check(true),
            ),
            final(params)@ == old(params)@ + non_null_values(self.spec_values()),
    {
        self.like_or_where(member_sql, true, true, false, params)
    }

    /// Normalizes, timezone-converts and allocates the two range bounds.
    /// Fails when fewer than two values are supplied, when a bound holds no
    /// value, when the precision is unsupported, or when a bound matches no
    /// accepted date shape; parameters are only allocated on success.
    pub fn allocate_date_params<T: FilterTools>(
        &self,
        tools: &T,
        params: &mut ParamsAllocator,
    ) -> (r: Result<(String, String), FilterError>)
        ensures
            self.spec_values().len() < 2 ==> (r matches Err(e) && e == (
            FilterError::ArgumentCount { expected: 2, got: self.spec_values().len() as u64 })),
            self.spec_values().len() >= 2 && self.spec_values()[0] is None ==> (r matches Err(e)
                && e == FilterError::MissingBound),
            r is Err ==> final(params)@ == old(params)@,
            r matches Ok(bounds) ==> ({
                &&& self.spec_values().len() >= 2
                &&& self.spec_values()[0] is Some
                &&& self.spec_values()[1] is Some
                &&& bounds.0@ == timestamp_token(old(params)@.len())
                &&& bounds.1@ == timestamp_token(old(params)@.len() + 1)
                &&& final(params)@.len() == old(params)@.len() + 2
            }),
    {
        if self.values.len() >= 2 {
            let from_converted = match &self.values[0] {
                Some(from_str) => {
                    let precision = tools.timestamp_precision()?;
                    let formatted = format_from_date(from_str.as_str(), precision)?;
                    tools.in_db_time_zone(formatted)?
                },
                None => {
                    return Err(FilterError::MissingBound);
                },
            };
            let to_converted = match &self.values[1] {
                Some(to_str) => {
                    let precision = tools.timestamp_precision()?;
                    let formatted = format_to_date(to_str.as_str(), precision)?;
                    tools.in_db_time_zone(formatted)?
                },
                None => {
                    return Err(FilterError::MissingBound);
                },
            };
            let from = self.allocate_timestamp_param(from_converted.as_str(), params);
            let to = self.allocate_timestamp_param(to_converted.as_str(), params);
            Ok((from, to))
        } else {
            Err(FilterError::ArgumentCount { expected: 2, got: self.values.len() as u64 })
        }
    }

    /// The date-range strategy: both bounds normalized, converted and bound
    /// as cast parameters, then rendered as a closed range.
    pub fn in_date_range<T: FilterTools>(
        &self,
        member_sql: &str,
        tools: &T,
        params: &mut ParamsAllocator,
    ) -> (r: Result<String, FilterError>)
        ensures
            self.spec_values().len() < 2 ==> (r matches Err(e) && e == (
            FilterError::ArgumentCount { expected: 2, got: self.spec_values().len() as u64 })),
            r is Err ==> final(params)@ == old(params)@,
            r matches Ok(s) ==> s@ == sql_time_range(
                member_sql@,
                timestamp_token(old(params)@.len()),
                timestamp_token(old(params)@.len() + 1),
            ) && final(params)@.len() == old(params)@.len() + 2,
    {
        let bounds = self.allocate_date_params(tools, params)?;
        let (from, to) = bounds;
        Ok(self.templates.time_range_filter(String::from_str(member_sql), from, to))
    }

    /// Extends one range bound by an interval expression, unless the
    /// interval is absent or the sentinel `unbounded`.
    pub fn extend_date_range_bound(
        &self,
        date: String,
        interval: &Option<String>,
        is_sub: bool,
    ) -> (r: Result<String, FilterError>)
        ensures
            r matches Ok(s) && s@ == extended_bound(date@, interval.deep_view(), is_sub),
    {
        match interval {
            Some(interval_str) => {
                let unbounded = String::from_str("unbounded");
                if !(*interval_str == unbounded) {
                    if is_sub {
                        Ok(self.templates.sub_interval(date, interval_str.clone()))
                    } else {
                        Ok(self.templates.add_interval(date, interval_str.clone()))
                    }
                } else {
                    Ok(date)
                }
            },
            None => Ok(date),
        }
    }

    /// The extended date-range strategy: as `in_date_range`, with the lower
    /// bound optionally pushed back by `values[2]` and the upper bound
    /// pushed forward by `values[3]`.
    pub fn in_date_range_extended<T: FilterTools>(
        &self,
        member_sql: &str,
        tools: &T,
        params: &mut ParamsAllocator,
    ) -> (r: Result<String, FilterError>)
        ensures
            self.spec_values().len() < 2 ==> (r matches Err(e) && e == (
            FilterError::ArgumentCount { expected: 2, got: self.spec_values().len() as u64 })),
            r is Err ==> final(params)@ == old(params)@,
            r matches Ok(s) ==> ({
                let from_token = timestamp_token(old(params)@.len());
                let to_token = timestamp_token(old(params)@.len() + 1);
                let from_ext = if self.spec_values().len() >= 3 {
                    extended_bound(from_token, self.spec_values()[2], true)
                } else {
                    from_token
                };
                let to_ext = if self.spec_values().len() >= 4 {
                    extended_bound(to_token, self.spec_values()[3], false)
                } else {
                    to_token
                };
                s@ == sql_time_range(member_sql@, from_ext, to_ext) && final(params)@.len() == old(params)@.len() + 2
            }),
    {
        let bounds = self.allocate_date_params(tools, params)?;
        let (from, to) = bounds;

        let from = if self.values.len() >= 3 {
            self.extend_date_range_bound(from, &self.values[2], true)?
        } else {
            from
        };

        let to = if self.values.len() >= 4 {
            self.extend_date_range_bound(to, &self.values[3], false)?
        } else {
            to
        };

        Ok(self.templates.time_range_filter(String::from_str(member_sql), from, to))
    }

    /// Compiles the node into one boolean SQL fragment: resolves the member
    /// through the supplied context, then dispatches on the operator to the
    /// matching rendering strategy. A scalar-required operator with no
    /// values, or a date-range operator with fewer than two, always fails.
    pub fn to_sql<T: FilterTools>(&self, tools: &T, params: &mut ParamsAllocator) -> (r: Result<
        String,
        FilterError,
    >)
        ensures
            self.spec_values().len() == 0 && requires_one_value(self.spec_filter_operator()) ==> r
                is Err,
            self.spec_values().len() < 2 && (self.spec_filter_operator() is InDateRange
                || self.spec_filter_operator() is InDateRangeExtended) ==> r is Err,
            r is Err ==> final(params)@ == old(params)@,
    {
        let member_sql = match tools.resolve_member(&self.member_evaluator) {
            Ok(member_sql) => member_sql,
            Err(e) => {
                return Err(e);
            },
        };
        match self.filter_operator {
            FilterOperator::Equal => self.equals_where(member_sql.as_str(), params),
            FilterOperator::NotEqual => self.not_equals_where(member_sql.as_str(), params),
            FilterOperator::InDateRange => self.in_date_range(member_sql.as_str(), tools, params),
            FilterOperator::InDateRangeExtended => self.in_date_range_extended(
                member_sql.as_str(),
                tools,
                params,
            ),
            FilterOperator::In => self.in_where(member_sql.as_str(), params),
            FilterOperator::NotIn => self.not_in_where(member_sql.as_str(), params),
            FilterOperator::IsSet => self.set_where(member_sql.as_str()),
            FilterOperator::NotSet => self.not_set_where(member_sql.as_str()),
            FilterOperator::Gt => self.gt_where(member_sql.as_str(), params),
            FilterOperator::Gte => self.gte_where(member_sql.as_str(), params),
            FilterOperator::Lt => self.lt_where(member_sql.as_str(), params),
            FilterOperator::Lte => self.lte_where(member_sql.as_str(), params),
            FilterOperator::Contains => self.contains_where(member_sql.as_str(), params),
            FilterOperator::NotContains => self.not_contains_where(member_sql.as_str(), params),
            FilterOperator::StartsWith => self.starts_with_where(member_sql.as_str(), params),
            FilterOperator::NotStartsWith => self.not_starts_with_where(member_sql.as_str(), params),
            FilterOperator::EndsWith => self.ends_with_where(member_sql.as_str(), params),
            FilterOperator::NotEndsWith => self.not_ends_with_where(member_sql.as_str(), params),
        }
    }
}

impl PartialEq for BaseFilter {
    /// Structural equality: kind, operator and values; the referenced
    /// member is intentionally left out, so nodes that express the same
    /// constraint are equal whatever expression instance they point at.
    fn eq(&self, other: &Self) -> (r: bool) {
        self.filter_type == other.filter_type && self.filter_operator == other.filter_operator
            && option_values_eq(&self.values, &other.values)
    }
}

impl PartialEqSpecImpl for BaseFilter {
    open spec fn obeys_eq_spec() -> bool {
        true
    }

    open spec fn eq_spec(&self, other: &Self) -> bool {
        self.spec_filter_type() == other.spec_filter_type() && self.spec_filter_operator()
            == other.spec_filter_operator() && self.spec_values() == other.spec_values()
    }
}

/// Element-wise comparison of two optional-value lists.
fn option_values_eq(a: &Vec<Option<String>>, b: &Vec<Option<String>>) -> (r: bool)
    ensures
        r == (a.deep_view() == b.deep_view()),
{
    if a.len() != b.len() {
        assert(a.deep_view().len() != b.deep_view().len());
        return false;
    }
    let mut i: usize = 0;
    while i < a.len()
        invariant
            i <= a.len(),
            a.deep_view().len() == a.len(),
            b.deep_view().len() == b.len(),
            a.len() == b.len(),
            forall|j: int| 0 <= j < i ==> a.deep_view()[j] == b.deep_view()[j],
        decreases a.len() - i,
    {
        let same = match (&a[i], &b[i]) {
            (Some(x), Some(y)) => *x == *y,
            (None, None) => true,
            _ => false,
        };
        if !same {
            assert(a.deep_view()[i as int] != b.deep_view()[i as int]);
            return false;
        }
        i = i + 1;
    }
    proof {
        assert(a.deep_view() =~= b.deep_view());
    }
    true
}

/// The null-guard decision is the exclusive-or of operator polarity and
/// null presence: a guard is needed exactly when the operator is negated
/// and no value is NULL, or positive and some value is.
pub proof fn lemma_need_null_check_is_xor(f: &BaseFilter, is_negated: bool)
    ensures
        f.spec_need_null_check(is_negated) == (is_negated != f.spec_contains_null()),
{
}

/// An IN-list built over `count` non-null values holds exactly `count`
/// placeholder tokens, and token `k` is the placeholder of the parameter
/// allocated at position `start + k`: one placeholder per non-null value,
/// in input order.
pub proof fn lemma_placeholders_in_order(start: nat, count: nat)
    ensures
        placeholders_from(start, count).len() == count,
        forall|k: int|
            0 <= k < count ==> placeholders_from(start, count)[k] == placeholder_seq(
                (start + k) as nat,
            ),
{
}

/// Structural equality ignores the referenced member: two nodes that agree
/// on kind, operator and values are equal, whichever member each of them
/// references.
pub proof fn lemma_eq_ignores_member(a: &BaseFilter, b: &BaseFilter)
    requires
        a.spec_filter_type() == b.spec_filter_type(),
        a.spec_filter_operator() == b.spec_filter_operator(),
        a.spec_values() == b.spec_values(),
    ensures
        vstd::std_specs::cmp::PartialEqSpec::eq_spec(a, b),
{
}

} // verus!
