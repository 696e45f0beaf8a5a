//! Compilation of filter nodes into SQL fragments, across the operator
//! strategies and the three-valued-logic guard rules.

use filter_compiler::{
    BaseFilter, FilterError, FilterOperator, FilterType, MemberSymbol, NaiveTools, ParamsAllocator,
};

fn node(op: FilterOperator, values: Vec<Option<String>>) -> BaseFilter {
    BaseFilter::try_new(
        MemberSymbol::new("orders.status".to_string()),
        FilterType::Dimension,
        op,
        Some(values),
    )
    .unwrap()
}

fn compile(f: &BaseFilter) -> (Result<String, FilterError>, Vec<String>) {
    let tools = NaiveTools { precision: 3 };
    let mut params = ParamsAllocator::new();
    let r = f.to_sql(&tools, &mut params);
    (r, params.params().clone())
}

#[test]
fn equals_scalar_renders_comparison() {
    let f = node(FilterOperator::Equal, vec![Some("shipped".to_string())]);
    let (r, params) = compile(&f);
    assert_eq!(r.unwrap(), "orders.status = $0$");
    assert_eq!(params, vec!["shipped".to_string()]);
}

#[test]
fn equals_array_renders_in_list_in_order() {
    let f = node(
        FilterOperator::Equal,
        vec![Some("a".to_string()), Some("b".to_string())],
    );
    let (r, params) = compile(&f);
    assert_eq!(r.unwrap(), "orders.status IN ($0$, $1$)");
    assert_eq!(params, vec!["a".to_string(), "b".to_string()]);
}

#[test]
fn equals_array_with_null_keeps_non_nulls_and_guards() {
    let f = node(
        FilterOperator::Equal,
        vec![Some("a".to_string()), None, Some("b".to_string())],
    );
    let (r, params) = compile(&f);
    assert_eq!(
        r.unwrap(),
        "(orders.status IN ($0$, $1$) OR orders.status IS NULL)"
    );
    assert_eq!(params, vec!["a".to_string(), "b".to_string()]);
}

#[test]
fn equals_sole_null_renders_null_test() {
    let f = node(FilterOperator::Equal, vec![None]);
    let (r, params) = compile(&f);
    assert_eq!(r.unwrap(), "orders.status IS NULL");
    assert!(params.is_empty());
}

#[test]
fn not_equals_sole_null_renders_not_null_test() {
    let f = node(FilterOperator::NotEqual, vec![None]);
    let (r, _) = compile(&f);
    assert_eq!(r.unwrap(), "orders.status IS NOT NULL");
}

#[test]
fn not_equals_scalar_excludes_nulls_explicitly() {
    let f = node(FilterOperator::NotEqual, vec![Some("x".to_string())]);
    let (r, _) = compile(&f);
    assert_eq!(r.unwrap(), "(orders.status <> $0$ AND orders.status IS NOT NULL)");
}

#[test]
fn not_equals_array_renders_not_in_list() {
    let f = node(
        FilterOperator::NotEqual,
        vec![Some("a".to_string()), Some("b".to_string())],
    );
    let (r, _) = compile(&f);
    assert_eq!(
        r.unwrap(),
        "(orders.status NOT IN ($0$, $1$) AND orders.status IS NOT NULL)"
    );
}

#[test]
fn empty_values_fail_scalar_operators() {
    for op in [
        FilterOperator::Equal,
        FilterOperator::NotEqual,
        FilterOperator::Gt,
        FilterOperator::Gte,
        FilterOperator::Lt,
        FilterOperator::Lte,
    ] {
        let f = node(op, vec![]);
        let (r, params) = compile(&f);
        assert_eq!(r.unwrap_err(), FilterError::ArgumentCount { expected: 1, got: 0 });
        assert!(params.is_empty());
    }
}

#[test]
fn empty_values_fail_date_range() {
    let f = node(FilterOperator::InDateRange, vec![]);
    let (r, _) = compile(&f);
    assert_eq!(r.unwrap_err(), FilterError::ArgumentCount { expected: 2, got: 0 });
}

#[test]
fn need_null_check_is_the_exclusive_or_rule() {
    let with_null = node(FilterOperator::Equal, vec![Some("a".to_string()), None]);
    let without_null = node(FilterOperator::Equal, vec![Some("a".to_string())]);
    assert!(with_null.is_need_null_check(false));
    assert!(!with_null.is_need_null_check(true));
    assert!(!without_null.is_need_null_check(false));
    assert!(without_null.is_need_null_check(true));
}

#[test]
fn change_operator_round_trips_and_keeps_source() {
    let f = node(FilterOperator::Equal, vec![Some("a".to_string())]);
    let new_values = vec![Some("b".to_string()), None];
    let g = f.change_operator(FilterOperator::NotIn, new_values.clone());
    assert_eq!(*g.filter_operator(), FilterOperator::NotIn);
    assert_eq!(g.values(), &new_values);
    assert_eq!(g.member_name(), "orders.status");
    assert_eq!(*f.filter_operator(), FilterOperator::Equal);
    assert_eq!(f.values(), &vec![Some("a".to_string())]);
}

#[test]
fn structural_equality_ignores_member() {
    let a = BaseFilter::try_new(
        MemberSymbol::new("orders.status".to_string()),
        FilterType::Dimension,
        FilterOperator::Equal,
        Some(vec![Some("a".to_string())]),
    )
    .unwrap();
    let b = BaseFilter::try_new(
        MemberSymbol::new("users.city".to_string()),
        FilterType::Dimension,
        FilterOperator::Equal,
        Some(vec![Some("a".to_string())]),
    )
    .unwrap();
    assert!(a == b);
    let c = a.change_operator(FilterOperator::Equal, vec![Some("b".to_string())]);
    assert!(a != c);
    let d = a.change_operator(FilterOperator::NotEqual, vec![Some("a".to_string())]);
    assert!(a != d);
}

#[test]
fn ordering_operators_render_comparisons() {
    let cases = [
        (FilterOperator::Gt, "orders.status > $0$"),
        (FilterOperator::Gte, "orders.status >= $0$"),
        (FilterOperator::Lt, "orders.status < $0$"),
        (FilterOperator::Lte, "orders.status <= $0$"),
    ];
    for (op, expected) in cases {
        let f = node(op, vec![Some("10".to_string())]);
        let (r, params) = compile(&f);
        assert_eq!(r.unwrap(), expected);
        assert_eq!(params, vec!["10".to_string()]);
    }
}

#[test]
fn ordering_with_null_value_renders_null_keyword() {
    let f = node(FilterOperator::Gt, vec![None]);
    let (r, params) = compile(&f);
    assert_eq!(r.unwrap(), "orders.status > NULL");
    assert!(params.is_empty());
}

#[test]
fn set_operators_ignore_values() {
    let f = node(FilterOperator::IsSet, vec![Some("ignored".to_string())]);
    let (r, params) = compile(&f);
    assert_eq!(r.unwrap(), "orders.status IS NOT NULL");
    assert!(params.is_empty());
    let g = node(FilterOperator::NotSet, vec![]);
    let (r, _) = compile(&g);
    assert_eq!(r.unwrap(), "orders.status IS NULL");
}

#[test]
fn in_list_drops_nulls_and_guards() {
    let f = node(
        FilterOperator::In,
        vec![Some("a".to_string()), None, Some("b".to_string())],
    );
    let (r, params) = compile(&f);
    assert_eq!(
        r.unwrap(),
        "(orders.status IN ($0$, $1$) OR orders.status IS NULL)"
    );
    assert_eq!(params, vec!["a".to_string(), "b".to_string()]);
}

#[test]
fn not_in_without_null_guards_not_null() {
    let f = node(FilterOperator::NotIn, vec![Some("a".to_string())]);
    let (r, _) = compile(&f);
    assert_eq!(
        r.unwrap(),
        "(orders.status NOT IN ($0$) AND orders.status IS NOT NULL)"
    );
}

#[test]
fn not_in_with_null_has_no_guard() {
    let f = node(FilterOperator::NotIn, vec![Some("a".to_string()), None]);
    let (r, _) = compile(&f);
    assert_eq!(r.unwrap(), "orders.status NOT IN ($0$)");
}

#[test]
fn contains_two_values_joined_with_or() {
    let f = node(
        FilterOperator::Contains,
        vec![Some("a".to_string()), Some("b".to_string())],
    );
    let (r, params) = compile(&f);
    assert_eq!(
        r.unwrap(),
        "(orders.status ILIKE '%' || $0$ || '%' OR orders.status ILIKE '%' || $1$ || '%')"
    );
    assert_eq!(params, vec!["a".to_string(), "b".to_string()]);
}

#[test]
fn not_contains_two_values_joined_with_and() {
    let f = node(
        FilterOperator::NotContains,
        vec![Some("a".to_string()), Some("b".to_string())],
    );
    let (r, _) = compile(&f);
    assert_eq!(
        r.unwrap(),
        "(orders.status NOT ILIKE '%' || $0$ || '%' AND orders.status NOT ILIKE '%' || $1$ || '%') AND orders.status IS NOT NULL"
    );
}

#[test]
fn contains_with_null_value_gets_or_null_guard() {
    let f = node(FilterOperator::Contains, vec![Some("a".to_string()), None]);
    let (r, _) = compile(&f);
    assert_eq!(
        r.unwrap(),
        "(orders.status ILIKE '%' || $0$ || '%') OR orders.status IS NULL"
    );
}

#[test]
fn starts_with_wildcard_at_end_only() {
    let f = node(FilterOperator::StartsWith, vec![Some("ab".to_string())]);
    let (r, _) = compile(&f);
    assert_eq!(r.unwrap(), "(orders.status ILIKE $0$ || '%')");
}

#[test]
fn ends_with_wildcard_at_start_only() {
    let f = node(FilterOperator::EndsWith, vec![Some("ab".to_string())]);
    let (r, _) = compile(&f);
    assert_eq!(r.unwrap(), "(orders.status ILIKE '%' || $0$)");
}

#[test]
fn not_starts_with_negates_and_guards() {
    let f = node(FilterOperator::NotStartsWith, vec![Some("ab".to_string())]);
    let (r, _) = compile(&f);
    assert_eq!(
        r.unwrap(),
        "(orders.status NOT ILIKE $0$ || '%') AND orders.status IS NOT NULL"
    );
}

#[test]
fn not_ends_with_negates_and_guards() {
    let f = node(FilterOperator::NotEndsWith, vec![Some("ab".to_string())]);
    let (r, _) = compile(&f);
    assert_eq!(
        r.unwrap(),
        "(orders.status NOT ILIKE '%' || $0$) AND orders.status IS NOT NULL"
    );
}

#[test]
fn try_new_without_values_means_empty_list() {
    let f = BaseFilter::try_new(
        MemberSymbol::new("orders.status".to_string()),
        FilterType::Measure,
        FilterOperator::IsSet,
        None,
    )
    .unwrap();
    assert!(f.values().is_empty());
    assert_eq!(f.member_evaluator().full_name(), "orders.status");
}

#[test]
fn error_messages_are_descriptive() {
    assert_eq!(
        FilterError::ArgumentCount { expected: 1, got: 0 }.message(),
        "Expected one parameter but nothing found"
    );
    assert_eq!(
        FilterError::ArgumentCount { expected: 2, got: 12 }.message(),
        "2 arguments expected for date range, got 12"
    );
    assert_eq!(
        FilterError::MissingBound.message(),
        "Arguments for date range is not valid"
    );
    assert_eq!(
        FilterError::UnsupportedPrecision { precision: 5 }.message(),
        "Unsupported timestamp precision: 5"
    );
    assert_eq!(
        FilterError::UnrecognizedDateFormat { date: "next week".to_string() }.message(),
        "Unsupported date format: next week"
    );
    assert_eq!(
        FilterError::Resolution { message: "member not found".to_string() }.message(),
        "member not found"
    );
    assert_eq!(
        FilterError::Template { message: "bad fragment".to_string() }.message(),
        "bad fragment"
    );
}

#[test]
fn placeholders_keep_numbering_across_filters() {
    let tools = NaiveTools { precision: 3 };
    let mut params = ParamsAllocator::new();
    let f = node(FilterOperator::Equal, vec![Some("a".to_string())]);
    let g = node(FilterOperator::Gt, vec![Some("b".to_string())]);
    assert_eq!(f.to_sql(&tools, &mut params).unwrap(), "orders.status = $0$");
    assert_eq!(g.to_sql(&tools, &mut params).unwrap(), "orders.status > $1$");
    assert_eq!(params.params(), &vec!["a".to_string(), "b".to_string()]);
}
