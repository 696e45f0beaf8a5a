//! Date-bound normalization and the date-range strategies.

use filter_compiler::dates::{format_from_date, format_to_date};
use filter_compiler::{
    BaseFilter, FilterError, FilterOperator, FilterType, MemberSymbol, NaiveTools, ParamsAllocator,
};

fn date_node(op: FilterOperator, values: Vec<Option<String>>) -> BaseFilter {
    BaseFilter::try_new(
        MemberSymbol::new("orders.created_at".to_string()),
        FilterType::Dimension,
        op,
        Some(values),
    )
    .unwrap()
}

#[test]
fn bare_date_expands_at_precision_3() {
    assert_eq!(
        format_from_date("2023-01-05", 3).unwrap(),
        "2023-01-05T00:00:00.000"
    );
    assert_eq!(
        format_to_date("2023-01-05", 3).unwrap(),
        "2023-01-05T23:59:59.999"
    );
}

#[test]
fn bare_date_expands_at_precision_6() {
    assert_eq!(
        format_from_date("2023-01-05", 6).unwrap(),
        "2023-01-05T00:00:00.000000"
    );
    assert_eq!(
        format_to_date("2023-01-05", 6).unwrap(),
        "2023-01-05T23:59:59.999999"
    );
}

#[test]
fn millisecond_timestamp_passes_through_at_precision_3() {
    assert_eq!(
        format_from_date("2023-01-05T10:00:00.123", 3).unwrap(),
        "2023-01-05T10:00:00.123"
    );
    assert_eq!(
        format_to_date("2023-01-05T10:00:00.123", 3).unwrap(),
        "2023-01-05T10:00:00.123"
    );
}

#[test]
fn millisecond_timestamp_pads_at_precision_6() {
    assert_eq!(
        format_from_date("2023-01-05T10:00:00.123", 6).unwrap(),
        "2023-01-05T10:00:00.123000"
    );
    assert_eq!(
        format_to_date("2023-01-05T10:00:00.123", 6).unwrap(),
        "2023-01-05T10:00:00.123000"
    );
}

#[test]
fn trailing_999_upper_bound_pads_with_999() {
    assert_eq!(
        format_to_date("2023-01-05T10:00:00.999", 6).unwrap(),
        "2023-01-05T10:00:00.999999"
    );
    assert_eq!(
        format_from_date("2023-01-05T10:00:00.999", 6).unwrap(),
        "2023-01-05T10:00:00.999000"
    );
}

#[test]
fn microsecond_timestamp_passes_through_at_precision_6() {
    assert_eq!(
        format_from_date("2023-01-05T10:00:00.123456", 6).unwrap(),
        "2023-01-05T10:00:00.123456"
    );
    assert_eq!(
        format_to_date("2023-01-05T10:00:00.123456", 6).unwrap(),
        "2023-01-05T10:00:00.123456"
    );
}

#[test]
fn unrecognized_date_is_a_format_error() {
    assert_eq!(
        format_from_date("next week", 3).unwrap_err(),
        FilterError::UnrecognizedDateFormat { date: "next week".to_string() }
    );
    assert_eq!(
        format_to_date("05.01.2023", 6).unwrap_err(),
        FilterError::UnrecognizedDateFormat { date: "05.01.2023".to_string() }
    );
    // A microsecond fraction is not accepted at precision 3.
    assert!(format_from_date("2023-01-05T10:00:00.123456", 3).is_err());
}

#[test]
fn unsupported_precision_is_a_configuration_error() {
    assert_eq!(
        format_from_date("2023-01-05", 5).unwrap_err(),
        FilterError::UnsupportedPrecision { precision: 5 }
    );
    assert_eq!(
        format_to_date("2023-01-05", 0).unwrap_err(),
        FilterError::UnsupportedPrecision { precision: 0 }
    );
}

#[test]
fn date_range_renders_cast_bounds_and_normalized_params() {
    let f = date_node(
        FilterOperator::InDateRange,
        vec![Some("2023-01-05".to_string()), Some("2023-01-06".to_string())],
    );
    let tools = NaiveTools { precision: 3 };
    let mut params = ParamsAllocator::new();
    let r = f.to_sql(&tools, &mut params).unwrap();
    assert_eq!(
        r,
        "orders.created_at >= $0$::timestamptz AND orders.created_at <= $1$::timestamptz"
    );
    assert_eq!(
        params.params(),
        &vec![
            "2023-01-05T00:00:00.000".to_string(),
            "2023-01-06T23:59:59.999".to_string(),
        ]
    );
}

#[test]
fn date_range_with_one_value_fails_with_count() {
    let f = date_node(
        FilterOperator::InDateRange,
        vec![Some("2023-01-05".to_string())],
    );
    let tools = NaiveTools { precision: 3 };
    let mut params = ParamsAllocator::new();
    assert_eq!(
        f.to_sql(&tools, &mut params).unwrap_err(),
        FilterError::ArgumentCount { expected: 2, got: 1 }
    );
    assert!(params.params().is_empty());
}

#[test]
fn date_range_with_missing_bound_fails() {
    let f = date_node(
        FilterOperator::InDateRange,
        vec![None, Some("2023-01-05".to_string())],
    );
    let tools = NaiveTools { precision: 3 };
    let mut params = ParamsAllocator::new();
    assert_eq!(
        f.to_sql(&tools, &mut params).unwrap_err(),
        FilterError::MissingBound
    );
}

#[test]
fn date_range_with_bad_literal_fails_not_renders() {
    let f = date_node(
        FilterOperator::InDateRange,
        vec![Some("next week".to_string()), Some("2023-01-05".to_string())],
    );
    let tools = NaiveTools { precision: 3 };
    let mut params = ParamsAllocator::new();
    assert_eq!(
        f.to_sql(&tools, &mut params).unwrap_err(),
        FilterError::UnrecognizedDateFormat { date: "next week".to_string() }
    );
    assert!(params.params().is_empty());
}

#[test]
fn date_range_unsupported_precision_fails() {
    let f = date_node(
        FilterOperator::InDateRange,
        vec![Some("2023-01-05".to_string()), Some("2023-01-06".to_string())],
    );
    let tools = NaiveTools { precision: 5 };
    let mut params = ParamsAllocator::new();
    assert_eq!(
        f.to_sql(&tools, &mut params).unwrap_err(),
        FilterError::UnsupportedPrecision { precision: 5 }
    );
}

#[test]
fn extended_range_unbounded_lower_extends_only_upper() {
    let f = date_node(
        FilterOperator::InDateRangeExtended,
        vec![
            Some("2023-01-05".to_string()),
            Some("2023-01-06".to_string()),
            Some("unbounded".to_string()),
            Some("2 day".to_string()),
        ],
    );
    let tools = NaiveTools { precision: 3 };
    let mut params = ParamsAllocator::new();
    let r = f.to_sql(&tools, &mut params).unwrap();
    assert_eq!(
        r,
        "orders.created_at >= $0$::timestamptz AND orders.created_at <= ($1$::timestamptz + INTERVAL '2 day')"
    );
}

#[test]
fn extended_range_lower_interval_subtracts() {
    let f = date_node(
        FilterOperator::InDateRangeExtended,
        vec![
            Some("2023-01-05".to_string()),
            Some("2023-01-06".to_string()),
            Some("1 week".to_string()),
        ],
    );
    let tools = NaiveTools { precision: 3 };
    let mut params = ParamsAllocator::new();
    let r = f.to_sql(&tools, &mut params).unwrap();
    assert_eq!(
        r,
        "orders.created_at >= ($0$::timestamptz - INTERVAL '1 week') AND orders.created_at <= $1$::timestamptz"
    );
}

#[test]
fn extended_range_without_intervals_is_plain_range() {
    let f = date_node(
        FilterOperator::InDateRangeExtended,
        vec![Some("2023-01-05".to_string()), Some("2023-01-06".to_string())],
    );
    let tools = NaiveTools { precision: 3 };
    let mut params = ParamsAllocator::new();
    let r = f.to_sql(&tools, &mut params).unwrap();
    assert_eq!(
        r,
        "orders.created_at >= $0$::timestamptz AND orders.created_at <= $1$::timestamptz"
    );
}
