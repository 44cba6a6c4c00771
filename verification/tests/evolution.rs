use std::sync::Arc;

use arrow::datatypes::{DataType, Field, TimeUnit};
use planar::catalog::data_type::can_evolve_to;

// ========================================================================
// Same type evolutions (always allowed)
// ========================================================================

#[test]
fn test_same_type_allowed() {
    assert!(can_evolve_to(&DataType::Int32, &DataType::Int32));
    assert!(can_evolve_to(&DataType::Utf8, &DataType::Utf8));
    assert!(can_evolve_to(
        &DataType::Timestamp(TimeUnit::Microsecond, Some("UTC".into())),
        &DataType::Timestamp(TimeUnit::Microsecond, Some("UTC".into()))
    ));
}

// ========================================================================
// Integer evolution tests
// ========================================================================

#[test]
fn test_signed_integer_widening_safe() {
    // Int8 widening
    assert!(can_evolve_to(&DataType::Int8, &DataType::Int16));
    assert!(can_evolve_to(&DataType::Int8, &DataType::Int32));
    assert!(can_evolve_to(&DataType::Int8, &DataType::Int64));

    // Int16 widening
    assert!(can_evolve_to(&DataType::Int16, &DataType::Int32));
    assert!(can_evolve_to(&DataType::Int16, &DataType::Int64));

    // Int32 widening
    assert!(can_evolve_to(&DataType::Int32, &DataType::Int64));
}

#[test]
fn test_signed_integer_narrowing_unsafe() {
    // Int64 narrowing
    assert!(!can_evolve_to(&DataType::Int64, &DataType::Int32));
    assert!(!can_evolve_to(&DataType::Int64, &DataType::Int16));
    assert!(!can_evolve_to(&DataType::Int64, &DataType::Int8));

    // Int32 narrowing
    assert!(!can_evolve_to(&DataType::Int32, &DataType::Int16));
    assert!(!can_evolve_to(&DataType::Int32, &DataType::Int8));

    // Int16 narrowing
    assert!(!can_evolve_to(&DataType::Int16, &DataType::Int8));
}

#[test]
fn test_unsigned_integer_widening_safe() {
    // UInt8 widening
    assert!(can_evolve_to(&DataType::UInt8, &DataType::UInt16));
    assert!(can_evolve_to(&DataType::UInt8, &DataType::UInt32));
    assert!(can_evolve_to(&DataType::UInt8, &DataType::UInt64));

    // UInt16 widening
    assert!(can_evolve_to(&DataType::UInt16, &DataType::UInt32));
    assert!(can_evolve_to(&DataType::UInt16, &DataType::UInt64));

    // UInt32 widening
    assert!(can_evolve_to(&DataType::UInt32, &DataType::UInt64));
}

#[test]
fn test_unsigned_integer_narrowing_unsafe() {
    // UInt64 narrowing
    assert!(!can_evolve_to(&DataType::UInt64, &DataType::UInt32));
    assert!(!can_evolve_to(&DataType::UInt64, &DataType::UInt16));
    assert!(!can_evolve_to(&DataType::UInt64, &DataType::UInt8));

    // UInt32 narrowing
    assert!(!can_evolve_to(&DataType::UInt32, &DataType::UInt16));
    assert!(!can_evolve_to(&DataType::UInt32, &DataType::UInt8));

    // UInt16 narrowing
    assert!(!can_evolve_to(&DataType::UInt16, &DataType::UInt8));
}

#[test]
fn test_mixed_signedness_unsafe() {
    // Signed to unsigned
    assert!(!can_evolve_to(&DataType::Int32, &DataType::UInt32));
    assert!(!can_evolve_to(&DataType::Int64, &DataType::UInt64));

    // Unsigned to signed
    assert!(!can_evolve_to(&DataType::UInt32, &DataType::Int32));
    assert!(!can_evolve_to(&DataType::UInt64, &DataType::Int64));
}

// ========================================================================
// Float evolution tests
// ========================================================================

#[test]
fn test_float_widening_safe() {
    assert!(can_evolve_to(&DataType::Float32, &DataType::Float64));
}

#[test]
fn test_float_narrowing_unsafe() {
    assert!(!can_evolve_to(&DataType::Float64, &DataType::Float32));
}

#[test]
fn test_integer_to_float_unsafe() {
    // Even if float has more precision, this is a type change
    assert!(!can_evolve_to(&DataType::Int32, &DataType::Float32));
    assert!(!can_evolve_to(&DataType::Int64, &DataType::Float64));
    assert!(!can_evolve_to(&DataType::Float32, &DataType::Int32));
}

// ========================================================================
// Date evolution tests
// ========================================================================

#[test]
fn test_date_widening_safe() {
    // Date32 (days since epoch) to Date64 (milliseconds since epoch) is safe
    assert!(can_evolve_to(&DataType::Date32, &DataType::Date64));
}

#[test]
fn test_date_narrowing_unsafe() {
    // Date64 to Date32 loses precision
    assert!(!can_evolve_to(&DataType::Date64, &DataType::Date32));
}

// ========================================================================
// Timestamp evolution tests
// ========================================================================

#[test]
fn test_timestamp_precision_increase_safe() {
    let tz = Some("UTC".into());

    // Second to higher precision
    assert!(can_evolve_to(
        &DataType::Timestamp(TimeUnit::Second, tz.clone()),
        &DataType::Timestamp(TimeUnit::Millisecond, tz.clone())
    ));
    assert!(can_evolve_to(
        &DataType::Timestamp(TimeUnit::Second, tz.clone()),
        &DataType::Timestamp(TimeUnit::Microsecond, tz.clone())
    ));
    assert!(can_evolve_to(
        &DataType::Timestamp(TimeUnit::Second, tz.clone()),
        &DataType::Timestamp(TimeUnit::Nanosecond, tz.clone())
    ));

    // Millisecond to higher precision
    assert!(can_evolve_to(
        &DataType::Timestamp(TimeUnit::Millisecond, tz.clone()),
        &DataType::Timestamp(TimeUnit::Microsecond, tz.clone())
    ));
    assert!(can_evolve_to(
        &DataType::Timestamp(TimeUnit::Millisecond, tz.clone()),
        &DataType::Timestamp(TimeUnit::Nanosecond, tz.clone())
    ));

    // Microsecond to higher precision
    assert!(can_evolve_to(
        &DataType::Timestamp(TimeUnit::Microsecond, tz.clone()),
        &DataType::Timestamp(TimeUnit::Nanosecond, tz.clone())
    ));
}

#[test]
fn test_timestamp_precision_decrease_unsafe() {
    let tz = Some("UTC".into());

    // Nanosecond to lower precision
    assert!(!can_evolve_to(
        &DataType::Timestamp(TimeUnit::Nanosecond, tz.clone()),
        &DataType::Timestamp(TimeUnit::Microsecond, tz.clone())
    ));
    assert!(!can_evolve_to(
        &DataType::Timestamp(TimeUnit::Nanosecond, tz.clone()),
        &DataType::Timestamp(TimeUnit::Millisecond, tz.clone())
    ));
    assert!(!can_evolve_to(
        &DataType::Timestamp(TimeUnit::Nanosecond, tz.clone()),
        &DataType::Timestamp(TimeUnit::Second, tz.clone())
    ));

    // Microsecond to lower precision
    assert!(!can_evolve_to(
        &DataType::Timestamp(TimeUnit::Microsecond, tz.clone()),
        &DataType::Timestamp(TimeUnit::Millisecond, tz.clone())
    ));
    assert!(!can_evolve_to(
        &DataType::Timestamp(TimeUnit::Microsecond, tz.clone()),
        &DataType::Timestamp(TimeUnit::Second, tz.clone())
    ));

    // Millisecond to lower precision
    assert!(!can_evolve_to(
        &DataType::Timestamp(TimeUnit::Millisecond, tz.clone()),
        &DataType::Timestamp(TimeUnit::Second, tz.clone())
    ));
}

#[test]
fn test_timestamp_timezone_change_unsafe() {
    // Different timezones not allowed
    assert!(!can_evolve_to(
        &DataType::Timestamp(TimeUnit::Microsecond, Some("UTC".into())),
        &DataType::Timestamp(TimeUnit::Microsecond, Some("America/New_York".into()))
    ));

    // None to Some not allowed
    assert!(!can_evolve_to(
        &DataType::Timestamp(TimeUnit::Microsecond, None),
        &DataType::Timestamp(TimeUnit::Microsecond, Some("UTC".into()))
    ));

    // Some to None not allowed
    assert!(!can_evolve_to(
        &DataType::Timestamp(TimeUnit::Microsecond, Some("UTC".into())),
        &DataType::Timestamp(TimeUnit::Microsecond, None)
    ));
}

#[test]
fn test_timestamp_without_timezone() {
    // Precision increase without timezone is still allowed
    assert!(can_evolve_to(
        &DataType::Timestamp(TimeUnit::Second, None),
        &DataType::Timestamp(TimeUnit::Millisecond, None)
    ));
}

// ========================================================================
// Decimal evolution tests
// ========================================================================

#[test]
fn test_decimal_precision_increase_safe() {
    // Decimal128: increasing precision with same scale is safe
    assert!(can_evolve_to(
        &DataType::Decimal128(10, 2),
        &DataType::Decimal128(20, 2)
    ));
    assert!(can_evolve_to(
        &DataType::Decimal128(10, 5),
        &DataType::Decimal128(38, 5)
    ));

    // Decimal256: increasing precision with same scale is safe
    assert!(can_evolve_to(
        &DataType::Decimal256(40, 2),
        &DataType::Decimal256(60, 2)
    ));
}

#[test]
fn test_decimal_precision_decrease_unsafe() {
    // Decreasing precision can cause overflow
    assert!(!can_evolve_to(
        &DataType::Decimal128(20, 2),
        &DataType::Decimal128(10, 2)
    ));
}

#[test]
fn test_decimal_scale_change_unsafe() {
    // Changing scale requires data rewrite
    assert!(!can_evolve_to(
        &DataType::Decimal128(10, 2),
        &DataType::Decimal128(10, 3)
    ));
    assert!(!can_evolve_to(
        &DataType::Decimal128(10, 3),
        &DataType::Decimal128(10, 2)
    ));

    // Even with increased precision, scale change not allowed
    assert!(!can_evolve_to(
        &DataType::Decimal128(10, 2),
        &DataType::Decimal128(20, 3)
    ));
}

#[test]
fn test_decimal128_to_decimal256_unsafe() {
    // Different decimal types not compatible
    assert!(!can_evolve_to(
        &DataType::Decimal128(10, 2),
        &DataType::Decimal256(10, 2)
    ));
    assert!(!can_evolve_to(
        &DataType::Decimal256(10, 2),
        &DataType::Decimal128(10, 2)
    ));
}

// ========================================================================
// String and binary types
// ========================================================================

#[test]
fn test_string_types_no_evolution() {
    // Utf8 to LargeUtf8 requires offset type change (not safe without rewrite)
    assert!(!can_evolve_to(&DataType::Utf8, &DataType::LargeUtf8));
    assert!(!can_evolve_to(&DataType::LargeUtf8, &DataType::Utf8));

    // Binary types similar
    assert!(!can_evolve_to(&DataType::Binary, &DataType::LargeBinary));
    assert!(!can_evolve_to(&DataType::LargeBinary, &DataType::Binary));
}

// ========================================================================
// Type mismatches (always unsafe)
// ========================================================================

#[test]
fn test_incompatible_types() {
    // String to numeric
    assert!(!can_evolve_to(&DataType::Utf8, &DataType::Int32));
    assert!(!can_evolve_to(&DataType::Utf8, &DataType::Float64));

    // Numeric to string
    assert!(!can_evolve_to(&DataType::Int64, &DataType::Utf8));

    // Boolean to anything else
    assert!(!can_evolve_to(&DataType::Boolean, &DataType::Int32));
    assert!(!can_evolve_to(&DataType::Int32, &DataType::Boolean));

    // Date to timestamp
    assert!(!can_evolve_to(
        &DataType::Date32,
        &DataType::Timestamp(TimeUnit::Millisecond, None)
    ));
    assert!(!can_evolve_to(
        &DataType::Date64,
        &DataType::Timestamp(TimeUnit::Millisecond, None)
    ));

    // Timestamp to date
    assert!(!can_evolve_to(
        &DataType::Timestamp(TimeUnit::Millisecond, None),
        &DataType::Date64
    ));
}

#[test]
fn test_complex_types_no_evolution() {
    // List types
    let list_int32 = DataType::List(Arc::new(Field::new("item", DataType::Int32, true)));
    let list_int64 = DataType::List(Arc::new(Field::new("item", DataType::Int64, true)));
    assert!(!can_evolve_to(&list_int32, &list_int64));

    // Struct types
    let struct1 = DataType::Struct(vec![Field::new("id", DataType::Int32, false)].into());
    let struct2 = DataType::Struct(vec![Field::new("id", DataType::Int64, false)].into());
    assert!(!can_evolve_to(&struct1, &struct2));
}
