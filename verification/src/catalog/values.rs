//! What the values of a data type are, and that no evolution loses any of them.

use vstd::arithmetic::power::{lemma_pow_increases, pow};
use vstd::prelude::*;

use arrow::datatypes::{DataType, TimeUnit};

use super::data_type::{evolves, TypeModel};

verus! {

/// The smallest and the largest value of an integer type.
pub open spec fn integer_range(t: DataType) -> Option<(int, int)> {
    match t {
        DataType::Int8 => Some((-128, 127)),
        DataType::Int16 => Some((-32_768, 32_767)),
        DataType::Int32 => Some((-2_147_483_648, 2_147_483_647)),
        DataType::Int64 => Some((-9_223_372_036_854_775_808, 9_223_372_036_854_775_807)),
        DataType::UInt8 => Some((0, 255)),
        DataType::UInt16 => Some((0, 65_535)),
        DataType::UInt32 => Some((0, 4_294_967_295)),
        DataType::UInt64 => Some((0, 18_446_744_073_709_551_615)),
        _ => None,
    }
}

/// A number is a value of an integer type.
pub open spec fn is_value(t: DataType, n: int) -> bool {
    integer_range(t) matches Some((smallest, largest)) && smallest <= n <= largest
}

/// An integer type has negative values.
pub open spec fn is_signed(t: DataType) -> bool {
    is_value(t, -1)
}

/// The digits of the significand of a binary float, and its largest exponent.
pub open spec fn float_reach(t: DataType) -> Option<(int, int)> {
    match t {
        DataType::Float16 => Some((11, 15)),
        DataType::Float32 => Some((24, 127)),
        DataType::Float64 => Some((53, 1023)),
        _ => None,
    }
}

/// The milliseconds from one value of a date type to the next.
pub open spec fn date_step(t: DataType) -> Option<int> {
    match t {
        DataType::Date32 => Some(86_400_000),
        DataType::Date64 => Some(1),
        _ => None,
    }
}

/// The nanoseconds in a unit of time.
pub open spec fn nanoseconds(unit: TimeUnit) -> int {
    match unit {
        TimeUnit::Second => 1_000_000_000,
        TimeUnit::Millisecond => 1_000_000,
        TimeUnit::Microsecond => 1_000,
        TimeUnit::Nanosecond => 1,
    }
}

/// An integer type evolves to the integer types of the same signedness that have all of its
/// values, and to nothing else.
pub proof fn integers_keep_their_values(a: DataType, to: TypeModel)
    requires
        integer_range(a) is Some,
    ensures
        evolves(TypeModel::Scalar(a), to) <==> (to matches TypeModel::Scalar(b) && integer_range(
            b,
        ) is Some && is_signed(a) == is_signed(b) && (integer_range(b)->0).0
            <= (integer_range(a)->0).0 && (integer_range(a)->0).1 <= (integer_range(b)->0).1),
        evolves(TypeModel::Scalar(a), to) ==> forall|n: int|
            is_value(a, n) ==> #[trigger] is_value(to->Scalar_0, n),
{
}

/// A float evolves only to a float that has all of its values. One of 32 bits evolves to one of
/// 64, and one of 16 bits to no other.
pub proof fn floats_keep_their_values(a: DataType, to: TypeModel)
    requires
        float_reach(a) is Some,
    ensures
        evolves(TypeModel::Scalar(a), to) ==> (to matches TypeModel::Scalar(b) && float_reach(
            b,
        ) is Some && (float_reach(a)->0).0 <= (float_reach(b)->0).0 && (float_reach(a)->0).1
            <= (float_reach(b)->0).1),
        evolves(TypeModel::Scalar(a), to) && to != TypeModel::Scalar(a) <==> a is Float32 && to
            == TypeModel::Scalar(DataType::Float64),
{
}

/// A date evolves to the dates whose steps divide its own, and to nothing else.
pub proof fn dates_keep_their_values(a: DataType, to: TypeModel)
    requires
        date_step(a) is Some,
    ensures
        evolves(TypeModel::Scalar(a), to) <==> (to matches TypeModel::Scalar(b) && date_step(
            b,
        ) is Some && date_step(a)->0 % date_step(b)->0 == 0),
{
}

/// A timestamp evolves to the timestamps of the same time zone whose unit divides its own, and to
/// nothing else.
pub proof fn timestamps_keep_their_values(unit: TimeUnit, zone: Option<Seq<char>>, to: TypeModel)
    ensures
        evolves(TypeModel::Timestamp(unit, zone), to) <==> (to matches TypeModel::Timestamp(
            other,
            other_zone,
        ) && other_zone == zone && nanoseconds(unit) % nanoseconds(other) == 0),
{
}

/// A decimal evolves to the decimals of the same bits and scale that have at least its digits, and
/// so all of its values, and to nothing else.
pub proof fn decimals_keep_their_values(precision: u8, scale: i8, to: TypeModel, n: int)
    ensures
        evolves(TypeModel::Scalar(DataType::Decimal128(precision, scale)), to) <==> (
        to matches TypeModel::Scalar(DataType::Decimal128(digits, other)) && other == scale
            && precision <= digits),
        evolves(TypeModel::Scalar(DataType::Decimal256(precision, scale)), to) <==> (
        to matches TypeModel::Scalar(DataType::Decimal256(digits, other)) && other == scale
            && precision <= digits),
        evolves(TypeModel::Scalar(DataType::Decimal128(precision, scale)), to) && -pow(
            10,
            precision as nat,
        ) < n < pow(10, precision as nat) ==> (to matches TypeModel::Scalar(
            DataType::Decimal128(digits, _),
        ) && -pow(10, digits as nat) < n < pow(10, digits as nat)),
{
    if let TypeModel::Scalar(DataType::Decimal128(digits, _)) = to {
        if precision <= digits {
            lemma_pow_increases(10, precision as nat, digits as nat);
        }
    }
}

/// A type that is no number, date or timestamp evolves to no other type.
pub proof fn other_types_stay_as_they_are(a: DataType, to: TypeModel)
    requires
        integer_range(a) is None,
        float_reach(a) is None,
        date_step(a) is None,
        !(a is Decimal128) && !(a is Decimal256),
    ensures
        evolves(TypeModel::Scalar(a), to) <==> to == TypeModel::Scalar(a),
{
}

} // verus!
