//! Data types as plain values.

use std::sync::Arc;

use vstd::prelude::*;
use vstd::string::*;

use super::value::{
    binding_tells, has_keys, is_text, pair, text, value_at, BindingError, BindingRefusal, Expected,
    SpecValue,
};
use crate::catalog::data_type::{
    field_model, field_name, field_new, field_nullable, field_type, fields_from, fields_get,
    fields_len, fields_model, type_debug, type_model, zone_text, FieldModel, ListKind, TypeModel,
};
use crate::catalog::error::stands_for;
use crate::text::{joined, same_text};

use arrow::datatypes::{DataType, Field, Fields, TimeUnit};

verus! {

/// The name of a time unit.
pub open spec fn unit_name(unit: TimeUnit) -> Seq<char> {
    match unit {
        TimeUnit::Second => "s"@,
        TimeUnit::Millisecond => "ms"@,
        TimeUnit::Microsecond => "us"@,
        TimeUnit::Nanosecond => "ns"@,
    }
}

/// The time unit of a name.
pub open spec fn named_unit(name: Seq<char>) -> Result<TimeUnit, BindingRefusal> {
    if name == "s"@ {
        Ok(TimeUnit::Second)
    } else if name == "ms"@ {
        Ok(TimeUnit::Millisecond)
    } else if name == "us"@ {
        Ok(TimeUnit::Microsecond)
    } else if name == "ns"@ {
        Ok(TimeUnit::Nanosecond)
    } else {
        Err(BindingRefusal::Value("Unsupported time unit: "@ + name))
    }
}

/// The name of a time unit.
pub fn time_unit_to_str(unit: &TimeUnit) -> (r: &'static str)
    ensures
        r@ == unit_name(*unit),
{
    match unit {
        TimeUnit::Second => "s",
        TimeUnit::Millisecond => "ms",
        TimeUnit::Microsecond => "us",
        TimeUnit::Nanosecond => "ns",
    }
}

/// The time unit of a name.
pub fn time_unit_from_str(value: &str) -> (r: Result<TimeUnit, BindingError>)
    ensures
        match r {
            Ok(unit) => named_unit(value@) == Result::<TimeUnit, BindingRefusal>::Ok(unit),
            Err(e) => named_unit(value@) is Err && binding_tells(e, named_unit(value@)->Err_0),
        },
{
    if same_text(value, "s") {
        Ok(TimeUnit::Second)
    } else if same_text(value, "ms") {
        Ok(TimeUnit::Millisecond)
    } else if same_text(value, "us") {
        Ok(TimeUnit::Microsecond)
    } else if same_text(value, "ns") {
        Ok(TimeUnit::Nanosecond)
    } else {
        Err(BindingError::Value(joined("Unsupported time unit: ", value)))
    }
}

/// Names and time units are the same thing twice.
pub proof fn unit_names_read_back(unit: TimeUnit)
    ensures
        named_unit(unit_name(unit)) == Result::<TimeUnit, BindingRefusal>::Ok(unit),
{
    reveal_strlit("s");
    reveal_strlit("ms");
    reveal_strlit("us");
    reveal_strlit("ns");
    assert("s"@.len() == 1);
    assert("ms"@.len() == 2 && "us"@.len() == 2 && "ns"@.len() == 2);
    assert("ms"@[0] == 'm' && "us"@[0] == 'u' && "ns"@[0] == 'n');
}

/// The type of a kind that needs nothing else said.
pub open spec fn simple_kind(kind: Seq<char>) -> Option<DataType> {
    if kind == "null"@ {
        Some(DataType::Null)
    } else if kind == "bool"@ {
        Some(DataType::Boolean)
    } else if kind == "int8"@ {
        Some(DataType::Int8)
    } else if kind == "int16"@ {
        Some(DataType::Int16)
    } else if kind == "int32"@ {
        Some(DataType::Int32)
    } else if kind == "int64"@ {
        Some(DataType::Int64)
    } else if kind == "uint8"@ {
        Some(DataType::UInt8)
    } else if kind == "uint16"@ {
        Some(DataType::UInt16)
    } else if kind == "uint32"@ {
        Some(DataType::UInt32)
    } else if kind == "uint64"@ {
        Some(DataType::UInt64)
    } else if kind == "float32"@ {
        Some(DataType::Float32)
    } else if kind == "float64"@ {
        Some(DataType::Float64)
    } else if kind == "string"@ {
        Some(DataType::Utf8)
    } else if kind == "large_string"@ {
        Some(DataType::LargeUtf8)
    } else if kind == "binary"@ {
        Some(DataType::Binary)
    } else if kind == "large_binary"@ {
        Some(DataType::LargeBinary)
    } else if kind == "date32"@ {
        Some(DataType::Date32)
    } else if kind == "date64"@ {
        Some(DataType::Date64)
    } else {
        None
    }
}

/// The kind of a type that needs nothing else said.
pub open spec fn kind_of_simple(t: DataType) -> Option<Seq<char>> {
    match t {
        DataType::Null => Some("null"@),
        DataType::Boolean => Some("bool"@),
        DataType::Int8 => Some("int8"@),
        DataType::Int16 => Some("int16"@),
        DataType::Int32 => Some("int32"@),
        DataType::Int64 => Some("int64"@),
        DataType::UInt8 => Some("uint8"@),
        DataType::UInt16 => Some("uint16"@),
        DataType::UInt32 => Some("uint32"@),
        DataType::UInt64 => Some("uint64"@),
        DataType::Float32 => Some("float32"@),
        DataType::Float64 => Some("float64"@),
        DataType::Utf8 => Some("string"@),
        DataType::LargeUtf8 => Some("large_string"@),
        DataType::Binary => Some("binary"@),
        DataType::LargeBinary => Some("large_binary"@),
        DataType::Date32 => Some("date32"@),
        DataType::Date64 => Some("date64"@),
        _ => None,
    }
}

/// A value describes a type.
pub open spec fn describes(v: SpecValue, m: TypeModel) -> bool
    decreases m,
{
    match m {
        TypeModel::Scalar(DataType::FixedSizeBinary(size)) => {
            &&& has_keys(v, seq!["kind"@, "byte_width"@])
            &&& is_text(value_at(v, 0), "fixed_size_binary"@)
            &&& value_at(v, 1) == SpecValue::Int(size as i64)
        },
        TypeModel::Scalar(DataType::Time32(unit)) => {
            &&& has_keys(v, seq!["kind"@, "unit"@])
            &&& is_text(value_at(v, 0), "time32"@)
            &&& is_text(value_at(v, 1), unit_name(unit))
        },
        TypeModel::Scalar(DataType::Time64(unit)) => {
            &&& has_keys(v, seq!["kind"@, "unit"@])
            &&& is_text(value_at(v, 0), "time64"@)
            &&& is_text(value_at(v, 1), unit_name(unit))
        },
        TypeModel::Scalar(DataType::Duration(unit)) => {
            &&& has_keys(v, seq!["kind"@, "unit"@])
            &&& is_text(value_at(v, 0), "duration"@)
            &&& is_text(value_at(v, 1), unit_name(unit))
        },
        TypeModel::Scalar(DataType::Decimal128(precision, scale)) => {
            &&& has_keys(v, seq!["kind"@, "precision"@, "scale"@])
            &&& is_text(value_at(v, 0), "decimal128"@)
            &&& value_at(v, 1) == SpecValue::Int(precision as i64)
            &&& value_at(v, 2) == SpecValue::Int(scale as i64)
        },
        TypeModel::Scalar(DataType::Decimal256(precision, scale)) => {
            &&& has_keys(v, seq!["kind"@, "precision"@, "scale"@])
            &&& is_text(value_at(v, 0), "decimal256"@)
            &&& value_at(v, 1) == SpecValue::Int(precision as i64)
            &&& value_at(v, 2) == SpecValue::Int(scale as i64)
        },
        TypeModel::Scalar(t) => {
            &&& kind_of_simple(t) is Some
            &&& has_keys(v, seq!["kind"@])
            &&& is_text(value_at(v, 0), kind_of_simple(t)->0)
        },
        TypeModel::Timestamp(unit, zone) => {
            &&& has_keys(v, seq!["kind"@, "unit"@, "tz"@])
            &&& is_text(value_at(v, 0), "timestamp"@)
            &&& is_text(value_at(v, 1), unit_name(unit))
            &&& match zone {
                Some(z) => is_text(value_at(v, 2), z),
                None => value_at(v, 2) is Nothing,
            }
        },
        TypeModel::List(ListKind::List, f) => {
            &&& has_keys(v, seq!["kind"@, "field"@])
            &&& is_text(value_at(v, 0), "list"@)
            &&& describes_field(value_at(v, 1), *f)
        },
        TypeModel::List(ListKind::LargeList, f) => {
            &&& has_keys(v, seq!["kind"@, "field"@])
            &&& is_text(value_at(v, 0), "large_list"@)
            &&& describes_field(value_at(v, 1), *f)
        },
        TypeModel::FixedSizeList(f, size) => {
            &&& has_keys(v, seq!["kind"@, "field"@, "size"@])
            &&& is_text(value_at(v, 0), "fixed_size_list"@)
            &&& describes_field(value_at(v, 1), *f)
            &&& value_at(v, 2) == SpecValue::Int(size as i64)
        },
        TypeModel::Struct(fields) => {
            &&& has_keys(v, seq!["kind"@, "fields"@])
            &&& is_text(value_at(v, 0), "struct"@)
            &&& value_at(v, 1) is List
            &&& value_at(v, 1)->List_0@.len() == fields.len()
            &&& forall|i: int|
                0 <= i < fields.len() ==> describes_field(
                    #[trigger] value_at(v, 1)->List_0@[i],
                    fields[i],
                )
        },
        _ => false,
    }
}

/// A value describes a field.
pub open spec fn describes_field(v: SpecValue, f: FieldModel) -> bool
    decreases f,
{
    &&& has_keys(v, seq!["name"@, "nullable"@, "dtype"@])
    &&& is_text(value_at(v, 0), f.name)
    &&& value_at(v, 1) == SpecValue::Bool(f.nullable)
    &&& describes(value_at(v, 2), f.data_type)
}

/// The first type, from the outside in and from the left, that bindings do not have.
pub open spec fn first_unsupported(m: TypeModel) -> Option<TypeModel>
    decreases m, 0int,
{
    match m {
        TypeModel::Scalar(t) => if t is FixedSizeBinary || t is Time32 || t is Time64
            || t is Duration || t is Decimal128 || t is Decimal256 || kind_of_simple(t) is Some {
            None
        } else {
            Some(m)
        },
        TypeModel::Timestamp(_, _) => None,
        TypeModel::List(ListKind::List, f) => first_unsupported(f.data_type),
        TypeModel::List(ListKind::LargeList, f) => first_unsupported(f.data_type),
        TypeModel::FixedSizeList(f, _) => first_unsupported(f.data_type),
        TypeModel::Struct(fields) => first_unsupported_among(fields),
        _ => Some(m),
    }
}

/// The first type among fields that bindings do not have.
pub open spec fn first_unsupported_among(fields: Seq<FieldModel>) -> Option<TypeModel>
    decreases fields, fields.len(),
{
    if fields.len() == 0 {
        None
    } else {
        match first_unsupported(fields[0].data_type) {
            Some(m) => Some(m),
            None => first_unsupported_among(fields.subrange(1, fields.len() as int)),
        }
    }
}

fn dict1(kind: &str) -> (r: SpecValue)
    ensures
        has_keys(r, seq!["kind"@]),
        is_text(value_at(r, 0), kind@),
{
    let mut pairs: Vec<(String, SpecValue)> = Vec::new();
    pairs.push(pair("kind", text(kind)));
    SpecValue::Dict(pairs)
}

fn dict2(kind: &str, key: &str, value: SpecValue) -> (r: SpecValue)
    ensures
        has_keys(r, seq!["kind"@, key@]),
        is_text(value_at(r, 0), kind@),
        value_at(r, 1) == value,
{
    let mut pairs: Vec<(String, SpecValue)> = Vec::new();
    pairs.push(pair("kind", text(kind)));
    pairs.push(pair(key, value));
    SpecValue::Dict(pairs)
}

fn dict3(kind: &str, key: &str, value: SpecValue, other: &str, last: SpecValue) -> (r: SpecValue)
    ensures
        has_keys(r, seq!["kind"@, key@, other@]),
        is_text(value_at(r, 0), kind@),
        value_at(r, 1) == value,
        value_at(r, 2) == last,
{
    let mut pairs: Vec<(String, SpecValue)> = Vec::new();
    pairs.push(pair("kind", text(kind)));
    pairs.push(pair(key, value));
    pairs.push(pair(other, last));
    SpecValue::Dict(pairs)
}

fn unsupported(data_type: &DataType) -> (r: BindingError)
    ensures
        binding_tells(r, BindingRefusal::UnsupportedType(type_model(*data_type))),
{
    let t = type_debug(data_type);
    assert(stands_for(t@, type_model(*data_type)));
    BindingError::Value(joined("Unsupported DataType for Python bindings: ", t.as_str()))
}

/// Describes a field as a plain value. Its metadata is left out.
pub fn field_to_spec(field: &Field) -> (r: Result<SpecValue, BindingError>)
    ensures
        ({
            let m = field_model(*field);
            match r {
                Ok(v) => first_unsupported(m.data_type) is None && describes_field(v, m),
                Err(e) => first_unsupported(m.data_type) is Some && binding_tells(
                    e,
                    BindingRefusal::UnsupportedType(first_unsupported(m.data_type)->0),
                ),
            }
        }),
    decreases field_model(*field), 0nat,
{
    assert(decreases_to!(field_model(*field) => field_model(*field).data_type));
    match data_type_to_spec(field_type(field)) {
        Ok(dtype) => {
            let mut pairs: Vec<(String, SpecValue)> = Vec::new();
            pairs.push(pair("name", text(field_name(field))));
            pairs.push(pair("nullable", SpecValue::Bool(field_nullable(field))));
            pairs.push(pair("dtype", dtype));
            Ok(SpecValue::Dict(pairs))
        },
        Err(e) => Err(e),
    }
}

fn fields_to_spec(fields: &Fields) -> (r: Result<Vec<SpecValue>, BindingError>)
    ensures
        ({
            let m = fields_model(*fields);
            match r {
                Ok(items) => first_unsupported_among(m) is None && items@.len() == m.len() && (
                forall|i: int|
                    0 <= i < m.len() ==> describes_field(#[trigger] items@[i], m[i])),
                Err(e) => first_unsupported_among(m) is Some && binding_tells(
                    e,
                    BindingRefusal::UnsupportedType(first_unsupported_among(m)->0),
                ),
            }
        }),
    decreases fields_model(*fields), 0nat,
{
    let ghost m = fields_model(*fields);
    let n: usize = fields_len(fields);
    let mut items: Vec<SpecValue> = Vec::new();
    assert(m.subrange(0, m.len() as int) =~= m);
    for i in 0..n
        invariant
            m == fields_model(*fields),
            n == m.len(),
            items@.len() == i,
            forall|k: int| 0 <= k < i ==> describes_field(#[trigger] items@[k], m[k]),
            first_unsupported_among(m) == first_unsupported_among(
                m.subrange(i as int, m.len() as int),
            ),
    {
        let ghost rest = m.subrange(i as int, m.len() as int);
        proof {
            assert(rest[0] == m[i as int]);
            assert(rest.subrange(1, rest.len() as int) =~= m.subrange(i + 1, m.len() as int));
            assert(decreases_to!(m => m[i as int]));
        }
        match field_to_spec(fields_get(fields, i)) {
            Ok(v) => items.push(v),
            Err(e) => return Err(e),
        }
    }
    assert(m.subrange(n as int, m.len() as int) =~= Seq::<FieldModel>::empty());
    Ok(items)
}

/// Describes a data type as a plain value. Metadata of its fields is left out.
pub fn data_type_to_spec(data_type: &DataType) -> (r: Result<SpecValue, BindingError>)
    ensures
        ({
            let m = type_model(*data_type);
            match r {
                Ok(v) => first_unsupported(m) is None && describes(v, m),
                Err(e) => first_unsupported(m) is Some && binding_tells(
                    e,
                    BindingRefusal::UnsupportedType(first_unsupported(m)->0),
                ),
            }
        }),
    decreases type_model(*data_type), 1nat,
{
    let ghost m = type_model(*data_type);
    match data_type {
        DataType::Null => Ok(dict1("null")),
        DataType::Boolean => Ok(dict1("bool")),
        DataType::Int8 => Ok(dict1("int8")),
        DataType::Int16 => Ok(dict1("int16")),
        DataType::Int32 => Ok(dict1("int32")),
        DataType::Int64 => Ok(dict1("int64")),
        DataType::UInt8 => Ok(dict1("uint8")),
        DataType::UInt16 => Ok(dict1("uint16")),
        DataType::UInt32 => Ok(dict1("uint32")),
        DataType::UInt64 => Ok(dict1("uint64")),
        DataType::Float32 => Ok(dict1("float32")),
        DataType::Float64 => Ok(dict1("float64")),
        DataType::Utf8 => Ok(dict1("string")),
        DataType::LargeUtf8 => Ok(dict1("large_string")),
        DataType::Binary => Ok(dict1("binary")),
        DataType::LargeBinary => Ok(dict1("large_binary")),
        DataType::FixedSizeBinary(size) => Ok(
            dict2("fixed_size_binary", "byte_width", SpecValue::Int(*size as i64)),
        ),
        DataType::Date32 => Ok(dict1("date32")),
        DataType::Date64 => Ok(dict1("date64")),
        DataType::Time32(unit) => Ok(dict2("time32", "unit", text(time_unit_to_str(unit)))),
        DataType::Time64(unit) => Ok(dict2("time64", "unit", text(time_unit_to_str(unit)))),
        DataType::Duration(unit) => Ok(dict2("duration", "unit", text(time_unit_to_str(unit)))),
        DataType::Timestamp(unit, zone) => {
            let tz = match zone {
                Some(z) => text(&**z),
                None => SpecValue::Nothing,
            };
            Ok(dict3("timestamp", "unit", text(time_unit_to_str(unit)), "tz", tz))
        },
        DataType::Decimal128(precision, scale) => Ok(
            dict3(
                "decimal128",
                "precision",
                SpecValue::Int(*precision as i64),
                "scale",
                SpecValue::Int(*scale as i64),
            ),
        ),
        DataType::Decimal256(precision, scale) => Ok(
            dict3(
                "decimal256",
                "precision",
                SpecValue::Int(*precision as i64),
                "scale",
                SpecValue::Int(*scale as i64),
            ),
        ),
        DataType::List(field) => {
            assert(decreases_to!(m => m->List_1));
            match field_to_spec(field) {
                Ok(v) => Ok(dict2("list", "field", v)),
                Err(e) => Err(e),
            }
        },
        DataType::LargeList(field) => {
            assert(decreases_to!(m => m->List_1));
            match field_to_spec(field) {
                Ok(v) => Ok(dict2("large_list", "field", v)),
                Err(e) => Err(e),
            }
        },
        DataType::FixedSizeList(field, size) => {
            assert(decreases_to!(m => m->FixedSizeList_0));
            match field_to_spec(field) {
                Ok(v) => Ok(
                    dict3("fixed_size_list", "field", v, "size", SpecValue::Int(*size as i64)),
                ),
                Err(e) => Err(e),
            }
        },
        DataType::Struct(fields) => {
            assert(decreases_to!(m => m->Struct_0));
            match fields_to_spec(fields) {
                Ok(items) => Ok(dict2("struct", "fields", SpecValue::List(items))),
                Err(e) => Err(e),
            }
        },
        _ => Err(unsupported(data_type)),
    }
}

/// The last position of a key in a dictionary.
pub open spec fn key_position(pairs: Seq<(String, SpecValue)>, key: Seq<char>) -> Option<nat>
    decreases pairs.len(),
{
    if pairs.len() == 0 {
        None
    } else if pairs.last().0@ == key {
        Some((pairs.len() - 1) as nat)
    } else {
        key_position(pairs.drop_last(), key)
    }
}

/// The position of a key is one at which it stands.
pub proof fn key_position_is_one(pairs: Seq<(String, SpecValue)>, key: Seq<char>)
    ensures
        key_position(pairs, key) matches Some(i) ==> i < pairs.len() && pairs[i as int].0@ == key,
        key_position(pairs, key) is None ==> forall|i: int|
            0 <= i < pairs.len() ==> (#[trigger] pairs[i]).0@ != key,
    decreases pairs.len(),
{
    if pairs.len() > 0 && pairs.last().0@ != key {
        key_position_is_one(pairs.drop_last(), key);
        assert forall|i: int| key_position(pairs, key) is None && 0 <= i < pairs.len() implies (
        #[trigger] pairs[i]).0@ != key by {
            if i < pairs.len() - 1 {
                assert(pairs.drop_last()[i] == pairs[i]);
            }
        }
    }
}

/// What stands under a key, in a dictionary that holds each key once.
pub open spec fn value_under(v: SpecValue, key: Seq<char>) -> Option<SpecValue> {
    match v {
        SpecValue::Dict(pairs) => match key_position(pairs@, key) {
            Some(i) => if i < pairs@.len() {
                Some(pairs@[i as int].1)
            } else {
                None
            },
            None => None,
        },
        _ => None,
    }
}

/// The text under a key, which has to be there.
pub open spec fn text_under(v: SpecValue, key: Seq<char>, missing: Seq<char>) -> Result<
    Seq<char>,
    BindingRefusal,
> {
    match value_under(v, key) {
        Some(SpecValue::Text(t)) => Ok(t@),
        Some(_) => Err(BindingRefusal::Conversion(Expected::Text)),
        None => Err(BindingRefusal::Value(missing)),
    }
}

/// The boolean under a key, which has to be there.
pub open spec fn bool_under(v: SpecValue, key: Seq<char>, missing: Seq<char>) -> Result<
    bool,
    BindingRefusal,
> {
    match value_under(v, key) {
        Some(SpecValue::Bool(b)) => Ok(b),
        Some(_) => Err(BindingRefusal::Conversion(Expected::Bool)),
        None => Err(BindingRefusal::Value(missing)),
    }
}

/// The integer under a key, which has to be there and in the range. A boolean counts as 0 or 1.
pub open spec fn int_under(
    v: SpecValue,
    key: Seq<char>,
    missing: Seq<char>,
    low: i64,
    high: i64,
) -> Result<int, BindingRefusal> {
    let refused = Err(BindingRefusal::Conversion(Expected::Int(low, high)));
    match value_under(v, key) {
        Some(SpecValue::Int(n)) => if low <= n <= high {
            Ok(n as int)
        } else {
            refused
        },
        Some(SpecValue::Bool(b)) => Ok(
            if b {
                1
            } else {
                0
            },
        ),
        Some(_) => refused,
        None => Err(BindingRefusal::Value(missing)),
    }
}

/// The time zone of a timestamp: none where the key is missing or holds nothing.
pub open spec fn zone_under(v: SpecValue) -> Result<Option<Seq<char>>, BindingRefusal> {
    match value_under(v, "tz"@) {
        Some(SpecValue::Text(t)) => Ok(Some(t@)),
        Some(SpecValue::Nothing) => Ok(None),
        Some(_) => Err(BindingRefusal::Conversion(Expected::Text)),
        None => Ok(None),
    }
}

/// The type without nested fields of a kind, or `None` where the kind is not one of these.
pub open spec fn plain_type(kind: Seq<char>, v: SpecValue) -> Option<
    Result<TypeModel, BindingRefusal>,
> {
    if simple_kind(kind) is Some {
        Some(Ok(TypeModel::Scalar(simple_kind(kind)->0)))
    } else if kind == "fixed_size_binary"@ {
        Some(
            match int_under(
                v,
                "byte_width"@,
                "Missing byte_width"@,
                i32::MIN as i64,
                i32::MAX as i64,
            ) {
                Ok(n) => Ok(TypeModel::Scalar(DataType::FixedSizeBinary(n as i32))),
                Err(why) => Err(why),
            },
        )
    } else if kind == "time32"@ {
        Some(
            match unit_under(v, "Missing time unit"@) {
                Ok(unit) => Ok(TypeModel::Scalar(DataType::Time32(unit))),
                Err(why) => Err(why),
            },
        )
    } else if kind == "time64"@ {
        Some(
            match unit_under(v, "Missing time unit"@) {
                Ok(unit) => Ok(TypeModel::Scalar(DataType::Time64(unit))),
                Err(why) => Err(why),
            },
        )
    } else if kind == "duration"@ {
        Some(
            match unit_under(v, "Missing duration unit"@) {
                Ok(unit) => Ok(TypeModel::Scalar(DataType::Duration(unit))),
                Err(why) => Err(why),
            },
        )
    } else if kind == "timestamp"@ {
        Some(
            match text_under(v, "unit"@, "Missing timestamp unit"@) {
                Ok(name) => match zone_under(v) {
                    Ok(zone) => match named_unit(name) {
                        Ok(unit) => Ok(TypeModel::Timestamp(unit, zone)),
                        Err(why) => Err(why),
                    },
                    Err(why) => Err(why),
                },
                Err(why) => Err(why),
            },
        )
    } else if kind == "decimal128"@ {
        Some(
            match decimal_under(v) {
                Ok((precision, scale)) => Ok(
                    TypeModel::Scalar(DataType::Decimal128(precision, scale)),
                ),
                Err(why) => Err(why),
            },
        )
    } else if kind == "decimal256"@ {
        Some(
            match decimal_under(v) {
                Ok((precision, scale)) => Ok(
                    TypeModel::Scalar(DataType::Decimal256(precision, scale)),
                ),
                Err(why) => Err(why),
            },
        )
    } else {
        None
    }
}

/// The time unit of a type.
pub open spec fn unit_under(v: SpecValue, missing: Seq<char>) -> Result<TimeUnit, BindingRefusal> {
    match text_under(v, "unit"@, missing) {
        Ok(name) => named_unit(name),
        Err(why) => Err(why),
    }
}

/// The precision and the scale of a decimal type.
pub open spec fn decimal_under(v: SpecValue) -> Result<(u8, i8), BindingRefusal> {
    match int_under(v, "precision"@, "Missing precision"@, 0, u8::MAX as i64) {
        Ok(precision) => match int_under(
            v,
            "scale"@,
            "Missing scale"@,
            i8::MIN as i64,
            i8::MAX as i64,
        ) {
            Ok(scale) => Ok((precision as u8, scale as i8)),
            Err(why) => Err(why),
        },
        Err(why) => Err(why),
    }
}

/// The type that a value describes, or why it is refused.
pub open spec fn parsed_type(v: SpecValue) -> Result<TypeModel, BindingRefusal>
    decreases v, 0int,
{
    match v {
        SpecValue::Dict(pairs) => match text_under(v, "kind"@, "Missing dtype kind"@) {
            Ok(kind) => if plain_type(kind, v) is Some {
                plain_type(kind, v)->0
            } else if kind == "list"@ || kind == "large_list"@ || kind == "fixed_size_list"@ {
                match key_position(pairs@, "field"@) {
                    Some(i) => if kind == "fixed_size_list"@ && list_size(v) is Err {
                        Err(list_size(v)->Err_0)
                    } else if i < pairs@.len() {
                        match parsed_field(pairs@[i as int].1) {
                            Ok(f) => Ok(
                                if kind == "list"@ {
                                    TypeModel::List(ListKind::List, Box::new(f))
                                } else if kind == "large_list"@ {
                                    TypeModel::List(ListKind::LargeList, Box::new(f))
                                } else {
                                    TypeModel::FixedSizeList(
                                        Box::new(f),
                                        list_size(v)->Ok_0 as i32,
                                    )
                                },
                            ),
                            Err(why) => Err(why),
                        }
                    } else {
                        arbitrary()
                    },
                    None => Err(BindingRefusal::Value("Missing list field"@)),
                }
            } else if kind == "struct"@ {
                match key_position(pairs@, "fields"@) {
                    Some(i) => if i < pairs@.len() {
                        match pairs@[i as int].1 {
                            SpecValue::List(items) => match parsed_fields(items@) {
                                Ok(fields) => Ok(TypeModel::Struct(fields)),
                                Err(why) => Err(why),
                            },
                            _ => Err(BindingRefusal::Conversion(Expected::List)),
                        }
                    } else {
                        arbitrary()
                    },
                    None => Err(BindingRefusal::Value("Missing struct fields"@)),
                }
            } else {
                Err(BindingRefusal::Value("Unsupported dtype kind: "@ + kind))
            },
            Err(why) => Err(why),
        },
        _ => Err(BindingRefusal::Conversion(Expected::Dict)),
    }
}

/// The number of items in a list of fixed size.
pub open spec fn list_size(v: SpecValue) -> Result<int, BindingRefusal> {
    int_under(v, "size"@, "Missing list size"@, i32::MIN as i64, i32::MAX as i64)
}

/// The field that a value describes, or why it is refused.
pub open spec fn parsed_field(v: SpecValue) -> Result<FieldModel, BindingRefusal>
    decreases v, 0int,
{
    match v {
        SpecValue::Dict(pairs) => match text_under(v, "name"@, "Missing field name"@) {
            Ok(name) => match bool_under(v, "nullable"@, "Missing field nullable"@) {
                Ok(nullable) => match key_position(pairs@, "dtype"@) {
                    Some(i) => if i < pairs@.len() {
                        match parsed_type(pairs@[i as int].1) {
                            Ok(data_type) => Ok(
                                FieldModel { name, data_type, nullable, metadata: Map::empty() },
                            ),
                            Err(why) => Err(why),
                        }
                    } else {
                        arbitrary()
                    },
                    None => Err(BindingRefusal::Value("Missing field dtype"@)),
                },
                Err(why) => Err(why),
            },
            Err(why) => Err(why),
        },
        _ => Err(BindingRefusal::Conversion(Expected::Dict)),
    }
}

/// The fields that values describe, or why the first bad one is refused.
pub open spec fn parsed_fields(items: Seq<SpecValue>) -> Result<Seq<FieldModel>, BindingRefusal>
    decreases items, items.len(),
{
    if items.len() == 0 {
        Ok(Seq::empty())
    } else {
        match parsed_fields(items.subrange(0, items.len() - 1)) {
            Ok(fields) => match parsed_field(items[items.len() - 1]) {
                Ok(f) => Ok(fields.push(f)),
                Err(why) => Err(why),
            },
            Err(why) => Err(why),
        }
    }
}

fn refused(text: &str) -> (r: BindingError)
    ensures
        binding_tells(r, BindingRefusal::Value(text@)),
{
    BindingError::Value(String::from_str(text))
}

fn find<'a>(pairs: &'a Vec<(String, SpecValue)>, key: &str) -> (r: Option<&'a SpecValue>)
    ensures
        match r {
            Some(v) => key_position(pairs@, key@) matches Some(i) && i < pairs@.len()
                && pairs@[i as int].1 == *v,
            None => key_position(pairs@, key@) is None,
        },
{
    let n: usize = pairs.len();
    let mut i: usize = n;
    assert(pairs@.take(n as int) =~= pairs@);
    while i > 0
        invariant
            i <= n,
            n == pairs@.len(),
            key_position(pairs@, key@) == key_position(pairs@.take(i as int), key@),
        decreases i,
    {
        i = i - 1;
        let ghost upto = pairs@.take(i + 1);
        assert(upto.last() == pairs@[i as int]);
        assert(upto.drop_last() =~= pairs@.take(i as int));
        if same_text(pairs[i].0.as_str(), key) {
            return Some(&pairs[i].1);
        }
    }
    None
}

fn find_text<'a>(pairs: &'a Vec<(String, SpecValue)>, key: &str, missing: &str) -> (r: Result<
    &'a str,
    BindingError,
>)
    ensures
        match r {
            Ok(t) => text_under(SpecValue::Dict(*pairs), key@, missing@) == Result::<
                Seq<char>,
                BindingRefusal,
            >::Ok(t@),
            Err(e) => text_under(SpecValue::Dict(*pairs), key@, missing@) is Err && binding_tells(
                e,
                text_under(SpecValue::Dict(*pairs), key@, missing@)->Err_0,
            ),
        },
{
    match find(pairs, key) {
        Some(SpecValue::Text(t)) => Ok(t.as_str()),
        Some(_) => Err(BindingError::Conversion(Expected::Text)),
        None => Err(refused(missing)),
    }
}

fn find_bool(pairs: &Vec<(String, SpecValue)>, key: &str, missing: &str) -> (r: Result<
    bool,
    BindingError,
>)
    ensures
        match r {
            Ok(b) => bool_under(SpecValue::Dict(*pairs), key@, missing@) == Result::<
                bool,
                BindingRefusal,
            >::Ok(b),
            Err(e) => bool_under(SpecValue::Dict(*pairs), key@, missing@) is Err && binding_tells(
                e,
                bool_under(SpecValue::Dict(*pairs), key@, missing@)->Err_0,
            ),
        },
{
    match find(pairs, key) {
        Some(SpecValue::Bool(b)) => Ok(*b),
        Some(_) => Err(BindingError::Conversion(Expected::Bool)),
        None => Err(refused(missing)),
    }
}

fn find_int(
    pairs: &Vec<(String, SpecValue)>,
    key: &str,
    missing: &str,
    low: i64,
    high: i64,
) -> (r: Result<i64, BindingError>)
    requires
        low <= 0,
        1 <= high,
    ensures
        match r {
            Ok(n) => low <= n <= high && int_under(
                SpecValue::Dict(*pairs),
                key@,
                missing@,
                low,
                high,
            ) == Result::<int, BindingRefusal>::Ok(n as int),
            Err(e) => {
                let expected = int_under(SpecValue::Dict(*pairs), key@, missing@, low, high);
                expected is Err && binding_tells(e, expected->Err_0)
            },
        },
{
    match find(pairs, key) {
        Some(SpecValue::Int(n)) => if low <= *n && *n <= high {
            Ok(*n)
        } else {
            Err(BindingError::Conversion(Expected::Int(low, high)))
        },
        Some(SpecValue::Bool(b)) => Ok(
            if *b {
                1
            } else {
                0
            },
        ),
        Some(_) => Err(BindingError::Conversion(Expected::Int(low, high))),
        None => Err(refused(missing)),
    }
}

fn find_unit(pairs: &Vec<(String, SpecValue)>, missing: &str) -> (r: Result<
    TimeUnit,
    BindingError,
>)
    ensures
        match r {
            Ok(unit) => unit_under(SpecValue::Dict(*pairs), missing@) == Result::<
                TimeUnit,
                BindingRefusal,
            >::Ok(unit),
            Err(e) => unit_under(SpecValue::Dict(*pairs), missing@) is Err && binding_tells(
                e,
                unit_under(SpecValue::Dict(*pairs), missing@)->Err_0,
            ),
        },
{
    match find_text(pairs, "unit", missing) {
        Ok(name) => time_unit_from_str(name),
        Err(e) => Err(e),
    }
}

fn find_decimal(pairs: &Vec<(String, SpecValue)>) -> (r: Result<(u8, i8), BindingError>)
    ensures
        match r {
            Ok(d) => decimal_under(SpecValue::Dict(*pairs)) == Result::<
                (u8, i8),
                BindingRefusal,
            >::Ok(d),
            Err(e) => decimal_under(SpecValue::Dict(*pairs)) is Err && binding_tells(
                e,
                decimal_under(SpecValue::Dict(*pairs))->Err_0,
            ),
        },
{
    match find_int(pairs, "precision", "Missing precision", 0, u8::MAX as i64) {
        Ok(precision) => match find_int(
            pairs,
            "scale",
            "Missing scale",
            i8::MIN as i64,
            i8::MAX as i64,
        ) {
            Ok(scale) => Ok((precision as u8, scale as i8)),
            Err(e) => Err(e),
        },
        Err(e) => Err(e),
    }
}

fn find_zone(pairs: &Vec<(String, SpecValue)>) -> (r: Result<Option<Arc<str>>, BindingError>)
    ensures
        match r {
            Ok(zone) => zone_under(SpecValue::Dict(*pairs)) == Result::<
                Option<Seq<char>>,
                BindingRefusal,
            >::Ok(zone_text(zone)),
            Err(e) => zone_under(SpecValue::Dict(*pairs)) is Err && binding_tells(
                e,
                zone_under(SpecValue::Dict(*pairs))->Err_0,
            ),
        },
{
    match find(pairs, "tz") {
        Some(SpecValue::Text(t)) => Ok(Some(shared_text(t.as_str()))),
        Some(SpecValue::Nothing) => Ok(None),
        Some(_) => Err(BindingError::Conversion(Expected::Text)),
        None => Ok(None),
    }
}

/// `From<&str>` of std's `Arc<str>`: a shared text that holds the same characters.
#[verifier::external_body]
fn shared_text(s: &str) -> (r: Arc<str>)
    ensures
        (*r)@ == s@,
{
    Arc::from(s)
}

/// The outcome of reading a type.
pub open spec fn type_read(r: Result<DataType, BindingError>, expected: Result<
    TypeModel,
    BindingRefusal,
>) -> bool {
    match r {
        Ok(t) => expected == Result::<TypeModel, BindingRefusal>::Ok(type_model(t)),
        Err(e) => expected is Err && binding_tells(e, expected->Err_0),
    }
}

fn simple_type(kind: &str) -> (r: Option<DataType>)
    ensures
        r == simple_kind(kind@),
{
    if same_text(kind, "null") {
        Some(DataType::Null)
    } else if same_text(kind, "bool") {
        Some(DataType::Boolean)
    } else if same_text(kind, "int8") {
        Some(DataType::Int8)
    } else if same_text(kind, "int16") {
        Some(DataType::Int16)
    } else if same_text(kind, "int32") {
        Some(DataType::Int32)
    } else if same_text(kind, "int64") {
        Some(DataType::Int64)
    } else if same_text(kind, "uint8") {
        Some(DataType::UInt8)
    } else if same_text(kind, "uint16") {
        Some(DataType::UInt16)
    } else if same_text(kind, "uint32") {
        Some(DataType::UInt32)
    } else if same_text(kind, "uint64") {
        Some(DataType::UInt64)
    } else if same_text(kind, "float32") {
        Some(DataType::Float32)
    } else if same_text(kind, "float64") {
        Some(DataType::Float64)
    } else if same_text(kind, "string") {
        Some(DataType::Utf8)
    } else if same_text(kind, "large_string") {
        Some(DataType::LargeUtf8)
    } else if same_text(kind, "binary") {
        Some(DataType::Binary)
    } else if same_text(kind, "large_binary") {
        Some(DataType::LargeBinary)
    } else if same_text(kind, "date32") {
        Some(DataType::Date32)
    } else if same_text(kind, "date64") {
        Some(DataType::Date64)
    } else {
        None
    }
}

proof fn simple_kinds_are_scalars(kind: Seq<char>)
    ensures
        simple_kind(kind) matches Some(t) ==> type_model(t) == TypeModel::Scalar(t),
{
}

fn read_plain(kind: &str, pairs: &Vec<(String, SpecValue)>) -> (r: Option<
    Result<DataType, BindingError>,
>)
    ensures
        match r {
            Some(t) => plain_type(kind@, SpecValue::Dict(*pairs)) is Some && type_read(
                t,
                plain_type(kind@, SpecValue::Dict(*pairs))->0,
            ),
            None => plain_type(kind@, SpecValue::Dict(*pairs)) is None,
        },
{
    if let Some(t) = simple_type(kind) {
        proof {
            simple_kinds_are_scalars(kind@);
        }
        return Some(Ok(t));
    }
    if same_text(kind, "fixed_size_binary") {
        Some(
            match find_int(
                pairs,
                "byte_width",
                "Missing byte_width",
                i32::MIN as i64,
                i32::MAX as i64,
            ) {
                Ok(n) => Ok(DataType::FixedSizeBinary(n as i32)),
                Err(e) => Err(e),
            },
        )
    } else if same_text(kind, "time32") {
        Some(
            match find_unit(pairs, "Missing time unit") {
                Ok(unit) => Ok(DataType::Time32(unit)),
                Err(e) => Err(e),
            },
        )
    } else if same_text(kind, "time64") {
        Some(
            match find_unit(pairs, "Missing time unit") {
                Ok(unit) => Ok(DataType::Time64(unit)),
                Err(e) => Err(e),
            },
        )
    } else if same_text(kind, "duration") {
        Some(
            match find_unit(pairs, "Missing duration unit") {
                Ok(unit) => Ok(DataType::Duration(unit)),
                Err(e) => Err(e),
            },
        )
    } else if same_text(kind, "timestamp") {
        Some(read_timestamp(pairs))
    } else if same_text(kind, "decimal128") {
        Some(
            match find_decimal(pairs) {
                Ok((precision, scale)) => Ok(DataType::Decimal128(precision, scale)),
                Err(e) => Err(e),
            },
        )
    } else if same_text(kind, "decimal256") {
        Some(
            match find_decimal(pairs) {
                Ok((precision, scale)) => Ok(DataType::Decimal256(precision, scale)),
                Err(e) => Err(e),
            },
        )
    } else {
        None
    }
}

fn read_timestamp(pairs: &Vec<(String, SpecValue)>) -> (r: Result<DataType, BindingError>)
    ensures
        type_read(
            r,
            match text_under(SpecValue::Dict(*pairs), "unit"@, "Missing timestamp unit"@) {
                Ok(name) => match zone_under(SpecValue::Dict(*pairs)) {
                    Ok(zone) => match named_unit(name) {
                        Ok(unit) => Ok(TypeModel::Timestamp(unit, zone)),
                        Err(why) => Err(why),
                    },
                    Err(why) => Err(why),
                },
                Err(why) => Err(why),
            },
        ),
{
    let name = match find_text(pairs, "unit", "Missing timestamp unit") {
        Ok(name) => name,
        Err(e) => return Err(e),
    };
    let zone = match find_zone(pairs) {
        Ok(zone) => zone,
        Err(e) => return Err(e),
    };
    match time_unit_from_str(name) {
        Ok(unit) => Ok(DataType::Timestamp(unit, zone)),
        Err(e) => Err(e),
    }
}

/// Reads a data type from the value that describes it.
pub fn data_type_from_spec(spec_value: &SpecValue) -> (r: Result<DataType, BindingError>)
    ensures
        type_read(r, parsed_type(*spec_value)),
    decreases *spec_value, 0int,
{
    let pairs = match spec_value {
        SpecValue::Dict(pairs) => pairs,
        _ => return Err(BindingError::Conversion(Expected::Dict)),
    };
    let kind = match find_text(pairs, "kind", "Missing dtype kind") {
        Ok(kind) => kind,
        Err(e) => return Err(e),
    };
    if let Some(plain) = read_plain(kind, pairs) {
        return plain;
    }
    if same_text(kind, "list") || same_text(kind, "large_list") || same_text(
        kind,
        "fixed_size_list",
    ) {
        let field_spec = match find(pairs, "field") {
            Some(v) => v,
            None => return Err(refused("Missing list field")),
        };
        proof {
            let i = key_position(pairs@, "field"@)->0 as int;
            assert(decreases_to!(*spec_value => pairs@[i].1));
        }
        if same_text(kind, "fixed_size_list") {
            let size: i64 = match find_int(
                pairs,
                "size",
                "Missing list size",
                i32::MIN as i64,
                i32::MAX as i64,
            ) {
                Ok(n) => n,
                Err(e) => return Err(e),
            };
            proof {
                kind_letters();
            }
            match field_from_spec(field_spec) {
                Ok(f) => Ok(DataType::FixedSizeList(Arc::new(f), size as i32)),
                Err(e) => Err(e),
            }
        } else {
            match field_from_spec(field_spec) {
                Ok(f) => if same_text(kind, "list") {
                    Ok(DataType::List(Arc::new(f)))
                } else {
                    Ok(DataType::LargeList(Arc::new(f)))
                },
                Err(e) => Err(e),
            }
        }
    } else if same_text(kind, "struct") {
        match find(pairs, "fields") {
            Some(SpecValue::List(items)) => {
                proof {
                    let i = key_position(pairs@, "fields"@)->0 as int;
                    assert(decreases_to!(*spec_value => pairs@[i].1));
                    assert(decreases_to!(pairs@[i].1 => items@));
                    assert(decreases_to!(*spec_value => items@));
                }
                match fields_from_spec(items) {
                    Ok(fields) => Ok(DataType::Struct(fields)),
                    Err(e) => Err(e),
                }
            },
            Some(_) => Err(BindingError::Conversion(Expected::List)),
            None => Err(refused("Missing struct fields")),
        }
    } else {
        Err(BindingError::Value(joined("Unsupported dtype kind: ", kind)))
    }
}

/// Reads a field from the value that describes it.
pub fn field_from_spec(spec_value: &SpecValue) -> (r: Result<Field, BindingError>)
    ensures
        match r {
            Ok(f) => parsed_field(*spec_value) == Result::<FieldModel, BindingRefusal>::Ok(
                field_model(f),
            ),
            Err(e) => parsed_field(*spec_value) is Err && binding_tells(
                e,
                parsed_field(*spec_value)->Err_0,
            ),
        },
    decreases *spec_value, 0int,
{
    let pairs = match spec_value {
        SpecValue::Dict(pairs) => pairs,
        _ => return Err(BindingError::Conversion(Expected::Dict)),
    };
    let name = match find_text(pairs, "name", "Missing field name") {
        Ok(name) => name,
        Err(e) => return Err(e),
    };
    let nullable = match find_bool(pairs, "nullable", "Missing field nullable") {
        Ok(nullable) => nullable,
        Err(e) => return Err(e),
    };
    match find(pairs, "dtype") {
        Some(v) => {
            proof {
                let i = key_position(pairs@, "dtype"@)->0 as int;
                assert(decreases_to!(*spec_value => pairs@[i].1));
            }
            match data_type_from_spec(v) {
                Ok(data_type) => Ok(field_new(String::from_str(name), data_type, nullable)),
                Err(e) => Err(e),
            }
        },
        None => Err(refused("Missing field dtype")),
    }
}

proof fn refused_fields_stay_refused(items: Seq<SpecValue>, n: int)
    requires
        0 <= n <= items.len(),
        parsed_fields(items.subrange(0, n)) is Err,
    ensures
        parsed_fields(items) == parsed_fields(items.subrange(0, n)),
    decreases items.len() - n,
{
    if n < items.len() {
        let next = items.subrange(0, n + 1);
        assert(next.subrange(0, next.len() - 1) =~= items.subrange(0, n));
        refused_fields_stay_refused(items, n + 1);
    } else {
        assert(items.subrange(0, n) =~= items);
    }
}

fn fields_from_spec(items: &Vec<SpecValue>) -> (r: Result<Fields, BindingError>)
    ensures
        match r {
            Ok(f) => parsed_fields(items@) == Result::<Seq<FieldModel>, BindingRefusal>::Ok(
                fields_model(f),
            ),
            Err(e) => parsed_fields(items@) is Err && binding_tells(
                e,
                parsed_fields(items@)->Err_0,
            ),
        },
    decreases items@, 1int,
{
    let mut fields: Vec<Field> = Vec::new();
    let n: usize = items.len();
    assert(items@.subrange(0, 0) =~= Seq::<SpecValue>::empty());
    assert(Seq::new(fields@.len(), |i: int| field_model(fields@[i])) =~= Seq::empty());
    for i in 0..n
        invariant
            n == items@.len(),
            parsed_fields(items@.subrange(0, i as int)) == Result::<
                Seq<FieldModel>,
                BindingRefusal,
            >::Ok(Seq::new(fields@.len(), |k: int| field_model(fields@[k]))),
    {
        let ghost next = items@.subrange(0, i + 1);
        let ghost before = fields@;
        proof {
            assert(next.subrange(0, next.len() - 1) =~= items@.subrange(0, i as int));
            assert(decreases_to!(items@ => items@[i as int]));
        }
        match field_from_spec(&items[i]) {
            Ok(f) => {
                fields.push(f);
                assert(Seq::new(fields@.len(), |k: int| field_model(fields@[k]))
                    =~= Seq::new(before.len(), |k: int| field_model(before[k])).push(
                    field_model(f),
                ));
            },
            Err(e) => {
                proof {
                    refused_fields_stay_refused(items@, i + 1);
                }
                return Err(e);
            },
        }
    }
    assert(items@.subrange(0, n as int) =~= items@);
    Ok(fields_from(fields))
}

/// What tells the names of the kinds apart.
proof fn kind_letters()
    ensures
        "null"@.len() == 4,
        "bool"@.len() == 4,
        "int8"@.len() == 4,
        "list"@.len() == 4,
        "null"@[0] == 'n',
        "bool"@[0] == 'b',
        "int8"@[0] == 'i',
        "list"@[0] == 'l',
        "int16"@.len() == 5,
        "int32"@.len() == 5,
        "int64"@.len() == 5,
        "uint8"@.len() == 5,
        "int16"@[3] == '1',
        "int32"@[3] == '3',
        "int64"@[3] == '6',
        "uint8"@[3] == 't',
        "uint16"@.len() == 6,
        "uint32"@.len() == 6,
        "uint64"@.len() == 6,
        "string"@.len() == 6,
        "binary"@.len() == 6,
        "date32"@.len() == 6,
        "date64"@.len() == 6,
        "time32"@.len() == 6,
        "time64"@.len() == 6,
        "struct"@.len() == 6,
        "uint16"@[0] == 'u',
        "uint16"@[4] == '1',
        "uint32"@[0] == 'u',
        "uint32"@[4] == '3',
        "uint64"@[0] == 'u',
        "uint64"@[4] == '6',
        "string"@[0] == 's',
        "string"@[4] == 'n',
        "binary"@[0] == 'b',
        "binary"@[4] == 'r',
        "date32"@[0] == 'd',
        "date32"@[4] == '3',
        "date64"@[0] == 'd',
        "date64"@[4] == '6',
        "time32"@[0] == 't',
        "time32"@[4] == '3',
        "time64"@[0] == 't',
        "time64"@[4] == '6',
        "struct"@[0] == 's',
        "struct"@[4] == 'c',
        "float32"@.len() == 7,
        "float64"@.len() == 7,
        "float32"@[5] == '3',
        "float64"@[5] == '6',
        "duration"@.len() == 8,
        "timestamp"@.len() == 9,
        "decimal128"@.len() == 10,
        "decimal256"@.len() == 10,
        "large_list"@.len() == 10,
        "decimal128"@[7] == '1',
        "decimal256"@[7] == '2',
        "large_list"@[7] == 'i',
        "large_string"@.len() == 12,
        "large_binary"@.len() == 12,
        "large_string"@[6] == 's',
        "large_binary"@[6] == 'b',
        "fixed_size_list"@.len() == 15,
        "fixed_size_binary"@.len() == 17,
{
    reveal_strlit("null");
    reveal_strlit("bool");
    reveal_strlit("int8");
    reveal_strlit("list");
    reveal_strlit("int16");
    reveal_strlit("int32");
    reveal_strlit("int64");
    reveal_strlit("uint8");
    reveal_strlit("uint16");
    reveal_strlit("uint32");
    reveal_strlit("uint64");
    reveal_strlit("string");
    reveal_strlit("binary");
    reveal_strlit("date32");
    reveal_strlit("date64");
    reveal_strlit("time32");
    reveal_strlit("time64");
    reveal_strlit("struct");
    reveal_strlit("float32");
    reveal_strlit("float64");
    reveal_strlit("duration");
    reveal_strlit("timestamp");
    reveal_strlit("decimal128");
    reveal_strlit("decimal256");
    reveal_strlit("large_list");
    reveal_strlit("large_string");
    reveal_strlit("large_binary");
    reveal_strlit("fixed_size_list");
    reveal_strlit("fixed_size_binary");
}

/// What tells the keys apart.
proof fn key_letters()
    ensures
        "tz"@.len() == 2,
        "kind"@.len() == 4,
        "size"@.len() == 4,
        "unit"@.len() == 4,
        "name"@.len() == 4,
        "kind"@[0] == 'k',
        "size"@[0] == 's',
        "unit"@[0] == 'u',
        "name"@[0] == 'n',
        "field"@.len() == 5,
        "scale"@.len() == 5,
        "dtype"@.len() == 5,
        "field"@[0] == 'f',
        "scale"@[0] == 's',
        "dtype"@[0] == 'd',
        "fields"@.len() == 6,
        "nullable"@.len() == 8,
        "precision"@.len() == 9,
        "byte_width"@.len() == 10,
{
    reveal_strlit("kind");
    reveal_strlit("field");
    reveal_strlit("fields");
    reveal_strlit("size");
    reveal_strlit("unit");
    reveal_strlit("tz");
    reveal_strlit("precision");
    reveal_strlit("scale");
    reveal_strlit("byte_width");
    reveal_strlit("name");
    reveal_strlit("nullable");
    reveal_strlit("dtype");
}

/// The type without the metadata of its fields.
pub open spec fn bare(m: TypeModel) -> TypeModel
    decreases m,
{
    match m {
        TypeModel::List(kind, f) => TypeModel::List(kind, Box::new(bare_field(*f))),
        TypeModel::FixedSizeList(f, size) => TypeModel::FixedSizeList(
            Box::new(bare_field(*f)),
            size,
        ),
        TypeModel::Struct(fields) => TypeModel::Struct(
            Seq::new(
                fields.len(),
                |i: int|
                    if 0 <= i < fields.len() {
                        bare_field(fields[i])
                    } else {
                        arbitrary()
                    },
            ),
        ),
        _ => m,
    }
}

/// The field without metadata, its own and that of fields in it.
pub open spec fn bare_field(f: FieldModel) -> FieldModel
    decreases f,
{
    FieldModel {
        name: f.name,
        data_type: bare(f.data_type),
        nullable: f.nullable,
        metadata: Map::empty(),
    }
}

proof fn value_is_under_its_key(v: SpecValue, keys: Seq<Seq<char>>, i: int)
    requires
        has_keys(v, keys),
        keys.no_duplicates(),
        0 <= i < keys.len(),
    ensures
        key_position(v->Dict_0@, keys[i]) == Some(i as nat),
        value_under(v, keys[i]) == Some(value_at(v, i)),
{
    let pairs = v->Dict_0@;
    key_position_is_one(pairs, keys[i]);
    assert(pairs[i].0@ == keys[i]);
}

proof fn simple_kind_reads_back(t: DataType)
    requires
        kind_of_simple(t) is Some,
    ensures
        simple_kind(kind_of_simple(t)->0) == Some(t),
{
    kind_letters();
}

/// A value that describes a type reads back as that type: all that is lost is the metadata of
/// its fields.
pub proof fn descriptions_read_back(v: SpecValue, m: TypeModel)
    requires
        describes(v, m),
    ensures
        parsed_type(v) == Result::<TypeModel, BindingRefusal>::Ok(bare(m)),
    decreases m, 0int,
{
    key_letters();
    match m {
        TypeModel::Scalar(t) => {
            scalar_reads_back(v, t);
        },
        TypeModel::Timestamp(unit, zone) => {
            let keys = seq!["kind"@, "unit"@, "tz"@];
            value_is_under_its_key(v, keys, 0);
            value_is_under_its_key(v, keys, 1);
            value_is_under_its_key(v, keys, 2);
            unit_names_read_back(unit);
            kind_letters();
        },
        TypeModel::List(kind, f) => {
            let keys = seq!["kind"@, "field"@];
            value_is_under_its_key(v, keys, 0);
            value_is_under_its_key(v, keys, 1);
            field_description_reads_back(value_at(v, 1), *f);
            kind_letters();
        },
        TypeModel::FixedSizeList(f, size) => {
            let keys = seq!["kind"@, "field"@, "size"@];
            value_is_under_its_key(v, keys, 0);
            value_is_under_its_key(v, keys, 1);
            value_is_under_its_key(v, keys, 2);
            field_description_reads_back(value_at(v, 1), *f);
            kind_letters();
        },
        TypeModel::Struct(fields) => {
            let keys = seq!["kind"@, "fields"@];
            value_is_under_its_key(v, keys, 0);
            value_is_under_its_key(v, keys, 1);
            let items = value_at(v, 1)->List_0@;
            assert forall|i: int| 0 <= i < fields.len() implies parsed_field(#[trigger] items[i])
                == Result::<FieldModel, BindingRefusal>::Ok(bare_field(fields[i])) by {
                assert(decreases_to!(m => fields));
                assert(decreases_to!(fields => fields[i]));
                field_description_reads_back(items[i], fields[i]);
            }
            fields_read_back(items, fields);
            kind_letters();
            assert(bare(m)->Struct_0 =~= Seq::new(fields.len(), |i: int| bare_field(fields[i])));
        },
        _ => {},
    }
}

proof fn scalar_reads_back(v: SpecValue, t: DataType)
    requires
        describes(v, TypeModel::Scalar(t)),
    ensures
        parsed_type(v) == Result::<TypeModel, BindingRefusal>::Ok(TypeModel::Scalar(t)),
{
    key_letters();
    match t {
        DataType::FixedSizeBinary(_) => {
            let keys = seq!["kind"@, "byte_width"@];
            value_is_under_its_key(v, keys, 0);
            value_is_under_its_key(v, keys, 1);
            kind_letters();
        },
        DataType::Time32(unit) | DataType::Time64(unit) | DataType::Duration(unit) => {
            let keys = seq!["kind"@, "unit"@];
            value_is_under_its_key(v, keys, 0);
            value_is_under_its_key(v, keys, 1);
            unit_names_read_back(unit);
            kind_letters();
        },
        DataType::Decimal128(_, _) | DataType::Decimal256(_, _) => {
            let keys = seq!["kind"@, "precision"@, "scale"@];
            value_is_under_its_key(v, keys, 0);
            value_is_under_its_key(v, keys, 1);
            value_is_under_its_key(v, keys, 2);
            kind_letters();
        },
        _ => {
            value_is_under_its_key(v, seq!["kind"@], 0);
            simple_kind_reads_back(t);
        },
    }
}

/// A value that describes a field reads back as that field without metadata.
pub proof fn field_description_reads_back(v: SpecValue, f: FieldModel)
    requires
        describes_field(v, f),
    ensures
        parsed_field(v) == Result::<FieldModel, BindingRefusal>::Ok(bare_field(f)),
    decreases f, 0int,
{
    key_letters();
    let keys = seq!["name"@, "nullable"@, "dtype"@];
    value_is_under_its_key(v, keys, 0);
    value_is_under_its_key(v, keys, 1);
    value_is_under_its_key(v, keys, 2);
    descriptions_read_back(value_at(v, 2), f.data_type);
}

proof fn fields_read_back(items: Seq<SpecValue>, fields: Seq<FieldModel>)
    requires
        items.len() == fields.len(),
        forall|i: int|
            0 <= i < fields.len() ==> parsed_field(#[trigger] items[i]) == Result::<
                FieldModel,
                BindingRefusal,
            >::Ok(bare_field(fields[i])),
    ensures
        parsed_fields(items) == Result::<Seq<FieldModel>, BindingRefusal>::Ok(
            Seq::new(fields.len(), |i: int| bare_field(fields[i])),
        ),
    decreases fields.len(),
{
    let n = fields.len() - 1;
    if fields.len() > 0 {
        let few = items.subrange(0, n);
        assert forall|i: int| 0 <= i < n implies parsed_field(#[trigger] few[i]) == Result::<
            FieldModel,
            BindingRefusal,
        >::Ok(bare_field(fields.subrange(0, n)[i])) by {
            assert(few[i] == items[i]);
        }
        fields_read_back(few, fields.subrange(0, n));
        assert(parsed_field(items[n]) == Result::<FieldModel, BindingRefusal>::Ok(
            bare_field(fields[n]),
        ));
        assert(Seq::new(fields.len(), |i: int| bare_field(fields[i])) =~= Seq::new(
            n as nat,
            |i: int| bare_field(fields.subrange(0, n)[i]),
        ).push(bare_field(fields[n])));
    } else {
        assert(Seq::new(fields.len(), |i: int| bare_field(fields[i])) =~= Seq::<
            FieldModel,
        >::empty());
    }
}

} // verus!
