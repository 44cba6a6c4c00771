//! Arrow data types: what they hold, how they are stored, and how they may evolve.

use vstd::prelude::*;
use vstd::string::*;

use super::error::{tells, CatalogError, ErrorView, Refusal, Result};
use super::ipc::{ipc_panics, ipc_schema, ipc_types, is_readable, open_schema, read_types};
use super::room::{encodable, field_room, field_tables, spend_field, MAX_ROOM};
use crate::text::{decimal, decimal_text, joined};

use arrow::datatypes::{DataType, Field, Fields, IntervalUnit, TimeUnit, UnionFields, UnionMode};

verus! {

/// `arrow::datatypes::TimeUnit`.
#[verifier::external_type_specification]
pub struct ExTimeUnit(arrow::datatypes::TimeUnit);

/// `arrow::datatypes::IntervalUnit`.
#[verifier::external_type_specification]
pub struct ExIntervalUnit(arrow::datatypes::IntervalUnit);

/// `arrow::datatypes::UnionMode`.
#[verifier::external_type_specification]
pub struct ExUnionMode(arrow::datatypes::UnionMode);

/// `arrow::datatypes::Field`.
#[verifier::external_type_specification]
#[verifier::external_body]
pub struct ExField(arrow::datatypes::Field);

/// `arrow::datatypes::Fields`.
#[verifier::external_type_specification]
#[verifier::external_body]
pub struct ExFields(arrow::datatypes::Fields);

/// `arrow::datatypes::UnionFields`.
#[verifier::external_type_specification]
#[verifier::external_body]
pub struct ExUnionFields(arrow::datatypes::UnionFields);

/// `arrow::datatypes::DataType`.
#[verifier::external_type_specification]
pub struct ExDataType(arrow::datatypes::DataType);

/// The list types with items of any number.
pub enum ListKind {
    /// `List`.
    List,
    /// `ListView`.
    ListView,
    /// `LargeList`.
    LargeList,
    /// `LargeListView`.
    LargeListView,
}

/// What a data type holds.
#[verifier::ext_equal]
pub enum TypeModel {
    /// A type without fields, time zone or key type in it.
    Scalar(DataType),
    /// A timestamp, with its unit and time zone.
    Timestamp(TimeUnit, Option<Seq<char>>),
    /// A list.
    List(ListKind, Box<FieldModel>),
    /// A list of a fixed number of items.
    FixedSizeList(Box<FieldModel>, i32),
    /// A struct.
    Struct(Seq<FieldModel>),
    /// A union, its fields with their type ids.
    Union(Seq<(i8, FieldModel)>, UnionMode),
    /// A dictionary, with its key type and value type.
    Dictionary(Box<TypeModel>, Box<TypeModel>),
    /// A map, with its entries field and whether its keys are sorted.
    Entries(Box<FieldModel>, bool),
    /// Run ends and values.
    RunEndEncoded(Box<FieldModel>, Box<FieldModel>),
}

/// What a field of a data type holds. Dictionary ids and the flag for ordered dictionaries,
/// which Arrow leaves out of comparisons, are not part of it.
#[verifier::ext_equal]
pub struct FieldModel {
    /// Field name.
    pub name: Seq<char>,
    /// Field type.
    pub data_type: TypeModel,
    /// Whether the field may be null.
    pub nullable: bool,
    /// Custom metadata.
    pub metadata: Map<Seq<char>, Seq<char>>,
}

/// What an Arrow field holds.
pub uninterp spec fn field_model(f: Field) -> FieldModel;

/// What a list of Arrow fields holds.
pub uninterp spec fn fields_model(f: Fields) -> Seq<FieldModel>;

/// What the fields of an Arrow union hold, with their type ids.
pub uninterp spec fn union_model(f: UnionFields) -> Seq<(i8, FieldModel)>;

/// What an Arrow data type holds.
pub open spec fn type_model(t: DataType) -> TypeModel
    decreases t,
{
    match t {
        DataType::Timestamp(unit, zone) => TypeModel::Timestamp(unit, zone_text(zone)),
        DataType::List(f) => TypeModel::List(ListKind::List, Box::new(field_model(*f))),
        DataType::ListView(f) => TypeModel::List(ListKind::ListView, Box::new(field_model(*f))),
        DataType::LargeList(f) => TypeModel::List(ListKind::LargeList, Box::new(field_model(*f))),
        DataType::LargeListView(f) => TypeModel::List(
            ListKind::LargeListView,
            Box::new(field_model(*f)),
        ),
        DataType::FixedSizeList(f, n) => TypeModel::FixedSizeList(Box::new(field_model(*f)), n),
        DataType::Struct(fields) => TypeModel::Struct(fields_model(fields)),
        DataType::Union(fields, mode) => TypeModel::Union(union_model(fields), mode),
        DataType::Dictionary(key, value) => TypeModel::Dictionary(
            Box::new(type_model(*key)),
            Box::new(type_model(*value)),
        ),
        DataType::Map(f, sorted) => TypeModel::Entries(Box::new(field_model(*f)), sorted),
        DataType::RunEndEncoded(ends, values) => TypeModel::RunEndEncoded(
            Box::new(field_model(*ends)),
            Box::new(field_model(*values)),
        ),
        other => TypeModel::Scalar(other),
    }
}

/// `arrow::datatypes::Field::name`.
#[verifier::external_body]
pub(crate) fn field_name(f: &Field) -> (r: &str)
    ensures
        r@ == field_model(*f).name,
{
    f.name().as_str()
}

/// `arrow::datatypes::Field::data_type`.
#[verifier::external_body]
pub(crate) fn field_type(f: &Field) -> (r: &DataType)
    ensures
        type_model(*r) == field_model(*f).data_type,
{
    f.data_type()
}

/// `arrow::datatypes::Field::is_nullable`.
#[verifier::external_body]
pub(crate) fn field_nullable(f: &Field) -> (r: bool)
    ensures
        r == field_model(*f).nullable,
{
    f.is_nullable()
}

/// The entries of a map, each once.
pub open spec fn lists(entries: Seq<(&str, &str)>, m: Map<Seq<char>, Seq<char>>) -> bool {
    &&& forall|i: int|
        0 <= i < entries.len() ==> m.dom().contains((#[trigger] entries[i]).0@)
            && m[entries[i].0@] == entries[i].1@
    &&& forall|i: int, j: int|
        0 <= i < j < entries.len() ==> (#[trigger] entries[i]).0@ != (#[trigger] entries[j]).0@
    &&& forall|k: Seq<char>| #[trigger]
        m.dom().contains(k) ==> exists|i: int|
            0 <= i < entries.len() && #[trigger] entries[i].0@ == k
}

/// `arrow::datatypes::Field::metadata`: its entries, each once, in any order.
#[verifier::external_body]
pub(crate) fn field_metadata(f: &Field) -> (r: Vec<(&str, &str)>)
    ensures
        lists(r@, field_model(*f).metadata),
{
    f.metadata().iter().map(|(k, v)| (k.as_str(), v.as_str())).collect()
}

/// `arrow::datatypes::Field::new`: a field without metadata.
#[verifier::external_body]
pub(crate) fn field_new(name: String, data_type: DataType, nullable: bool) -> (r: Field)
    ensures
        field_model(r) == (FieldModel {
            name: name@,
            data_type: type_model(data_type),
            nullable,
            metadata: Map::empty(),
        }),
{
    Field::new(name, data_type, nullable)
}

/// The number of fields in `arrow::datatypes::Fields`.
#[verifier::external_body]
pub(crate) fn fields_len(f: &Fields) -> (r: usize)
    ensures
        r == fields_model(*f).len(),
{
    f.len()
}

/// One of the fields in `arrow::datatypes::Fields`, by its position.
#[verifier::external_body]
pub(crate) fn fields_get(f: &Fields, i: usize) -> (r: &Field)
    requires
        i < fields_model(*f).len(),
    ensures
        field_model(*r) == fields_model(*f)[i as int],
{
    &f[i]
}

/// `arrow::datatypes::Fields` made from a vector of fields.
#[verifier::external_body]
pub(crate) fn fields_from(v: Vec<Field>) -> (r: Fields)
    ensures
        fields_model(r) == Seq::new(v@.len(), |i: int| field_model(v@[i])),
{
    Fields::from(v)
}

/// `arrow::datatypes::UnionFields::len`.
#[verifier::external_body]
pub(crate) fn union_len(f: &UnionFields) -> (r: usize)
    ensures
        r == union_model(*f).len(),
{
    f.len()
}

/// One of the fields in `arrow::datatypes::UnionFields`, by its position.
#[verifier::external_body]
pub(crate) fn union_get(f: &UnionFields, i: usize) -> (r: &Field)
    requires
        i < union_model(*f).len(),
    ensures
        field_model(*r) == union_model(*f)[i as int].1,
{
    &f[i].1
}

/// `Clone` of `arrow::datatypes::DataType`: another type that holds the same.
#[verifier::external_body]
pub(crate) fn type_clone(t: &DataType) -> (r: DataType)
    ensures
        type_model(r) == type_model(*t),
{
    t.clone()
}

/// `==` of `arrow::datatypes::DataType`. Fields compare by name, type, nullability and metadata.
#[verifier::external_body]
fn same_type(a: &DataType, b: &DataType) -> (r: bool)
    ensures
        r == (type_model(*a) == type_model(*b)),
{
    a == b
}

/// What `Debug` of `arrow::datatypes::DataType` writes for a type without fields.
pub uninterp spec fn type_debug_text(m: TypeModel) -> Seq<char>;

/// `Debug` of `arrow::datatypes::DataType`. Of a type with fields nothing is said: the text shows
/// their dictionary ids, and their metadata in the order of a hash map.
#[verifier::external_body]
pub(crate) fn type_debug(t: &DataType) -> (r: String)
    ensures
        type_model(*t) is Scalar || type_model(*t) is Timestamp ==> r@ == type_debug_text(
            type_model(*t),
        ),
{
    format!("{:?}", t)
}

/// A type that is stored and read back as it is: without a dictionary, with units that its width
/// of time can have, no empty time zone, type ids that a union can have, and fields at most
/// `depth` deep.
pub open spec fn faithful(m: TypeModel, depth: nat) -> bool
    decreases m,
{
    match m {
        TypeModel::Scalar(DataType::Time32(unit)) => unit is Second || unit is Millisecond,
        TypeModel::Scalar(DataType::Time64(unit)) => unit is Microsecond || unit is Nanosecond,
        TypeModel::Scalar(_) => true,
        TypeModel::Timestamp(_, zone) => zone is Some ==> zone->0.len() > 0,
        TypeModel::List(_, f) => depth > 0 && faithful(f.data_type, (depth - 1) as nat),
        TypeModel::FixedSizeList(f, _) => depth > 0 && faithful(f.data_type, (depth - 1) as nat),
        TypeModel::Struct(fields) => forall|i: int|
            0 <= i < fields.len() ==> depth > 0 && faithful(
                (#[trigger] fields[i]).data_type,
                (depth - 1) as nat,
            ),
        TypeModel::Union(fields, _) => {
            &&& forall|i: int|
                0 <= i < fields.len() ==> depth > 0 && faithful(
                    (#[trigger] fields[i]).1.data_type,
                    (depth - 1) as nat,
                )
            &&& forall|i: int| 0 <= i < fields.len() ==> (#[trigger] fields[i]).0 >= 0
            &&& forall|i: int, j: int|
                0 <= i < j < fields.len() ==> (#[trigger] fields[i]).0 != (#[trigger] fields[j]).0
        },
        TypeModel::Dictionary(_, _) => false,
        TypeModel::Entries(f, _) => depth > 0 && faithful(f.data_type, (depth - 1) as nat),
        TypeModel::RunEndEncoded(ends, values) => depth > 0 && faithful(
            ends.data_type,
            (depth - 1) as nat,
        ) && faithful(values.data_type, (depth - 1) as nat),
    }
}

/// The field that a type is stored as.
pub open spec fn stored_field(m: TypeModel) -> FieldModel {
    FieldModel { name: "_"@, data_type: m, nullable: true, metadata: Map::empty() }
}

/// A type that can be stored.
pub open spec fn storable(m: TypeModel) -> bool {
    encodable(stored_field(m))
}

fn to_stored_field(data_type: &DataType) -> (r: Field)
    ensures
        field_model(r) == stored_field(type_model(*data_type)),
{
    field_new(String::from_str("_"), type_clone(data_type), true)
}

/// Whether [`encode_data_type`] can store a type: Arrow's encoder panics on a dictionary, and
/// where an encoding goes beyond 2 GiB.
pub fn is_encodable(data_type: &DataType) -> (r: bool)
    ensures
        r == storable(type_model(*data_type)),
{
    let field = to_stored_field(data_type);
    spend_field(&field, MAX_ROOM).is_some()
}

/// What `arrow_ipc` writes for a schema of one field.
pub uninterp spec fn ipc_bytes(f: FieldModel) -> Seq<u8>;

/// How a type is stored.
pub open spec fn stored_bytes(m: TypeModel) -> Seq<u8> {
    ipc_bytes(stored_field(m))
}

/// What comes of reading a stored type.
#[verifier::ext_equal]
pub enum DecodeOutcome {
    /// A type.
    Type(TypeModel),
    /// A refusal.
    Refused(Refusal),
    /// Arrow panics on the schema that the bytes hold.
    Panics,
}

/// What comes of reading a stored type: the bytes hold an Arrow schema with that one field.
pub open spec fn decoded(bytes: Seq<u8>) -> DecodeOutcome {
    if ipc_schema(bytes) is Err {
        DecodeOutcome::Refused(
            Refusal::Exact(
                ErrorView::Arrow(
                    "Ipc error: Invalid FlatBuffer schema: "@ + ipc_schema(bytes)->Err_0,
                ),
            ),
        )
    } else if ipc_panics(bytes) {
        DecodeOutcome::Panics
    } else if ipc_types(bytes).len() == 0 {
        DecodeOutcome::Refused(
            Refusal::Exact(
                ErrorView::InvalidArgument("Invalid encoded DataType: schema has no fields"@),
            ),
        )
    } else if ipc_types(bytes).len() == 1 {
        DecodeOutcome::Type(ipc_types(bytes)[0])
    } else {
        DecodeOutcome::Refused(
            Refusal::Exact(
                ErrorView::InvalidArgument(
                    "Invalid encoded DataType: expected 1 field, found "@ + decimal_text(
                        ipc_types(bytes).len(),
                    ),
                ),
            ),
        )
    }
}

/// A field whose type is read back from its encoding: faithful, within the levels, the number of
/// tables and the bytes that the reader takes.
pub open spec fn readable(f: FieldModel) -> bool {
    &&& field_room(f) matches Some(n) && n <= 2_000_000_000
    &&& faithful(f.data_type, 61)
    &&& field_tables(f) <= 999_999
}

/// `arrow_ipc::convert::IpcSchemaEncoder::schema_to_fb` on a schema of one field, and the bytes
/// that it makes. It panics on a dictionary, and where an encoding goes beyond 2 GiB: on a text of
/// that length, or where its signed offsets overflow. The bytes are left to the name. `arrow_ipc`
/// reads the same type back from them if the type is faithful and within what the reader takes: 64
/// levels of tables, of which the schema, the field and the type below the deepest field are
/// three; a million tables, one of them the schema; and 2 GiB, to which each table adds under 100
/// bytes over what it takes.
#[verifier::external_body]
fn write_schema(field: Field) -> (r: Vec<u8>)
    requires
        encodable(field_model(field)),
    ensures
        r@ == ipc_bytes(field_model(field)),
        readable(field_model(field)) ==> decoded(r@) == DecodeOutcome::Type(
            field_model(field).data_type,
        ),
{
    let schema = arrow::datatypes::Schema::new(vec![field]);
    let fbb = arrow_ipc::convert::IpcSchemaEncoder::new().schema_to_fb(&schema);
    fbb.finished_data().to_vec()
}

/// Encodes an Arrow [`DataType`] into bytes using Arrow IPC schema encoding.
/// [`decode_data_type`] reads the same type back from them.
pub fn encode_data_type(data_type: &DataType) -> (r: Result<Vec<u8>>)
    requires
        storable(type_model(*data_type)),
    ensures
        r is Ok,
        r->Ok_0@ == stored_bytes(type_model(*data_type)),
        type_reads_back(type_model(*data_type)),
{
    Ok(write_schema(to_stored_field(data_type)))
}

/// A type that loses nothing in its encoding is read back from it.
pub open spec fn type_reads_back(m: TypeModel) -> bool {
    readable(stored_field(m)) ==> decoded(stored_bytes(m)) == DecodeOutcome::Type(m)
}

/// Decodes an Arrow [`DataType`] from bytes created by [`encode_data_type`].
pub fn decode_data_type(bytes: &[u8]) -> (r: Result<DataType>)
    requires
        !ipc_panics(bytes@),
    ensures
        match r {
            Ok(t) => decoded(bytes@) == DecodeOutcome::Type(type_model(t)),
            Err(e) => decoded(bytes@) is Refused && tells(e, decoded(bytes@)->Refused_0),
        },
{
    match open_schema(bytes) {
        Err(reason) => {
            let text = joined("Ipc error: Invalid FlatBuffer schema: ", reason.as_str());
            assert(text@ == "Ipc error: Invalid FlatBuffer schema: "@ + reason@);
            Err(CatalogError::Arrow(text))
        },
        Ok(_) => {
            let mut types = read_types(bytes);
            if types.len() == 0 {
                Err(
                    CatalogError::InvalidArgument(
                        String::from_str("Invalid encoded DataType: schema has no fields"),
                    ),
                )
            } else if types.len() == 1 {
                Ok(types.remove(0))
            } else {
                Err(
                    CatalogError::InvalidArgument(
                        joined(
                            "Invalid encoded DataType: expected 1 field, found ",
                            decimal(types.len() as u64).as_str(),
                        ),
                    ),
                )
            }
        },
    }
}

/// Decodes an Arrow [`DataType`] from bytes; nothing where Arrow panics on them.
pub fn decode_data_type_checked(bytes: &[u8]) -> (r: Option<Result<DataType>>)
    ensures
        match r {
            Some(Ok(t)) => decoded(bytes@) == DecodeOutcome::Type(type_model(t)),
            Some(Err(e)) => decoded(bytes@) is Refused && tells(e, decoded(bytes@)->Refused_0),
            None => decoded(bytes@) is Panics,
        },
{
    if is_readable(bytes) {
        Some(decode_data_type(bytes))
    } else {
        None
    }
}

/// The unit of a time, from the coarsest to the finest.
pub open spec fn unit_rank(unit: TimeUnit) -> int {
    match unit {
        TimeUnit::Second => 0,
        TimeUnit::Millisecond => 1,
        TimeUnit::Microsecond => 2,
        TimeUnit::Nanosecond => 3,
    }
}

/// Types of which one can be a wider form of the other.
pub enum Family {
    /// Signed integers.
    Signed,
    /// Unsigned integers.
    Unsigned,
    /// Floats of 32 and 64 bits.
    Float,
    /// Dates.
    Date,
    /// Decimals of 128 bits of one scale.
    Decimal128(i8),
    /// Decimals of 256 bits of one scale.
    Decimal256(i8),
}

/// The family of a type and its width there: bits of a number or a date, digits of a decimal.
pub open spec fn family(t: DataType) -> Option<(Family, int)> {
    match t {
        DataType::Int8 => Some((Family::Signed, 8)),
        DataType::Int16 => Some((Family::Signed, 16)),
        DataType::Int32 => Some((Family::Signed, 32)),
        DataType::Int64 => Some((Family::Signed, 64)),
        DataType::UInt8 => Some((Family::Unsigned, 8)),
        DataType::UInt16 => Some((Family::Unsigned, 16)),
        DataType::UInt32 => Some((Family::Unsigned, 32)),
        DataType::UInt64 => Some((Family::Unsigned, 64)),
        DataType::Float32 => Some((Family::Float, 32)),
        DataType::Float64 => Some((Family::Float, 64)),
        DataType::Date32 => Some((Family::Date, 32)),
        DataType::Date64 => Some((Family::Date, 64)),
        DataType::Decimal128(precision, scale) => Some(
            (Family::Decimal128(scale), precision as int),
        ),
        DataType::Decimal256(precision, scale) => Some(
            (Family::Decimal256(scale), precision as int),
        ),
        _ => None,
    }
}

/// `to` is a wider type than `from`, in the same family.
pub open spec fn widens(from: DataType, to: DataType) -> bool {
    match (family(from), family(to)) {
        (Some((f, n)), Some((g, m))) => f == g && n < m,
        _ => false,
    }
}

/// Data of the type `from` can be read as the type `to`: the same type, a wider one, or a
/// timestamp of a finer unit in the same time zone.
pub open spec fn evolves(from: TypeModel, to: TypeModel) -> bool {
    ||| from == to
    ||| match (from, to) {
        (TypeModel::Scalar(f), TypeModel::Scalar(t)) => widens(f, t),
        (TypeModel::Timestamp(f, fz), TypeModel::Timestamp(t, tz)) => fz == tz && unit_rank(f)
            < unit_rank(t),
        _ => false,
    }
}

/// `!=` of std on two optional time zones.
#[verifier::external_body]
fn zones_differ(a: &Option<std::sync::Arc<str>>, b: &Option<std::sync::Arc<str>>) -> (r: bool)
    ensures
        r == (zone_text(*a) != zone_text(*b)),
{
    a != b
}

/// The text of an optional time zone.
pub open spec fn zone_text(zone: Option<std::sync::Arc<str>>) -> Option<Seq<char>> {
    match zone {
        Some(z) => Some((*z)@),
        None => None,
    }
}

/// Whether data of one type can safely be read as another: widening a number, a date or a
/// decimal of the same scale, or refining the unit of a timestamp in the same time zone.
pub fn can_evolve_to(from_type: &DataType, to_type: &DataType) -> (r: bool)
    ensures
        r == evolves(type_model(*from_type), type_model(*to_type)),
{
    if same_type(from_type, to_type) {
        return true;
    }
    match (from_type, to_type) {
        (DataType::Int8, DataType::Int16 | DataType::Int32 | DataType::Int64) => true,
        (DataType::Int16, DataType::Int32 | DataType::Int64) => true,
        (DataType::Int32, DataType::Int64) => true,
        (DataType::UInt8, DataType::UInt16 | DataType::UInt32 | DataType::UInt64) => true,
        (DataType::UInt16, DataType::UInt32 | DataType::UInt64) => true,
        (DataType::UInt32, DataType::UInt64) => true,
        (DataType::Float32, DataType::Float64) => true,
        (DataType::Date32, DataType::Date64) => true,
        (DataType::Timestamp(from_unit, from_tz), DataType::Timestamp(to_unit, to_tz)) => {
            if zones_differ(from_tz, to_tz) {
                return false;
            }
            match (from_unit, to_unit) {
                (
                    TimeUnit::Second,
                    TimeUnit::Millisecond | TimeUnit::Microsecond | TimeUnit::Nanosecond,
                ) => true,
                (TimeUnit::Millisecond, TimeUnit::Microsecond | TimeUnit::Nanosecond) => true,
                (TimeUnit::Microsecond, TimeUnit::Nanosecond) => true,
                _ => false,
            }
        },
        (
            DataType::Decimal128(from_precision, from_scale),
            DataType::Decimal128(to_precision, to_scale),
        ) => *from_scale == *to_scale && *to_precision > *from_precision,
        (
            DataType::Decimal256(from_precision, from_scale),
            DataType::Decimal256(to_precision, to_scale),
        ) => *from_scale == *to_scale && *to_precision > *from_precision,
        _ => false,
    }
}

/// A type evolves to itself.
pub proof fn evolution_is_reflexive(t: TypeModel)
    ensures
        evolves(t, t),
{
}

/// Two evolutions make one.
pub proof fn evolution_is_transitive(a: TypeModel, b: TypeModel, c: TypeModel)
    requires
        evolves(a, b),
        evolves(b, c),
    ensures
        evolves(a, c),
{
}

/// No evolution can be taken back by another.
pub proof fn evolution_is_antisymmetric(a: TypeModel, b: TypeModel)
    requires
        evolves(a, b),
        evolves(b, a),
    ensures
        a == b,
{
}

/// A type with fields never evolves to another one.
pub proof fn nested_types_do_not_evolve(a: TypeModel, b: TypeModel)
    requires
        evolves(a, b),
        !(a is Scalar) && !(a is Timestamp),
    ensures
        a == b,
{
}

} // verus!
