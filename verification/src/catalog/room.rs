//! How much room the encoding of a data type takes.

use vstd::prelude::*;
use vstd::set::fold::{is_fun_commutative, lemma_fold_empty, lemma_fold_insert};
use vstd::utf8::encode_utf8;

use arrow::datatypes::{
    DataType, Field, Fields, IntervalUnit, TimeUnit, UnionFields, UnionMode,
};

use super::data_type::{
    field_metadata, field_model, field_name, field_type, fields_get, fields_len, fields_model,
    lists, type_model, union_get, union_len, union_model, FieldModel, ListKind, TypeModel,
};

verus! {

/// The most room that a field may take in an encoding. A flatbuffer ends at 2 GiB, and what comes
/// on top of the room, which is the root and one layout for each shape of table, is under 4 KiB.
pub const MAX_ROOM: u64 = 2_147_479_552;

/// Bytes of a field besides its name, its metadata and its type: the table with five slots, the
/// length of the list of fields below it, and its own place in the list above it.
pub const FIELD_ROOM: u64 = 28;

/// Bytes of metadata besides its entries: the length of their list, and its slot in the field.
pub const METADATA_ROOM: u64 = 8;

/// Bytes of an entry of metadata besides its texts: the table with two slots and its place in the
/// list of entries.
pub const ENTRY_ROOM: u64 = 16;

/// The sum of two sizes, if both are known.
pub open spec fn together(a: Option<nat>, b: Option<nat>) -> Option<nat> {
    match (a, b) {
        (Some(x), Some(y)) => Some(x + y),
        _ => None,
    }
}

/// The room that a text takes: its length, its bytes and a zero, up to a multiple of four.
pub open spec fn text_room(s: Seq<char>) -> nat {
    encode_utf8(s).len() / 4 * 4 + 8
}

/// The room that an entry of a field's metadata takes.
pub open spec fn entry_room(key: Seq<char>, value: Seq<char>) -> nat {
    text_room(key) + text_room(value) + ENTRY_ROOM as nat
}

/// Adds the room that the entry of a key takes.
pub open spec fn entry_adder(m: Map<Seq<char>, Seq<char>>) -> spec_fn(nat, Seq<char>) -> nat {
    |sum: nat, key: Seq<char>| sum + entry_room(key, m[key])
}

/// The room that a field's metadata takes: none where there is no entry.
pub open spec fn metadata_room(m: Map<Seq<char>, Seq<char>>) -> nat {
    if m.dom() == Set::<Seq<char>>::empty() {
        0
    } else {
        m.dom().fold(METADATA_ROOM as nat, entry_adder(m))
    }
}

/// The room that a field takes, with the type in it.
pub open spec fn field_room(f: FieldModel) -> Option<nat>
    decreases f,
{
    together(
        Some(text_room(f.name) + metadata_room(f.metadata) + FIELD_ROOM as nat),
        room(f.data_type),
    )
}

/// The room that fields take.
pub open spec fn fields_room(fields: Seq<FieldModel>) -> Option<nat>
    decreases fields,
{
    if fields.len() == 0 {
        Some(0)
    } else {
        together(fields_room(fields.drop_last()), field_room(fields[fields.len() - 1]))
    }
}

/// The room that the fields of a union take, each with its type id.
pub open spec fn variants_room(fields: Seq<(i8, FieldModel)>) -> Option<nat>
    decreases fields,
{
    if fields.len() == 0 {
        Some(0)
    } else {
        together(
            together(variants_room(fields.drop_last()), Some(4)),
            field_room(fields[fields.len() - 1].1),
        )
    }
}

/// Four bytes for a slot that is there.
pub open spec fn slot(there: bool) -> nat {
    if there {
        4
    } else {
        0
    }
}

/// The room that a type without fields takes: a table, with slots for what differs from the
/// defaults of the format.
pub open spec fn scalar_room(t: DataType) -> nat {
    match t {
        DataType::Int8 | DataType::Int16 | DataType::Int32 | DataType::Int64 => 12,
        DataType::UInt8 | DataType::UInt16 | DataType::UInt32 | DataType::UInt64 => 8,
        DataType::Float32 | DataType::Float64 | DataType::Date32 => 8,
        DataType::FixedSizeBinary(n) => 4 + slot(n != 0),
        DataType::Time32(unit) | DataType::Time64(unit) => match unit {
            TimeUnit::Second => 8,
            TimeUnit::Millisecond => 4,
            _ => 12,
        },
        DataType::Interval(unit) => 4 + slot(!(unit is YearMonth)),
        DataType::Duration(unit) => 4 + slot(!(unit is Millisecond)),
        DataType::Decimal32(precision, scale) => 8 + slot(precision != 0) + slot(scale != 0),
        DataType::Decimal64(precision, scale) => 8 + slot(precision != 0) + slot(scale != 0),
        DataType::Decimal128(precision, scale) => 4 + slot(precision != 0) + slot(scale != 0),
        DataType::Decimal256(precision, scale) => 8 + slot(precision != 0) + slot(scale != 0),
        _ => 4,
    }
}

/// The room that a timestamp takes. A time zone is written even where it is empty or missing.
pub open spec fn timestamp_room(unit: TimeUnit, zone: Option<Seq<char>>) -> nat {
    match zone {
        Some(zone) => 4 + slot(!(unit is Second)) + slot(zone.len() > 0) + text_room(zone),
        None => 12 + slot(!(unit is Second)),
    }
}

/// The room that a type takes in an encoding, besides one layout for each shape of table; nothing
/// where there is a dictionary in it, which has no encoding.
pub open spec fn room(m: TypeModel) -> Option<nat>
    decreases m,
{
    match m {
        TypeModel::Scalar(t) => Some(scalar_room(t)),
        TypeModel::Timestamp(unit, zone) => Some(timestamp_room(unit, zone)),
        TypeModel::List(_, f) => together(Some(4), field_room(*f)),
        TypeModel::FixedSizeList(f, n) => together(Some(4 + slot(n != 0)), field_room(*f)),
        TypeModel::Struct(fields) => together(Some(4), fields_room(fields)),
        TypeModel::Union(fields, mode) => together(
            Some(12 + slot(mode is Dense)),
            variants_room(fields),
        ),
        TypeModel::Dictionary(_, _) => None,
        TypeModel::Entries(f, sorted) => together(Some(4 + slot(sorted)), field_room(*f)),
        TypeModel::RunEndEncoded(ends, values) => together(
            together(Some(4), field_room(*ends)),
            field_room(*values),
        ),
    }
}

/// A field that can be encoded: no dictionary is in it, and its encoding ends before 2 GiB.
pub open spec fn encodable(f: FieldModel) -> bool {
    field_room(f) matches Some(n) && n <= MAX_ROOM
}

/// The tables in the encoding of a field: itself, its type, one for each entry of its metadata,
/// and what is below.
pub open spec fn field_tables(f: FieldModel) -> nat
    decreases f,
{
    2 + f.metadata.dom().len() + tables(f.data_type)
}

/// The tables in the encoding of fields.
pub open spec fn fields_tables(fields: Seq<FieldModel>) -> nat
    decreases fields,
{
    if fields.len() == 0 {
        0
    } else {
        fields_tables(fields.drop_last()) + field_tables(fields[fields.len() - 1])
    }
}

/// The tables in the encoding of the fields of a union.
pub open spec fn variants_tables(fields: Seq<(i8, FieldModel)>) -> nat
    decreases fields,
{
    if fields.len() == 0 {
        0
    } else {
        variants_tables(fields.drop_last()) + field_tables(fields[fields.len() - 1].1)
    }
}

/// The tables below a type in its encoding.
pub open spec fn tables(m: TypeModel) -> nat
    decreases m,
{
    match m {
        TypeModel::Scalar(_) => 0,
        TypeModel::Timestamp(_, _) => 0,
        TypeModel::List(_, f) => field_tables(*f),
        TypeModel::FixedSizeList(f, _) => field_tables(*f),
        TypeModel::Struct(fields) => fields_tables(fields),
        TypeModel::Union(fields, _) => variants_tables(fields),
        TypeModel::Dictionary(_, _) => 0,
        TypeModel::Entries(f, _) => field_tables(*f),
        TypeModel::RunEndEncoded(ends, values) => field_tables(*ends) + field_tables(*values),
    }
}

/// Of `left` bytes, `rest` are left once `need` are taken; nothing where they do not suffice.
pub open spec fn leaves(need: Option<nat>, left: u64, rest: Option<u64>) -> bool {
    match rest {
        Some(n) => n <= left && need == Some((left - n) as nat),
        None => need is None || need->0 > left,
    }
}

fn spend(amount: usize, left: u64) -> (r: Option<u64>)
    ensures
        leaves(Some(amount as nat), left, r),
{
    if amount as u64 <= left {
        Some(left - amount as u64)
    } else {
        None
    }
}

fn spend_text(s: &str, left: u64) -> (r: Option<u64>)
    ensures
        leaves(Some(text_room(s@)), left, r),
{
    match spend(s.as_bytes().len() / 4 * 4, left) {
        Some(left) => spend(8, left),
        None => None,
    }
}

fn spend_metadata(f: &Field, left: u64) -> (r: Option<u64>)
    ensures
        leaves(Some(metadata_room(field_model(*f).metadata)), left, r),
{
    let ghost m = field_model(*f).metadata;
    let ghost adder = entry_adder(m);
    let entries = field_metadata(f);
    if entries.len() == 0 {
        assert(m.dom() =~= Set::<Seq<char>>::empty());
        return Some(left);
    }
    assert(m.dom().contains(entries@[0].0@));
    let mut rest: Option<u64> = spend(METADATA_ROOM as usize, left);
    let ghost mut seen: Set<Seq<char>> = Set::empty();
    proof {
        lemma_fold_empty::<Seq<char>, nat>(METADATA_ROOM as nat, adder);
    }
    for i in 0..entries.len()
        invariant
            lists(entries@, m),
            adder == entry_adder(m),
            seen.finite(),
            forall|k: Seq<char>| #[trigger]
                seen.contains(k) <==> exists|j: int| 0 <= j < i && #[trigger] entries@[j].0@ == k,
            leaves(Some(seen.fold(METADATA_ROOM as nat, adder)), left, rest),
    {
        let (key, value) = entries[i];
        rest = match rest {
            Some(n) => match spend_text(key, n) {
                Some(n) => match spend_text(value, n) {
                    Some(n) => spend(ENTRY_ROOM as usize, n),
                    None => None,
                },
                None => None,
            },
            None => None,
        };
        proof {
            assert(is_fun_commutative(adder));
            assert(!seen.contains(key@));
            lemma_fold_insert(seen, METADATA_ROOM as nat, adder, key@);
            let sum = seen.fold(METADATA_ROOM as nat, adder);
            assert(adder(sum, key@) == sum + entry_room(key@, value@));
            seen = seen.insert(key@);
            assert(entries@[i as int].0@ == key@);
        }
    }
    assert(seen =~= m.dom());
    rest
}

/// What is left of `left` bytes once a field has been encoded in them; nothing where they do not
/// suffice, or where a dictionary is in the field.
pub fn spend_field(f: &Field, left: u64) -> (r: Option<u64>)
    ensures
        leaves(field_room(field_model(*f)), left, r),
    decreases field_model(*f), 3nat,
{
    assert(decreases_to!(field_model(*f) => field_model(*f).data_type));
    match spend_text(field_name(f), left) {
        Some(left) => match spend_metadata(f, left) {
            Some(left) => match spend(FIELD_ROOM as usize, left) {
                Some(left) => spend_type(field_type(f), left),
                None => None,
            },
            None => None,
        },
        None => None,
    }
}

fn spend_fields(fields: &Fields, left: u64) -> (r: Option<u64>)
    ensures
        leaves(fields_room(fields_model(*fields)), left, r),
    decreases TypeModel::Struct(fields_model(*fields)), 0nat,
{
    let ghost m = fields_model(*fields);
    let ghost whole = TypeModel::Struct(m);
    let n: usize = fields_len(fields);
    let mut rest: Option<u64> = Some(left);
    for i in 0..n
        invariant
            m == fields_model(*fields),
            n == m.len(),
            whole == TypeModel::Struct(m),
            leaves(fields_room(m.take(i as int)), left, rest),
    {
        let f = fields_get(fields, i);
        assert(decreases_to!(whole => whole->Struct_0));
        assert(decreases_to!(m => m[i as int]));
        assert(m.take(i + 1).drop_last() =~= m.take(i as int));
        rest = match rest {
            Some(left) => spend_field(f, left),
            None => None,
        };
    }
    assert(m.take(n as int) =~= m);
    rest
}

fn spend_variants(fields: &UnionFields, left: u64, Ghost(mode): Ghost<UnionMode>) -> (r: Option<
    u64,
>)
    ensures
        leaves(variants_room(union_model(*fields)), left, r),
    decreases TypeModel::Union(union_model(*fields), mode), 0nat,
{
    let ghost m = union_model(*fields);
    let ghost whole = TypeModel::Union(m, mode);
    let n: usize = union_len(fields);
    let mut rest: Option<u64> = Some(left);
    for i in 0..n
        invariant
            m == union_model(*fields),
            n == m.len(),
            whole == TypeModel::Union(m, mode),
            leaves(variants_room(m.take(i as int)), left, rest),
    {
        let f = union_get(fields, i);
        assert(decreases_to!(whole => whole->Union_0));
        assert(decreases_to!(m => m[i as int]));
        assert(decreases_to!(m[i as int] => m[i as int].1));
        assert(m.take(i + 1).drop_last() =~= m.take(i as int));
        rest = match rest {
            Some(left) => match spend(4, left) {
                Some(left) => spend_field(f, left),
                None => None,
            },
            None => None,
        };
    }
    assert(m.take(n as int) =~= m);
    rest
}

fn slot_size(there: bool) -> (r: usize)
    ensures
        r == slot(there),
{
    if there {
        4
    } else {
        0
    }
}

fn scalar_size(t: &DataType) -> (r: usize)
    ensures
        r == scalar_room(*t),
{
    match t {
        DataType::Int8 | DataType::Int16 | DataType::Int32 | DataType::Int64 => 12,
        DataType::UInt8 | DataType::UInt16 | DataType::UInt32 | DataType::UInt64 => 8,
        DataType::Float32 | DataType::Float64 | DataType::Date32 => 8,
        DataType::FixedSizeBinary(n) => 4 + slot_size(*n != 0),
        DataType::Time32(unit) | DataType::Time64(unit) => match unit {
            TimeUnit::Second => 8,
            TimeUnit::Millisecond => 4,
            _ => 12,
        },
        DataType::Interval(unit) => 4 + slot_size(!matches!(unit, IntervalUnit::YearMonth)),
        DataType::Duration(unit) => 4 + slot_size(!matches!(unit, TimeUnit::Millisecond)),
        DataType::Decimal32(precision, scale) | DataType::Decimal64(precision, scale)
        | DataType::Decimal256(precision, scale) => 8 + slot_size(*precision != 0) + slot_size(
            *scale != 0,
        ),
        DataType::Decimal128(precision, scale) => 4 + slot_size(*precision != 0) + slot_size(
            *scale != 0,
        ),
        _ => 4,
    }
}

fn spend_before(amount: usize, f: &Field, left: u64) -> (r: Option<u64>)
    ensures
        leaves(together(Some(amount as nat), field_room(field_model(*f))), left, r),
    decreases field_model(*f), 4nat,
{
    match spend(amount, left) {
        Some(left) => spend_field(f, left),
        None => None,
    }
}

fn spend_timestamp(unit: &TimeUnit, zone: Option<&str>, left: u64) -> (r: Option<u64>)
    ensures
        leaves(
            Some(
                timestamp_room(
                    *unit,
                    match zone {
                        Some(z) => Some(z@),
                        None => None,
                    },
                ),
            ),
            left,
            r,
        ),
{
    let unit_slot: usize = slot_size(!matches!(unit, TimeUnit::Second));
    match zone {
        Some(z) => match spend(4 + unit_slot + slot_size(!z.is_empty()), left) {
            Some(left) => spend_text(z, left),
            None => None,
        },
        None => spend(12 + unit_slot, left),
    }
}

fn spend_type(data_type: &DataType, left: u64) -> (r: Option<u64>)
    ensures
        leaves(room(type_model(*data_type)), left, r),
    decreases type_model(*data_type), 2nat,
{
    let ghost m = type_model(*data_type);
    match data_type {
        DataType::Timestamp(unit, zone) => spend_timestamp(
            unit,
            match zone {
                Some(z) => Some(&**z),
                None => None,
            },
            left,
        ),
        DataType::List(f) | DataType::ListView(f) | DataType::LargeList(f)
        | DataType::LargeListView(f) => {
            assert(decreases_to!(m => m->List_1));
            spend_before(4, f, left)
        },
        DataType::FixedSizeList(f, n) => {
            assert(decreases_to!(m => m->FixedSizeList_0));
            spend_before(4 + slot_size(*n != 0), f, left)
        },
        DataType::Map(f, sorted) => {
            assert(decreases_to!(m => m->Entries_0));
            spend_before(4 + slot_size(*sorted), f, left)
        },
        DataType::RunEndEncoded(ends, values) => {
            assert(decreases_to!(m => m->RunEndEncoded_0));
            assert(decreases_to!(m => m->RunEndEncoded_1));
            match spend_before(4, ends, left) {
                Some(left) => spend_field(values, left),
                None => None,
            }
        },
        DataType::Struct(fields) => match spend(4, left) {
            Some(left) => spend_fields(fields, left),
            None => None,
        },
        DataType::Union(fields, mode) => match spend(
            12 + slot_size(matches!(mode, UnionMode::Dense)),
            left,
        ) {
            Some(left) => spend_variants(fields, left, Ghost(*mode)),
            None => None,
        },
        DataType::Dictionary(_, _) => None,
        other => spend(scalar_size(other), left),
    }
}

/// A text takes its bytes, its length and an end, filled up to words of 4 bytes.
pub proof fn texts_take_whole_words(s: Seq<char>)
    ensures
        text_room(s) % 4 == 0,
        encode_utf8(s).len() + 5 <= text_room(s) <= encode_utf8(s).len() + 8,
{
}

/// A type takes more room than its parts, by what is its own. Dictionaries have none.
pub proof fn types_take_more_than_their_parts(
    f: FieldModel,
    g: FieldModel,
    kind: ListKind,
    size: i32,
    sorted: bool,
    key: Box<TypeModel>,
    value: Box<TypeModel>,
)
    ensures
        field_room(f) matches Some(n) ==> (room(f.data_type) matches Some(m) && n - m == text_room(
            f.name,
        ) + metadata_room(f.metadata) + 28),
        field_room(f) is None <==> room(f.data_type) is None,
        field_room(f) matches Some(n) ==> {
            &&& room(TypeModel::List(kind, Box::new(f))) matches Some(m) && m - n == 4
            &&& room(TypeModel::FixedSizeList(Box::new(f), size)) matches Some(m) && m - n == (
            if size == 0 {
                4int
            } else {
                8int
            })
            &&& room(TypeModel::Entries(Box::new(f), sorted)) matches Some(m) && m - n == (
            if sorted {
                8int
            } else {
                4int
            })
        },
        field_room(f) is Some && field_room(g) is Some ==> (room(
            TypeModel::RunEndEncoded(Box::new(f), Box::new(g)),
        ) matches Some(m) && m - field_room(f)->0 - field_room(g)->0 == 4),
        room(TypeModel::Dictionary(key, value)) is None,
{
}

/// Types without fields take one slot more for each thing about them that is not as usual: signed
/// integers one more than unsigned ones, and a precision, scale, width or unit where it is not the
/// one that goes without saying.
pub proof fn scalars_take_a_slot_for_each_thing(
    precision: u8,
    scale: i8,
    width: i32,
    unit: TimeUnit,
)
    ensures
        scalar_room(DataType::Int8) - scalar_room(DataType::UInt8) == 4,
        scalar_room(DataType::Int16) - scalar_room(DataType::UInt16) == 4,
        scalar_room(DataType::Int32) - scalar_room(DataType::UInt32) == 4,
        scalar_room(DataType::Int64) - scalar_room(DataType::UInt64) == 4,
        scalar_room(DataType::UInt8) == 8 && scalar_room(DataType::UInt16) == 8,
        scalar_room(DataType::UInt32) == 8 && scalar_room(DataType::UInt64) == 8,
        scalar_room(DataType::Float64) - scalar_room(DataType::Float16) == 4,
        scalar_room(DataType::Float32) == scalar_room(DataType::Float64),
        scalar_room(DataType::Date32) - scalar_room(DataType::Date64) == 4,
        scalar_room(DataType::Null) == 4 && scalar_room(DataType::Boolean) == 4,
        scalar_room(DataType::Utf8) == 4 && scalar_room(DataType::Binary) == 4,
        scalar_room(DataType::FixedSizeBinary(width)) - slot(width != 0) == 4,
        scalar_room(DataType::Decimal128(precision, scale)) - slot(precision != 0) - slot(
            scale != 0,
        ) == 4,
        scalar_room(DataType::Decimal256(precision, scale)) - scalar_room(
            DataType::Decimal128(precision, scale),
        ) == 4,
        scalar_room(DataType::Duration(unit)) - slot(!(unit is Millisecond)) == 4,
        timestamp_room(unit, None) - slot(!(unit is Second)) == 12,
{
}

/// A field can be encoded exactly if it takes room and, with 4 KiB on top, stays within 2 GiB.
pub proof fn encodings_stay_within_two_gibibytes(f: FieldModel)
    ensures
        encodable(f) <==> field_room(f) is Some && field_room(f)->0 + 4 * 1024 <= 2 * 1024 * 1024
            * 1024,
{
}

} // verus!
