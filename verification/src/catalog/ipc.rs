//! Stored data types: the Arrow IPC schema that a byte string holds, and whether it can be read.

use vstd::prelude::*;

use arrow::datatypes::DataType;

use super::data_type::{type_model, TypeModel};

verus! {

/// `arrow_ipc::Field`, a field in a stored schema.
#[verifier::external_type_specification]
#[verifier::external_body]
pub struct ExIpcField<'a>(arrow_ipc::Field<'a>);

/// What a field of a stored schema says of its type. A table that the field may hold for a kind
/// of type is `None` where it is missing; numbers stand for the names of the format.
#[verifier::ext_equal]
pub struct IpcNode {
    /// The kind of type.
    pub kind: u8,
    /// The dictionary encoding, with the bit width and signedness of its index type.
    pub index: Option<Option<(i32, bool)>>,
    /// Bit width and signedness of an integer.
    pub integer: Option<(i32, bool)>,
    /// Precision of a float.
    pub float: Option<i16>,
    /// Bit width, precision and scale of a decimal.
    pub decimal: Option<(i32, i32, i32)>,
    /// Unit of a date.
    pub date: Option<i16>,
    /// Bit width and unit of a time.
    pub time: Option<(i32, i16)>,
    /// Unit of a timestamp.
    pub timestamp: Option<i16>,
    /// Unit of an interval.
    pub interval: Option<i16>,
    /// Unit of a duration.
    pub duration: Option<i16>,
    /// Width of a binary of fixed size.
    pub byte_width: Option<i32>,
    /// Size of a list of fixed size.
    pub list_size: Option<i32>,
    /// Whether the keys of a map are sorted.
    pub keys_sorted: Option<bool>,
    /// Mode of a union.
    pub union_mode: Option<i16>,
    /// Type ids of a union.
    pub union_ids: Option<Seq<i32>>,
    /// The fields below.
    pub children: Option<Seq<IpcNode>>,
}

/// A stored schema.
#[verifier::ext_equal]
pub struct IpcSchema {
    /// Whether it is marked as big-endian.
    pub big_endian: bool,
    /// Its fields.
    pub fields: Option<Seq<IpcNode>>,
}

/// What a field of a stored schema says of its type.
pub uninterp spec fn ipc_node(f: arrow_ipc::Field) -> IpcNode;

/// The schema that `arrow_ipc::root_as_schema` finds in a byte string, or the text of its error.
pub uninterp spec fn ipc_schema(bytes: Seq<u8>) -> Result<IpcSchema, Seq<char>>;

/// The types of the fields that `arrow_ipc::convert::fb_to_schema` reads from the schema in a
/// byte string.
pub uninterp spec fn ipc_types(bytes: Seq<u8>) -> Seq<TypeModel>;

/// The nodes of a list of fields.
pub open spec fn ipc_nodes(fields: Seq<arrow_ipc::Field>) -> Seq<IpcNode> {
    Seq::new(fields.len(), |i: int| ipc_node(fields[i]))
}

/// `arrow_ipc::root_as_schema`, which checks the bytes, with the endianness and the fields of
/// the schema; the text of its error where it finds none.
#[verifier::external_body]
pub(crate) fn open_schema<'a>(bytes: &'a [u8]) -> (r: Result<
    (bool, Option<Vec<arrow_ipc::Field<'a>>>),
    String,
>)
    ensures
        match r {
            Ok((big_endian, fields)) => ipc_schema(bytes@) is Ok && ipc_schema(bytes@)->Ok_0 == (
            IpcSchema {
                big_endian,
                fields: match fields {
                    Some(v) => Some(ipc_nodes(v@)),
                    None => None,
                },
            }),
            Err(text) => ipc_schema(bytes@) is Err && ipc_schema(bytes@)->Err_0 == text@,
        },
{
    let schema = arrow_ipc::root_as_schema(bytes).map_err(|e| e.to_string())?;
    let fields = schema.fields().map(|f| f.iter().collect());
    Ok((schema.endianness() == arrow_ipc::Endianness::Big, fields))
}

/// `arrow_ipc::Field::type_type`, `dictionary` and `type_as_int`.
#[verifier::external_body]
fn node_integers(f: &arrow_ipc::Field) -> (r: (
    u8,
    Option<Option<(i32, bool)>>,
    Option<(i32, bool)>,
))
    ensures
        r.0 == ipc_node(*f).kind,
        r.1 == ipc_node(*f).index,
        r.2 == ipc_node(*f).integer,
{
    let width = |i: arrow_ipc::Int| (i.bitWidth(), i.is_signed());
    let index = f.dictionary().map(|d| d.indexType().map(width));
    (f.type_type().0, index, f.type_as_int().map(width))
}

/// `arrow_ipc::Field::type_as_floating_point` and `type_as_decimal`.
#[verifier::external_body]
fn node_numbers(f: &arrow_ipc::Field) -> (r: (Option<i16>, Option<(i32, i32, i32)>))
    ensures
        r.0 == ipc_node(*f).float,
        r.1 == ipc_node(*f).decimal,
{
    let float = f.type_as_floating_point().map(|x| x.precision().0);
    (float, f.type_as_decimal().map(|d| (d.bitWidth(), d.precision(), d.scale())))
}

/// `arrow_ipc::Field::type_as_date`, `type_as_time` and `type_as_timestamp`.
#[verifier::external_body]
fn node_times(f: &arrow_ipc::Field) -> (r: (Option<i16>, Option<(i32, i16)>, Option<i16>))
    ensures
        r.0 == ipc_node(*f).date,
        r.1 == ipc_node(*f).time,
        r.2 == ipc_node(*f).timestamp,
{
    let date = f.type_as_date().map(|d| d.unit().0);
    let time = f.type_as_time().map(|t| (t.bitWidth(), t.unit().0));
    (date, time, f.type_as_timestamp().map(|t| t.unit().0))
}

/// `arrow_ipc::Field::type_as_interval` and `type_as_duration`.
#[verifier::external_body]
fn node_spans(f: &arrow_ipc::Field) -> (r: (Option<i16>, Option<i16>))
    ensures
        r.0 == ipc_node(*f).interval,
        r.1 == ipc_node(*f).duration,
{
    (f.type_as_interval().map(|i| i.unit().0), f.type_as_duration().map(|d| d.unit().0))
}

/// `arrow_ipc::Field::type_as_fixed_size_binary`, `type_as_fixed_size_list` and `type_as_map`.
#[verifier::external_body]
fn node_sizes(f: &arrow_ipc::Field) -> (r: (Option<i32>, Option<i32>, Option<bool>))
    ensures
        r.0 == ipc_node(*f).byte_width,
        r.1 == ipc_node(*f).list_size,
        r.2 == ipc_node(*f).keys_sorted,
{
    let byte_width = f.type_as_fixed_size_binary().map(|b| b.byteWidth());
    let list_size = f.type_as_fixed_size_list().map(|l| l.listSize());
    (byte_width, list_size, f.type_as_map().map(|m| m.keysSorted()))
}

/// `arrow_ipc::Field::type_as_union`, with its mode and type ids.
#[verifier::external_body]
fn node_union(f: &arrow_ipc::Field) -> (r: (Option<i16>, Option<Vec<i32>>))
    ensures
        r.0 == ipc_node(*f).union_mode,
        match r.1 {
            Some(ids) => ipc_node(*f).union_ids == Some(ids@),
            None => ipc_node(*f).union_ids is None,
        },
{
    let ids = f.type_as_union().and_then(|u| u.typeIds()).map(|ids| ids.iter().collect());
    (f.type_as_union().map(|u| u.mode().0), ids)
}

/// `arrow_ipc::Field::children`.
#[verifier::external_body]
fn node_children<'a>(f: &arrow_ipc::Field<'a>) -> (r: Option<Vec<arrow_ipc::Field<'a>>>)
    ensures
        match r {
            Some(v) => ipc_node(*f).children == Some(ipc_nodes(v@)),
            None => ipc_node(*f).children is None,
        },
{
    f.children().map(|c| c.iter().collect())
}

/// `arrow_ipc::convert::fb_to_schema` on what `arrow_ipc::root_as_schema` finds, with the type of
/// each field that it reads. It panics on a schema that is not sound.
#[verifier::external_body]
pub(crate) fn read_types(bytes: &[u8]) -> (r: Vec<DataType>)
    requires
        ipc_schema(bytes@) is Ok,
        schema_sound(ipc_schema(bytes@)->Ok_0),
    ensures
        ipc_types(bytes@) == Seq::new(r@.len(), |i: int| type_model(r@[i])),
        r@.len() == ipc_schema(bytes@)->Ok_0.fields->0.len(),
{
    let schema = arrow_ipc::convert::fb_to_schema(arrow_ipc::root_as_schema(bytes).unwrap());
    schema.fields().iter().map(|f| f.data_type().clone()).collect()
}

/// An integer width that Arrow has.
pub open spec fn int_width(bits: i32) -> bool {
    bits == 8 || bits == 16 || bits == 32 || bits == 64
}

/// Type ids that a union of `n` fields can have: as many, each from 0 to 127, no two alike.
pub open spec fn union_ids_sound(ids: Seq<i32>, n: nat) -> bool {
    &&& ids.len() == n
    &&& forall|i: int| 0 <= i < ids.len() ==> #[trigger] ids[i] as i8 >= 0
    &&& forall|i: int, j: int|
        0 <= i < j < ids.len() ==> #[trigger] ids[i] as i8 != #[trigger] ids[j] as i8
}

/// The index type of a field's dictionary, if it has one, is an integer.
pub open spec fn index_sound(n: IpcNode) -> bool {
    match n.index {
        Some(Some((bits, _))) => int_width(bits),
        Some(None) => false,
        None => true,
    }
}

/// A field of a kind that has no fields below, with what its kind needs.
pub open spec fn scalar_sound(n: IpcNode) -> bool {
    match n.kind {
        // null, binary, text, boolean, and their large and view forms
        1 | 4 | 5 | 6 | 19 | 20 | 23 | 24 => true,
        // integer
        2 => n.integer is Some && int_width((n.integer->0).0),
        // float
        3 => n.float is Some && 0 <= n.float->0 <= 2,
        // decimal
        7 => n.decimal is Some && ((n.decimal->0).0 == 32 || (n.decimal->0).0 == 64 || (
        n.decimal->0).0 == 128 || (n.decimal->0).0 == 256) && 0 <= (n.decimal->0).1 <= 255 && -128
            <= (n.decimal->0).2 <= 127,
        // date
        8 => n.date is Some && 0 <= n.date->0 <= 1,
        // time
        9 => n.time is Some && (((n.time->0).0 == 32 && 0 <= (n.time->0).1 <= 1) || ((n.time->0).0
            == 64 && 2 <= (n.time->0).1 <= 3)),
        // timestamp
        10 => n.timestamp is Some && 0 <= n.timestamp->0 <= 3,
        // interval
        11 => n.interval is Some && 0 <= n.interval->0 <= 2,
        // binary of fixed size
        15 => n.byte_width is Some,
        // duration
        18 => n.duration is Some && 0 <= n.duration->0 <= 3,
        _ => false,
    }
}

/// The number of fields below a field.
pub open spec fn child_count(n: IpcNode) -> nat {
    match n.children {
        Some(children) => children.len(),
        None => 0,
    }
}

/// A field of a kind that has fields below, with what its kind needs but for what is below.
pub open spec fn nesting_sound(n: IpcNode) -> bool {
    match n.kind {
        // list, and its large and view forms
        12 | 21 | 25 | 26 => child_count(n) == 1,
        // struct
        13 => true,
        // union
        14 => n.union_mode is Some && 0 <= n.union_mode->0 <= 1 && match n.union_ids {
            Some(ids) => union_ids_sound(ids, child_count(n)),
            None => child_count(n) <= 128,
        },
        // list of fixed size
        16 => n.list_size is Some && child_count(n) == 1,
        // map
        17 => n.keys_sorted is Some && child_count(n) == 1,
        // run-end encoded
        22 => child_count(n) == 2,
        _ => false,
    }
}

/// A field that Arrow reads without panicking: its kind is known, what its kind needs is there,
/// and so for the fields below where its kind has any.
pub open spec fn node_sound(n: IpcNode) -> bool
    decreases n,
{
    &&& index_sound(n)
    &&& scalar_sound(n) || (nesting_sound(n) && match n.children {
        Some(children) => forall|i: int|
            0 <= i < children.len() ==> node_sound(#[trigger] children[i]),
        None => true,
    })
}

/// A schema that Arrow reads without panicking.
pub open spec fn schema_sound(s: IpcSchema) -> bool {
    &&& s.fields is Some
    &&& forall|i: int|
        0 <= i < s.fields->0.len() ==> node_sound(#[trigger] s.fields->0[i]) && !(
        s.fields->0[i].kind == 7 && s.big_endian)
}

fn ids_sound(ids: &Vec<i32>, n: usize) -> (r: bool)
    ensures
        r == union_ids_sound(ids@, n as nat),
{
    if ids.len() != n {
        return false;
    }
    for i in 0..ids.len()
        invariant
            forall|k: int| 0 <= k < i ==> #[trigger] ids@[k] as i8 >= 0,
            forall|k: int, j: int|
                0 <= k < j < i ==> #[trigger] ids@[k] as i8 != #[trigger] ids@[j] as i8,
    {
        let id: i8 = ids[i] as i8;
        if id < 0 {
            assert(!(ids@[i as int] as i8 >= 0));
            return false;
        }
        for j in 0..i
            invariant
                i < ids@.len(),
                id == ids@[i as int] as i8,
                forall|k: int| 0 <= k < j ==> #[trigger] ids@[k] as i8 != id,
        {
            if ids[j] as i8 == id {
                assert(ids@[j as int] as i8 == ids@[i as int] as i8);
                return false;
            }
        }
    }
    true
}

fn all_sound(fields: &Vec<arrow_ipc::Field>, Ghost(parent): Ghost<IpcNode>) -> (r: bool)
    requires
        parent.children == Some(ipc_nodes(fields@)),
    ensures
        r == (forall|i: int|
            0 <= i < ipc_nodes(fields@).len() ==> node_sound(#[trigger] ipc_nodes(fields@)[i])),
    decreases parent, 0nat,
{
    let ghost nodes = ipc_nodes(fields@);
    for i in 0..fields.len()
        invariant
            nodes == ipc_nodes(fields@),
            parent.children == Some(nodes),
            forall|k: int| 0 <= k < i ==> node_sound(#[trigger] nodes[k]),
    {
        assert(nodes[i as int] == ipc_node(fields@[i as int]));
        assert(decreases_to!(parent => parent.children));
        assert(decreases_to!(parent.children => parent.children->0));
        assert(decreases_to!(nodes => nodes[i as int]));
        if !is_sound(&fields[i]) {
            return false;
        }
    }
    true
}

fn is_index_sound(f: &arrow_ipc::Field) -> (r: bool)
    ensures
        r == index_sound(ipc_node(*f)),
{
    let (_, index, _) = node_integers(f);
    match index {
        Some(Some((bits, _))) => bits == 8 || bits == 16 || bits == 32 || bits == 64,
        Some(None) => false,
        None => true,
    }
}

fn is_scalar_sound(f: &arrow_ipc::Field) -> (r: bool)
    ensures
        r == scalar_sound(ipc_node(*f)),
{
    let (kind, _, integer) = node_integers(f);
    let (float, decimal) = node_numbers(f);
    let (date, time, timestamp) = node_times(f);
    let (interval, duration) = node_spans(f);
    let (byte_width, _, _) = node_sizes(f);
    match kind {
        1 | 4 | 5 | 6 | 19 | 20 | 23 | 24 => true,
        2 => match integer {
            Some((bits, _)) => bits == 8 || bits == 16 || bits == 32 || bits == 64,
            None => false,
        },
        3 => match float {
            Some(p) => 0 <= p && p <= 2,
            None => false,
        },
        7 => match decimal {
            Some((bits, precision, scale)) => (bits == 32 || bits == 64 || bits == 128 || bits
                == 256) && 0 <= precision && precision <= 255 && -128 <= scale && scale <= 127,
            None => false,
        },
        8 => match date {
            Some(u) => 0 <= u && u <= 1,
            None => false,
        },
        9 => match time {
            Some((bits, u)) => (bits == 32 && 0 <= u && u <= 1) || (bits == 64 && 2 <= u && u
                <= 3),
            None => false,
        },
        10 => match timestamp {
            Some(u) => 0 <= u && u <= 3,
            None => false,
        },
        11 => match interval {
            Some(u) => 0 <= u && u <= 2,
            None => false,
        },
        15 => byte_width.is_some(),
        18 => match duration {
            Some(u) => 0 <= u && u <= 3,
            None => false,
        },
        _ => false,
    }
}

fn is_nesting_sound(f: &arrow_ipc::Field, count: usize) -> (r: bool)
    requires
        count == child_count(ipc_node(*f)),
    ensures
        r == nesting_sound(ipc_node(*f)),
{
    let (kind, _, _) = node_integers(f);
    let (_, list_size, keys_sorted) = node_sizes(f);
    let (union_mode, union_ids) = node_union(f);
    match kind {
        12 | 21 | 25 | 26 => count == 1,
        13 => true,
        14 => match union_mode {
            Some(m) => 0 <= m && m <= 1 && match &union_ids {
                Some(ids) => ids_sound(ids, count),
                None => count <= 128,
            },
            None => false,
        },
        16 => list_size.is_some() && count == 1,
        17 => keys_sorted.is_some() && count == 1,
        22 => count == 2,
        _ => false,
    }
}

fn is_sound(f: &arrow_ipc::Field) -> (r: bool)
    ensures
        r == node_sound(ipc_node(*f)),
    decreases ipc_node(*f), 1nat,
{
    if !is_index_sound(f) {
        return false;
    }
    if is_scalar_sound(f) {
        return true;
    }
    match node_children(f) {
        Some(children) => is_nesting_sound(f, children.len()) && all_sound(
            &children,
            Ghost(ipc_node(*f)),
        ),
        None => is_nesting_sound(f, 0),
    }
}

/// Reading the bytes makes Arrow panic: they hold a schema, but one that is not sound.
pub open spec fn ipc_panics(bytes: Seq<u8>) -> bool {
    ipc_schema(bytes) is Ok && !schema_sound(ipc_schema(bytes)->Ok_0)
}

/// Whether a stored type can be read, or refused, without a panic.
pub fn is_readable(bytes: &[u8]) -> (r: bool)
    ensures
        r == !ipc_panics(bytes@),
{
    match open_schema(bytes) {
        Ok((big_endian, Some(fields))) => {
            let ghost nodes = ipc_nodes(fields@);
            for i in 0..fields.len()
                invariant
                    nodes == ipc_nodes(fields@),
                    ipc_schema(bytes@) is Ok,
                    ipc_schema(bytes@)->Ok_0 == (IpcSchema { big_endian, fields: Some(nodes) }),
                    forall|k: int|
                        0 <= k < i ==> node_sound(#[trigger] nodes[k]) && !(nodes[k].kind == 7
                            && big_endian),
            {
                assert(nodes[i as int] == ipc_node(fields@[i as int]));
                let (kind, _, _) = node_integers(&fields[i]);
                if !is_sound(&fields[i]) || (kind == 7 && big_endian) {
                    assert(!(node_sound(nodes[i as int]) && !(nodes[i as int].kind == 7
                        && big_endian)));
                    return false;
                }
            }
            true
        },
        Ok((_, None)) => false,
        Err(_) => true,
    }
}

/// A node without fields below can be read exactly if what its kind needs is there and in range:
/// widths of integers and decimals are powers of two, and units and precisions are those that the
/// format names.
pub proof fn plain_nodes_are_sound_by_their_kind(n: IpcNode)
    requires
        n.index is None,
    ensures
        n.kind == 1 || n.kind == 4 || n.kind == 5 || n.kind == 6 || n.kind == 19 || n.kind == 20
            || n.kind == 23 || n.kind == 24 ==> node_sound(n),
        n.kind == 2 ==> (node_sound(n) <==> (n.integer matches Some(t) && exists|w: int|
            3 <= w <= 6 && t.0 == #[trigger] power(w))),
        n.kind == 3 ==> (node_sound(n) <==> (n.float matches Some(p) && 0 <= p < 3)),
        n.kind == 7 ==> (node_sound(n) <==> (n.decimal matches Some(t) && (exists|w: int|
            5 <= w <= 8 && t.0 == #[trigger] power(w)) && 0 <= t.1 < 256 && -128 <= t.2 < 128)),
        n.kind == 8 ==> (node_sound(n) <==> (n.date matches Some(u) && 0 <= u < 2)),
        n.kind == 9 ==> (node_sound(n) <==> (n.time matches Some(t) && 0 <= t.1 < 4 && t.0 == (
        if t.1 < 2 {
            32int
        } else {
            64int
        }))),
        n.kind == 10 ==> (node_sound(n) <==> (n.timestamp matches Some(u) && 0 <= u < 4)),
        n.kind == 11 ==> (node_sound(n) <==> (n.interval matches Some(u) && 0 <= u < 3)),
        n.kind == 15 ==> (node_sound(n) <==> n.byte_width is Some),
        n.kind == 18 ==> (node_sound(n) <==> (n.duration matches Some(u) && 0 <= u < 4)),
        n.kind == 0 || n.kind > 26 ==> !node_sound(n),
{
    assert(power(3) == 8 && power(4) == 16 && power(5) == 32 && power(6) == 64 && power(7) == 128
        && power(8) == 256);
}

/// A power of two of that exponent, from 3 to 8.
pub open spec fn power(w: int) -> int {
    if w == 3 {
        8
    } else if w == 4 {
        16
    } else if w == 5 {
        32
    } else if w == 6 {
        64
    } else if w == 7 {
        128
    } else {
        256
    }
}

/// A node with fields below can be read only if each of those can, and there are as many as its kind
/// has: one below a list or a map, two below run ends, and any number below a struct or a union.
pub proof fn nodes_are_sound_with_what_is_below(n: IpcNode, children: Seq<IpcNode>)
    requires
        n.index is None,
        n.children == Some(children),
    ensures
        ({
            let all = forall|i: int| 0 <= i < children.len() ==> node_sound(#[trigger] children[i]);
            &&& n.kind == 12 || n.kind == 21 || n.kind == 25 || n.kind == 26 ==> (node_sound(n)
                <==> children.len() == 1 && all)
            &&& n.kind == 13 ==> (node_sound(n) <==> all)
            &&& n.kind == 16 ==> (node_sound(n) <==> children.len() == 1 && n.list_size is Some
                && all)
            &&& n.kind == 17 ==> (node_sound(n) <==> children.len() == 1 && n.keys_sorted is Some
                && all)
            &&& n.kind == 22 ==> (node_sound(n) <==> children.len() == 2 && all)
            &&& n.kind == 14 && n.union_ids is None ==> (node_sound(n) <==> (n.union_mode matches
                Some(m) && 0 <= m < 2) && children.len() <= 128 && all)
        }),
{
    assert(child_count(n) == children.len());
    if forall|i: int| 0 <= i < children.len() ==> node_sound(#[trigger] children[i]) {
        assert(nesting_sound(n) ==> node_sound(n));
    } else {
        let i = choose|i: int| 0 <= i < children.len() && !node_sound(#[trigger] children[i]);
        assert(!node_sound(children[i]));
        assert(!scalar_sound(n) ==> !node_sound(n));
    }
}

/// A node of a dictionary can be read only if the integers that its index holds have a width that
/// they can have, whatever else it is.
pub proof fn indexed_nodes_have_sound_indices(n: IpcNode, plain: IpcNode)
    requires
        plain == (IpcNode { index: None, ..n }),
    ensures
        node_sound(n) ==> node_sound(plain),
        n.index matches Some(index) ==> (node_sound(n) <==> node_sound(plain) && (index matches Some(
            t,
        ) && (t.0 == 8 || t.0 == 16 || t.0 == 32 || t.0 == 64))),
{
    assert(scalar_sound(n) == scalar_sound(plain));
    assert(nesting_sound(n) == nesting_sound(plain));
}

/// A stored schema can be read exactly if it lists fields and all of them can, but for decimals in
/// one that is marked as big-endian.
pub proof fn schemas_are_sound_field_by_field(s: IpcSchema, fields: Seq<IpcNode>)
    ensures
        s.fields is None ==> !schema_sound(s),
        s.fields == Some(fields) && !s.big_endian ==> (schema_sound(s) <==> forall|i: int|
            0 <= i < fields.len() ==> node_sound(#[trigger] fields[i])),
        s.fields == Some(fields) && s.big_endian ==> (schema_sound(s) <==> forall|i: int|
            0 <= i < fields.len() ==> node_sound(#[trigger] fields[i]) && fields[i].kind != 7),
{
}

} // verus!
