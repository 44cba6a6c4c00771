//! Format options: the entries of a JSON object, in the order of their keys.

use vstd::prelude::*;
use vstd::string::*;

use crate::json::{json_model, JsonModel, JsonObject, NumberModel};
use crate::text::joined;

use super::error::{Result, StorageError};

verus! {

/// One entry of an options object: its key, and its value as far as it is a boolean, an
/// integer that is not negative, or a string.
pub struct OptionEntry {
    /// Option name.
    pub key: String,
    /// The value, if it is a boolean.
    pub as_bool: Option<bool>,
    /// The value, if it is an integer that is not negative.
    pub as_u64: Option<u64>,
    /// The value, if it is a string.
    pub as_str: Option<String>,
}

/// An entry with its texts as sequences of characters.
#[verifier::ext_equal]
pub struct EntryView {
    /// Option name.
    pub key: Seq<char>,
    /// The value, if it is a boolean.
    pub as_bool: Option<bool>,
    /// The value, if it is an integer that is not negative.
    pub as_u64: Option<u64>,
    /// The value, if it is a string.
    pub as_str: Option<Seq<char>>,
}

impl View for OptionEntry {
    type V = EntryView;

    open spec fn view(&self) -> EntryView {
        EntryView {
            key: self.key@,
            as_bool: self.as_bool,
            as_u64: self.as_u64,
            as_str: match self.as_str {
                Some(s) => Some(s@),
                None => None,
            },
        }
    }
}

/// The entry that an object's key and value make.
pub open spec fn entry_of(key: Seq<char>, value: JsonModel) -> EntryView {
    EntryView {
        key,
        as_bool: match value {
            JsonModel::Bool(b) => Some(b),
            _ => None,
        },
        as_u64: match value {
            JsonModel::Number(NumberModel::Unsigned(n)) => Some(n),
            _ => None,
        },
        as_str: match value {
            JsonModel::Text(s) => Some(s),
            _ => None,
        },
    }
}

/// Alphabetical order by code point.
pub open spec fn text_less(a: Seq<char>, b: Seq<char>) -> bool
    decreases a.len(),
{
    if b.len() == 0 {
        false
    } else if a.len() == 0 {
        true
    } else if a[0] != b[0] {
        (a[0] as u32) < (b[0] as u32)
    } else {
        text_less(a.drop_first(), b.drop_first())
    }
}

/// `keys` lists the keys of an object in alphabetical order.
pub open spec fn lists_keys(keys: Seq<Seq<char>>, object: JsonObject) -> bool {
    &&& forall|i: int| 0 <= i < keys.len() ==> object.dom().contains(#[trigger] keys[i])
    &&& forall|k: Seq<char>| object.dom().contains(k) ==> keys.contains(k)
    &&& forall|i: int, j: int| 0 <= i < j < keys.len() ==> text_less(#[trigger] keys[i], #[trigger] keys[j])
}

/// The keys of an object in alphabetical order.
pub open spec fn ordered_keys(object: JsonObject) -> Seq<Seq<char>> {
    choose|keys: Seq<Seq<char>>| lists_keys(keys, object)
}

/// The entries of an object in the order of their keys.
pub open spec fn ordered_entries(object: JsonObject) -> Seq<EntryView> {
    let keys = ordered_keys(object);
    Seq::new(keys.len(), |i: int| entry_of(keys[i], object[keys[i]]))
}

proof fn text_less_is_asymmetric(a: Seq<char>, b: Seq<char>)
    ensures
        !(text_less(a, b) && text_less(b, a)),
    decreases a.len(),
{
    if a.len() > 0 && b.len() > 0 && a[0] == b[0] {
        text_less_is_asymmetric(a.drop_first(), b.drop_first());
    }
}

/// An object has one alphabetical list of its keys.
pub proof fn key_order_is_unique(a: Seq<Seq<char>>, b: Seq<Seq<char>>, object: JsonObject)
    requires
        lists_keys(a, object),
        lists_keys(b, object),
    ensures
        a == b,
    decreases a.len(),
{
    if a.len() == 0 {
        if b.len() > 0 {
            assert(object.dom().contains(b[0]));
            assert(a.contains(b[0]));
        }
        assert(a =~= b);
    } else {
        assert(object.dom().contains(a[0]));
        assert(b.contains(a[0]));
        let j = choose|j: int| 0 <= j < b.len() && b[j] == a[0];
        assert(object.dom().contains(b[0]));
        assert(a.contains(b[0]));
        let i = choose|i: int| 0 <= i < a.len() && a[i] == b[0];
        text_less_is_asymmetric(a[0], b[0]);
        if a[0] != b[0] {
            assert(text_less(a[0], a[i]));
            assert(text_less(b[0], b[j]));
        }
        let rest = object.remove(a[0]);
        let ta = a.drop_first();
        let tb = b.drop_first();
        assert forall|n: int| 0 <= n < ta.len() implies rest.dom().contains(#[trigger] ta[n]) by {
            assert(ta[n] == a[n + 1]);
            assert(text_less(a[0], a[n + 1]));
            text_less_is_asymmetric(a[0], a[n + 1]);
        }
        assert forall|n: int| 0 <= n < tb.len() implies rest.dom().contains(#[trigger] tb[n]) by {
            assert(tb[n] == b[n + 1]);
            assert(text_less(b[0], b[n + 1]));
            text_less_is_asymmetric(b[0], b[n + 1]);
        }
        assert forall|k: Seq<char>| rest.dom().contains(k) implies ta.contains(k) by {
            assert(a.contains(k));
            let n = choose|n: int| 0 <= n < a.len() && a[n] == k;
            assert(ta[n - 1] == k);
        }
        assert forall|k: Seq<char>| rest.dom().contains(k) implies tb.contains(k) by {
            assert(b.contains(k));
            let n = choose|n: int| 0 <= n < b.len() && b[n] == k;
            assert(tb[n - 1] == k);
        }
        assert forall|m: int, n: int| 0 <= m < n < ta.len() implies text_less(
            #[trigger] ta[m],
            #[trigger] ta[n],
        ) by {
            assert(text_less(a[m + 1], a[n + 1]));
        }
        assert forall|m: int, n: int| 0 <= m < n < tb.len() implies text_less(
            #[trigger] tb[m],
            #[trigger] tb[n],
        ) by {
            assert(text_less(b[m + 1], b[n + 1]));
        }
        key_order_is_unique(ta, tb, rest);
        assert(a =~= seq![a[0]] + ta);
        assert(b =~= seq![b[0]] + tb);
    }
}

/// The entries are those of the object, in the alphabetical order of their keys.
pub open spec fn lists_entries(entries: Seq<EntryView>, object: JsonObject) -> bool {
    let keys = Seq::new(entries.len(), |i: int| entries[i].key);
    &&& lists_keys(keys, object)
    &&& forall|i: int|
        0 <= i < entries.len() ==> #[trigger] entries[i] == entry_of(
            entries[i].key,
            object[entries[i].key],
        )
}

/// The views of a list of entries.
pub open spec fn entry_views(entries: Seq<OptionEntry>) -> Seq<EntryView> {
    Seq::new(entries.len(), |i: int| entries[i]@)
}

/// `serde_json::Value::as_object`, with the entries that its map then yields (alphabetically,
/// as the map is a `BTreeMap`), each value by `as_bool`, `as_u64` and `as_str`.
#[verifier::external_body]
fn value_entries(v: &serde_json::Value) -> (r: Option<Vec<OptionEntry>>)
    ensures
        match r {
            Some(entries) => json_model(*v) is Object && lists_entries(
                entry_views(entries@),
                json_model(*v)->Object_0,
            ),
            None => !(json_model(*v) is Object),
        },
{
    let entry = |(key, value): (&String, &serde_json::Value)| OptionEntry {
        key: key.clone(),
        as_bool: value.as_bool(),
        as_u64: value.as_u64(),
        as_str: value.as_str().map(|s| s.to_string()),
    };
    v.as_object().map(|m| m.iter().map(entry).collect())
}

/// The entries of an options object, in the order of their keys; nothing of a value that is
/// no object.
pub fn option_entries(v: &serde_json::Value) -> (r: Option<Vec<OptionEntry>>)
    ensures
        match r {
            Some(entries) => json_model(*v) is Object && entry_views(entries@) == ordered_entries(
                json_model(*v)->Object_0,
            ) && lists_entries(entry_views(entries@), json_model(*v)->Object_0),
            None => !(json_model(*v) is Object),
        },
{
    let r = value_entries(v);
    proof {
        if r is Some {
            let entries = r->0;
            let object = json_model(*v)->Object_0;
            let views = entry_views(entries@);
            let keys = Seq::new(views.len(), |i: int| views[i].key);
            assert(lists_keys(keys, object));
            assert(lists_keys(ordered_keys(object), object));
            key_order_is_unique(keys, ordered_keys(object), object);
            assert(views =~= ordered_entries(object)) by {
                assert forall|i: int| 0 <= i < views.len() implies views[i]
                    == ordered_entries(object)[i] by {
                    assert(keys[i] == views[i].key);
                }
            }
        }
    }
    r
}

/// What is said of an option that should have been an integer.
pub open spec fn not_an_integer(key: Seq<char>) -> Seq<char> {
    key + " must be an integer"@
}

/// What is said of an option that should have been a string.
pub open spec fn not_a_string(key: Seq<char>) -> Seq<char> {
    key + " must be a string"@
}

/// What is said of an option that should have been a boolean.
pub open spec fn not_a_bool(key: Seq<char>) -> Seq<char> {
    key + " must be a bool"@
}

/// What is said of an option that the format does not have.
pub open spec fn unknown_option(key: Seq<char>, format: Seq<char>) -> Seq<char> {
    "Unsupported option '"@ + key + "' for format '"@ + format + "'"@
}

/// Reads an option as a number of items or bytes.
pub fn parse_usize(entry: &OptionEntry) -> (r: Result<usize>)
    ensures
        match r {
            Ok(n) => entry.as_u64 is Some && n == entry.as_u64->0 as usize,
            Err(e) => entry.as_u64 is None && e@ == super::error::StorageErrorView::Unsupported(
                not_an_integer(entry.key@),
            ),
        },
{
    match entry.as_u64 {
        Some(v) => Ok(v as usize),
        None => Err(
            StorageError::Unsupported(joined(entry.key.as_str(), " must be an integer")),
        ),
    }
}

/// The refusal of an option that the format does not have.
pub(crate) fn unknown_option_error(key: &str, format: &str) -> (r: StorageError)
    ensures
        r@ == super::error::StorageErrorView::Unsupported(unknown_option(key@, format@)),
{
    let mut s = joined("Unsupported option '", key);
    s.append("' for format '");
    s.append(format);
    s.append("'");
    StorageError::Unsupported(s)
}

} // verus!
