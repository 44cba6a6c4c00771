//! Plain values: the form in which bindings to other languages hand things over.

use vstd::prelude::*;
use vstd::string::*;

use crate::catalog::data_type::TypeModel;
use crate::catalog::error::stands_for;

verus! {

/// A plain value of another language.
#[derive(Debug)]
pub enum SpecValue {
    /// Nothing.
    Nothing,
    /// A boolean.
    Bool(bool),
    /// An integer.
    Int(i64),
    /// A text.
    Text(String),
    /// A list.
    List(Vec<SpecValue>),
    /// A dictionary, its keys with their values.
    Dict(Vec<(String, SpecValue)>),
    /// A JSON value, with what it holds.
    Json(serde_json::Value),
    /// Anything else.
    Other,
}

/// What a value was expected to be.
#[derive(Debug, Clone, Copy, PartialEq, Eq, Structural)]
pub enum Expected {
    /// A dictionary.
    Dict,
    /// A list.
    List,
    /// A text.
    Text,
    /// A boolean.
    Bool,
    /// An integer of the given range.
    Int(i64, i64),
}

/// Errors of the bindings.
#[derive(Debug)]
pub enum BindingError {
    /// A value that makes no sense.
    Value(String),
    /// A value that is not what was expected.
    Conversion(Expected),
}

/// Why a value is refused.
#[verifier::ext_equal]
pub enum BindingRefusal {
    /// With this text.
    Value(Seq<char>),
    /// It is not what was expected.
    Conversion(Expected),
    /// It is a type that bindings do not have.
    UnsupportedType(TypeModel),
}

/// The error that tells of a refusal.
pub open spec fn binding_tells(e: BindingError, why: BindingRefusal) -> bool {
    match why {
        BindingRefusal::Value(s) => e matches BindingError::Value(t) && t@ == s,
        BindingRefusal::Conversion(x) => e == BindingError::Conversion(x),
        BindingRefusal::UnsupportedType(m) => e is Value && exists|t: Seq<char>|
            #[trigger] stands_for(t, m) && e->Value_0@
                == "Unsupported DataType for Python bindings: "@ + t,
    }
}

/// A text value.
pub open spec fn is_text(v: SpecValue, s: Seq<char>) -> bool {
    v matches SpecValue::Text(t) && t@ == s
}

/// A dictionary with just these keys, in this order.
pub open spec fn has_keys(v: SpecValue, keys: Seq<Seq<char>>) -> bool {
    v matches SpecValue::Dict(pairs) && pairs@.len() == keys.len() && forall|i: int|
        0 <= i < keys.len() ==> (#[trigger] pairs@[i]).0@ == keys[i]
}

/// The value at a position of a dictionary.
pub open spec fn value_at(v: SpecValue, i: int) -> SpecValue {
    v->Dict_0@[i].1
}

pub(crate) fn pair(key: &str, value: SpecValue) -> (r: (String, SpecValue))
    ensures
        r.0@ == key@,
        r.1 == value,
{
    (String::from_str(key), value)
}

pub(crate) fn text(s: &str) -> (r: SpecValue)
    ensures
        is_text(r, s@),
{
    SpecValue::Text(String::from_str(s))
}

} // verus!
