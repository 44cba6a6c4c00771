//! Reading and writing the texts and bytes that the catalog database holds.

use vstd::prelude::*;
use vstd::string::*;
use vstd::utf8::encode_utf8;

use super::error::{CatalogError, ErrorView, Result};
use super::limits::MAX_JSON_SIZE_BYTES;
use super::models::{not_an_object, TableProperties, TxnId};
use crate::ids::{big_endian, uuid_length_text, uuid_variant, uuid_version, Uuid};
use crate::json::{
    json_model, json_parse, json_text, map_new, plain_json, value_from_map, value_from_str,
    value_to_string, JsonModel, JsonObject,
};
use crate::text::{decimal, decimal_text, joined};

use super::schema::json_option;

verus! {

/// The size of a text in bytes.
pub open spec fn byte_len(s: Seq<char>) -> usize {
    encode_utf8(s).len() as usize
}

/// The refusal of JSON that is too large.
pub open spec fn json_too_large(len: usize) -> ErrorView {
    ErrorView::LimitExceeded(
        "JSON size "@ + decimal_text(len as nat) + " bytes exceeds limit of "@ + decimal_text(
            MAX_JSON_SIZE_BYTES as nat,
        ) + " bytes"@,
    )
}

/// What comes of reading JSON text, or of there being none.
pub open spec fn parsed_json(text: Option<Seq<char>>) -> std::result::Result<
    Option<JsonModel>,
    ErrorView,
> {
    match text {
        None => Ok(None),
        Some(s) => if byte_len(s) > MAX_JSON_SIZE_BYTES {
            Err(json_too_large(byte_len(s)))
        } else {
            match json_parse(s) {
                Ok(m) => Ok(Some(m)),
                Err(e) => Err(ErrorView::InvalidArgument("invalid json: "@ + e)),
            }
        },
    }
}

/// What comes of reading properties: no text stands for no properties.
pub open spec fn parsed_properties(text: Option<Seq<char>>) -> std::result::Result<
    JsonObject,
    ErrorView,
> {
    match parsed_json(text) {
        Err(e) => Err(e),
        Ok(None) => Ok(JsonObject::empty()),
        Ok(Some(JsonModel::Object(object))) => Ok(object),
        Ok(Some(_)) => Err(not_an_object()),
    }
}

/// What comes of writing JSON text.
pub open spec fn serialized(m: JsonModel) -> std::result::Result<Seq<char>, ErrorView> {
    if byte_len(json_text(m)) > MAX_JSON_SIZE_BYTES {
        Err(json_too_large(byte_len(json_text(m))))
    } else {
        Ok(json_text(m))
    }
}

/// What comes of writing JSON text where there may be no value.
pub open spec fn serialized_option(m: Option<JsonModel>) -> std::result::Result<
    Option<Seq<char>>,
    ErrorView,
> {
    match m {
        None => Ok(None),
        Some(v) => match serialized(v) {
            Ok(s) => Ok(Some(s)),
            Err(e) => Err(e),
        },
    }
}

/// A JSON value that may be written and holds nothing that the text would lose is read back from
/// its text.
pub open spec fn json_reads_back(m: JsonModel) -> bool {
    plain_json(m, 127) && serialized(m) is Ok ==> parsed_json(Some(json_text(m)))
        == std::result::Result::<Option<JsonModel>, ErrorView>::Ok(Some(m))
}

/// The characters of an optional text.
pub open spec fn text_option(s: Option<String>) -> Option<Seq<char>> {
    match s {
        Some(x) => Some(x@),
        None => None,
    }
}

/// What comes of reading a UUID.
pub open spec fn parsed_uuid(bytes: Seq<u8>) -> std::result::Result<Uuid, ErrorView> {
    if bytes.len() == 16 {
        Ok(Uuid { value: big_endian(bytes) as u128 })
    } else {
        Err(ErrorView::InvalidArgument("invalid uuid: "@ + uuid_length_text(bytes.len())))
    }
}

/// The bytes of an optional column.
pub open spec fn bytes_option(bytes: Option<Vec<u8>>) -> Option<Seq<u8>> {
    match bytes {
        Some(b) => Some(b@),
        None => None,
    }
}

/// What comes of reading a UUID where there may be none.
pub open spec fn parsed_uuid_option(bytes: Option<Seq<u8>>) -> std::result::Result<
    Option<Uuid>,
    ErrorView,
> {
    match bytes {
        None => Ok(None),
        Some(b) => match parsed_uuid(b) {
            Ok(u) => Ok(Some(u)),
            Err(e) => Err(e),
        },
    }
}

fn too_large(len: usize) -> (r: CatalogError)
    ensures
        r@ == json_too_large(len),
{
    let mut text = joined("JSON size ", decimal(len as u64).as_str());
    text.append(" bytes exceeds limit of ");
    text.append(decimal(MAX_JSON_SIZE_BYTES as u64).as_str());
    text.append(" bytes");
    CatalogError::LimitExceeded(text)
}

/// Read a UUID from the bytes of a database column.
pub fn uuid_from_row(bytes: &Vec<u8>) -> (r: Result<Uuid>)
    ensures
        match r {
            Ok(u) => parsed_uuid(bytes@) == std::result::Result::<Uuid, ErrorView>::Ok(u),
            Err(e) => parsed_uuid(bytes@) == std::result::Result::<Uuid, ErrorView>::Err(e@),
        },
{
    match Uuid::from_slice(bytes.as_slice()) {
        Ok(u) => Ok(u),
        Err(reason) => Err(
            CatalogError::InvalidArgument(joined("invalid uuid: ", reason.as_str())),
        ),
    }
}

/// Read a UUID from the bytes of a database column that may be null.
pub fn uuid_from_row_optional(bytes: &Option<Vec<u8>>) -> (r: Result<Option<Uuid>>)
    ensures
        match r {
            Ok(u) => parsed_uuid_option(bytes_option(*bytes)) == std::result::Result::<
                Option<Uuid>,
                ErrorView,
            >::Ok(u),
            Err(e) => parsed_uuid_option(bytes_option(*bytes)) == std::result::Result::<
                Option<Uuid>,
                ErrorView,
            >::Err(e@),
        },
{
    match bytes {
        None => Ok(None),
        Some(b) => match uuid_from_row(b) {
            Ok(u) => Ok(Some(u)),
            Err(e) => Err(e),
        },
    }
}

/// Parse optional JSON text, no larger than the limit.
pub fn parse_json_optional(value: Option<String>) -> (r: Result<Option<serde_json::Value>>)
    ensures
        match r {
            Ok(v) => parsed_json(text_option(value)) == std::result::Result::<
                Option<JsonModel>,
                ErrorView,
            >::Ok(json_option(v)),
            Err(e) => parsed_json(text_option(value)) == std::result::Result::<
                Option<JsonModel>,
                ErrorView,
            >::Err(e@),
        },
{
    match value {
        None => Ok(None),
        Some(text) => {
            let len: usize = text.as_str().len();
            if len > MAX_JSON_SIZE_BYTES as usize {
                return Err(too_large(len));
            }
            match value_from_str(text.as_str()) {
                Ok(v) => Ok(Some(v)),
                Err(reason) => Err(
                    CatalogError::InvalidArgument(joined("invalid json: ", reason.as_str())),
                ),
            }
        },
    }
}

/// Parse JSON text, no larger than the limit; no text stands for an empty object.
pub fn parse_json(value: Option<String>) -> (r: Result<serde_json::Value>)
    ensures
        match (r, parsed_json(text_option(value))) {
            (Ok(v), Ok(Some(m))) => json_model(v) == m,
            (Ok(v), Ok(None)) => json_model(v) == JsonModel::Object(JsonObject::empty()),
            (Err(e), Err(view)) => e@ == view,
            _ => false,
        },
{
    match parse_json_optional(value) {
        Ok(Some(v)) => Ok(v),
        Ok(None) => Ok(value_from_map(map_new())),
        Err(e) => Err(e),
    }
}

/// Parse table properties; no text stands for no properties.
pub fn parse_table_properties(value: Option<String>) -> (r: Result<TableProperties>)
    ensures
        match r {
            Ok(p) => parsed_properties(text_option(value)) == std::result::Result::<
                JsonObject,
                ErrorView,
            >::Ok(p@),
            Err(e) => parsed_properties(text_option(value)) == std::result::Result::<
                JsonObject,
                ErrorView,
            >::Err(e@),
        },
{
    match parse_json(value) {
        Ok(v) => TableProperties::from_json(v),
        Err(e) => Err(e),
    }
}

/// Write a JSON value as text, no larger than the limit. [`parse_json`] reads the same value
/// back from it.
pub fn serialize_json(value: &serde_json::Value) -> (r: Result<String>)
    ensures
        match r {
            Ok(text) => serialized(json_model(*value)) == std::result::Result::<
                Seq<char>,
                ErrorView,
            >::Ok(text@) && json_reads_back(json_model(*value)),
            Err(e) => serialized(json_model(*value)) == std::result::Result::<
                Seq<char>,
                ErrorView,
            >::Err(e@),
        },
{
    match value_to_string(value) {
        Ok(text) => {
            let len: usize = text.as_str().len();
            if len > MAX_JSON_SIZE_BYTES as usize {
                return Err(too_large(len));
            }
            Ok(text)
        },
        Err(reason) => Err(
            CatalogError::InvalidArgument(joined("invalid json: ", reason.as_str())),
        ),
    }
}

/// Write an optional JSON value as text, no larger than the limit.
pub fn serialize_json_optional(value: &Option<serde_json::Value>) -> (r: Result<Option<String>>)
    ensures
        match r {
            Ok(text) => serialized_option(json_option(*value)) == std::result::Result::<
                Option<Seq<char>>,
                ErrorView,
            >::Ok(text_option(text)) && (json_option(*value) matches Some(m) ==> json_reads_back(
                m,
            )),
            Err(e) => serialized_option(json_option(*value)) == std::result::Result::<
                Option<Seq<char>>,
                ErrorView,
            >::Err(e@),
        },
{
    match value {
        None => Ok(None),
        Some(v) => match serialize_json(v) {
            Ok(text) => Ok(Some(text)),
            Err(e) => Err(e),
        },
    }
}

/// Draw a transaction ID. It is time-ordered, so that later transactions have greater ids as
/// long as the clock is not set back.
pub fn next_transaction_id() -> (r: TxnId)
    ensures
        uuid_version(r.value as nat) == 7,
        uuid_variant(r.value as nat) == 2,
{
    Uuid::new_v7()
}

/// The transaction ID that follows a base: the one that was drawn if it is greater, and else the
/// first that is. Nothing follows the greatest of all.
pub open spec fn id_after(drawn: TxnId, base: TxnId) -> Option<TxnId> {
    if drawn.value > base.value {
        Some(drawn)
    } else if base.value < u128::MAX {
        Some(Uuid { value: (base.value + 1) as u128 })
    } else {
        None
    }
}

/// Make a transaction ID follow a base, whatever the clock did when it was drawn.
pub fn following(drawn: TxnId, base: TxnId) -> (r: Option<TxnId>)
    ensures
        r == id_after(drawn, base),
        r matches Some(id) ==> id.value > base.value,
        r is None ==> base.value == u128::MAX,
{
    if drawn.as_u128() > base.as_u128() {
        Some(drawn)
    } else if base.as_u128() < u128::MAX {
        Some(Uuid::from_u128(base.as_u128() + 1))
    } else {
        None
    }
}

/// Draw a transaction ID that follows a base: a time-ordered one, or the first that follows where
/// the clock is behind.
pub fn next_transaction_id_after(base: TxnId) -> (r: Option<TxnId>)
    ensures
        r matches Some(id) ==> id.value > base.value,
        r matches Some(id) ==> id.value == base.value + 1 || (uuid_version(id.value as nat) == 7
            && uuid_variant(id.value as nat) == 2),
        r is None ==> base.value == u128::MAX,
{
    following(next_transaction_id(), base)
}

} // verus!
