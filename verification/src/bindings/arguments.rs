//! Arguments that bindings to other languages hand over as text.

use vstd::prelude::*;
use vstd::string::*;

use super::value::{binding_tells, BindingError, BindingRefusal};
use crate::ids::{hyphenated, uuid_parse, Uuid};
use crate::text::joined;

verus! {

/// The refusal of a text that is no UUID.
pub open spec fn bad_id(what: Seq<char>, s: Seq<char>) -> BindingRefusal {
    BindingRefusal::Value(what + uuid_parse(s)->Err_0)
}

fn id_argument(what: &str, s: &str) -> (r: Result<Uuid, BindingError>)
    ensures
        match r {
            Ok(id) => uuid_parse(s@) is Ok && uuid_parse(s@)->Ok_0 == id.value,
            Err(e) => uuid_parse(s@) is Err && binding_tells(e, bad_id(what@, s@)),
        },
        forall|n: u128| s@ == #[trigger] hyphenated(n as nat) ==> r is Ok && r->Ok_0.value == n,
{
    match Uuid::parse_str(s) {
        Ok(id) => Ok(id),
        Err(reason) => Err(BindingError::Value(joined(what, reason.as_str()))),
    }
}

/// Reads the identifier of a transaction. The text of one reads back as that one.
pub fn transaction_id(s: &str) -> (r: Result<Uuid, BindingError>)
    ensures
        match r {
            Ok(id) => uuid_parse(s@) is Ok && uuid_parse(s@)->Ok_0 == id.value,
            Err(e) => uuid_parse(s@) is Err && binding_tells(
                e,
                bad_id("Invalid transaction id: "@, s@),
            ),
        },
        forall|n: u128| s@ == #[trigger] hyphenated(n as nat) ==> r is Ok && r->Ok_0.value == n,
{
    id_argument("Invalid transaction id: ", s)
}

/// Reads the identifiers of files, or tells of the first text that is none.
pub fn file_uuids(texts: &Vec<String>) -> (r: Result<Vec<Uuid>, BindingError>)
    ensures
        match r {
            Ok(ids) => ids@.len() == texts@.len() && forall|i: int|
                0 <= i < texts@.len() ==> uuid_parse(#[trigger] texts@[i]@) is Ok && uuid_parse(
                    texts@[i]@,
                )->Ok_0 == ids@[i].value,
            Err(e) => exists|i: int|
                0 <= i < texts@.len() && uuid_parse(#[trigger] texts@[i]@) is Err && (forall|k: int|
                    0 <= k < i ==> uuid_parse(#[trigger] texts@[k]@) is Ok) && binding_tells(
                    e,
                    bad_id("Invalid file uuid: "@, texts@[i]@),
                ),
        },
{
    let mut ids: Vec<Uuid> = Vec::new();
    for i in 0..texts.len()
        invariant
            ids@.len() == i,
            forall|k: int|
                0 <= k < i ==> uuid_parse(#[trigger] texts@[k]@) is Ok && uuid_parse(
                    texts@[k]@,
                )->Ok_0 == ids@[k].value,
    {
        match id_argument("Invalid file uuid: ", texts[i].as_str()) {
            Ok(id) => ids.push(id),
            Err(e) => {
                assert(uuid_parse(texts@[i as int]@) is Err);
                return Err(e);
            },
        }
    }
    Ok(ids)
}

} // verus!
