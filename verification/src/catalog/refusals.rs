//! What the catalog says of that which it refuses: each refusal is of the first thing that is wrong,
//! and names it.

use vstd::prelude::*;

use super::commit::{
    apply_op, base_conflict, base_of, mutation_flaw, out_of_order, CommitEnv, PlanView, StepOutcome,
};
use super::create::{create_outcome, current_transaction_of, drop_outcome, CreateRequest};
use super::data_type::{evolves, storable};
use super::error::{error_text, ErrorView, Refusal};
use super::evolution::{
    columns_change_flaw, current_of, first_dropped, has_column, schema_change_flaw,
};
use super::helpers::{byte_len, id_after, parsed_properties, parsed_uuid, serialized};
use super::history::row_tells_table;
use super::models::{
    blank_key, ident_text, names_flaw, not_an_object, schema_flaw, ColumnSpecView, TableIdent,
    TxnId,
};
use super::mutation::{
    file_judgement, first_repeat, no_repeat_means_distinct, op_flaw, ops_flaw, FileSpecView,
    Judgement, OpView,
};
use super::protocol::ProtocolVersions;
use super::read::{newer_than_current, no_schema_at, too_many};
use super::relations::{head, Relations};
use super::rows::{Outcome, TableRow};
use super::rules::{keeps_data, named_is_there};
use super::statements::StatementView;
use crate::ids::{hyphenated, Uuid};
use crate::json::{json_text, JsonModel, JsonObject};
use crate::text::{blank, decimal_text, signed_text};

verus! {

/// The refusal of an argument, in these words.
pub open spec fn says(e: ErrorView, words: Seq<char>) -> bool {
    e == ErrorView::InvalidArgument(words)
}

/// A commit is let through exactly if the client is not too old for the table, the properties on
/// record can be read and the transaction that it was made on is the current one. It then goes on
/// from the current transaction, schema and properties of that table.
pub proof fn writes_go_on_from_the_current_state(
    db: Relations,
    table_uuid: Uuid,
    protocol: ProtocolVersions,
    ident: TableIdent,
    base: TxnId,
    row: TableRow,
)
    requires
        row_tells_table(row, db, table_uuid),
        head(db, table_uuid) is Some,
    ensures
        ({
            let t = db.tables[table_uuid];
            let current = head(db, table_uuid)->0;
            let r = base_of(protocol, ident, base, Some(row));
            &&& r is Ok <==> protocol.writer >= t.min_writer_version && base == current
                && parsed_properties(Some(t.properties)) is Ok
            &&& r matches Ok(view) ==> {
                &&& view.table_uuid == table_uuid
                &&& view.current_transaction_id == current
                &&& view.current_schema_uuid == t.schema_uuid
                &&& parsed_properties(Some(t.properties)) == std::result::Result::<
                    JsonObject,
                    ErrorView,
                >::Ok(view.properties)
            }
            &&& base_of(protocol, ident, base, None) is Err
        }),
{
}

/// The current transaction of a table is the one on record. A table that is not there is missed.
pub proof fn current_transactions_are_told(
    db: Relations,
    table_uuid: Uuid,
    ident: TableIdent,
    row: TableRow,
)
    requires
        row_tells_table(row, db, table_uuid),
        head(db, table_uuid) is Some,
    ensures
        current_transaction_of(ident, Some(row.current_transaction_id)) == std::result::Result::<
            TxnId,
            ErrorView,
        >::Ok(head(db, table_uuid)->0),
        current_transaction_of(ident, Some(None)) == std::result::Result::<TxnId, ErrorView>::Err(
            ErrorView::InvalidArgument("table has no current transaction"@),
        ),
        current_transaction_of(ident, None) == std::result::Result::<TxnId, ErrorView>::Err(
            ErrorView::NotFound(ident.namespace@ + "."@ + ident.name@),
        ),
{
}

/// A table is dropped exactly if there was one to drop.
pub proof fn drops_need_a_table(ident: TableIdent, affected: nat)
    ensures
        drop_outcome(ident, affected) is Ok <==> affected > 0,
        drop_outcome(ident, 0) == std::result::Result::<(), ErrorView>::Err(
            ErrorView::NotFound(ident.namespace@ + "."@ + ident.name@),
        ),
{
}

/// A transaction comes after the one before it. It is the drawn one where that does, and else the
/// very next; there is none only after the last.
pub proof fn ids_come_after_their_base(drawn: TxnId, base: TxnId)
    ensures
        id_after(drawn, base) matches Some(id) ==> id.value > base.value && (id == drawn
            || id.value - base.value == 1),
        drawn.value > base.value ==> id_after(drawn, base) == Some(drawn),
        id_after(drawn, base) is None <==> base.value
            == 0xffff_ffff_ffff_ffff_ffff_ffff_ffff_ffff,
{
}

/// What is refused for its repetition is there twice, and nothing is there twice before it.
pub proof fn repeats_are_found<T>(items: Seq<T>) -> (place: (int, int))
    requires
        first_repeat(items) is Some,
    ensures
        0 <= place.0 < place.1 < items.len(),
        items[place.0] == first_repeat(items)->0,
        items[place.1] == first_repeat(items)->0,
        items.take(place.1).no_duplicates(),
    decreases items.len(),
{
    let front = items.drop_last();
    if first_repeat(front) is Some {
        let place = repeats_are_found(front);
        assert(items.take(place.1) =~= front.take(place.1));
        assert(items[place.0] == front[place.0] && items[place.1] == front[place.1]);
        place
    } else {
        let i = choose|i: int| 0 <= i < front.len() && front[i] == items.last();
        no_repeat_means_distinct(front);
        assert(items.take(items.len() - 1) =~= front);
        (i, items.len() - 1)
    }
}

/// A name that a schema is refused for is blank or that of an earlier column, and the columns before
/// it have nothing wrong with them.
pub proof fn unsound_names_are_found(columns: Seq<ColumnSpecView>) -> (place: int)
    requires
        names_flaw(columns) is Some,
    ensures
        0 <= place < columns.len(),
        names_flaw(columns.take(place)) is None,
        ({
            let name = columns[place].name;
            let e = names_flaw(columns)->0;
            if blank(name) {
                says(e, "column name cannot be empty"@)
            } else {
                says(e, "duplicate column name: '"@ + name + "'"@) && exists|i: int|
                    0 <= i < place && (#[trigger] columns[i]).name == name
            }
        }),
    decreases columns.len(),
{
    let front = columns.drop_last();
    if names_flaw(front) is Some {
        let place = unsound_names_are_found(front);
        assert(columns.take(place) =~= front.take(place));
        assert(columns[place] == front[place]);
        if !blank(columns[place].name) {
            let i = choose|i: int| 0 <= i < place && (#[trigger] front[i]).name
                == front[place].name;
            assert(columns[i].name == columns[place].name);
        }
        place
    } else {
        assert(columns.take(columns.len() - 1) =~= front);
        assert(columns[columns.len() - 1] == columns.last());
        columns.len() - 1
    }
}

/// A schema is refused for having no columns, or too many, before anything else, and is told how
/// many it has and may have.
pub proof fn unsound_sizes_are_told(columns: Seq<ColumnSpecView>)
    ensures
        columns.len() == 0 ==> schema_flaw(columns) == Some(
            ErrorView::InvalidArgument("schema must include at least one column"@),
        ),
        columns.len() > 1_000 ==> schema_flaw(columns) == Some(
            ErrorView::LimitExceeded(
                "schema has "@ + decimal_text(columns.len()) + " columns, exceeds limit of "@
                    + decimal_text(1_000),
            ),
        ),
        1 <= columns.len() <= 1_000 ==> schema_flaw(columns) == names_flaw(columns),
{
}

/// A column that a schema change is refused for dropping is there, is not in the new schema, and is
/// the first such.
pub proof fn dropped_columns_are_found(
    current: Seq<ColumnSpecView>,
    new: Seq<ColumnSpecView>,
) -> (place: int)
    requires
        first_dropped(current, new) is Some,
    ensures
        0 <= place < current.len(),
        first_dropped(current, new) == Some(current[place].name),
        forall|j: int| 0 <= j < new.len() ==> (#[trigger] new[j]).name != current[place].name,
        forall|i: int| 0 <= i < place ==> has_column(new, (#[trigger] current[i]).name),
        schema_change_flaw(current, new) == Some(
            Refusal::Exact(
                ErrorView::InvalidArgument(
                    "cannot drop existing column '"@ + current[place].name
                        + "' via UpdateSchema"@,
                ),
            ),
        ),
    decreases current.len(),
{
    let front = current.drop_last();
    if first_dropped(front, new) is Some {
        let place = dropped_columns_are_found(front, new);
        assert(current[place] == front[place]);
        assert forall|i: int| 0 <= i < place implies has_column(
            new,
            (#[trigger] current[i]).name,
        ) by {
            assert(front[i] == current[i]);
        }
        place
    } else {
        let n = current.len() - 1;
        assert(current[n] == current.last());
        assert forall|i: int| 0 <= i < n implies has_column(new, (#[trigger] current[i]).name) by {
            if !has_column(new, current[i].name) {
                undropped_columns_are_kept(front, new, i);
            }
        }
        n
    }
}

proof fn undropped_columns_are_kept(
    current: Seq<ColumnSpecView>,
    new: Seq<ColumnSpecView>,
    i: int,
)
    requires
        first_dropped(current, new) is None,
        0 <= i < current.len(),
    ensures
        has_column(new, current[i].name),
    decreases current.len(),
{
    if i < current.len() - 1 {
        undropped_columns_are_kept(current.drop_last(), new, i);
    }
}

/// A column that a schema change is refused for has a current one of its name whose data it does not
/// keep, and is the first such. If their types are what is wrong, the refusal names the column, the
/// type that it has and the one that it should have.
pub proof fn lossy_changes_are_found(
    current: Seq<ColumnSpecView>,
    new: Seq<ColumnSpecView>,
) -> (place: (int, int))
    requires
        columns_change_flaw(current, new) is Some,
    ensures
        0 <= place.0 < current.len(),
        0 <= place.1 < new.len(),
        columns_change_flaw(current, new.take(place.1)) is None,
        ({
            let old = current[place.0];
            let then = new[place.1];
            &&& old.name == then.name
            &&& !keeps_data(old, then)
            &&& columns_change_flaw(current, new) == Some(
                if evolves(old.column_type, then.column_type) {
                    Refusal::Exact(
                        ErrorView::InvalidArgument(
                            "invalid schema evolution for column '"@ + then.name
                                + "': cannot change from nullable to non-nullable (existing nulls would violate constraint)"@,
                        ),
                    )
                } else {
                    Refusal::CannotEvolve {
                        column: then.name,
                        from: old.column_type,
                        to: then.column_type,
                    }
                },
            )
        }),
    decreases new.len(),
{
    let front = new.drop_last();
    if columns_change_flaw(current, front) is Some {
        let place = lossy_changes_are_found(current, front);
        assert(new.take(place.1) =~= front.take(place.1));
        assert(new[place.1] == front[place.1]);
        place
    } else {
        assert(new.take(new.len() - 1) =~= front);
        assert(new[new.len() - 1] == new.last());
        let i = named_is_there(current, new.last().name);
        (i, new.len() - 1)
    }
}

/// A mutation is refused for the first of its operations that has something wrong with it, given
/// those before it.
pub proof fn unsound_operations_are_found(ops: Seq<OpView>) -> (place: int)
    requires
        ops_flaw(ops) is Some,
    ensures
        0 <= place < ops.len(),
        ops_flaw(ops.take(place)) is None,
        ops_flaw(ops) == op_flaw(ops.take(place), ops[place]),
    decreases ops.len(),
{
    let front = ops.drop_last();
    if ops_flaw(front) is Some {
        let place = unsound_operations_are_found(front);
        assert(ops.take(place) =~= front.take(place));
        assert(ops[place] == front[place]);
        place
    } else {
        assert(ops.take(ops.len() - 1) =~= front);
        assert(ops[ops.len() - 1] == ops.last());
        ops.len() - 1
    }
}

/// What is said of a mutation: that it has no operations, or too many; that it would set the schema
/// or the properties a second time; and which file or key it names twice.
pub proof fn unsound_mutations_are_told(
    ops: Seq<OpView>,
    before: Seq<OpView>,
    i: int,
    columns: Seq<ColumnSpecView>,
    properties: JsonObject,
    uuids: Seq<Uuid>,
    keys: Seq<Seq<char>>,
)
    requires
        0 <= i < before.len(),
    ensures
        ops.len() == 0 ==> mutation_flaw(ops) == Some(
            ErrorView::InvalidArgument("mutation has no operations"@),
        ),
        ops.len() > 1_000 ==> mutation_flaw(ops) == Some(
            ErrorView::LimitExceeded(
                "mutation has "@ + decimal_text(ops.len()) + " operations, exceeds limit of "@
                    + decimal_text(1_000),
            ),
        ),
        1 <= ops.len() <= 1_000 ==> mutation_flaw(ops) == ops_flaw(ops),
        before[i] is UpdateSchema ==> op_flaw(before, OpView::UpdateSchema(columns)) == Some(
            ErrorView::InvalidArgument("mutation can include at most one UpdateSchema operation"@),
        ),
        before[i] is SetProperties ==> op_flaw(before, OpView::SetProperties(properties)) == Some(
            ErrorView::InvalidArgument("mutation can include at most one SetProperties operation"@),
        ),
        first_repeat(uuids) is Some ==> op_flaw(before, OpView::DeleteFiles(uuids)) == Some(
            ErrorView::InvalidArgument(
                "duplicate file UUID in DeleteFiles: "@ + hyphenated(
                    (first_repeat(uuids)->0).value as nat,
                ),
            ),
        ),
        first_repeat(keys) is Some ==> op_flaw(before, OpView::RemoveProperties(keys)) == Some(
            ErrorView::InvalidArgument(
                "duplicate property key in RemoveProperties: "@ + first_repeat(keys)->0,
            ),
        ),
{
}

/// What is said of an operation that is too large: how much it asks for, and what the limit is.
pub proof fn large_operations_are_told(
    env: CommitEnv,
    st: PlanView,
    files: Seq<FileSpecView>,
    uuids: Seq<Uuid>,
    keys: Seq<Seq<char>>,
)
    ensures
        files.len() > 1_000 ==> apply_op(env, st, OpView::AppendFiles(files))
            == StepOutcome::Refused(
            Refusal::Exact(
                ErrorView::LimitExceeded(
                    "cannot append "@ + decimal_text(files.len()) + " files, exceeds limit of "@
                        + decimal_text(1_000),
                ),
            ),
        ),
        uuids.len() > 1_000 ==> apply_op(env, st, OpView::DeleteFiles(uuids))
            == StepOutcome::Refused(
            Refusal::Exact(
                ErrorView::LimitExceeded(
                    "cannot delete "@ + decimal_text(uuids.len()) + " files, exceeds limit of "@
                        + decimal_text(1_000),
                ),
            ),
        ),
        keys.len() > 100 ==> apply_op(env, st, OpView::RemoveProperties(keys))
            == StepOutcome::Refused(
            Refusal::Exact(
                ErrorView::LimitExceeded(
                    "cannot remove "@ + decimal_text(keys.len())
                        + " property keys, exceeds limit of "@ + decimal_text(100),
                ),
            ),
        ),
{
    reveal(apply_op);
}

/// A schema is updated exactly if it is sound, the table has one that it may follow on from, and the
/// types of its columns can be stored. The table then goes by a fresh one, and as many fresh
/// identifiers are taken as it has columns, and one for itself.
pub proof fn schema_updates_are_carried_out(
    env: CommitEnv,
    st: PlanView,
    columns: Seq<ColumnSpecView>,
)
    ensures
        ({
            let r = apply_op(env, st, OpView::UpdateSchema(columns));
            let refused = |e: ErrorView| r == StepOutcome::Refused(Refusal::Exact(e));
            match (schema_flaw(columns), env.current_schema_uuid, env.schema) {
                (Some(e), _, _) => refused(e),
                (None, None, _) => refused(
                    ErrorView::InvalidArgument("cannot update schema without a current schema"@),
                ),
                (None, Some(uuid), None) => r == StepOutcome::NeedsSchema(uuid),
                (None, Some(_), Some(schema)) => match current_of(schema.columns@) {
                    Outcome::Panics => r is Panics,
                    Outcome::Refused(why) => r == StepOutcome::Refused(why),
                    Outcome::Done(current) => match schema_change_flaw(current, columns) {
                        Some(why) => r == StepOutcome::Refused(why),
                        None => {
                            &&& r is Next || r is Panics
                            &&& r is Next <==> schema.schema_version < i32::MAX && forall|i: int|
                                0 <= i < columns.len() ==> storable(
                                    (#[trigger] columns[i]).column_type,
                                )
                            &&& r matches StepOutcome::Next(end) ==> end.schema_uuid == Some(
                                env.ids@[st.used as int],
                            ) && end.used == st.used + 1 + columns.len() && end.properties
                                == st.properties
                        },
                    },
                },
            }
        }),
{
    reveal(apply_op);
}

/// What is said of a file that cannot be appended. Its path is looked at first, then its counts,
/// its partition values and its options.
pub proof fn unsound_files_are_told(f: FileSpecView)
    ensures
        ({
            let counted = !blank(f.file_path) && f.record_count >= 0 && f.file_size_bytes >= 0;
            let refused = |words: Seq<char>|
                file_judgement(f) == Judgement::Refused(ErrorView::InvalidArgument(words));
            &&& blank(f.file_path) ==> refused("file path cannot be empty"@)
            &&& !blank(f.file_path) && f.record_count < 0 ==> refused(
                "record_count cannot be negative"@,
            )
            &&& !blank(f.file_path) && f.record_count >= 0 && f.file_size_bytes < 0 ==> refused(
                "file_size_bytes cannot be negative"@,
            )
            &&& counted && f.partition_values is Some && !(f.partition_values->0 is Object)
                ==> refused("partition_values must be a JSON object"@)
            &&& counted && f.partition_values is None && f.format_options is Some && !(
            f.format_options->0 is Object) ==> refused("format_options must be a JSON object"@)
        }),
{
}

/// A table is not created a second time, and a schema that is unsound is refused before that is
/// looked at.
pub proof fn tables_are_created_once(request: CreateRequest)
    ensures
        schema_flaw(request.schema@) is None ==> create_outcome(request, true) == Outcome::<
            Seq<super::statements::StatementView>,
        >::Refused(
            Refusal::Exact(
                ErrorView::Conflict(
                    "table already exists: "@ + request.ident.namespace@ + "."@
                        + request.ident.name@,
                ),
            ),
        ),
        schema_flaw(request.schema@) matches Some(e) ==> forall|exists: bool|
            #[trigger] create_outcome(request, exists) == Outcome::<
                Seq<super::statements::StatementView>,
            >::Refused(Refusal::Exact(e)),
{
    assert("table already exists: "@ + ident_text(*request.ident) =~= "table already exists: "@
        + request.ident.namespace@ + "."@ + request.ident.name@);
}

/// The words of the refusals that tell of transactions, sizes, identifiers and properties.
pub proof fn refusals_say_what_they_are_of(
    ident: TableIdent,
    a: TxnId,
    b: TxnId,
    what: Seq<char>,
    limit: u32,
    m: JsonModel,
    bytes: Seq<u8>,
)
    ensures
        base_conflict(a, b) == ErrorView::Conflict(
            "base transaction "@ + hyphenated(a.value as nat) + " does not match current "@
                + hyphenated(b.value as nat),
        ),
        out_of_order(a, b) == ErrorView::Conflict(
            "transaction "@ + hyphenated(a.value as nat) + " does not come after current "@
                + hyphenated(b.value as nat),
        ),
        no_schema_at(ident, a) == ErrorView::NotFound(
            "no schema for "@ + ident.namespace@ + "."@ + ident.name@ + " at transaction "@
                + hyphenated(a.value as nat),
        ),
        too_many(what, limit) == ErrorView::LimitExceeded(what + decimal_text(limit as nat)),
        newer_than_current() == ErrorView::InvalidArgument(
            "requested transaction is newer than current"@,
        ),
        not_an_object() == ErrorView::InvalidArgument("table properties must be a JSON object"@),
        blank_key() == ErrorView::InvalidArgument("property key cannot be empty"@),
        byte_len(json_text(m)) > 1_048_576 ==> serialized(m) == std::result::Result::<
            Seq<char>,
            ErrorView,
        >::Err(
            ErrorView::LimitExceeded(
                "JSON size "@ + decimal_text(byte_len(json_text(m)) as nat)
                    + " bytes exceeds limit of "@ + decimal_text(1_048_576) + " bytes"@,
            ),
        ),
        bytes.len() != 16 ==> parsed_uuid(bytes) == std::result::Result::<Uuid, ErrorView>::Err(
            ErrorView::InvalidArgument(
                "invalid uuid: "@ + ("invalid length: expected 16 bytes, found "@ + decimal_text(
                    bytes.len(),
                )),
            ),
        ),
{
    assert(no_schema_at(ident, a)->NotFound_0 =~= "no schema for "@ + ident.namespace@ + "."@
        + ident.name@ + " at transaction "@ + hyphenated(a.value as nat));
}

/// A client that is too old is told what it tried, on which table, its version and the one that it
/// would need.
pub proof fn old_clients_are_told(
    operation: Seq<char>,
    table: Seq<char>,
    client_version: i32,
    required_min_version: i32,
)
    ensures
        error_text(
            ErrorView::ProtocolVersionIncompatible {
                operation,
                table,
                client_version,
                required_min_version,
            },
        ) == "incompatible "@ + operation + " protocol for table "@ + table + ": client="@
            + signed_text(client_version as int) + ", required_min="@ + signed_text(
            required_min_version as int,
        ),
{
}

} // verus!
