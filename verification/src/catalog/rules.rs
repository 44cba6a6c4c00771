//! What the catalog takes and what it refuses, in plain terms.

use vstd::prelude::*;

use super::commit::{
    append_rows, apply_op, base_conflict, mutation_flaw, no_current_transaction, out_of_order,
    over_limit, table_not_found, CommitEnv, PlanView, StepOutcome,
};
use super::error::{error_text, ErrorView};
use super::events::{
    added_outcome, changes_of, events_base_of, ids_of, removed_outcome, start_outcome,
    EventTableRow, EventView,
};
use super::evolution::{
    accepted_change_keeps_columns, accepted_change_keeps_data_readable, column_change_flaw,
    column_named, columns_change_flaw, first_dropped, has_column, schema_change_flaw,
};
use super::data_type::evolves;
use super::helpers::{
    byte_len, bytes_option, json_too_large, parsed_json, parsed_properties, parsed_uuid,
    parsed_uuid_option, serialized,
    serialized_option,
};
use super::history::row_tells_table;
use super::models::{
    ident_text, names_flaw, schema_flaw, sound_names_differ, ColumnSpecView, TableIdent, TxnId,
    TxnFileChangeKind, TxnRangeCursor,
};
use super::mutation::{
    file_judgement, first_repeat, options_judgement, ops_flaw, sound_mutation, FileSpecView, OpView,
};
use super::protocol::{protocol_flaw, ProtocolVersions};
use super::read::{
    newer_than_current, no_schema_at, read_base_of, read_files_outcome, read_schema_outcome,
    too_many,
};
use super::relations::{head, Relations};
use super::rows::{files_of, ColumnRow, FileRow, SchemaRow, TableRow};
use crate::ids::Uuid;
use crate::json::{json_parse, json_text, JsonModel, JsonObject};
use crate::text::blank;

verus! {

/// A client may do what it asks for exactly if its version is not below the lowest that the table
/// takes, and is told both versions if it is.
pub proof fn versions_decide(operation: Seq<char>, ident: TableIdent, client: i32, lowest: i32)
    ensures
        protocol_flaw(operation, ident, client, lowest) is None <==> client >= lowest,
        client < lowest ==> protocol_flaw(operation, ident, client, lowest) == Some(
            ErrorView::ProtocolVersionIncompatible {
                operation,
                table: ident_text(ident),
                client_version: client,
                required_min_version: lowest,
            },
        ),
{
}

proof fn different_names_are_sound(columns: Seq<ColumnSpecView>)
    requires
        forall|i: int| 0 <= i < columns.len() ==> !blank((#[trigger] columns[i]).name),
        forall|i: int, j: int|
            0 <= i < j < columns.len() ==> (#[trigger] columns[i]).name != (
            #[trigger] columns[j]).name,
    ensures
        names_flaw(columns) is None,
    decreases columns.len(),
{
    if columns.len() > 0 {
        let front = columns.drop_last();
        assert forall|i: int| 0 <= i < front.len() implies !blank((#[trigger] front[i]).name) by {
            assert(front[i] == columns[i]);
        }
        assert forall|i: int, j: int| 0 <= i < j < front.len() implies (#[trigger] front[i]).name
            != (#[trigger] front[j]).name by {
            assert(columns[i].name != columns[j].name);
        }
        different_names_are_sound(front);
        assert(!blank(columns[columns.len() - 1].name));
        assert forall|i: int| 0 <= i < columns.len() - 1 implies (#[trigger] columns[i]).name
            != columns.last().name by {
            assert(columns[i].name != columns[columns.len() - 1].name);
        }
    }
}

/// A schema is taken exactly if it has from 1 to 1,000 columns, and their names are not blank and
/// differ from each other.
pub proof fn sound_schemas_are_taken(columns: Seq<ColumnSpecView>)
    ensures
        schema_flaw(columns) is None <==> {
            &&& 1 <= columns.len() <= 1_000
            &&& forall|i: int| 0 <= i < columns.len() ==> !blank((#[trigger] columns[i]).name)
            &&& forall|i: int, j: int|
                0 <= i < j < columns.len() ==> (#[trigger] columns[i]).name != (
                #[trigger] columns[j]).name
        },
{
    if schema_flaw(columns) is None {
        sound_names_differ(columns);
    }
    if (forall|i: int| 0 <= i < columns.len() ==> !blank((#[trigger] columns[i]).name)) && (forall|
        i: int,
        j: int,
    |
        0 <= i < j < columns.len() ==> (#[trigger] columns[i]).name != (
        #[trigger] columns[j]).name) {
        different_names_are_sound(columns);
    }
}

proof fn distinct_means_no_repeat<T>(items: Seq<T>)
    requires
        items.no_duplicates(),
    ensures
        first_repeat(items) is None,
    decreases items.len(),
{
    if items.len() > 0 {
        let front = items.drop_last();
        distinct_means_no_repeat(front);
        if front.contains(items.last()) {
            let i = choose|i: int| 0 <= i < front.len() && front[i] == items.last();
            assert(items[i] == items[items.len() - 1]);
        }
    }
}

/// An operation has nothing wrong with it, whatever it stands with.
pub open spec fn names_nothing_twice(op: OpView) -> bool {
    match op {
        OpView::DeleteFiles(uuids) => uuids.no_duplicates(),
        OpView::RemoveProperties(keys) => keys.no_duplicates(),
        _ => true,
    }
}

/// At most one operation sets the schema, and at most one the properties.
pub open spec fn sets_each_once(ops: Seq<OpView>) -> bool {
    &&& forall|i: int, j: int|
        0 <= i < j < ops.len() && #[trigger] ops[i] is UpdateSchema ==> !(
        #[trigger] ops[j] is UpdateSchema)
    &&& forall|i: int, j: int|
        0 <= i < j < ops.len() && #[trigger] ops[i] is SetProperties ==> !(
        #[trigger] ops[j] is SetProperties)
}

proof fn sound_ops_have_no_flaw(ops: Seq<OpView>)
    requires
        sets_each_once(ops),
        forall|i: int| 0 <= i < ops.len() ==> names_nothing_twice(#[trigger] ops[i]),
    ensures
        ops_flaw(ops) is None,
    decreases ops.len(),
{
    if ops.len() > 0 {
        let front = ops.drop_last();
        let n = ops.len() - 1;
        assert forall|i: int| 0 <= i < front.len() implies names_nothing_twice(
            #[trigger] front[i],
        ) by {
            assert(front[i] == ops[i]);
        }
        assert forall|i: int, j: int|
            0 <= i < j < front.len() && #[trigger] front[i] is UpdateSchema implies !(
        #[trigger] front[j] is UpdateSchema) by {
            assert(ops[i] is UpdateSchema && front[j] == ops[j]);
        }
        assert forall|i: int, j: int|
            0 <= i < j < front.len() && #[trigger] front[i] is SetProperties implies !(
        #[trigger] front[j] is SetProperties) by {
            assert(ops[i] is SetProperties && front[j] == ops[j]);
        }
        sound_ops_have_no_flaw(front);
        assert(ops[n] == ops.last());
        assert(names_nothing_twice(ops[n]));
        match ops.last() {
            OpView::DeleteFiles(uuids) => distinct_means_no_repeat(uuids),
            OpView::RemoveProperties(keys) => distinct_means_no_repeat(keys),
            OpView::UpdateSchema(_) => {
                if exists|i: int| 0 <= i < front.len() && #[trigger] front[i] is UpdateSchema {
                    let i = choose|i: int| 0 <= i < front.len() && #[trigger] front[i] is UpdateSchema;
                    assert(ops[i] is UpdateSchema);
                }
            },
            OpView::SetProperties(_) => {
                if exists|i: int| 0 <= i < front.len() && #[trigger] front[i] is SetProperties {
                    let i = choose|i: int|
                        0 <= i < front.len() && #[trigger] front[i] is SetProperties;
                    assert(ops[i] is SetProperties);
                }
            },
            _ => {},
        }
    }
}

/// A mutation is taken exactly if it has from 1 to 1,000 operations, at most one of them sets the
/// schema and at most one the properties, and none names a file to delete or a key to remove
/// twice.
pub proof fn sound_mutations_are_taken(ops: Seq<OpView>)
    ensures
        mutation_flaw(ops) is None <==> {
            &&& 1 <= ops.len() <= 1_000
            &&& sets_each_once(ops)
            &&& forall|i: int| 0 <= i < ops.len() ==> names_nothing_twice(#[trigger] ops[i])
        },
{
    if ops_flaw(ops) is None {
        sound_mutation(ops);
        assert forall|i: int| 0 <= i < ops.len() implies names_nothing_twice(#[trigger] ops[i]) by {}
    }
    if sets_each_once(ops) && (forall|i: int|
        0 <= i < ops.len() ==> names_nothing_twice(#[trigger] ops[i])) {
        sound_ops_have_no_flaw(ops);
    }
}

/// A file may be appended exactly if its path is not blank, its counts are not negative, its
/// partition values and its options are JSON objects where there are any, and its format takes
/// the options.
pub proof fn sound_files_are_taken(f: FileSpecView)
    ensures
        file_judgement(f) is Fine <==> {
            &&& !blank(f.file_path)
            &&& f.record_count >= 0
            &&& f.file_size_bytes >= 0
            &&& (f.partition_values matches Some(v) ==> v is Object)
            &&& (f.format_options matches Some(v) ==> v is Object && options_judgement(
                f.file_format,
                v,
            ) is Fine)
        },
{
}

/// A JSON text may be stored if it has at most 1,048,576 bytes.
pub proof fn short_json_is_taken(m: JsonModel)
    ensures
        serialized(m) is Ok <==> byte_len(json_text(m)) <= 1_048_576,
        serialized(m) matches Ok(text) ==> text == json_text(m),
        byte_len(json_text(m)) > 1_048_576 ==> parsed_json(Some(json_text(m))) is Err,
{
}

/// No text stands for no properties, and a text for those of the object that it holds. A text of
/// anything else is refused.
pub proof fn properties_are_objects(text: Seq<char>)
    ensures
        parsed_properties(None) matches Ok(none) && none.dom() == Set::<Seq<char>>::empty(),
        parsed_json(None) == std::result::Result::<Option<JsonModel>, ErrorView>::Ok(None),
        byte_len(text) <= 1_048_576 ==> match json_parse(text) {
            Ok(JsonModel::Object(object)) => parsed_properties(Some(text))
                == std::result::Result::<JsonObject, ErrorView>::Ok(object),
            Ok(_) => parsed_properties(Some(text)) == std::result::Result::<
                JsonObject,
                ErrorView,
            >::Err(ErrorView::InvalidArgument("table properties must be a JSON object"@)),
            Err(e) => parsed_properties(Some(text)) == std::result::Result::<
                JsonObject,
                ErrorView,
            >::Err(ErrorView::InvalidArgument("invalid json: "@ + e)),
        },
        byte_len(text) > 1_048_576 ==> parsed_json(Some(text)) is Err,
{
}

/// A file has JSON that may be stored.
pub open spec fn json_fits(f: FileSpecView) -> bool {
    serialized_option(f.partition_values) is Ok && serialized_option(f.format_options) is Ok
}

proof fn rows_come_of_sound_files(files: Seq<FileSpecView>, ids: Seq<Uuid>, used: nat)
    ensures
        append_rows(files, ids, used) is Done <==> forall|i: int|
            0 <= i < files.len() ==> file_judgement(#[trigger] files[i]) is Fine && json_fits(
                files[i],
            ),
    decreases files.len(),
{
    if files.len() > 0 {
        let front = files.drop_last();
        let n = files.len() - 1;
        rows_come_of_sound_files(front, ids, used);
        assert(files[n] == files.last());
        assert forall|i: int| 0 <= i < front.len() implies front[i] == #[trigger] files[i] by {}
        if !(append_rows(front, ids, used) is Done) {
            let i = choose|i: int|
                0 <= i < front.len() && !(file_judgement(#[trigger] front[i]) is Fine && json_fits(
                    front[i],
                ));
            assert(files[i] == front[i]);
        }
    }
}

/// An operation is carried out if it is not too large and has nothing wrong with it: at most 1,000
/// files are appended, all of them sound, at most 1,000 are deleted, and at most 100 properties
/// removed.
pub proof fn sound_operations_are_carried_out(
    env: CommitEnv,
    st: PlanView,
    files: Seq<FileSpecView>,
    uuids: Seq<Uuid>,
    keys: Seq<Seq<char>>,
    properties: JsonObject,
)
    ensures
        apply_op(env, st, OpView::AppendFiles(files)) is Next <==> files.len() <= 1_000 && forall|
            i: int,
        |
            0 <= i < files.len() ==> file_judgement(#[trigger] files[i]) is Fine && json_fits(
                files[i],
            ),
        apply_op(env, st, OpView::DeleteFiles(uuids)) is Next <==> uuids.len() <= 1_000,
        apply_op(env, st, OpView::RemoveProperties(keys)) is Next <==> keys.len() <= 100,
        apply_op(env, st, OpView::SetProperties(properties)) is Next,
{
    reveal(apply_op);
    rows_come_of_sound_files(files, env.ids@, st.used);
}

/// Setting the properties of a table replaces them all, removing some leaves the others as they
/// are, and no other operation touches them. The schema is touched by its own operation alone.
pub proof fn operations_keep_to_their_matter(env: CommitEnv, st: PlanView, op: OpView)
    ensures
        apply_op(env, st, op) matches StepOutcome::Next(end) ==> {
            &&& op matches OpView::SetProperties(properties) ==> end.properties == properties
            &&& op matches OpView::RemoveProperties(keys) ==> forall|k: Seq<char>|
                #![trigger end.properties.dom().contains(k)]
                {
                    &&& end.properties.dom().contains(k) <==> st.properties.dom().contains(k)
                        && !keys.contains(k)
                    &&& end.properties.dom().contains(k) ==> end.properties[k] == st.properties[k]
                }
            &&& !(op is SetProperties) && !(op is RemoveProperties) ==> end.properties
                == st.properties
            &&& !(op is UpdateSchema) ==> end.schema_uuid == st.schema_uuid
            &&& op is SetProperties || op is RemoveProperties ==> end.statements == st.statements
        },
{
    reveal(apply_op);
}

/// A table is read at the transaction that is asked for, or else at the current one. It is refused
/// exactly if the client is too old for it or the transaction is yet to come.
pub proof fn reads_go_where_they_are_told(
    db: Relations,
    table_uuid: Uuid,
    protocol: ProtocolVersions,
    ident: TableIdent,
    row: TableRow,
    at: Option<TxnId>,
)
    requires
        row_tells_table(row, db, table_uuid),
        head(db, table_uuid) is Some,
    ensures
        ({
            let current = head(db, table_uuid)->0;
            let r = read_base_of(protocol, ident, Some(row), at);
            &&& r is Ok <==> protocol.reader >= db.tables[table_uuid].min_reader_version && (
            at matches Some(id) ==> id.value <= current.value)
            &&& r matches Ok(view) ==> view.table_uuid == table_uuid && (at matches Some(id)
                ==> view.transaction_id == id) && (at is None ==> view.transaction_id == current)
            &&& protocol.reader >= db.tables[table_uuid].min_reader_version && r is Err
                ==> r->Err_0 == newer_than_current()
        }),
{
}

/// The events of a range can be asked for exactly if it ends no later than the current transaction
/// and no earlier than it starts.
pub proof fn events_are_asked_for_in_order(
    table_uuid: Uuid,
    current: TxnId,
    ident: TableIdent,
    row: EventTableRow,
    range: TxnRangeCursor,
)
    requires
        parsed_uuid(row.table_uuid@) == Result::<Uuid, ErrorView>::Ok(table_uuid),
        parsed_uuid_option(bytes_option(row.current_transaction_id)) == Result::<
            Option<Uuid>,
            ErrorView,
        >::Ok(Some(current)),
    ensures
        events_base_of(ident, Some(row), range) is Ok <==> range.to_inclusive.value
            <= current.value && (range.from_exclusive matches Some(from) ==> from.value
            <= range.to_inclusive.value),
        events_base_of(ident, Some(row), range) matches Ok(u) ==> u == table_uuid,
        events_base_of(ident, None, range) is Err,
{
}

proof fn kept_columns_are_not_dropped(current: Seq<ColumnSpecView>, new: Seq<ColumnSpecView>)
    requires
        forall|i: int| 0 <= i < current.len() ==> has_column(new, (#[trigger] current[i]).name),
    ensures
        first_dropped(current, new) is None,
    decreases current.len(),
{
    if current.len() > 0 {
        let front = current.drop_last();
        assert forall|i: int| 0 <= i < front.len() implies has_column(
            new,
            (#[trigger] front[i]).name,
        ) by {
            assert(front[i] == current[i]);
        }
        kept_columns_are_not_dropped(front, new);
        assert(has_column(new, current[current.len() - 1].name));
    }
}

/// A column of that name is found where there is one.
pub proof fn named_is_there(columns: Seq<ColumnSpecView>, name: Seq<char>) -> (i: int)
    requires
        column_named(columns, name) is Some,
    ensures
        0 <= i < columns.len(),
        columns[i].name == name,
        column_named(columns, name) == Some(columns[i]),
    decreases columns.len(),
{
    if columns.last().name == name {
        columns.len() - 1
    } else {
        let i = named_is_there(columns.drop_last(), name);
        assert(columns.drop_last()[i] == columns[i]);
        i
    }
}

/// A column keeps the data of another of its name readable.
pub open spec fn keeps_data(old: ColumnSpecView, new: ColumnSpecView) -> bool {
    evolves(old.column_type, new.column_type) && (old.is_nullable ==> new.is_nullable)
}

proof fn kept_data_has_no_flaw(current: Seq<ColumnSpecView>, new: Seq<ColumnSpecView>)
    requires
        forall|i: int, j: int|
            0 <= i < current.len() && 0 <= j < new.len() && (#[trigger] current[i]).name == (
            #[trigger] new[j]).name ==> keeps_data(current[i], new[j]),
    ensures
        columns_change_flaw(current, new) is None,
    decreases new.len(),
{
    if new.len() > 0 {
        let front = new.drop_last();
        let n = new.len() - 1;
        assert forall|i: int, j: int|
            0 <= i < current.len() && 0 <= j < front.len() && (#[trigger] current[i]).name == (
            #[trigger] front[j]).name implies keeps_data(current[i], front[j]) by {
            assert(front[j] == new[j]);
        }
        kept_data_has_no_flaw(current, front);
        assert(new[n] == new.last());
        if column_named(current, new.last().name) is Some {
            let i = named_is_there(current, new.last().name);
            assert(current[i].name == new[n].name);
            assert(column_change_flaw(current[i], new[n]) is None);
        }
    }
}

/// A schema may become another exactly if that has every column, with a type that the column's own
/// evolves to, and nullable where it was. Names differ within each of the two.
pub proof fn sound_schema_changes_are_taken(
    current: Seq<ColumnSpecView>,
    new: Seq<ColumnSpecView>,
)
    requires
        forall|i: int, j: int|
            0 <= i < j < current.len() ==> (#[trigger] current[i]).name != (
            #[trigger] current[j]).name,
    ensures
        schema_change_flaw(current, new) is None <==> {
            &&& forall|i: int|
                0 <= i < current.len() ==> exists|j: int|
                    0 <= j < new.len() && (#[trigger] new[j]).name == (#[trigger] current[i]).name
            &&& forall|i: int, j: int|
                0 <= i < current.len() && 0 <= j < new.len() && (#[trigger] current[i]).name == (
                #[trigger] new[j]).name ==> keeps_data(current[i], new[j])
        },
{
    if schema_change_flaw(current, new) is None {
        assert forall|i: int| 0 <= i < current.len() implies exists|j: int|
            0 <= j < new.len() && (#[trigger] new[j]).name == (#[trigger] current[i]).name by {
            accepted_change_keeps_columns(current, new, i);
        }
        assert forall|i: int, j: int|
            0 <= i < current.len() && 0 <= j < new.len() && (#[trigger] current[i]).name == (
            #[trigger] new[j]).name implies keeps_data(current[i], new[j]) by {
            accepted_change_keeps_data_readable(current, new, i, j);
        }
    }
    if (forall|i: int|
        0 <= i < current.len() ==> exists|j: int|
            0 <= j < new.len() && (#[trigger] new[j]).name == (#[trigger] current[i]).name) && (
    forall|i: int, j: int|
        0 <= i < current.len() && 0 <= j < new.len() && (#[trigger] current[i]).name == (
        #[trigger] new[j]).name ==> keeps_data(current[i], new[j])) {
        assert forall|i: int| 0 <= i < current.len() implies has_column(
            new,
            (#[trigger] current[i]).name,
        ) by {
            let j = choose|j: int|
                0 <= j < new.len() && (#[trigger] new[j]).name == current[i].name;
            assert(new[j].name == current[i].name);
        }
        kept_columns_are_not_dropped(current, new);
        kept_data_has_no_flaw(current, new);
    }
}

/// What is read stays within limits: 10,000 files, 1,000 columns, 50,000 transactions and 10,000
/// changes of files. Up to them nothing is refused for its number, and beyond them all is.
pub proof fn limits_are_kept(
    ident: TableIdent,
    at: TxnId,
    files: Seq<FileRow>,
    schema: Option<SchemaRow>,
    columns: Seq<ColumnRow>,
    transactions: Seq<Vec<u8>>,
    events: Seq<EventView>,
)
    ensures
        files.len() <= 10_000 ==> read_files_outcome(files) == files_of(files),
        files.len() > 10_000 ==> read_files_outcome(files) is Err,
        columns.len() > 1_000 ==> read_schema_outcome(ident, at, schema, columns) is Refused,
        transactions.len() > 50_000 ==> start_outcome(transactions) is Err,
        transactions.len() <= 50_000 ==> (start_outcome(transactions) is Ok <==> ids_of(
            transactions,
        ) is Ok),
        files.len() <= 10_000 ==> added_outcome(events, files) == changes_of(
            TxnFileChangeKind::Added,
            events,
            files,
        ),
        files.len() > 10_000 ==> added_outcome(events, files) is Err,
        files.len() <= 10_000 ==> removed_outcome(events, files) == changes_of(
            TxnFileChangeKind::Removed,
            events,
            files,
        ),
        files.len() > 10_000 ==> removed_outcome(events, files) is Err,
{
}

/// An error says what it is about, after what kind of error it is.
pub proof fn errors_say_what_they_carry(s: Seq<char>)
    ensures
        error_text(ErrorView::NotFound(s)) == "table not found: "@ + s,
        error_text(ErrorView::Conflict(s)) == "conflict on table: "@ + s,
        error_text(ErrorView::LimitExceeded(s)) == "limit exceeded: "@ + s,
        error_text(ErrorView::InvalidArgument(s)) == "invalid argument: "@ + s,
        error_text(ErrorView::NotYetImplemented(s)) == "feature not yet implemented: "@ + s,
        error_text(ErrorView::Storage(s)) == "storage error: "@ + s,
        error_text(ErrorView::Arrow(s)) == "arrow error: "@ + s,
{
}

/// What is missing, taken, stale or too large is refused as such.
pub proof fn refusals_are_of_their_kind(
    ident: TableIdent,
    a: TxnId,
    b: TxnId,
    what: Seq<char>,
    limit: u32,
    size: usize,
)
    ensures
        table_not_found(ident) == ErrorView::NotFound(ident_text(ident)),
        ident_text(ident) == ident.namespace@ + "."@ + ident.name@,
        no_schema_at(ident, a) is NotFound,
        base_conflict(a, b) is Conflict,
        out_of_order(a, b) is Conflict,
        too_many(what, limit) is LimitExceeded,
        json_too_large(size) is LimitExceeded,
        over_limit(what, 0, what, limit) is LimitExceeded,
        newer_than_current() is InvalidArgument,
        no_current_transaction() is InvalidArgument,
{
}

} // verus!
