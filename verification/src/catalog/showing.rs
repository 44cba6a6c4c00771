//! That views show what values hold, field by field and item by item.

use vstd::prelude::*;

use super::commit::{
    commit_agrees, step_agrees, CommitBase, CommitOutcome, CommitVerdict, Step, StepOutcome,
};
use super::data_type::{type_debug_text, type_model, TypeModel};
use super::delta::{delta_agrees, lists_are_whole, NetView};
use super::error::{tells, CatalogError, ErrorView, Refusal};
use super::events::{change_views, event_views};
use super::evolution::{current_views, CurrentColumn};
use super::models::{
    ColumnSpec, PropertyKey, SchemaSpec, TableDelta, TableProperties, TableView, TxnEvent,
    TxnFileChange, TxnId,
};
use super::mutation::{key_texts, FileSpec, Mutation, MutationBuilder, MutationOp, OpView};
use super::read::ReadBase;
use super::schema::{column_views, file_views, Column, File, FileView, Schema};
use super::statements::{
    bind_views, column_rows, file_rows, inner_seqs, statement_views, Bind, BindView, ColumnInsert,
    FileInsert, Statement, StatementView,
};
use crate::json::{json_model, JsonModel};

verus! {

/// What an optional JSON value is shown as: nothing for none, and else the value.
pub open spec fn shows_json(shown: Option<JsonModel>, value: Option<serde_json::Value>) -> bool {
    match value {
        Some(v) => shown == Some(json_model(v)),
        None => shown is None,
    }
}

/// What an optional text is shown as: nothing for none, and else the text.
pub open spec fn shows_text(shown: Option<Seq<char>>, value: Option<String>) -> bool {
    match value {
        Some(s) => shown == Some(s@),
        None => shown is None,
    }
}

/// Files, columns, schemas and snapshots are shown with what their fields hold.
pub proof fn records_are_shown(f: File, c: Column, s: Schema, t: TableView)
    ensures
        ({
            &&& f@.file_uuid == f.file_uuid
            &&& f@.table_uuid == f.table_uuid
            &&& f@.file_format == f.file_format@
            &&& f@.file_path == f.file_path@
            &&& f@.record_count == f.record_count
            &&& f@.file_size_bytes == f.file_size_bytes
            &&& f@.added_in_transaction_id == f.added_in_transaction_id
            &&& f@.removed_in_transaction_id == f.removed_in_transaction_id
            &&& shows_json(f@.partition_values, f.partition_values)
            &&& shows_json(f@.format_options, f.format_options)
        }),
        ({
            &&& c@.column_uuid == c.column_uuid
            &&& c@.schema_uuid == c.schema_uuid
            &&& c@.column_name == c.column_name@
            &&& c@.column_type == type_model(c.column_type)
            &&& c@.ordinal_position == c.ordinal_position
            &&& c@.is_nullable == c.is_nullable
        }),
        ({
            &&& s@.schema_uuid == s.schema_uuid
            &&& s@.table_uuid == s.table_uuid
            &&& s@.schema_version == s.schema_version
            &&& s@.valid_from_transaction_id == s.valid_from_transaction_id
            &&& s@.valid_to_transaction_id == s.valid_to_transaction_id
            &&& s@.created_at == s.created_at
            &&& s@.columns.len() == s.columns@.len()
            &&& forall|i: int|
                0 <= i < s.columns@.len() ==> s@.columns[i] == (#[trigger] s.columns@[i])@
        }),
        ({
            &&& t@.namespace == t.ident.namespace@
            &&& t@.name == t.ident.name@
            &&& t@.table_uuid == t.table_uuid
            &&& t@.transaction_id == t.transaction_id
            &&& t@.schema == t.schema@
            &&& t@.properties == t.properties@
            &&& t@.stats == t.stats
            &&& t@.files.len() == t.files@.len()
            &&& forall|i: int|
                0 <= i < t.files@.len() ==> t@.files[i] == (#[trigger] t.files@[i])@
        }),
{
}

/// What is asked for is shown with what its fields hold, operation by operation.
pub proof fn requests_are_shown(
    f: FileSpec,
    c: ColumnSpec,
    s: SchemaSpec,
    m: Mutation,
    old: CurrentColumn,
    base: ReadBase,
    start: CommitBase,
)
    ensures
        ({
            &&& f@.file_uuid == f.file_uuid
            &&& f@.file_format == f.file_format
            &&& f@.file_path == f.file_path@
            &&& f@.record_count == f.record_count
            &&& f@.file_size_bytes == f.file_size_bytes
            &&& shows_json(f@.partition_values, f.partition_values)
            &&& shows_json(f@.format_options, f.format_options)
        }),
        c@.name == c.name@ && c@.column_type == type_model(c.column_type) && c@.is_nullable
            == c.is_nullable,
        old@.name == old.name@ && old@.column_type == type_model(old.column_type)
            && old@.is_nullable == old.is_nullable,
        s@.len() == s.columns@.len(),
        forall|i: int| 0 <= i < s.columns@.len() ==> s@[i] == (#[trigger] s.columns@[i])@,
        m@.len() == m.operations@.len(),
        forall|i: int| 0 <= i < m.operations@.len() ==> m@[i] == (#[trigger] m.operations@[i])@,
        base@.table_uuid == base.table_uuid,
        base@.transaction_id == base.transaction_id,
        start@.table_uuid == start.table_uuid,
        start@.current_schema_uuid == start.current_schema_uuid,
        start@.current_transaction_id == start.current_transaction_id,
        start@.properties == start.properties@,
{
}

/// An operation is shown as what it does, with all that it names, in order.
pub proof fn operations_are_shown(op: MutationOp, keys: Seq<PropertyKey>)
    ensures
        match op {
            MutationOp::AppendFiles(files) => op@ is AppendFiles && op@->AppendFiles_0.len()
                == files@.len() && forall|i: int|
                0 <= i < files@.len() ==> op@->AppendFiles_0[i] == (#[trigger] files@[i])@,
            MutationOp::DeleteFiles(uuids) => op@ == OpView::DeleteFiles(uuids@),
            MutationOp::UpdateSchema(schema) => op@ == OpView::UpdateSchema(schema@),
            MutationOp::SetProperties(properties) => op@ == OpView::SetProperties(properties@),
            MutationOp::RemoveProperties(keys) => op@ is RemoveProperties
                && op@->RemoveProperties_0.len() == keys@.len() && forall|i: int|
                0 <= i < keys@.len() ==> op@->RemoveProperties_0[i] == (#[trigger] keys@[i])@,
        },
        key_texts(keys).len() == keys.len(),
        forall|i: int| 0 <= i < keys.len() ==> key_texts(keys)[i] == (#[trigger] keys[i])@,
{
}

/// A builder puts each operation after those that it has, and stays with its table and transaction.
pub proof fn builders_add_at_the_end(b: MutationBuilder, r: MutationBuilder, op: OpView)
    requires
        b.extended(r, op),
    ensures
        r.ident == b.ident,
        r.base_transaction_id == b.base_transaction_id,
        r.mutation@.len() == b.mutation@.len() + 1,
        r.mutation@[b.mutation@.len() as int] == op,
        forall|i: int|
            0 <= i < b.mutation@.len() ==> r.mutation@[i] == #[trigger] b.mutation@[i],
{
}

/// Events are shown with what their fields hold, change by change.
pub proof fn events_are_shown(c: TxnFileChange, e: TxnEvent)
    ensures
        c@.transaction_id == c.transaction_id,
        c@.kind == c.kind,
        c@.file == c.file@,
        e@.transaction_id == e.transaction_id,
        e@.file_changes.len() == e.file_changes@.len(),
        forall|i: int|
            0 <= i < e.file_changes@.len() ==> e@.file_changes[i] == (
            #[trigger] e.file_changes@[i])@,
        match e.schema_change {
            Some(change) => e@.schema_change == Some((change.transaction_id, change.schema@)),
            None => e@.schema_change is None,
        },
{
}

/// Rows to insert are shown with what their fields hold, and parameters with their values.
pub proof fn inserts_are_shown(f: FileInsert, c: ColumnInsert, b: Bind)
    ensures
        ({
            &&& f@.file_uuid == f.file_uuid
            &&& f@.file_format == f.file_format
            &&& f@.file_path == f.file_path@
            &&& f@.record_count == f.record_count
            &&& f@.file_size_bytes == f.file_size_bytes
            &&& shows_text(f@.partition_values, f.partition_values)
            &&& shows_text(f@.format_options, f.format_options)
        }),
        ({
            &&& c@.column_uuid == c.column_uuid
            &&& c@.name == c.name@
            &&& c@.encoded_type == c.encoded_type@
            &&& c@.ordinal_position == c.ordinal_position
            &&& c@.is_nullable == c.is_nullable
        }),
        match b {
            Bind::Id(u) => b@ == BindView::Id(u),
            Bind::OptionalId(u) => b@ == BindView::OptionalId(u),
            Bind::Text(s) => b@ == BindView::Text(s@),
            Bind::OptionalText(s) => b@ is OptionalText && shows_text(b@->OptionalText_0, s),
            Bind::Bytes(bytes) => b@ == BindView::Bytes(bytes@),
            Bind::Long(n) => b@ == BindView::Long(n),
            Bind::Int(n) => b@ == BindView::Int(n),
            Bind::Flag(flag) => b@ == BindView::Flag(flag),
            Bind::Time(t) => b@ == BindView::Time(t),
        },
{
}

/// Lists are shown item by item, in order.
pub proof fn lists_are_shown(
    files: Seq<File>,
    columns: Seq<Column>,
    changes: Seq<TxnFileChange>,
    events: Seq<TxnEvent>,
    current: Seq<CurrentColumn>,
    i: int,
)
    ensures
        file_views(files).len() == files.len(),
        0 <= i < files.len() ==> file_views(files)[i] == files[i]@,
        column_views(columns).len() == columns.len(),
        0 <= i < columns.len() ==> column_views(columns)[i] == columns[i]@,
        change_views(changes).len() == changes.len(),
        0 <= i < changes.len() ==> change_views(changes)[i] == changes[i]@,
        event_views(events).len() == events.len(),
        0 <= i < events.len() ==> event_views(events)[i] == events[i]@,
        current_views(current).len() == current.len(),
        0 <= i < current.len() ==> current_views(current)[i] == current[i]@,
{
}

/// What is to be written is shown item by item, in order.
pub proof fn writes_are_shown<T>(
    statements: Seq<Statement>,
    binds: Seq<Bind>,
    columns: Seq<ColumnInsert>,
    files: Seq<FileInsert>,
    pieces: Seq<Vec<T>>,
    i: int,
)
    ensures
        statement_views(statements).len() == statements.len(),
        0 <= i < statements.len() ==> statement_views(statements)[i] == statements[i]@,
        bind_views(binds).len() == binds.len(),
        0 <= i < binds.len() ==> bind_views(binds)[i] == binds[i]@,
        column_rows(columns).len() == columns.len(),
        0 <= i < columns.len() ==> column_rows(columns)[i] == columns[i]@,
        file_rows(files).len() == files.len(),
        0 <= i < files.len() ==> file_rows(files)[i] == files[i]@,
        inner_seqs(pieces).len() == pieces.len(),
        0 <= i < pieces.len() ==> inner_seqs(pieces)[i] == pieces[i]@,
{
}

/// Statements are shown with what their fields hold.
pub proof fn statements_are_shown(s: Statement)
    ensures
        match s {
            Statement::InsertTable {
                table_uuid,
                name,
                namespace,
                location,
                created_at,
                properties,
                min_reader_version,
                min_writer_version,
            } => s@ == (StatementView::InsertTable {
                table_uuid,
                name: name@,
                namespace: namespace@,
                location: location@,
                created_at,
                properties: properties@,
                min_reader_version,
                min_writer_version,
            }),
            Statement::InsertTransaction { transaction_id, table_uuid, timestamp, parent } => s@
                == (StatementView::InsertTransaction {
                transaction_id,
                table_uuid,
                timestamp,
                parent,
            }),
            Statement::InsertProperties { transaction_id, table_uuid, properties } => s@ == (
            StatementView::InsertProperties {
                transaction_id,
                table_uuid,
                properties: properties@,
            }),
            Statement::InsertSchema {
                schema_uuid,
                table_uuid,
                schema_version,
                valid_from,
                created_at,
            } => s@ == (StatementView::InsertSchema {
                schema_uuid,
                table_uuid,
                schema_version,
                valid_from,
                created_at,
            }),
            Statement::CloseSchema { schema_uuid, valid_to } => s@ == (
            StatementView::CloseSchema { schema_uuid, valid_to }),
            Statement::InsertColumns { schema_uuid, rows } => s@ == (
            StatementView::InsertColumns { schema_uuid, rows: column_rows(rows@) }),
            Statement::InsertFiles { table_uuid, transaction_id, rows } => s@ == (
            StatementView::InsertFiles { table_uuid, transaction_id, rows: file_rows(rows@) }),
            Statement::DeleteFiles { table_uuid, transaction_id, file_uuids } => s@ == (
            StatementView::DeleteFiles { table_uuid, transaction_id, file_uuids: file_uuids@ }),
            Statement::SetHead { table_uuid, schema_uuid, transaction_id } => s@ == (
            StatementView::SetHead { table_uuid, schema_uuid, transaction_id }),
            Statement::UpdateTable { table_uuid, transaction_id, schema_uuid, properties } => s@
                == (StatementView::UpdateTable {
                table_uuid,
                transaction_id,
                schema_uuid,
                properties: properties@,
            }),
        },
{
}

/// Errors are shown as what they are, with what they carry.
pub proof fn errors_are_shown(e: CatalogError)
    ensures
        match e {
            CatalogError::NotFound(s) => e@ == ErrorView::NotFound(s@),
            CatalogError::Conflict(s) => e@ == ErrorView::Conflict(s@),
            CatalogError::LimitExceeded(s) => e@ == ErrorView::LimitExceeded(s@),
            CatalogError::InvalidArgument(s) => e@ == ErrorView::InvalidArgument(s@),
            CatalogError::ProtocolVersionIncompatible {
                operation,
                table,
                client_version,
                required_min_version,
            } => e@ == (ErrorView::ProtocolVersionIncompatible {
                operation: operation@,
                table: table@,
                client_version,
                required_min_version,
            }),
            CatalogError::NotYetImplemented(s) => e@ == ErrorView::NotYetImplemented(s@),
            CatalogError::Storage(s) => e@ == ErrorView::Storage(s@),
            CatalogError::Arrow(s) => e@ == ErrorView::Arrow(s@),
        },
{
}

/// A difference says what it is between, has the net of the changes in between, and the schema and
/// properties that it was given.
pub proof fn differences_are_shown(
    delta: TableDelta,
    from: TxnId,
    to: TxnId,
    net: NetView,
    new_schema: Option<Schema>,
    new_properties: Option<TableProperties>,
    file: FileView,
)
    requires
        delta_agrees(delta, from, to, net, new_schema, new_properties),
    ensures
        delta.from_transaction_id == from,
        delta.to_transaction_id == to,
        file_views(delta.added_files@).contains(file) <==> net.added.dom().contains(file.file_uuid)
            && net.added[file.file_uuid] == file,
        file_views(delta.removed_files@).contains(file) <==> net.removed.dom().contains(
            file.file_uuid,
        ) && net.removed[file.file_uuid] == file,
        file_views(delta.added_files@).no_duplicates(),
        file_views(delta.removed_files@).no_duplicates(),
        delta.new_schema == new_schema,
        delta.new_properties == new_properties,
{
    lists_are_whole(file_views(delta.added_files@), net.added, file);
    lists_are_whole(file_views(delta.removed_files@), net.removed, file);
}

/// A commit comes to what it should: it is planned with the statements that are wanted, under its
/// own transaction, and refused only where it should be, with the error that says why.
pub proof fn commits_are_shown(verdict: CommitVerdict, id: TxnId, wanted: CommitOutcome)
    requires
        commit_agrees(verdict, id, wanted),
    ensures
        match wanted {
            CommitOutcome::Planned(statements) => {
                &&& verdict matches CommitVerdict::Planned(plan)
                &&& plan.transaction_id == id
                &&& plan.statements@.len() == statements.len()
                &&& forall|i: int|
                    0 <= i < statements.len() ==> #[trigger] statements[i]
                        == plan.statements@[i]@
            },
            CommitOutcome::NeedsSchema(uuid) => verdict == CommitVerdict::NeedsSchema(uuid),
            CommitOutcome::Refused(Refusal::Exact(why)) => verdict matches CommitVerdict::Refused(e)
                && e@ == why,
            CommitOutcome::Refused(_) => verdict is Refused,
            CommitOutcome::Panics => verdict is Panics,
        },
{
}

/// A step of a commit comes to what it should.
pub proof fn steps_are_shown(step: Step, wanted: StepOutcome)
    requires
        step_agrees(step, wanted),
    ensures
        match wanted {
            StepOutcome::Next(end) => {
                &&& step matches Step::Next(plan)
                &&& plan.used == end.used
                &&& plan.schema_uuid == end.schema_uuid
                &&& plan.properties@ == end.properties
                &&& statement_views(plan.statements@) == end.statements
            },
            StepOutcome::NeedsSchema(uuid) => step == Step::NeedsSchema(uuid),
            StepOutcome::Refused(Refusal::Exact(why)) => step matches Step::Refused(e) && e@ == why,
            StepOutcome::Refused(_) => step is Refused,
            StepOutcome::Panics => step is Panics,
        },
{
}

/// An error tells of a refusal in its words. One that tells of a change of type names the column,
/// the type that it has and the one that it should have; types without fields go by their text.
pub proof fn refusals_are_shown(
    e: CatalogError,
    why: ErrorView,
    column: Seq<char>,
    from: TypeModel,
    to: TypeModel,
)
    ensures
        tells(e, Refusal::Exact(why)) <==> e@ == why,
        (from is Scalar || from is Timestamp) && (to is Scalar || to is Timestamp) && tells(
            e,
            Refusal::CannotEvolve { column, from, to },
        ) ==> e@ == ErrorView::InvalidArgument(
            "invalid schema evolution for column '"@ + column + "': cannot evolve "@
                + type_debug_text(from) + " to "@ + type_debug_text(to),
        ),
{
}

} // verus!
