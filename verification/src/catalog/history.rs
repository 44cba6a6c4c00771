//! What holds of the catalog from one commit to the next.

use vstd::prelude::*;

use super::commit::{
    append_rows, apply_op, apply_ops, base_conflict, base_of, commit_end, commit_outcome, delete_files, env_of,
    finished, insert_columns, insert_files, mutation_flaw, new_columns, start_of, update_schema,
    BaseView, CommitEnv, CommitOutcome, CommitRequest, PlanView, StepOutcome,
};
use super::create::{
    create_outcome, create_statements, given_properties, CreateRequest, INITIAL_SCHEMA_VERSION,
};
use super::database::DbKind;
use super::error::{ErrorView, Refusal};
use super::evolution::CurrentSchema;
use super::helpers::{
    bytes_option, parsed_properties, parsed_uuid, parsed_uuid_option, serialized, text_option,
};
use super::limits::{
    batches_fit_bind_limits, bind_limit, columns_chunk, BATCH_DELETE_FILES_CHUNK,
    BATCH_INSERT_FILES_CHUNK,
};
use super::models::{schema_flaw, sound_names_differ, ColumnSpecView, TxnId};
use super::mutation::{ops_flaw, sound_mutation, OpView};
use super::protocol::protocol_flaw;
use super::relations::{
    columns_consistent, columns_in, consistent, files_at, files_consistent, files_inserted, head,
    last_properties_count, names_consistent, names_differ, on_record, pieces_add_columns,
    pieces_insert_all, pieces_mark_all, properties_at, properties_consistent, properties_known,
    properties_last, run, run_all, runs_join, same_properties_count, schemas_at,
    schemas_consistent, tables_named, transactions_consistent, valid, FileRecord,
    PropertiesRecord, Relations, SchemaRecord, TableRecord, TransactionRecord,
};
use super::rows::{Outcome, TableRow};
use super::statements::{
    bind_count, chunks, chunks_partition, ColumnInsertView, FileInsertView, StatementView,
};
use crate::ids::Uuid;
use crate::json::JsonModel;

verus! {

/// A row tells what is on record of a table.
pub open spec fn row_tells_table(row: TableRow, db: Relations, table_uuid: Uuid) -> bool {
    let t = db.tables[table_uuid];
    &&& db.tables.dom().contains(table_uuid)
    &&& parsed_uuid(row.table_uuid@) == std::result::Result::<Uuid, ErrorView>::Ok(table_uuid)
    &&& parsed_uuid_option(bytes_option(row.current_schema_uuid)) == std::result::Result::<
        Option<Uuid>,
        ErrorView,
    >::Ok(t.schema_uuid)
    &&& parsed_uuid_option(bytes_option(row.current_transaction_id)) == std::result::Result::<
        Option<Uuid>,
        ErrorView,
    >::Ok(t.transaction_id)
    &&& text_option(row.properties) == Some(t.properties)
    &&& row.min_reader_version == t.min_reader_version
    &&& row.min_writer_version == t.min_writer_version
}

/// The rows of the current schema tell what is on record of a schema.
pub open spec fn rows_tell_current(
    schema: CurrentSchema,
    db: Relations,
    schema_uuid: Uuid,
) -> bool {
    let columns = columns_in(db.columns, schema_uuid);
    &&& db.schemas.dom().contains(schema_uuid)
    &&& schema.schema_version == db.schemas[schema_uuid].schema_version
    &&& schema.columns@.len() == columns.len()
    &&& forall|i: int|
        0 <= i < columns.len() ==> (#[trigger] schema.columns@[i]).column_name@ == columns[i].name
            && schema.columns@[i].column_type@ == columns[i].encoded_type
            && schema.columns@[i].is_nullable == columns[i].is_nullable
}

/// The files of a table that no transaction has removed.
pub open spec fn live(files: Map<Uuid, FileRecord>, table_uuid: Uuid) -> Map<Uuid, FileInsertView> {
    Map::new(
        |u: Uuid|
            files.dom().contains(u) && files[u].table_uuid == table_uuid && files[u].removed is None,
        |u: Uuid| files[u].file,
    )
}

/// Files with some more, by their UUIDs.
pub open spec fn with_rows(
    files: Map<Uuid, FileInsertView>,
    rows: Seq<FileInsertView>,
) -> Map<Uuid, FileInsertView>
    decreases rows.len(),
{
    if rows.len() == 0 {
        files
    } else {
        with_rows(files, rows.drop_last()).insert(rows.last().file_uuid, rows.last())
    }
}

/// The files of a table after one operation: those appended are there, those deleted are not.
pub open spec fn files_after_op(
    env: CommitEnv,
    st: PlanView,
    op: OpView,
    files: Map<Uuid, FileInsertView>,
) -> Map<Uuid, FileInsertView> {
    match op {
        OpView::AppendFiles(specs) => match append_rows(specs, env.ids@, st.used) {
            Outcome::Done((rows, _)) => with_rows(files, rows),
            _ => files,
        },
        OpView::DeleteFiles(file_uuids) => files.remove_keys(file_uuids.to_set()),
        _ => files,
    }
}

/// The files of a table after operations, one after the other.
pub open spec fn files_after(
    env: CommitEnv,
    st: PlanView,
    ops: Seq<OpView>,
    files: Map<Uuid, FileInsertView>,
) -> Map<Uuid, FileInsertView>
    decreases ops.len(),
{
    if ops.len() == 0 {
        files
    } else {
        let before = files_after(env, st, ops.drop_last(), files);
        match apply_ops(env, st, ops.drop_last()) {
            StepOutcome::Next(mid) => files_after_op(env, mid, ops.last(), before),
            _ => before,
        }
    }
}

/// One of the operations gives the table a new schema.
pub open spec fn changes_schema(ops: Seq<OpView>) -> bool {
    exists|i: int| 0 <= i < ops.len() && #[trigger] ops[i] is UpdateSchema
}

/// The columns of the schema that the operations give the table.
pub open spec fn schema_given(ops: Seq<OpView>) -> Seq<ColumnSpecView> {
    let i = choose|i: int| 0 <= i < ops.len() && #[trigger] ops[i] is UpdateSchema;
    ops[i]->UpdateSchema_0
}

/// What a commit has done to the files so far: others are as they were, and those of the table
/// are as they were, or removed, or added by it.
pub open spec fn files_carried(
    before: Map<Uuid, FileRecord>,
    now: Map<Uuid, FileRecord>,
    table_uuid: Uuid,
    id: TxnId,
) -> bool {
    &&& forall|u: Uuid| #[trigger]
        before.dom().contains(u) ==> {
            &&& now.dom().contains(u)
            &&& now[u] == before[u] || (before[u].table_uuid == table_uuid && before[u].removed is None
                && now[u] == (FileRecord { removed: Some(id), ..before[u] }))
        }
    &&& forall|u: Uuid| #[trigger]
        now.dom().contains(u) && !before.dom().contains(u) ==> {
            &&& now[u].table_uuid == table_uuid
            &&& now[u].added == id
            &&& now[u].removed is None || now[u].removed == Some(id)
            &&& now[u].file.file_uuid == u
        }
}

/// What a commit has done to the schemas, once it has given the table a new one.
pub open spec fn schema_replaced(
    before: Relations,
    now: Relations,
    env: CommitEnv,
    new: Uuid,
    columns: Seq<ColumnSpecView>,
) -> bool {
    &&& schema_flaw(columns) is None
    &&& !before.schemas.dom().contains(new)
    &&& now.schemas.dom() == before.schemas.dom().insert(new)
    &&& now.schemas[new].table_uuid == env.table_uuid
    &&& env.schema is Some
    &&& now.schemas[new].schema_version == env.schema->0.schema_version + 1
    &&& now.schemas[new].created_at == env.timestamp
    &&& now.schemas[new].valid_from == env.transaction_id
    &&& now.schemas[new].valid_to is None
    &&& env.current_schema_uuid is Some
    &&& now.schemas[env.current_schema_uuid->0] == (SchemaRecord {
        valid_to: Some(env.transaction_id),
        ..before.schemas[env.current_schema_uuid->0]
    })
    &&& forall|u: Uuid| #[trigger]
        before.schemas.dom().contains(u) && Some(u) != env.current_schema_uuid ==> now.schemas[u]
            == before.schemas[u]
    &&& forall|u: Uuid|
        u != new ==> #[trigger] columns_in(now.columns, u) == columns_in(before.columns, u)
    &&& exists|first: nat| #[trigger]
        new_columns(columns, env.ids@, first) == columns_in(now.columns, new)
    &&& forall|u: Uuid| #[trigger]
        now.columns.dom().contains(u) ==> u == new || before.columns.dom().contains(u)
}

/// What a commit has done so far.
pub open spec fn carried(
    before: Relations,
    now: Relations,
    env: CommitEnv,
    st: PlanView,
    ops: Seq<OpView>,
) -> bool {
    &&& now.tables == before.tables
    &&& now.properties == before.properties
    &&& files_carried(before.files, now.files, env.table_uuid, env.transaction_id)
    &&& if changes_schema(ops) {
        st.schema_uuid is Some && schema_replaced(
            before,
            now,
            env,
            st.schema_uuid->0,
            schema_given(ops),
        )
    } else {
        &&& st.schema_uuid == env.current_schema_uuid
        &&& now.schemas == before.schemas
        &&& now.columns == before.columns
    }
}

/// Inserting files leaves those that are there as they are.
pub proof fn inserted_files(
    files: Map<Uuid, FileRecord>,
    table_uuid: Uuid,
    id: TxnId,
    rows: Seq<FileInsertView>,
)
    requires
        files_inserted(files, table_uuid, id, rows) is Some,
    ensures
        ({
            let after = files_inserted(files, table_uuid, id, rows)->0;
            &&& forall|u: Uuid| #[trigger]
                files.dom().contains(u) ==> after.dom().contains(u) && after[u] == files[u]
            &&& forall|u: Uuid| #[trigger]
                after.dom().contains(u) && !files.dom().contains(u) ==> after[u].table_uuid
                    == table_uuid && after[u].added == id && after[u].removed is None
                    && after[u].file.file_uuid == u
            &&& live(after, table_uuid) == with_rows(live(files, table_uuid), rows)
        }),
    decreases rows.len(),
{
    if rows.len() > 0 {
        inserted_files(files, table_uuid, id, rows.drop_last());
        let mid = files_inserted(files, table_uuid, id, rows.drop_last())->0;
        let after = files_inserted(files, table_uuid, id, rows)->0;
        assert(live(after, table_uuid) =~= live(mid, table_uuid).insert(
            rows.last().file_uuid,
            rows.last(),
        ));
    }
}

proof fn appending_carries(
    before: Relations,
    now: Relations,
    next: Relations,
    env: CommitEnv,
    rows: Seq<FileInsertView>,
)
    requires
        files_carried(before.files, now.files, env.table_uuid, env.transaction_id),
        run_all(now, insert_files(env.table_uuid, env.transaction_id, rows)) == Some(next),
    ensures
        next == (Relations { files: next.files, ..now }),
        files_carried(before.files, next.files, env.table_uuid, env.transaction_id),
        live(next.files, env.table_uuid) == with_rows(live(now.files, env.table_uuid), rows),
{
    pieces_insert_all(now, env.table_uuid, env.transaction_id, rows);
    inserted_files(now.files, env.table_uuid, env.transaction_id, rows);
    assert forall|u: Uuid| #[trigger]
        next.files.dom().contains(u) && !before.files.dom().contains(u) implies {
        &&& next.files[u].table_uuid == env.table_uuid
        &&& next.files[u].added == env.transaction_id
        &&& next.files[u].removed is None || next.files[u].removed == Some(env.transaction_id)
        &&& next.files[u].file.file_uuid == u
    } by {
        if now.files.dom().contains(u) {
            assert(next.files[u] == now.files[u]);
        }
    }
    assert forall|u: Uuid| #[trigger] before.files.dom().contains(u) implies {
        &&& next.files.dom().contains(u)
        &&& next.files[u] == before.files[u] || (before.files[u].table_uuid == env.table_uuid
            && before.files[u].removed is None && next.files[u] == (FileRecord {
            removed: Some(env.transaction_id),
            ..before.files[u]
        }))
    } by {
        assert(now.files.dom().contains(u));
    }
}

proof fn deleting_carries(
    before: Relations,
    now: Relations,
    next: Relations,
    env: CommitEnv,
    file_uuids: Seq<Uuid>,
)
    requires
        files_carried(before.files, now.files, env.table_uuid, env.transaction_id),
        run_all(now, delete_files(env.table_uuid, env.transaction_id, file_uuids)) == Some(next),
    ensures
        next == (Relations { files: next.files, ..now }),
        files_carried(before.files, next.files, env.table_uuid, env.transaction_id),
        live(next.files, env.table_uuid) == live(now.files, env.table_uuid).remove_keys(
            file_uuids.to_set(),
        ),
{
    pieces_mark_all(now, env.table_uuid, env.transaction_id, file_uuids);
    assert forall|u: Uuid| #[trigger] before.files.dom().contains(u) implies {
        &&& next.files.dom().contains(u)
        &&& next.files[u] == before.files[u] || (before.files[u].table_uuid == env.table_uuid
            && before.files[u].removed is None && next.files[u] == (FileRecord {
            removed: Some(env.transaction_id),
            ..before.files[u]
        }))
    } by {
        assert(now.files.dom().contains(u));
    }
    assert forall|u: Uuid| #[trigger]
        next.files.dom().contains(u) && !before.files.dom().contains(u) implies {
        &&& next.files[u].table_uuid == env.table_uuid
        &&& next.files[u].added == env.transaction_id
        &&& next.files[u].removed is None || next.files[u].removed == Some(env.transaction_id)
        &&& next.files[u].file.file_uuid == u
    } by {
        assert(now.files.dom().contains(u));
    }
    assert forall|u: Uuid| #[trigger] file_uuids.to_set().contains(u) == file_uuids.contains(u) by {
        broadcast use vstd::seq_lib::group_seq_properties;
    }
    assert(live(next.files, env.table_uuid) =~= live(now.files, env.table_uuid).remove_keys(
        file_uuids.to_set(),
    ));
}

proof fn replacing_carries(
    before: Relations,
    now: Relations,
    next: Relations,
    env: CommitEnv,
    st: PlanView,
    end: PlanView,
    columns: Seq<ColumnSpecView>,
)
    requires
        schemas_consistent(before),
        env.current_schema_uuid matches Some(u) ==> before.schemas.dom().contains(u),
        now.schemas == before.schemas,
        now.columns == before.columns,
        update_schema(env, st, columns) == StepOutcome::Next(end),
        run_all(before, st.statements) == Some(now),
        run_all(before, end.statements) == Some(next),
    ensures
        next == (Relations { schemas: next.schemas, columns: next.columns, ..now }),
        end.schema_uuid is Some,
        schema_replaced(before, next, env, end.schema_uuid->0, columns),
{
    let schema_uuid = env.ids@[st.used as int];
    let current = env.current_schema_uuid->0;
    let version = (env.schema->0.schema_version + 1) as i32;
    let insert = StatementView::InsertSchema {
        schema_uuid,
        table_uuid: env.table_uuid,
        schema_version: version,
        valid_from: env.transaction_id,
        created_at: env.timestamp,
    };
    let close = StatementView::CloseSchema { schema_uuid: current, valid_to: env.transaction_id };
    let rows = new_columns(columns, env.ids@, st.used + 1);
    let more = insert_columns(env.db, schema_uuid, rows);
    assert(end.statements == st.statements + seq![insert, close] + more);
    runs_join(before, st.statements + seq![insert, close], more);
    runs_join(before, st.statements, seq![insert, close]);
    assert(seq![insert, close].drop_last() =~= seq![insert]);
    assert(seq![insert].drop_last() =~= Seq::<StatementView>::empty());
    assert(run_all(now, Seq::<StatementView>::empty()) == Some(now));
    assert(run_all(now, seq![insert]) == run(now, insert));
    let one = run(now, insert)->0;
    assert(run_all(now, seq![insert, close]) == run(one, close));
    let two = run(one, close)->0;
    pieces_add_columns(two, env.db, schema_uuid, rows);
    assert(run_all(two, more) == Some(next));
    assert(next.schemas.dom() =~= before.schemas.dom().insert(schema_uuid));
    assert(columns_in(two.columns, schema_uuid) =~= Seq::empty());
    assert(columns_in(next.columns, schema_uuid) =~= rows);
    columns_only_for(two, env.db, schema_uuid, rows);
}

proof fn columns_only_for(
    db: Relations,
    kind: DbKind,
    schema_uuid: Uuid,
    rows: Seq<ColumnInsertView>,
)
    ensures
        ({
            let after = run_all(db, insert_columns(kind, schema_uuid, rows))->0;
            forall|u: Uuid| #[trigger]
                after.columns.dom().contains(u) ==> u == schema_uuid || db.columns.dom().contains(u)
        }),
{
    let statements = insert_columns(kind, schema_uuid, rows);
    columns_only_for_these(db, statements, schema_uuid);
}

proof fn columns_only_for_these(
    db: Relations,
    statements: Seq<StatementView>,
    schema_uuid: Uuid,
)
    requires
        forall|i: int|
            0 <= i < statements.len() ==> (#[trigger] statements[i] is InsertColumns)
                && statements[i]->InsertColumns_schema_uuid == schema_uuid,
    ensures
        run_all(db, statements) is Some,
        forall|u: Uuid| #[trigger]
            run_all(db, statements)->0.columns.dom().contains(u) ==> u == schema_uuid
                || db.columns.dom().contains(u),
    decreases statements.len(),
{
    if statements.len() > 0 {
        assert forall|i: int| 0 <= i < statements.drop_last().len() implies (
        #[trigger] statements.drop_last()[i] is InsertColumns)
            && statements.drop_last()[i]->InsertColumns_schema_uuid == schema_uuid by {
            assert(statements.drop_last()[i] == statements[i]);
        }
        columns_only_for_these(db, statements.drop_last(), schema_uuid);
        assert(statements.last() == statements[statements.len() - 1]);
        assert(statements.last() is InsertColumns);
    }
}

proof fn step_carries(
    before: Relations,
    now: Relations,
    next: Relations,
    env: CommitEnv,
    st: PlanView,
    end: PlanView,
    ops: Seq<OpView>,
)
    requires
        ops.len() > 0,
        schemas_consistent(before),
        env.current_schema_uuid matches Some(u) ==> before.schemas.dom().contains(u),
        ops_flaw(ops) is None,
        carried(before, now, env, st, ops.drop_last()),
        apply_op(env, st, ops.last()) == StepOutcome::Next(end),
        run_all(before, st.statements) == Some(now),
        run_all(before, end.statements) == Some(next),
    ensures
        carried(before, next, env, end, ops),
        next.transactions == now.transactions,
        live(next.files, env.table_uuid) == files_after_op(
            env,
            st,
            ops.last(),
            live(now.files, env.table_uuid),
        ),
{
    reveal(apply_op);
    let front = ops.drop_last();
    let op = ops.last();
    sound_mutation(ops);
    assert(ops[ops.len() - 1] == op);
    if !(op is UpdateSchema) {
        assert(changes_schema(ops) == changes_schema(front)) by {
            if changes_schema(ops) {
                let i = choose|i: int| 0 <= i < ops.len() && #[trigger] ops[i] is UpdateSchema;
                assert(front[i] is UpdateSchema);
            }
            if changes_schema(front) {
                let i = choose|i: int| 0 <= i < front.len() && #[trigger] front[i] is UpdateSchema;
                assert(ops[i] is UpdateSchema);
            }
        }
        if changes_schema(front) {
            let i = choose|i: int| 0 <= i < front.len() && #[trigger] front[i] is UpdateSchema;
            let j = choose|j: int| 0 <= j < ops.len() && #[trigger] ops[j] is UpdateSchema;
            assert(ops[i] is UpdateSchema);
            assert(ops[i] == front[i]);
            assert(i == j);
        }
    }
    match op {
        OpView::AppendFiles(specs) => {
            let rows = append_rows(specs, env.ids@, st.used)->Done_0.0;
            let more = insert_files(env.table_uuid, env.transaction_id, rows);
            runs_join(before, st.statements, more);
            appending_carries(before, now, next, env, rows);
        },
        OpView::DeleteFiles(file_uuids) => {
            let more = delete_files(env.table_uuid, env.transaction_id, file_uuids);
            runs_join(before, st.statements, more);
            deleting_carries(before, now, next, env, file_uuids);
        },
        OpView::UpdateSchema(columns) => {
            assert(!changes_schema(front)) by {
                if changes_schema(front) {
                    let i = choose|i: int|
                        0 <= i < front.len() && #[trigger] front[i] is UpdateSchema;
                    assert(ops[i] is UpdateSchema);
                }
            }
            let j = choose|j: int| 0 <= j < ops.len() && #[trigger] ops[j] is UpdateSchema;
            assert(ops[ops.len() - 1] is UpdateSchema);
            assert(j == ops.len() - 1) by {
                if j < ops.len() - 1 {
                    assert(ops[j] is UpdateSchema);
                }
            }
            replacing_carries(before, now, next, env, st, end, columns);
        },
        _ => {
            assert(next == now);
        },
    }
}

/// An operation adds statements to those before it.
pub proof fn statements_grow(env: CommitEnv, st: PlanView, op: OpView)
    ensures
        apply_op(env, st, op) matches StepOutcome::Next(end) ==> exists|more: Seq<StatementView>|
            end.statements == #[trigger] (st.statements + more),
{
    reveal(apply_op);
    if let StepOutcome::Next(end) = apply_op(env, st, op) {
        match op {
            OpView::AppendFiles(specs) => {
                let rows = append_rows(specs, env.ids@, st.used)->Done_0.0;
                assert(end.statements == st.statements + insert_files(
                    env.table_uuid,
                    env.transaction_id,
                    rows,
                ));
            },
            OpView::DeleteFiles(file_uuids) => {
                assert(end.statements == st.statements + delete_files(
                    env.table_uuid,
                    env.transaction_id,
                    file_uuids,
                ));
            },
            OpView::UpdateSchema(columns) => {
                let schema_uuid = env.ids@[st.used as int];
                let two = seq![
                    StatementView::InsertSchema {
                        schema_uuid,
                        table_uuid: env.table_uuid,
                        schema_version: (env.schema->0.schema_version + 1) as i32,
                        valid_from: env.transaction_id,
                        created_at: env.timestamp,
                    },
                    StatementView::CloseSchema {
                        schema_uuid: env.current_schema_uuid->0,
                        valid_to: env.transaction_id,
                    },
                ];
                let more = insert_columns(
                    env.db,
                    schema_uuid,
                    new_columns(columns, env.ids@, st.used + 1),
                );
                assert(st.statements + two + more =~= st.statements + (two + more));
            },
            _ => {
                assert(end.statements =~= st.statements + Seq::<StatementView>::empty());
            },
        }
    }
}

proof fn ops_carry(
    before: Relations,
    begin: Relations,
    after: Relations,
    env: CommitEnv,
    start: PlanView,
    end: PlanView,
    ops: Seq<OpView>,
)
    requires
        schemas_consistent(before),
        env.current_schema_uuid matches Some(u) ==> before.schemas.dom().contains(u),
        ops_flaw(ops) is None,
        start.schema_uuid == env.current_schema_uuid,
        run_all(before, start.statements) == Some(begin),
        begin == (Relations { transactions: begin.transactions, ..before }),
        apply_ops(env, start, ops) == StepOutcome::Next(end),
        run_all(before, end.statements) == Some(after),
    ensures
        carried(before, after, env, end, ops),
        after.transactions == begin.transactions,
        live(after.files, env.table_uuid) == files_after(
            env,
            start,
            ops,
            live(before.files, env.table_uuid),
        ),
    decreases ops.len(),
{
    if ops.len() > 0 {
        let front = ops.drop_last();
        let mid = apply_ops(env, start, front)->Next_0;
        statements_grow(env, mid, ops.last());
        let more = choose|more: Seq<StatementView>|
            end.statements == #[trigger] (mid.statements + more);
        runs_join(before, mid.statements, more);
        let now = run_all(before, mid.statements)->0;
        ops_carry(before, begin, now, env, start, mid, front);
        step_carries(before, now, after, env, mid, end, ops);
    }
}

/// A commit that is carried out: it can be planned on a row that tells of the table, and its
/// statements all run.
pub open spec fn commit_runs(
    before: Relations,
    after: Relations,
    request: CommitRequest,
    table_uuid: Uuid,
    row: TableRow,
    schema: Option<&CurrentSchema>,
) -> bool {
    &&& row_tells_table(row, before, table_uuid)
    &&& commit_outcome(request, Some(row), schema) matches CommitOutcome::Planned(statements)
        && run_all(before, statements) == Some(after)
}

/// The table before the commit.
pub open spec fn base_view(request: CommitRequest, row: TableRow) -> BaseView {
    base_of(request.protocol, *request.ident, request.base_transaction_id, Some(row))->Ok_0
}

proof fn commit_effect<'a>(
    before: Relations,
    after: Relations,
    request: CommitRequest<'a>,
    table_uuid: Uuid,
    row: TableRow,
    schema: Option<&'a CurrentSchema>,
)
    requires
        schemas_consistent(before),
        commit_runs(before, after, request, table_uuid, row, schema),
    ensures
        ({
            let base = base_view(request, row);
            let env = env_of(request, base, schema);
            let end = commit_end(request, Some(row), schema);
            let now = Relations {
                tables: before.tables,
                properties: before.properties,
                ..after
            };
            &&& base.table_uuid == table_uuid
            &&& base.current_schema_uuid == before.tables[table_uuid].schema_uuid
            &&& before.tables[table_uuid].transaction_id == Some(base.current_transaction_id)
            &&& base.current_transaction_id == request.base_transaction_id
            &&& request.transaction_id.value > request.base_transaction_id.value
            &&& ops_flaw(request.mutation@) is None
            &&& carried(before, now, env, end, request.mutation@)
            &&& !before.transactions.dom().contains(request.transaction_id)
            &&& after.transactions == before.transactions.insert(
                request.transaction_id,
                TransactionRecord {
                    table_uuid,
                    timestamp: request.timestamp,
                    parent: Some(base.current_transaction_id),
                },
            )
            &&& serialized(JsonModel::Object(end.properties)) is Ok
            &&& !before.properties.dom().contains(request.transaction_id)
            &&& after.properties == before.properties.insert(
                request.transaction_id,
                PropertiesRecord {
                    table_uuid,
                    properties: serialized(JsonModel::Object(end.properties))->Ok_0,
                },
            )
            &&& after.tables == before.tables.insert(
                table_uuid,
                TableRecord {
                    schema_uuid: end.schema_uuid,
                    transaction_id: Some(request.transaction_id),
                    properties: serialized(JsonModel::Object(end.properties))->Ok_0,
                    ..before.tables[table_uuid]
                },
            )
            &&& live(after.files, table_uuid) == files_after(
                env,
                start_of(request, base),
                request.mutation@,
                live(before.files, table_uuid),
            )
        }),
{
    let base = base_view(request, row);
    let env = env_of(request, base, schema);
    let start = start_of(request, base);
    let ops = request.mutation@;
    let end = apply_ops(env, start, ops)->Next_0;
    let statements = commit_outcome(request, Some(row), schema)->Planned_0;
    assert(finished(request, base, end) == CommitOutcome::Planned(statements));
    let last = statements.last();
    let kept = statements.drop_last().last();
    assert(statements.drop_last().drop_last() =~= end.statements);
    let now = run_all(before, end.statements)->0;
    let then = run(now, kept)->0;
    assert(run_all(before, statements.drop_last()) == Some(then));
    assert(run(then, last) == Some(after));
    // The first statement puts the transaction on record.
    let first = start.statements[0];
    assert(start.statements =~= seq![first]);
    assert(start.statements.drop_last() =~= Seq::<StatementView>::empty());
    assert(run_all(before, Seq::<StatementView>::empty()) == Some(before));
    assert(run_all(before, start.statements) == run(before, first));
    starts_first(env, start, end, ops);
    let more = choose|more: Seq<StatementView>|
        end.statements == #[trigger] (start.statements + more);
    runs_join(before, start.statements, more);
    let begin = run(before, first)->0;
    ops_carry(before, begin, now, env, start, end, ops);
    assert(Relations { tables: before.tables, properties: before.properties, ..after } == now);
}

proof fn starts_first(env: CommitEnv, start: PlanView, end: PlanView, ops: Seq<OpView>)
    requires
        apply_ops(env, start, ops) == StepOutcome::Next(end),
    ensures
        exists|more: Seq<StatementView>| end.statements == #[trigger] (start.statements + more),
    decreases ops.len(),
{
    if ops.len() == 0 {
        assert(end.statements =~= start.statements + Seq::<StatementView>::empty());
    } else {
        let mid = apply_ops(env, start, ops.drop_last())->Next_0;
        starts_first(env, start, mid, ops.drop_last());
        statements_grow(env, mid, ops.last());
        let a = choose|more: Seq<StatementView>|
            mid.statements == #[trigger] (start.statements + more);
        let b = choose|more: Seq<StatementView>|
            end.statements == #[trigger] (mid.statements + more);
        assert(end.statements =~= start.statements + (a + b));
    }
}

/// A commit leaves the files on record as they were, but for those of the table that it removes
/// or adds.
pub proof fn commits_carry_files<'a>(
    before: Relations,
    after: Relations,
    request: CommitRequest<'a>,
    table_uuid: Uuid,
    row: TableRow,
    schema: Option<&'a CurrentSchema>,
)
    requires
        consistent(before),
        commit_runs(before, after, request, table_uuid, row, schema),
    ensures
        files_carried(before.files, after.files, table_uuid, request.transaction_id),
{
    commit_effect(before, after, request, table_uuid, row, schema);
}

/// A commit leaves the past as it was: transactions stay on record, and what a table had at an
/// earlier one, files, properties and schema with its columns, it has still.
pub proof fn commits_keep_the_past<'a>(
    before: Relations,
    after: Relations,
    request: CommitRequest<'a>,
    table_uuid: Uuid,
    row: TableRow,
    schema: Option<&'a CurrentSchema>,
    table: Uuid,
    at: TxnId,
)
    requires
        consistent(before),
        commit_runs(before, after, request, table_uuid, row, schema),
        at.value < request.transaction_id.value,
    ensures
        forall|id: TxnId| #[trigger]
            before.transactions.dom().contains(id) ==> after.transactions.dom().contains(id)
                && after.transactions[id] == before.transactions[id],
        files_at(after, table, at) == files_at(before, table, at),
        properties_at(after, table, at) == properties_at(before, table, at),
        schemas_at(after, table, at) == schemas_at(before, table, at),
        forall|u: Uuid|
            schemas_at(before, table, at).contains(u) ==> #[trigger] columns_in(after.columns, u)
                == columns_in(before.columns, u),
{
    commit_effect(before, after, request, table_uuid, row, schema);
    let base = base_view(request, row);
    let env = env_of(request, base, schema);
    let end = commit_end(request, Some(row), schema);
    assert forall|u: Uuid|
        files_at(after, table, at).dom().contains(u) == files_at(before, table, at).dom().contains(
            u,
        ) && (files_at(before, table, at).dom().contains(u) ==> files_at(after, table, at)[u]
            == files_at(before, table, at)[u]) by {
        assert(before.files.dom().contains(u) ==> after.files.dom().contains(u));
    }
    assert(files_at(after, table, at) =~= files_at(before, table, at));
    same_properties_count(before, after, table, at);
    assert forall|u: Uuid|
        schemas_at(after, table, at).contains(u) == schemas_at(before, table, at).contains(u) by {
        if changes_schema(request.mutation@) {
            let new = end.schema_uuid->0;
            assert(before.schemas.dom().contains(u) ==> after.schemas.dom().contains(u));
            assert(after.schemas.dom().contains(u) ==> u == new || before.schemas.dom().contains(
                u,
            ));
            assert(before.tables.dom().contains(table_uuid));
        }
    }
    assert(schemas_at(after, table, at) =~= schemas_at(before, table, at));
}

/// A commit leaves other tables as they were.
pub proof fn commits_keep_to_their_table<'a>(
    before: Relations,
    after: Relations,
    request: CommitRequest<'a>,
    table_uuid: Uuid,
    row: TableRow,
    schema: Option<&'a CurrentSchema>,
    table: Uuid,
    at: TxnId,
)
    requires
        consistent(before),
        commit_runs(before, after, request, table_uuid, row, schema),
        table != table_uuid,
    ensures
        after.tables.dom().contains(table) == before.tables.dom().contains(table),
        after.tables[table] == before.tables[table],
        files_at(after, table, at) == files_at(before, table, at),
        properties_at(after, table, at) == properties_at(before, table, at),
        schemas_at(after, table, at) == schemas_at(before, table, at),
        forall|u: Uuid|
            schemas_at(before, table, at).contains(u) ==> #[trigger] columns_in(after.columns, u)
                == columns_in(before.columns, u),
{
    commit_effect(before, after, request, table_uuid, row, schema);
    let base = base_view(request, row);
    let end = commit_end(request, Some(row), schema);
    assert forall|u: Uuid|
        files_at(after, table, at).dom().contains(u) == files_at(before, table, at).dom().contains(
            u,
        ) && (files_at(before, table, at).dom().contains(u) ==> files_at(after, table, at)[u]
            == files_at(before, table, at)[u]) by {
        assert(before.files.dom().contains(u) ==> after.files.dom().contains(u));
    }
    assert(files_at(after, table, at) =~= files_at(before, table, at));
    same_properties_count(before, after, table, at);
    assert forall|u: Uuid|
        schemas_at(after, table, at).contains(u) == schemas_at(before, table, at).contains(u) by {
        if changes_schema(request.mutation@) {
            let new = end.schema_uuid->0;
            assert(before.schemas.dom().contains(u) ==> after.schemas.dom().contains(u));
            assert(after.schemas.dom().contains(u) ==> u == new || before.schemas.dom().contains(
                u,
            ));
            assert(before.tables.dom().contains(table_uuid));
        }
    }
    assert(schemas_at(after, table, at) =~= schemas_at(before, table, at));
}

/// From its current transaction on, a table has the files that none has removed.
pub proof fn current_files_are_live(db: Relations, table_uuid: Uuid, at: TxnId)
    requires
        consistent(db),
        head(db, table_uuid) matches Some(current) && at.value >= current.value,
    ensures
        files_at(db, table_uuid, at) == live(db.files, table_uuid),
{
    assert(files_at(db, table_uuid, at) =~= live(db.files, table_uuid));
}

/// From its current transaction on, a table has its current properties.
pub proof fn current_properties_count(db: Relations, table_uuid: Uuid, at: TxnId)
    requires
        consistent(db),
        head(db, table_uuid) matches Some(current) && at.value >= current.value,
    ensures
        properties_at(db, table_uuid, at) == Some(db.tables[table_uuid].properties),
{
    let current = head(db, table_uuid)->0;
    assert(db.tables.dom().contains(table_uuid));
    assert forall|other: TxnId| #[trigger]
        properties_known(db, table_uuid, at, other) implies other.value <= current.value by {
        assert(on_record(db, table_uuid, other));
        assert(db.transactions.dom().contains(other));
    }
    assert(properties_known(db, table_uuid, at, current));
    assert(properties_last(db, table_uuid, at, current));
    last_properties_count(db, table_uuid, at, current);
}

/// From its current transaction on, a table has its current schema, and no other.
pub proof fn current_schema_is_the_one(db: Relations, table_uuid: Uuid, at: TxnId)
    requires
        consistent(db),
        head(db, table_uuid) matches Some(current) && at.value >= current.value,
        db.tables[table_uuid].schema_uuid is Some,
    ensures
        schemas_at(db, table_uuid, at) == set![db.tables[table_uuid].schema_uuid->0],
{
    let u = db.tables[table_uuid].schema_uuid->0;
    assert(db.tables.dom().contains(table_uuid));
    assert(db.schemas.dom().contains(u));
    assert forall|v: Uuid| schemas_at(db, table_uuid, at).contains(v) == (v == u) by {
        if db.schemas.dom().contains(v) {
            assert(v != u ==> db.schemas[v].table_uuid != table_uuid || db.schemas[v].valid_to is Some);
        }
    }
    assert(schemas_at(db, table_uuid, at) =~= set![u]);
}

/// A commit shows in what the table has from its transaction on: the files that the operations
/// leave, the schema that they give or else the one from before, and their properties. The
/// transaction is on record as a child of the one that the mutation was made on.
pub proof fn commits_show_their_work<'a>(
    before: Relations,
    after: Relations,
    request: CommitRequest<'a>,
    table_uuid: Uuid,
    row: TableRow,
    schema: Option<&'a CurrentSchema>,
)
    requires
        consistent(before),
        commit_runs(before, after, request, table_uuid, row, schema),
    ensures
        ({
            let id = request.transaction_id;
            let base = base_view(request, row);
            let end = commit_end(request, Some(row), schema);
            &&& head(before, table_uuid) == Some(request.base_transaction_id)
            &&& head(after, table_uuid) == Some(id)
            &&& on_record(after, table_uuid, id)
            &&& after.transactions[id].parent == Some(request.base_transaction_id)
            &&& after.transactions[id].timestamp == request.timestamp
            &&& after.tables[table_uuid].name == before.tables[table_uuid].name
            &&& after.tables[table_uuid].namespace == before.tables[table_uuid].namespace
            &&& after.tables[table_uuid].location == before.tables[table_uuid].location
            &&& after.tables[table_uuid].created_at == before.tables[table_uuid].created_at
            &&& after.tables[table_uuid].min_reader_version
                == before.tables[table_uuid].min_reader_version
            &&& after.tables[table_uuid].min_writer_version
                == before.tables[table_uuid].min_writer_version
            &&& id.value > request.base_transaction_id.value
            &&& serialized(JsonModel::Object(end.properties)) == std::result::Result::<
                Seq<char>,
                ErrorView,
            >::Ok(after.tables[table_uuid].properties)
            &&& properties_at(after, table_uuid, id) == Some(after.tables[table_uuid].properties)
            &&& files_at(after, table_uuid, id) == files_after(
                env_of(request, base, schema),
                start_of(request, base),
                request.mutation@,
                files_at(before, table_uuid, request.base_transaction_id),
            )
            &&& if changes_schema(request.mutation@) {
                let new = after.tables[table_uuid].schema_uuid->0;
                &&& after.tables[table_uuid].schema_uuid is Some
                &&& schemas_at(after, table_uuid, id) == set![new]
                &&& after.schemas[new].valid_from == id
                &&& after.schemas[new].created_at == request.timestamp
                &&& schema is Some
                &&& after.schemas[new].schema_version == schema->0.schema_version + 1
                &&& before.tables[table_uuid].schema_uuid is Some
                &&& rows_tell_current(
                    *(schema->0),
                    before,
                    before.tables[table_uuid].schema_uuid->0,
                ) ==> after.schemas[new].schema_version
                    == before.schemas[before.tables[table_uuid].schema_uuid->0].schema_version + 1
                &&& before.tables[table_uuid].schema_uuid matches Some(old)
                    && after.schemas[old].valid_to == Some(id)
                &&& exists|first: nat| #[trigger]
                    new_columns(schema_given(request.mutation@), request.ids@, first)
                        == columns_in(after.columns, new)
            } else {
                &&& after.tables[table_uuid].schema_uuid == before.tables[table_uuid].schema_uuid
                &&& schemas_at(after, table_uuid, id) == schemas_at(
                    before,
                    table_uuid,
                    request.base_transaction_id,
                )
                &&& after.columns == before.columns
            }
        }),
{
    commits_keep_consistency(before, after, request, table_uuid, row, schema);
    commit_effect(before, after, request, table_uuid, row, schema);
    let id = request.transaction_id;
    current_files_are_live(before, table_uuid, request.base_transaction_id);
    current_files_are_live(after, table_uuid, id);
    current_properties_count(after, table_uuid, id);
    if changes_schema(request.mutation@) {
        current_schema_is_the_one(after, table_uuid, id);
    } else {
        assert(schemas_at(after, table_uuid, id) =~= schemas_at(
            before,
            table_uuid,
            request.base_transaction_id,
        )) by {
            assert forall|u: Uuid|
                schemas_at(after, table_uuid, id).contains(u) == schemas_at(
                    before,
                    table_uuid,
                    request.base_transaction_id,
                ).contains(u) by {
                if before.schemas.dom().contains(u) {}
            }
        }
    }
}

proof fn given_names_differ(given: Seq<ColumnSpecView>, columns: Seq<ColumnInsertView>)
    requires
        schema_flaw(given) is None,
        columns.len() == given.len(),
        forall|i: int| 0 <= i < columns.len() ==> (#[trigger] columns[i]).name == given[i].name,
    ensures
        names_differ(columns),
{
    sound_names_differ(given);
    assert forall|i: int, j: int| 0 <= i < j < columns.len() implies (#[trigger] columns[i]).name
        != (#[trigger] columns[j]).name by {
        assert(given[i].name != given[j].name);
    }
}

/// A commit leaves the catalog consistent.
pub proof fn commits_keep_consistency<'a>(
    before: Relations,
    after: Relations,
    request: CommitRequest<'a>,
    table_uuid: Uuid,
    row: TableRow,
    schema: Option<&'a CurrentSchema>,
)
    requires
        consistent(before),
        commit_runs(before, after, request, table_uuid, row, schema),
    ensures
        consistent(after),
{
    commit_effect(before, after, request, table_uuid, row, schema);
    let id = request.transaction_id;
    let base = base_view(request, row);
    let end = commit_end(request, Some(row), schema);
    assert(head(after, table_uuid) == Some(id));
    assert(head(before, table_uuid) == Some(request.base_transaction_id));
    assert forall|t: Uuid| t != table_uuid implies #[trigger] head(after, t) == head(before, t) by {}
    assert(names_consistent(after)) by {
        assert forall|a: Uuid, b: Uuid|
            #![trigger after.tables.dom().contains(a), after.tables.dom().contains(b)]
            after.tables.dom().contains(a) && after.tables.dom().contains(b)
                && after.tables[a].namespace == after.tables[b].namespace && after.tables[a].name
                == after.tables[b].name implies a == b by {
            assert(before.tables.dom().contains(a) && before.tables.dom().contains(b));
        }
    }
    assert(columns_consistent(after)) by {
        assert forall|u: Uuid| #[trigger] names_differ(columns_in(after.columns, u)) by {
            assert(names_differ(columns_in(before.columns, u)));
            if changes_schema(request.mutation@) && Some(u) == end.schema_uuid {
                given_names_differ(schema_given(request.mutation@), columns_in(after.columns, u));
            }
        }
    }
    assert(transactions_consistent(after)) by {
        assert forall|x: TxnId| #[trigger] after.transactions.dom().contains(x) implies {
            let t = after.transactions[x];
            &&& head(after, t.table_uuid) is Some
            &&& x.value <= head(after, t.table_uuid)->0.value
            &&& t.parent matches Some(parent) ==> on_record(after, t.table_uuid, parent)
                && parent.value < x.value
        } by {
            if x != id {
                assert(before.transactions.dom().contains(x));
                let t = before.transactions[x];
                assert(head(before, t.table_uuid) is Some);
                if t.parent is Some {
                    assert(on_record(before, t.table_uuid, t.parent->0));
                }
            } else {
                assert(before.tables.dom().contains(table_uuid));
                assert(on_record(before, table_uuid, request.base_transaction_id));
            }
        }
        assert forall|t: Uuid| #[trigger] after.tables.dom().contains(t) implies (
        after.tables[t].transaction_id matches Some(x) ==> on_record(after, t, x)) by {
            if t != table_uuid {
                assert(before.tables.dom().contains(t));
            }
        }
    }
    assert(properties_consistent(after)) by {
        assert forall|x: TxnId| #[trigger] after.properties.dom().contains(x) implies on_record(
            after,
            after.properties[x].table_uuid,
            x,
        ) by {
            if before.properties.dom().contains(x) {
                assert(on_record(before, before.properties[x].table_uuid, x));
            }
        }
        assert forall|t: Uuid| #[trigger] after.tables.dom().contains(t) implies (
        after.tables[t].transaction_id matches Some(x) ==> after.properties.dom().contains(x)
            && after.properties[x] == (PropertiesRecord {
            table_uuid: t,
            properties: after.tables[t].properties,
        })) by {
            if t != table_uuid {
                assert(before.tables.dom().contains(t));
            }
        }
    }
    assert(files_consistent(after)) by {
        assert forall|u: Uuid| #[trigger] after.files.dom().contains(u) implies {
            let f = after.files[u];
            &&& f.file.file_uuid == u
            &&& head(after, f.table_uuid) is Some
            &&& on_record(after, f.table_uuid, f.added)
            &&& f.added.value <= head(after, f.table_uuid)->0.value
            &&& f.removed matches Some(removed) ==> {
                &&& on_record(after, f.table_uuid, removed)
                &&& f.added.value <= removed.value <= head(after, f.table_uuid)->0.value
            }
        } by {
            if before.files.dom().contains(u) {
                let f = before.files[u];
                assert(on_record(before, f.table_uuid, f.added));
                if f.removed is Some {
                    assert(on_record(before, f.table_uuid, f.removed->0));
                }
            }
        }
    }
    assert(schemas_consistent(after)) by {
        schemas_stay_consistent(before, after, request, table_uuid, row, schema);
    }
}

proof fn schemas_stay_consistent<'a>(
    before: Relations,
    after: Relations,
    request: CommitRequest<'a>,
    table_uuid: Uuid,
    row: TableRow,
    schema: Option<&'a CurrentSchema>,
)
    requires
        consistent(before),
        commit_runs(before, after, request, table_uuid, row, schema),
    ensures
        schemas_consistent(after),
{
    commit_effect(before, after, request, table_uuid, row, schema);
    let id = request.transaction_id;
    let end = commit_end(request, Some(row), schema);
    let current = before.tables[table_uuid].schema_uuid;
    assert(head(after, table_uuid) == Some(id));
    assert(head(before, table_uuid) == Some(request.base_transaction_id));
    assert forall|t: Uuid| t != table_uuid implies #[trigger] head(after, t) == head(before, t) by {}
    let changed = changes_schema(request.mutation@);
    let new = end.schema_uuid->0;
    assert(before.tables.dom().contains(table_uuid));
    assert forall|u: Uuid| #[trigger] after.schemas.dom().contains(u) implies {
        ||| before.schemas.dom().contains(u)
        ||| changed && u == new
    } by {}
    assert forall|u: Uuid| #[trigger] after.schemas.dom().contains(u) implies {
        let s = after.schemas[u];
        &&& head(after, s.table_uuid) is Some
        &&& s.valid_from.value <= head(after, s.table_uuid)->0.value
        &&& (s.valid_to matches Some(valid_to) ==> valid_to.value
            <= head(after, s.table_uuid)->0.value)
        &&& (s.valid_to is None ==> after.tables[s.table_uuid].schema_uuid == Some(u))
    } by {
        if before.schemas.dom().contains(u) {
            assert(head(before, before.schemas[u].table_uuid) is Some);
        }
    }
    assert forall|t: Uuid| #[trigger] after.tables.dom().contains(t) implies (
    after.tables[t].schema_uuid matches Some(u) ==> after.schemas.dom().contains(u)
        && after.schemas[u].table_uuid == t && after.schemas[u].valid_to is None) by {
        assert(before.tables.dom().contains(t));
        if let Some(u) = after.tables[t].schema_uuid {
            if t != table_uuid {
                assert(before.schemas.dom().contains(u));
                assert(before.schemas[u].table_uuid == t);
            }
        }
    }
    assert forall|a: Uuid, b: Uuid, at: TxnId|
        after.schemas.dom().contains(a) && after.schemas.dom().contains(b) && a != b
            && #[trigger] valid(after.schemas[a], after.schemas[a].table_uuid, at) implies !(
    #[trigger] valid(after.schemas[b], after.schemas[a].table_uuid, at)) by {
        if before.schemas.dom().contains(a) && before.schemas.dom().contains(b) {
            // What is valid now was valid before.
            if valid(after.schemas[b], after.schemas[a].table_uuid, at) {
                assert(valid(before.schemas[a], before.schemas[a].table_uuid, at));
                assert(valid(before.schemas[b], before.schemas[a].table_uuid, at));
            }
        } else if a == new {
            if valid(after.schemas[b], table_uuid, at) {
                assert(before.schemas.dom().contains(b));
            }
        } else {
            assert(b == new);
            assert(before.schemas.dom().contains(a));
        }
    }
}

/// Of two commits on one transaction only the first is carried out: once a commit has run, one
/// that was made on the same transaction is refused. It is told of the conflict, unless something
/// is wrong besides.
pub proof fn stale_commits_are_refused<'a, 'b>(
    before: Relations,
    after: Relations,
    request: CommitRequest<'a>,
    table_uuid: Uuid,
    row: TableRow,
    schema: Option<&'a CurrentSchema>,
    late: CommitRequest<'b>,
    late_row: TableRow,
    late_schema: Option<&'b CurrentSchema>,
)
    requires
        consistent(before),
        commit_runs(before, after, request, table_uuid, row, schema),
        late.base_transaction_id == request.base_transaction_id,
        row_tells_table(late_row, after, table_uuid),
    ensures
        commit_outcome(late, Some(late_row), late_schema) is Refused,
        mutation_flaw(late.mutation@) is None && parsed_properties(
            Some(after.tables[table_uuid].properties),
        ) is Ok && protocol_flaw(
            "write"@,
            *late.ident,
            late.protocol.writer,
            after.tables[table_uuid].min_writer_version,
        ) is None ==> commit_outcome(late, Some(late_row), late_schema) == CommitOutcome::Refused(
            Refusal::Exact(base_conflict(request.base_transaction_id, request.transaction_id)),
        ),
{
    commit_effect(before, after, request, table_uuid, row, schema);
}

/// The creation of a table that is carried out: it can be planned, and its statements all run.
pub open spec fn creation_runs(
    before: Relations,
    after: Relations,
    request: CreateRequest,
    exists: bool,
) -> bool {
    create_outcome(request, exists) matches Outcome::Done(statements) && run_all(before, statements)
        == Some(after)
}

proof fn creation_effect(
    before: Relations,
    after: Relations,
    request: CreateRequest,
    exists: bool,
)
    requires
        schemas_consistent(before),
        creation_runs(before, after, request, exists),
    ensures
        ({
            let table_uuid = request.ids@[0];
            let schema_uuid = request.ids@[1];
            let properties = serialized(JsonModel::Object(given_properties(request.properties)));
            &&& properties is Ok
            &&& schema_flaw(request.schema@) is None
            &&& !before.tables.dom().contains(table_uuid)
            &&& tables_named(before, request.ident.namespace@, request.ident.name@) == Set::<
                Uuid,
            >::empty()
            &&& !before.transactions.dom().contains(request.transaction_id)
            &&& !before.schemas.dom().contains(schema_uuid)
            &&& after.files == before.files
            &&& after.tables == before.tables.insert(
                table_uuid,
                TableRecord {
                    name: request.ident.name@,
                    namespace: request.ident.namespace@,
                    location: request.location@,
                    created_at: request.created_at,
                    properties: properties->Ok_0,
                    schema_uuid: Some(schema_uuid),
                    transaction_id: Some(request.transaction_id),
                    min_reader_version: request.protocol.reader,
                    min_writer_version: request.protocol.writer,
                },
            )
            &&& after.transactions == before.transactions.insert(
                request.transaction_id,
                TransactionRecord { table_uuid, timestamp: request.created_at, parent: None },
            )
            &&& !before.properties.dom().contains(request.transaction_id)
            &&& after.properties == before.properties.insert(
                request.transaction_id,
                PropertiesRecord { table_uuid, properties: properties->Ok_0 },
            )
            &&& after.schemas == before.schemas.insert(
                schema_uuid,
                SchemaRecord {
                    table_uuid,
                    schema_version: INITIAL_SCHEMA_VERSION,
                    valid_from: request.transaction_id,
                    valid_to: None,
                    created_at: request.created_at,
                },
            )
            &&& columns_in(after.columns, schema_uuid) == new_columns(
                request.schema@,
                request.ids@,
                2,
            )
            &&& forall|u: Uuid|
                u != schema_uuid ==> #[trigger] columns_in(after.columns, u) == columns_in(
                    before.columns,
                    u,
                )
            &&& forall|u: Uuid| #[trigger]
                after.columns.dom().contains(u) ==> u == schema_uuid
                    || before.columns.dom().contains(u)
        }),
{
    let table_uuid = request.ids@[0];
    let schema_uuid = request.ids@[1];
    let properties = serialized(JsonModel::Object(given_properties(request.properties)))->Ok_0;
    let rows = new_columns(request.schema@, request.ids@, 2);
    let middle = insert_columns(request.db, schema_uuid, rows);
    let all = create_statements(request, properties);
    let a = all[0];
    let b = all[1];
    let p = all[2];
    let c = all[3];
    let last = all.last();
    assert(all =~= seq![a, b, p, c] + middle + seq![last]);
    runs_join(before, seq![a, b, p, c] + middle, seq![last]);
    runs_join(before, seq![a, b, p, c], middle);
    let none = Seq::<StatementView>::empty();
    assert(seq![a, b, p, c].drop_last() =~= seq![a, b, p]);
    assert(seq![a, b, p].drop_last() =~= seq![a, b]);
    assert(seq![a, b].drop_last() =~= seq![a]);
    assert(seq![a].drop_last() =~= none);
    assert(seq![last].drop_last() =~= none);
    assert(run_all(before, none) == Some(before));
    assert(run_all(before, seq![a]) == run(before, a));
    let one = run(before, a)->0;
    assert(tables_named(before, request.ident.namespace@, request.ident.name@) =~= Set::<
        Uuid,
    >::empty());
    assert(run_all(before, seq![a, b]) == run(one, b));
    let two = run(one, b)->0;
    assert(run_all(before, seq![a, b, p]) == run(two, p));
    let known = run(two, p)->0;
    assert(run_all(before, seq![a, b, p, c]) == run(known, c));
    let three = run(known, c)->0;
    pieces_add_columns(three, request.db, schema_uuid, rows);
    columns_only_for(three, request.db, schema_uuid, rows);
    let four = run_all(three, middle)->0;
    assert(run_all(four, none) == Some(four));
    assert(run_all(four, seq![last]) == run(four, last));
    assert(columns_in(three.columns, schema_uuid) =~= Seq::empty());
    assert(columns_in(four.columns, schema_uuid) =~= rows);
    assert(after.tables =~= before.tables.insert(
        table_uuid,
        TableRecord {
            name: request.ident.name@,
            namespace: request.ident.namespace@,
            location: request.location@,
            created_at: request.created_at,
            properties,
            schema_uuid: Some(schema_uuid),
            transaction_id: Some(request.transaction_id),
            min_reader_version: request.protocol.reader,
            min_writer_version: request.protocol.writer,
        },
    ));
}

/// A table that is created is there: it has its first transaction, the schema that was asked for
/// and no files, and the properties that were given. Its creator may read and write it.
pub proof fn created_tables_are_there(
    before: Relations,
    after: Relations,
    request: CreateRequest,
    exists: bool,
    at: TxnId,
)
    requires
        consistent(before),
        creation_runs(before, after, request, exists),
        at.value >= request.transaction_id.value,
    ensures
        ({
            let table_uuid = request.ids@[0];
            let schema_uuid = request.ids@[1];
            let table = after.tables[table_uuid];
            &&& head(after, table_uuid) == Some(request.transaction_id)
            &&& on_record(after, table_uuid, request.transaction_id)
            &&& after.transactions[request.transaction_id].parent is None
            &&& table.name == request.ident.name@
            &&& table.namespace == request.ident.namespace@
            &&& table.location == request.location@
            &&& table.created_at == request.created_at
            &&& table.min_reader_version == request.protocol.reader
            &&& table.min_writer_version == request.protocol.writer
            &&& after.transactions[request.transaction_id].timestamp == request.created_at
            &&& after.schemas[schema_uuid].created_at == request.created_at
            &&& after.schemas[schema_uuid].valid_from == request.transaction_id
            &&& serialized(JsonModel::Object(given_properties(request.properties)))
                == std::result::Result::<Seq<char>, ErrorView>::Ok(table.properties)
            &&& properties_at(after, table_uuid, at) == Some(table.properties)
            &&& files_at(after, table_uuid, at) == Map::<Uuid, FileInsertView>::empty()
            &&& schemas_at(after, table_uuid, at) == set![schema_uuid]
            &&& after.schemas[schema_uuid].schema_version == INITIAL_SCHEMA_VERSION
            &&& columns_in(after.columns, schema_uuid) == new_columns(
                request.schema@,
                request.ids@,
                2,
            )
            &&& protocol_flaw(
                "read"@,
                *request.ident,
                request.protocol.reader,
                table.min_reader_version,
            ) is None
            &&& protocol_flaw(
                "write"@,
                *request.ident,
                request.protocol.writer,
                table.min_writer_version,
            ) is None
        }),
{
    creation_effect(before, after, request, exists);
    creations_keep_consistency(before, after, request, exists);
    let table_uuid = request.ids@[0];
    current_schema_is_the_one(after, table_uuid, at);
    current_properties_count(after, table_uuid, at);
    assert(files_at(after, table_uuid, at) =~= Map::<Uuid, FileInsertView>::empty()) by {
        assert forall|u: Uuid| !files_at(after, table_uuid, at).dom().contains(u) by {
            if before.files.dom().contains(u) {
                assert(head(before, before.files[u].table_uuid) is Some);
            }
        }
    }
}

/// The creation of a table leaves the catalog consistent.
pub proof fn creations_keep_consistency(
    before: Relations,
    after: Relations,
    request: CreateRequest,
    exists: bool,
)
    requires
        consistent(before),
        creation_runs(before, after, request, exists),
    ensures
        consistent(after),
{
    creation_effect(before, after, request, exists);
    let table_uuid = request.ids@[0];
    let schema_uuid = request.ids@[1];
    assert forall|t: Uuid| t != table_uuid implies #[trigger] head(after, t) == head(before, t) by {}
    assert(names_consistent(after)) by {
        assert forall|a: Uuid, b: Uuid|
            #![trigger after.tables.dom().contains(a), after.tables.dom().contains(b)]
            after.tables.dom().contains(a) && after.tables.dom().contains(b)
                && after.tables[a].namespace == after.tables[b].namespace && after.tables[a].name
                == after.tables[b].name implies a == b by {
            let named = tables_named(before, request.ident.namespace@, request.ident.name@);
            assert(!named.contains(a) && !named.contains(b));
            assert(before.tables.dom().contains(a) || a == table_uuid);
            assert(before.tables.dom().contains(b) || b == table_uuid);
        }
    }
    assert(columns_consistent(after)) by {
        assert forall|u: Uuid| #[trigger] names_differ(columns_in(after.columns, u)) by {
            assert(names_differ(columns_in(before.columns, u)));
            if u == schema_uuid {
                given_names_differ(request.schema@, columns_in(after.columns, u));
            }
        }
    }
    assert(transactions_consistent(after)) by {
        assert forall|x: TxnId| #[trigger] after.transactions.dom().contains(x) implies {
            let t = after.transactions[x];
            &&& head(after, t.table_uuid) is Some
            &&& x.value <= head(after, t.table_uuid)->0.value
            &&& t.parent matches Some(parent) ==> on_record(after, t.table_uuid, parent)
                && parent.value < x.value
        } by {
            if x != request.transaction_id {
                assert(before.transactions.dom().contains(x));
                let t = before.transactions[x];
                assert(head(before, t.table_uuid) is Some);
                if t.parent is Some {
                    assert(on_record(before, t.table_uuid, t.parent->0));
                }
            }
        }
        assert forall|t: Uuid| #[trigger] after.tables.dom().contains(t) implies (
        after.tables[t].transaction_id matches Some(x) ==> on_record(after, t, x)) by {
            if t != table_uuid {
                assert(before.tables.dom().contains(t));
            }
        }
    }
    assert(properties_consistent(after)) by {
        assert forall|x: TxnId| #[trigger] after.properties.dom().contains(x) implies on_record(
            after,
            after.properties[x].table_uuid,
            x,
        ) by {
            if before.properties.dom().contains(x) {
                assert(on_record(before, before.properties[x].table_uuid, x));
            }
        }
        assert forall|t: Uuid| #[trigger] after.tables.dom().contains(t) implies (
        after.tables[t].transaction_id matches Some(x) ==> after.properties.dom().contains(x)
            && after.properties[x] == (PropertiesRecord {
            table_uuid: t,
            properties: after.tables[t].properties,
        })) by {
            if t != table_uuid {
                assert(before.tables.dom().contains(t));
            }
        }
    }
    assert(files_consistent(after)) by {
        assert forall|u: Uuid| #[trigger] after.files.dom().contains(u) implies {
            let f = after.files[u];
            &&& f.file.file_uuid == u
            &&& head(after, f.table_uuid) is Some
            &&& on_record(after, f.table_uuid, f.added)
            &&& f.added.value <= head(after, f.table_uuid)->0.value
            &&& f.removed matches Some(removed) ==> {
                &&& on_record(after, f.table_uuid, removed)
                &&& f.added.value <= removed.value <= head(after, f.table_uuid)->0.value
            }
        } by {
            let f = before.files[u];
            assert(before.files.dom().contains(u));
            assert(head(before, f.table_uuid) is Some);
            assert(on_record(before, f.table_uuid, f.added));
            if f.removed is Some {
                assert(on_record(before, f.table_uuid, f.removed->0));
            }
        }
    }
    assert(schemas_consistent(after)) by {
        assert forall|u: Uuid| #[trigger] after.schemas.dom().contains(u) implies {
            let s = after.schemas[u];
            &&& head(after, s.table_uuid) is Some
            &&& s.valid_from.value <= head(after, s.table_uuid)->0.value
            &&& (s.valid_to matches Some(valid_to) ==> valid_to.value
                <= head(after, s.table_uuid)->0.value)
            &&& (s.valid_to is None ==> after.tables[s.table_uuid].schema_uuid == Some(u))
        } by {
            if before.schemas.dom().contains(u) {
                assert(head(before, before.schemas[u].table_uuid) is Some);
            }
        }
        assert forall|t: Uuid| #[trigger] after.tables.dom().contains(t) implies (
        after.tables[t].schema_uuid matches Some(u) ==> after.schemas.dom().contains(u)
            && after.schemas[u].table_uuid == t && after.schemas[u].valid_to is None) by {
            if t != table_uuid {
                assert(before.tables.dom().contains(t));
            }
        }
        assert forall|a: Uuid, b: Uuid, at: TxnId|
            after.schemas.dom().contains(a) && after.schemas.dom().contains(b) && a != b
                && #[trigger] valid(after.schemas[a], after.schemas[a].table_uuid, at) implies !(
        #[trigger] valid(after.schemas[b], after.schemas[a].table_uuid, at)) by {
            if before.schemas.dom().contains(a) {
                assert(head(before, before.schemas[a].table_uuid) is Some);
            }
            if before.schemas.dom().contains(b) {
                assert(head(before, before.schemas[b].table_uuid) is Some);
            }
            if a != schema_uuid && b != schema_uuid {
                assert(valid(before.schemas[a], before.schemas[a].table_uuid, at));
                assert(!valid(before.schemas[b], before.schemas[a].table_uuid, at));
            }
        }
    }
}

/// A catalog without tables is consistent.
pub proof fn empty_catalogs_are_consistent()
    ensures
        consistent(
            Relations {
                tables: Map::empty(),
                transactions: Map::empty(),
                properties: Map::empty(),
                schemas: Map::empty(),
                columns: Map::empty(),
                files: Map::empty(),
            },
        ),
{
}

/// No statement has more bind parameters than its backend allows.
pub open spec fn fit(db: DbKind, statements: Seq<StatementView>) -> bool {
    forall|i: int| 0 <= i < statements.len() ==> bind_count(#[trigger] statements[i]) <= bind_limit(db)
}

proof fn fit_joined(db: DbKind, a: Seq<StatementView>, b: Seq<StatementView>)
    requires
        fit(db, a),
        fit(db, b),
    ensures
        fit(db, a + b),
{
    assert forall|i: int| 0 <= i < (a + b).len() implies bind_count(#[trigger] (a + b)[i])
        <= bind_limit(db) by {
        if i < a.len() {
            assert((a + b)[i] == a[i]);
        } else {
            assert((a + b)[i] == b[i - a.len()]);
        }
    }
}

proof fn columns_fit(db: DbKind, schema_uuid: Uuid, rows: Seq<ColumnInsertView>)
    ensures
        fit(db, insert_columns(db, schema_uuid, rows)),
{
    let n = columns_chunk(db) as nat;
    batches_fit_bind_limits(db);
    chunks_partition(rows, n);
    assert forall|i: int| 0 <= i < insert_columns(db, schema_uuid, rows).len() implies bind_count(
        #[trigger] insert_columns(db, schema_uuid, rows)[i],
    ) <= bind_limit(db) by {
        assert(chunks(rows, n)[i].len() <= n);
    }
}

proof fn op_fits(env: CommitEnv, st: PlanView, op: OpView)
    requires
        fit(env.db, st.statements),
    ensures
        apply_op(env, st, op) matches StepOutcome::Next(end) ==> fit(env.db, end.statements),
{
    reveal(apply_op);
    batches_fit_bind_limits(env.db);
    if let StepOutcome::Next(end) = apply_op(env, st, op) {
        match op {
            OpView::AppendFiles(specs) => {
                let rows = append_rows(specs, env.ids@, st.used)->Done_0.0;
                let more = insert_files(env.table_uuid, env.transaction_id, rows);
                chunks_partition(rows, BATCH_INSERT_FILES_CHUNK as nat);
                assert forall|i: int| 0 <= i < more.len() implies bind_count(#[trigger] more[i])
                    <= bind_limit(env.db) by {
                    assert(chunks(rows, BATCH_INSERT_FILES_CHUNK as nat)[i].len()
                        <= BATCH_INSERT_FILES_CHUNK);
                }
                fit_joined(env.db, st.statements, more);
            },
            OpView::DeleteFiles(file_uuids) => {
                let more = delete_files(env.table_uuid, env.transaction_id, file_uuids);
                chunks_partition(file_uuids, BATCH_DELETE_FILES_CHUNK as nat);
                assert forall|i: int| 0 <= i < more.len() implies bind_count(#[trigger] more[i])
                    <= bind_limit(env.db) by {
                    assert(chunks(file_uuids, BATCH_DELETE_FILES_CHUNK as nat)[i].len()
                        <= BATCH_DELETE_FILES_CHUNK);
                }
                fit_joined(env.db, st.statements, more);
            },
            OpView::UpdateSchema(columns) => {
                let schema_uuid = env.ids@[st.used as int];
                let two = seq![
                    StatementView::InsertSchema {
                        schema_uuid,
                        table_uuid: env.table_uuid,
                        schema_version: (env.schema->0.schema_version + 1) as i32,
                        valid_from: env.transaction_id,
                        created_at: env.timestamp,
                    },
                    StatementView::CloseSchema {
                        schema_uuid: env.current_schema_uuid->0,
                        valid_to: env.transaction_id,
                    },
                ];
                let rows = new_columns(columns, env.ids@, st.used + 1);
                columns_fit(env.db, schema_uuid, rows);
                fit_joined(env.db, st.statements, two);
                fit_joined(
                    env.db,
                    st.statements + two,
                    insert_columns(env.db, schema_uuid, rows),
                );
            },
            _ => {},
        }
    }
}

proof fn ops_fit(env: CommitEnv, st: PlanView, ops: Seq<OpView>)
    requires
        fit(env.db, st.statements),
    ensures
        apply_ops(env, st, ops) matches StepOutcome::Next(end) ==> fit(env.db, end.statements),
    decreases ops.len(),
{
    if ops.len() > 0 {
        ops_fit(env, st, ops.drop_last());
        if let StepOutcome::Next(mid) = apply_ops(env, st, ops.drop_last()) {
            op_fits(env, mid, ops.last());
        }
    }
}

/// No statement of a commit has more bind parameters than its backend allows.
pub proof fn commit_statements_fit<'a>(
    request: CommitRequest<'a>,
    row: Option<TableRow>,
    schema: Option<&'a CurrentSchema>,
)
    ensures
        commit_outcome(request, row, schema) matches CommitOutcome::Planned(statements) ==> fit(
            request.db,
            statements,
        ),
{
    if let CommitOutcome::Planned(statements) = commit_outcome(request, row, schema) {
        let base = base_of(
            request.protocol,
            *request.ident,
            request.base_transaction_id,
            row,
        )->Ok_0;
        let env = env_of(request, base, schema);
        let start = start_of(request, base);
        let end = commit_end(request, row, schema);
        ops_fit(env, start, request.mutation@);
        let two = seq![statements.drop_last().last(), statements.last()];
        fit_joined(request.db, end.statements, two);
        assert(statements =~= end.statements + two);
    }
}

/// No statement that creates a table has more bind parameters than its backend allows.
pub proof fn creation_statements_fit(request: CreateRequest, exists: bool)
    ensures
        create_outcome(request, exists) matches Outcome::Done(statements) ==> fit(
            request.db,
            statements,
        ),
{
    if let Outcome::Done(all) = create_outcome(request, exists) {
        let schema_uuid = request.ids@[1];
        let rows = new_columns(request.schema@, request.ids@, 2);
        let middle = insert_columns(request.db, schema_uuid, rows);
        columns_fit(request.db, schema_uuid, rows);
        let head = all.take(4);
        assert(all =~= head + middle + seq![all.last()]);
        fit_joined(request.db, head, middle);
        fit_joined(request.db, head + middle, seq![all.last()]);
    }
}

} // verus!
