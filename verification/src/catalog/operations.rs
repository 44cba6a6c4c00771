//! What each operation of a commit comes to, whatever operations stand around it.

use vstd::prelude::*;

use super::commit::{
    append_rows, apply_op, apply_ops, apply_ops_stops, commit_end, commit_outcome, delete_files,
    env_of, files_read_back, insert_columns, insert_files, new_columns, op_reads_back,
    ops_read_back, start_of, CommitEnv, CommitRequest, PlanView, StepOutcome,
};
use super::data_type::{decoded, evolves, stored_bytes, DecodeOutcome};
use super::evolution::{
    accepted_change_keeps_columns, accepted_change_keeps_data_readable, current_of,
    CurrentColumnRow, CurrentSchema,
};
use super::history::{
    base_view, changes_schema, commit_runs, commits_carry_files, commits_show_their_work,
    current_files_are_live, inserted_files, rows_tell_current, schema_given, statements_grow,
};
use super::models::{ColumnSpecView, TxnId};
use super::mutation::{FileSpecView, OpView};
use super::read::read_files_outcome;
use super::recall::{
    decoded_rows_are_sound, each_file_has_its_row, file_rows_decode, inserted_rows_stay,
    row_has_spec, row_id, rows_tell_files, shows, shows_spec,
};
use super::relations::{
    columns_in, consistent, files_at, files_inserted, files_marked, names_differ,
    pieces_add_columns, pieces_insert_all, pieces_mark_all, run, run_all, runs_join, FileRecord, Relations,
};
use super::rows::{file_of, FileRow, TableRow};
use super::schema::FileView;
use super::statements::{ColumnInsertView, FileInsertView, StatementView};
use crate::ids::Uuid;
use crate::json::JsonObject;

verus! {

/// How far a commit has come before one of its operations.
pub open spec fn plan_before(
    env: CommitEnv,
    start: PlanView,
    ops: Seq<OpView>,
    o: int,
) -> PlanView {
    apply_ops(env, start, ops.take(o))->Next_0
}

proof fn each_operation_is_reached(env: CommitEnv, start: PlanView, ops: Seq<OpView>, o: int)
    requires
        apply_ops(env, start, ops) is Next,
        0 <= o < ops.len(),
    ensures
        apply_ops(env, start, ops.take(o)) is Next,
        apply_op(env, plan_before(env, start, ops, o), ops[o]) is Next,
        apply_ops(env, start, ops.take(o + 1)) == apply_op(
            env,
            plan_before(env, start, ops, o),
            ops[o],
        ),
{
    if !(apply_ops(env, start, ops.take(o)) is Next) {
        apply_ops_stops(env, start, ops, o as nat);
    }
    if !(apply_ops(env, start, ops.take(o + 1)) is Next) {
        apply_ops_stops(env, start, ops, (o + 1) as nat);
    }
    assert(ops.take(o + 1).drop_last() =~= ops.take(o));
    assert(ops.take(o + 1).last() == ops[o]);
}

proof fn each_row_is_decoded(rows: Seq<CurrentColumnRow>)
    requires
        current_of(rows) is Done,
    ensures
        current_of(rows)->Done_0.len() == rows.len(),
        forall|i: int|
            0 <= i < rows.len() ==> (#[trigger] current_of(rows)->Done_0[i]) == (ColumnSpecView {
                name: rows[i].column_name@,
                column_type: decoded(rows[i].column_type@)->Type_0,
                is_nullable: rows[i].is_nullable,
            }) && decoded(rows[i].column_type@) is Type,
    decreases rows.len(),
{
    if rows.len() > 0 {
        let few = rows.drop_last();
        each_row_is_decoded(few);
        assert forall|i: int| 0 <= i < rows.len() implies (#[trigger] current_of(rows)->Done_0[i])
            == (ColumnSpecView {
            name: rows[i].column_name@,
            column_type: decoded(rows[i].column_type@)->Type_0,
            is_nullable: rows[i].is_nullable,
        }) && decoded(rows[i].column_type@) is Type by {
            if i < few.len() {
                assert(current_of(few)->Done_0[i] == current_of(rows)->Done_0[i]);
                assert(few[i] == rows[i]);
            }
        }
    }
}

/// A stored column is kept in another: under its name, with a type that its own evolves to, and
/// nullable if it was.
pub open spec fn column_kept(
    old: ColumnInsertView,
    new: ColumnInsertView,
    new_type: ColumnSpecView,
) -> bool {
    &&& new.name == old.name
    &&& new.encoded_type == stored_bytes(new_type.column_type)
    &&& decoded(old.encoded_type) matches DecodeOutcome::Type(old_type) && evolves(
        old_type,
        new_type.column_type,
    )
    &&& old.is_nullable ==> new.is_nullable
}

/// A commit that gives a table a new schema gives it the version after the stored one, and keeps
/// every stored column: none is dropped, narrowed or kept from holding the nulls that it may have.
pub proof fn schema_changes_keep_stored_columns<'a>(
    before: Relations,
    after: Relations,
    request: CommitRequest<'a>,
    table_uuid: Uuid,
    row: TableRow,
    schema: &'a CurrentSchema,
    i: int,
)
    requires
        consistent(before),
        commit_runs(before, after, request, table_uuid, row, Some(schema)),
        changes_schema(request.mutation@),
        before.tables[table_uuid].schema_uuid matches Some(old) && rows_tell_current(
            *schema,
            before,
            old,
        ),
        0 <= i < columns_in(before.columns, before.tables[table_uuid].schema_uuid->0).len(),
    ensures
        ({
            let old = before.tables[table_uuid].schema_uuid->0;
            let new = after.tables[table_uuid].schema_uuid->0;
            let given = schema_given(request.mutation@);
            let columns = columns_in(after.columns, new);
            &&& after.schemas[new].schema_version == before.schemas[old].schema_version + 1
            &&& columns.len() == given.len()
            &&& exists|j: int|
                0 <= j < columns.len() && column_kept(
                    columns_in(before.columns, old)[i],
                    #[trigger] columns[j],
                    given[j],
                )
        }),
{
    commits_show_their_work(before, after, request, table_uuid, row, Some(schema));
    reveal(apply_op);
    let ops = request.mutation@;
    let base = base_view(request, row);
    let env = env_of(request, base, Some(schema));
    let start = start_of(request, base);
    let old = before.tables[table_uuid].schema_uuid->0;
    let new = after.tables[table_uuid].schema_uuid->0;
    let stored = columns_in(before.columns, old);
    let columns = columns_in(after.columns, new);
    let given = schema_given(ops);
    let o = choose|o: int| 0 <= o < ops.len() && #[trigger] ops[o] is UpdateSchema;
    each_operation_is_reached(env, start, ops, o);
    let current = current_of(schema.columns@)->Done_0;
    each_row_is_decoded(schema.columns@);
    let first = choose|first: nat| #[trigger] new_columns(given, request.ids@, first) == columns;
    assert(new_columns(given, request.ids@, first) == columns);
    accepted_change_keeps_columns(current, given, i);
    assert(names_differ(stored));
    assert forall|a: int, b: int| 0 <= a < b < current.len() implies (#[trigger] current[a]).name
        != (#[trigger] current[b]).name by {
        assert(schema.columns@[a].column_name@ == stored[a].name);
        assert(schema.columns@[b].column_name@ == stored[b].name);
    }
    let j = choose|j: int| 0 <= j < given.len() && (#[trigger] given[j]).name == current[i].name;
    assert(given[j].name == current[i].name);
    accepted_change_keeps_data_readable(current, given, i, j);
    assert(schema.columns@[i].column_name@ == stored[i].name);
    assert(column_kept(stored[i], columns[j], given[j]));
}

/// A later operation deletes a file.
pub open spec fn deleted_after(ops: Seq<OpView>, o: int, u: Uuid) -> bool {
    exists|p: int|
        o < p < ops.len() && (#[trigger] ops[p] matches OpView::DeleteFiles(uuids) && uuids.contains(
            u,
        ))
}

/// The rows that an operation which appends files inserts.
pub open spec fn rows_appended(
    env: CommitEnv,
    start: PlanView,
    ops: Seq<OpView>,
    o: int,
) -> Seq<FileInsertView> {
    append_rows(ops[o]->AppendFiles_0, env.ids@, plan_before(env, start, ops, o).used)->Done_0.0
}

proof fn new_schemas_keep_files(
    before: Relations,
    now: Relations,
    next: Relations,
    env: CommitEnv,
    st: PlanView,
    end: PlanView,
    columns: Seq<ColumnSpecView>,
)
    requires
        apply_op(env, st, OpView::UpdateSchema(columns)) == StepOutcome::Next(end),
        run_all(before, st.statements) == Some(now),
        run_all(before, end.statements) == Some(next),
    ensures
        next.files == now.files,
{
    reveal(apply_op);
    let schema_uuid = env.ids@[st.used as int];
    let a = StatementView::InsertSchema {
        schema_uuid,
        table_uuid: env.table_uuid,
        schema_version: (env.schema->0.schema_version + 1) as i32,
        valid_from: env.transaction_id,
        created_at: env.timestamp,
    };
    let b = StatementView::CloseSchema {
        schema_uuid: env.current_schema_uuid->0,
        valid_to: env.transaction_id,
    };
    let rows = new_columns(columns, env.ids@, st.used + 1);
    let more = insert_columns(env.db, schema_uuid, rows);
    assert(end.statements == st.statements + seq![a, b] + more);
    runs_join(before, st.statements + seq![a, b], more);
    runs_join(before, st.statements, seq![a, b]);
    let none = Seq::<StatementView>::empty();
    assert(seq![a, b].drop_last() =~= seq![a]);
    assert(seq![a].drop_last() =~= none);
    assert(run_all(now, none) == Some(now));
    assert(run_all(now, seq![a]) == run(now, a));
    let one = run(now, a)->0;
    assert(run_all(now, seq![a, b]) == run(one, b));
    let two = run(one, b)->0;
    pieces_add_columns(two, env.db, schema_uuid, rows);
}

/// What an operation does to the files on record.
pub open spec fn files_stepped(
    files: Map<Uuid, FileRecord>,
    env: CommitEnv,
    st: PlanView,
    op: OpView,
) -> Option<Map<Uuid, FileRecord>> {
    match op {
        OpView::AppendFiles(specs) => files_inserted(
            files,
            env.table_uuid,
            env.transaction_id,
            append_rows(specs, env.ids@, st.used)->Done_0.0,
        ),
        OpView::DeleteFiles(uuids) => Some(
            files_marked(files, env.table_uuid, env.transaction_id, uuids),
        ),
        _ => Some(files),
    }
}

proof fn step_changes_files(
    before: Relations,
    next: Relations,
    env: CommitEnv,
    st: PlanView,
    end: PlanView,
    op: OpView,
)
    requires
        apply_op(env, st, op) == StepOutcome::Next(end),
        run_all(before, end.statements) == Some(next),
    ensures
        run_all(before, st.statements) is Some,
        files_stepped(run_all(before, st.statements)->0.files, env, st, op) == Some(next.files),
{
    statements_grow(env, st, op);
    let more = choose|more: Seq<StatementView>|
        end.statements == #[trigger] (st.statements + more);
    runs_join(before, st.statements, more);
    let now = run_all(before, st.statements)->0;
    match op {
        OpView::AppendFiles(specs) => {
            reveal(apply_op);
            let rows = append_rows(specs, env.ids@, st.used)->Done_0.0;
            runs_join(
                before,
                st.statements,
                insert_files(env.table_uuid, env.transaction_id, rows),
            );
            pieces_insert_all(now, env.table_uuid, env.transaction_id, rows);
        },
        OpView::DeleteFiles(uuids) => {
            reveal(apply_op);
            runs_join(
                before,
                st.statements,
                delete_files(env.table_uuid, env.transaction_id, uuids),
            );
            pieces_mark_all(now, env.table_uuid, env.transaction_id, uuids);
        },
        OpView::UpdateSchema(columns) => {
            new_schemas_keep_files(before, now, next, env, st, end, columns);
        },
        _ => {
            reveal(apply_op);
            assert(end.statements == st.statements);
        },
    }
}

proof fn appended_rows_stay(
    before: Relations,
    after: Relations,
    env: CommitEnv,
    start: PlanView,
    ops: Seq<OpView>,
    o: int,
    k: int,
)
    requires
        apply_ops(env, start, ops) is Next,
        run_all(before, apply_ops(env, start, ops)->Next_0.statements) == Some(after),
        0 <= o < ops.len(),
        ops[o] is AppendFiles,
        0 <= k < rows_appended(env, start, ops, o).len(),
    ensures
        ({
            let row = rows_appended(env, start, ops, o)[k];
            &&& after.files.dom().contains(row.file_uuid)
            &&& after.files[row.file_uuid] == (FileRecord {
                table_uuid: env.table_uuid,
                added: env.transaction_id,
                removed: if deleted_after(ops, o, row.file_uuid) {
                    Some(env.transaction_id)
                } else {
                    None
                },
                file: row,
            })
        }),
    decreases ops.len(),
{
    let front = ops.drop_last();
    let op = ops.last();
    let st = apply_ops(env, start, front)->Next_0;
    let end = apply_ops(env, start, ops)->Next_0;
    let rows = rows_appended(env, start, ops, o);
    let u = rows[k].file_uuid;
    step_changes_files(before, after, env, st, end, op);
    let now = run_all(before, st.statements)->0;
    if o == ops.len() - 1 {
        assert(ops.take(o) =~= front);
        inserted_rows_stay(now.files, env.table_uuid, env.transaction_id, rows, k);
        assert(!deleted_after(ops, o, u));
    } else {
        assert(front.take(o) =~= ops.take(o));
        assert(front[o] == ops[o]);
        appended_rows_stay(before, now, env, start, front, o, k);
        let last = ops.len() - 1;
        assert(ops[last] == op);
        let gone = op matches OpView::DeleteFiles(uuids) && uuids.contains(u);
        assert(deleted_after(ops, o, u) == (deleted_after(front, o, u) || gone)) by {
            if deleted_after(ops, o, u) {
                let p = choose|p: int|
                    o < p < ops.len() && (#[trigger] ops[p] matches OpView::DeleteFiles(uuids)
                        && uuids.contains(u));
                if p < last {
                    assert(front[p] == ops[p]);
                }
            }
            if deleted_after(front, o, u) {
                let p = choose|p: int|
                    o < p < front.len() && (#[trigger] front[p] matches OpView::DeleteFiles(uuids)
                        && uuids.contains(u));
                assert(ops[p] == front[p]);
            }
        }
        if let OpView::AppendFiles(specs) = op {
            inserted_files(
                now.files,
                env.table_uuid,
                env.transaction_id,
                append_rows(specs, env.ids@, st.used)->Done_0.0,
            );
        }
    }
}

/// A file is one that an operation appends.
pub open spec fn appended_by(
    env: CommitEnv,
    start: PlanView,
    ops: Seq<OpView>,
    o: int,
    k: int,
    u: Uuid,
) -> bool {
    &&& 0 <= o < ops.len()
    &&& ops[o] is AppendFiles
    &&& 0 <= k < rows_appended(env, start, ops, o).len()
    &&& rows_appended(env, start, ops, o)[k].file_uuid == u
}

proof fn inserted_files_have_rows(
    files: Map<Uuid, FileRecord>,
    table_uuid: Uuid,
    id: TxnId,
    rows: Seq<FileInsertView>,
    u: Uuid,
) -> (k: int)
    requires
        files_inserted(files, table_uuid, id, rows) matches Some(after) && after.dom().contains(u),
        !files.dom().contains(u),
    ensures
        0 <= k < rows.len(),
        rows[k].file_uuid == u,
    decreases rows.len(),
{
    if rows.last().file_uuid == u {
        rows.len() - 1
    } else {
        inserted_files_have_rows(files, table_uuid, id, rows.drop_last(), u)
    }
}

proof fn new_files_were_appended(
    before: Relations,
    after: Relations,
    env: CommitEnv,
    start: PlanView,
    ops: Seq<OpView>,
    u: Uuid,
) -> (place: (int, int))
    requires
        apply_ops(env, start, ops) is Next,
        run_all(before, start.statements) matches Some(begin) && begin.files == before.files,
        run_all(before, apply_ops(env, start, ops)->Next_0.statements) == Some(after),
        after.files.dom().contains(u),
        !before.files.dom().contains(u),
    ensures
        appended_by(env, start, ops, place.0, place.1, u),
    decreases ops.len(),
{
    let front = ops.drop_last();
    let op = ops.last();
    let st = apply_ops(env, start, front)->Next_0;
    let end = apply_ops(env, start, ops)->Next_0;
    step_changes_files(before, after, env, st, end, op);
    let now = run_all(before, st.statements)->0;
    let last = ops.len() - 1;
    if now.files.dom().contains(u) {
        let place = new_files_were_appended(before, now, env, start, front, u);
        assert(front.take(place.0) =~= ops.take(place.0));
        assert(front[place.0] == ops[place.0]);
        place
    } else {
        assert(ops.take(last) =~= front);
        let rows = rows_appended(env, start, ops, last);
        let k = inserted_files_have_rows(
            now.files,
            env.table_uuid,
            env.transaction_id,
            rows,
            u,
        );
        (last, k)
    }
}

proof fn commit_runs_its_operations<'a>(
    before: Relations,
    after: Relations,
    request: CommitRequest<'a>,
    table_uuid: Uuid,
    row: TableRow,
    schema: Option<&'a CurrentSchema>,
)
    requires
        commit_runs(before, after, request, table_uuid, row, schema),
    ensures
        ({
            let base = base_view(request, row);
            let start = start_of(request, base);
            let done = apply_ops(env_of(request, base, schema), start, request.mutation@);
            &&& base.table_uuid == table_uuid
            &&& done is Next
            &&& run_all(before, done->Next_0.statements) matches Some(now) && now.files
                == after.files
            &&& run_all(before, start.statements) matches Some(begin) ==> begin.files
                == before.files
        }),
{
    let base = base_view(request, row);
    let start = start_of(request, base);
    let end = commit_end(request, Some(row), schema);
    let all = commit_outcome(request, Some(row), schema)->Planned_0;
    assert(all.drop_last().drop_last() =~= end.statements);
    let then = run_all(before, end.statements)->0;
    assert(run_all(before, all.drop_last()) == run(then, all.drop_last().last()));
    let first = start.statements[0];
    assert(start.statements =~= seq![first]);
    assert(start.statements.drop_last() =~= Seq::<StatementView>::empty());
    assert(run_all(before, Seq::<StatementView>::empty()) == Some(before));
    assert(run_all(before, start.statements) == run(before, first));
}

/// What any operation of a mutation appends to a table is read back: unless a later operation
/// deletes the file, reading the table at the transaction of the commit shows it as it was asked
/// for.
pub proof fn appended_files_are_read<'a>(
    before: Relations,
    after: Relations,
    request: CommitRequest<'a>,
    table_uuid: Uuid,
    row: TableRow,
    schema: Option<&'a CurrentSchema>,
    o: int,
    k: int,
    rows: Seq<FileRow>,
)
    requires
        commit_runs(before, after, request, table_uuid, row, schema),
        0 <= o < request.mutation@.len(),
        request.mutation@[o] matches OpView::AppendFiles(specs) && 0 <= k < specs.len()
            && files_read_back(specs),
        rows_tell_files(
            rows,
            after.files,
            files_at(after, table_uuid, request.transaction_id).dom(),
        ),
    ensures
        ({
            let ops = request.mutation@;
            let spec_view = ops[o]->AppendFiles_0[k];
            let base = base_view(request, row);
            let appended = rows_appended(
                env_of(request, base, schema),
                start_of(request, base),
                ops,
                o,
            );
            let u = appended[k].file_uuid;
            &&& appended.len() == ops[o]->AppendFiles_0.len()
            &&& (spec_view.file_uuid matches Some(given) ==> u == given)
            &&& files_at(after, table_uuid, request.transaction_id).dom().contains(u)
                == !deleted_after(ops, o, u)
            &&& read_files_outcome(rows) matches Ok(files) ==> !deleted_after(ops, o, u) ==> exists|
                i: int,
            |
                0 <= i < files.len() && (#[trigger] files[i]).file_uuid == u && shows_spec(
                    files[i],
                    spec_view,
                    request.transaction_id,
                )
        }),
{
    commit_runs_its_operations(before, after, request, table_uuid, row, schema);
    let ops = request.mutation@;
    let specs = ops[o]->AppendFiles_0;
    let base = base_view(request, row);
    let env = env_of(request, base, schema);
    let start = start_of(request, base);
    let st = plan_before(env, start, ops, o);
    each_operation_is_reached(env, start, ops, o);
    assert(append_rows(specs, env.ids@, st.used) is Done) by {
        reveal(apply_op);
    }
    each_file_has_its_row(specs, env.ids@, st.used);
    let appended = rows_appended(env, start, ops, o);
    assert(row_has_spec(appended[k], specs[k]));
    let u = appended[k].file_uuid;
    let now = run_all(before, apply_ops(env, start, ops)->Next_0.statements)->0;
    appended_rows_stay(before, now, env, start, ops, o, k);
    let record = after.files[u];
    if !deleted_after(ops, o, u) {
        if let Ok(files) = read_files_outcome(rows) {
            assert(files_at(after, table_uuid, request.transaction_id).dom().contains(u));
            let i = choose|i: int| 0 <= i < rows.len() && row_id(#[trigger] rows[i]) == u;
            decoded_rows_are_sound(rows);
            file_rows_decode(rows[i], u, record);
            assert(files[i] == file_of(rows[i])->Ok_0);
            assert(shows(files[i], u, record));
            assert(shows_spec(files[i], specs[k], request.transaction_id));
        }
    }
}

/// A file is shown as one of the operations asked for it to be appended.
pub open spec fn shown_as_asked(view: FileView, ops: Seq<OpView>, id: TxnId) -> bool {
    exists|o: int, k: int|
        0 <= o < ops.len() && ops[o] is AppendFiles && 0 <= k < ops[o]->AppendFiles_0.len()
            && #[trigger] shows_spec(view, ops[o]->AppendFiles_0[k], id)
}

/// Every file that is read at the transaction of a commit is shown as it was before the commit, or
/// as one of the operations asked for it to be appended.
pub proof fn read_files_are_old_or_asked_for<'a>(
    before: Relations,
    after: Relations,
    request: CommitRequest<'a>,
    table_uuid: Uuid,
    row: TableRow,
    schema: Option<&'a CurrentSchema>,
    rows: Seq<FileRow>,
    i: int,
)
    requires
        consistent(before),
        commit_runs(before, after, request, table_uuid, row, schema),
        ops_read_back(request.mutation@),
        rows_tell_files(
            rows,
            after.files,
            files_at(after, table_uuid, request.transaction_id).dom(),
        ),
        0 <= i < rows.len(),
    ensures
        read_files_outcome(rows) matches Ok(files) ==> {
            let u = files[i].file_uuid;
            ||| before.files.dom().contains(u) && shows(files[i], u, before.files[u])
            ||| !before.files.dom().contains(u) && shown_as_asked(
                files[i],
                request.mutation@,
                request.transaction_id,
            )
        },
{
    if let Ok(files) = read_files_outcome(rows) {
        let ops = request.mutation@;
        let id = request.transaction_id;
        decoded_rows_are_sound(rows);
        let u = row_id(rows[i]);
        assert(files_at(after, table_uuid, id).dom().contains(u));
        file_rows_decode(rows[i], u, after.files[u]);
        assert(files[i] == file_of(rows[i])->Ok_0);
        assert(shows(files[i], u, after.files[u]));
        commits_carry_files(before, after, request, table_uuid, row, schema);
        if !before.files.dom().contains(u) {
            commit_runs_its_operations(before, after, request, table_uuid, row, schema);
            let base = base_view(request, row);
            let env = env_of(request, base, schema);
            let start = start_of(request, base);
            let now = run_all(before, apply_ops(env, start, ops)->Next_0.statements)->0;
            starts_run(before, env, start, ops);
            let place = new_files_were_appended(before, now, env, start, ops, u);
            let (o, k) = place;
            each_operation_is_reached(env, start, ops, o);
            let specs = ops[o]->AppendFiles_0;
            let st = plan_before(env, start, ops, o);
            assert(append_rows(specs, env.ids@, st.used) is Done) by {
                reveal(apply_op);
            }
            each_file_has_its_row(specs, env.ids@, st.used);
            assert(row_has_spec(rows_appended(env, start, ops, o)[k], specs[k]));
            appended_rows_stay(before, now, env, start, ops, o, k);
            assert(op_reads_back(ops[o]));
            assert(shows_spec(files[i], specs[k], id));
            assert(shows_spec(files[i], ops[o]->AppendFiles_0[k], id));
        } else {
            assert(before.files[u] == after.files[u]);
        }
    }
}

proof fn starts_run(before: Relations, env: CommitEnv, start: PlanView, ops: Seq<OpView>)
    requires
        apply_ops(env, start, ops) is Next,
        run_all(before, apply_ops(env, start, ops)->Next_0.statements) is Some,
    ensures
        run_all(before, start.statements) is Some,
    decreases ops.len(),
{
    if ops.len() > 0 {
        let front = ops.drop_last();
        let st = apply_ops(env, start, front)->Next_0;
        let end = apply_ops(env, start, ops)->Next_0;
        step_changes_files(
            before,
            run_all(before, end.statements)->0,
            env,
            st,
            end,
            ops.last(),
        );
        starts_run(before, env, start, front);
    }
}

/// A commit deletes a file: one of its operations names it.
pub open spec fn deletes(ops: Seq<OpView>, u: Uuid) -> bool {
    exists|p: int|
        0 <= p < ops.len() && (#[trigger] ops[p] matches OpView::DeleteFiles(uuids)
            && uuids.contains(u))
}

proof fn known_files_stay(
    before: Relations,
    after: Relations,
    env: CommitEnv,
    start: PlanView,
    ops: Seq<OpView>,
    u: Uuid,
)
    requires
        apply_ops(env, start, ops) is Next,
        run_all(before, start.statements) matches Some(begin) && begin.files == before.files,
        run_all(before, apply_ops(env, start, ops)->Next_0.statements) == Some(after),
        before.files.dom().contains(u),
    ensures
        after.files.dom().contains(u),
        after.files[u] == (if deletes(ops, u) && before.files[u].table_uuid == env.table_uuid
            && before.files[u].removed is None {
            FileRecord { removed: Some(env.transaction_id), ..before.files[u] }
        } else {
            before.files[u]
        }),
    decreases ops.len(),
{
    if ops.len() == 0 {
        assert(!deletes(ops, u));
    } else {
        let front = ops.drop_last();
        let op = ops.last();
        let n = ops.len() - 1;
        let st = apply_ops(env, start, front)->Next_0;
        let end = apply_ops(env, start, ops)->Next_0;
        step_changes_files(before, after, env, st, end, op);
        let now = run_all(before, st.statements)->0;
        known_files_stay(before, now, env, start, front, u);
        assert(ops[n] == op);
        let gone = op matches OpView::DeleteFiles(uuids) && uuids.contains(u);
        assert(deletes(ops, u) == (deletes(front, u) || gone)) by {
            if deletes(ops, u) {
                let p = choose|p: int|
                    0 <= p < ops.len() && (#[trigger] ops[p] matches OpView::DeleteFiles(uuids)
                        && uuids.contains(u));
                if p < n {
                    assert(front[p] == ops[p]);
                }
            }
            if deletes(front, u) {
                let p = choose|p: int|
                    0 <= p < front.len() && (#[trigger] front[p] matches OpView::DeleteFiles(uuids)
                        && uuids.contains(u));
                assert(ops[p] == front[p]);
            }
        }
        if let OpView::AppendFiles(specs) = op {
            inserted_files(
                now.files,
                env.table_uuid,
                env.transaction_id,
                append_rows(specs, env.ids@, st.used)->Done_0.0,
            );
        }
    }
}

/// A file that a table has where a commit starts is there after it exactly if no operation deletes
/// it, and is as it was. One that an operation deletes is marked with the transaction, and is there
/// still at every transaction before it.
pub proof fn deleted_files_go_and_others_stay<'a>(
    before: Relations,
    after: Relations,
    request: CommitRequest<'a>,
    table_uuid: Uuid,
    row: TableRow,
    schema: Option<&'a CurrentSchema>,
    u: Uuid,
)
    requires
        consistent(before),
        commit_runs(before, after, request, table_uuid, row, schema),
        files_at(before, table_uuid, request.base_transaction_id).dom().contains(u),
    ensures
        ({
            let id = request.transaction_id;
            &&& files_at(after, table_uuid, id).dom().contains(u) <==> !deletes(
                request.mutation@,
                u,
            )
            &&& deletes(request.mutation@, u) ==> after.files[u].removed == Some(id)
            &&& after.files[u].file == before.files[u].file
            &&& after.files[u].added == before.files[u].added
            &&& files_at(after, table_uuid, request.base_transaction_id).dom().contains(u)
        }),
{
    commit_runs_its_operations(before, after, request, table_uuid, row, schema);
    let ops = request.mutation@;
    let base = base_view(request, row);
    let env = env_of(request, base, schema);
    let start = start_of(request, base);
    let now = run_all(before, apply_ops(env, start, ops)->Next_0.statements)->0;
    starts_run(before, env, start, ops);
    known_files_stay(before, now, env, start, ops, u);
    commits_show_their_work(before, after, request, table_uuid, row, schema);
    current_files_are_live(before, table_uuid, request.base_transaction_id);
    assert(before.files.dom().contains(u));
    assert(before.files[u].removed is None);
}

/// What a commit leaves of the properties of a table, where its operations leave them alone: all of
/// them.
pub proof fn properties_stay_unless_told<'a>(
    request: CommitRequest<'a>,
    row: TableRow,
    schema: Option<&'a CurrentSchema>,
    ops: Seq<OpView>,
)
    requires
        forall|i: int|
            0 <= i < ops.len() ==> !(#[trigger] ops[i] is SetProperties)
                && !(ops[i] is RemoveProperties),
    ensures
        ({
            let base = base_view(request, row);
            apply_ops(env_of(request, base, schema), start_of(request, base), ops)
                matches StepOutcome::Next(end) ==> end.properties == base.properties
        }),
    decreases ops.len(),
{
    if ops.len() > 0 {
        let front = ops.drop_last();
        let n = ops.len() - 1;
        assert forall|i: int| 0 <= i < front.len() implies !(#[trigger] front[i] is SetProperties)
            && !(front[i] is RemoveProperties) by {
            assert(front[i] == ops[i]);
        }
        properties_stay_unless_told(request, row, schema, front);
        assert(ops[n] == ops.last());
        reveal(apply_op);
    }
}

/// A commit whose last operation sets the properties of a table leaves those alone.
pub proof fn properties_are_as_last_set<'a>(
    request: CommitRequest<'a>,
    row: TableRow,
    schema: Option<&'a CurrentSchema>,
    properties: JsonObject,
)
    requires
        commit_outcome(request, Some(row), schema) is Planned,
        request.mutation@.len() > 0,
        request.mutation@.last() == OpView::SetProperties(properties),
    ensures
        commit_end(request, Some(row), schema).properties == properties,
{
    reveal(apply_op);
}

/// The number of files among some that come without a UUID.
pub open spec fn unnamed(files: Seq<FileSpecView>) -> nat
    decreases files.len(),
{
    if files.len() == 0 {
        0
    } else {
        unnamed(files.drop_last()) + (if files.last().file_uuid is None {
            1nat
        } else {
            0
        })
    }
}

/// Each file keeps the UUID that it comes with. Those that come without one get the fresh ones, in
/// their order and none of them twice.
pub proof fn fresh_ids_are_given_once(files: Seq<FileSpecView>, ids: Seq<Uuid>, used: nat, k: int)
    requires
        append_rows(files, ids, used) is Done,
        0 <= k < files.len(),
    ensures
        ({
            let (rows, now) = append_rows(files, ids, used)->Done_0;
            &&& rows.len() == files.len()
            &&& now == used + unnamed(files)
            &&& (files[k].file_uuid matches Some(u) ==> rows[k].file_uuid == u)
            &&& (files[k].file_uuid is None ==> rows[k].file_uuid == ids[(used + unnamed(
                files.take(k),
            )) as int] && unnamed(files.take(k)) < unnamed(files.take(k + 1)) <= unnamed(files))
        }),
    decreases files.len(),
{
    let front = files.drop_last();
    let n = files.len() - 1;
    count_of_fresh(front, ids, used);
    count_of_fresh(files, ids, used);
    let rows = append_rows(files, ids, used)->Done_0.0;
    let few = append_rows(front, ids, used)->Done_0.0;
    if k < n {
        fresh_ids_are_given_once(front, ids, used, k);
        assert(front.take(k) =~= files.take(k));
        assert(front.take(k + 1) =~= files.take(k + 1));
        assert(front[k] == files[k]);
        assert(rows[k] == few[k]);
    } else {
        assert(files.take(k) =~= front);
        assert(files.take(k + 1) =~= files);
    }
}

proof fn count_of_fresh(files: Seq<FileSpecView>, ids: Seq<Uuid>, used: nat)
    requires
        append_rows(files, ids, used) is Done,
    ensures
        append_rows(files, ids, used)->Done_0.0.len() == files.len(),
        append_rows(files, ids, used)->Done_0.1 == used + unnamed(files),
    decreases files.len(),
{
    if files.len() > 0 {
        count_of_fresh(files.drop_last(), ids, used);
    }
}

/// What operations take of the fresh UUIDs they take one after the other: files that come without
/// one as many as they are, a new schema one for itself and one for each column, and nothing else
/// any.
pub proof fn operations_share_no_ids(env: CommitEnv, st: PlanView, op: OpView)
    ensures
        apply_op(env, st, op) matches StepOutcome::Next(end) ==> {
            &&& op matches OpView::AppendFiles(files) ==> end.used == st.used + unnamed(files)
            &&& op matches OpView::UpdateSchema(columns) ==> end.used == st.used + 1 + columns.len()
                && end.schema_uuid == Some(env.ids@[st.used as int])
            &&& !(op is AppendFiles) && !(op is UpdateSchema) ==> end.used == st.used
        },
{
    reveal(apply_op);
    if let OpView::AppendFiles(files) = op {
        if append_rows(files, env.ids@, st.used) is Done {
            count_of_fresh(files, env.ids@, st.used);
        }
    }
}

} // verus!
