//! What holds of a table from its creation to its end, as its readers see it.

use vstd::prelude::*;

use super::changes::{logs_tell_the_difference, rows_tell_range};
use super::commit::{
    apply_ops, apply_ops_stops, base_of, commit_end, commit_outcome, env_of, start_of,
    table_not_found, types_read_back, CommitOutcome, CommitRequest,
};
use super::create::{
    create_outcome, drop_outcome, given_properties, CreateRequest, INITIAL_SCHEMA_VERSION,
};
use super::data_type::{readable, stored_field};
use super::delta::{all_changes, net_of, new_properties_of, new_schema_of};
use super::error::{ErrorView, Refusal};
use super::events::{events_outcome, EventRows, EventView};
use super::evolution::CurrentSchema;
use super::helpers::{json_reads_back, parsed_properties, text_option};
use super::history::{
    base_view, changes_schema, commit_runs, commits_show_their_work, created_tables_are_there,
    creation_runs, creations_keep_consistency, files_after, row_tells_table,
};
use super::models::{ident_text, schema_flaw, TableIdent, TxnId};
use super::protocol::ProtocolVersions;
use super::read::{read_base_of, read_outcome, ReadRows, ReadView};
use super::recall::{
    decoded_rows_are_sound, given_columns_are_read, row_id, row_tells_schema, rows_tell_columns,
    rows_tell_files, schema_rows_decode, shows_column, shows_schema,
};
use super::relations::{
    columns_consistent, columns_in, consistent, files_at, files_consistent, head, names_consistent,
    names_differ, on_record, properties_at, properties_consistent, properties_known,
    properties_last, run, run_all, runs_join, same_properties_count, schemas_at, schemas_consistent,
    tables_named, transactions_consistent, valid, Relations, SchemaRecord,
};
use super::rows::{file_of, Outcome, TableRow};
use super::schema::{FileView, SchemaView};
use super::statements::{ColumnInsertView, FileInsertView, StatementView};
use crate::ids::Uuid;
use crate::json::{plain_json, same_object, values_equal_themselves, JsonModel};

verus! {

/// A row is what a search for a table by its name finds.
pub open spec fn row_found(row: Option<TableRow>, db: Relations, ident: TableIdent) -> bool {
    match row {
        Some(row) => exists|u: Uuid|
            tables_named(db, ident.namespace@, ident.name@).contains(u) && #[trigger] row_tells_table(
                row,
                db,
                u,
            ),
        None => tables_named(db, ident.namespace@, ident.name@) == Set::<Uuid>::empty(),
    }
}

/// Rows tell what a table has at a transaction: its schema with the columns, its properties and
/// its files.
pub open spec fn rows_tell_snapshot(
    rows: ReadRows,
    db: Relations,
    table_uuid: Uuid,
    at: TxnId,
) -> bool {
    &&& match rows.schema {
        Some(row) => exists|u: Uuid|
            schemas_at(db, table_uuid, at).contains(u) && #[trigger] row_tells_schema(
                row,
                u,
                db.schemas[u],
            ) && rows_tell_columns(rows.columns@, u, columns_in(db.columns, u)),
        None => schemas_at(db, table_uuid, at) == Set::<Uuid>::empty(),
    }
    &&& text_option(rows.properties) == properties_at(db, table_uuid, at)
    &&& rows_tell_files(rows.files@, db.files, files_at(db, table_uuid, at).dom())
}

/// A table reads back as it was created: found by its name, it is read at its first transaction,
/// with the first version of its schema, the columns that were given, in their order and counted
/// from 1, no files, and the properties that were given, or none. That types and properties come
/// back needs that they lose nothing in how they are stored.
pub proof fn created_tables_read_back(
    before: Relations,
    after: Relations,
    request: CreateRequest,
    taken: bool,
    row: Option<TableRow>,
    rows: ReadRows,
)
    requires
        consistent(before),
        creation_runs(before, after, request, taken),
        types_read_back(request.schema@),
        json_reads_back(JsonModel::Object(given_properties(request.properties))),
        row_found(row, after, *request.ident),
        rows_tell_snapshot(rows, after, request.ids@[0], request.transaction_id),
        rows.stats is None,
        plain_json(JsonModel::Object(given_properties(request.properties)), 127),
        forall|i: int|
            0 <= i < request.schema@.len() ==> readable(
                stored_field((#[trigger] request.schema@[i]).column_type),
            ),
    ensures
        ({
            let base = ReadView {
                table_uuid: request.ids@[0],
                transaction_id: request.transaction_id,
            };
            let given = request.schema@;
            &&& read_base_of(request.protocol, *request.ident, row, None)
                == std::result::Result::<ReadView, ErrorView>::Ok(base)
            &&& read_outcome(*request.ident, base, rows) matches Outcome::Done(view) && {
                &&& view.table_uuid == request.ids@[0]
                &&& view.transaction_id == request.transaction_id
                &&& view.schema.schema_uuid == request.ids@[1]
                &&& view.schema.schema_version == INITIAL_SCHEMA_VERSION
                &&& view.schema.columns.len() == given.len()
                &&& forall|i: int|
                    0 <= i < given.len() ==> {
                        let c = #[trigger] view.schema.columns[i];
                        &&& c.column_name == given[i].name
                        &&& c.column_type == given[i].column_type
                        &&& c.ordinal_position == i + 1
                        &&& c.is_nullable == given[i].is_nullable
                    }
                &&& view.files == Seq::<FileView>::empty()
                &&& view.properties == given_properties(request.properties)
                &&& request.properties matches Some(p) ==> view.properties == p@
                &&& request.properties is None ==> view.properties.dom() == Set::<
                    Seq<char>,
                >::empty()
            }
        }),
{
    let table_uuid = request.ids@[0];
    let schema_uuid = request.ids@[1];
    let id = request.transaction_id;
    created_tables_are_there(before, after, request, taken, id);
    creations_keep_consistency(before, after, request, taken);
    let named = tables_named(after, request.ident.namespace@, request.ident.name@);
    assert(named.contains(table_uuid));
    assert(row is Some);
    let u = choose|u: Uuid| named.contains(u) && #[trigger] row_tells_table(row->0, after, u);
    assert(after.tables.dom().contains(u) && after.tables.dom().contains(table_uuid));
    assert(u == table_uuid);
    assert(schemas_at(after, table_uuid, id).contains(schema_uuid));
    let v = choose|v: Uuid|
        schemas_at(after, table_uuid, id).contains(v) && #[trigger] row_tells_schema(
            rows.schema->0,
            v,
            after.schemas[v],
        ) && rows_tell_columns(rows.columns@, v, columns_in(after.columns, v));
    assert(v == schema_uuid);
    given_columns_are_read(schema_uuid, request.schema@, request.ids@, 2, rows.columns@);
    assert(rows.files@.len() == 0) by {
        if rows.files@.len() > 0 {
            assert(files_at(after, table_uuid, id).dom().contains(row_id(rows.files@[0])));
        }
    }
}

/// What the database holds after the creation of a table, whose statements run all or none.
pub open spec fn after_creation(
    before: Relations,
    request: CreateRequest,
    taken: bool,
) -> Relations {
    match create_outcome(request, taken) {
        Outcome::Done(statements) => match run_all(before, statements) {
            Some(after) => after,
            None => before,
        },
        _ => before,
    }
}

/// A table that cannot be created leaves the database as it was: one with a schema that is not
/// valid, or one whose name is taken, which is a conflict.
pub proof fn refused_creations_change_nothing(
    before: Relations,
    request: CreateRequest,
    taken: bool,
)
    ensures
        !(create_outcome(request, taken) is Done) ==> after_creation(before, request, taken)
            == before,
        schema_flaw(request.schema@) matches Some(e) ==> create_outcome(request, taken)
            == Outcome::<Seq<StatementView>>::Refused(Refusal::Exact(e)),
        schema_flaw(request.schema@) is None && taken ==> create_outcome(request, taken)
            == Outcome::<Seq<StatementView>>::Refused(
            Refusal::Exact(
                ErrorView::Conflict("table already exists: "@ + ident_text(*request.ident)),
            ),
        ),
        (exists|u: Uuid|
            tables_named(before, request.ident.namespace@, request.ident.name@).contains(u))
            ==> after_creation(before, request, taken) == before,
{
    if create_outcome(request, taken) is Done {
        let all = create_outcome(request, taken)->Done_0;
        let first = all[0];
        let rest = all.skip(1);
        assert(all =~= seq![first] + rest);
        runs_join(before, seq![first], rest);
        assert(seq![first].drop_last() =~= Seq::<StatementView>::empty());
        assert(run_all(before, Seq::<StatementView>::empty()) == Some(before));
        assert(run_all(before, seq![first]) == run(before, first));
    }
}

/// What the database holds after a commit, whose statements run all or none.
pub open spec fn after_commit(
    before: Relations,
    request: CommitRequest,
    row: Option<TableRow>,
    schema: Option<&CurrentSchema>,
) -> Relations {
    match commit_outcome(request, row, schema) {
        CommitOutcome::Planned(statements) => match run_all(before, statements) {
            Some(after) => after,
            None => before,
        },
        _ => before,
    }
}

/// A mutation is carried out whole or not at all: where one of its operations stops it, nothing
/// of it shows in the database, whatever came before that operation.
pub proof fn refused_commits_change_nothing<'a>(
    before: Relations,
    request: CommitRequest<'a>,
    row: Option<TableRow>,
    schema: Option<&'a CurrentSchema>,
    n: nat,
)
    requires
        n <= request.mutation@.len(),
    ensures
        !(commit_outcome(request, row, schema) is Planned) ==> after_commit(
            before,
            request,
            row,
            schema,
        ) == before,
        base_of(
            request.protocol,
            *request.ident,
            request.base_transaction_id,
            row,
        ) matches Ok(base) ==> (!(apply_ops(
            env_of(request, base, schema),
            start_of(request, base),
            request.mutation@.take(n as int),
        ) is Next) ==> after_commit(before, request, row, schema) == before),
{
    let base = base_of(
        request.protocol,
        *request.ident,
        request.base_transaction_id,
        row,
    );
    if base is Ok {
        let env = env_of(request, base->Ok_0, schema);
        let start = start_of(request, base->Ok_0);
        if !(apply_ops(env, start, request.mutation@.take(n as int)) is Next) {
            apply_ops_stops(env, start, request.mutation@, n);
        }
    }
}

/// What the database holds once the tables of a name are dropped: foreign keys take along all that
/// is theirs.
pub open spec fn dropped(db: Relations, ident: TableIdent) -> Relations {
    let gone = tables_named(db, ident.namespace@, ident.name@);
    Relations {
        tables: db.tables.remove_keys(gone),
        transactions: Map::new(
            |id: TxnId|
                db.transactions.dom().contains(id) && !gone.contains(db.transactions[id].table_uuid),
            |id: TxnId| db.transactions[id],
        ),
        properties: Map::new(
            |id: TxnId|
                db.properties.dom().contains(id) && !gone.contains(db.properties[id].table_uuid),
            |id: TxnId| db.properties[id],
        ),
        schemas: Map::new(
            |u: Uuid| db.schemas.dom().contains(u) && !gone.contains(db.schemas[u].table_uuid),
            |u: Uuid| db.schemas[u],
        ),
        columns: Map::new(
            |u: Uuid|
                db.columns.dom().contains(u) && !(db.schemas.dom().contains(u) && gone.contains(
                    db.schemas[u].table_uuid,
                )),
            |u: Uuid| db.columns[u],
        ),
        files: Map::new(
            |u: Uuid| db.files.dom().contains(u) && !gone.contains(db.files[u].table_uuid),
            |u: Uuid| db.files[u],
        ),
    }
}

/// A table is dropped if there is one of that name. It is gone then, with its files, schemas and
/// properties: its name is not found, to be read or to be dropped again.
pub proof fn dropped_tables_are_gone(
    db: Relations,
    ident: TableIdent,
    table: Uuid,
    at: TxnId,
    protocol: ProtocolVersions,
    row: Option<TableRow>,
    wanted: Option<TxnId>,
)
    requires
        consistent(db),
        row_found(row, dropped(db, ident), ident),
    ensures
        ({
            let gone = tables_named(db, ident.namespace@, ident.name@);
            let after = dropped(db, ident);
            let left = tables_named(after, ident.namespace@, ident.name@);
            &&& drop_outcome(ident, gone.len()) is Ok <==> exists|u: Uuid| gone.contains(u)
            &&& left == Set::<Uuid>::empty()
            &&& gone.contains(table) ==> {
                &&& head(after, table) is None
                &&& files_at(after, table, at) == Map::<Uuid, FileInsertView>::empty()
                &&& schemas_at(after, table, at) == Set::<Uuid>::empty()
                &&& properties_at(after, table, at) is None
            }
            &&& read_base_of(protocol, ident, row, wanted) == std::result::Result::<
                ReadView,
                ErrorView,
            >::Err(table_not_found(ident))
            &&& drop_outcome(ident, left.len()) == std::result::Result::<(), ErrorView>::Err(
                table_not_found(ident),
            )
        }),
{
    let gone = tables_named(db, ident.namespace@, ident.name@);
    let after = dropped(db, ident);
    let left = tables_named(after, ident.namespace@, ident.name@);
    assert(left =~= Set::<Uuid>::empty());
    assert(row is None);
    if exists|u: Uuid| gone.contains(u) {
        let u = choose|u: Uuid| gone.contains(u);
        assert forall|v: Uuid| gone.contains(v) == (v == u) by {
            if gone.contains(v) {
                assert(db.tables.dom().contains(v) && db.tables.dom().contains(u));
            }
        }
        assert(gone =~= Set::<Uuid>::empty().insert(u));
    } else {
        assert(gone =~= Set::<Uuid>::empty());
    }
    if gone.contains(table) {
        assert(files_at(after, table, at) =~= Map::<Uuid, FileInsertView>::empty());
        assert(schemas_at(after, table, at) =~= Set::<Uuid>::empty());
        assert forall|id: TxnId| !properties_known(after, table, at, id) by {}
        assert forall|id: TxnId| !properties_last(after, table, at, id) by {
            assert(!properties_known(after, table, at, id));
        }
    }
}

/// Dropping a table leaves the others as they were.
pub proof fn drops_keep_other_tables(db: Relations, ident: TableIdent, table: Uuid, at: TxnId)
    requires
        consistent(db),
        !tables_named(db, ident.namespace@, ident.name@).contains(table),
    ensures
        ({
            let after = dropped(db, ident);
            &&& after.tables.dom().contains(table) == db.tables.dom().contains(table)
            &&& db.tables.dom().contains(table) ==> after.tables[table] == db.tables[table]
            &&& files_at(after, table, at) == files_at(db, table, at)
            &&& properties_at(after, table, at) == properties_at(db, table, at)
            &&& schemas_at(after, table, at) == schemas_at(db, table, at)
            &&& forall|u: Uuid|
                schemas_at(db, table, at).contains(u) ==> #[trigger] columns_in(after.columns, u)
                    == columns_in(db.columns, u)
        }),
{
    let after = dropped(db, ident);
    assert(files_at(after, table, at) =~= files_at(db, table, at));
    assert(schemas_at(after, table, at) =~= schemas_at(db, table, at));
    same_properties_count(db, after, table, at);
}

/// Dropping a table leaves the catalog consistent.
pub proof fn drops_keep_consistency(db: Relations, ident: TableIdent)
    requires
        consistent(db),
    ensures
        consistent(dropped(db, ident)),
{
    let gone = tables_named(db, ident.namespace@, ident.name@);
    let after = dropped(db, ident);
    assert forall|t: Uuid| !gone.contains(t) implies #[trigger] head(after, t) == head(db, t) by {}
    assert forall|t: Uuid, id: TxnId| !gone.contains(t) implies #[trigger] on_record(after, t, id)
        == on_record(db, t, id) by {}
    assert(names_consistent(after)) by {
        assert forall|a: Uuid, b: Uuid|
            #![trigger after.tables.dom().contains(a), after.tables.dom().contains(b)]
            after.tables.dom().contains(a) && after.tables.dom().contains(b)
                && after.tables[a].namespace == after.tables[b].namespace && after.tables[a].name
                == after.tables[b].name implies a == b by {
            assert(db.tables.dom().contains(a) && db.tables.dom().contains(b));
        }
    }
    assert(columns_consistent(after)) by {
        assert forall|u: Uuid| #[trigger] names_differ(columns_in(after.columns, u)) by {
            assert(names_differ(columns_in(db.columns, u)));
        }
    }
    assert(transactions_consistent(after)) by {
        assert forall|id: TxnId| #[trigger] after.transactions.dom().contains(id) implies {
            let t = after.transactions[id];
            &&& head(after, t.table_uuid) is Some
            &&& id.value <= head(after, t.table_uuid)->0.value
            &&& t.parent matches Some(parent) ==> on_record(after, t.table_uuid, parent)
                && parent.value < id.value
        } by {
            assert(db.transactions.dom().contains(id));
            let t = db.transactions[id];
            if t.parent is Some {
                assert(on_record(db, t.table_uuid, t.parent->0));
            }
        }
        assert forall|t: Uuid| #[trigger] after.tables.dom().contains(t) implies (
        after.tables[t].transaction_id matches Some(id) ==> on_record(after, t, id)) by {
            assert(db.tables.dom().contains(t));
        }
    }
    assert(properties_consistent(after)) by {
        assert forall|id: TxnId| #[trigger] after.properties.dom().contains(id) implies on_record(
            after,
            after.properties[id].table_uuid,
            id,
        ) by {
            assert(on_record(db, db.properties[id].table_uuid, id));
        }
        assert forall|t: Uuid| #[trigger] after.tables.dom().contains(t) implies (
        after.tables[t].transaction_id matches Some(id) ==> after.properties.dom().contains(id)
            && after.properties[id] == db.properties[id]) by {
            assert(db.tables.dom().contains(t));
        }
    }
    assert(files_consistent(after)) by {
        assert forall|u: Uuid| #[trigger] after.files.dom().contains(u) implies {
            let f = after.files[u];
            &&& f.file.file_uuid == u
            &&& head(after, f.table_uuid) is Some
            &&& on_record(after, f.table_uuid, f.added)
            &&& f.added.value <= head(after, f.table_uuid)->0.value
            &&& f.removed matches Some(removed) ==> {
                &&& on_record(after, f.table_uuid, removed)
                &&& f.added.value <= removed.value <= head(after, f.table_uuid)->0.value
            }
        } by {
            let f = db.files[u];
            assert(db.files.dom().contains(u));
            assert(on_record(db, f.table_uuid, f.added));
            if f.removed is Some {
                assert(on_record(db, f.table_uuid, f.removed->0));
            }
        }
    }
    assert(schemas_consistent(after)) by {
        assert forall|u: Uuid| #[trigger] after.columns.dom().contains(u) implies
            after.schemas.dom().contains(u) by {
            assert(db.columns.dom().contains(u));
        }
        assert forall|u: Uuid| #[trigger] after.schemas.dom().contains(u) implies {
            let s = after.schemas[u];
            &&& head(after, s.table_uuid) is Some
            &&& s.valid_from.value <= head(after, s.table_uuid)->0.value
            &&& (s.valid_to matches Some(valid_to) ==> valid_to.value
                <= head(after, s.table_uuid)->0.value)
            &&& (s.valid_to is None ==> after.tables[s.table_uuid].schema_uuid == Some(u))
        } by {
            assert(db.schemas.dom().contains(u));
            assert(head(db, db.schemas[u].table_uuid) is Some);
        }
        assert forall|t: Uuid| #[trigger] after.tables.dom().contains(t) implies (
        after.tables[t].schema_uuid matches Some(u) ==> after.schemas.dom().contains(u)
            && after.schemas[u].table_uuid == t && after.schemas[u].valid_to is None) by {
            assert(db.tables.dom().contains(t));
        }
        assert forall|a: Uuid, b: Uuid, at: TxnId|
            after.schemas.dom().contains(a) && after.schemas.dom().contains(b) && a != b
                && #[trigger] valid(after.schemas[a], after.schemas[a].table_uuid, at) implies !(
        #[trigger] valid(after.schemas[b], after.schemas[a].table_uuid, at)) by {
            assert(valid(db.schemas[a], db.schemas[a].table_uuid, at));
            assert(!valid(db.schemas[b], db.schemas[a].table_uuid, at));
        }
    }
}

/// The UUIDs of files.
pub open spec fn file_ids(files: Seq<FileView>) -> Set<Uuid> {
    Set::new(|u: Uuid| exists|i: int| 0 <= i < files.len() && (#[trigger] files[i]).file_uuid == u)
}

proof fn read_files_are_there(
    db: Relations,
    ident: TableIdent,
    base: ReadView,
    rows: ReadRows,
)
    requires
        rows_tell_snapshot(rows, db, base.table_uuid, base.transaction_id),
        read_outcome(ident, base, rows) is Done,
    ensures
        file_ids(read_outcome(ident, base, rows)->Done_0.files) == files_at(
            db,
            base.table_uuid,
            base.transaction_id,
        ).dom(),
{
    let files = read_outcome(ident, base, rows)->Done_0.files;
    let found = rows.files@;
    let there = files_at(db, base.table_uuid, base.transaction_id).dom();
    decoded_rows_are_sound(found);
    assert forall|i: int| 0 <= i < found.len() implies (#[trigger] files[i]).file_uuid == row_id(
        found[i],
    ) by {
        assert(file_of(found[i]) is Ok);
    }
    assert forall|u: Uuid| file_ids(files).contains(u) == there.contains(u) by {
        if file_ids(files).contains(u) {
            let i = choose|i: int| 0 <= i < files.len() && (#[trigger] files[i]).file_uuid == u;
            assert(there.contains(row_id(found[i])));
        }
        if there.contains(u) {
            let i = choose|i: int| 0 <= i < found.len() && row_id(#[trigger] found[i]) == u;
            assert(files[i].file_uuid == u);
        }
    }
    assert(file_ids(files) =~= there);
}

proof fn read_schema_is_there(db: Relations, ident: TableIdent, base: ReadView, rows: ReadRows)
    requires
        rows_tell_snapshot(rows, db, base.table_uuid, base.transaction_id),
        read_outcome(ident, base, rows) is Done,
    ensures
        ({
            let schema = read_outcome(ident, base, rows)->Done_0.schema;
            let u = schema.schema_uuid;
            schemas_at(db, base.table_uuid, base.transaction_id).contains(u) && shows_schema(
                schema,
                u,
                db.schemas[u],
                columns_in(db.columns, u),
            )
        }),
{
    let at = base.transaction_id;
    let u = choose|u: Uuid|
        schemas_at(db, base.table_uuid, at).contains(u) && #[trigger] row_tells_schema(
            rows.schema->0,
            u,
            db.schemas[u],
        ) && rows_tell_columns(rows.columns@, u, columns_in(db.columns, u));
    schema_rows_decode(rows.schema->0, rows.columns@, u, db.schemas[u], columns_in(db.columns, u));
}

proof fn shown_alike(
    a: SchemaView,
    b: SchemaView,
    u: Uuid,
    record: SchemaRecord,
    columns: Seq<ColumnInsertView>,
)
    requires
        shows_schema(a, u, record, columns),
        shows_schema(b, u, record, columns),
    ensures
        a == b,
{
    assert forall|i: int| 0 <= i < columns.len() implies a.columns[i] == b.columns[i] by {
        assert(shows_column(a.columns[i], u, columns[i]));
        assert(shows_column(b.columns[i], u, columns[i]));
    }
    assert(a.columns =~= b.columns);
}

/// What a commit does is read back at its transaction: the files that its operations leave, the
/// properties that they leave, and the schema that they give, one version on, or else the one from
/// before. That the properties come back needs that they lose nothing in how they are stored.
pub proof fn commits_read_back<'a>(
    before: Relations,
    after: Relations,
    request: CommitRequest<'a>,
    table_uuid: Uuid,
    row: TableRow,
    schema: Option<&'a CurrentSchema>,
    rows: ReadRows,
)
    requires
        consistent(before),
        commit_runs(before, after, request, table_uuid, row, schema),
        json_reads_back(JsonModel::Object(commit_end(request, Some(row), schema).properties)),
        plain_json(JsonModel::Object(commit_end(request, Some(row), schema).properties), 127),
        rows_tell_snapshot(rows, after, table_uuid, request.transaction_id),
        read_outcome(
            *request.ident,
            ReadView { table_uuid, transaction_id: request.transaction_id },
            rows,
        ) is Done,
    ensures
        ({
            let id = request.transaction_id;
            let base = base_view(request, row);
            let view = read_outcome(
                *request.ident,
                ReadView { table_uuid, transaction_id: id },
                rows,
            )->Done_0;
            &&& view.transaction_id == id
            &&& view.properties == commit_end(request, Some(row), schema).properties
            &&& file_ids(view.files) == files_after(
                env_of(request, base, schema),
                start_of(request, base),
                request.mutation@,
                files_at(before, table_uuid, request.base_transaction_id),
            ).dom()
            &&& if changes_schema(request.mutation@) {
                &&& after.tables[table_uuid].schema_uuid == Some(view.schema.schema_uuid)
                &&& view.schema.valid_from_transaction_id == id
                &&& schema is Some
                &&& view.schema.schema_version == schema->0.schema_version + 1
            } else {
                schemas_at(before, table_uuid, request.base_transaction_id).contains(
                    view.schema.schema_uuid,
                )
            }
        }),
{
    let id = request.transaction_id;
    let base = ReadView { table_uuid, transaction_id: id };
    commits_show_their_work(before, after, request, table_uuid, row, schema);
    read_files_are_there(after, *request.ident, base, rows);
    let u = choose|u: Uuid|
        schemas_at(after, table_uuid, id).contains(u) && #[trigger] row_tells_schema(
            rows.schema->0,
            u,
            after.schemas[u],
        ) && rows_tell_columns(rows.columns@, u, columns_in(after.columns, u));
    assert(schemas_at(after, table_uuid, id).contains(u));
}

/// The difference between two transactions leads from what is read at one to what is read at the
/// other. The files that it adds are those of the later read that the earlier one has not, the
/// files that it removes those of the earlier read that the later one has not. Its properties are
/// those that the table has at the later transaction, and it has them exactly if the table had
/// others at the earlier one; and so its schema. Between a transaction and itself there is no difference.
pub proof fn differences_lead_from_read_to_read(
    db: Relations,
    ident: TableIdent,
    from: ReadView,
    to: ReadView,
    from_rows: ReadRows,
    to_rows: ReadRows,
    rows: EventRows,
    ids: Seq<TxnId>,
    events: Seq<EventView>,
)
    requires
        consistent(db),
        from.table_uuid == to.table_uuid,
        from.transaction_id.value <= to.transaction_id.value,
        rows_tell_snapshot(from_rows, db, from.table_uuid, from.transaction_id),
        rows_tell_snapshot(to_rows, db, to.table_uuid, to.transaction_id),
        rows_tell_range(db, to.table_uuid, Some(from.transaction_id), to.transaction_id, rows, ids),
        read_outcome(ident, from, from_rows) is Done,
        read_outcome(ident, to, to_rows) is Done,
        events_outcome(rows) == Outcome::Done(events),
    ensures
        ({
            let a = read_outcome(ident, from, from_rows)->Done_0;
            let b = read_outcome(ident, to, to_rows)->Done_0;
            let net = net_of(all_changes(events));
            let then = parsed_properties(
                properties_at(db, from.table_uuid, from.transaction_id),
            );
            let now = parsed_properties(properties_at(db, to.table_uuid, to.transaction_id));
            let new_properties = new_properties_of(a.properties, b.properties);
            &&& net.added.dom() == file_ids(b.files).difference(file_ids(a.files))
            &&& net.removed.dom() == file_ids(a.files).difference(file_ids(b.files))
            &&& file_ids(b.files) == file_ids(a.files).difference(net.removed.dom()).union(
                net.added.dom(),
            )
            &&& b.schema == match new_schema_of(a.schema, b.schema) {
                Some(schema) => schema,
                None => a.schema,
            }
            &&& new_schema_of(a.schema, b.schema) is Some <==> a.schema.schema_uuid
                != b.schema.schema_uuid
            &&& then is Ok && now is Ok
            &&& new_properties is Some <==> !same_object(then->Ok_0, now->Ok_0)
            &&& new_properties is Some ==> new_properties->0 == now->Ok_0
            &&& from.transaction_id == to.transaction_id ==> {
                &&& net.added.dom() == Set::<Uuid>::empty()
                &&& net.removed.dom() == Set::<Uuid>::empty()
                &&& new_schema_of(a.schema, b.schema) is None
                &&& new_properties is None
            }
        }),
{
    let a = read_outcome(ident, from, from_rows)->Done_0;
    let b = read_outcome(ident, to, to_rows)->Done_0;
    let net = net_of(all_changes(events));
    logs_tell_the_difference(
        db,
        to.table_uuid,
        Some(from.transaction_id),
        to.transaction_id,
        rows,
        ids,
        events,
    );
    read_files_are_there(db, ident, from, from_rows);
    read_files_are_there(db, ident, to, to_rows);
    assert(file_ids(b.files) =~= file_ids(a.files).difference(net.removed.dom()).union(
        net.added.dom(),
    ));
    read_schema_is_there(db, ident, from, from_rows);
    read_schema_is_there(db, ident, to, to_rows);
    if a.schema.schema_uuid == b.schema.schema_uuid {
        let u = a.schema.schema_uuid;
        shown_alike(a.schema, b.schema, u, db.schemas[u], columns_in(db.columns, u));
    }
    if from.transaction_id == to.transaction_id {
        let at = to.transaction_id;
        values_equal_themselves(JsonModel::Object(b.properties));
        assert(net.added.dom() =~= Set::<Uuid>::empty());
        assert(net.removed.dom() =~= Set::<Uuid>::empty());
        let u = choose|u: Uuid|
            schemas_at(db, from.table_uuid, at).contains(u) && #[trigger] row_tells_schema(
                from_rows.schema->0,
                u,
                db.schemas[u],
            ) && rows_tell_columns(from_rows.columns@, u, columns_in(db.columns, u));
        let v = choose|v: Uuid|
            schemas_at(db, to.table_uuid, at).contains(v) && #[trigger] row_tells_schema(
                to_rows.schema->0,
                v,
                db.schemas[v],
            ) && rows_tell_columns(to_rows.columns@, v, columns_in(db.columns, v));
        if u != v {
            assert(valid(db.schemas[u], db.schemas[u].table_uuid, at));
            assert(!valid(db.schemas[v], db.schemas[u].table_uuid, at));
        }
    }
}

} // verus!
