//! Queries that read from the catalog database.

use vstd::prelude::*;
use vstd::string::*;

use super::asking::{
    added_between_are_picked, added_between_query, added_between_text, added_until_are_picked, added_until_query, added_until_text, all_tables_query, all_tables_text, columns_of_a_schema_are_picked, current_columns_are_picked, current_columns_query, current_columns_text, current_transaction_row_query, current_transaction_row_text, drop_table_conditions, drop_table_text, event_table_query, event_table_text, files_at_are_picked, files_at_transaction_query, files_at_transaction_text, named_tables_are_picked, one_schema_is_picked, properties_at_transaction_query, properties_at_transaction_text, properties_up_to_are_picked, removed_between_are_picked, removed_between_query, removed_between_text, removed_until_are_picked, removed_until_query, removed_until_text, schema_at_query, schema_at_text, schema_columns_query, schema_columns_text, schema_version_query, schema_version_text, schemas_at_are_picked, schemas_between_are_picked, schemas_between_query, schemas_between_text, schemas_until_are_picked, schemas_until_query, schemas_until_text, stats_are_picked, stats_at_query, stats_at_text, table_exists_query, table_exists_text, table_row_query, table_row_text, tables_in_query, tables_in_text, tables_of_a_namespace_are_picked, transactions_between_are_picked, transactions_between_query, transactions_between_text, transactions_until_are_picked, transactions_until_query, transactions_until_text,
};
use super::database::DbKind;
use super::limits::{
    MAX_COLUMNS_PER_SCHEMA, MAX_FILES_PER_QUERY, MAX_TABLES_PER_LIST, MAX_TRANSACTIONS_PER_SCAN,
};
use super::models::{TableIdent, TxnId, TxnRangeCursor};
use super::relations::{
    valid, visible, FileRecord, PropertiesRecord, SchemaRecord, TableRecord, TransactionRecord,
};
use super::sql::{
    cell_of, delete_text, picks_columns, picks_files, picks_properties, picks_rows, picks_schemas,
    picks_tables, picks_transactions, select_text, Cell, Row,
};
use super::statements::{
    bind_views, numbered, write_numbered, Bind, BindView, ColumnInsertView,
};
use crate::ids::Uuid;

verus! {

/// A query with its parameters.
#[derive(Debug)]
pub struct Query {
    /// SQL text.
    pub text: String,
    /// Parameters, in their order.
    pub binds: Vec<Bind>,
}

/// One more than a limit: as many rows as tell whether there are too many.
pub open spec fn one_more(limit: u32) -> i64 {
    (limit + 1) as i64
}

/// Whether there is a table of that name.
pub fn table_exists(db: DbKind, ident: &TableIdent) -> (r: Query)
    ensures
        r.text@ == "SELECT 1 FROM tables WHERE namespace = "@
            + numbered(db, 1)
            + " AND table_name = "@
            + numbered(db, 2)
            + " LIMIT 1"@,
        bind_views(r.binds@) == seq![BindView::Text(ident.namespace@), BindView::Text(ident.name@)],
        r.text@ == select_text(db, table_exists_query()),
        picks_tables(
            table_exists_query().conditions,
            bind_views(r.binds@),
            |u: Uuid, t: TableRecord| t.namespace == ident.namespace@ && t.name == ident.name@,
        ),
{
    let mut text = String::from_str("SELECT 1 FROM tables WHERE namespace = ");
    text.append(write_numbered(db, 1).as_str());
    text.append(" AND table_name = ");
    text.append(write_numbered(db, 2).as_str());
    text.append(" LIMIT 1");
    let mut binds: Vec<Bind> = Vec::new();
    binds.push(Bind::Text(ident.namespace.clone()));
    binds.push(Bind::Text(ident.name.clone()));
    assert(bind_views(binds@) =~= seq![
        BindView::Text(ident.namespace@),
        BindView::Text(ident.name@),
    ]);
    proof {
        table_exists_text(db);
        named_tables_are_picked(ident.namespace@, ident.name@);
    }
    Query { text, binds }
}

/// The tables of a namespace, one more than may be listed.
pub fn tables_in(db: DbKind, namespace: &str) -> (r: Query)
    ensures
        r.text@ == "SELECT namespace, table_name FROM tables WHERE namespace = "@
            + numbered(db, 1)
            + " LIMIT "@
            + numbered(db, 2),
        bind_views(r.binds@) == seq![
            BindView::Text(namespace@),
            BindView::Long(one_more(MAX_TABLES_PER_LIST)),
        ],
        r.text@ == select_text(db, tables_in_query()),
        picks_tables(
            tables_in_query().conditions,
            bind_views(r.binds@),
            |u: Uuid, t: TableRecord| t.namespace == namespace@,
        ),
        cell_of(bind_views(r.binds@)[1]) == Cell::Number(10_001),
{
    let mut text = String::from_str("SELECT namespace, table_name FROM tables WHERE namespace = ");
    text.append(write_numbered(db, 1).as_str());
    text.append(" LIMIT ");
    text.append(write_numbered(db, 2).as_str());
    let mut binds: Vec<Bind> = Vec::new();
    binds.push(Bind::Text(String::from_str(namespace)));
    binds.push(Bind::Long(MAX_TABLES_PER_LIST as i64 + 1));
    assert(bind_views(binds@) =~= seq![
        BindView::Text(namespace@),
        BindView::Long(one_more(MAX_TABLES_PER_LIST)),
    ]);
    proof {
        tables_in_text(db);
        tables_of_a_namespace_are_picked(namespace@);
    }
    Query { text, binds }
}

/// All tables, one more than may be listed.
pub fn all_tables(db: DbKind) -> (r: Query)
    ensures
        r.text@ == "SELECT namespace, table_name FROM tables LIMIT "@ + numbered(db, 1),
        bind_views(r.binds@) == seq![BindView::Long(one_more(MAX_TABLES_PER_LIST))],
        r.text@ == select_text(db, all_tables_query()),
        picks_tables(all_tables_query().conditions, bind_views(r.binds@), |u: Uuid, t: TableRecord| true),
        cell_of(bind_views(r.binds@)[0]) == Cell::Number(10_001),
{
    let mut text = String::from_str("SELECT namespace, table_name FROM tables LIMIT ");
    text.append(write_numbered(db, 1).as_str());
    let mut binds: Vec<Bind> = Vec::new();
    binds.push(Bind::Long(MAX_TABLES_PER_LIST as i64 + 1));
    assert(bind_views(binds@) =~= seq![BindView::Long(one_more(MAX_TABLES_PER_LIST))]);
    proof {
        all_tables_text(db);
    }
    Query { text, binds }
}

/// The dropping of a table.
pub fn drop_table(db: DbKind, ident: &TableIdent) -> (r: Query)
    ensures
        r.text@ == "DELETE FROM tables WHERE namespace = "@
            + numbered(db, 1)
            + " AND table_name = "@
            + numbered(db, 2),
        bind_views(r.binds@) == seq![BindView::Text(ident.namespace@), BindView::Text(ident.name@)],
        r.text@ == delete_text(db, "tables"@, drop_table_conditions()),
        picks_tables(
            drop_table_conditions(),
            bind_views(r.binds@),
            |u: Uuid, t: TableRecord| t.namespace == ident.namespace@ && t.name == ident.name@,
        ),
{
    let mut text = String::from_str("DELETE FROM tables WHERE namespace = ");
    text.append(write_numbered(db, 1).as_str());
    text.append(" AND table_name = ");
    text.append(write_numbered(db, 2).as_str());
    let mut binds: Vec<Bind> = Vec::new();
    binds.push(Bind::Text(ident.namespace.clone()));
    binds.push(Bind::Text(ident.name.clone()));
    assert(bind_views(binds@) =~= seq![
        BindView::Text(ident.namespace@),
        BindView::Text(ident.name@),
    ]);
    proof {
        drop_table_text(db);
        named_tables_are_picked(ident.namespace@, ident.name@);
    }
    Query { text, binds }
}

/// The current transaction of a table.
pub fn current_transaction_row(db: DbKind, ident: &TableIdent) -> (r: Query)
    ensures
        r.text@ == "SELECT current_transaction_id FROM tables WHERE namespace = "@
            + numbered(db, 1)
            + " AND table_name = "@
            + numbered(db, 2),
        bind_views(r.binds@) == seq![BindView::Text(ident.namespace@), BindView::Text(ident.name@)],
        r.text@ == select_text(db, current_transaction_row_query()),
        picks_tables(
            current_transaction_row_query().conditions,
            bind_views(r.binds@),
            |u: Uuid, t: TableRecord| t.namespace == ident.namespace@ && t.name == ident.name@,
        ),
{
    let mut text = String::from_str("SELECT current_transaction_id FROM tables WHERE namespace = ");
    text.append(write_numbered(db, 1).as_str());
    text.append(" AND table_name = ");
    text.append(write_numbered(db, 2).as_str());
    let mut binds: Vec<Bind> = Vec::new();
    binds.push(Bind::Text(ident.namespace.clone()));
    binds.push(Bind::Text(ident.name.clone()));
    assert(bind_views(binds@) =~= seq![
        BindView::Text(ident.namespace@),
        BindView::Text(ident.name@),
    ]);
    proof {
        current_transaction_row_text(db);
        named_tables_are_picked(ident.namespace@, ident.name@);
    }
    Query { text, binds }
}

/// The table whose events are asked for.
pub fn event_table(db: DbKind, ident: &TableIdent) -> (r: Query)
    ensures
        r.text@ == "SELECT table_uuid, current_transaction_id FROM tables WHERE namespace = "@
            + numbered(db, 1)
            + " AND table_name = "@
            + numbered(db, 2),
        bind_views(r.binds@) == seq![BindView::Text(ident.namespace@), BindView::Text(ident.name@)],
        r.text@ == select_text(db, event_table_query()),
        picks_tables(
            event_table_query().conditions,
            bind_views(r.binds@),
            |u: Uuid, t: TableRecord| t.namespace == ident.namespace@ && t.name == ident.name@,
        ),
{
    let mut text = String::from_str("SELECT table_uuid, current_transaction_id FROM tables WHERE namespace = ");
    text.append(write_numbered(db, 1).as_str());
    text.append(" AND table_name = ");
    text.append(write_numbered(db, 2).as_str());
    let mut binds: Vec<Bind> = Vec::new();
    binds.push(Bind::Text(ident.namespace.clone()));
    binds.push(Bind::Text(ident.name.clone()));
    assert(bind_views(binds@) =~= seq![
        BindView::Text(ident.namespace@),
        BindView::Text(ident.name@),
    ]);
    proof {
        event_table_text(db);
        named_tables_are_picked(ident.namespace@, ident.name@);
    }
    Query { text, binds }
}

/// The table to read.
pub fn table_row(db: DbKind, ident: &TableIdent) -> (r: Query)
    ensures
        r.text@ == "SELECT table_uuid, current_schema_uuid, current_transaction_id, properties, min_reader_version, min_writer_version FROM tables WHERE namespace = "@
            + numbered(db, 1)
            + " AND table_name = "@
            + numbered(db, 2),
        bind_views(r.binds@) == seq![BindView::Text(ident.namespace@), BindView::Text(ident.name@)],
        r.text@ == select_text(db, table_row_query()),
        picks_tables(
            table_row_query().conditions,
            bind_views(r.binds@),
            |u: Uuid, t: TableRecord| t.namespace == ident.namespace@ && t.name == ident.name@,
        ),
{
    let mut text = String::from_str("SELECT table_uuid, current_schema_uuid, current_transaction_id, properties, min_reader_version, min_writer_version FROM tables WHERE namespace = ");
    text.append(write_numbered(db, 1).as_str());
    text.append(" AND table_name = ");
    text.append(write_numbered(db, 2).as_str());
    let mut binds: Vec<Bind> = Vec::new();
    binds.push(Bind::Text(ident.namespace.clone()));
    binds.push(Bind::Text(ident.name.clone()));
    assert(bind_views(binds@) =~= seq![
        BindView::Text(ident.namespace@),
        BindView::Text(ident.name@),
    ]);
    proof {
        table_row_text(db);
        named_tables_are_picked(ident.namespace@, ident.name@);
    }
    Query { text, binds }
}

/// The schema that a table has at a transaction: the one that became valid no later, and had
/// not become invalid.
pub fn schema_at(db: DbKind, table_uuid: Uuid, at: TxnId) -> (r: Query)
    ensures
        r.text@ == "SELECT schema_uuid, table_uuid, schema_version, valid_from_transaction_id, valid_to_transaction_id, created_at FROM schemas WHERE table_uuid = "@
            + numbered(db, 1)
            + " AND valid_from_transaction_id <= "@
            + numbered(db, 2)
            + " AND (valid_to_transaction_id IS NULL OR valid_to_transaction_id > "@
            + numbered(db, 2)
            + ") LIMIT 1"@,
        bind_views(r.binds@) == seq![BindView::Id(table_uuid), BindView::Id(at)],
        r.text@ == select_text(db, schema_at_query()),
        picks_schemas(
            schema_at_query().conditions,
            bind_views(r.binds@),
            |u: Uuid, t: SchemaRecord| valid(t, table_uuid, at),
        ),
{
    let mut text = String::from_str("SELECT schema_uuid, table_uuid, schema_version, valid_from_transaction_id, valid_to_transaction_id, created_at FROM schemas WHERE table_uuid = ");
    text.append(write_numbered(db, 1).as_str());
    text.append(" AND valid_from_transaction_id <= ");
    text.append(write_numbered(db, 2).as_str());
    text.append(" AND (valid_to_transaction_id IS NULL OR valid_to_transaction_id > ");
    text.append(write_numbered(db, 2).as_str());
    text.append(") LIMIT 1");
    let mut binds: Vec<Bind> = Vec::new();
    binds.push(Bind::Id(table_uuid));
    binds.push(Bind::Id(at));
    assert(bind_views(binds@) =~= seq![BindView::Id(table_uuid), BindView::Id(at)]);
    proof {
        schema_at_text(db);
        schemas_at_are_picked(table_uuid, at);
    }
    Query { text, binds }
}

/// The properties that a table has at a transaction: those of the last transaction that is no
/// later.
pub fn properties_at_transaction(db: DbKind, table_uuid: Uuid, at: TxnId) -> (r: Query)
    ensures
        r.text@ == "SELECT properties FROM table_properties WHERE table_uuid = "@
            + numbered(db, 1)
            + " AND transaction_id <= "@
            + numbered(db, 2)
            + " ORDER BY transaction_id DESC LIMIT 1"@,
        bind_views(r.binds@) == seq![BindView::Id(table_uuid), BindView::Id(at)],
        r.text@ == select_text(db, properties_at_transaction_query()),
        picks_properties(
            properties_at_transaction_query().conditions,
            bind_views(r.binds@),
            |u: TxnId, t: PropertiesRecord| t.table_uuid == table_uuid && u.value <= at.value,
        ),
{
    let mut text = String::from_str("SELECT properties FROM table_properties WHERE table_uuid = ");
    text.append(write_numbered(db, 1).as_str());
    text.append(" AND transaction_id <= ");
    text.append(write_numbered(db, 2).as_str());
    text.append(" ORDER BY transaction_id DESC LIMIT 1");
    let mut binds: Vec<Bind> = Vec::new();
    binds.push(Bind::Id(table_uuid));
    binds.push(Bind::Id(at));
    assert(bind_views(binds@) =~= seq![BindView::Id(table_uuid), BindView::Id(at)]);
    proof {
        properties_at_transaction_text(db);
        properties_up_to_are_picked(table_uuid, at);
    }
    Query { text, binds }
}

/// The files that a table has at a transaction: those that were added no later, and had not
/// been removed. One more than may be read.
pub fn files_at_transaction(db: DbKind, table_uuid: Uuid, at: TxnId) -> (r: Query)
    ensures
        r.text@ == "SELECT file_uuid, table_uuid, file_format, file_path, record_count, file_size_bytes, added_in_transaction_id, removed_in_transaction_id, partition_values, format_options FROM files WHERE table_uuid = "@
            + numbered(db, 1)
            + " AND added_in_transaction_id <= "@
            + numbered(db, 2)
            + " AND (removed_in_transaction_id IS NULL OR removed_in_transaction_id > "@
            + numbered(db, 2)
            + ") LIMIT "@
            + numbered(db, 3),
        bind_views(r.binds@) == seq![
            BindView::Id(table_uuid),
            BindView::Id(at),
            BindView::Long(one_more(MAX_FILES_PER_QUERY)),
        ],
        r.text@ == select_text(db, files_at_transaction_query()),
        picks_files(
            files_at_transaction_query().conditions,
            bind_views(r.binds@),
            |u: Uuid, t: FileRecord| visible(t, table_uuid, at),
        ),
        cell_of(bind_views(r.binds@)[2]) == Cell::Number(10_001),
{
    let mut text = String::from_str("SELECT file_uuid, table_uuid, file_format, file_path, record_count, file_size_bytes, added_in_transaction_id, removed_in_transaction_id, partition_values, format_options FROM files WHERE table_uuid = ");
    text.append(write_numbered(db, 1).as_str());
    text.append(" AND added_in_transaction_id <= ");
    text.append(write_numbered(db, 2).as_str());
    text.append(" AND (removed_in_transaction_id IS NULL OR removed_in_transaction_id > ");
    text.append(write_numbered(db, 2).as_str());
    text.append(") LIMIT ");
    text.append(write_numbered(db, 3).as_str());
    let mut binds: Vec<Bind> = Vec::new();
    binds.push(Bind::Id(table_uuid));
    binds.push(Bind::Id(at));
    binds.push(Bind::Long(MAX_FILES_PER_QUERY as i64 + 1));
    assert(bind_views(binds@) =~= seq![
        BindView::Id(table_uuid),
        BindView::Id(at),
        BindView::Long(one_more(MAX_FILES_PER_QUERY)),
    ]);
    proof {
        files_at_transaction_text(db);
        files_at_are_picked(table_uuid, at);
    }
    Query { text, binds }
}

/// The statistics of a table for a transaction.
pub fn stats_at(db: DbKind, table_uuid: Uuid, at: TxnId) -> (r: Query)
    ensures
        r.text@ == "SELECT table_uuid, transaction_id, record_count, file_size_bytes, file_count, last_updated FROM table_stats WHERE table_uuid = "@
            + numbered(db, 1)
            + " AND transaction_id = "@
            + numbered(db, 2),
        bind_views(r.binds@) == seq![BindView::Id(table_uuid), BindView::Id(at)],
        r.text@ == select_text(db, stats_at_query()),
        picks_rows(
            stats_at_query().conditions,
            bind_views(r.binds@),
            |row: Row|
                row("table_uuid"@) == Cell::Id(table_uuid) && row("transaction_id"@) == Cell::Id(at),
        ),
{
    let mut text = String::from_str("SELECT table_uuid, transaction_id, record_count, file_size_bytes, file_count, last_updated FROM table_stats WHERE table_uuid = ");
    text.append(write_numbered(db, 1).as_str());
    text.append(" AND transaction_id = ");
    text.append(write_numbered(db, 2).as_str());
    let mut binds: Vec<Bind> = Vec::new();
    binds.push(Bind::Id(table_uuid));
    binds.push(Bind::Id(at));
    assert(bind_views(binds@) =~= seq![BindView::Id(table_uuid), BindView::Id(at)]);
    proof {
        stats_at_text(db);
        stats_are_picked(table_uuid, at);
    }
    Query { text, binds }
}

/// The columns of a schema to read, in their order, one more than a schema may have.
pub fn schema_columns(db: DbKind, schema_uuid: Uuid) -> (r: Query)
    ensures
        r.text@ == "SELECT column_uuid, schema_uuid, column_name, column_type, ordinal_position, is_nullable FROM columns WHERE schema_uuid = "@
            + numbered(db, 1)
            + " ORDER BY ordinal_position LIMIT "@
            + numbered(db, 2),
        bind_views(r.binds@) == seq![
            BindView::Id(schema_uuid),
            BindView::Long(one_more(MAX_COLUMNS_PER_SCHEMA)),
        ],
        r.text@ == select_text(db, schema_columns_query()),
        picks_columns(
            schema_columns_query().conditions,
            bind_views(r.binds@),
            |u: Uuid, t: ColumnInsertView| u == schema_uuid,
        ),
        cell_of(bind_views(r.binds@)[1]) == Cell::Number(1_001),
{
    let mut text = String::from_str("SELECT column_uuid, schema_uuid, column_name, column_type, ordinal_position, is_nullable FROM columns WHERE schema_uuid = ");
    text.append(write_numbered(db, 1).as_str());
    text.append(" ORDER BY ordinal_position LIMIT ");
    text.append(write_numbered(db, 2).as_str());
    let mut binds: Vec<Bind> = Vec::new();
    binds.push(Bind::Id(schema_uuid));
    binds.push(Bind::Long(MAX_COLUMNS_PER_SCHEMA as i64 + 1));
    assert(bind_views(binds@) =~= seq![
        BindView::Id(schema_uuid),
        BindView::Long(one_more(MAX_COLUMNS_PER_SCHEMA)),
    ]);
    proof {
        schema_columns_text(db);
        columns_of_a_schema_are_picked(schema_uuid, 1_001);
    }
    Query { text, binds }
}

/// The columns of a schema in the event log, in their order, no more than a schema may have.
pub fn event_columns(db: DbKind, schema_uuid: Uuid) -> (r: Query)
    ensures
        r.text@ == "SELECT column_uuid, schema_uuid, column_name, column_type, ordinal_position, is_nullable FROM columns WHERE schema_uuid = "@
            + numbered(db, 1)
            + " ORDER BY ordinal_position LIMIT "@
            + numbered(db, 2),
        bind_views(r.binds@) == seq![
            BindView::Id(schema_uuid),
            BindView::Long(MAX_COLUMNS_PER_SCHEMA as i64),
        ],
        r.text@ == select_text(db, schema_columns_query()),
        picks_columns(
            schema_columns_query().conditions,
            bind_views(r.binds@),
            |u: Uuid, t: ColumnInsertView| u == schema_uuid,
        ),
        cell_of(bind_views(r.binds@)[1]) == Cell::Number(1_000),
{
    let mut text = String::from_str("SELECT column_uuid, schema_uuid, column_name, column_type, ordinal_position, is_nullable FROM columns WHERE schema_uuid = ");
    text.append(write_numbered(db, 1).as_str());
    text.append(" ORDER BY ordinal_position LIMIT ");
    text.append(write_numbered(db, 2).as_str());
    let mut binds: Vec<Bind> = Vec::new();
    binds.push(Bind::Id(schema_uuid));
    binds.push(Bind::Long(MAX_COLUMNS_PER_SCHEMA as i64));
    assert(bind_views(binds@) =~= seq![
        BindView::Id(schema_uuid),
        BindView::Long(MAX_COLUMNS_PER_SCHEMA as i64),
    ]);
    proof {
        schema_columns_text(db);
        columns_of_a_schema_are_picked(schema_uuid, 1_000);
    }
    Query { text, binds }
}

/// The version of a schema.
pub fn schema_version(db: DbKind, schema_uuid: Uuid) -> (r: Query)
    ensures
        r.text@ == "SELECT schema_version FROM schemas WHERE schema_uuid = "@ + numbered(db, 1),
        bind_views(r.binds@) == seq![BindView::Id(schema_uuid)],
        r.text@ == select_text(db, schema_version_query()),
        picks_schemas(
            schema_version_query().conditions,
            bind_views(r.binds@),
            |u: Uuid, t: SchemaRecord| u == schema_uuid,
        ),
{
    let mut text = String::from_str("SELECT schema_version FROM schemas WHERE schema_uuid = ");
    text.append(write_numbered(db, 1).as_str());
    let mut binds: Vec<Bind> = Vec::new();
    binds.push(Bind::Id(schema_uuid));
    assert(bind_views(binds@) =~= seq![BindView::Id(schema_uuid)]);
    proof {
        schema_version_text(db);
        one_schema_is_picked(schema_uuid);
    }
    Query { text, binds }
}

/// The columns of a schema that is to be replaced.
pub fn current_columns(db: DbKind, schema_uuid: Uuid) -> (r: Query)
    ensures
        r.text@ == "SELECT column_name, column_type, is_nullable FROM columns WHERE schema_uuid = "@
            + numbered(db, 1),
        bind_views(r.binds@) == seq![BindView::Id(schema_uuid)],
        r.text@ == select_text(db, current_columns_query()),
        picks_columns(
            current_columns_query().conditions,
            bind_views(r.binds@),
            |u: Uuid, t: ColumnInsertView| u == schema_uuid,
        ),
{
    let mut text = String::from_str("SELECT column_name, column_type, is_nullable FROM columns WHERE schema_uuid = ");
    text.append(write_numbered(db, 1).as_str());
    let mut binds: Vec<Bind> = Vec::new();
    binds.push(Bind::Id(schema_uuid));
    assert(bind_views(binds@) =~= seq![BindView::Id(schema_uuid)]);
    proof {
        current_columns_text(db);
        current_columns_are_picked(schema_uuid);
    }
    Query { text, binds }
}

/// The table to commit to. PostgreSQL is asked to lock its row.
pub fn table_row_for_commit(db: DbKind, ident: &TableIdent) -> (r: Query)
    ensures
        ({
            let text = "SELECT table_uuid, current_schema_uuid, current_transaction_id, properties, min_reader_version, min_writer_version FROM tables WHERE namespace = "@
                + numbered(db, 1)
                + " AND table_name = "@
                + numbered(db, 2);
            match db {
                DbKind::Sqlite => r.text@ == text,
                DbKind::Postgres => r.text@ == text + " FOR UPDATE"@,
            }
        }),
        bind_views(r.binds@) == seq![BindView::Text(ident.namespace@), BindView::Text(ident.name@)],
        r.text@ == select_text(db, table_row_query()) + (if db is Postgres {
            " FOR UPDATE"@
        } else {
            Seq::empty()
        }),
        picks_tables(
            table_row_query().conditions,
            bind_views(r.binds@),
            |u: Uuid, t: TableRecord| t.namespace == ident.namespace@ && t.name == ident.name@,
        ),
{
    let query = table_row(db, ident);
    let mut text = query.text;
    match db {
        DbKind::Sqlite => {},
        DbKind::Postgres => text.append(" FOR UPDATE"),
    }
    proof {
        table_row_text(db);
        named_tables_are_picked(ident.namespace@, ident.name@);
        assert(text@ =~= select_text(db, table_row_query()) + (if db is Postgres {
            " FOR UPDATE"@
        } else {
            Seq::empty()
        }));
    }
    Query { text, binds: query.binds }
}

/// The transactions of a table in a range, in their order, one more than may be scanned.
pub fn transactions_in_range(db: DbKind, table_uuid: Uuid, range: TxnRangeCursor) -> (r: Query)
    ensures
        match range.from_exclusive {
            Some(from) => {
                &&& r.text@ == "SELECT transaction_id FROM transactions WHERE table_uuid = "@
                    + numbered(db, 1)
                    + " AND transaction_id > "@
                    + numbered(db, 2)
                    + " AND transaction_id <= "@
                    + numbered(db, 3)
                    + " ORDER BY transaction_id LIMIT "@
                    + numbered(db, 4)
                &&& bind_views(r.binds@) == seq![
                    BindView::Id(table_uuid),
                    BindView::Id(from),
                    BindView::Id(range.to_inclusive),
                    BindView::Long(one_more(MAX_TRANSACTIONS_PER_SCAN)),
                ]
            },
            None => {
                &&& r.text@ == "SELECT transaction_id FROM transactions WHERE table_uuid = "@
                    + numbered(db, 1)
                    + " AND transaction_id <= "@
                    + numbered(db, 2)
                    + " ORDER BY transaction_id LIMIT "@
                    + numbered(db, 3)
                &&& bind_views(r.binds@) == seq![
                    BindView::Id(table_uuid),
                    BindView::Id(range.to_inclusive),
                    BindView::Long(one_more(MAX_TRANSACTIONS_PER_SCAN)),
                ]
            },
        },
        match range.from_exclusive {
            Some(from) => {
                &&& r.text@ == select_text(db, transactions_between_query())
                &&& picks_transactions(
                    transactions_between_query().conditions,
                    bind_views(r.binds@),
                    |u: TxnId, t: TransactionRecord| t.table_uuid == table_uuid && from.value < u.value <= range.to_inclusive.value,
                )
                &&& cell_of(bind_views(r.binds@)[3]) == Cell::Number(50_001)
            },
            None => {
                &&& r.text@ == select_text(db, transactions_until_query())
                &&& picks_transactions(
                    transactions_until_query().conditions,
                    bind_views(r.binds@),
                    |u: TxnId, t: TransactionRecord| t.table_uuid == table_uuid && u.value <= range.to_inclusive.value,
                )
                &&& cell_of(bind_views(r.binds@)[2]) == Cell::Number(50_001)
            },
        },
{
    match range.from_exclusive {
        Some(from) => {
            let mut text = String::from_str("SELECT transaction_id FROM transactions WHERE table_uuid = ");
            text.append(write_numbered(db, 1).as_str());
            text.append(" AND transaction_id > ");
            text.append(write_numbered(db, 2).as_str());
            text.append(" AND transaction_id <= ");
            text.append(write_numbered(db, 3).as_str());
            text.append(" ORDER BY transaction_id LIMIT ");
            text.append(write_numbered(db, 4).as_str());
            let mut binds: Vec<Bind> = Vec::new();
            binds.push(Bind::Id(table_uuid));
            binds.push(Bind::Id(from));
            binds.push(Bind::Id(range.to_inclusive));
            binds.push(Bind::Long(MAX_TRANSACTIONS_PER_SCAN as i64 + 1));
            assert(bind_views(binds@) =~= seq![
                BindView::Id(table_uuid),
                BindView::Id(from),
                BindView::Id(range.to_inclusive),
                BindView::Long(one_more(MAX_TRANSACTIONS_PER_SCAN)),
            ]);
            proof {
                transactions_between_text(db);
                transactions_between_are_picked(table_uuid, from, range.to_inclusive);
            }
            Query { text, binds }
        },
        None => {
            let mut text = String::from_str("SELECT transaction_id FROM transactions WHERE table_uuid = ");
            text.append(write_numbered(db, 1).as_str());
            text.append(" AND transaction_id <= ");
            text.append(write_numbered(db, 2).as_str());
            text.append(" ORDER BY transaction_id LIMIT ");
            text.append(write_numbered(db, 3).as_str());
            let mut binds: Vec<Bind> = Vec::new();
            binds.push(Bind::Id(table_uuid));
            binds.push(Bind::Id(range.to_inclusive));
            binds.push(Bind::Long(MAX_TRANSACTIONS_PER_SCAN as i64 + 1));
            assert(bind_views(binds@) =~= seq![
                BindView::Id(table_uuid),
                BindView::Id(range.to_inclusive),
                BindView::Long(one_more(MAX_TRANSACTIONS_PER_SCAN)),
            ]);
            proof {
                transactions_until_text(db);
                transactions_until_are_picked(table_uuid, range.to_inclusive);
            }
            Query { text, binds }
        },
    }
}

/// The files that a range of transactions added, one more than may be read.
pub fn files_added_in_range(db: DbKind, table_uuid: Uuid, range: TxnRangeCursor) -> (r: Query)
    ensures
        match range.from_exclusive {
            Some(from) => {
                &&& r.text@ == "SELECT file_uuid, table_uuid, file_format, file_path, record_count, file_size_bytes, added_in_transaction_id, removed_in_transaction_id, partition_values, format_options FROM files WHERE table_uuid = "@
                    + numbered(db, 1)
                    + " AND added_in_transaction_id > "@
                    + numbered(db, 2)
                    + " AND added_in_transaction_id <= "@
                    + numbered(db, 3)
                    + " LIMIT "@
                    + numbered(db, 4)
                &&& bind_views(r.binds@) == seq![
                    BindView::Id(table_uuid),
                    BindView::Id(from),
                    BindView::Id(range.to_inclusive),
                    BindView::Long(one_more(MAX_FILES_PER_QUERY)),
                ]
            },
            None => {
                &&& r.text@ == "SELECT file_uuid, table_uuid, file_format, file_path, record_count, file_size_bytes, added_in_transaction_id, removed_in_transaction_id, partition_values, format_options FROM files WHERE table_uuid = "@
                    + numbered(db, 1)
                    + " AND added_in_transaction_id <= "@
                    + numbered(db, 2)
                    + " LIMIT "@
                    + numbered(db, 3)
                &&& bind_views(r.binds@) == seq![
                    BindView::Id(table_uuid),
                    BindView::Id(range.to_inclusive),
                    BindView::Long(one_more(MAX_FILES_PER_QUERY)),
                ]
            },
        },
        match range.from_exclusive {
            Some(from) => {
                &&& r.text@ == select_text(db, added_between_query())
                &&& picks_files(
                    added_between_query().conditions,
                    bind_views(r.binds@),
                    |u: Uuid, t: FileRecord| t.table_uuid == table_uuid && from.value < t.added.value <= range.to_inclusive.value,
                )
                &&& cell_of(bind_views(r.binds@)[3]) == Cell::Number(10_001)
            },
            None => {
                &&& r.text@ == select_text(db, added_until_query())
                &&& picks_files(
                    added_until_query().conditions,
                    bind_views(r.binds@),
                    |u: Uuid, t: FileRecord| t.table_uuid == table_uuid && t.added.value <= range.to_inclusive.value,
                )
                &&& cell_of(bind_views(r.binds@)[2]) == Cell::Number(10_001)
            },
        },
{
    match range.from_exclusive {
        Some(from) => {
            let mut text = String::from_str("SELECT file_uuid, table_uuid, file_format, file_path, record_count, file_size_bytes, added_in_transaction_id, removed_in_transaction_id, partition_values, format_options FROM files WHERE table_uuid = ");
            text.append(write_numbered(db, 1).as_str());
            text.append(" AND added_in_transaction_id > ");
            text.append(write_numbered(db, 2).as_str());
            text.append(" AND added_in_transaction_id <= ");
            text.append(write_numbered(db, 3).as_str());
            text.append(" LIMIT ");
            text.append(write_numbered(db, 4).as_str());
            let mut binds: Vec<Bind> = Vec::new();
            binds.push(Bind::Id(table_uuid));
            binds.push(Bind::Id(from));
            binds.push(Bind::Id(range.to_inclusive));
            binds.push(Bind::Long(MAX_FILES_PER_QUERY as i64 + 1));
            assert(bind_views(binds@) =~= seq![
                BindView::Id(table_uuid),
                BindView::Id(from),
                BindView::Id(range.to_inclusive),
                BindView::Long(one_more(MAX_FILES_PER_QUERY)),
            ]);
            proof {
                added_between_text(db);
                added_between_are_picked(table_uuid, from, range.to_inclusive);
            }
            Query { text, binds }
        },
        None => {
            let mut text = String::from_str("SELECT file_uuid, table_uuid, file_format, file_path, record_count, file_size_bytes, added_in_transaction_id, removed_in_transaction_id, partition_values, format_options FROM files WHERE table_uuid = ");
            text.append(write_numbered(db, 1).as_str());
            text.append(" AND added_in_transaction_id <= ");
            text.append(write_numbered(db, 2).as_str());
            text.append(" LIMIT ");
            text.append(write_numbered(db, 3).as_str());
            let mut binds: Vec<Bind> = Vec::new();
            binds.push(Bind::Id(table_uuid));
            binds.push(Bind::Id(range.to_inclusive));
            binds.push(Bind::Long(MAX_FILES_PER_QUERY as i64 + 1));
            assert(bind_views(binds@) =~= seq![
                BindView::Id(table_uuid),
                BindView::Id(range.to_inclusive),
                BindView::Long(one_more(MAX_FILES_PER_QUERY)),
            ]);
            proof {
                added_until_text(db);
                added_until_are_picked(table_uuid, range.to_inclusive);
            }
            Query { text, binds }
        },
    }
}

/// The files that a range of transactions removed, one more than may be read.
pub fn files_removed_in_range(db: DbKind, table_uuid: Uuid, range: TxnRangeCursor) -> (r: Query)
    ensures
        match range.from_exclusive {
            Some(from) => {
                &&& r.text@ == "SELECT file_uuid, table_uuid, file_format, file_path, record_count, file_size_bytes, added_in_transaction_id, removed_in_transaction_id, partition_values, format_options FROM files WHERE table_uuid = "@
                    + numbered(db, 1)
                    + " AND removed_in_transaction_id IS NOT NULL AND removed_in_transaction_id > "@
                    + numbered(db, 2)
                    + " AND removed_in_transaction_id <= "@
                    + numbered(db, 3)
                    + " LIMIT "@
                    + numbered(db, 4)
                &&& bind_views(r.binds@) == seq![
                    BindView::Id(table_uuid),
                    BindView::Id(from),
                    BindView::Id(range.to_inclusive),
                    BindView::Long(one_more(MAX_FILES_PER_QUERY)),
                ]
            },
            None => {
                &&& r.text@ == "SELECT file_uuid, table_uuid, file_format, file_path, record_count, file_size_bytes, added_in_transaction_id, removed_in_transaction_id, partition_values, format_options FROM files WHERE table_uuid = "@
                    + numbered(db, 1)
                    + " AND removed_in_transaction_id IS NOT NULL AND removed_in_transaction_id <= "@
                    + numbered(db, 2)
                    + " LIMIT "@
                    + numbered(db, 3)
                &&& bind_views(r.binds@) == seq![
                    BindView::Id(table_uuid),
                    BindView::Id(range.to_inclusive),
                    BindView::Long(one_more(MAX_FILES_PER_QUERY)),
                ]
            },
        },
        match range.from_exclusive {
            Some(from) => {
                &&& r.text@ == select_text(db, removed_between_query())
                &&& picks_files(
                    removed_between_query().conditions,
                    bind_views(r.binds@),
                    |u: Uuid, t: FileRecord| t.table_uuid == table_uuid && (t.removed matches Some(removed) && from.value < removed.value <= range.to_inclusive.value),
                )
                &&& cell_of(bind_views(r.binds@)[3]) == Cell::Number(10_001)
            },
            None => {
                &&& r.text@ == select_text(db, removed_until_query())
                &&& picks_files(
                    removed_until_query().conditions,
                    bind_views(r.binds@),
                    |u: Uuid, t: FileRecord| t.table_uuid == table_uuid && (t.removed matches Some(removed) && removed.value <= range.to_inclusive.value),
                )
                &&& cell_of(bind_views(r.binds@)[2]) == Cell::Number(10_001)
            },
        },
{
    match range.from_exclusive {
        Some(from) => {
            let mut text = String::from_str("SELECT file_uuid, table_uuid, file_format, file_path, record_count, file_size_bytes, added_in_transaction_id, removed_in_transaction_id, partition_values, format_options FROM files WHERE table_uuid = ");
            text.append(write_numbered(db, 1).as_str());
            text.append(" AND removed_in_transaction_id IS NOT NULL AND removed_in_transaction_id > ");
            text.append(write_numbered(db, 2).as_str());
            text.append(" AND removed_in_transaction_id <= ");
            text.append(write_numbered(db, 3).as_str());
            text.append(" LIMIT ");
            text.append(write_numbered(db, 4).as_str());
            let mut binds: Vec<Bind> = Vec::new();
            binds.push(Bind::Id(table_uuid));
            binds.push(Bind::Id(from));
            binds.push(Bind::Id(range.to_inclusive));
            binds.push(Bind::Long(MAX_FILES_PER_QUERY as i64 + 1));
            assert(bind_views(binds@) =~= seq![
                BindView::Id(table_uuid),
                BindView::Id(from),
                BindView::Id(range.to_inclusive),
                BindView::Long(one_more(MAX_FILES_PER_QUERY)),
            ]);
            proof {
                removed_between_text(db);
                removed_between_are_picked(table_uuid, from, range.to_inclusive);
            }
            Query { text, binds }
        },
        None => {
            let mut text = String::from_str("SELECT file_uuid, table_uuid, file_format, file_path, record_count, file_size_bytes, added_in_transaction_id, removed_in_transaction_id, partition_values, format_options FROM files WHERE table_uuid = ");
            text.append(write_numbered(db, 1).as_str());
            text.append(" AND removed_in_transaction_id IS NOT NULL AND removed_in_transaction_id <= ");
            text.append(write_numbered(db, 2).as_str());
            text.append(" LIMIT ");
            text.append(write_numbered(db, 3).as_str());
            let mut binds: Vec<Bind> = Vec::new();
            binds.push(Bind::Id(table_uuid));
            binds.push(Bind::Id(range.to_inclusive));
            binds.push(Bind::Long(MAX_FILES_PER_QUERY as i64 + 1));
            assert(bind_views(binds@) =~= seq![
                BindView::Id(table_uuid),
                BindView::Id(range.to_inclusive),
                BindView::Long(one_more(MAX_FILES_PER_QUERY)),
            ]);
            proof {
                removed_until_text(db);
                removed_until_are_picked(table_uuid, range.to_inclusive);
            }
            Query { text, binds }
        },
    }
}

/// The schemas that became valid in a range of transactions, one more than may be read.
pub fn schemas_in_range(db: DbKind, table_uuid: Uuid, range: TxnRangeCursor) -> (r: Query)
    ensures
        match range.from_exclusive {
            Some(from) => {
                &&& r.text@ == "SELECT schema_uuid, table_uuid, schema_version, valid_from_transaction_id, valid_to_transaction_id, created_at FROM schemas WHERE table_uuid = "@
                    + numbered(db, 1)
                    + " AND valid_from_transaction_id > "@
                    + numbered(db, 2)
                    + " AND valid_from_transaction_id <= "@
                    + numbered(db, 3)
                    + " LIMIT "@
                    + numbered(db, 4)
                &&& bind_views(r.binds@) == seq![
                    BindView::Id(table_uuid),
                    BindView::Id(from),
                    BindView::Id(range.to_inclusive),
                    BindView::Long(one_more(MAX_COLUMNS_PER_SCHEMA)),
                ]
            },
            None => {
                &&& r.text@ == "SELECT schema_uuid, table_uuid, schema_version, valid_from_transaction_id, valid_to_transaction_id, created_at FROM schemas WHERE table_uuid = "@
                    + numbered(db, 1)
                    + " AND valid_from_transaction_id <= "@
                    + numbered(db, 2)
                    + " LIMIT "@
                    + numbered(db, 3)
                &&& bind_views(r.binds@) == seq![
                    BindView::Id(table_uuid),
                    BindView::Id(range.to_inclusive),
                    BindView::Long(one_more(MAX_COLUMNS_PER_SCHEMA)),
                ]
            },
        },
        match range.from_exclusive {
            Some(from) => {
                &&& r.text@ == select_text(db, schemas_between_query())
                &&& picks_schemas(
                    schemas_between_query().conditions,
                    bind_views(r.binds@),
                    |u: Uuid, t: SchemaRecord| t.table_uuid == table_uuid && from.value < t.valid_from.value <= range.to_inclusive.value,
                )
                &&& cell_of(bind_views(r.binds@)[3]) == Cell::Number(1_001)
            },
            None => {
                &&& r.text@ == select_text(db, schemas_until_query())
                &&& picks_schemas(
                    schemas_until_query().conditions,
                    bind_views(r.binds@),
                    |u: Uuid, t: SchemaRecord| t.table_uuid == table_uuid && t.valid_from.value <= range.to_inclusive.value,
                )
                &&& cell_of(bind_views(r.binds@)[2]) == Cell::Number(1_001)
            },
        },
{
    match range.from_exclusive {
        Some(from) => {
            let mut text = String::from_str("SELECT schema_uuid, table_uuid, schema_version, valid_from_transaction_id, valid_to_transaction_id, created_at FROM schemas WHERE table_uuid = ");
            text.append(write_numbered(db, 1).as_str());
            text.append(" AND valid_from_transaction_id > ");
            text.append(write_numbered(db, 2).as_str());
            text.append(" AND valid_from_transaction_id <= ");
            text.append(write_numbered(db, 3).as_str());
            text.append(" LIMIT ");
            text.append(write_numbered(db, 4).as_str());
            let mut binds: Vec<Bind> = Vec::new();
            binds.push(Bind::Id(table_uuid));
            binds.push(Bind::Id(from));
            binds.push(Bind::Id(range.to_inclusive));
            binds.push(Bind::Long(MAX_COLUMNS_PER_SCHEMA as i64 + 1));
            assert(bind_views(binds@) =~= seq![
                BindView::Id(table_uuid),
                BindView::Id(from),
                BindView::Id(range.to_inclusive),
                BindView::Long(one_more(MAX_COLUMNS_PER_SCHEMA)),
            ]);
            proof {
                schemas_between_text(db);
                schemas_between_are_picked(table_uuid, from, range.to_inclusive);
            }
            Query { text, binds }
        },
        None => {
            let mut text = String::from_str("SELECT schema_uuid, table_uuid, schema_version, valid_from_transaction_id, valid_to_transaction_id, created_at FROM schemas WHERE table_uuid = ");
            text.append(write_numbered(db, 1).as_str());
            text.append(" AND valid_from_transaction_id <= ");
            text.append(write_numbered(db, 2).as_str());
            text.append(" LIMIT ");
            text.append(write_numbered(db, 3).as_str());
            let mut binds: Vec<Bind> = Vec::new();
            binds.push(Bind::Id(table_uuid));
            binds.push(Bind::Id(range.to_inclusive));
            binds.push(Bind::Long(MAX_COLUMNS_PER_SCHEMA as i64 + 1));
            assert(bind_views(binds@) =~= seq![
                BindView::Id(table_uuid),
                BindView::Id(range.to_inclusive),
                BindView::Long(one_more(MAX_COLUMNS_PER_SCHEMA)),
            ]);
            proof {
                schemas_until_text(db);
                schemas_until_are_picked(table_uuid, range.to_inclusive);
            }
            Query { text, binds }
        },
    }
}

} // verus!
