//! What the queries of the catalog ask for, as their SQL text says it.

use vstd::prelude::*;
use vstd::string::*;

use super::database::DbKind;
use super::models::TxnId;
use super::relations::{
    valid, visible, FileRecord, PropertiesRecord, SchemaRecord, TableRecord, TransactionRecord,
};
use super::sql::{
    column_cell, column_values, condition_text, delete_text, file_cell, file_values, meets,
    meets_all, picks_columns, picks_files, picks_properties, picks_rows, picks_schemas, picks_tables,
    picks_transactions, properties_values, schema_cell, schema_values, select_text, separated,
    table_values, transaction_values, where_text, Cell, Condition, Limit, Order, Row, Select,
};
use super::statements::{numbered, BindView, ColumnInsertView};
use super::writing::{
    column_names_differ, file_names_differ, properties_names_differ, schema_names_differ,
    table_names_differ, transaction_names_differ,
};
use crate::ids::Uuid;

verus! {

proof fn separated_one(a: Seq<char>, by: Seq<char>)
    ensures
        separated(seq![a], by) == a,
{
    reveal_with_fuel(separated, 2);
}

proof fn separated_two(a: Seq<char>, b: Seq<char>, by: Seq<char>)
    ensures
        separated(seq![a, b], by) == a + by + b,
{
    reveal_with_fuel(separated, 3);
    assert(seq![a, b].drop_last() =~= seq![a]);
}

proof fn separated_three(a: Seq<char>, b: Seq<char>, c: Seq<char>, by: Seq<char>)
    ensures
        separated(seq![a, b, c], by) == a + by + b + by + c,
{
    reveal_with_fuel(separated, 4);
    assert(seq![a, b, c].drop_last() =~= seq![a, b]);
    assert(seq![a, b].drop_last() =~= seq![a]);
}

proof fn separated_four(a: Seq<char>, b: Seq<char>, c: Seq<char>, d: Seq<char>, by: Seq<char>)
    ensures
        separated(seq![a, b, c, d], by) == a + by + b + by + c + by + d,
{
    reveal_with_fuel(separated, 5);
    assert(seq![a, b, c, d].drop_last() =~= seq![a, b, c]);
    assert(seq![a, b, c].drop_last() =~= seq![a, b]);
    assert(seq![a, b].drop_last() =~= seq![a]);
}

/// Whether there is a table of a name.
pub open spec fn table_exists_query() -> Select {
    Select {
        columns: seq!["1"@],
        table: "tables"@,
        conditions: seq![Condition::Is("namespace"@, 1), Condition::Is("table_name"@, 2)],
        order: Order::Any,
        limit: Limit::One,
    }
}

proof fn table_exists_literals()
    ensures
        "SELECT 1 FROM tables WHERE namespace = "@ == "SELECT "@ + separated(seq!["1"@], ", "@) + " FROM "@ + "tables"@ + " WHERE "@ + "namespace"@ + " = "@,
        " AND table_name = "@ == " AND "@ + "table_name"@ + " = "@,
{
    reveal_strlit("SELECT ");
    reveal_strlit("1");
    reveal_strlit(", ");
    reveal_strlit(" FROM ");
    reveal_strlit("tables");
    reveal_strlit(" WHERE ");
    reveal_strlit("namespace");
    reveal_strlit(" = ");
    reveal_strlit("SELECT 1 FROM tables WHERE namespace = ");
    reveal_strlit(" AND ");
    reveal_strlit("table_name");
    reveal_strlit(" AND table_name = ");
    reveal_with_fuel(separated, 2);
    let columns = seq!["1"@];
    assert(separated(columns, ", "@) =~= "1"@);
    assert("SELECT 1 FROM tables WHERE namespace = "@ =~= "SELECT "@ + "1"@ + " FROM "@ + "tables"@ + " WHERE "@ + "namespace"@ + " = "@);
    assert("SELECT "@ + separated(seq!["1"@], ", "@) + " FROM "@ + "tables"@ + " WHERE "@ + "namespace"@ + " = "@ =~= "SELECT "@ + "1"@ + " FROM "@ + "tables"@ + " WHERE "@ + "namespace"@ + " = "@);
    assert(" AND table_name = "@ =~= " AND "@ + "table_name"@ + " = "@);
}

#[verifier::rlimit(40)]
proof fn table_exists_where(db: DbKind)
    ensures
        where_text(db, seq![Condition::Is("namespace"@, 1), Condition::Is("table_name"@, 2)]) == " WHERE "@ + "namespace"@ + " = "@ + numbered(db, 1) + " AND "@ + "table_name"@ + " = "@ + numbered(db, 2),
{
    let conditions = seq![Condition::Is("namespace"@, 1), Condition::Is("table_name"@, 2)];
    let texts = Seq::new(conditions.len(), |i: int| condition_text(db, conditions[i]));
    let t0 = "namespace"@ + " = "@ + numbered(db, 1);
    let t1 = "table_name"@ + " = "@ + numbered(db, 2);
    assert(texts =~= seq![t0, t1]);
    separated_two(t0, t1, " AND "@);
    assert(where_text(db, conditions) =~= " WHERE "@ + "namespace"@ + " = "@ + numbered(db, 1) + " AND "@ + "table_name"@ + " = "@ + numbered(db, 2));
}

/// The text of the query.
#[verifier::rlimit(40)]
pub proof fn table_exists_text(db: DbKind)
    ensures
        select_text(db, table_exists_query()) == "SELECT 1 FROM tables WHERE namespace = "@ + numbered(db, 1) + " AND table_name = "@ + numbered(db, 2) + " LIMIT 1"@,
{
    table_exists_literals();
    table_exists_where(db);
    assert(select_text(db, table_exists_query()) =~= "SELECT "@ + separated(seq!["1"@], ", "@) + " FROM "@ + "tables"@ + " WHERE "@ + "namespace"@ + " = "@ + numbered(db, 1) + " AND "@ + "table_name"@ + " = "@ + numbered(db, 2) + " LIMIT 1"@);
    assert("SELECT 1 FROM tables WHERE namespace = "@ + numbered(db, 1) + " AND table_name = "@ + numbered(db, 2) + " LIMIT 1"@ =~= "SELECT "@ + separated(seq!["1"@], ", "@) + " FROM "@ + "tables"@ + " WHERE "@ + "namespace"@ + " = "@ + numbered(db, 1) + " AND "@ + "table_name"@ + " = "@ + numbered(db, 2) + " LIMIT 1"@);
}

/// The tables of a namespace.
pub open spec fn tables_in_query() -> Select {
    Select {
        columns: seq!["namespace"@, "table_name"@],
        table: "tables"@,
        conditions: seq![Condition::Is("namespace"@, 1)],
        order: Order::Any,
        limit: Limit::Parameter(2),
    }
}

proof fn tables_in_literals()
    ensures
        "SELECT namespace, table_name FROM tables WHERE namespace = "@ == "SELECT "@ + separated(seq!["namespace"@, "table_name"@], ", "@) + " FROM "@ + "tables"@ + " WHERE "@ + "namespace"@ + " = "@,
{
    reveal_strlit("SELECT ");
    reveal_strlit("namespace");
    reveal_strlit("table_name");
    reveal_strlit(", ");
    reveal_strlit(" FROM ");
    reveal_strlit("tables");
    reveal_strlit(" WHERE ");
    reveal_strlit(" = ");
    reveal_strlit("SELECT namespace, table_name FROM tables WHERE namespace = ");
    reveal_with_fuel(separated, 3);
    let columns = seq!["namespace"@, "table_name"@];
    assert(separated(columns, ", "@) =~= "namespace"@ + ", "@ + "table_name"@);
    assert("SELECT namespace, table_name FROM tables WHERE namespace = "@ =~= "SELECT "@ + "namespace"@ + ", "@ + "table_name"@ + " FROM "@ + "tables"@ + " WHERE "@ + "namespace"@ + " = "@);
    assert("SELECT "@ + separated(seq!["namespace"@, "table_name"@], ", "@) + " FROM "@ + "tables"@ + " WHERE "@ + "namespace"@ + " = "@ =~= "SELECT "@ + "namespace"@ + ", "@ + "table_name"@ + " FROM "@ + "tables"@ + " WHERE "@ + "namespace"@ + " = "@);
}

#[verifier::rlimit(40)]
proof fn tables_in_where(db: DbKind)
    ensures
        where_text(db, seq![Condition::Is("namespace"@, 1)]) == " WHERE "@ + "namespace"@ + " = "@ + numbered(db, 1),
{
    let conditions = seq![Condition::Is("namespace"@, 1)];
    let texts = Seq::new(conditions.len(), |i: int| condition_text(db, conditions[i]));
    let t0 = "namespace"@ + " = "@ + numbered(db, 1);
    assert(texts =~= seq![t0]);
    separated_one(t0, " AND "@);
    assert(where_text(db, conditions) =~= " WHERE "@ + "namespace"@ + " = "@ + numbered(db, 1));
}

/// The text of the query.
#[verifier::rlimit(40)]
pub proof fn tables_in_text(db: DbKind)
    ensures
        select_text(db, tables_in_query()) == "SELECT namespace, table_name FROM tables WHERE namespace = "@ + numbered(db, 1) + " LIMIT "@ + numbered(db, 2),
{
    tables_in_literals();
    tables_in_where(db);
    assert(select_text(db, tables_in_query()) =~= "SELECT "@ + separated(seq!["namespace"@, "table_name"@], ", "@) + " FROM "@ + "tables"@ + " WHERE "@ + "namespace"@ + " = "@ + numbered(db, 1) + " LIMIT "@ + numbered(db, 2));
    assert("SELECT namespace, table_name FROM tables WHERE namespace = "@ + numbered(db, 1) + " LIMIT "@ + numbered(db, 2) =~= "SELECT "@ + separated(seq!["namespace"@, "table_name"@], ", "@) + " FROM "@ + "tables"@ + " WHERE "@ + "namespace"@ + " = "@ + numbered(db, 1) + " LIMIT "@ + numbered(db, 2));
}

/// All tables.
pub open spec fn all_tables_query() -> Select {
    Select {
        columns: seq!["namespace"@, "table_name"@],
        table: "tables"@,
        conditions: Seq::<Condition>::empty(),
        order: Order::Any,
        limit: Limit::Parameter(1),
    }
}

proof fn all_tables_literals()
    ensures
        "SELECT namespace, table_name FROM tables LIMIT "@ == "SELECT "@ + separated(seq!["namespace"@, "table_name"@], ", "@) + " FROM "@ + "tables"@ + " LIMIT "@,
{
    reveal_strlit("SELECT ");
    reveal_strlit("namespace");
    reveal_strlit("table_name");
    reveal_strlit(", ");
    reveal_strlit(" FROM ");
    reveal_strlit("tables");
    reveal_strlit(" LIMIT ");
    reveal_strlit("SELECT namespace, table_name FROM tables LIMIT ");
    reveal_with_fuel(separated, 3);
    let columns = seq!["namespace"@, "table_name"@];
    assert(separated(columns, ", "@) =~= "namespace"@ + ", "@ + "table_name"@);
    assert("SELECT namespace, table_name FROM tables LIMIT "@ =~= "SELECT "@ + "namespace"@ + ", "@ + "table_name"@ + " FROM "@ + "tables"@ + " LIMIT "@);
    assert("SELECT "@ + separated(seq!["namespace"@, "table_name"@], ", "@) + " FROM "@ + "tables"@ + " LIMIT "@ =~= "SELECT "@ + "namespace"@ + ", "@ + "table_name"@ + " FROM "@ + "tables"@ + " LIMIT "@);
}

/// The text of the query.
#[verifier::rlimit(40)]
pub proof fn all_tables_text(db: DbKind)
    ensures
        select_text(db, all_tables_query()) == "SELECT namespace, table_name FROM tables LIMIT "@ + numbered(db, 1),
{
    all_tables_literals();
    assert(select_text(db, all_tables_query()) =~= "SELECT "@ + separated(seq!["namespace"@, "table_name"@], ", "@) + " FROM "@ + "tables"@ + " LIMIT "@ + numbered(db, 1));
    assert("SELECT namespace, table_name FROM tables LIMIT "@ + numbered(db, 1) =~= "SELECT "@ + separated(seq!["namespace"@, "table_name"@], ", "@) + " FROM "@ + "tables"@ + " LIMIT "@ + numbered(db, 1));
}

/// The table to drop.
pub open spec fn drop_table_conditions() -> Seq<Condition> {
    seq![Condition::Is("namespace"@, 1), Condition::Is("table_name"@, 2)]
}

proof fn drop_table_literals()
    ensures
        "DELETE FROM tables WHERE namespace = "@ == "DELETE FROM "@ + "tables"@ + " WHERE "@ + "namespace"@ + " = "@,
        " AND table_name = "@ == " AND "@ + "table_name"@ + " = "@,
{
    reveal_strlit("DELETE FROM ");
    reveal_strlit("tables");
    reveal_strlit(" WHERE ");
    reveal_strlit("namespace");
    reveal_strlit(" = ");
    reveal_strlit("DELETE FROM tables WHERE namespace = ");
    reveal_strlit(" AND ");
    reveal_strlit("table_name");
    reveal_strlit(" AND table_name = ");
    assert("DELETE FROM tables WHERE namespace = "@ =~= "DELETE FROM "@ + "tables"@ + " WHERE "@ + "namespace"@ + " = "@);
    assert(" AND table_name = "@ =~= " AND "@ + "table_name"@ + " = "@);
}

#[verifier::rlimit(40)]
proof fn drop_table_where(db: DbKind)
    ensures
        where_text(db, seq![Condition::Is("namespace"@, 1), Condition::Is("table_name"@, 2)]) == " WHERE "@ + "namespace"@ + " = "@ + numbered(db, 1) + " AND "@ + "table_name"@ + " = "@ + numbered(db, 2),
{
    let conditions = seq![Condition::Is("namespace"@, 1), Condition::Is("table_name"@, 2)];
    let texts = Seq::new(conditions.len(), |i: int| condition_text(db, conditions[i]));
    let t0 = "namespace"@ + " = "@ + numbered(db, 1);
    let t1 = "table_name"@ + " = "@ + numbered(db, 2);
    assert(texts =~= seq![t0, t1]);
    separated_two(t0, t1, " AND "@);
    assert(where_text(db, conditions) =~= " WHERE "@ + "namespace"@ + " = "@ + numbered(db, 1) + " AND "@ + "table_name"@ + " = "@ + numbered(db, 2));
}

/// The text of the query.
#[verifier::rlimit(40)]
pub proof fn drop_table_text(db: DbKind)
    ensures
        delete_text(db, "tables"@, drop_table_conditions()) == "DELETE FROM tables WHERE namespace = "@ + numbered(db, 1) + " AND table_name = "@ + numbered(db, 2),
{
    drop_table_literals();
    drop_table_where(db);
    assert(delete_text(db, "tables"@, drop_table_conditions()) =~= "DELETE FROM "@ + "tables"@ + " WHERE "@ + "namespace"@ + " = "@ + numbered(db, 1) + " AND "@ + "table_name"@ + " = "@ + numbered(db, 2));
    assert("DELETE FROM tables WHERE namespace = "@ + numbered(db, 1) + " AND table_name = "@ + numbered(db, 2) =~= "DELETE FROM "@ + "tables"@ + " WHERE "@ + "namespace"@ + " = "@ + numbered(db, 1) + " AND "@ + "table_name"@ + " = "@ + numbered(db, 2));
}

/// The current transaction of a table.
pub open spec fn current_transaction_row_query() -> Select {
    Select {
        columns: seq!["current_transaction_id"@],
        table: "tables"@,
        conditions: seq![Condition::Is("namespace"@, 1), Condition::Is("table_name"@, 2)],
        order: Order::Any,
        limit: Limit::All,
    }
}

proof fn current_transaction_row_literals()
    ensures
        "SELECT current_transaction_id FROM tables WHERE namespace = "@ == "SELECT "@ + separated(seq!["current_transaction_id"@], ", "@) + " FROM "@ + "tables"@ + " WHERE "@ + "namespace"@ + " = "@,
        " AND table_name = "@ == " AND "@ + "table_name"@ + " = "@,
{
    reveal_strlit("SELECT ");
    reveal_strlit("current_transaction_id");
    reveal_strlit(", ");
    reveal_strlit(" FROM ");
    reveal_strlit("tables");
    reveal_strlit(" WHERE ");
    reveal_strlit("namespace");
    reveal_strlit(" = ");
    reveal_strlit("SELECT current_transaction_id FROM tables WHERE namespace = ");
    reveal_strlit(" AND ");
    reveal_strlit("table_name");
    reveal_strlit(" AND table_name = ");
    reveal_with_fuel(separated, 2);
    let columns = seq!["current_transaction_id"@];
    assert(separated(columns, ", "@) =~= "current_transaction_id"@);
    assert("SELECT current_transaction_id FROM tables WHERE namespace = "@ =~= "SELECT "@ + "current_transaction_id"@ + " FROM "@ + "tables"@ + " WHERE "@ + "namespace"@ + " = "@);
    assert("SELECT "@ + separated(seq!["current_transaction_id"@], ", "@) + " FROM "@ + "tables"@ + " WHERE "@ + "namespace"@ + " = "@ =~= "SELECT "@ + "current_transaction_id"@ + " FROM "@ + "tables"@ + " WHERE "@ + "namespace"@ + " = "@);
    assert(" AND table_name = "@ =~= " AND "@ + "table_name"@ + " = "@);
}

#[verifier::rlimit(40)]
proof fn current_transaction_row_where(db: DbKind)
    ensures
        where_text(db, seq![Condition::Is("namespace"@, 1), Condition::Is("table_name"@, 2)]) == " WHERE "@ + "namespace"@ + " = "@ + numbered(db, 1) + " AND "@ + "table_name"@ + " = "@ + numbered(db, 2),
{
    let conditions = seq![Condition::Is("namespace"@, 1), Condition::Is("table_name"@, 2)];
    let texts = Seq::new(conditions.len(), |i: int| condition_text(db, conditions[i]));
    let t0 = "namespace"@ + " = "@ + numbered(db, 1);
    let t1 = "table_name"@ + " = "@ + numbered(db, 2);
    assert(texts =~= seq![t0, t1]);
    separated_two(t0, t1, " AND "@);
    assert(where_text(db, conditions) =~= " WHERE "@ + "namespace"@ + " = "@ + numbered(db, 1) + " AND "@ + "table_name"@ + " = "@ + numbered(db, 2));
}

/// The text of the query.
#[verifier::rlimit(40)]
pub proof fn current_transaction_row_text(db: DbKind)
    ensures
        select_text(db, current_transaction_row_query()) == "SELECT current_transaction_id FROM tables WHERE namespace = "@ + numbered(db, 1) + " AND table_name = "@ + numbered(db, 2),
{
    current_transaction_row_literals();
    current_transaction_row_where(db);
    assert(select_text(db, current_transaction_row_query()) =~= "SELECT "@ + separated(seq!["current_transaction_id"@], ", "@) + " FROM "@ + "tables"@ + " WHERE "@ + "namespace"@ + " = "@ + numbered(db, 1) + " AND "@ + "table_name"@ + " = "@ + numbered(db, 2));
    assert("SELECT current_transaction_id FROM tables WHERE namespace = "@ + numbered(db, 1) + " AND table_name = "@ + numbered(db, 2) =~= "SELECT "@ + separated(seq!["current_transaction_id"@], ", "@) + " FROM "@ + "tables"@ + " WHERE "@ + "namespace"@ + " = "@ + numbered(db, 1) + " AND "@ + "table_name"@ + " = "@ + numbered(db, 2));
}

/// The table whose events are asked for.
pub open spec fn event_table_query() -> Select {
    Select {
        columns: seq!["table_uuid"@, "current_transaction_id"@],
        table: "tables"@,
        conditions: seq![Condition::Is("namespace"@, 1), Condition::Is("table_name"@, 2)],
        order: Order::Any,
        limit: Limit::All,
    }
}

proof fn event_table_literals()
    ensures
        "SELECT table_uuid, current_transaction_id FROM tables WHERE namespace = "@ == "SELECT "@ + separated(seq!["table_uuid"@, "current_transaction_id"@], ", "@) + " FROM "@ + "tables"@ + " WHERE "@ + "namespace"@ + " = "@,
        " AND table_name = "@ == " AND "@ + "table_name"@ + " = "@,
{
    reveal_strlit("SELECT ");
    reveal_strlit("table_uuid");
    reveal_strlit("current_transaction_id");
    reveal_strlit(", ");
    reveal_strlit(" FROM ");
    reveal_strlit("tables");
    reveal_strlit(" WHERE ");
    reveal_strlit("namespace");
    reveal_strlit(" = ");
    reveal_strlit("SELECT table_uuid, current_transaction_id FROM tables WHERE namespace = ");
    reveal_strlit(" AND ");
    reveal_strlit("table_name");
    reveal_strlit(" AND table_name = ");
    reveal_with_fuel(separated, 3);
    let columns = seq!["table_uuid"@, "current_transaction_id"@];
    assert(separated(columns, ", "@) =~= "table_uuid"@ + ", "@ + "current_transaction_id"@);
    assert("SELECT table_uuid, current_transaction_id FROM tables WHERE namespace = "@ =~= "SELECT "@ + "table_uuid"@ + ", "@ + "current_transaction_id"@ + " FROM "@ + "tables"@ + " WHERE "@ + "namespace"@ + " = "@);
    assert("SELECT "@ + separated(seq!["table_uuid"@, "current_transaction_id"@], ", "@) + " FROM "@ + "tables"@ + " WHERE "@ + "namespace"@ + " = "@ =~= "SELECT "@ + "table_uuid"@ + ", "@ + "current_transaction_id"@ + " FROM "@ + "tables"@ + " WHERE "@ + "namespace"@ + " = "@);
    assert(" AND table_name = "@ =~= " AND "@ + "table_name"@ + " = "@);
}

#[verifier::rlimit(40)]
proof fn event_table_where(db: DbKind)
    ensures
        where_text(db, seq![Condition::Is("namespace"@, 1), Condition::Is("table_name"@, 2)]) == " WHERE "@ + "namespace"@ + " = "@ + numbered(db, 1) + " AND "@ + "table_name"@ + " = "@ + numbered(db, 2),
{
    let conditions = seq![Condition::Is("namespace"@, 1), Condition::Is("table_name"@, 2)];
    let texts = Seq::new(conditions.len(), |i: int| condition_text(db, conditions[i]));
    let t0 = "namespace"@ + " = "@ + numbered(db, 1);
    let t1 = "table_name"@ + " = "@ + numbered(db, 2);
    assert(texts =~= seq![t0, t1]);
    separated_two(t0, t1, " AND "@);
    assert(where_text(db, conditions) =~= " WHERE "@ + "namespace"@ + " = "@ + numbered(db, 1) + " AND "@ + "table_name"@ + " = "@ + numbered(db, 2));
}

/// The text of the query.
#[verifier::rlimit(40)]
pub proof fn event_table_text(db: DbKind)
    ensures
        select_text(db, event_table_query()) == "SELECT table_uuid, current_transaction_id FROM tables WHERE namespace = "@ + numbered(db, 1) + " AND table_name = "@ + numbered(db, 2),
{
    event_table_literals();
    event_table_where(db);
    assert(select_text(db, event_table_query()) =~= "SELECT "@ + separated(seq!["table_uuid"@, "current_transaction_id"@], ", "@) + " FROM "@ + "tables"@ + " WHERE "@ + "namespace"@ + " = "@ + numbered(db, 1) + " AND "@ + "table_name"@ + " = "@ + numbered(db, 2));
    assert("SELECT table_uuid, current_transaction_id FROM tables WHERE namespace = "@ + numbered(db, 1) + " AND table_name = "@ + numbered(db, 2) =~= "SELECT "@ + separated(seq!["table_uuid"@, "current_transaction_id"@], ", "@) + " FROM "@ + "tables"@ + " WHERE "@ + "namespace"@ + " = "@ + numbered(db, 1) + " AND "@ + "table_name"@ + " = "@ + numbered(db, 2));
}

/// The table to read or to commit to.
pub open spec fn table_row_query() -> Select {
    Select {
        columns: seq!["table_uuid"@, "current_schema_uuid"@, "current_transaction_id"@, "properties"@, "min_reader_version"@, "min_writer_version"@],
        table: "tables"@,
        conditions: seq![Condition::Is("namespace"@, 1), Condition::Is("table_name"@, 2)],
        order: Order::Any,
        limit: Limit::All,
    }
}

proof fn table_row_literals()
    ensures
        "SELECT table_uuid, current_schema_uuid, current_transaction_id, properties, min_reader_version, min_writer_version FROM tables WHERE namespace = "@ == "SELECT "@ + separated(seq!["table_uuid"@, "current_schema_uuid"@, "current_transaction_id"@, "properties"@, "min_reader_version"@, "min_writer_version"@], ", "@) + " FROM "@ + "tables"@ + " WHERE "@ + "namespace"@ + " = "@,
        " AND table_name = "@ == " AND "@ + "table_name"@ + " = "@,
{
    reveal_strlit("SELECT ");
    reveal_strlit("table_uuid");
    reveal_strlit("current_schema_uuid");
    reveal_strlit("current_transaction_id");
    reveal_strlit("properties");
    reveal_strlit("min_reader_version");
    reveal_strlit("min_writer_version");
    reveal_strlit(", ");
    reveal_strlit(" FROM ");
    reveal_strlit("tables");
    reveal_strlit(" WHERE ");
    reveal_strlit("namespace");
    reveal_strlit(" = ");
    reveal_strlit("SELECT table_uuid, current_schema_uuid, current_transaction_id, properties, min_reader_version, min_writer_version FROM tables WHERE namespace = ");
    reveal_strlit(" AND ");
    reveal_strlit("table_name");
    reveal_strlit(" AND table_name = ");
    reveal_with_fuel(separated, 7);
    let columns = seq!["table_uuid"@, "current_schema_uuid"@, "current_transaction_id"@, "properties"@, "min_reader_version"@, "min_writer_version"@];
    assert(separated(columns, ", "@) =~= "table_uuid"@ + ", "@ + "current_schema_uuid"@ + ", "@ + "current_transaction_id"@ + ", "@ + "properties"@ + ", "@ + "min_reader_version"@ + ", "@ + "min_writer_version"@);
    assert("SELECT table_uuid, current_schema_uuid, current_transaction_id, properties, min_reader_version, min_writer_version FROM tables WHERE namespace = "@ =~= "SELECT "@ + "table_uuid"@ + ", "@ + "current_schema_uuid"@ + ", "@ + "current_transaction_id"@ + ", "@ + "properties"@ + ", "@ + "min_reader_version"@ + ", "@ + "min_writer_version"@ + " FROM "@ + "tables"@ + " WHERE "@ + "namespace"@ + " = "@);
    assert("SELECT "@ + separated(seq!["table_uuid"@, "current_schema_uuid"@, "current_transaction_id"@, "properties"@, "min_reader_version"@, "min_writer_version"@], ", "@) + " FROM "@ + "tables"@ + " WHERE "@ + "namespace"@ + " = "@ =~= "SELECT "@ + "table_uuid"@ + ", "@ + "current_schema_uuid"@ + ", "@ + "current_transaction_id"@ + ", "@ + "properties"@ + ", "@ + "min_reader_version"@ + ", "@ + "min_writer_version"@ + " FROM "@ + "tables"@ + " WHERE "@ + "namespace"@ + " = "@);
    assert(" AND table_name = "@ =~= " AND "@ + "table_name"@ + " = "@);
}

#[verifier::rlimit(40)]
proof fn table_row_where(db: DbKind)
    ensures
        where_text(db, seq![Condition::Is("namespace"@, 1), Condition::Is("table_name"@, 2)]) == " WHERE "@ + "namespace"@ + " = "@ + numbered(db, 1) + " AND "@ + "table_name"@ + " = "@ + numbered(db, 2),
{
    let conditions = seq![Condition::Is("namespace"@, 1), Condition::Is("table_name"@, 2)];
    let texts = Seq::new(conditions.len(), |i: int| condition_text(db, conditions[i]));
    let t0 = "namespace"@ + " = "@ + numbered(db, 1);
    let t1 = "table_name"@ + " = "@ + numbered(db, 2);
    assert(texts =~= seq![t0, t1]);
    separated_two(t0, t1, " AND "@);
    assert(where_text(db, conditions) =~= " WHERE "@ + "namespace"@ + " = "@ + numbered(db, 1) + " AND "@ + "table_name"@ + " = "@ + numbered(db, 2));
}

/// The text of the query.
#[verifier::rlimit(40)]
pub proof fn table_row_text(db: DbKind)
    ensures
        select_text(db, table_row_query()) == "SELECT table_uuid, current_schema_uuid, current_transaction_id, properties, min_reader_version, min_writer_version FROM tables WHERE namespace = "@ + numbered(db, 1) + " AND table_name = "@ + numbered(db, 2),
{
    table_row_literals();
    table_row_where(db);
    assert(select_text(db, table_row_query()) =~= "SELECT "@ + separated(seq!["table_uuid"@, "current_schema_uuid"@, "current_transaction_id"@, "properties"@, "min_reader_version"@, "min_writer_version"@], ", "@) + " FROM "@ + "tables"@ + " WHERE "@ + "namespace"@ + " = "@ + numbered(db, 1) + " AND "@ + "table_name"@ + " = "@ + numbered(db, 2));
    assert("SELECT table_uuid, current_schema_uuid, current_transaction_id, properties, min_reader_version, min_writer_version FROM tables WHERE namespace = "@ + numbered(db, 1) + " AND table_name = "@ + numbered(db, 2) =~= "SELECT "@ + separated(seq!["table_uuid"@, "current_schema_uuid"@, "current_transaction_id"@, "properties"@, "min_reader_version"@, "min_writer_version"@], ", "@) + " FROM "@ + "tables"@ + " WHERE "@ + "namespace"@ + " = "@ + numbered(db, 1) + " AND "@ + "table_name"@ + " = "@ + numbered(db, 2));
}

/// The schema that a table has at a transaction.
pub open spec fn schema_at_query() -> Select {
    Select {
        columns: seq!["schema_uuid"@, "table_uuid"@, "schema_version"@, "valid_from_transaction_id"@, "valid_to_transaction_id"@, "created_at"@],
        table: "schemas"@,
        conditions: seq![Condition::Is("table_uuid"@, 1), Condition::AtMost("valid_from_transaction_id"@, 2), Condition::MissingOrAfter("valid_to_transaction_id"@, 2)],
        order: Order::Any,
        limit: Limit::One,
    }
}

proof fn schema_at_literals()
    ensures
        "SELECT schema_uuid, table_uuid, schema_version, valid_from_transaction_id, valid_to_transaction_id, created_at FROM schemas WHERE table_uuid = "@ == "SELECT "@ + separated(seq!["schema_uuid"@, "table_uuid"@, "schema_version"@, "valid_from_transaction_id"@, "valid_to_transaction_id"@, "created_at"@], ", "@) + " FROM "@ + "schemas"@ + " WHERE "@ + "table_uuid"@ + " = "@,
        " AND valid_from_transaction_id <= "@ == " AND "@ + "valid_from_transaction_id"@ + " <= "@,
        " AND (valid_to_transaction_id IS NULL OR valid_to_transaction_id > "@ == " AND "@ + "("@ + "valid_to_transaction_id"@ + " IS NULL OR "@ + "valid_to_transaction_id"@ + " > "@,
        ") LIMIT 1"@ == ")"@ + " LIMIT 1"@,
{
    reveal_strlit("SELECT ");
    reveal_strlit("schema_uuid");
    reveal_strlit("table_uuid");
    reveal_strlit("schema_version");
    reveal_strlit("valid_from_transaction_id");
    reveal_strlit("valid_to_transaction_id");
    reveal_strlit("created_at");
    reveal_strlit(", ");
    reveal_strlit(" FROM ");
    reveal_strlit("schemas");
    reveal_strlit(" WHERE ");
    reveal_strlit(" = ");
    reveal_strlit("SELECT schema_uuid, table_uuid, schema_version, valid_from_transaction_id, valid_to_transaction_id, created_at FROM schemas WHERE table_uuid = ");
    reveal_strlit(" AND ");
    reveal_strlit(" <= ");
    reveal_strlit(" AND valid_from_transaction_id <= ");
    reveal_strlit("(");
    reveal_strlit(" IS NULL OR ");
    reveal_strlit(" > ");
    reveal_strlit(" AND (valid_to_transaction_id IS NULL OR valid_to_transaction_id > ");
    reveal_strlit(")");
    reveal_strlit(" LIMIT 1");
    reveal_strlit(") LIMIT 1");
    reveal_with_fuel(separated, 7);
    let columns = seq!["schema_uuid"@, "table_uuid"@, "schema_version"@, "valid_from_transaction_id"@, "valid_to_transaction_id"@, "created_at"@];
    assert(separated(columns, ", "@) =~= "schema_uuid"@ + ", "@ + "table_uuid"@ + ", "@ + "schema_version"@ + ", "@ + "valid_from_transaction_id"@ + ", "@ + "valid_to_transaction_id"@ + ", "@ + "created_at"@);
    assert("SELECT schema_uuid, table_uuid, schema_version, valid_from_transaction_id, valid_to_transaction_id, created_at FROM schemas WHERE table_uuid = "@ =~= "SELECT "@ + "schema_uuid"@ + ", "@ + "table_uuid"@ + ", "@ + "schema_version"@ + ", "@ + "valid_from_transaction_id"@ + ", "@ + "valid_to_transaction_id"@ + ", "@ + "created_at"@ + " FROM "@ + "schemas"@ + " WHERE "@ + "table_uuid"@ + " = "@);
    assert("SELECT "@ + separated(seq!["schema_uuid"@, "table_uuid"@, "schema_version"@, "valid_from_transaction_id"@, "valid_to_transaction_id"@, "created_at"@], ", "@) + " FROM "@ + "schemas"@ + " WHERE "@ + "table_uuid"@ + " = "@ =~= "SELECT "@ + "schema_uuid"@ + ", "@ + "table_uuid"@ + ", "@ + "schema_version"@ + ", "@ + "valid_from_transaction_id"@ + ", "@ + "valid_to_transaction_id"@ + ", "@ + "created_at"@ + " FROM "@ + "schemas"@ + " WHERE "@ + "table_uuid"@ + " = "@);
    assert(" AND valid_from_transaction_id <= "@ =~= " AND "@ + "valid_from_transaction_id"@ + " <= "@);
    assert(" AND (valid_to_transaction_id IS NULL OR valid_to_transaction_id > "@ =~= " AND "@ + "("@ + "valid_to_transaction_id"@ + " IS NULL OR "@ + "valid_to_transaction_id"@ + " > "@);
    assert(") LIMIT 1"@ =~= ")"@ + " LIMIT 1"@);
}

#[verifier::rlimit(40)]
proof fn schema_at_where(db: DbKind)
    ensures
        where_text(db, seq![Condition::Is("table_uuid"@, 1), Condition::AtMost("valid_from_transaction_id"@, 2), Condition::MissingOrAfter("valid_to_transaction_id"@, 2)]) == " WHERE "@ + "table_uuid"@ + " = "@ + numbered(db, 1) + " AND "@ + "valid_from_transaction_id"@ + " <= "@ + numbered(db, 2) + " AND "@ + "("@ + "valid_to_transaction_id"@ + " IS NULL OR "@ + "valid_to_transaction_id"@ + " > "@ + numbered(db, 2) + ")"@,
{
    let conditions = seq![Condition::Is("table_uuid"@, 1), Condition::AtMost("valid_from_transaction_id"@, 2), Condition::MissingOrAfter("valid_to_transaction_id"@, 2)];
    let texts = Seq::new(conditions.len(), |i: int| condition_text(db, conditions[i]));
    let t0 = "table_uuid"@ + " = "@ + numbered(db, 1);
    let t1 = "valid_from_transaction_id"@ + " <= "@ + numbered(db, 2);
    let t2 = "("@ + "valid_to_transaction_id"@ + " IS NULL OR "@ + "valid_to_transaction_id"@ + " > "@ + numbered(db, 2) + ")"@;
    assert(texts =~= seq![t0, t1, t2]);
    separated_three(t0, t1, t2, " AND "@);
    assert(where_text(db, conditions) =~= " WHERE "@ + "table_uuid"@ + " = "@ + numbered(db, 1) + " AND "@ + "valid_from_transaction_id"@ + " <= "@ + numbered(db, 2) + " AND "@ + "("@ + "valid_to_transaction_id"@ + " IS NULL OR "@ + "valid_to_transaction_id"@ + " > "@ + numbered(db, 2) + ")"@);
}

/// The text of the query.
#[verifier::rlimit(40)]
pub proof fn schema_at_text(db: DbKind)
    ensures
        select_text(db, schema_at_query()) == "SELECT schema_uuid, table_uuid, schema_version, valid_from_transaction_id, valid_to_transaction_id, created_at FROM schemas WHERE table_uuid = "@ + numbered(db, 1) + " AND valid_from_transaction_id <= "@ + numbered(db, 2) + " AND (valid_to_transaction_id IS NULL OR valid_to_transaction_id > "@ + numbered(db, 2) + ") LIMIT 1"@,
{
    schema_at_literals();
    schema_at_where(db);
    assert(select_text(db, schema_at_query()) =~= "SELECT "@ + separated(seq!["schema_uuid"@, "table_uuid"@, "schema_version"@, "valid_from_transaction_id"@, "valid_to_transaction_id"@, "created_at"@], ", "@) + " FROM "@ + "schemas"@ + " WHERE "@ + "table_uuid"@ + " = "@ + numbered(db, 1) + " AND "@ + "valid_from_transaction_id"@ + " <= "@ + numbered(db, 2) + " AND "@ + "("@ + "valid_to_transaction_id"@ + " IS NULL OR "@ + "valid_to_transaction_id"@ + " > "@ + numbered(db, 2) + ")"@ + " LIMIT 1"@);
    assert("SELECT schema_uuid, table_uuid, schema_version, valid_from_transaction_id, valid_to_transaction_id, created_at FROM schemas WHERE table_uuid = "@ + numbered(db, 1) + " AND valid_from_transaction_id <= "@ + numbered(db, 2) + " AND (valid_to_transaction_id IS NULL OR valid_to_transaction_id > "@ + numbered(db, 2) + ") LIMIT 1"@ =~= "SELECT "@ + separated(seq!["schema_uuid"@, "table_uuid"@, "schema_version"@, "valid_from_transaction_id"@, "valid_to_transaction_id"@, "created_at"@], ", "@) + " FROM "@ + "schemas"@ + " WHERE "@ + "table_uuid"@ + " = "@ + numbered(db, 1) + " AND "@ + "valid_from_transaction_id"@ + " <= "@ + numbered(db, 2) + " AND "@ + "("@ + "valid_to_transaction_id"@ + " IS NULL OR "@ + "valid_to_transaction_id"@ + " > "@ + numbered(db, 2) + ")"@ + " LIMIT 1"@);
}

/// The properties that a table has at a transaction.
pub open spec fn properties_at_transaction_query() -> Select {
    Select {
        columns: seq!["properties"@],
        table: "table_properties"@,
        conditions: seq![Condition::Is("table_uuid"@, 1), Condition::AtMost("transaction_id"@, 2)],
        order: Order::Falling("transaction_id"@),
        limit: Limit::One,
    }
}

proof fn properties_at_transaction_literals()
    ensures
        "SELECT properties FROM table_properties WHERE table_uuid = "@ == "SELECT "@ + separated(seq!["properties"@], ", "@) + " FROM "@ + "table_properties"@ + " WHERE "@ + "table_uuid"@ + " = "@,
        " AND transaction_id <= "@ == " AND "@ + "transaction_id"@ + " <= "@,
        " ORDER BY transaction_id DESC LIMIT 1"@ == " ORDER BY "@ + "transaction_id"@ + " DESC"@ + " LIMIT 1"@,
{
    reveal_strlit("SELECT ");
    reveal_strlit("properties");
    reveal_strlit(", ");
    reveal_strlit(" FROM ");
    reveal_strlit("table_properties");
    reveal_strlit(" WHERE ");
    reveal_strlit("table_uuid");
    reveal_strlit(" = ");
    reveal_strlit("SELECT properties FROM table_properties WHERE table_uuid = ");
    reveal_strlit(" AND ");
    reveal_strlit("transaction_id");
    reveal_strlit(" <= ");
    reveal_strlit(" AND transaction_id <= ");
    reveal_strlit(" ORDER BY ");
    reveal_strlit(" DESC");
    reveal_strlit(" LIMIT 1");
    reveal_strlit(" ORDER BY transaction_id DESC LIMIT 1");
    reveal_with_fuel(separated, 2);
    let columns = seq!["properties"@];
    assert(separated(columns, ", "@) =~= "properties"@);
    assert("SELECT properties FROM table_properties WHERE table_uuid = "@ =~= "SELECT "@ + "properties"@ + " FROM "@ + "table_properties"@ + " WHERE "@ + "table_uuid"@ + " = "@);
    assert("SELECT "@ + separated(seq!["properties"@], ", "@) + " FROM "@ + "table_properties"@ + " WHERE "@ + "table_uuid"@ + " = "@ =~= "SELECT "@ + "properties"@ + " FROM "@ + "table_properties"@ + " WHERE "@ + "table_uuid"@ + " = "@);
    assert(" AND transaction_id <= "@ =~= " AND "@ + "transaction_id"@ + " <= "@);
    assert(" ORDER BY transaction_id DESC LIMIT 1"@ =~= " ORDER BY "@ + "transaction_id"@ + " DESC"@ + " LIMIT 1"@);
}

#[verifier::rlimit(40)]
proof fn properties_at_transaction_where(db: DbKind)
    ensures
        where_text(db, seq![Condition::Is("table_uuid"@, 1), Condition::AtMost("transaction_id"@, 2)]) == " WHERE "@ + "table_uuid"@ + " = "@ + numbered(db, 1) + " AND "@ + "transaction_id"@ + " <= "@ + numbered(db, 2),
{
    let conditions = seq![Condition::Is("table_uuid"@, 1), Condition::AtMost("transaction_id"@, 2)];
    let texts = Seq::new(conditions.len(), |i: int| condition_text(db, conditions[i]));
    let t0 = "table_uuid"@ + " = "@ + numbered(db, 1);
    let t1 = "transaction_id"@ + " <= "@ + numbered(db, 2);
    assert(texts =~= seq![t0, t1]);
    separated_two(t0, t1, " AND "@);
    assert(where_text(db, conditions) =~= " WHERE "@ + "table_uuid"@ + " = "@ + numbered(db, 1) + " AND "@ + "transaction_id"@ + " <= "@ + numbered(db, 2));
}

/// The text of the query.
#[verifier::rlimit(40)]
pub proof fn properties_at_transaction_text(db: DbKind)
    ensures
        select_text(db, properties_at_transaction_query()) == "SELECT properties FROM table_properties WHERE table_uuid = "@ + numbered(db, 1) + " AND transaction_id <= "@ + numbered(db, 2) + " ORDER BY transaction_id DESC LIMIT 1"@,
{
    properties_at_transaction_literals();
    properties_at_transaction_where(db);
    assert(select_text(db, properties_at_transaction_query()) =~= "SELECT "@ + separated(seq!["properties"@], ", "@) + " FROM "@ + "table_properties"@ + " WHERE "@ + "table_uuid"@ + " = "@ + numbered(db, 1) + " AND "@ + "transaction_id"@ + " <= "@ + numbered(db, 2) + " ORDER BY "@ + "transaction_id"@ + " DESC"@ + " LIMIT 1"@);
    assert("SELECT properties FROM table_properties WHERE table_uuid = "@ + numbered(db, 1) + " AND transaction_id <= "@ + numbered(db, 2) + " ORDER BY transaction_id DESC LIMIT 1"@ =~= "SELECT "@ + separated(seq!["properties"@], ", "@) + " FROM "@ + "table_properties"@ + " WHERE "@ + "table_uuid"@ + " = "@ + numbered(db, 1) + " AND "@ + "transaction_id"@ + " <= "@ + numbered(db, 2) + " ORDER BY "@ + "transaction_id"@ + " DESC"@ + " LIMIT 1"@);
}

/// The files that a table has at a transaction.
pub open spec fn files_at_transaction_query() -> Select {
    Select {
        columns: seq!["file_uuid"@, "table_uuid"@, "file_format"@, "file_path"@, "record_count"@, "file_size_bytes"@, "added_in_transaction_id"@, "removed_in_transaction_id"@, "partition_values"@, "format_options"@],
        table: "files"@,
        conditions: seq![Condition::Is("table_uuid"@, 1), Condition::AtMost("added_in_transaction_id"@, 2), Condition::MissingOrAfter("removed_in_transaction_id"@, 2)],
        order: Order::Any,
        limit: Limit::Parameter(3),
    }
}

proof fn files_at_transaction_literals()
    ensures
        "SELECT file_uuid, table_uuid, file_format, file_path, record_count, file_size_bytes, added_in_transaction_id, removed_in_transaction_id, partition_values, format_options FROM files WHERE table_uuid = "@ == "SELECT "@ + separated(seq!["file_uuid"@, "table_uuid"@, "file_format"@, "file_path"@, "record_count"@, "file_size_bytes"@, "added_in_transaction_id"@, "removed_in_transaction_id"@, "partition_values"@, "format_options"@], ", "@) + " FROM "@ + "files"@ + " WHERE "@ + "table_uuid"@ + " = "@,
        " AND added_in_transaction_id <= "@ == " AND "@ + "added_in_transaction_id"@ + " <= "@,
        " AND (removed_in_transaction_id IS NULL OR removed_in_transaction_id > "@ == " AND "@ + "("@ + "removed_in_transaction_id"@ + " IS NULL OR "@ + "removed_in_transaction_id"@ + " > "@,
        ") LIMIT "@ == ")"@ + " LIMIT "@,
{
    reveal_strlit("SELECT ");
    reveal_strlit("file_uuid");
    reveal_strlit("table_uuid");
    reveal_strlit("file_format");
    reveal_strlit("file_path");
    reveal_strlit("record_count");
    reveal_strlit("file_size_bytes");
    reveal_strlit("added_in_transaction_id");
    reveal_strlit("removed_in_transaction_id");
    reveal_strlit("partition_values");
    reveal_strlit("format_options");
    reveal_strlit(", ");
    reveal_strlit(" FROM ");
    reveal_strlit("files");
    reveal_strlit(" WHERE ");
    reveal_strlit(" = ");
    reveal_strlit("SELECT file_uuid, table_uuid, file_format, file_path, record_count, file_size_bytes, added_in_transaction_id, removed_in_transaction_id, partition_values, format_options FROM files WHERE table_uuid = ");
    reveal_strlit(" AND ");
    reveal_strlit(" <= ");
    reveal_strlit(" AND added_in_transaction_id <= ");
    reveal_strlit("(");
    reveal_strlit(" IS NULL OR ");
    reveal_strlit(" > ");
    reveal_strlit(" AND (removed_in_transaction_id IS NULL OR removed_in_transaction_id > ");
    reveal_strlit(")");
    reveal_strlit(" LIMIT ");
    reveal_strlit(") LIMIT ");
    reveal_with_fuel(separated, 11);
    let columns = seq!["file_uuid"@, "table_uuid"@, "file_format"@, "file_path"@, "record_count"@, "file_size_bytes"@, "added_in_transaction_id"@, "removed_in_transaction_id"@, "partition_values"@, "format_options"@];
    assert(separated(columns, ", "@) =~= "file_uuid"@ + ", "@ + "table_uuid"@ + ", "@ + "file_format"@ + ", "@ + "file_path"@ + ", "@ + "record_count"@ + ", "@ + "file_size_bytes"@ + ", "@ + "added_in_transaction_id"@ + ", "@ + "removed_in_transaction_id"@ + ", "@ + "partition_values"@ + ", "@ + "format_options"@);
    assert("SELECT file_uuid, table_uuid, file_format, file_path, record_count, file_size_bytes, added_in_transaction_id, removed_in_transaction_id, partition_values, format_options FROM files WHERE table_uuid = "@ =~= "SELECT "@ + "file_uuid"@ + ", "@ + "table_uuid"@ + ", "@ + "file_format"@ + ", "@ + "file_path"@ + ", "@ + "record_count"@ + ", "@ + "file_size_bytes"@ + ", "@ + "added_in_transaction_id"@ + ", "@ + "removed_in_transaction_id"@ + ", "@ + "partition_values"@ + ", "@ + "format_options"@ + " FROM "@ + "files"@ + " WHERE "@ + "table_uuid"@ + " = "@);
    assert("SELECT "@ + separated(seq!["file_uuid"@, "table_uuid"@, "file_format"@, "file_path"@, "record_count"@, "file_size_bytes"@, "added_in_transaction_id"@, "removed_in_transaction_id"@, "partition_values"@, "format_options"@], ", "@) + " FROM "@ + "files"@ + " WHERE "@ + "table_uuid"@ + " = "@ =~= "SELECT "@ + "file_uuid"@ + ", "@ + "table_uuid"@ + ", "@ + "file_format"@ + ", "@ + "file_path"@ + ", "@ + "record_count"@ + ", "@ + "file_size_bytes"@ + ", "@ + "added_in_transaction_id"@ + ", "@ + "removed_in_transaction_id"@ + ", "@ + "partition_values"@ + ", "@ + "format_options"@ + " FROM "@ + "files"@ + " WHERE "@ + "table_uuid"@ + " = "@);
    assert(" AND added_in_transaction_id <= "@ =~= " AND "@ + "added_in_transaction_id"@ + " <= "@);
    assert(" AND (removed_in_transaction_id IS NULL OR removed_in_transaction_id > "@ =~= " AND "@ + "("@ + "removed_in_transaction_id"@ + " IS NULL OR "@ + "removed_in_transaction_id"@ + " > "@);
    assert(") LIMIT "@ =~= ")"@ + " LIMIT "@);
}

#[verifier::rlimit(40)]
proof fn files_at_transaction_where(db: DbKind)
    ensures
        where_text(db, seq![Condition::Is("table_uuid"@, 1), Condition::AtMost("added_in_transaction_id"@, 2), Condition::MissingOrAfter("removed_in_transaction_id"@, 2)]) == " WHERE "@ + "table_uuid"@ + " = "@ + numbered(db, 1) + " AND "@ + "added_in_transaction_id"@ + " <= "@ + numbered(db, 2) + " AND "@ + "("@ + "removed_in_transaction_id"@ + " IS NULL OR "@ + "removed_in_transaction_id"@ + " > "@ + numbered(db, 2) + ")"@,
{
    let conditions = seq![Condition::Is("table_uuid"@, 1), Condition::AtMost("added_in_transaction_id"@, 2), Condition::MissingOrAfter("removed_in_transaction_id"@, 2)];
    let texts = Seq::new(conditions.len(), |i: int| condition_text(db, conditions[i]));
    let t0 = "table_uuid"@ + " = "@ + numbered(db, 1);
    let t1 = "added_in_transaction_id"@ + " <= "@ + numbered(db, 2);
    let t2 = "("@ + "removed_in_transaction_id"@ + " IS NULL OR "@ + "removed_in_transaction_id"@ + " > "@ + numbered(db, 2) + ")"@;
    assert(texts =~= seq![t0, t1, t2]);
    separated_three(t0, t1, t2, " AND "@);
    assert(where_text(db, conditions) =~= " WHERE "@ + "table_uuid"@ + " = "@ + numbered(db, 1) + " AND "@ + "added_in_transaction_id"@ + " <= "@ + numbered(db, 2) + " AND "@ + "("@ + "removed_in_transaction_id"@ + " IS NULL OR "@ + "removed_in_transaction_id"@ + " > "@ + numbered(db, 2) + ")"@);
}

/// The text of the query.
#[verifier::rlimit(40)]
pub proof fn files_at_transaction_text(db: DbKind)
    ensures
        select_text(db, files_at_transaction_query()) == "SELECT file_uuid, table_uuid, file_format, file_path, record_count, file_size_bytes, added_in_transaction_id, removed_in_transaction_id, partition_values, format_options FROM files WHERE table_uuid = "@ + numbered(db, 1) + " AND added_in_transaction_id <= "@ + numbered(db, 2) + " AND (removed_in_transaction_id IS NULL OR removed_in_transaction_id > "@ + numbered(db, 2) + ") LIMIT "@ + numbered(db, 3),
{
    files_at_transaction_literals();
    files_at_transaction_where(db);
    assert(select_text(db, files_at_transaction_query()) =~= "SELECT "@ + separated(seq!["file_uuid"@, "table_uuid"@, "file_format"@, "file_path"@, "record_count"@, "file_size_bytes"@, "added_in_transaction_id"@, "removed_in_transaction_id"@, "partition_values"@, "format_options"@], ", "@) + " FROM "@ + "files"@ + " WHERE "@ + "table_uuid"@ + " = "@ + numbered(db, 1) + " AND "@ + "added_in_transaction_id"@ + " <= "@ + numbered(db, 2) + " AND "@ + "("@ + "removed_in_transaction_id"@ + " IS NULL OR "@ + "removed_in_transaction_id"@ + " > "@ + numbered(db, 2) + ")"@ + " LIMIT "@ + numbered(db, 3));
    assert("SELECT file_uuid, table_uuid, file_format, file_path, record_count, file_size_bytes, added_in_transaction_id, removed_in_transaction_id, partition_values, format_options FROM files WHERE table_uuid = "@ + numbered(db, 1) + " AND added_in_transaction_id <= "@ + numbered(db, 2) + " AND (removed_in_transaction_id IS NULL OR removed_in_transaction_id > "@ + numbered(db, 2) + ") LIMIT "@ + numbered(db, 3) =~= "SELECT "@ + separated(seq!["file_uuid"@, "table_uuid"@, "file_format"@, "file_path"@, "record_count"@, "file_size_bytes"@, "added_in_transaction_id"@, "removed_in_transaction_id"@, "partition_values"@, "format_options"@], ", "@) + " FROM "@ + "files"@ + " WHERE "@ + "table_uuid"@ + " = "@ + numbered(db, 1) + " AND "@ + "added_in_transaction_id"@ + " <= "@ + numbered(db, 2) + " AND "@ + "("@ + "removed_in_transaction_id"@ + " IS NULL OR "@ + "removed_in_transaction_id"@ + " > "@ + numbered(db, 2) + ")"@ + " LIMIT "@ + numbered(db, 3));
}

/// The statistics of a table for a transaction.
pub open spec fn stats_at_query() -> Select {
    Select {
        columns: seq!["table_uuid"@, "transaction_id"@, "record_count"@, "file_size_bytes"@, "file_count"@, "last_updated"@],
        table: "table_stats"@,
        conditions: seq![Condition::Is("table_uuid"@, 1), Condition::Is("transaction_id"@, 2)],
        order: Order::Any,
        limit: Limit::All,
    }
}

proof fn stats_at_literals()
    ensures
        "SELECT table_uuid, transaction_id, record_count, file_size_bytes, file_count, last_updated FROM table_stats WHERE table_uuid = "@ == "SELECT "@ + separated(seq!["table_uuid"@, "transaction_id"@, "record_count"@, "file_size_bytes"@, "file_count"@, "last_updated"@], ", "@) + " FROM "@ + "table_stats"@ + " WHERE "@ + "table_uuid"@ + " = "@,
        " AND transaction_id = "@ == " AND "@ + "transaction_id"@ + " = "@,
{
    reveal_strlit("SELECT ");
    reveal_strlit("table_uuid");
    reveal_strlit("transaction_id");
    reveal_strlit("record_count");
    reveal_strlit("file_size_bytes");
    reveal_strlit("file_count");
    reveal_strlit("last_updated");
    reveal_strlit(", ");
    reveal_strlit(" FROM ");
    reveal_strlit("table_stats");
    reveal_strlit(" WHERE ");
    reveal_strlit(" = ");
    reveal_strlit("SELECT table_uuid, transaction_id, record_count, file_size_bytes, file_count, last_updated FROM table_stats WHERE table_uuid = ");
    reveal_strlit(" AND ");
    reveal_strlit(" AND transaction_id = ");
    reveal_with_fuel(separated, 7);
    let columns = seq!["table_uuid"@, "transaction_id"@, "record_count"@, "file_size_bytes"@, "file_count"@, "last_updated"@];
    assert(separated(columns, ", "@) =~= "table_uuid"@ + ", "@ + "transaction_id"@ + ", "@ + "record_count"@ + ", "@ + "file_size_bytes"@ + ", "@ + "file_count"@ + ", "@ + "last_updated"@);
    assert("SELECT table_uuid, transaction_id, record_count, file_size_bytes, file_count, last_updated FROM table_stats WHERE table_uuid = "@ =~= "SELECT "@ + "table_uuid"@ + ", "@ + "transaction_id"@ + ", "@ + "record_count"@ + ", "@ + "file_size_bytes"@ + ", "@ + "file_count"@ + ", "@ + "last_updated"@ + " FROM "@ + "table_stats"@ + " WHERE "@ + "table_uuid"@ + " = "@);
    assert("SELECT "@ + separated(seq!["table_uuid"@, "transaction_id"@, "record_count"@, "file_size_bytes"@, "file_count"@, "last_updated"@], ", "@) + " FROM "@ + "table_stats"@ + " WHERE "@ + "table_uuid"@ + " = "@ =~= "SELECT "@ + "table_uuid"@ + ", "@ + "transaction_id"@ + ", "@ + "record_count"@ + ", "@ + "file_size_bytes"@ + ", "@ + "file_count"@ + ", "@ + "last_updated"@ + " FROM "@ + "table_stats"@ + " WHERE "@ + "table_uuid"@ + " = "@);
    assert(" AND transaction_id = "@ =~= " AND "@ + "transaction_id"@ + " = "@);
}

#[verifier::rlimit(40)]
proof fn stats_at_where(db: DbKind)
    ensures
        where_text(db, seq![Condition::Is("table_uuid"@, 1), Condition::Is("transaction_id"@, 2)]) == " WHERE "@ + "table_uuid"@ + " = "@ + numbered(db, 1) + " AND "@ + "transaction_id"@ + " = "@ + numbered(db, 2),
{
    let conditions = seq![Condition::Is("table_uuid"@, 1), Condition::Is("transaction_id"@, 2)];
    let texts = Seq::new(conditions.len(), |i: int| condition_text(db, conditions[i]));
    let t0 = "table_uuid"@ + " = "@ + numbered(db, 1);
    let t1 = "transaction_id"@ + " = "@ + numbered(db, 2);
    assert(texts =~= seq![t0, t1]);
    separated_two(t0, t1, " AND "@);
    assert(where_text(db, conditions) =~= " WHERE "@ + "table_uuid"@ + " = "@ + numbered(db, 1) + " AND "@ + "transaction_id"@ + " = "@ + numbered(db, 2));
}

/// The text of the query.
#[verifier::rlimit(40)]
pub proof fn stats_at_text(db: DbKind)
    ensures
        select_text(db, stats_at_query()) == "SELECT table_uuid, transaction_id, record_count, file_size_bytes, file_count, last_updated FROM table_stats WHERE table_uuid = "@ + numbered(db, 1) + " AND transaction_id = "@ + numbered(db, 2),
{
    stats_at_literals();
    stats_at_where(db);
    assert(select_text(db, stats_at_query()) =~= "SELECT "@ + separated(seq!["table_uuid"@, "transaction_id"@, "record_count"@, "file_size_bytes"@, "file_count"@, "last_updated"@], ", "@) + " FROM "@ + "table_stats"@ + " WHERE "@ + "table_uuid"@ + " = "@ + numbered(db, 1) + " AND "@ + "transaction_id"@ + " = "@ + numbered(db, 2));
    assert("SELECT table_uuid, transaction_id, record_count, file_size_bytes, file_count, last_updated FROM table_stats WHERE table_uuid = "@ + numbered(db, 1) + " AND transaction_id = "@ + numbered(db, 2) =~= "SELECT "@ + separated(seq!["table_uuid"@, "transaction_id"@, "record_count"@, "file_size_bytes"@, "file_count"@, "last_updated"@], ", "@) + " FROM "@ + "table_stats"@ + " WHERE "@ + "table_uuid"@ + " = "@ + numbered(db, 1) + " AND "@ + "transaction_id"@ + " = "@ + numbered(db, 2));
}

/// The columns of a schema, in their order.
pub open spec fn schema_columns_query() -> Select {
    Select {
        columns: seq!["column_uuid"@, "schema_uuid"@, "column_name"@, "column_type"@, "ordinal_position"@, "is_nullable"@],
        table: "columns"@,
        conditions: seq![Condition::Is("schema_uuid"@, 1)],
        order: Order::Rising("ordinal_position"@),
        limit: Limit::Parameter(2),
    }
}

proof fn schema_columns_literals()
    ensures
        "SELECT column_uuid, schema_uuid, column_name, column_type, ordinal_position, is_nullable FROM columns WHERE schema_uuid = "@ == "SELECT "@ + separated(seq!["column_uuid"@, "schema_uuid"@, "column_name"@, "column_type"@, "ordinal_position"@, "is_nullable"@], ", "@) + " FROM "@ + "columns"@ + " WHERE "@ + "schema_uuid"@ + " = "@,
        " ORDER BY ordinal_position LIMIT "@ == " ORDER BY "@ + "ordinal_position"@ + " LIMIT "@,
{
    reveal_strlit("SELECT ");
    reveal_strlit("column_uuid");
    reveal_strlit("schema_uuid");
    reveal_strlit("column_name");
    reveal_strlit("column_type");
    reveal_strlit("ordinal_position");
    reveal_strlit("is_nullable");
    reveal_strlit(", ");
    reveal_strlit(" FROM ");
    reveal_strlit("columns");
    reveal_strlit(" WHERE ");
    reveal_strlit(" = ");
    reveal_strlit("SELECT column_uuid, schema_uuid, column_name, column_type, ordinal_position, is_nullable FROM columns WHERE schema_uuid = ");
    reveal_strlit(" ORDER BY ");
    reveal_strlit(" LIMIT ");
    reveal_strlit(" ORDER BY ordinal_position LIMIT ");
    reveal_with_fuel(separated, 7);
    let columns = seq!["column_uuid"@, "schema_uuid"@, "column_name"@, "column_type"@, "ordinal_position"@, "is_nullable"@];
    assert(separated(columns, ", "@) =~= "column_uuid"@ + ", "@ + "schema_uuid"@ + ", "@ + "column_name"@ + ", "@ + "column_type"@ + ", "@ + "ordinal_position"@ + ", "@ + "is_nullable"@);
    assert("SELECT column_uuid, schema_uuid, column_name, column_type, ordinal_position, is_nullable FROM columns WHERE schema_uuid = "@ =~= "SELECT "@ + "column_uuid"@ + ", "@ + "schema_uuid"@ + ", "@ + "column_name"@ + ", "@ + "column_type"@ + ", "@ + "ordinal_position"@ + ", "@ + "is_nullable"@ + " FROM "@ + "columns"@ + " WHERE "@ + "schema_uuid"@ + " = "@);
    assert("SELECT "@ + separated(seq!["column_uuid"@, "schema_uuid"@, "column_name"@, "column_type"@, "ordinal_position"@, "is_nullable"@], ", "@) + " FROM "@ + "columns"@ + " WHERE "@ + "schema_uuid"@ + " = "@ =~= "SELECT "@ + "column_uuid"@ + ", "@ + "schema_uuid"@ + ", "@ + "column_name"@ + ", "@ + "column_type"@ + ", "@ + "ordinal_position"@ + ", "@ + "is_nullable"@ + " FROM "@ + "columns"@ + " WHERE "@ + "schema_uuid"@ + " = "@);
    assert(" ORDER BY ordinal_position LIMIT "@ =~= " ORDER BY "@ + "ordinal_position"@ + " LIMIT "@);
}

#[verifier::rlimit(40)]
proof fn schema_columns_where(db: DbKind)
    ensures
        where_text(db, seq![Condition::Is("schema_uuid"@, 1)]) == " WHERE "@ + "schema_uuid"@ + " = "@ + numbered(db, 1),
{
    let conditions = seq![Condition::Is("schema_uuid"@, 1)];
    let texts = Seq::new(conditions.len(), |i: int| condition_text(db, conditions[i]));
    let t0 = "schema_uuid"@ + " = "@ + numbered(db, 1);
    assert(texts =~= seq![t0]);
    separated_one(t0, " AND "@);
    assert(where_text(db, conditions) =~= " WHERE "@ + "schema_uuid"@ + " = "@ + numbered(db, 1));
}

/// The text of the query.
#[verifier::rlimit(40)]
pub proof fn schema_columns_text(db: DbKind)
    ensures
        select_text(db, schema_columns_query()) == "SELECT column_uuid, schema_uuid, column_name, column_type, ordinal_position, is_nullable FROM columns WHERE schema_uuid = "@ + numbered(db, 1) + " ORDER BY ordinal_position LIMIT "@ + numbered(db, 2),
{
    schema_columns_literals();
    schema_columns_where(db);
    assert(select_text(db, schema_columns_query()) =~= "SELECT "@ + separated(seq!["column_uuid"@, "schema_uuid"@, "column_name"@, "column_type"@, "ordinal_position"@, "is_nullable"@], ", "@) + " FROM "@ + "columns"@ + " WHERE "@ + "schema_uuid"@ + " = "@ + numbered(db, 1) + " ORDER BY "@ + "ordinal_position"@ + " LIMIT "@ + numbered(db, 2));
    assert("SELECT column_uuid, schema_uuid, column_name, column_type, ordinal_position, is_nullable FROM columns WHERE schema_uuid = "@ + numbered(db, 1) + " ORDER BY ordinal_position LIMIT "@ + numbered(db, 2) =~= "SELECT "@ + separated(seq!["column_uuid"@, "schema_uuid"@, "column_name"@, "column_type"@, "ordinal_position"@, "is_nullable"@], ", "@) + " FROM "@ + "columns"@ + " WHERE "@ + "schema_uuid"@ + " = "@ + numbered(db, 1) + " ORDER BY "@ + "ordinal_position"@ + " LIMIT "@ + numbered(db, 2));
}

/// The version of a schema.
pub open spec fn schema_version_query() -> Select {
    Select {
        columns: seq!["schema_version"@],
        table: "schemas"@,
        conditions: seq![Condition::Is("schema_uuid"@, 1)],
        order: Order::Any,
        limit: Limit::All,
    }
}

proof fn schema_version_literals()
    ensures
        "SELECT schema_version FROM schemas WHERE schema_uuid = "@ == "SELECT "@ + separated(seq!["schema_version"@], ", "@) + " FROM "@ + "schemas"@ + " WHERE "@ + "schema_uuid"@ + " = "@,
{
    reveal_strlit("SELECT ");
    reveal_strlit("schema_version");
    reveal_strlit(", ");
    reveal_strlit(" FROM ");
    reveal_strlit("schemas");
    reveal_strlit(" WHERE ");
    reveal_strlit("schema_uuid");
    reveal_strlit(" = ");
    reveal_strlit("SELECT schema_version FROM schemas WHERE schema_uuid = ");
    reveal_with_fuel(separated, 2);
    let columns = seq!["schema_version"@];
    assert(separated(columns, ", "@) =~= "schema_version"@);
    assert("SELECT schema_version FROM schemas WHERE schema_uuid = "@ =~= "SELECT "@ + "schema_version"@ + " FROM "@ + "schemas"@ + " WHERE "@ + "schema_uuid"@ + " = "@);
    assert("SELECT "@ + separated(seq!["schema_version"@], ", "@) + " FROM "@ + "schemas"@ + " WHERE "@ + "schema_uuid"@ + " = "@ =~= "SELECT "@ + "schema_version"@ + " FROM "@ + "schemas"@ + " WHERE "@ + "schema_uuid"@ + " = "@);
}

#[verifier::rlimit(40)]
proof fn schema_version_where(db: DbKind)
    ensures
        where_text(db, seq![Condition::Is("schema_uuid"@, 1)]) == " WHERE "@ + "schema_uuid"@ + " = "@ + numbered(db, 1),
{
    let conditions = seq![Condition::Is("schema_uuid"@, 1)];
    let texts = Seq::new(conditions.len(), |i: int| condition_text(db, conditions[i]));
    let t0 = "schema_uuid"@ + " = "@ + numbered(db, 1);
    assert(texts =~= seq![t0]);
    separated_one(t0, " AND "@);
    assert(where_text(db, conditions) =~= " WHERE "@ + "schema_uuid"@ + " = "@ + numbered(db, 1));
}

/// The text of the query.
#[verifier::rlimit(40)]
pub proof fn schema_version_text(db: DbKind)
    ensures
        select_text(db, schema_version_query()) == "SELECT schema_version FROM schemas WHERE schema_uuid = "@ + numbered(db, 1),
{
    schema_version_literals();
    schema_version_where(db);
    assert(select_text(db, schema_version_query()) =~= "SELECT "@ + separated(seq!["schema_version"@], ", "@) + " FROM "@ + "schemas"@ + " WHERE "@ + "schema_uuid"@ + " = "@ + numbered(db, 1));
    assert("SELECT schema_version FROM schemas WHERE schema_uuid = "@ + numbered(db, 1) =~= "SELECT "@ + separated(seq!["schema_version"@], ", "@) + " FROM "@ + "schemas"@ + " WHERE "@ + "schema_uuid"@ + " = "@ + numbered(db, 1));
}

/// The columns of a schema that is to be replaced.
pub open spec fn current_columns_query() -> Select {
    Select {
        columns: seq!["column_name"@, "column_type"@, "is_nullable"@],
        table: "columns"@,
        conditions: seq![Condition::Is("schema_uuid"@, 1)],
        order: Order::Any,
        limit: Limit::All,
    }
}

proof fn current_columns_literals()
    ensures
        "SELECT column_name, column_type, is_nullable FROM columns WHERE schema_uuid = "@ == "SELECT "@ + separated(seq!["column_name"@, "column_type"@, "is_nullable"@], ", "@) + " FROM "@ + "columns"@ + " WHERE "@ + "schema_uuid"@ + " = "@,
{
    reveal_strlit("SELECT ");
    reveal_strlit("column_name");
    reveal_strlit("column_type");
    reveal_strlit("is_nullable");
    reveal_strlit(", ");
    reveal_strlit(" FROM ");
    reveal_strlit("columns");
    reveal_strlit(" WHERE ");
    reveal_strlit("schema_uuid");
    reveal_strlit(" = ");
    reveal_strlit("SELECT column_name, column_type, is_nullable FROM columns WHERE schema_uuid = ");
    reveal_with_fuel(separated, 4);
    let columns = seq!["column_name"@, "column_type"@, "is_nullable"@];
    assert(separated(columns, ", "@) =~= "column_name"@ + ", "@ + "column_type"@ + ", "@ + "is_nullable"@);
    assert("SELECT column_name, column_type, is_nullable FROM columns WHERE schema_uuid = "@ =~= "SELECT "@ + "column_name"@ + ", "@ + "column_type"@ + ", "@ + "is_nullable"@ + " FROM "@ + "columns"@ + " WHERE "@ + "schema_uuid"@ + " = "@);
    assert("SELECT "@ + separated(seq!["column_name"@, "column_type"@, "is_nullable"@], ", "@) + " FROM "@ + "columns"@ + " WHERE "@ + "schema_uuid"@ + " = "@ =~= "SELECT "@ + "column_name"@ + ", "@ + "column_type"@ + ", "@ + "is_nullable"@ + " FROM "@ + "columns"@ + " WHERE "@ + "schema_uuid"@ + " = "@);
}

#[verifier::rlimit(40)]
proof fn current_columns_where(db: DbKind)
    ensures
        where_text(db, seq![Condition::Is("schema_uuid"@, 1)]) == " WHERE "@ + "schema_uuid"@ + " = "@ + numbered(db, 1),
{
    let conditions = seq![Condition::Is("schema_uuid"@, 1)];
    let texts = Seq::new(conditions.len(), |i: int| condition_text(db, conditions[i]));
    let t0 = "schema_uuid"@ + " = "@ + numbered(db, 1);
    assert(texts =~= seq![t0]);
    separated_one(t0, " AND "@);
    assert(where_text(db, conditions) =~= " WHERE "@ + "schema_uuid"@ + " = "@ + numbered(db, 1));
}

/// The text of the query.
#[verifier::rlimit(40)]
pub proof fn current_columns_text(db: DbKind)
    ensures
        select_text(db, current_columns_query()) == "SELECT column_name, column_type, is_nullable FROM columns WHERE schema_uuid = "@ + numbered(db, 1),
{
    current_columns_literals();
    current_columns_where(db);
    assert(select_text(db, current_columns_query()) =~= "SELECT "@ + separated(seq!["column_name"@, "column_type"@, "is_nullable"@], ", "@) + " FROM "@ + "columns"@ + " WHERE "@ + "schema_uuid"@ + " = "@ + numbered(db, 1));
    assert("SELECT column_name, column_type, is_nullable FROM columns WHERE schema_uuid = "@ + numbered(db, 1) =~= "SELECT "@ + separated(seq!["column_name"@, "column_type"@, "is_nullable"@], ", "@) + " FROM "@ + "columns"@ + " WHERE "@ + "schema_uuid"@ + " = "@ + numbered(db, 1));
}

/// The transactions of a table after one and up to another, in their order.
pub open spec fn transactions_between_query() -> Select {
    Select {
        columns: seq!["transaction_id"@],
        table: "transactions"@,
        conditions: seq![Condition::Is("table_uuid"@, 1), Condition::After("transaction_id"@, 2), Condition::AtMost("transaction_id"@, 3)],
        order: Order::Rising("transaction_id"@),
        limit: Limit::Parameter(4),
    }
}

proof fn transactions_between_literals()
    ensures
        "SELECT transaction_id FROM transactions WHERE table_uuid = "@ == "SELECT "@ + separated(seq!["transaction_id"@], ", "@) + " FROM "@ + "transactions"@ + " WHERE "@ + "table_uuid"@ + " = "@,
        " AND transaction_id > "@ == " AND "@ + "transaction_id"@ + " > "@,
        " AND transaction_id <= "@ == " AND "@ + "transaction_id"@ + " <= "@,
        " ORDER BY transaction_id LIMIT "@ == " ORDER BY "@ + "transaction_id"@ + " LIMIT "@,
{
    reveal_strlit("SELECT ");
    reveal_strlit("transaction_id");
    reveal_strlit(", ");
    reveal_strlit(" FROM ");
    reveal_strlit("transactions");
    reveal_strlit(" WHERE ");
    reveal_strlit("table_uuid");
    reveal_strlit(" = ");
    reveal_strlit("SELECT transaction_id FROM transactions WHERE table_uuid = ");
    reveal_strlit(" AND ");
    reveal_strlit(" > ");
    reveal_strlit(" AND transaction_id > ");
    reveal_strlit(" <= ");
    reveal_strlit(" AND transaction_id <= ");
    reveal_strlit(" ORDER BY ");
    reveal_strlit(" LIMIT ");
    reveal_strlit(" ORDER BY transaction_id LIMIT ");
    reveal_with_fuel(separated, 2);
    let columns = seq!["transaction_id"@];
    assert(separated(columns, ", "@) =~= "transaction_id"@);
    assert("SELECT transaction_id FROM transactions WHERE table_uuid = "@ =~= "SELECT "@ + "transaction_id"@ + " FROM "@ + "transactions"@ + " WHERE "@ + "table_uuid"@ + " = "@);
    assert("SELECT "@ + separated(seq!["transaction_id"@], ", "@) + " FROM "@ + "transactions"@ + " WHERE "@ + "table_uuid"@ + " = "@ =~= "SELECT "@ + "transaction_id"@ + " FROM "@ + "transactions"@ + " WHERE "@ + "table_uuid"@ + " = "@);
    assert(" AND transaction_id > "@ =~= " AND "@ + "transaction_id"@ + " > "@);
    assert(" AND transaction_id <= "@ =~= " AND "@ + "transaction_id"@ + " <= "@);
    assert(" ORDER BY transaction_id LIMIT "@ =~= " ORDER BY "@ + "transaction_id"@ + " LIMIT "@);
}

#[verifier::rlimit(40)]
proof fn transactions_between_where(db: DbKind)
    ensures
        where_text(db, seq![Condition::Is("table_uuid"@, 1), Condition::After("transaction_id"@, 2), Condition::AtMost("transaction_id"@, 3)]) == " WHERE "@ + "table_uuid"@ + " = "@ + numbered(db, 1) + " AND "@ + "transaction_id"@ + " > "@ + numbered(db, 2) + " AND "@ + "transaction_id"@ + " <= "@ + numbered(db, 3),
{
    let conditions = seq![Condition::Is("table_uuid"@, 1), Condition::After("transaction_id"@, 2), Condition::AtMost("transaction_id"@, 3)];
    let texts = Seq::new(conditions.len(), |i: int| condition_text(db, conditions[i]));
    let t0 = "table_uuid"@ + " = "@ + numbered(db, 1);
    let t1 = "transaction_id"@ + " > "@ + numbered(db, 2);
    let t2 = "transaction_id"@ + " <= "@ + numbered(db, 3);
    assert(texts =~= seq![t0, t1, t2]);
    separated_three(t0, t1, t2, " AND "@);
    assert(where_text(db, conditions) =~= " WHERE "@ + "table_uuid"@ + " = "@ + numbered(db, 1) + " AND "@ + "transaction_id"@ + " > "@ + numbered(db, 2) + " AND "@ + "transaction_id"@ + " <= "@ + numbered(db, 3));
}

/// The text of the query.
#[verifier::rlimit(40)]
pub proof fn transactions_between_text(db: DbKind)
    ensures
        select_text(db, transactions_between_query()) == "SELECT transaction_id FROM transactions WHERE table_uuid = "@ + numbered(db, 1) + " AND transaction_id > "@ + numbered(db, 2) + " AND transaction_id <= "@ + numbered(db, 3) + " ORDER BY transaction_id LIMIT "@ + numbered(db, 4),
{
    transactions_between_literals();
    transactions_between_where(db);
    assert(select_text(db, transactions_between_query()) =~= "SELECT "@ + separated(seq!["transaction_id"@], ", "@) + " FROM "@ + "transactions"@ + " WHERE "@ + "table_uuid"@ + " = "@ + numbered(db, 1) + " AND "@ + "transaction_id"@ + " > "@ + numbered(db, 2) + " AND "@ + "transaction_id"@ + " <= "@ + numbered(db, 3) + " ORDER BY "@ + "transaction_id"@ + " LIMIT "@ + numbered(db, 4));
    assert("SELECT transaction_id FROM transactions WHERE table_uuid = "@ + numbered(db, 1) + " AND transaction_id > "@ + numbered(db, 2) + " AND transaction_id <= "@ + numbered(db, 3) + " ORDER BY transaction_id LIMIT "@ + numbered(db, 4) =~= "SELECT "@ + separated(seq!["transaction_id"@], ", "@) + " FROM "@ + "transactions"@ + " WHERE "@ + "table_uuid"@ + " = "@ + numbered(db, 1) + " AND "@ + "transaction_id"@ + " > "@ + numbered(db, 2) + " AND "@ + "transaction_id"@ + " <= "@ + numbered(db, 3) + " ORDER BY "@ + "transaction_id"@ + " LIMIT "@ + numbered(db, 4));
}

/// The transactions of a table up to one, in their order.
pub open spec fn transactions_until_query() -> Select {
    Select {
        columns: seq!["transaction_id"@],
        table: "transactions"@,
        conditions: seq![Condition::Is("table_uuid"@, 1), Condition::AtMost("transaction_id"@, 2)],
        order: Order::Rising("transaction_id"@),
        limit: Limit::Parameter(3),
    }
}

proof fn transactions_until_literals()
    ensures
        "SELECT transaction_id FROM transactions WHERE table_uuid = "@ == "SELECT "@ + separated(seq!["transaction_id"@], ", "@) + " FROM "@ + "transactions"@ + " WHERE "@ + "table_uuid"@ + " = "@,
        " AND transaction_id <= "@ == " AND "@ + "transaction_id"@ + " <= "@,
        " ORDER BY transaction_id LIMIT "@ == " ORDER BY "@ + "transaction_id"@ + " LIMIT "@,
{
    reveal_strlit("SELECT ");
    reveal_strlit("transaction_id");
    reveal_strlit(", ");
    reveal_strlit(" FROM ");
    reveal_strlit("transactions");
    reveal_strlit(" WHERE ");
    reveal_strlit("table_uuid");
    reveal_strlit(" = ");
    reveal_strlit("SELECT transaction_id FROM transactions WHERE table_uuid = ");
    reveal_strlit(" AND ");
    reveal_strlit(" <= ");
    reveal_strlit(" AND transaction_id <= ");
    reveal_strlit(" ORDER BY ");
    reveal_strlit(" LIMIT ");
    reveal_strlit(" ORDER BY transaction_id LIMIT ");
    reveal_with_fuel(separated, 2);
    let columns = seq!["transaction_id"@];
    assert(separated(columns, ", "@) =~= "transaction_id"@);
    assert("SELECT transaction_id FROM transactions WHERE table_uuid = "@ =~= "SELECT "@ + "transaction_id"@ + " FROM "@ + "transactions"@ + " WHERE "@ + "table_uuid"@ + " = "@);
    assert("SELECT "@ + separated(seq!["transaction_id"@], ", "@) + " FROM "@ + "transactions"@ + " WHERE "@ + "table_uuid"@ + " = "@ =~= "SELECT "@ + "transaction_id"@ + " FROM "@ + "transactions"@ + " WHERE "@ + "table_uuid"@ + " = "@);
    assert(" AND transaction_id <= "@ =~= " AND "@ + "transaction_id"@ + " <= "@);
    assert(" ORDER BY transaction_id LIMIT "@ =~= " ORDER BY "@ + "transaction_id"@ + " LIMIT "@);
}

#[verifier::rlimit(40)]
proof fn transactions_until_where(db: DbKind)
    ensures
        where_text(db, seq![Condition::Is("table_uuid"@, 1), Condition::AtMost("transaction_id"@, 2)]) == " WHERE "@ + "table_uuid"@ + " = "@ + numbered(db, 1) + " AND "@ + "transaction_id"@ + " <= "@ + numbered(db, 2),
{
    let conditions = seq![Condition::Is("table_uuid"@, 1), Condition::AtMost("transaction_id"@, 2)];
    let texts = Seq::new(conditions.len(), |i: int| condition_text(db, conditions[i]));
    let t0 = "table_uuid"@ + " = "@ + numbered(db, 1);
    let t1 = "transaction_id"@ + " <= "@ + numbered(db, 2);
    assert(texts =~= seq![t0, t1]);
    separated_two(t0, t1, " AND "@);
    assert(where_text(db, conditions) =~= " WHERE "@ + "table_uuid"@ + " = "@ + numbered(db, 1) + " AND "@ + "transaction_id"@ + " <= "@ + numbered(db, 2));
}

/// The text of the query.
#[verifier::rlimit(40)]
pub proof fn transactions_until_text(db: DbKind)
    ensures
        select_text(db, transactions_until_query()) == "SELECT transaction_id FROM transactions WHERE table_uuid = "@ + numbered(db, 1) + " AND transaction_id <= "@ + numbered(db, 2) + " ORDER BY transaction_id LIMIT "@ + numbered(db, 3),
{
    transactions_until_literals();
    transactions_until_where(db);
    assert(select_text(db, transactions_until_query()) =~= "SELECT "@ + separated(seq!["transaction_id"@], ", "@) + " FROM "@ + "transactions"@ + " WHERE "@ + "table_uuid"@ + " = "@ + numbered(db, 1) + " AND "@ + "transaction_id"@ + " <= "@ + numbered(db, 2) + " ORDER BY "@ + "transaction_id"@ + " LIMIT "@ + numbered(db, 3));
    assert("SELECT transaction_id FROM transactions WHERE table_uuid = "@ + numbered(db, 1) + " AND transaction_id <= "@ + numbered(db, 2) + " ORDER BY transaction_id LIMIT "@ + numbered(db, 3) =~= "SELECT "@ + separated(seq!["transaction_id"@], ", "@) + " FROM "@ + "transactions"@ + " WHERE "@ + "table_uuid"@ + " = "@ + numbered(db, 1) + " AND "@ + "transaction_id"@ + " <= "@ + numbered(db, 2) + " ORDER BY "@ + "transaction_id"@ + " LIMIT "@ + numbered(db, 3));
}

/// The files that were added after a transaction and up to another.
pub open spec fn added_between_query() -> Select {
    Select {
        columns: seq!["file_uuid"@, "table_uuid"@, "file_format"@, "file_path"@, "record_count"@, "file_size_bytes"@, "added_in_transaction_id"@, "removed_in_transaction_id"@, "partition_values"@, "format_options"@],
        table: "files"@,
        conditions: seq![Condition::Is("table_uuid"@, 1), Condition::After("added_in_transaction_id"@, 2), Condition::AtMost("added_in_transaction_id"@, 3)],
        order: Order::Any,
        limit: Limit::Parameter(4),
    }
}

proof fn added_between_literals()
    ensures
        "SELECT file_uuid, table_uuid, file_format, file_path, record_count, file_size_bytes, added_in_transaction_id, removed_in_transaction_id, partition_values, format_options FROM files WHERE table_uuid = "@ == "SELECT "@ + separated(seq!["file_uuid"@, "table_uuid"@, "file_format"@, "file_path"@, "record_count"@, "file_size_bytes"@, "added_in_transaction_id"@, "removed_in_transaction_id"@, "partition_values"@, "format_options"@], ", "@) + " FROM "@ + "files"@ + " WHERE "@ + "table_uuid"@ + " = "@,
        " AND added_in_transaction_id > "@ == " AND "@ + "added_in_transaction_id"@ + " > "@,
        " AND added_in_transaction_id <= "@ == " AND "@ + "added_in_transaction_id"@ + " <= "@,
{
    reveal_strlit("SELECT ");
    reveal_strlit("file_uuid");
    reveal_strlit("table_uuid");
    reveal_strlit("file_format");
    reveal_strlit("file_path");
    reveal_strlit("record_count");
    reveal_strlit("file_size_bytes");
    reveal_strlit("added_in_transaction_id");
    reveal_strlit("removed_in_transaction_id");
    reveal_strlit("partition_values");
    reveal_strlit("format_options");
    reveal_strlit(", ");
    reveal_strlit(" FROM ");
    reveal_strlit("files");
    reveal_strlit(" WHERE ");
    reveal_strlit(" = ");
    reveal_strlit("SELECT file_uuid, table_uuid, file_format, file_path, record_count, file_size_bytes, added_in_transaction_id, removed_in_transaction_id, partition_values, format_options FROM files WHERE table_uuid = ");
    reveal_strlit(" AND ");
    reveal_strlit(" > ");
    reveal_strlit(" AND added_in_transaction_id > ");
    reveal_strlit(" <= ");
    reveal_strlit(" AND added_in_transaction_id <= ");
    reveal_with_fuel(separated, 11);
    let columns = seq!["file_uuid"@, "table_uuid"@, "file_format"@, "file_path"@, "record_count"@, "file_size_bytes"@, "added_in_transaction_id"@, "removed_in_transaction_id"@, "partition_values"@, "format_options"@];
    assert(separated(columns, ", "@) =~= "file_uuid"@ + ", "@ + "table_uuid"@ + ", "@ + "file_format"@ + ", "@ + "file_path"@ + ", "@ + "record_count"@ + ", "@ + "file_size_bytes"@ + ", "@ + "added_in_transaction_id"@ + ", "@ + "removed_in_transaction_id"@ + ", "@ + "partition_values"@ + ", "@ + "format_options"@);
    assert("SELECT file_uuid, table_uuid, file_format, file_path, record_count, file_size_bytes, added_in_transaction_id, removed_in_transaction_id, partition_values, format_options FROM files WHERE table_uuid = "@ =~= "SELECT "@ + "file_uuid"@ + ", "@ + "table_uuid"@ + ", "@ + "file_format"@ + ", "@ + "file_path"@ + ", "@ + "record_count"@ + ", "@ + "file_size_bytes"@ + ", "@ + "added_in_transaction_id"@ + ", "@ + "removed_in_transaction_id"@ + ", "@ + "partition_values"@ + ", "@ + "format_options"@ + " FROM "@ + "files"@ + " WHERE "@ + "table_uuid"@ + " = "@);
    assert("SELECT "@ + separated(seq!["file_uuid"@, "table_uuid"@, "file_format"@, "file_path"@, "record_count"@, "file_size_bytes"@, "added_in_transaction_id"@, "removed_in_transaction_id"@, "partition_values"@, "format_options"@], ", "@) + " FROM "@ + "files"@ + " WHERE "@ + "table_uuid"@ + " = "@ =~= "SELECT "@ + "file_uuid"@ + ", "@ + "table_uuid"@ + ", "@ + "file_format"@ + ", "@ + "file_path"@ + ", "@ + "record_count"@ + ", "@ + "file_size_bytes"@ + ", "@ + "added_in_transaction_id"@ + ", "@ + "removed_in_transaction_id"@ + ", "@ + "partition_values"@ + ", "@ + "format_options"@ + " FROM "@ + "files"@ + " WHERE "@ + "table_uuid"@ + " = "@);
    assert(" AND added_in_transaction_id > "@ =~= " AND "@ + "added_in_transaction_id"@ + " > "@);
    assert(" AND added_in_transaction_id <= "@ =~= " AND "@ + "added_in_transaction_id"@ + " <= "@);
}

#[verifier::rlimit(40)]
proof fn added_between_where(db: DbKind)
    ensures
        where_text(db, seq![Condition::Is("table_uuid"@, 1), Condition::After("added_in_transaction_id"@, 2), Condition::AtMost("added_in_transaction_id"@, 3)]) == " WHERE "@ + "table_uuid"@ + " = "@ + numbered(db, 1) + " AND "@ + "added_in_transaction_id"@ + " > "@ + numbered(db, 2) + " AND "@ + "added_in_transaction_id"@ + " <= "@ + numbered(db, 3),
{
    let conditions = seq![Condition::Is("table_uuid"@, 1), Condition::After("added_in_transaction_id"@, 2), Condition::AtMost("added_in_transaction_id"@, 3)];
    let texts = Seq::new(conditions.len(), |i: int| condition_text(db, conditions[i]));
    let t0 = "table_uuid"@ + " = "@ + numbered(db, 1);
    let t1 = "added_in_transaction_id"@ + " > "@ + numbered(db, 2);
    let t2 = "added_in_transaction_id"@ + " <= "@ + numbered(db, 3);
    assert(texts =~= seq![t0, t1, t2]);
    separated_three(t0, t1, t2, " AND "@);
    assert(where_text(db, conditions) =~= " WHERE "@ + "table_uuid"@ + " = "@ + numbered(db, 1) + " AND "@ + "added_in_transaction_id"@ + " > "@ + numbered(db, 2) + " AND "@ + "added_in_transaction_id"@ + " <= "@ + numbered(db, 3));
}

/// The text of the query.
#[verifier::rlimit(40)]
pub proof fn added_between_text(db: DbKind)
    ensures
        select_text(db, added_between_query()) == "SELECT file_uuid, table_uuid, file_format, file_path, record_count, file_size_bytes, added_in_transaction_id, removed_in_transaction_id, partition_values, format_options FROM files WHERE table_uuid = "@ + numbered(db, 1) + " AND added_in_transaction_id > "@ + numbered(db, 2) + " AND added_in_transaction_id <= "@ + numbered(db, 3) + " LIMIT "@ + numbered(db, 4),
{
    added_between_literals();
    added_between_where(db);
    assert(select_text(db, added_between_query()) =~= "SELECT "@ + separated(seq!["file_uuid"@, "table_uuid"@, "file_format"@, "file_path"@, "record_count"@, "file_size_bytes"@, "added_in_transaction_id"@, "removed_in_transaction_id"@, "partition_values"@, "format_options"@], ", "@) + " FROM "@ + "files"@ + " WHERE "@ + "table_uuid"@ + " = "@ + numbered(db, 1) + " AND "@ + "added_in_transaction_id"@ + " > "@ + numbered(db, 2) + " AND "@ + "added_in_transaction_id"@ + " <= "@ + numbered(db, 3) + " LIMIT "@ + numbered(db, 4));
    assert("SELECT file_uuid, table_uuid, file_format, file_path, record_count, file_size_bytes, added_in_transaction_id, removed_in_transaction_id, partition_values, format_options FROM files WHERE table_uuid = "@ + numbered(db, 1) + " AND added_in_transaction_id > "@ + numbered(db, 2) + " AND added_in_transaction_id <= "@ + numbered(db, 3) + " LIMIT "@ + numbered(db, 4) =~= "SELECT "@ + separated(seq!["file_uuid"@, "table_uuid"@, "file_format"@, "file_path"@, "record_count"@, "file_size_bytes"@, "added_in_transaction_id"@, "removed_in_transaction_id"@, "partition_values"@, "format_options"@], ", "@) + " FROM "@ + "files"@ + " WHERE "@ + "table_uuid"@ + " = "@ + numbered(db, 1) + " AND "@ + "added_in_transaction_id"@ + " > "@ + numbered(db, 2) + " AND "@ + "added_in_transaction_id"@ + " <= "@ + numbered(db, 3) + " LIMIT "@ + numbered(db, 4));
}

/// The files that were added up to a transaction.
pub open spec fn added_until_query() -> Select {
    Select {
        columns: seq!["file_uuid"@, "table_uuid"@, "file_format"@, "file_path"@, "record_count"@, "file_size_bytes"@, "added_in_transaction_id"@, "removed_in_transaction_id"@, "partition_values"@, "format_options"@],
        table: "files"@,
        conditions: seq![Condition::Is("table_uuid"@, 1), Condition::AtMost("added_in_transaction_id"@, 2)],
        order: Order::Any,
        limit: Limit::Parameter(3),
    }
}

proof fn added_until_literals()
    ensures
        "SELECT file_uuid, table_uuid, file_format, file_path, record_count, file_size_bytes, added_in_transaction_id, removed_in_transaction_id, partition_values, format_options FROM files WHERE table_uuid = "@ == "SELECT "@ + separated(seq!["file_uuid"@, "table_uuid"@, "file_format"@, "file_path"@, "record_count"@, "file_size_bytes"@, "added_in_transaction_id"@, "removed_in_transaction_id"@, "partition_values"@, "format_options"@], ", "@) + " FROM "@ + "files"@ + " WHERE "@ + "table_uuid"@ + " = "@,
        " AND added_in_transaction_id <= "@ == " AND "@ + "added_in_transaction_id"@ + " <= "@,
{
    reveal_strlit("SELECT ");
    reveal_strlit("file_uuid");
    reveal_strlit("table_uuid");
    reveal_strlit("file_format");
    reveal_strlit("file_path");
    reveal_strlit("record_count");
    reveal_strlit("file_size_bytes");
    reveal_strlit("added_in_transaction_id");
    reveal_strlit("removed_in_transaction_id");
    reveal_strlit("partition_values");
    reveal_strlit("format_options");
    reveal_strlit(", ");
    reveal_strlit(" FROM ");
    reveal_strlit("files");
    reveal_strlit(" WHERE ");
    reveal_strlit(" = ");
    reveal_strlit("SELECT file_uuid, table_uuid, file_format, file_path, record_count, file_size_bytes, added_in_transaction_id, removed_in_transaction_id, partition_values, format_options FROM files WHERE table_uuid = ");
    reveal_strlit(" AND ");
    reveal_strlit(" <= ");
    reveal_strlit(" AND added_in_transaction_id <= ");
    reveal_with_fuel(separated, 11);
    let columns = seq!["file_uuid"@, "table_uuid"@, "file_format"@, "file_path"@, "record_count"@, "file_size_bytes"@, "added_in_transaction_id"@, "removed_in_transaction_id"@, "partition_values"@, "format_options"@];
    assert(separated(columns, ", "@) =~= "file_uuid"@ + ", "@ + "table_uuid"@ + ", "@ + "file_format"@ + ", "@ + "file_path"@ + ", "@ + "record_count"@ + ", "@ + "file_size_bytes"@ + ", "@ + "added_in_transaction_id"@ + ", "@ + "removed_in_transaction_id"@ + ", "@ + "partition_values"@ + ", "@ + "format_options"@);
    assert("SELECT file_uuid, table_uuid, file_format, file_path, record_count, file_size_bytes, added_in_transaction_id, removed_in_transaction_id, partition_values, format_options FROM files WHERE table_uuid = "@ =~= "SELECT "@ + "file_uuid"@ + ", "@ + "table_uuid"@ + ", "@ + "file_format"@ + ", "@ + "file_path"@ + ", "@ + "record_count"@ + ", "@ + "file_size_bytes"@ + ", "@ + "added_in_transaction_id"@ + ", "@ + "removed_in_transaction_id"@ + ", "@ + "partition_values"@ + ", "@ + "format_options"@ + " FROM "@ + "files"@ + " WHERE "@ + "table_uuid"@ + " = "@);
    assert("SELECT "@ + separated(seq!["file_uuid"@, "table_uuid"@, "file_format"@, "file_path"@, "record_count"@, "file_size_bytes"@, "added_in_transaction_id"@, "removed_in_transaction_id"@, "partition_values"@, "format_options"@], ", "@) + " FROM "@ + "files"@ + " WHERE "@ + "table_uuid"@ + " = "@ =~= "SELECT "@ + "file_uuid"@ + ", "@ + "table_uuid"@ + ", "@ + "file_format"@ + ", "@ + "file_path"@ + ", "@ + "record_count"@ + ", "@ + "file_size_bytes"@ + ", "@ + "added_in_transaction_id"@ + ", "@ + "removed_in_transaction_id"@ + ", "@ + "partition_values"@ + ", "@ + "format_options"@ + " FROM "@ + "files"@ + " WHERE "@ + "table_uuid"@ + " = "@);
    assert(" AND added_in_transaction_id <= "@ =~= " AND "@ + "added_in_transaction_id"@ + " <= "@);
}

#[verifier::rlimit(40)]
proof fn added_until_where(db: DbKind)
    ensures
        where_text(db, seq![Condition::Is("table_uuid"@, 1), Condition::AtMost("added_in_transaction_id"@, 2)]) == " WHERE "@ + "table_uuid"@ + " = "@ + numbered(db, 1) + " AND "@ + "added_in_transaction_id"@ + " <= "@ + numbered(db, 2),
{
    let conditions = seq![Condition::Is("table_uuid"@, 1), Condition::AtMost("added_in_transaction_id"@, 2)];
    let texts = Seq::new(conditions.len(), |i: int| condition_text(db, conditions[i]));
    let t0 = "table_uuid"@ + " = "@ + numbered(db, 1);
    let t1 = "added_in_transaction_id"@ + " <= "@ + numbered(db, 2);
    assert(texts =~= seq![t0, t1]);
    separated_two(t0, t1, " AND "@);
    assert(where_text(db, conditions) =~= " WHERE "@ + "table_uuid"@ + " = "@ + numbered(db, 1) + " AND "@ + "added_in_transaction_id"@ + " <= "@ + numbered(db, 2));
}

/// The text of the query.
#[verifier::rlimit(40)]
pub proof fn added_until_text(db: DbKind)
    ensures
        select_text(db, added_until_query()) == "SELECT file_uuid, table_uuid, file_format, file_path, record_count, file_size_bytes, added_in_transaction_id, removed_in_transaction_id, partition_values, format_options FROM files WHERE table_uuid = "@ + numbered(db, 1) + " AND added_in_transaction_id <= "@ + numbered(db, 2) + " LIMIT "@ + numbered(db, 3),
{
    added_until_literals();
    added_until_where(db);
    assert(select_text(db, added_until_query()) =~= "SELECT "@ + separated(seq!["file_uuid"@, "table_uuid"@, "file_format"@, "file_path"@, "record_count"@, "file_size_bytes"@, "added_in_transaction_id"@, "removed_in_transaction_id"@, "partition_values"@, "format_options"@], ", "@) + " FROM "@ + "files"@ + " WHERE "@ + "table_uuid"@ + " = "@ + numbered(db, 1) + " AND "@ + "added_in_transaction_id"@ + " <= "@ + numbered(db, 2) + " LIMIT "@ + numbered(db, 3));
    assert("SELECT file_uuid, table_uuid, file_format, file_path, record_count, file_size_bytes, added_in_transaction_id, removed_in_transaction_id, partition_values, format_options FROM files WHERE table_uuid = "@ + numbered(db, 1) + " AND added_in_transaction_id <= "@ + numbered(db, 2) + " LIMIT "@ + numbered(db, 3) =~= "SELECT "@ + separated(seq!["file_uuid"@, "table_uuid"@, "file_format"@, "file_path"@, "record_count"@, "file_size_bytes"@, "added_in_transaction_id"@, "removed_in_transaction_id"@, "partition_values"@, "format_options"@], ", "@) + " FROM "@ + "files"@ + " WHERE "@ + "table_uuid"@ + " = "@ + numbered(db, 1) + " AND "@ + "added_in_transaction_id"@ + " <= "@ + numbered(db, 2) + " LIMIT "@ + numbered(db, 3));
}

/// The files that were removed after a transaction and up to another.
pub open spec fn removed_between_query() -> Select {
    Select {
        columns: seq!["file_uuid"@, "table_uuid"@, "file_format"@, "file_path"@, "record_count"@, "file_size_bytes"@, "added_in_transaction_id"@, "removed_in_transaction_id"@, "partition_values"@, "format_options"@],
        table: "files"@,
        conditions: seq![Condition::Is("table_uuid"@, 1), Condition::Given("removed_in_transaction_id"@), Condition::After("removed_in_transaction_id"@, 2), Condition::AtMost("removed_in_transaction_id"@, 3)],
        order: Order::Any,
        limit: Limit::Parameter(4),
    }
}

proof fn removed_between_literals()
    ensures
        "SELECT file_uuid, table_uuid, file_format, file_path, record_count, file_size_bytes, added_in_transaction_id, removed_in_transaction_id, partition_values, format_options FROM files WHERE table_uuid = "@ == "SELECT "@ + separated(seq!["file_uuid"@, "table_uuid"@, "file_format"@, "file_path"@, "record_count"@, "file_size_bytes"@, "added_in_transaction_id"@, "removed_in_transaction_id"@, "partition_values"@, "format_options"@], ", "@) + " FROM "@ + "files"@ + " WHERE "@ + "table_uuid"@ + " = "@,
        " AND removed_in_transaction_id IS NOT NULL AND removed_in_transaction_id > "@ == " AND "@ + "removed_in_transaction_id"@ + " IS NOT NULL"@ + " AND "@ + "removed_in_transaction_id"@ + " > "@,
        " AND removed_in_transaction_id <= "@ == " AND "@ + "removed_in_transaction_id"@ + " <= "@,
{
    reveal_strlit("SELECT ");
    reveal_strlit("file_uuid");
    reveal_strlit("table_uuid");
    reveal_strlit("file_format");
    reveal_strlit("file_path");
    reveal_strlit("record_count");
    reveal_strlit("file_size_bytes");
    reveal_strlit("added_in_transaction_id");
    reveal_strlit("removed_in_transaction_id");
    reveal_strlit("partition_values");
    reveal_strlit("format_options");
    reveal_strlit(", ");
    reveal_strlit(" FROM ");
    reveal_strlit("files");
    reveal_strlit(" WHERE ");
    reveal_strlit(" = ");
    reveal_strlit("SELECT file_uuid, table_uuid, file_format, file_path, record_count, file_size_bytes, added_in_transaction_id, removed_in_transaction_id, partition_values, format_options FROM files WHERE table_uuid = ");
    reveal_strlit(" AND ");
    reveal_strlit(" IS NOT NULL");
    reveal_strlit(" > ");
    reveal_strlit(" AND removed_in_transaction_id IS NOT NULL AND removed_in_transaction_id > ");
    reveal_strlit(" <= ");
    reveal_strlit(" AND removed_in_transaction_id <= ");
    reveal_with_fuel(separated, 11);
    let columns = seq!["file_uuid"@, "table_uuid"@, "file_format"@, "file_path"@, "record_count"@, "file_size_bytes"@, "added_in_transaction_id"@, "removed_in_transaction_id"@, "partition_values"@, "format_options"@];
    assert(separated(columns, ", "@) =~= "file_uuid"@ + ", "@ + "table_uuid"@ + ", "@ + "file_format"@ + ", "@ + "file_path"@ + ", "@ + "record_count"@ + ", "@ + "file_size_bytes"@ + ", "@ + "added_in_transaction_id"@ + ", "@ + "removed_in_transaction_id"@ + ", "@ + "partition_values"@ + ", "@ + "format_options"@);
    assert("SELECT file_uuid, table_uuid, file_format, file_path, record_count, file_size_bytes, added_in_transaction_id, removed_in_transaction_id, partition_values, format_options FROM files WHERE table_uuid = "@ =~= "SELECT "@ + "file_uuid"@ + ", "@ + "table_uuid"@ + ", "@ + "file_format"@ + ", "@ + "file_path"@ + ", "@ + "record_count"@ + ", "@ + "file_size_bytes"@ + ", "@ + "added_in_transaction_id"@ + ", "@ + "removed_in_transaction_id"@ + ", "@ + "partition_values"@ + ", "@ + "format_options"@ + " FROM "@ + "files"@ + " WHERE "@ + "table_uuid"@ + " = "@);
    assert("SELECT "@ + separated(seq!["file_uuid"@, "table_uuid"@, "file_format"@, "file_path"@, "record_count"@, "file_size_bytes"@, "added_in_transaction_id"@, "removed_in_transaction_id"@, "partition_values"@, "format_options"@], ", "@) + " FROM "@ + "files"@ + " WHERE "@ + "table_uuid"@ + " = "@ =~= "SELECT "@ + "file_uuid"@ + ", "@ + "table_uuid"@ + ", "@ + "file_format"@ + ", "@ + "file_path"@ + ", "@ + "record_count"@ + ", "@ + "file_size_bytes"@ + ", "@ + "added_in_transaction_id"@ + ", "@ + "removed_in_transaction_id"@ + ", "@ + "partition_values"@ + ", "@ + "format_options"@ + " FROM "@ + "files"@ + " WHERE "@ + "table_uuid"@ + " = "@);
    assert(" AND removed_in_transaction_id IS NOT NULL AND removed_in_transaction_id > "@ =~= " AND "@ + "removed_in_transaction_id"@ + " IS NOT NULL"@ + " AND "@ + "removed_in_transaction_id"@ + " > "@);
    assert(" AND removed_in_transaction_id <= "@ =~= " AND "@ + "removed_in_transaction_id"@ + " <= "@);
}

#[verifier::rlimit(40)]
proof fn removed_between_where(db: DbKind)
    ensures
        where_text(db, seq![Condition::Is("table_uuid"@, 1), Condition::Given("removed_in_transaction_id"@), Condition::After("removed_in_transaction_id"@, 2), Condition::AtMost("removed_in_transaction_id"@, 3)]) == " WHERE "@ + "table_uuid"@ + " = "@ + numbered(db, 1) + " AND "@ + "removed_in_transaction_id"@ + " IS NOT NULL"@ + " AND "@ + "removed_in_transaction_id"@ + " > "@ + numbered(db, 2) + " AND "@ + "removed_in_transaction_id"@ + " <= "@ + numbered(db, 3),
{
    let conditions = seq![Condition::Is("table_uuid"@, 1), Condition::Given("removed_in_transaction_id"@), Condition::After("removed_in_transaction_id"@, 2), Condition::AtMost("removed_in_transaction_id"@, 3)];
    let texts = Seq::new(conditions.len(), |i: int| condition_text(db, conditions[i]));
    let t0 = "table_uuid"@ + " = "@ + numbered(db, 1);
    let t1 = "removed_in_transaction_id"@ + " IS NOT NULL"@;
    let t2 = "removed_in_transaction_id"@ + " > "@ + numbered(db, 2);
    let t3 = "removed_in_transaction_id"@ + " <= "@ + numbered(db, 3);
    assert(texts =~= seq![t0, t1, t2, t3]);
    separated_four(t0, t1, t2, t3, " AND "@);
    assert(where_text(db, conditions) =~= " WHERE "@ + "table_uuid"@ + " = "@ + numbered(db, 1) + " AND "@ + "removed_in_transaction_id"@ + " IS NOT NULL"@ + " AND "@ + "removed_in_transaction_id"@ + " > "@ + numbered(db, 2) + " AND "@ + "removed_in_transaction_id"@ + " <= "@ + numbered(db, 3));
}

/// The text of the query.
#[verifier::rlimit(40)]
pub proof fn removed_between_text(db: DbKind)
    ensures
        select_text(db, removed_between_query()) == "SELECT file_uuid, table_uuid, file_format, file_path, record_count, file_size_bytes, added_in_transaction_id, removed_in_transaction_id, partition_values, format_options FROM files WHERE table_uuid = "@ + numbered(db, 1) + " AND removed_in_transaction_id IS NOT NULL AND removed_in_transaction_id > "@ + numbered(db, 2) + " AND removed_in_transaction_id <= "@ + numbered(db, 3) + " LIMIT "@ + numbered(db, 4),
{
    removed_between_literals();
    removed_between_where(db);
    assert(select_text(db, removed_between_query()) =~= "SELECT "@ + separated(seq!["file_uuid"@, "table_uuid"@, "file_format"@, "file_path"@, "record_count"@, "file_size_bytes"@, "added_in_transaction_id"@, "removed_in_transaction_id"@, "partition_values"@, "format_options"@], ", "@) + " FROM "@ + "files"@ + " WHERE "@ + "table_uuid"@ + " = "@ + numbered(db, 1) + " AND "@ + "removed_in_transaction_id"@ + " IS NOT NULL"@ + " AND "@ + "removed_in_transaction_id"@ + " > "@ + numbered(db, 2) + " AND "@ + "removed_in_transaction_id"@ + " <= "@ + numbered(db, 3) + " LIMIT "@ + numbered(db, 4));
    assert("SELECT file_uuid, table_uuid, file_format, file_path, record_count, file_size_bytes, added_in_transaction_id, removed_in_transaction_id, partition_values, format_options FROM files WHERE table_uuid = "@ + numbered(db, 1) + " AND removed_in_transaction_id IS NOT NULL AND removed_in_transaction_id > "@ + numbered(db, 2) + " AND removed_in_transaction_id <= "@ + numbered(db, 3) + " LIMIT "@ + numbered(db, 4) =~= "SELECT "@ + separated(seq!["file_uuid"@, "table_uuid"@, "file_format"@, "file_path"@, "record_count"@, "file_size_bytes"@, "added_in_transaction_id"@, "removed_in_transaction_id"@, "partition_values"@, "format_options"@], ", "@) + " FROM "@ + "files"@ + " WHERE "@ + "table_uuid"@ + " = "@ + numbered(db, 1) + " AND "@ + "removed_in_transaction_id"@ + " IS NOT NULL"@ + " AND "@ + "removed_in_transaction_id"@ + " > "@ + numbered(db, 2) + " AND "@ + "removed_in_transaction_id"@ + " <= "@ + numbered(db, 3) + " LIMIT "@ + numbered(db, 4));
}

/// The files that were removed up to a transaction.
pub open spec fn removed_until_query() -> Select {
    Select {
        columns: seq!["file_uuid"@, "table_uuid"@, "file_format"@, "file_path"@, "record_count"@, "file_size_bytes"@, "added_in_transaction_id"@, "removed_in_transaction_id"@, "partition_values"@, "format_options"@],
        table: "files"@,
        conditions: seq![Condition::Is("table_uuid"@, 1), Condition::Given("removed_in_transaction_id"@), Condition::AtMost("removed_in_transaction_id"@, 2)],
        order: Order::Any,
        limit: Limit::Parameter(3),
    }
}

proof fn removed_until_literals()
    ensures
        "SELECT file_uuid, table_uuid, file_format, file_path, record_count, file_size_bytes, added_in_transaction_id, removed_in_transaction_id, partition_values, format_options FROM files WHERE table_uuid = "@ == "SELECT "@ + separated(seq!["file_uuid"@, "table_uuid"@, "file_format"@, "file_path"@, "record_count"@, "file_size_bytes"@, "added_in_transaction_id"@, "removed_in_transaction_id"@, "partition_values"@, "format_options"@], ", "@) + " FROM "@ + "files"@ + " WHERE "@ + "table_uuid"@ + " = "@,
        " AND removed_in_transaction_id IS NOT NULL AND removed_in_transaction_id <= "@ == " AND "@ + "removed_in_transaction_id"@ + " IS NOT NULL"@ + " AND "@ + "removed_in_transaction_id"@ + " <= "@,
{
    reveal_strlit("SELECT ");
    reveal_strlit("file_uuid");
    reveal_strlit("table_uuid");
    reveal_strlit("file_format");
    reveal_strlit("file_path");
    reveal_strlit("record_count");
    reveal_strlit("file_size_bytes");
    reveal_strlit("added_in_transaction_id");
    reveal_strlit("removed_in_transaction_id");
    reveal_strlit("partition_values");
    reveal_strlit("format_options");
    reveal_strlit(", ");
    reveal_strlit(" FROM ");
    reveal_strlit("files");
    reveal_strlit(" WHERE ");
    reveal_strlit(" = ");
    reveal_strlit("SELECT file_uuid, table_uuid, file_format, file_path, record_count, file_size_bytes, added_in_transaction_id, removed_in_transaction_id, partition_values, format_options FROM files WHERE table_uuid = ");
    reveal_strlit(" AND ");
    reveal_strlit(" IS NOT NULL");
    reveal_strlit(" <= ");
    reveal_strlit(" AND removed_in_transaction_id IS NOT NULL AND removed_in_transaction_id <= ");
    reveal_with_fuel(separated, 11);
    let columns = seq!["file_uuid"@, "table_uuid"@, "file_format"@, "file_path"@, "record_count"@, "file_size_bytes"@, "added_in_transaction_id"@, "removed_in_transaction_id"@, "partition_values"@, "format_options"@];
    assert(separated(columns, ", "@) =~= "file_uuid"@ + ", "@ + "table_uuid"@ + ", "@ + "file_format"@ + ", "@ + "file_path"@ + ", "@ + "record_count"@ + ", "@ + "file_size_bytes"@ + ", "@ + "added_in_transaction_id"@ + ", "@ + "removed_in_transaction_id"@ + ", "@ + "partition_values"@ + ", "@ + "format_options"@);
    assert("SELECT file_uuid, table_uuid, file_format, file_path, record_count, file_size_bytes, added_in_transaction_id, removed_in_transaction_id, partition_values, format_options FROM files WHERE table_uuid = "@ =~= "SELECT "@ + "file_uuid"@ + ", "@ + "table_uuid"@ + ", "@ + "file_format"@ + ", "@ + "file_path"@ + ", "@ + "record_count"@ + ", "@ + "file_size_bytes"@ + ", "@ + "added_in_transaction_id"@ + ", "@ + "removed_in_transaction_id"@ + ", "@ + "partition_values"@ + ", "@ + "format_options"@ + " FROM "@ + "files"@ + " WHERE "@ + "table_uuid"@ + " = "@);
    assert("SELECT "@ + separated(seq!["file_uuid"@, "table_uuid"@, "file_format"@, "file_path"@, "record_count"@, "file_size_bytes"@, "added_in_transaction_id"@, "removed_in_transaction_id"@, "partition_values"@, "format_options"@], ", "@) + " FROM "@ + "files"@ + " WHERE "@ + "table_uuid"@ + " = "@ =~= "SELECT "@ + "file_uuid"@ + ", "@ + "table_uuid"@ + ", "@ + "file_format"@ + ", "@ + "file_path"@ + ", "@ + "record_count"@ + ", "@ + "file_size_bytes"@ + ", "@ + "added_in_transaction_id"@ + ", "@ + "removed_in_transaction_id"@ + ", "@ + "partition_values"@ + ", "@ + "format_options"@ + " FROM "@ + "files"@ + " WHERE "@ + "table_uuid"@ + " = "@);
    assert(" AND removed_in_transaction_id IS NOT NULL AND removed_in_transaction_id <= "@ =~= " AND "@ + "removed_in_transaction_id"@ + " IS NOT NULL"@ + " AND "@ + "removed_in_transaction_id"@ + " <= "@);
}

#[verifier::rlimit(40)]
proof fn removed_until_where(db: DbKind)
    ensures
        where_text(db, seq![Condition::Is("table_uuid"@, 1), Condition::Given("removed_in_transaction_id"@), Condition::AtMost("removed_in_transaction_id"@, 2)]) == " WHERE "@ + "table_uuid"@ + " = "@ + numbered(db, 1) + " AND "@ + "removed_in_transaction_id"@ + " IS NOT NULL"@ + " AND "@ + "removed_in_transaction_id"@ + " <= "@ + numbered(db, 2),
{
    let conditions = seq![Condition::Is("table_uuid"@, 1), Condition::Given("removed_in_transaction_id"@), Condition::AtMost("removed_in_transaction_id"@, 2)];
    let texts = Seq::new(conditions.len(), |i: int| condition_text(db, conditions[i]));
    let t0 = "table_uuid"@ + " = "@ + numbered(db, 1);
    let t1 = "removed_in_transaction_id"@ + " IS NOT NULL"@;
    let t2 = "removed_in_transaction_id"@ + " <= "@ + numbered(db, 2);
    assert(texts =~= seq![t0, t1, t2]);
    separated_three(t0, t1, t2, " AND "@);
    assert(where_text(db, conditions) =~= " WHERE "@ + "table_uuid"@ + " = "@ + numbered(db, 1) + " AND "@ + "removed_in_transaction_id"@ + " IS NOT NULL"@ + " AND "@ + "removed_in_transaction_id"@ + " <= "@ + numbered(db, 2));
}

/// The text of the query.
#[verifier::rlimit(40)]
pub proof fn removed_until_text(db: DbKind)
    ensures
        select_text(db, removed_until_query()) == "SELECT file_uuid, table_uuid, file_format, file_path, record_count, file_size_bytes, added_in_transaction_id, removed_in_transaction_id, partition_values, format_options FROM files WHERE table_uuid = "@ + numbered(db, 1) + " AND removed_in_transaction_id IS NOT NULL AND removed_in_transaction_id <= "@ + numbered(db, 2) + " LIMIT "@ + numbered(db, 3),
{
    removed_until_literals();
    removed_until_where(db);
    assert(select_text(db, removed_until_query()) =~= "SELECT "@ + separated(seq!["file_uuid"@, "table_uuid"@, "file_format"@, "file_path"@, "record_count"@, "file_size_bytes"@, "added_in_transaction_id"@, "removed_in_transaction_id"@, "partition_values"@, "format_options"@], ", "@) + " FROM "@ + "files"@ + " WHERE "@ + "table_uuid"@ + " = "@ + numbered(db, 1) + " AND "@ + "removed_in_transaction_id"@ + " IS NOT NULL"@ + " AND "@ + "removed_in_transaction_id"@ + " <= "@ + numbered(db, 2) + " LIMIT "@ + numbered(db, 3));
    assert("SELECT file_uuid, table_uuid, file_format, file_path, record_count, file_size_bytes, added_in_transaction_id, removed_in_transaction_id, partition_values, format_options FROM files WHERE table_uuid = "@ + numbered(db, 1) + " AND removed_in_transaction_id IS NOT NULL AND removed_in_transaction_id <= "@ + numbered(db, 2) + " LIMIT "@ + numbered(db, 3) =~= "SELECT "@ + separated(seq!["file_uuid"@, "table_uuid"@, "file_format"@, "file_path"@, "record_count"@, "file_size_bytes"@, "added_in_transaction_id"@, "removed_in_transaction_id"@, "partition_values"@, "format_options"@], ", "@) + " FROM "@ + "files"@ + " WHERE "@ + "table_uuid"@ + " = "@ + numbered(db, 1) + " AND "@ + "removed_in_transaction_id"@ + " IS NOT NULL"@ + " AND "@ + "removed_in_transaction_id"@ + " <= "@ + numbered(db, 2) + " LIMIT "@ + numbered(db, 3));
}

/// The schemas that became valid after a transaction and up to another.
pub open spec fn schemas_between_query() -> Select {
    Select {
        columns: seq!["schema_uuid"@, "table_uuid"@, "schema_version"@, "valid_from_transaction_id"@, "valid_to_transaction_id"@, "created_at"@],
        table: "schemas"@,
        conditions: seq![Condition::Is("table_uuid"@, 1), Condition::After("valid_from_transaction_id"@, 2), Condition::AtMost("valid_from_transaction_id"@, 3)],
        order: Order::Any,
        limit: Limit::Parameter(4),
    }
}

proof fn schemas_between_literals()
    ensures
        "SELECT schema_uuid, table_uuid, schema_version, valid_from_transaction_id, valid_to_transaction_id, created_at FROM schemas WHERE table_uuid = "@ == "SELECT "@ + separated(seq!["schema_uuid"@, "table_uuid"@, "schema_version"@, "valid_from_transaction_id"@, "valid_to_transaction_id"@, "created_at"@], ", "@) + " FROM "@ + "schemas"@ + " WHERE "@ + "table_uuid"@ + " = "@,
        " AND valid_from_transaction_id > "@ == " AND "@ + "valid_from_transaction_id"@ + " > "@,
        " AND valid_from_transaction_id <= "@ == " AND "@ + "valid_from_transaction_id"@ + " <= "@,
{
    reveal_strlit("SELECT ");
    reveal_strlit("schema_uuid");
    reveal_strlit("table_uuid");
    reveal_strlit("schema_version");
    reveal_strlit("valid_from_transaction_id");
    reveal_strlit("valid_to_transaction_id");
    reveal_strlit("created_at");
    reveal_strlit(", ");
    reveal_strlit(" FROM ");
    reveal_strlit("schemas");
    reveal_strlit(" WHERE ");
    reveal_strlit(" = ");
    reveal_strlit("SELECT schema_uuid, table_uuid, schema_version, valid_from_transaction_id, valid_to_transaction_id, created_at FROM schemas WHERE table_uuid = ");
    reveal_strlit(" AND ");
    reveal_strlit(" > ");
    reveal_strlit(" AND valid_from_transaction_id > ");
    reveal_strlit(" <= ");
    reveal_strlit(" AND valid_from_transaction_id <= ");
    reveal_with_fuel(separated, 7);
    let columns = seq!["schema_uuid"@, "table_uuid"@, "schema_version"@, "valid_from_transaction_id"@, "valid_to_transaction_id"@, "created_at"@];
    assert(separated(columns, ", "@) =~= "schema_uuid"@ + ", "@ + "table_uuid"@ + ", "@ + "schema_version"@ + ", "@ + "valid_from_transaction_id"@ + ", "@ + "valid_to_transaction_id"@ + ", "@ + "created_at"@);
    assert("SELECT schema_uuid, table_uuid, schema_version, valid_from_transaction_id, valid_to_transaction_id, created_at FROM schemas WHERE table_uuid = "@ =~= "SELECT "@ + "schema_uuid"@ + ", "@ + "table_uuid"@ + ", "@ + "schema_version"@ + ", "@ + "valid_from_transaction_id"@ + ", "@ + "valid_to_transaction_id"@ + ", "@ + "created_at"@ + " FROM "@ + "schemas"@ + " WHERE "@ + "table_uuid"@ + " = "@);
    assert("SELECT "@ + separated(seq!["schema_uuid"@, "table_uuid"@, "schema_version"@, "valid_from_transaction_id"@, "valid_to_transaction_id"@, "created_at"@], ", "@) + " FROM "@ + "schemas"@ + " WHERE "@ + "table_uuid"@ + " = "@ =~= "SELECT "@ + "schema_uuid"@ + ", "@ + "table_uuid"@ + ", "@ + "schema_version"@ + ", "@ + "valid_from_transaction_id"@ + ", "@ + "valid_to_transaction_id"@ + ", "@ + "created_at"@ + " FROM "@ + "schemas"@ + " WHERE "@ + "table_uuid"@ + " = "@);
    assert(" AND valid_from_transaction_id > "@ =~= " AND "@ + "valid_from_transaction_id"@ + " > "@);
    assert(" AND valid_from_transaction_id <= "@ =~= " AND "@ + "valid_from_transaction_id"@ + " <= "@);
}

#[verifier::rlimit(40)]
proof fn schemas_between_where(db: DbKind)
    ensures
        where_text(db, seq![Condition::Is("table_uuid"@, 1), Condition::After("valid_from_transaction_id"@, 2), Condition::AtMost("valid_from_transaction_id"@, 3)]) == " WHERE "@ + "table_uuid"@ + " = "@ + numbered(db, 1) + " AND "@ + "valid_from_transaction_id"@ + " > "@ + numbered(db, 2) + " AND "@ + "valid_from_transaction_id"@ + " <= "@ + numbered(db, 3),
{
    let conditions = seq![Condition::Is("table_uuid"@, 1), Condition::After("valid_from_transaction_id"@, 2), Condition::AtMost("valid_from_transaction_id"@, 3)];
    let texts = Seq::new(conditions.len(), |i: int| condition_text(db, conditions[i]));
    let t0 = "table_uuid"@ + " = "@ + numbered(db, 1);
    let t1 = "valid_from_transaction_id"@ + " > "@ + numbered(db, 2);
    let t2 = "valid_from_transaction_id"@ + " <= "@ + numbered(db, 3);
    assert(texts =~= seq![t0, t1, t2]);
    separated_three(t0, t1, t2, " AND "@);
    assert(where_text(db, conditions) =~= " WHERE "@ + "table_uuid"@ + " = "@ + numbered(db, 1) + " AND "@ + "valid_from_transaction_id"@ + " > "@ + numbered(db, 2) + " AND "@ + "valid_from_transaction_id"@ + " <= "@ + numbered(db, 3));
}

/// The text of the query.
#[verifier::rlimit(40)]
pub proof fn schemas_between_text(db: DbKind)
    ensures
        select_text(db, schemas_between_query()) == "SELECT schema_uuid, table_uuid, schema_version, valid_from_transaction_id, valid_to_transaction_id, created_at FROM schemas WHERE table_uuid = "@ + numbered(db, 1) + " AND valid_from_transaction_id > "@ + numbered(db, 2) + " AND valid_from_transaction_id <= "@ + numbered(db, 3) + " LIMIT "@ + numbered(db, 4),
{
    schemas_between_literals();
    schemas_between_where(db);
    assert(select_text(db, schemas_between_query()) =~= "SELECT "@ + separated(seq!["schema_uuid"@, "table_uuid"@, "schema_version"@, "valid_from_transaction_id"@, "valid_to_transaction_id"@, "created_at"@], ", "@) + " FROM "@ + "schemas"@ + " WHERE "@ + "table_uuid"@ + " = "@ + numbered(db, 1) + " AND "@ + "valid_from_transaction_id"@ + " > "@ + numbered(db, 2) + " AND "@ + "valid_from_transaction_id"@ + " <= "@ + numbered(db, 3) + " LIMIT "@ + numbered(db, 4));
    assert("SELECT schema_uuid, table_uuid, schema_version, valid_from_transaction_id, valid_to_transaction_id, created_at FROM schemas WHERE table_uuid = "@ + numbered(db, 1) + " AND valid_from_transaction_id > "@ + numbered(db, 2) + " AND valid_from_transaction_id <= "@ + numbered(db, 3) + " LIMIT "@ + numbered(db, 4) =~= "SELECT "@ + separated(seq!["schema_uuid"@, "table_uuid"@, "schema_version"@, "valid_from_transaction_id"@, "valid_to_transaction_id"@, "created_at"@], ", "@) + " FROM "@ + "schemas"@ + " WHERE "@ + "table_uuid"@ + " = "@ + numbered(db, 1) + " AND "@ + "valid_from_transaction_id"@ + " > "@ + numbered(db, 2) + " AND "@ + "valid_from_transaction_id"@ + " <= "@ + numbered(db, 3) + " LIMIT "@ + numbered(db, 4));
}

/// The schemas that became valid up to a transaction.
pub open spec fn schemas_until_query() -> Select {
    Select {
        columns: seq!["schema_uuid"@, "table_uuid"@, "schema_version"@, "valid_from_transaction_id"@, "valid_to_transaction_id"@, "created_at"@],
        table: "schemas"@,
        conditions: seq![Condition::Is("table_uuid"@, 1), Condition::AtMost("valid_from_transaction_id"@, 2)],
        order: Order::Any,
        limit: Limit::Parameter(3),
    }
}

proof fn schemas_until_literals()
    ensures
        "SELECT schema_uuid, table_uuid, schema_version, valid_from_transaction_id, valid_to_transaction_id, created_at FROM schemas WHERE table_uuid = "@ == "SELECT "@ + separated(seq!["schema_uuid"@, "table_uuid"@, "schema_version"@, "valid_from_transaction_id"@, "valid_to_transaction_id"@, "created_at"@], ", "@) + " FROM "@ + "schemas"@ + " WHERE "@ + "table_uuid"@ + " = "@,
        " AND valid_from_transaction_id <= "@ == " AND "@ + "valid_from_transaction_id"@ + " <= "@,
{
    reveal_strlit("SELECT ");
    reveal_strlit("schema_uuid");
    reveal_strlit("table_uuid");
    reveal_strlit("schema_version");
    reveal_strlit("valid_from_transaction_id");
    reveal_strlit("valid_to_transaction_id");
    reveal_strlit("created_at");
    reveal_strlit(", ");
    reveal_strlit(" FROM ");
    reveal_strlit("schemas");
    reveal_strlit(" WHERE ");
    reveal_strlit(" = ");
    reveal_strlit("SELECT schema_uuid, table_uuid, schema_version, valid_from_transaction_id, valid_to_transaction_id, created_at FROM schemas WHERE table_uuid = ");
    reveal_strlit(" AND ");
    reveal_strlit(" <= ");
    reveal_strlit(" AND valid_from_transaction_id <= ");
    reveal_with_fuel(separated, 7);
    let columns = seq!["schema_uuid"@, "table_uuid"@, "schema_version"@, "valid_from_transaction_id"@, "valid_to_transaction_id"@, "created_at"@];
    assert(separated(columns, ", "@) =~= "schema_uuid"@ + ", "@ + "table_uuid"@ + ", "@ + "schema_version"@ + ", "@ + "valid_from_transaction_id"@ + ", "@ + "valid_to_transaction_id"@ + ", "@ + "created_at"@);
    assert("SELECT schema_uuid, table_uuid, schema_version, valid_from_transaction_id, valid_to_transaction_id, created_at FROM schemas WHERE table_uuid = "@ =~= "SELECT "@ + "schema_uuid"@ + ", "@ + "table_uuid"@ + ", "@ + "schema_version"@ + ", "@ + "valid_from_transaction_id"@ + ", "@ + "valid_to_transaction_id"@ + ", "@ + "created_at"@ + " FROM "@ + "schemas"@ + " WHERE "@ + "table_uuid"@ + " = "@);
    assert("SELECT "@ + separated(seq!["schema_uuid"@, "table_uuid"@, "schema_version"@, "valid_from_transaction_id"@, "valid_to_transaction_id"@, "created_at"@], ", "@) + " FROM "@ + "schemas"@ + " WHERE "@ + "table_uuid"@ + " = "@ =~= "SELECT "@ + "schema_uuid"@ + ", "@ + "table_uuid"@ + ", "@ + "schema_version"@ + ", "@ + "valid_from_transaction_id"@ + ", "@ + "valid_to_transaction_id"@ + ", "@ + "created_at"@ + " FROM "@ + "schemas"@ + " WHERE "@ + "table_uuid"@ + " = "@);
    assert(" AND valid_from_transaction_id <= "@ =~= " AND "@ + "valid_from_transaction_id"@ + " <= "@);
}

#[verifier::rlimit(40)]
proof fn schemas_until_where(db: DbKind)
    ensures
        where_text(db, seq![Condition::Is("table_uuid"@, 1), Condition::AtMost("valid_from_transaction_id"@, 2)]) == " WHERE "@ + "table_uuid"@ + " = "@ + numbered(db, 1) + " AND "@ + "valid_from_transaction_id"@ + " <= "@ + numbered(db, 2),
{
    let conditions = seq![Condition::Is("table_uuid"@, 1), Condition::AtMost("valid_from_transaction_id"@, 2)];
    let texts = Seq::new(conditions.len(), |i: int| condition_text(db, conditions[i]));
    let t0 = "table_uuid"@ + " = "@ + numbered(db, 1);
    let t1 = "valid_from_transaction_id"@ + " <= "@ + numbered(db, 2);
    assert(texts =~= seq![t0, t1]);
    separated_two(t0, t1, " AND "@);
    assert(where_text(db, conditions) =~= " WHERE "@ + "table_uuid"@ + " = "@ + numbered(db, 1) + " AND "@ + "valid_from_transaction_id"@ + " <= "@ + numbered(db, 2));
}

/// The text of the query.
#[verifier::rlimit(40)]
pub proof fn schemas_until_text(db: DbKind)
    ensures
        select_text(db, schemas_until_query()) == "SELECT schema_uuid, table_uuid, schema_version, valid_from_transaction_id, valid_to_transaction_id, created_at FROM schemas WHERE table_uuid = "@ + numbered(db, 1) + " AND valid_from_transaction_id <= "@ + numbered(db, 2) + " LIMIT "@ + numbered(db, 3),
{
    schemas_until_literals();
    schemas_until_where(db);
    assert(select_text(db, schemas_until_query()) =~= "SELECT "@ + separated(seq!["schema_uuid"@, "table_uuid"@, "schema_version"@, "valid_from_transaction_id"@, "valid_to_transaction_id"@, "created_at"@], ", "@) + " FROM "@ + "schemas"@ + " WHERE "@ + "table_uuid"@ + " = "@ + numbered(db, 1) + " AND "@ + "valid_from_transaction_id"@ + " <= "@ + numbered(db, 2) + " LIMIT "@ + numbered(db, 3));
    assert("SELECT schema_uuid, table_uuid, schema_version, valid_from_transaction_id, valid_to_transaction_id, created_at FROM schemas WHERE table_uuid = "@ + numbered(db, 1) + " AND valid_from_transaction_id <= "@ + numbered(db, 2) + " LIMIT "@ + numbered(db, 3) =~= "SELECT "@ + separated(seq!["schema_uuid"@, "table_uuid"@, "schema_version"@, "valid_from_transaction_id"@, "valid_to_transaction_id"@, "created_at"@], ", "@) + " FROM "@ + "schemas"@ + " WHERE "@ + "table_uuid"@ + " = "@ + numbered(db, 1) + " AND "@ + "valid_from_transaction_id"@ + " <= "@ + numbered(db, 2) + " LIMIT "@ + numbered(db, 3));
}

/// What the query picks.
pub proof fn named_tables_are_picked(namespace: Seq<char>, name: Seq<char>)
    ensures
        picks_tables(
            table_row_query().conditions,
            seq![BindView::Text(namespace), BindView::Text(name)],
            |u: Uuid, t: TableRecord| t.namespace == namespace && t.name == name,
        ),
{
    table_names_differ();
    let conditions = table_row_query().conditions;
    let binds = seq![BindView::Text(namespace), BindView::Text(name)];
    assert forall|u: Uuid, t: TableRecord|
        #![trigger table_values(u, t)]
        meets_all(conditions, table_values(u, t), binds) == (t.namespace == namespace && t.name == name) by {
        let row = table_values(u, t);
        let c0 = meets(conditions[0], row, binds);
        let c1 = meets(conditions[1], row, binds);
        assert(meets_all(conditions, row, binds) == (c0 && c1)) by {
            assert(conditions.len() == 2);
        }
    }
}

/// What the query picks.
pub proof fn tables_of_a_namespace_are_picked(namespace: Seq<char>)
    ensures
        picks_tables(
            tables_in_query().conditions,
            seq![BindView::Text(namespace), BindView::Long(10_001)],
            |u: Uuid, t: TableRecord| t.namespace == namespace,
        ),
{
    table_names_differ();
    let conditions = tables_in_query().conditions;
    let binds = seq![BindView::Text(namespace), BindView::Long(10_001)];
    assert forall|u: Uuid, t: TableRecord|
        #![trigger table_values(u, t)]
        meets_all(conditions, table_values(u, t), binds) == (t.namespace == namespace) by {
        let row = table_values(u, t);
        let c0 = meets(conditions[0], row, binds);
        assert(meets_all(conditions, row, binds) == (c0)) by {
            assert(conditions.len() == 1);
        }
    }
}

/// What the query picks.
pub proof fn schemas_at_are_picked(table_uuid: Uuid, at: TxnId)
    ensures
        picks_schemas(
            schema_at_query().conditions,
            seq![BindView::Id(table_uuid), BindView::Id(at)],
            |u: Uuid, t: SchemaRecord| valid(t, table_uuid, at),
        ),
{
    schema_names_differ();
    let conditions = schema_at_query().conditions;
    let binds = seq![BindView::Id(table_uuid), BindView::Id(at)];
    assert forall|u: Uuid, t: SchemaRecord|
        #![trigger schema_values(u, t)]
        meets_all(conditions, schema_values(u, t), binds) == (valid(t, table_uuid, at)) by {
        let row = schema_values(u, t);
        let c0 = meets(conditions[0], row, binds);
        let c1 = meets(conditions[1], row, binds);
        let c2 = meets(conditions[2], row, binds);
        assert(meets_all(conditions, row, binds) == (c0 && c1 && c2)) by {
            assert(conditions.len() == 3);
        }
    }
}

/// What the query picks.
pub proof fn properties_up_to_are_picked(table_uuid: Uuid, at: TxnId)
    ensures
        picks_properties(
            properties_at_transaction_query().conditions,
            seq![BindView::Id(table_uuid), BindView::Id(at)],
            |u: TxnId, t: PropertiesRecord| t.table_uuid == table_uuid && u.value <= at.value,
        ),
{
    properties_names_differ();
    let conditions = properties_at_transaction_query().conditions;
    let binds = seq![BindView::Id(table_uuid), BindView::Id(at)];
    assert forall|u: TxnId, t: PropertiesRecord|
        #![trigger properties_values(u, t)]
        meets_all(conditions, properties_values(u, t), binds) == (t.table_uuid == table_uuid && u.value <= at.value) by {
        let row = properties_values(u, t);
        let c0 = meets(conditions[0], row, binds);
        let c1 = meets(conditions[1], row, binds);
        assert(meets_all(conditions, row, binds) == (c0 && c1)) by {
            assert(conditions.len() == 2);
        }
    }
}

/// What the query picks.
pub proof fn files_at_are_picked(table_uuid: Uuid, at: TxnId)
    ensures
        picks_files(
            files_at_transaction_query().conditions,
            seq![BindView::Id(table_uuid), BindView::Id(at), BindView::Long(10_001)],
            |u: Uuid, t: FileRecord| visible(t, table_uuid, at),
        ),
{
    file_names_differ();
    let conditions = files_at_transaction_query().conditions;
    let binds = seq![BindView::Id(table_uuid), BindView::Id(at), BindView::Long(10_001)];
    assert forall|u: Uuid, t: FileRecord|
        #![trigger file_values(u, t)]
        meets_all(conditions, file_values(u, t), binds) == (visible(t, table_uuid, at)) by {
        let row = file_values(u, t);
        let c0 = meets(conditions[0], row, binds);
        let c1 = meets(conditions[1], row, binds);
        let c2 = meets(conditions[2], row, binds);
        assert(meets_all(conditions, row, binds) == (c0 && c1 && c2)) by {
            assert(conditions.len() == 3);
        }
    }
}

/// What the query picks.
pub proof fn columns_of_a_schema_are_picked(schema_uuid: Uuid, limit: i64)
    ensures
        picks_columns(
            schema_columns_query().conditions,
            seq![BindView::Id(schema_uuid), BindView::Long(limit)],
            |u: Uuid, t: ColumnInsertView| u == schema_uuid,
        ),
{
    column_names_differ();
    let conditions = schema_columns_query().conditions;
    let binds = seq![BindView::Id(schema_uuid), BindView::Long(limit)];
    assert forall|u: Uuid, t: ColumnInsertView|
        #![trigger column_values(u, t)]
        meets_all(conditions, column_values(u, t), binds) == (u == schema_uuid) by {
        let row = column_values(u, t);
        let c0 = meets(conditions[0], row, binds);
        assert(meets_all(conditions, row, binds) == (c0)) by {
            assert(conditions.len() == 1);
        }
    }
}

/// What the query picks.
pub proof fn current_columns_are_picked(schema_uuid: Uuid)
    ensures
        picks_columns(
            current_columns_query().conditions,
            seq![BindView::Id(schema_uuid)],
            |u: Uuid, t: ColumnInsertView| u == schema_uuid,
        ),
{
    column_names_differ();
    let conditions = current_columns_query().conditions;
    let binds = seq![BindView::Id(schema_uuid)];
    assert forall|u: Uuid, t: ColumnInsertView|
        #![trigger column_values(u, t)]
        meets_all(conditions, column_values(u, t), binds) == (u == schema_uuid) by {
        let row = column_values(u, t);
        let c0 = meets(conditions[0], row, binds);
        assert(meets_all(conditions, row, binds) == (c0)) by {
            assert(conditions.len() == 1);
        }
    }
}

/// What the query picks.
pub proof fn one_schema_is_picked(schema_uuid: Uuid)
    ensures
        picks_schemas(
            schema_version_query().conditions,
            seq![BindView::Id(schema_uuid)],
            |u: Uuid, t: SchemaRecord| u == schema_uuid,
        ),
{
    schema_names_differ();
    let conditions = schema_version_query().conditions;
    let binds = seq![BindView::Id(schema_uuid)];
    assert forall|u: Uuid, t: SchemaRecord|
        #![trigger schema_values(u, t)]
        meets_all(conditions, schema_values(u, t), binds) == (u == schema_uuid) by {
        let row = schema_values(u, t);
        let c0 = meets(conditions[0], row, binds);
        assert(meets_all(conditions, row, binds) == (c0)) by {
            assert(conditions.len() == 1);
        }
    }
}

/// What the query picks.
pub proof fn transactions_between_are_picked(table_uuid: Uuid, from: TxnId, to: TxnId)
    ensures
        picks_transactions(
            transactions_between_query().conditions,
            seq![BindView::Id(table_uuid), BindView::Id(from), BindView::Id(to), BindView::Long(50_001)],
            |u: TxnId, t: TransactionRecord| t.table_uuid == table_uuid && from.value < u.value <= to.value,
        ),
{
    transaction_names_differ();
    let conditions = transactions_between_query().conditions;
    let binds = seq![BindView::Id(table_uuid), BindView::Id(from), BindView::Id(to), BindView::Long(50_001)];
    assert forall|u: TxnId, t: TransactionRecord|
        #![trigger transaction_values(u, t)]
        meets_all(conditions, transaction_values(u, t), binds) == (t.table_uuid == table_uuid && from.value < u.value <= to.value) by {
        let row = transaction_values(u, t);
        let c0 = meets(conditions[0], row, binds);
        let c1 = meets(conditions[1], row, binds);
        let c2 = meets(conditions[2], row, binds);
        assert(meets_all(conditions, row, binds) == (c0 && c1 && c2)) by {
            assert(conditions.len() == 3);
        }
    }
}

/// What the query picks.
pub proof fn transactions_until_are_picked(table_uuid: Uuid, to: TxnId)
    ensures
        picks_transactions(
            transactions_until_query().conditions,
            seq![BindView::Id(table_uuid), BindView::Id(to), BindView::Long(50_001)],
            |u: TxnId, t: TransactionRecord| t.table_uuid == table_uuid && u.value <= to.value,
        ),
{
    transaction_names_differ();
    let conditions = transactions_until_query().conditions;
    let binds = seq![BindView::Id(table_uuid), BindView::Id(to), BindView::Long(50_001)];
    assert forall|u: TxnId, t: TransactionRecord|
        #![trigger transaction_values(u, t)]
        meets_all(conditions, transaction_values(u, t), binds) == (t.table_uuid == table_uuid && u.value <= to.value) by {
        let row = transaction_values(u, t);
        let c0 = meets(conditions[0], row, binds);
        let c1 = meets(conditions[1], row, binds);
        assert(meets_all(conditions, row, binds) == (c0 && c1)) by {
            assert(conditions.len() == 2);
        }
    }
}

/// What the query picks.
pub proof fn added_between_are_picked(table_uuid: Uuid, from: TxnId, to: TxnId)
    ensures
        picks_files(
            added_between_query().conditions,
            seq![BindView::Id(table_uuid), BindView::Id(from), BindView::Id(to), BindView::Long(10_001)],
            |u: Uuid, t: FileRecord| t.table_uuid == table_uuid && from.value < t.added.value <= to.value,
        ),
{
    file_names_differ();
    let conditions = added_between_query().conditions;
    let binds = seq![BindView::Id(table_uuid), BindView::Id(from), BindView::Id(to), BindView::Long(10_001)];
    assert forall|u: Uuid, t: FileRecord|
        #![trigger file_values(u, t)]
        meets_all(conditions, file_values(u, t), binds) == (t.table_uuid == table_uuid && from.value < t.added.value <= to.value) by {
        let row = file_values(u, t);
        let c0 = meets(conditions[0], row, binds);
        let c1 = meets(conditions[1], row, binds);
        let c2 = meets(conditions[2], row, binds);
        assert(meets_all(conditions, row, binds) == (c0 && c1 && c2)) by {
            assert(conditions.len() == 3);
        }
    }
}

/// What the query picks.
pub proof fn added_until_are_picked(table_uuid: Uuid, to: TxnId)
    ensures
        picks_files(
            added_until_query().conditions,
            seq![BindView::Id(table_uuid), BindView::Id(to), BindView::Long(10_001)],
            |u: Uuid, t: FileRecord| t.table_uuid == table_uuid && t.added.value <= to.value,
        ),
{
    file_names_differ();
    let conditions = added_until_query().conditions;
    let binds = seq![BindView::Id(table_uuid), BindView::Id(to), BindView::Long(10_001)];
    assert forall|u: Uuid, t: FileRecord|
        #![trigger file_values(u, t)]
        meets_all(conditions, file_values(u, t), binds) == (t.table_uuid == table_uuid && t.added.value <= to.value) by {
        let row = file_values(u, t);
        let c0 = meets(conditions[0], row, binds);
        let c1 = meets(conditions[1], row, binds);
        assert(meets_all(conditions, row, binds) == (c0 && c1)) by {
            assert(conditions.len() == 2);
        }
    }
}

/// What the query picks.
pub proof fn removed_between_are_picked(table_uuid: Uuid, from: TxnId, to: TxnId)
    ensures
        picks_files(
            removed_between_query().conditions,
            seq![BindView::Id(table_uuid), BindView::Id(from), BindView::Id(to), BindView::Long(10_001)],
            |u: Uuid, t: FileRecord| t.table_uuid == table_uuid && (t.removed matches Some(removed) && from.value < removed.value <= to.value),
        ),
{
    file_names_differ();
    let conditions = removed_between_query().conditions;
    let binds = seq![BindView::Id(table_uuid), BindView::Id(from), BindView::Id(to), BindView::Long(10_001)];
    assert forall|u: Uuid, t: FileRecord|
        #![trigger file_values(u, t)]
        meets_all(conditions, file_values(u, t), binds) == (t.table_uuid == table_uuid && (t.removed matches Some(removed) && from.value < removed.value <= to.value)) by {
        let row = file_values(u, t);
        let c0 = meets(conditions[0], row, binds);
        let c1 = meets(conditions[1], row, binds);
        let c2 = meets(conditions[2], row, binds);
        let c3 = meets(conditions[3], row, binds);
        assert(meets_all(conditions, row, binds) == (c0 && c1 && c2 && c3)) by {
            assert(conditions.len() == 4);
        }
    }
}

/// What the query picks.
pub proof fn removed_until_are_picked(table_uuid: Uuid, to: TxnId)
    ensures
        picks_files(
            removed_until_query().conditions,
            seq![BindView::Id(table_uuid), BindView::Id(to), BindView::Long(10_001)],
            |u: Uuid, t: FileRecord| t.table_uuid == table_uuid && (t.removed matches Some(removed) && removed.value <= to.value),
        ),
{
    file_names_differ();
    let conditions = removed_until_query().conditions;
    let binds = seq![BindView::Id(table_uuid), BindView::Id(to), BindView::Long(10_001)];
    assert forall|u: Uuid, t: FileRecord|
        #![trigger file_values(u, t)]
        meets_all(conditions, file_values(u, t), binds) == (t.table_uuid == table_uuid && (t.removed matches Some(removed) && removed.value <= to.value)) by {
        let row = file_values(u, t);
        let c0 = meets(conditions[0], row, binds);
        let c1 = meets(conditions[1], row, binds);
        let c2 = meets(conditions[2], row, binds);
        assert(meets_all(conditions, row, binds) == (c0 && c1 && c2)) by {
            assert(conditions.len() == 3);
        }
    }
}

/// What the query picks.
pub proof fn schemas_between_are_picked(table_uuid: Uuid, from: TxnId, to: TxnId)
    ensures
        picks_schemas(
            schemas_between_query().conditions,
            seq![BindView::Id(table_uuid), BindView::Id(from), BindView::Id(to), BindView::Long(1_001)],
            |u: Uuid, t: SchemaRecord| t.table_uuid == table_uuid && from.value < t.valid_from.value <= to.value,
        ),
{
    schema_names_differ();
    let conditions = schemas_between_query().conditions;
    let binds = seq![BindView::Id(table_uuid), BindView::Id(from), BindView::Id(to), BindView::Long(1_001)];
    assert forall|u: Uuid, t: SchemaRecord|
        #![trigger schema_values(u, t)]
        meets_all(conditions, schema_values(u, t), binds) == (t.table_uuid == table_uuid && from.value < t.valid_from.value <= to.value) by {
        let row = schema_values(u, t);
        let c0 = meets(conditions[0], row, binds);
        let c1 = meets(conditions[1], row, binds);
        let c2 = meets(conditions[2], row, binds);
        assert(meets_all(conditions, row, binds) == (c0 && c1 && c2)) by {
            assert(conditions.len() == 3);
        }
    }
}

/// What the query picks.
pub proof fn schemas_until_are_picked(table_uuid: Uuid, to: TxnId)
    ensures
        picks_schemas(
            schemas_until_query().conditions,
            seq![BindView::Id(table_uuid), BindView::Id(to), BindView::Long(1_001)],
            |u: Uuid, t: SchemaRecord| t.table_uuid == table_uuid && t.valid_from.value <= to.value,
        ),
{
    schema_names_differ();
    let conditions = schemas_until_query().conditions;
    let binds = seq![BindView::Id(table_uuid), BindView::Id(to), BindView::Long(1_001)];
    assert forall|u: Uuid, t: SchemaRecord|
        #![trigger schema_values(u, t)]
        meets_all(conditions, schema_values(u, t), binds) == (t.table_uuid == table_uuid && t.valid_from.value <= to.value) by {
        let row = schema_values(u, t);
        let c0 = meets(conditions[0], row, binds);
        let c1 = meets(conditions[1], row, binds);
        assert(meets_all(conditions, row, binds) == (c0 && c1)) by {
            assert(conditions.len() == 2);
        }
    }
}

/// Where rows of the table of files are read, every column of theirs is asked for.
pub proof fn files_are_read_whole(u: Uuid, t: FileRecord, name: Seq<char>)
    requires
        !(file_cell(u, t, name) is Null),
    ensures
        files_at_transaction_query().columns.contains(name),
        added_between_query().columns.contains(name),
        added_until_query().columns.contains(name),
        removed_between_query().columns.contains(name),
        removed_until_query().columns.contains(name),
{
    let names0 = files_at_transaction_query().columns;
    assert(names0[0] == "file_uuid"@);
    assert(names0[1] == "table_uuid"@);
    assert(names0[2] == "file_format"@);
    assert(names0[3] == "file_path"@);
    assert(names0[4] == "record_count"@);
    assert(names0[5] == "file_size_bytes"@);
    assert(names0[6] == "added_in_transaction_id"@);
    assert(names0[7] == "removed_in_transaction_id"@);
    assert(names0[8] == "partition_values"@);
    assert(names0[9] == "format_options"@);
    let names1 = added_between_query().columns;
    assert(names1[0] == "file_uuid"@);
    assert(names1[1] == "table_uuid"@);
    assert(names1[2] == "file_format"@);
    assert(names1[3] == "file_path"@);
    assert(names1[4] == "record_count"@);
    assert(names1[5] == "file_size_bytes"@);
    assert(names1[6] == "added_in_transaction_id"@);
    assert(names1[7] == "removed_in_transaction_id"@);
    assert(names1[8] == "partition_values"@);
    assert(names1[9] == "format_options"@);
    let names2 = added_until_query().columns;
    assert(names2[0] == "file_uuid"@);
    assert(names2[1] == "table_uuid"@);
    assert(names2[2] == "file_format"@);
    assert(names2[3] == "file_path"@);
    assert(names2[4] == "record_count"@);
    assert(names2[5] == "file_size_bytes"@);
    assert(names2[6] == "added_in_transaction_id"@);
    assert(names2[7] == "removed_in_transaction_id"@);
    assert(names2[8] == "partition_values"@);
    assert(names2[9] == "format_options"@);
    let names3 = removed_between_query().columns;
    assert(names3[0] == "file_uuid"@);
    assert(names3[1] == "table_uuid"@);
    assert(names3[2] == "file_format"@);
    assert(names3[3] == "file_path"@);
    assert(names3[4] == "record_count"@);
    assert(names3[5] == "file_size_bytes"@);
    assert(names3[6] == "added_in_transaction_id"@);
    assert(names3[7] == "removed_in_transaction_id"@);
    assert(names3[8] == "partition_values"@);
    assert(names3[9] == "format_options"@);
    let names4 = removed_until_query().columns;
    assert(names4[0] == "file_uuid"@);
    assert(names4[1] == "table_uuid"@);
    assert(names4[2] == "file_format"@);
    assert(names4[3] == "file_path"@);
    assert(names4[4] == "record_count"@);
    assert(names4[5] == "file_size_bytes"@);
    assert(names4[6] == "added_in_transaction_id"@);
    assert(names4[7] == "removed_in_transaction_id"@);
    assert(names4[8] == "partition_values"@);
    assert(names4[9] == "format_options"@);
}

/// Where rows of the table of schemas are read, every column of theirs is asked for.
pub proof fn schemas_are_read_whole(u: Uuid, t: SchemaRecord, name: Seq<char>)
    requires
        !(schema_cell(u, t, name) is Null),
    ensures
        schema_at_query().columns.contains(name),
        schemas_between_query().columns.contains(name),
        schemas_until_query().columns.contains(name),
{
    let names0 = schema_at_query().columns;
    assert(names0[0] == "schema_uuid"@);
    assert(names0[1] == "table_uuid"@);
    assert(names0[2] == "schema_version"@);
    assert(names0[3] == "valid_from_transaction_id"@);
    assert(names0[4] == "valid_to_transaction_id"@);
    assert(names0[5] == "created_at"@);
    let names1 = schemas_between_query().columns;
    assert(names1[0] == "schema_uuid"@);
    assert(names1[1] == "table_uuid"@);
    assert(names1[2] == "schema_version"@);
    assert(names1[3] == "valid_from_transaction_id"@);
    assert(names1[4] == "valid_to_transaction_id"@);
    assert(names1[5] == "created_at"@);
    let names2 = schemas_until_query().columns;
    assert(names2[0] == "schema_uuid"@);
    assert(names2[1] == "table_uuid"@);
    assert(names2[2] == "schema_version"@);
    assert(names2[3] == "valid_from_transaction_id"@);
    assert(names2[4] == "valid_to_transaction_id"@);
    assert(names2[5] == "created_at"@);
}

/// Where rows of the table of columns are read, every column of theirs is asked for.
pub proof fn columns_are_read_whole(u: Uuid, t: ColumnInsertView, name: Seq<char>)
    requires
        !(column_cell(u, t, name) is Null),
    ensures
        schema_columns_query().columns.contains(name),
{
    let names0 = schema_columns_query().columns;
    assert(names0[0] == "column_uuid"@);
    assert(names0[1] == "schema_uuid"@);
    assert(names0[2] == "column_name"@);
    assert(names0[3] == "column_type"@);
    assert(names0[4] == "ordinal_position"@);
    assert(names0[5] == "is_nullable"@);
}

/// What the query for statistics picks.
pub proof fn stats_are_picked(table_uuid: Uuid, at: TxnId)
    ensures
        picks_rows(
            stats_at_query().conditions,
            seq![BindView::Id(table_uuid), BindView::Id(at)],
            |row: Row|
                row("table_uuid"@) == Cell::Id(table_uuid) && row("transaction_id"@) == Cell::Id(at),
        ),
{
    let conditions = stats_at_query().conditions;
    let binds = seq![BindView::Id(table_uuid), BindView::Id(at)];
    assert forall|row: Row| #[trigger] meets_all(conditions, row, binds) == (row("table_uuid"@)
        == Cell::Id(table_uuid) && row("transaction_id"@) == Cell::Id(at)) by {
        let c0 = meets(conditions[0], row, binds);
        let c1 = meets(conditions[1], row, binds);
        assert(meets_all(conditions, row, binds) == (c0 && c1)) by {
            assert(conditions.len() == 2);
        }
    }
}

/// Rows whose order matters come in it: columns by their position, transactions from the first to
/// the last, and of properties the last alone.
pub proof fn rows_come_in_their_order()
    ensures
        schema_columns_query().order == Order::Rising("ordinal_position"@),
        transactions_between_query().order == Order::Rising("transaction_id"@),
        transactions_until_query().order == Order::Rising("transaction_id"@),
        properties_at_transaction_query().order == Order::Falling("transaction_id"@),
        properties_at_transaction_query().limit is One,
        schema_at_query().limit is One,
        files_at_transaction_query().limit == Limit::Parameter(3),
        added_between_query().limit == Limit::Parameter(4),
        added_until_query().limit == Limit::Parameter(3),
        removed_between_query().limit == Limit::Parameter(4),
        removed_until_query().limit == Limit::Parameter(3),
        transactions_between_query().limit == Limit::Parameter(4),
        transactions_until_query().limit == Limit::Parameter(3),
        schemas_between_query().limit == Limit::Parameter(4),
        schemas_until_query().limit == Limit::Parameter(3),
        current_columns_query().limit is All,
        table_row_query().limit is All,
        tables_in_query().limit == Limit::Parameter(2),
        all_tables_query().limit == Limit::Parameter(1),
        current_columns_query().columns == seq!["column_name"@, "column_type"@, "is_nullable"@],
        tables_in_query().columns == seq!["namespace"@, "table_name"@],
        all_tables_query().columns == tables_in_query().columns,
{
}

} // verus!
