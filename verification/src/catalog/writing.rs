//! What the statements of the catalog write, as their SQL text says it, is what the model of the
//! database records for them.

use vstd::prelude::*;
use vstd::string::*;

use super::database::DbKind;
use super::recall::inserted_rows_stay;
use super::relations::{columns_in, run, Relations};
use super::sql::{
    cell_of, column_cell, condition_text, file_cell, insert_text, inserts_text, meets, meets_all,
    properties_cell, schema_cell, separated, table_cell, transaction_cell, update_text, Condition,
};
use super::statements::{
    all_column_binds, all_file_binds, binds_are_counted, column_binds, file_binds, in_placeholders,
    numbered, placeholder, placeholders, row_placeholders, statement_binds, statement_text,
    BindView, ColumnInsertView, FileInsertView, StatementView,
};
use crate::ids::Uuid;
use crate::text::decimal_text;

verus! {

proof fn numbers(db: DbKind)
    ensures
        db is Sqlite ==> numbered(db, 1) == "?1"@,
        db is Sqlite ==> numbered(db, 2) == "?2"@,
        db is Sqlite ==> numbered(db, 3) == "?3"@,
        db is Sqlite ==> numbered(db, 4) == "?4"@,
        db is Sqlite ==> numbered(db, 5) == "?5"@,
        db is Sqlite ==> numbered(db, 6) == "?6"@,
        db is Sqlite ==> numbered(db, 7) == "?7"@,
        db is Sqlite ==> numbered(db, 8) == "?8"@,
        db is Postgres ==> numbered(db, 1) == "$1"@,
        db is Postgres ==> numbered(db, 2) == "$2"@,
        db is Postgres ==> numbered(db, 3) == "$3"@,
        db is Postgres ==> numbered(db, 4) == "$4"@,
        db is Postgres ==> numbered(db, 5) == "$5"@,
        db is Postgres ==> numbered(db, 6) == "$6"@,
        db is Postgres ==> numbered(db, 7) == "$7"@,
        db is Postgres ==> numbered(db, 8) == "$8"@,
{
    reveal_strlit("?");
    reveal_strlit("$");
    reveal_strlit("?1");
    reveal_strlit("?2");
    reveal_strlit("?3");
    reveal_strlit("?4");
    reveal_strlit("?5");
    reveal_strlit("?6");
    reveal_strlit("?7");
    reveal_strlit("?8");
    reveal_strlit("$1");
    reveal_strlit("$2");
    reveal_strlit("$3");
    reveal_strlit("$4");
    reveal_strlit("$5");
    reveal_strlit("$6");
    reveal_strlit("$7");
    reveal_strlit("$8");
    assert(decimal_text(1) =~= seq!['1']);
    assert(decimal_text(2) =~= seq!['2']);
    assert(decimal_text(3) =~= seq!['3']);
    assert(decimal_text(4) =~= seq!['4']);
    assert(decimal_text(5) =~= seq!['5']);
    assert(decimal_text(6) =~= seq!['6']);
    assert(decimal_text(7) =~= seq!['7']);
    assert(decimal_text(8) =~= seq!['8']);
    if db is Sqlite {
        assert(numbered(db, 1) =~= "?1"@);
        assert(numbered(db, 2) =~= "?2"@);
        assert(numbered(db, 3) =~= "?3"@);
        assert(numbered(db, 4) =~= "?4"@);
        assert(numbered(db, 5) =~= "?5"@);
        assert(numbered(db, 6) =~= "?6"@);
        assert(numbered(db, 7) =~= "?7"@);
        assert(numbered(db, 8) =~= "?8"@);
    }
    if db is Postgres {
        assert(numbered(db, 1) =~= "$1"@);
        assert(numbered(db, 2) =~= "$2"@);
        assert(numbered(db, 3) =~= "$3"@);
        assert(numbered(db, 4) =~= "$4"@);
        assert(numbered(db, 5) =~= "$5"@);
        assert(numbered(db, 6) =~= "$6"@);
        assert(numbered(db, 7) =~= "$7"@);
        assert(numbered(db, 8) =~= "$8"@);
    }
}

proof fn table_insert(db: DbKind)
    ensures
        insert_text(db, "tables"@, seq!["table_uuid"@, "table_name"@, "namespace"@, "location"@, "created_at"@, "properties"@, "min_reader_version"@, "min_writer_version"@]) == match db {
            DbKind::Sqlite => "INSERT INTO tables (table_uuid, table_name, namespace, location, created_at, properties, min_reader_version, min_writer_version) VALUES (?1, ?2, ?3, ?4, ?5, ?6, ?7, ?8)"@,
            DbKind::Postgres => "INSERT INTO tables (table_uuid, table_name, namespace, location, created_at, properties, min_reader_version, min_writer_version) VALUES ($1, $2, $3, $4, $5, $6, $7, $8)"@,
        },
{
    numbers(db);
    reveal_strlit("INSERT INTO ");
    reveal_strlit("tables");
    reveal_strlit(" (");
    reveal_strlit(") VALUES (");
    reveal_strlit(")");
    reveal_strlit(", ");
    reveal_strlit("table_uuid");
    reveal_strlit("table_name");
    reveal_strlit("namespace");
    reveal_strlit("location");
    reveal_strlit("created_at");
    reveal_strlit("properties");
    reveal_strlit("min_reader_version");
    reveal_strlit("min_writer_version");
    reveal_strlit("?1");
    reveal_strlit("?2");
    reveal_strlit("?3");
    reveal_strlit("?4");
    reveal_strlit("?5");
    reveal_strlit("?6");
    reveal_strlit("?7");
    reveal_strlit("?8");
    reveal_strlit("$1");
    reveal_strlit("$2");
    reveal_strlit("$3");
    reveal_strlit("$4");
    reveal_strlit("$5");
    reveal_strlit("$6");
    reveal_strlit("$7");
    reveal_strlit("$8");
    reveal_strlit("INSERT INTO tables (table_uuid, table_name, namespace, location, created_at, properties, min_reader_version, min_writer_version) VALUES (?1, ?2, ?3, ?4, ?5, ?6, ?7, ?8)");
    reveal_strlit("INSERT INTO tables (table_uuid, table_name, namespace, location, created_at, properties, min_reader_version, min_writer_version) VALUES ($1, $2, $3, $4, $5, $6, $7, $8)");
    let columns = seq!["table_uuid"@, "table_name"@, "namespace"@, "location"@, "created_at"@, "properties"@, "min_reader_version"@, "min_writer_version"@];
    let values = Seq::new(columns.len(), |i: int| numbered(db, (i + 1) as nat));
    reveal_with_fuel(separated, 9);
    assert(separated(columns, ", "@) =~= "table_uuid"@ + ", "@ + "table_name"@ + ", "@ + "namespace"@ + ", "@ + "location"@ + ", "@ + "created_at"@ + ", "@ + "properties"@ + ", "@ + "min_reader_version"@ + ", "@ + "min_writer_version"@);
    assert(separated(values, ", "@) =~= numbered(db, 1) + ", "@ + numbered(db, 2) + ", "@ + numbered(db, 3) + ", "@ + numbered(db, 4) + ", "@ + numbered(db, 5) + ", "@ + numbered(db, 6) + ", "@ + numbered(db, 7) + ", "@ + numbered(db, 8));
    match db {
        DbKind::Sqlite => {
            assert("INSERT INTO tables (table_uuid, table_name, namespace, location, created_at, properties, min_reader_version, min_writer_version) VALUES (?1, ?2, ?3, ?4, ?5, ?6, ?7, ?8)"@ =~= "INSERT INTO "@ + "tables"@ + " ("@ + "table_uuid"@ + ", "@ + "table_name"@ + ", "@ + "namespace"@ + ", "@ + "location"@ + ", "@ + "created_at"@ + ", "@ + "properties"@ + ", "@ + "min_reader_version"@ + ", "@ + "min_writer_version"@ + ") VALUES ("@ + "?1"@ + ", "@ + "?2"@ + ", "@ + "?3"@ + ", "@ + "?4"@ + ", "@ + "?5"@ + ", "@ + "?6"@ + ", "@ + "?7"@ + ", "@ + "?8"@ + ")"@);
            assert(insert_text(db, "tables"@, columns) =~= "INSERT INTO "@ + "tables"@ + " ("@ + "table_uuid"@ + ", "@ + "table_name"@ + ", "@ + "namespace"@ + ", "@ + "location"@ + ", "@ + "created_at"@ + ", "@ + "properties"@ + ", "@ + "min_reader_version"@ + ", "@ + "min_writer_version"@ + ") VALUES ("@ + "?1"@ + ", "@ + "?2"@ + ", "@ + "?3"@ + ", "@ + "?4"@ + ", "@ + "?5"@ + ", "@ + "?6"@ + ", "@ + "?7"@ + ", "@ + "?8"@ + ")"@);
        },
        DbKind::Postgres => {
            assert("INSERT INTO tables (table_uuid, table_name, namespace, location, created_at, properties, min_reader_version, min_writer_version) VALUES ($1, $2, $3, $4, $5, $6, $7, $8)"@ =~= "INSERT INTO "@ + "tables"@ + " ("@ + "table_uuid"@ + ", "@ + "table_name"@ + ", "@ + "namespace"@ + ", "@ + "location"@ + ", "@ + "created_at"@ + ", "@ + "properties"@ + ", "@ + "min_reader_version"@ + ", "@ + "min_writer_version"@ + ") VALUES ("@ + "$1"@ + ", "@ + "$2"@ + ", "@ + "$3"@ + ", "@ + "$4"@ + ", "@ + "$5"@ + ", "@ + "$6"@ + ", "@ + "$7"@ + ", "@ + "$8"@ + ")"@);
            assert(insert_text(db, "tables"@, columns) =~= "INSERT INTO "@ + "tables"@ + " ("@ + "table_uuid"@ + ", "@ + "table_name"@ + ", "@ + "namespace"@ + ", "@ + "location"@ + ", "@ + "created_at"@ + ", "@ + "properties"@ + ", "@ + "min_reader_version"@ + ", "@ + "min_writer_version"@ + ") VALUES ("@ + "$1"@ + ", "@ + "$2"@ + ", "@ + "$3"@ + ", "@ + "$4"@ + ", "@ + "$5"@ + ", "@ + "$6"@ + ", "@ + "$7"@ + ", "@ + "$8"@ + ")"@);
        },
    }
}

proof fn first_transaction_insert(db: DbKind)
    ensures
        insert_text(db, "transactions"@, seq!["transaction_id"@, "table_uuid"@, "transaction_timestamp"@]) == match db {
            DbKind::Sqlite => "INSERT INTO transactions (transaction_id, table_uuid, transaction_timestamp) VALUES (?1, ?2, ?3)"@,
            DbKind::Postgres => "INSERT INTO transactions (transaction_id, table_uuid, transaction_timestamp) VALUES ($1, $2, $3)"@,
        },
{
    numbers(db);
    reveal_strlit("INSERT INTO ");
    reveal_strlit("transactions");
    reveal_strlit(" (");
    reveal_strlit(") VALUES (");
    reveal_strlit(")");
    reveal_strlit(", ");
    reveal_strlit("transaction_id");
    reveal_strlit("table_uuid");
    reveal_strlit("transaction_timestamp");
    reveal_strlit("?1");
    reveal_strlit("?2");
    reveal_strlit("?3");
    reveal_strlit("$1");
    reveal_strlit("$2");
    reveal_strlit("$3");
    reveal_strlit("INSERT INTO transactions (transaction_id, table_uuid, transaction_timestamp) VALUES (?1, ?2, ?3)");
    reveal_strlit("INSERT INTO transactions (transaction_id, table_uuid, transaction_timestamp) VALUES ($1, $2, $3)");
    let columns = seq!["transaction_id"@, "table_uuid"@, "transaction_timestamp"@];
    let values = Seq::new(columns.len(), |i: int| numbered(db, (i + 1) as nat));
    reveal_with_fuel(separated, 4);
    assert(separated(columns, ", "@) =~= "transaction_id"@ + ", "@ + "table_uuid"@ + ", "@ + "transaction_timestamp"@);
    assert(separated(values, ", "@) =~= numbered(db, 1) + ", "@ + numbered(db, 2) + ", "@ + numbered(db, 3));
    match db {
        DbKind::Sqlite => {
            assert("INSERT INTO transactions (transaction_id, table_uuid, transaction_timestamp) VALUES (?1, ?2, ?3)"@ =~= "INSERT INTO "@ + "transactions"@ + " ("@ + "transaction_id"@ + ", "@ + "table_uuid"@ + ", "@ + "transaction_timestamp"@ + ") VALUES ("@ + "?1"@ + ", "@ + "?2"@ + ", "@ + "?3"@ + ")"@);
            assert(insert_text(db, "transactions"@, columns) =~= "INSERT INTO "@ + "transactions"@ + " ("@ + "transaction_id"@ + ", "@ + "table_uuid"@ + ", "@ + "transaction_timestamp"@ + ") VALUES ("@ + "?1"@ + ", "@ + "?2"@ + ", "@ + "?3"@ + ")"@);
        },
        DbKind::Postgres => {
            assert("INSERT INTO transactions (transaction_id, table_uuid, transaction_timestamp) VALUES ($1, $2, $3)"@ =~= "INSERT INTO "@ + "transactions"@ + " ("@ + "transaction_id"@ + ", "@ + "table_uuid"@ + ", "@ + "transaction_timestamp"@ + ") VALUES ("@ + "$1"@ + ", "@ + "$2"@ + ", "@ + "$3"@ + ")"@);
            assert(insert_text(db, "transactions"@, columns) =~= "INSERT INTO "@ + "transactions"@ + " ("@ + "transaction_id"@ + ", "@ + "table_uuid"@ + ", "@ + "transaction_timestamp"@ + ") VALUES ("@ + "$1"@ + ", "@ + "$2"@ + ", "@ + "$3"@ + ")"@);
        },
    }
}

proof fn transaction_insert(db: DbKind)
    ensures
        insert_text(db, "transactions"@, seq!["transaction_id"@, "table_uuid"@, "transaction_timestamp"@, "parent_transaction_id"@]) == match db {
            DbKind::Sqlite => "INSERT INTO transactions (transaction_id, table_uuid, transaction_timestamp, parent_transaction_id) VALUES (?1, ?2, ?3, ?4)"@,
            DbKind::Postgres => "INSERT INTO transactions (transaction_id, table_uuid, transaction_timestamp, parent_transaction_id) VALUES ($1, $2, $3, $4)"@,
        },
{
    numbers(db);
    reveal_strlit("INSERT INTO ");
    reveal_strlit("transactions");
    reveal_strlit(" (");
    reveal_strlit(") VALUES (");
    reveal_strlit(")");
    reveal_strlit(", ");
    reveal_strlit("transaction_id");
    reveal_strlit("table_uuid");
    reveal_strlit("transaction_timestamp");
    reveal_strlit("parent_transaction_id");
    reveal_strlit("?1");
    reveal_strlit("?2");
    reveal_strlit("?3");
    reveal_strlit("?4");
    reveal_strlit("$1");
    reveal_strlit("$2");
    reveal_strlit("$3");
    reveal_strlit("$4");
    reveal_strlit("INSERT INTO transactions (transaction_id, table_uuid, transaction_timestamp, parent_transaction_id) VALUES (?1, ?2, ?3, ?4)");
    reveal_strlit("INSERT INTO transactions (transaction_id, table_uuid, transaction_timestamp, parent_transaction_id) VALUES ($1, $2, $3, $4)");
    let columns = seq!["transaction_id"@, "table_uuid"@, "transaction_timestamp"@, "parent_transaction_id"@];
    let values = Seq::new(columns.len(), |i: int| numbered(db, (i + 1) as nat));
    reveal_with_fuel(separated, 5);
    assert(separated(columns, ", "@) =~= "transaction_id"@ + ", "@ + "table_uuid"@ + ", "@ + "transaction_timestamp"@ + ", "@ + "parent_transaction_id"@);
    assert(separated(values, ", "@) =~= numbered(db, 1) + ", "@ + numbered(db, 2) + ", "@ + numbered(db, 3) + ", "@ + numbered(db, 4));
    match db {
        DbKind::Sqlite => {
            assert("INSERT INTO transactions (transaction_id, table_uuid, transaction_timestamp, parent_transaction_id) VALUES (?1, ?2, ?3, ?4)"@ =~= "INSERT INTO "@ + "transactions"@ + " ("@ + "transaction_id"@ + ", "@ + "table_uuid"@ + ", "@ + "transaction_timestamp"@ + ", "@ + "parent_transaction_id"@ + ") VALUES ("@ + "?1"@ + ", "@ + "?2"@ + ", "@ + "?3"@ + ", "@ + "?4"@ + ")"@);
            assert(insert_text(db, "transactions"@, columns) =~= "INSERT INTO "@ + "transactions"@ + " ("@ + "transaction_id"@ + ", "@ + "table_uuid"@ + ", "@ + "transaction_timestamp"@ + ", "@ + "parent_transaction_id"@ + ") VALUES ("@ + "?1"@ + ", "@ + "?2"@ + ", "@ + "?3"@ + ", "@ + "?4"@ + ")"@);
        },
        DbKind::Postgres => {
            assert("INSERT INTO transactions (transaction_id, table_uuid, transaction_timestamp, parent_transaction_id) VALUES ($1, $2, $3, $4)"@ =~= "INSERT INTO "@ + "transactions"@ + " ("@ + "transaction_id"@ + ", "@ + "table_uuid"@ + ", "@ + "transaction_timestamp"@ + ", "@ + "parent_transaction_id"@ + ") VALUES ("@ + "$1"@ + ", "@ + "$2"@ + ", "@ + "$3"@ + ", "@ + "$4"@ + ")"@);
            assert(insert_text(db, "transactions"@, columns) =~= "INSERT INTO "@ + "transactions"@ + " ("@ + "transaction_id"@ + ", "@ + "table_uuid"@ + ", "@ + "transaction_timestamp"@ + ", "@ + "parent_transaction_id"@ + ") VALUES ("@ + "$1"@ + ", "@ + "$2"@ + ", "@ + "$3"@ + ", "@ + "$4"@ + ")"@);
        },
    }
}

proof fn properties_insert(db: DbKind)
    ensures
        insert_text(db, "table_properties"@, seq!["transaction_id"@, "table_uuid"@, "properties"@]) == match db {
            DbKind::Sqlite => "INSERT INTO table_properties (transaction_id, table_uuid, properties) VALUES (?1, ?2, ?3)"@,
            DbKind::Postgres => "INSERT INTO table_properties (transaction_id, table_uuid, properties) VALUES ($1, $2, $3)"@,
        },
{
    numbers(db);
    reveal_strlit("INSERT INTO ");
    reveal_strlit("table_properties");
    reveal_strlit(" (");
    reveal_strlit(") VALUES (");
    reveal_strlit(")");
    reveal_strlit(", ");
    reveal_strlit("transaction_id");
    reveal_strlit("table_uuid");
    reveal_strlit("properties");
    reveal_strlit("?1");
    reveal_strlit("?2");
    reveal_strlit("?3");
    reveal_strlit("$1");
    reveal_strlit("$2");
    reveal_strlit("$3");
    reveal_strlit("INSERT INTO table_properties (transaction_id, table_uuid, properties) VALUES (?1, ?2, ?3)");
    reveal_strlit("INSERT INTO table_properties (transaction_id, table_uuid, properties) VALUES ($1, $2, $3)");
    let columns = seq!["transaction_id"@, "table_uuid"@, "properties"@];
    let values = Seq::new(columns.len(), |i: int| numbered(db, (i + 1) as nat));
    reveal_with_fuel(separated, 4);
    assert(separated(columns, ", "@) =~= "transaction_id"@ + ", "@ + "table_uuid"@ + ", "@ + "properties"@);
    assert(separated(values, ", "@) =~= numbered(db, 1) + ", "@ + numbered(db, 2) + ", "@ + numbered(db, 3));
    match db {
        DbKind::Sqlite => {
            assert("INSERT INTO table_properties (transaction_id, table_uuid, properties) VALUES (?1, ?2, ?3)"@ =~= "INSERT INTO "@ + "table_properties"@ + " ("@ + "transaction_id"@ + ", "@ + "table_uuid"@ + ", "@ + "properties"@ + ") VALUES ("@ + "?1"@ + ", "@ + "?2"@ + ", "@ + "?3"@ + ")"@);
            assert(insert_text(db, "table_properties"@, columns) =~= "INSERT INTO "@ + "table_properties"@ + " ("@ + "transaction_id"@ + ", "@ + "table_uuid"@ + ", "@ + "properties"@ + ") VALUES ("@ + "?1"@ + ", "@ + "?2"@ + ", "@ + "?3"@ + ")"@);
        },
        DbKind::Postgres => {
            assert("INSERT INTO table_properties (transaction_id, table_uuid, properties) VALUES ($1, $2, $3)"@ =~= "INSERT INTO "@ + "table_properties"@ + " ("@ + "transaction_id"@ + ", "@ + "table_uuid"@ + ", "@ + "properties"@ + ") VALUES ("@ + "$1"@ + ", "@ + "$2"@ + ", "@ + "$3"@ + ")"@);
            assert(insert_text(db, "table_properties"@, columns) =~= "INSERT INTO "@ + "table_properties"@ + " ("@ + "transaction_id"@ + ", "@ + "table_uuid"@ + ", "@ + "properties"@ + ") VALUES ("@ + "$1"@ + ", "@ + "$2"@ + ", "@ + "$3"@ + ")"@);
        },
    }
}

proof fn schema_insert(db: DbKind)
    ensures
        insert_text(db, "schemas"@, seq!["schema_uuid"@, "table_uuid"@, "schema_version"@, "valid_from_transaction_id"@, "created_at"@]) == match db {
            DbKind::Sqlite => "INSERT INTO schemas (schema_uuid, table_uuid, schema_version, valid_from_transaction_id, created_at) VALUES (?1, ?2, ?3, ?4, ?5)"@,
            DbKind::Postgres => "INSERT INTO schemas (schema_uuid, table_uuid, schema_version, valid_from_transaction_id, created_at) VALUES ($1, $2, $3, $4, $5)"@,
        },
{
    numbers(db);
    reveal_strlit("INSERT INTO ");
    reveal_strlit("schemas");
    reveal_strlit(" (");
    reveal_strlit(") VALUES (");
    reveal_strlit(")");
    reveal_strlit(", ");
    reveal_strlit("schema_uuid");
    reveal_strlit("table_uuid");
    reveal_strlit("schema_version");
    reveal_strlit("valid_from_transaction_id");
    reveal_strlit("created_at");
    reveal_strlit("?1");
    reveal_strlit("?2");
    reveal_strlit("?3");
    reveal_strlit("?4");
    reveal_strlit("?5");
    reveal_strlit("$1");
    reveal_strlit("$2");
    reveal_strlit("$3");
    reveal_strlit("$4");
    reveal_strlit("$5");
    reveal_strlit("INSERT INTO schemas (schema_uuid, table_uuid, schema_version, valid_from_transaction_id, created_at) VALUES (?1, ?2, ?3, ?4, ?5)");
    reveal_strlit("INSERT INTO schemas (schema_uuid, table_uuid, schema_version, valid_from_transaction_id, created_at) VALUES ($1, $2, $3, $4, $5)");
    let columns = seq!["schema_uuid"@, "table_uuid"@, "schema_version"@, "valid_from_transaction_id"@, "created_at"@];
    let values = Seq::new(columns.len(), |i: int| numbered(db, (i + 1) as nat));
    reveal_with_fuel(separated, 6);
    assert(separated(columns, ", "@) =~= "schema_uuid"@ + ", "@ + "table_uuid"@ + ", "@ + "schema_version"@ + ", "@ + "valid_from_transaction_id"@ + ", "@ + "created_at"@);
    assert(separated(values, ", "@) =~= numbered(db, 1) + ", "@ + numbered(db, 2) + ", "@ + numbered(db, 3) + ", "@ + numbered(db, 4) + ", "@ + numbered(db, 5));
    match db {
        DbKind::Sqlite => {
            assert("INSERT INTO schemas (schema_uuid, table_uuid, schema_version, valid_from_transaction_id, created_at) VALUES (?1, ?2, ?3, ?4, ?5)"@ =~= "INSERT INTO "@ + "schemas"@ + " ("@ + "schema_uuid"@ + ", "@ + "table_uuid"@ + ", "@ + "schema_version"@ + ", "@ + "valid_from_transaction_id"@ + ", "@ + "created_at"@ + ") VALUES ("@ + "?1"@ + ", "@ + "?2"@ + ", "@ + "?3"@ + ", "@ + "?4"@ + ", "@ + "?5"@ + ")"@);
            assert(insert_text(db, "schemas"@, columns) =~= "INSERT INTO "@ + "schemas"@ + " ("@ + "schema_uuid"@ + ", "@ + "table_uuid"@ + ", "@ + "schema_version"@ + ", "@ + "valid_from_transaction_id"@ + ", "@ + "created_at"@ + ") VALUES ("@ + "?1"@ + ", "@ + "?2"@ + ", "@ + "?3"@ + ", "@ + "?4"@ + ", "@ + "?5"@ + ")"@);
        },
        DbKind::Postgres => {
            assert("INSERT INTO schemas (schema_uuid, table_uuid, schema_version, valid_from_transaction_id, created_at) VALUES ($1, $2, $3, $4, $5)"@ =~= "INSERT INTO "@ + "schemas"@ + " ("@ + "schema_uuid"@ + ", "@ + "table_uuid"@ + ", "@ + "schema_version"@ + ", "@ + "valid_from_transaction_id"@ + ", "@ + "created_at"@ + ") VALUES ("@ + "$1"@ + ", "@ + "$2"@ + ", "@ + "$3"@ + ", "@ + "$4"@ + ", "@ + "$5"@ + ")"@);
            assert(insert_text(db, "schemas"@, columns) =~= "INSERT INTO "@ + "schemas"@ + " ("@ + "schema_uuid"@ + ", "@ + "table_uuid"@ + ", "@ + "schema_version"@ + ", "@ + "valid_from_transaction_id"@ + ", "@ + "created_at"@ + ") VALUES ("@ + "$1"@ + ", "@ + "$2"@ + ", "@ + "$3"@ + ", "@ + "$4"@ + ", "@ + "$5"@ + ")"@);
        },
    }
}

proof fn schema_close(db: DbKind)
    ensures
        update_text(db, "schemas"@, seq!["valid_to_transaction_id"@], seq![Condition::Is("schema_uuid"@, 2)]) == match db {
            DbKind::Sqlite => "UPDATE schemas SET valid_to_transaction_id = ?1 WHERE schema_uuid = ?2"@,
            DbKind::Postgres => "UPDATE schemas SET valid_to_transaction_id = $1 WHERE schema_uuid = $2"@,
        },
{
    numbers(db);
    reveal_strlit("UPDATE ");
    reveal_strlit("schemas");
    reveal_strlit(" SET ");
    reveal_strlit(" = ");
    reveal_strlit(" WHERE ");
    reveal_strlit(" AND ");
    reveal_strlit(", ");
    reveal_strlit("valid_to_transaction_id");
    reveal_strlit("schema_uuid");
    reveal_strlit("?1");
    reveal_strlit("?2");
    reveal_strlit("$1");
    reveal_strlit("$2");
    reveal_strlit("UPDATE schemas SET valid_to_transaction_id = ?1 WHERE schema_uuid = ?2");
    reveal_strlit("UPDATE schemas SET valid_to_transaction_id = $1 WHERE schema_uuid = $2");
    let columns = seq!["valid_to_transaction_id"@];
    let conditions = seq![Condition::Is("schema_uuid"@, 2)];
    let sets = Seq::new(columns.len(), |i: int| columns[i] + " = "@ + numbered(db, (i + 1) as nat));
    let texts = Seq::new(conditions.len(), |i: int| condition_text(db, conditions[i]));
    reveal_with_fuel(separated, 2);
    assert(separated(sets, ", "@) =~= ("valid_to_transaction_id"@ + " = "@ + numbered(db, 1)));
    assert(separated(texts, " AND "@) =~= ("schema_uuid"@ + " = "@ + numbered(db, 2)));
    match db {
        DbKind::Sqlite => {
            assert("UPDATE schemas SET valid_to_transaction_id = ?1 WHERE schema_uuid = ?2"@ =~= "UPDATE "@ + "schemas"@ + " SET "@ + "valid_to_transaction_id"@ + " = "@ + "?1"@ + " WHERE "@ + "schema_uuid"@ + " = "@ + "?2"@);
            assert(update_text(db, "schemas"@, columns, conditions) =~= "UPDATE "@ + "schemas"@ + " SET "@ + "valid_to_transaction_id"@ + " = "@ + "?1"@ + " WHERE "@ + "schema_uuid"@ + " = "@ + "?2"@);
        },
        DbKind::Postgres => {
            assert("UPDATE schemas SET valid_to_transaction_id = $1 WHERE schema_uuid = $2"@ =~= "UPDATE "@ + "schemas"@ + " SET "@ + "valid_to_transaction_id"@ + " = "@ + "$1"@ + " WHERE "@ + "schema_uuid"@ + " = "@ + "$2"@);
            assert(update_text(db, "schemas"@, columns, conditions) =~= "UPDATE "@ + "schemas"@ + " SET "@ + "valid_to_transaction_id"@ + " = "@ + "$1"@ + " WHERE "@ + "schema_uuid"@ + " = "@ + "$2"@);
        },
    }
}

proof fn head_set(db: DbKind)
    ensures
        update_text(db, "tables"@, seq!["current_schema_uuid"@, "current_transaction_id"@], seq![Condition::Is("table_uuid"@, 3)]) == match db {
            DbKind::Sqlite => "UPDATE tables SET current_schema_uuid = ?1, current_transaction_id = ?2 WHERE table_uuid = ?3"@,
            DbKind::Postgres => "UPDATE tables SET current_schema_uuid = $1, current_transaction_id = $2 WHERE table_uuid = $3"@,
        },
{
    numbers(db);
    reveal_strlit("UPDATE ");
    reveal_strlit("tables");
    reveal_strlit(" SET ");
    reveal_strlit(" = ");
    reveal_strlit(" WHERE ");
    reveal_strlit(" AND ");
    reveal_strlit(", ");
    reveal_strlit("current_schema_uuid");
    reveal_strlit("current_transaction_id");
    reveal_strlit("table_uuid");
    reveal_strlit("?1");
    reveal_strlit("?2");
    reveal_strlit("?3");
    reveal_strlit("$1");
    reveal_strlit("$2");
    reveal_strlit("$3");
    reveal_strlit("UPDATE tables SET current_schema_uuid = ?1, current_transaction_id = ?2 WHERE table_uuid = ?3");
    reveal_strlit("UPDATE tables SET current_schema_uuid = $1, current_transaction_id = $2 WHERE table_uuid = $3");
    let columns = seq!["current_schema_uuid"@, "current_transaction_id"@];
    let conditions = seq![Condition::Is("table_uuid"@, 3)];
    let sets = Seq::new(columns.len(), |i: int| columns[i] + " = "@ + numbered(db, (i + 1) as nat));
    let texts = Seq::new(conditions.len(), |i: int| condition_text(db, conditions[i]));
    reveal_with_fuel(separated, 3);
    assert(separated(sets, ", "@) =~= ("current_schema_uuid"@ + " = "@ + numbered(db, 1)) + ", "@ + ("current_transaction_id"@ + " = "@ + numbered(db, 2)));
    assert(separated(texts, " AND "@) =~= ("table_uuid"@ + " = "@ + numbered(db, 3)));
    match db {
        DbKind::Sqlite => {
            assert("UPDATE tables SET current_schema_uuid = ?1, current_transaction_id = ?2 WHERE table_uuid = ?3"@ =~= "UPDATE "@ + "tables"@ + " SET "@ + "current_schema_uuid"@ + " = "@ + "?1"@ + ", "@ + "current_transaction_id"@ + " = "@ + "?2"@ + " WHERE "@ + "table_uuid"@ + " = "@ + "?3"@);
            assert(update_text(db, "tables"@, columns, conditions) =~= "UPDATE "@ + "tables"@ + " SET "@ + "current_schema_uuid"@ + " = "@ + "?1"@ + ", "@ + "current_transaction_id"@ + " = "@ + "?2"@ + " WHERE "@ + "table_uuid"@ + " = "@ + "?3"@);
        },
        DbKind::Postgres => {
            assert("UPDATE tables SET current_schema_uuid = $1, current_transaction_id = $2 WHERE table_uuid = $3"@ =~= "UPDATE "@ + "tables"@ + " SET "@ + "current_schema_uuid"@ + " = "@ + "$1"@ + ", "@ + "current_transaction_id"@ + " = "@ + "$2"@ + " WHERE "@ + "table_uuid"@ + " = "@ + "$3"@);
            assert(update_text(db, "tables"@, columns, conditions) =~= "UPDATE "@ + "tables"@ + " SET "@ + "current_schema_uuid"@ + " = "@ + "$1"@ + ", "@ + "current_transaction_id"@ + " = "@ + "$2"@ + " WHERE "@ + "table_uuid"@ + " = "@ + "$3"@);
        },
    }
}

proof fn table_update(db: DbKind)
    ensures
        update_text(db, "tables"@, seq!["current_transaction_id"@, "current_schema_uuid"@, "properties"@], seq![Condition::Is("table_uuid"@, 4)]) == match db {
            DbKind::Sqlite => "UPDATE tables SET current_transaction_id = ?1, current_schema_uuid = ?2, properties = ?3 WHERE table_uuid = ?4"@,
            DbKind::Postgres => "UPDATE tables SET current_transaction_id = $1, current_schema_uuid = $2, properties = $3 WHERE table_uuid = $4"@,
        },
{
    numbers(db);
    reveal_strlit("UPDATE ");
    reveal_strlit("tables");
    reveal_strlit(" SET ");
    reveal_strlit(" = ");
    reveal_strlit(" WHERE ");
    reveal_strlit(" AND ");
    reveal_strlit(", ");
    reveal_strlit("current_transaction_id");
    reveal_strlit("current_schema_uuid");
    reveal_strlit("properties");
    reveal_strlit("table_uuid");
    reveal_strlit("?1");
    reveal_strlit("?2");
    reveal_strlit("?3");
    reveal_strlit("?4");
    reveal_strlit("$1");
    reveal_strlit("$2");
    reveal_strlit("$3");
    reveal_strlit("$4");
    reveal_strlit("UPDATE tables SET current_transaction_id = ?1, current_schema_uuid = ?2, properties = ?3 WHERE table_uuid = ?4");
    reveal_strlit("UPDATE tables SET current_transaction_id = $1, current_schema_uuid = $2, properties = $3 WHERE table_uuid = $4");
    let columns = seq!["current_transaction_id"@, "current_schema_uuid"@, "properties"@];
    let conditions = seq![Condition::Is("table_uuid"@, 4)];
    let sets = Seq::new(columns.len(), |i: int| columns[i] + " = "@ + numbered(db, (i + 1) as nat));
    let texts = Seq::new(conditions.len(), |i: int| condition_text(db, conditions[i]));
    reveal_with_fuel(separated, 4);
    assert(separated(sets, ", "@) =~= ("current_transaction_id"@ + " = "@ + numbered(db, 1)) + ", "@ + ("current_schema_uuid"@ + " = "@ + numbered(db, 2)) + ", "@ + ("properties"@ + " = "@ + numbered(db, 3)));
    assert(separated(texts, " AND "@) =~= ("table_uuid"@ + " = "@ + numbered(db, 4)));
    match db {
        DbKind::Sqlite => {
            assert("UPDATE tables SET current_transaction_id = ?1, current_schema_uuid = ?2, properties = ?3 WHERE table_uuid = ?4"@ =~= "UPDATE "@ + "tables"@ + " SET "@ + "current_transaction_id"@ + " = "@ + "?1"@ + ", "@ + "current_schema_uuid"@ + " = "@ + "?2"@ + ", "@ + "properties"@ + " = "@ + "?3"@ + " WHERE "@ + "table_uuid"@ + " = "@ + "?4"@);
            assert(update_text(db, "tables"@, columns, conditions) =~= "UPDATE "@ + "tables"@ + " SET "@ + "current_transaction_id"@ + " = "@ + "?1"@ + ", "@ + "current_schema_uuid"@ + " = "@ + "?2"@ + ", "@ + "properties"@ + " = "@ + "?3"@ + " WHERE "@ + "table_uuid"@ + " = "@ + "?4"@);
        },
        DbKind::Postgres => {
            assert("UPDATE tables SET current_transaction_id = $1, current_schema_uuid = $2, properties = $3 WHERE table_uuid = $4"@ =~= "UPDATE "@ + "tables"@ + " SET "@ + "current_transaction_id"@ + " = "@ + "$1"@ + ", "@ + "current_schema_uuid"@ + " = "@ + "$2"@ + ", "@ + "properties"@ + " = "@ + "$3"@ + " WHERE "@ + "table_uuid"@ + " = "@ + "$4"@);
            assert(update_text(db, "tables"@, columns, conditions) =~= "UPDATE "@ + "tables"@ + " SET "@ + "current_transaction_id"@ + " = "@ + "$1"@ + ", "@ + "current_schema_uuid"@ + " = "@ + "$2"@ + ", "@ + "properties"@ + " = "@ + "$3"@ + " WHERE "@ + "table_uuid"@ + " = "@ + "$4"@);
        },
    }
}

/// The columns of the table of tables have names that differ.
pub proof fn table_names_differ()
    ensures
        "table_uuid"@ != "table_name"@,
        "table_uuid"@ != "namespace"@,
        "table_uuid"@ != "location"@,
        "table_uuid"@ != "current_schema_uuid"@,
        "table_uuid"@ != "current_transaction_id"@,
        "table_uuid"@ != "created_at"@,
        "table_uuid"@ != "properties"@,
        "table_uuid"@ != "min_reader_version"@,
        "table_uuid"@ != "min_writer_version"@,
        "table_name"@ != "namespace"@,
        "table_name"@ != "location"@,
        "table_name"@ != "current_schema_uuid"@,
        "table_name"@ != "current_transaction_id"@,
        "table_name"@ != "created_at"@,
        "table_name"@ != "properties"@,
        "table_name"@ != "min_reader_version"@,
        "table_name"@ != "min_writer_version"@,
        "namespace"@ != "location"@,
        "namespace"@ != "current_schema_uuid"@,
        "namespace"@ != "current_transaction_id"@,
        "namespace"@ != "created_at"@,
        "namespace"@ != "properties"@,
        "namespace"@ != "min_reader_version"@,
        "namespace"@ != "min_writer_version"@,
        "location"@ != "current_schema_uuid"@,
        "location"@ != "current_transaction_id"@,
        "location"@ != "created_at"@,
        "location"@ != "properties"@,
        "location"@ != "min_reader_version"@,
        "location"@ != "min_writer_version"@,
        "current_schema_uuid"@ != "current_transaction_id"@,
        "current_schema_uuid"@ != "created_at"@,
        "current_schema_uuid"@ != "properties"@,
        "current_schema_uuid"@ != "min_reader_version"@,
        "current_schema_uuid"@ != "min_writer_version"@,
        "current_transaction_id"@ != "created_at"@,
        "current_transaction_id"@ != "properties"@,
        "current_transaction_id"@ != "min_reader_version"@,
        "current_transaction_id"@ != "min_writer_version"@,
        "created_at"@ != "properties"@,
        "created_at"@ != "min_reader_version"@,
        "created_at"@ != "min_writer_version"@,
        "properties"@ != "min_reader_version"@,
        "properties"@ != "min_writer_version"@,
        "min_reader_version"@ != "min_writer_version"@,
{
    reveal_strlit("table_uuid");
    reveal_strlit("table_name");
    reveal_strlit("namespace");
    reveal_strlit("location");
    reveal_strlit("current_schema_uuid");
    reveal_strlit("current_transaction_id");
    reveal_strlit("created_at");
    reveal_strlit("properties");
    reveal_strlit("min_reader_version");
    reveal_strlit("min_writer_version");
    assert("table_uuid"@[6] != "table_name"@[6]);
    assert("table_uuid"@.len() != "namespace"@.len());
    assert("table_uuid"@.len() != "location"@.len());
    assert("table_uuid"@.len() != "current_schema_uuid"@.len());
    assert("table_uuid"@.len() != "current_transaction_id"@.len());
    assert("table_uuid"@[0] != "created_at"@[0]);
    assert("table_uuid"@[0] != "properties"@[0]);
    assert("table_uuid"@.len() != "min_reader_version"@.len());
    assert("table_uuid"@.len() != "min_writer_version"@.len());
    assert("table_name"@.len() != "namespace"@.len());
    assert("table_name"@.len() != "location"@.len());
    assert("table_name"@.len() != "current_schema_uuid"@.len());
    assert("table_name"@.len() != "current_transaction_id"@.len());
    assert("table_name"@[0] != "created_at"@[0]);
    assert("table_name"@[0] != "properties"@[0]);
    assert("table_name"@.len() != "min_reader_version"@.len());
    assert("table_name"@.len() != "min_writer_version"@.len());
    assert("namespace"@.len() != "location"@.len());
    assert("namespace"@.len() != "current_schema_uuid"@.len());
    assert("namespace"@.len() != "current_transaction_id"@.len());
    assert("namespace"@.len() != "created_at"@.len());
    assert("namespace"@.len() != "properties"@.len());
    assert("namespace"@.len() != "min_reader_version"@.len());
    assert("namespace"@.len() != "min_writer_version"@.len());
    assert("location"@.len() != "current_schema_uuid"@.len());
    assert("location"@.len() != "current_transaction_id"@.len());
    assert("location"@.len() != "created_at"@.len());
    assert("location"@.len() != "properties"@.len());
    assert("location"@.len() != "min_reader_version"@.len());
    assert("location"@.len() != "min_writer_version"@.len());
    assert("current_schema_uuid"@.len() != "current_transaction_id"@.len());
    assert("current_schema_uuid"@.len() != "created_at"@.len());
    assert("current_schema_uuid"@.len() != "properties"@.len());
    assert("current_schema_uuid"@.len() != "min_reader_version"@.len());
    assert("current_schema_uuid"@.len() != "min_writer_version"@.len());
    assert("current_transaction_id"@.len() != "created_at"@.len());
    assert("current_transaction_id"@.len() != "properties"@.len());
    assert("current_transaction_id"@.len() != "min_reader_version"@.len());
    assert("current_transaction_id"@.len() != "min_writer_version"@.len());
    assert("created_at"@[0] != "properties"@[0]);
    assert("created_at"@.len() != "min_reader_version"@.len());
    assert("created_at"@.len() != "min_writer_version"@.len());
    assert("properties"@.len() != "min_reader_version"@.len());
    assert("properties"@.len() != "min_writer_version"@.len());
    assert("min_reader_version"@[4] != "min_writer_version"@[4]);
}

/// The columns of the table of transactions have names that differ.
pub proof fn transaction_names_differ()
    ensures
        "transaction_id"@ != "table_uuid"@,
        "transaction_id"@ != "transaction_timestamp"@,
        "transaction_id"@ != "parent_transaction_id"@,
        "table_uuid"@ != "transaction_timestamp"@,
        "table_uuid"@ != "parent_transaction_id"@,
        "transaction_timestamp"@ != "parent_transaction_id"@,
{
    reveal_strlit("transaction_id");
    reveal_strlit("table_uuid");
    reveal_strlit("transaction_timestamp");
    reveal_strlit("parent_transaction_id");
    assert("transaction_id"@.len() != "table_uuid"@.len());
    assert("transaction_id"@.len() != "transaction_timestamp"@.len());
    assert("transaction_id"@.len() != "parent_transaction_id"@.len());
    assert("table_uuid"@.len() != "transaction_timestamp"@.len());
    assert("table_uuid"@.len() != "parent_transaction_id"@.len());
    assert("transaction_timestamp"@[0] != "parent_transaction_id"@[0]);
}

/// The columns of the table of properties have names that differ.
pub proof fn properties_names_differ()
    ensures
        "transaction_id"@ != "table_uuid"@,
        "transaction_id"@ != "properties"@,
        "table_uuid"@ != "properties"@,
{
    reveal_strlit("transaction_id");
    reveal_strlit("table_uuid");
    reveal_strlit("properties");
    assert("transaction_id"@.len() != "table_uuid"@.len());
    assert("transaction_id"@.len() != "properties"@.len());
    assert("table_uuid"@[0] != "properties"@[0]);
}

/// The columns of the table of schemas have names that differ.
pub proof fn schema_names_differ()
    ensures
        "schema_uuid"@ != "table_uuid"@,
        "schema_uuid"@ != "schema_version"@,
        "schema_uuid"@ != "valid_from_transaction_id"@,
        "schema_uuid"@ != "valid_to_transaction_id"@,
        "schema_uuid"@ != "created_at"@,
        "table_uuid"@ != "schema_version"@,
        "table_uuid"@ != "valid_from_transaction_id"@,
        "table_uuid"@ != "valid_to_transaction_id"@,
        "table_uuid"@ != "created_at"@,
        "schema_version"@ != "valid_from_transaction_id"@,
        "schema_version"@ != "valid_to_transaction_id"@,
        "schema_version"@ != "created_at"@,
        "valid_from_transaction_id"@ != "valid_to_transaction_id"@,
        "valid_from_transaction_id"@ != "created_at"@,
        "valid_to_transaction_id"@ != "created_at"@,
{
    reveal_strlit("schema_uuid");
    reveal_strlit("table_uuid");
    reveal_strlit("schema_version");
    reveal_strlit("valid_from_transaction_id");
    reveal_strlit("valid_to_transaction_id");
    reveal_strlit("created_at");
    assert("schema_uuid"@.len() != "table_uuid"@.len());
    assert("schema_uuid"@.len() != "schema_version"@.len());
    assert("schema_uuid"@.len() != "valid_from_transaction_id"@.len());
    assert("schema_uuid"@.len() != "valid_to_transaction_id"@.len());
    assert("schema_uuid"@.len() != "created_at"@.len());
    assert("table_uuid"@.len() != "schema_version"@.len());
    assert("table_uuid"@.len() != "valid_from_transaction_id"@.len());
    assert("table_uuid"@.len() != "valid_to_transaction_id"@.len());
    assert("table_uuid"@[0] != "created_at"@[0]);
    assert("schema_version"@.len() != "valid_from_transaction_id"@.len());
    assert("schema_version"@.len() != "valid_to_transaction_id"@.len());
    assert("schema_version"@.len() != "created_at"@.len());
    assert("valid_from_transaction_id"@.len() != "valid_to_transaction_id"@.len());
    assert("valid_from_transaction_id"@.len() != "created_at"@.len());
    assert("valid_to_transaction_id"@.len() != "created_at"@.len());
}

/// The columns of the table of columns have names that differ.
pub proof fn column_names_differ()
    ensures
        "column_uuid"@ != "schema_uuid"@,
        "column_uuid"@ != "column_name"@,
        "column_uuid"@ != "column_type"@,
        "column_uuid"@ != "ordinal_position"@,
        "column_uuid"@ != "is_nullable"@,
        "schema_uuid"@ != "column_name"@,
        "schema_uuid"@ != "column_type"@,
        "schema_uuid"@ != "ordinal_position"@,
        "schema_uuid"@ != "is_nullable"@,
        "column_name"@ != "column_type"@,
        "column_name"@ != "ordinal_position"@,
        "column_name"@ != "is_nullable"@,
        "column_type"@ != "ordinal_position"@,
        "column_type"@ != "is_nullable"@,
        "ordinal_position"@ != "is_nullable"@,
{
    reveal_strlit("column_uuid");
    reveal_strlit("schema_uuid");
    reveal_strlit("column_name");
    reveal_strlit("column_type");
    reveal_strlit("ordinal_position");
    reveal_strlit("is_nullable");
    assert("column_uuid"@[0] != "schema_uuid"@[0]);
    assert("column_uuid"@[7] != "column_name"@[7]);
    assert("column_uuid"@[7] != "column_type"@[7]);
    assert("column_uuid"@.len() != "ordinal_position"@.len());
    assert("column_uuid"@[0] != "is_nullable"@[0]);
    assert("schema_uuid"@[0] != "column_name"@[0]);
    assert("schema_uuid"@[0] != "column_type"@[0]);
    assert("schema_uuid"@.len() != "ordinal_position"@.len());
    assert("schema_uuid"@[0] != "is_nullable"@[0]);
    assert("column_name"@[7] != "column_type"@[7]);
    assert("column_name"@.len() != "ordinal_position"@.len());
    assert("column_name"@[0] != "is_nullable"@[0]);
    assert("column_type"@.len() != "ordinal_position"@.len());
    assert("column_type"@[0] != "is_nullable"@[0]);
    assert("ordinal_position"@.len() != "is_nullable"@.len());
}

/// The columns of the table of files have names that differ.
pub proof fn file_names_differ()
    ensures
        "file_uuid"@ != "table_uuid"@,
        "file_uuid"@ != "file_format"@,
        "file_uuid"@ != "file_path"@,
        "file_uuid"@ != "record_count"@,
        "file_uuid"@ != "file_size_bytes"@,
        "file_uuid"@ != "added_in_transaction_id"@,
        "file_uuid"@ != "removed_in_transaction_id"@,
        "file_uuid"@ != "partition_values"@,
        "file_uuid"@ != "format_options"@,
        "table_uuid"@ != "file_format"@,
        "table_uuid"@ != "file_path"@,
        "table_uuid"@ != "record_count"@,
        "table_uuid"@ != "file_size_bytes"@,
        "table_uuid"@ != "added_in_transaction_id"@,
        "table_uuid"@ != "removed_in_transaction_id"@,
        "table_uuid"@ != "partition_values"@,
        "table_uuid"@ != "format_options"@,
        "file_format"@ != "file_path"@,
        "file_format"@ != "record_count"@,
        "file_format"@ != "file_size_bytes"@,
        "file_format"@ != "added_in_transaction_id"@,
        "file_format"@ != "removed_in_transaction_id"@,
        "file_format"@ != "partition_values"@,
        "file_format"@ != "format_options"@,
        "file_path"@ != "record_count"@,
        "file_path"@ != "file_size_bytes"@,
        "file_path"@ != "added_in_transaction_id"@,
        "file_path"@ != "removed_in_transaction_id"@,
        "file_path"@ != "partition_values"@,
        "file_path"@ != "format_options"@,
        "record_count"@ != "file_size_bytes"@,
        "record_count"@ != "added_in_transaction_id"@,
        "record_count"@ != "removed_in_transaction_id"@,
        "record_count"@ != "partition_values"@,
        "record_count"@ != "format_options"@,
        "file_size_bytes"@ != "added_in_transaction_id"@,
        "file_size_bytes"@ != "removed_in_transaction_id"@,
        "file_size_bytes"@ != "partition_values"@,
        "file_size_bytes"@ != "format_options"@,
        "added_in_transaction_id"@ != "removed_in_transaction_id"@,
        "added_in_transaction_id"@ != "partition_values"@,
        "added_in_transaction_id"@ != "format_options"@,
        "removed_in_transaction_id"@ != "partition_values"@,
        "removed_in_transaction_id"@ != "format_options"@,
        "partition_values"@ != "format_options"@,
{
    reveal_strlit("file_uuid");
    reveal_strlit("table_uuid");
    reveal_strlit("file_format");
    reveal_strlit("file_path");
    reveal_strlit("record_count");
    reveal_strlit("file_size_bytes");
    reveal_strlit("added_in_transaction_id");
    reveal_strlit("removed_in_transaction_id");
    reveal_strlit("partition_values");
    reveal_strlit("format_options");
    assert("file_uuid"@.len() != "table_uuid"@.len());
    assert("file_uuid"@.len() != "file_format"@.len());
    assert("file_uuid"@[5] != "file_path"@[5]);
    assert("file_uuid"@.len() != "record_count"@.len());
    assert("file_uuid"@.len() != "file_size_bytes"@.len());
    assert("file_uuid"@.len() != "added_in_transaction_id"@.len());
    assert("file_uuid"@.len() != "removed_in_transaction_id"@.len());
    assert("file_uuid"@.len() != "partition_values"@.len());
    assert("file_uuid"@.len() != "format_options"@.len());
    assert("table_uuid"@.len() != "file_format"@.len());
    assert("table_uuid"@.len() != "file_path"@.len());
    assert("table_uuid"@.len() != "record_count"@.len());
    assert("table_uuid"@.len() != "file_size_bytes"@.len());
    assert("table_uuid"@.len() != "added_in_transaction_id"@.len());
    assert("table_uuid"@.len() != "removed_in_transaction_id"@.len());
    assert("table_uuid"@.len() != "partition_values"@.len());
    assert("table_uuid"@.len() != "format_options"@.len());
    assert("file_format"@.len() != "file_path"@.len());
    assert("file_format"@.len() != "record_count"@.len());
    assert("file_format"@.len() != "file_size_bytes"@.len());
    assert("file_format"@.len() != "added_in_transaction_id"@.len());
    assert("file_format"@.len() != "removed_in_transaction_id"@.len());
    assert("file_format"@.len() != "partition_values"@.len());
    assert("file_format"@.len() != "format_options"@.len());
    assert("file_path"@.len() != "record_count"@.len());
    assert("file_path"@.len() != "file_size_bytes"@.len());
    assert("file_path"@.len() != "added_in_transaction_id"@.len());
    assert("file_path"@.len() != "removed_in_transaction_id"@.len());
    assert("file_path"@.len() != "partition_values"@.len());
    assert("file_path"@.len() != "format_options"@.len());
    assert("record_count"@.len() != "file_size_bytes"@.len());
    assert("record_count"@.len() != "added_in_transaction_id"@.len());
    assert("record_count"@.len() != "removed_in_transaction_id"@.len());
    assert("record_count"@.len() != "partition_values"@.len());
    assert("record_count"@.len() != "format_options"@.len());
    assert("file_size_bytes"@.len() != "added_in_transaction_id"@.len());
    assert("file_size_bytes"@.len() != "removed_in_transaction_id"@.len());
    assert("file_size_bytes"@.len() != "partition_values"@.len());
    assert("file_size_bytes"@.len() != "format_options"@.len());
    assert("added_in_transaction_id"@.len() != "removed_in_transaction_id"@.len());
    assert("added_in_transaction_id"@.len() != "partition_values"@.len());
    assert("added_in_transaction_id"@.len() != "format_options"@.len());
    assert("removed_in_transaction_id"@.len() != "partition_values"@.len());
    assert("removed_in_transaction_id"@.len() != "format_options"@.len());
    assert("partition_values"@.len() != "format_options"@.len());
}

/// The statement that inserts a table puts in each column that its text names what is then on
/// record of the table.
pub proof fn tables_are_written_as_recorded(db: DbKind, before: Relations, after: Relations, s: StatementView)
    requires
        s is InsertTable,
        run(before, s) == Some(after),
    ensures
        ({
            let columns = seq!["table_uuid"@, "table_name"@, "namespace"@, "location"@, "created_at"@, "properties"@, "min_reader_version"@, "min_writer_version"@];
            let binds = statement_binds(s);
            let key = s->InsertTable_table_uuid;
            &&& statement_text(db, s) == insert_text(db, "tables"@, columns)
            &&& binds.len() == columns.len()
            &&& forall|i: int|
                0 <= i < columns.len() ==> cell_of(#[trigger] binds[i]) == table_cell(
                    key,
                    after.tables[key],
                    columns[i],
                )
        }),
{
    table_insert(db);
    table_names_differ();
}

/// The statement that inserts a transaction without a parent puts in each column that its text
/// names what is then on record of it.
pub proof fn first_transactions_are_written_as_recorded(db: DbKind, before: Relations, after: Relations, s: StatementView)
    requires
        s is InsertTransaction,
        s->InsertTransaction_parent is None,
        run(before, s) == Some(after),
    ensures
        ({
            let columns = seq!["transaction_id"@, "table_uuid"@, "transaction_timestamp"@];
            let binds = statement_binds(s);
            let key = s->InsertTransaction_transaction_id;
            &&& statement_text(db, s) == insert_text(db, "transactions"@, columns)
            &&& binds.len() == columns.len()
            &&& forall|i: int|
                0 <= i < columns.len() ==> cell_of(#[trigger] binds[i]) == transaction_cell(
                    key,
                    after.transactions[key],
                    columns[i],
                )
        }),
{
    first_transaction_insert(db);
    transaction_names_differ();
}

/// The statement that inserts a transaction with a parent puts in each column that its text names
/// what is then on record of it.
pub proof fn transactions_are_written_as_recorded(db: DbKind, before: Relations, after: Relations, s: StatementView)
    requires
        s is InsertTransaction,
        s->InsertTransaction_parent is Some,
        run(before, s) == Some(after),
    ensures
        ({
            let columns = seq!["transaction_id"@, "table_uuid"@, "transaction_timestamp"@, "parent_transaction_id"@];
            let binds = statement_binds(s);
            let key = s->InsertTransaction_transaction_id;
            &&& statement_text(db, s) == insert_text(db, "transactions"@, columns)
            &&& binds.len() == columns.len()
            &&& forall|i: int|
                0 <= i < columns.len() ==> cell_of(#[trigger] binds[i]) == transaction_cell(
                    key,
                    after.transactions[key],
                    columns[i],
                )
        }),
{
    transaction_insert(db);
    transaction_names_differ();
}

/// The statement that inserts the properties of a transaction puts in each column that its text
/// names what is then on record of them.
pub proof fn properties_are_written_as_recorded(db: DbKind, before: Relations, after: Relations, s: StatementView)
    requires
        s is InsertProperties,
        run(before, s) == Some(after),
    ensures
        ({
            let columns = seq!["transaction_id"@, "table_uuid"@, "properties"@];
            let binds = statement_binds(s);
            let key = s->InsertProperties_transaction_id;
            &&& statement_text(db, s) == insert_text(db, "table_properties"@, columns)
            &&& binds.len() == columns.len()
            &&& forall|i: int|
                0 <= i < columns.len() ==> cell_of(#[trigger] binds[i]) == properties_cell(
                    key,
                    after.properties[key],
                    columns[i],
                )
        }),
{
    properties_insert(db);
    properties_names_differ();
}

/// The statement that inserts a schema puts in each column that its text names what is then on
/// record of the schema.
pub proof fn schemas_are_written_as_recorded(db: DbKind, before: Relations, after: Relations, s: StatementView)
    requires
        s is InsertSchema,
        run(before, s) == Some(after),
    ensures
        ({
            let columns = seq!["schema_uuid"@, "table_uuid"@, "schema_version"@, "valid_from_transaction_id"@, "created_at"@];
            let binds = statement_binds(s);
            let key = s->InsertSchema_schema_uuid;
            &&& statement_text(db, s) == insert_text(db, "schemas"@, columns)
            &&& binds.len() == columns.len()
            &&& forall|i: int|
                0 <= i < columns.len() ==> cell_of(#[trigger] binds[i]) == schema_cell(
                    key,
                    after.schemas[key],
                    columns[i],
                )
        }),
{
    schema_insert(db);
    schema_names_differ();
}

/// The statement that ends the validity of a schema puts in each column that its text sets what is
/// then on record, for the schemas that its text picks, and changes nothing else.
pub proof fn schemas_are_closed_as_recorded(db: DbKind, before: Relations, after: Relations, s: StatementView, u: Uuid)
    requires
        s is CloseSchema,
        run(before, s) == Some(after),
        before.schemas.dom().contains(u),
    ensures
        ({
            let columns = seq!["valid_to_transaction_id"@];
            let conditions = seq![Condition::Is("schema_uuid"@, 2)];
            let binds = statement_binds(s);
            let row = |name: Seq<char>| schema_cell(u, before.schemas[u], name);
            &&& statement_text(db, s) == update_text(db, "schemas"@, columns, conditions)
            &&& after.schemas.dom() == before.schemas.dom()
            &&& !meets_all(conditions, row, binds) ==> after.schemas[u] == before.schemas[u]
            &&& meets_all(conditions, row, binds) ==> {
                &&& forall|i: int|
                    0 <= i < columns.len() ==> #[trigger] cell_of(binds[i]) == schema_cell(
                        u,
                        after.schemas[u],
                        columns[i],
                    )
                &&& forall|name: Seq<char>|
                    !columns.contains(name) ==> #[trigger] schema_cell(u, after.schemas[u], name)
                        == schema_cell(u, before.schemas[u], name)
            }
        }),
{
    schema_close(db);
    schema_names_differ();
    let columns = seq!["valid_to_transaction_id"@];
    let conditions = seq![Condition::Is("schema_uuid"@, 2)];
    let binds = statement_binds(s);
    let row = |name: Seq<char>| schema_cell(u, before.schemas[u], name);
    assert(meets(conditions[0], row, binds) == meets_all(conditions, row, binds));
    assert(after.schemas.dom() =~= before.schemas.dom());
    assert(columns[0] == "valid_to_transaction_id"@);
    assert(columns.contains("valid_to_transaction_id"@));
}

/// The statement that gives a new table its head puts in each column that its text sets what is
/// then on record, for the tables that its text picks, and changes nothing else.
pub proof fn heads_are_set_as_recorded(db: DbKind, before: Relations, after: Relations, s: StatementView, u: Uuid)
    requires
        s is SetHead,
        run(before, s) == Some(after),
        before.tables.dom().contains(u),
    ensures
        ({
            let columns = seq!["current_schema_uuid"@, "current_transaction_id"@];
            let conditions = seq![Condition::Is("table_uuid"@, 3)];
            let binds = statement_binds(s);
            let row = |name: Seq<char>| table_cell(u, before.tables[u], name);
            &&& statement_text(db, s) == update_text(db, "tables"@, columns, conditions)
            &&& after.tables.dom() == before.tables.dom()
            &&& !meets_all(conditions, row, binds) ==> after.tables[u] == before.tables[u]
            &&& meets_all(conditions, row, binds) ==> {
                &&& forall|i: int|
                    0 <= i < columns.len() ==> #[trigger] cell_of(binds[i]) == table_cell(
                        u,
                        after.tables[u],
                        columns[i],
                    )
                &&& forall|name: Seq<char>|
                    !columns.contains(name) ==> #[trigger] table_cell(u, after.tables[u], name)
                        == table_cell(u, before.tables[u], name)
            }
        }),
{
    head_set(db);
    table_names_differ();
    let columns = seq!["current_schema_uuid"@, "current_transaction_id"@];
    let conditions = seq![Condition::Is("table_uuid"@, 3)];
    let binds = statement_binds(s);
    let row = |name: Seq<char>| table_cell(u, before.tables[u], name);
    assert(meets(conditions[0], row, binds) == meets_all(conditions, row, binds));
    assert(after.tables.dom() =~= before.tables.dom());
    assert(columns[0] == "current_schema_uuid"@);
    assert(columns.contains("current_schema_uuid"@));
    assert(columns[1] == "current_transaction_id"@);
    assert(columns.contains("current_transaction_id"@));
}

/// The statement that moves a table to its next transaction puts in each column that its text sets
/// what is then on record, for the tables that its text picks, and changes nothing else.
pub proof fn tables_are_moved_as_recorded(db: DbKind, before: Relations, after: Relations, s: StatementView, u: Uuid)
    requires
        s is UpdateTable,
        run(before, s) == Some(after),
        before.tables.dom().contains(u),
    ensures
        ({
            let columns = seq!["current_transaction_id"@, "current_schema_uuid"@, "properties"@];
            let conditions = seq![Condition::Is("table_uuid"@, 4)];
            let binds = statement_binds(s);
            let row = |name: Seq<char>| table_cell(u, before.tables[u], name);
            &&& statement_text(db, s) == update_text(db, "tables"@, columns, conditions)
            &&& after.tables.dom() == before.tables.dom()
            &&& !meets_all(conditions, row, binds) ==> after.tables[u] == before.tables[u]
            &&& meets_all(conditions, row, binds) ==> {
                &&& forall|i: int|
                    0 <= i < columns.len() ==> #[trigger] cell_of(binds[i]) == table_cell(
                        u,
                        after.tables[u],
                        columns[i],
                    )
                &&& forall|name: Seq<char>|
                    !columns.contains(name) ==> #[trigger] table_cell(u, after.tables[u], name)
                        == table_cell(u, before.tables[u], name)
            }
        }),
{
    table_update(db);
    table_names_differ();
    let columns = seq!["current_transaction_id"@, "current_schema_uuid"@, "properties"@];
    let conditions = seq![Condition::Is("table_uuid"@, 4)];
    let binds = statement_binds(s);
    let row = |name: Seq<char>| table_cell(u, before.tables[u], name);
    assert(meets(conditions[0], row, binds) == meets_all(conditions, row, binds));
    assert(after.tables.dom() =~= before.tables.dom());
    assert(columns[0] == "current_transaction_id"@);
    assert(columns.contains("current_transaction_id"@));
    assert(columns[1] == "current_schema_uuid"@);
    assert(columns.contains("current_schema_uuid"@));
    assert(columns[2] == "properties"@);
    assert(columns.contains("properties"@));
}

proof fn listed_placeholders(db: DbKind, start: nat, count: nat)
    ensures
        placeholders(db, start, count) == separated(
            Seq::new(count, |i: int| placeholder(db, (start + i) as nat)),
            ", "@,
        ),
    decreases count,
{
    let all = Seq::new(count, |i: int| placeholder(db, (start + i) as nat));
    if count > 1 {
        listed_placeholders(db, start, (count - 1) as nat);
        assert(all.drop_last() =~= Seq::new(
            (count - 1) as nat,
            |i: int| placeholder(db, (start + i) as nat),
        ));
    }
}

proof fn listed_rows(db: DbKind, width: nat, rows: nat)
    ensures
        row_placeholders(db, width, rows) == separated(
            Seq::new(
                rows,
                |r: int|
                    "("@ + separated(
                        Seq::new(width, |i: int| placeholder(db, (r * width + i + 1) as nat)),
                        ", "@,
                    ) + ")"@,
            ),
            ", "@,
        ),
    decreases rows,
{
    let f = |r: int|
        "("@ + separated(
            Seq::new(width, |i: int| placeholder(db, (r * width + i + 1) as nat)),
            ", "@,
        ) + ")"@;
    let all = Seq::new(rows, f);
    if rows > 0 {
        let last = rows - 1;
        assert(last * width >= 0) by (nonlinear_arith)
            requires
                last >= 0,
                width >= 0,
        ;
        listed_placeholders(db, (last * width + 1) as nat, width);
        assert(Seq::new(width, |i: int| placeholder(db, ((last * width + 1) as nat + i) as nat))
            =~= Seq::new(width, |i: int| placeholder(db, (last * width + i + 1) as nat)));
        assert(all.last() == "("@ + placeholders(db, (last * width + 1) as nat, width) + ")"@);
        if rows > 1 {
            listed_rows(db, width, last as nat);
            assert(all.drop_last() =~= Seq::new(last as nat, f));
        }
    }
}

proof fn listed_ids(db: DbKind, count: nat)
    ensures
        in_placeholders(db, count) == separated(
            Seq::new(count, |i: int| numbered(db, (3 + i) as nat)),
            ", "@,
        ),
    decreases count,
{
    let all = Seq::new(count, |i: int| numbered(db, (3 + i) as nat));
    if count > 1 {
        listed_ids(db, (count - 1) as nat);
        assert(all.drop_last() =~= Seq::new(
            (count - 1) as nat,
            |i: int| numbered(db, (3 + i) as nat),
        ));
    }
}

proof fn columns_head()
    ensures
        "INSERT INTO columns (column_uuid, schema_uuid, column_name, column_type, ordinal_position, is_nullable) VALUES "@ == "INSERT INTO "@ + "columns"@ + " ("@ + separated(
            seq!["column_uuid"@, "schema_uuid"@, "column_name"@, "column_type"@, "ordinal_position"@, "is_nullable"@],
            ", "@,
        ) + ") VALUES "@,
{
    reveal_strlit("INSERT INTO ");
    reveal_strlit("columns");
    reveal_strlit(" (");
    reveal_strlit("column_uuid");
    reveal_strlit(", ");
    reveal_strlit("schema_uuid");
    reveal_strlit("column_name");
    reveal_strlit("column_type");
    reveal_strlit("ordinal_position");
    reveal_strlit("is_nullable");
    reveal_strlit(") VALUES ");
    reveal_strlit("INSERT INTO columns (column_uuid, schema_uuid, column_name, column_type, ordinal_position, is_nullable) VALUES ");
    let columns = seq!["column_uuid"@, "schema_uuid"@, "column_name"@, "column_type"@, "ordinal_position"@, "is_nullable"@];
    reveal_with_fuel(separated, 7);
    assert(separated(columns, ", "@) =~= "column_uuid"@ + ", "@ + "schema_uuid"@ + ", "@ + "column_name"@ + ", "@ + "column_type"@ + ", "@ + "ordinal_position"@ + ", "@ + "is_nullable"@);
    assert("INSERT INTO columns (column_uuid, schema_uuid, column_name, column_type, ordinal_position, is_nullable) VALUES "@ =~= "INSERT INTO "@ + "columns"@ + " ("@ + "column_uuid"@ + ", "@ + "schema_uuid"@ + ", "@ + "column_name"@ + ", "@ + "column_type"@ + ", "@ + "ordinal_position"@ + ", "@ + "is_nullable"@ + ") VALUES "@);
    assert("INSERT INTO "@ + "columns"@ + " ("@ + separated(columns, ", "@) + ") VALUES "@ =~= "INSERT INTO "@ + "columns"@ + " ("@ + "column_uuid"@ + ", "@ + "schema_uuid"@ + ", "@ + "column_name"@ + ", "@ + "column_type"@ + ", "@ + "ordinal_position"@ + ", "@ + "is_nullable"@ + ") VALUES "@);
}

proof fn files_head()
    ensures
        "INSERT INTO files (file_uuid, table_uuid, file_format, file_path, record_count, file_size_bytes, added_in_transaction_id, partition_values, format_options) VALUES "@ == "INSERT INTO "@ + "files"@ + " ("@ + separated(
            seq!["file_uuid"@, "table_uuid"@, "file_format"@, "file_path"@, "record_count"@, "file_size_bytes"@, "added_in_transaction_id"@, "partition_values"@, "format_options"@],
            ", "@,
        ) + ") VALUES "@,
{
    reveal_strlit("INSERT INTO ");
    reveal_strlit("files");
    reveal_strlit(" (");
    reveal_strlit("file_uuid");
    reveal_strlit(", ");
    reveal_strlit("table_uuid");
    reveal_strlit("file_format");
    reveal_strlit("file_path");
    reveal_strlit("record_count");
    reveal_strlit("file_size_bytes");
    reveal_strlit("added_in_transaction_id");
    reveal_strlit("partition_values");
    reveal_strlit("format_options");
    reveal_strlit(") VALUES ");
    reveal_strlit("INSERT INTO files (file_uuid, table_uuid, file_format, file_path, record_count, file_size_bytes, added_in_transaction_id, partition_values, format_options) VALUES ");
    let columns = seq!["file_uuid"@, "table_uuid"@, "file_format"@, "file_path"@, "record_count"@, "file_size_bytes"@, "added_in_transaction_id"@, "partition_values"@, "format_options"@];
    reveal_with_fuel(separated, 10);
    assert(separated(columns, ", "@) =~= "file_uuid"@ + ", "@ + "table_uuid"@ + ", "@ + "file_format"@ + ", "@ + "file_path"@ + ", "@ + "record_count"@ + ", "@ + "file_size_bytes"@ + ", "@ + "added_in_transaction_id"@ + ", "@ + "partition_values"@ + ", "@ + "format_options"@);
    assert("INSERT INTO files (file_uuid, table_uuid, file_format, file_path, record_count, file_size_bytes, added_in_transaction_id, partition_values, format_options) VALUES "@ =~= "INSERT INTO "@ + "files"@ + " ("@ + "file_uuid"@ + ", "@ + "table_uuid"@ + ", "@ + "file_format"@ + ", "@ + "file_path"@ + ", "@ + "record_count"@ + ", "@ + "file_size_bytes"@ + ", "@ + "added_in_transaction_id"@ + ", "@ + "partition_values"@ + ", "@ + "format_options"@ + ") VALUES "@);
    assert("INSERT INTO "@ + "files"@ + " ("@ + separated(columns, ", "@) + ") VALUES "@ =~= "INSERT INTO "@ + "files"@ + " ("@ + "file_uuid"@ + ", "@ + "table_uuid"@ + ", "@ + "file_format"@ + ", "@ + "file_path"@ + ", "@ + "record_count"@ + ", "@ + "file_size_bytes"@ + ", "@ + "added_in_transaction_id"@ + ", "@ + "partition_values"@ + ", "@ + "format_options"@ + ") VALUES "@);
}

proof fn column_binds_in_place(schema_uuid: Uuid, rows: Seq<ColumnInsertView>, r: int, i: int)
    requires
        0 <= r < rows.len(),
        0 <= i < 6,
    ensures
        all_column_binds(schema_uuid, rows).len() == 6 * rows.len(),
        all_column_binds(schema_uuid, rows)[r * 6 + i] == column_binds(schema_uuid, rows[r])[i],
    decreases rows.len(),
{
    binds_are_counted(StatementView::InsertColumns { schema_uuid, rows });
    binds_are_counted(StatementView::InsertColumns { schema_uuid, rows: rows.drop_last() });
    if r < rows.len() - 1 {
        column_binds_in_place(schema_uuid, rows.drop_last(), r, i);
    }
}

proof fn file_binds_in_place(
    table_uuid: Uuid,
    transaction_id: Uuid,
    rows: Seq<FileInsertView>,
    r: int,
    i: int,
)
    requires
        0 <= r < rows.len(),
        0 <= i < 9,
    ensures
        all_file_binds(table_uuid, transaction_id, rows).len() == 9 * rows.len(),
        all_file_binds(table_uuid, transaction_id, rows)[r * 9 + i] == file_binds(
            table_uuid,
            transaction_id,
            rows[r],
        )[i],
    decreases rows.len(),
{
    binds_are_counted(StatementView::InsertFiles { table_uuid, transaction_id, rows });
    binds_are_counted(
        StatementView::InsertFiles { table_uuid, transaction_id, rows: rows.drop_last() },
    );
    if r < rows.len() - 1 {
        file_binds_in_place(table_uuid, transaction_id, rows.drop_last(), r, i);
    }
}

/// The statement that inserts columns has a row of parameters for each, and puts in each column
/// that its text names what is then on record: the rows come after those that the schema has.
pub proof fn columns_are_written_as_recorded(
    db: DbKind,
    before: Relations,
    after: Relations,
    s: StatementView,
    r: int,
    i: int,
)
    requires
        s is InsertColumns,
        run(before, s) == Some(after),
        0 <= r < s->InsertColumns_rows.len(),
        0 <= i < 6,
    ensures
        ({
            let columns = seq!["column_uuid"@, "schema_uuid"@, "column_name"@, "column_type"@, "ordinal_position"@, "is_nullable"@];
            let binds = statement_binds(s);
            let rows = s->InsertColumns_rows;
            let schema_uuid = s->InsertColumns_schema_uuid;
            let there = columns_in(before.columns, schema_uuid);
            let now = columns_in(after.columns, schema_uuid);
            &&& statement_text(db, s) == inserts_text(db, "columns"@, columns, rows.len())
            &&& binds.len() == rows.len() * columns.len()
            &&& now.len() == there.len() + rows.len()
            &&& now.take(there.len() as int) == there
            &&& cell_of(binds[r * 6 + i]) == column_cell(
                schema_uuid,
                now[there.len() + r],
                columns[i],
            )
        }),
{
    let rows = s->InsertColumns_rows;
    let schema_uuid = s->InsertColumns_schema_uuid;
    columns_head();
    listed_rows(db, 6, rows.len());
    column_names_differ();
    column_binds_in_place(schema_uuid, rows, r, i);
    let there = columns_in(before.columns, schema_uuid);
    assert((there + rows).take(there.len() as int) =~= there);
}

/// The statement that inserts files has a row of parameters for each, and puts in each column that
/// its text names what is then on record of the file.
pub proof fn files_are_written_as_recorded(
    db: DbKind,
    before: Relations,
    after: Relations,
    s: StatementView,
    r: int,
    i: int,
)
    requires
        s is InsertFiles,
        run(before, s) == Some(after),
        0 <= r < s->InsertFiles_rows.len(),
        0 <= i < 9,
    ensures
        ({
            let columns = seq!["file_uuid"@, "table_uuid"@, "file_format"@, "file_path"@, "record_count"@, "file_size_bytes"@, "added_in_transaction_id"@, "partition_values"@, "format_options"@];
            let binds = statement_binds(s);
            let rows = s->InsertFiles_rows;
            let u = rows[r].file_uuid;
            &&& statement_text(db, s) == inserts_text(db, "files"@, columns, rows.len())
            &&& binds.len() == rows.len() * columns.len()
            &&& after.files.dom().contains(u)
            &&& after.files[u].file == rows[r]
            &&& after.files[u].removed is None
            &&& cell_of(binds[r * 9 + i]) == file_cell(u, after.files[u], columns[i])
        }),
{
    let rows = s->InsertFiles_rows;
    let table_uuid = s->InsertFiles_table_uuid;
    let transaction_id = s->InsertFiles_transaction_id;
    files_head();
    listed_rows(db, 9, rows.len());
    file_names_differ();
    file_binds_in_place(table_uuid, transaction_id, rows, r, i);
    inserted_rows_stay(before.files, table_uuid, transaction_id, rows, r);
}

proof fn flat_deletion(
    update: Seq<char>,
    table: Seq<char>,
    set: Seq<char>,
    column: Seq<char>,
    is: Seq<char>,
    one: Seq<char>,
    where_: Seq<char>,
    key: Seq<char>,
    two: Seq<char>,
    and: Seq<char>,
    null: Seq<char>,
    id: Seq<char>,
    among: Seq<char>,
    ids: Seq<char>,
    end: Seq<char>,
)
    ensures
        update + table + set + (column + is + one) + (where_ + (key + is + two + and + (column
            + null) + and + (id + among + ids + end))) == update + table + set + column + is + one
            + where_ + key + is + two + and + column + null + and + id + among + ids + end,
{
    assert(update + table + set + (column + is + one) + (where_ + (key + is + two + and + (column
        + null) + and + (id + among + ids + end))) =~= update + table + set + column + is + one
        + where_ + key + is + two + and + column + null + and + id + among + ids + end);
}

proof fn deletion_literals()
    ensures
        "UPDATE files SET removed_in_transaction_id = ?1 WHERE table_uuid = ?2 AND removed_in_transaction_id IS NULL AND file_uuid IN ("@ == "UPDATE "@ + "files"@ + " SET "@ + "removed_in_transaction_id"@ + " = "@ + "?1"@ + " WHERE "@ + "table_uuid"@ + " = "@ + "?2"@ + " AND "@ + "removed_in_transaction_id"@ + " IS NULL"@ + " AND "@ + "file_uuid"@ + " IN ("@,
        "UPDATE files SET removed_in_transaction_id = $1 WHERE table_uuid = $2 AND removed_in_transaction_id IS NULL AND file_uuid IN ("@ == "UPDATE "@ + "files"@ + " SET "@ + "removed_in_transaction_id"@ + " = "@ + "$1"@ + " WHERE "@ + "table_uuid"@ + " = "@ + "$2"@ + " AND "@ + "removed_in_transaction_id"@ + " IS NULL"@ + " AND "@ + "file_uuid"@ + " IN ("@,
{
    reveal_strlit("UPDATE ");
    reveal_strlit("files");
    reveal_strlit(" SET ");
    reveal_strlit("removed_in_transaction_id");
    reveal_strlit(" = ");
    reveal_strlit("?1");
    reveal_strlit(" WHERE ");
    reveal_strlit("table_uuid");
    reveal_strlit("?2");
    reveal_strlit(" AND ");
    reveal_strlit(" IS NULL");
    reveal_strlit("file_uuid");
    reveal_strlit(" IN (");
    reveal_strlit("$1");
    reveal_strlit("$2");
    reveal_strlit("UPDATE files SET removed_in_transaction_id = ?1 WHERE table_uuid = ?2 AND removed_in_transaction_id IS NULL AND file_uuid IN (");
    reveal_strlit("UPDATE files SET removed_in_transaction_id = $1 WHERE table_uuid = $2 AND removed_in_transaction_id IS NULL AND file_uuid IN (");
    reveal_strlit(")");
    assert("UPDATE files SET removed_in_transaction_id = ?1 WHERE table_uuid = ?2 AND removed_in_transaction_id IS NULL AND file_uuid IN ("@ =~= "UPDATE "@ + "files"@ + " SET "@ + "removed_in_transaction_id"@ + " = "@ + "?1"@ + " WHERE "@ + "table_uuid"@ + " = "@ + "?2"@ + " AND "@ + "removed_in_transaction_id"@ + " IS NULL"@ + " AND "@ + "file_uuid"@ + " IN ("@);
    assert("UPDATE files SET removed_in_transaction_id = $1 WHERE table_uuid = $2 AND removed_in_transaction_id IS NULL AND file_uuid IN ("@ =~= "UPDATE "@ + "files"@ + " SET "@ + "removed_in_transaction_id"@ + " = "@ + "$1"@ + " WHERE "@ + "table_uuid"@ + " = "@ + "$2"@ + " AND "@ + "removed_in_transaction_id"@ + " IS NULL"@ + " AND "@ + "file_uuid"@ + " IN ("@);
}

proof fn deletion_text(db: DbKind, count: nat)
    ensures
        update_text(
            db,
            "files"@,
            seq!["removed_in_transaction_id"@],
            seq![
                Condition::Is("table_uuid"@, 2),
                Condition::Missing("removed_in_transaction_id"@),
                Condition::OneOf("file_uuid"@, 3, count),
            ],
        ) == (match db {
            DbKind::Sqlite => "UPDATE files SET removed_in_transaction_id = ?1 WHERE table_uuid = ?2 AND removed_in_transaction_id IS NULL AND file_uuid IN ("@,
            DbKind::Postgres => "UPDATE files SET removed_in_transaction_id = $1 WHERE table_uuid = $2 AND removed_in_transaction_id IS NULL AND file_uuid IN ("@,
        }) + in_placeholders(db, count) + ")"@,
{
    numbers(db);
    listed_ids(db, count);
    let columns = seq!["removed_in_transaction_id"@];
    let conditions = seq![
        Condition::Is("table_uuid"@, 2),
        Condition::Missing("removed_in_transaction_id"@),
        Condition::OneOf("file_uuid"@, 3, count),
    ];
    let sets = Seq::new(
        columns.len(),
        |i: int| columns[i] + " = "@ + numbered(db, (i + 1) as nat),
    );
    let texts = Seq::new(conditions.len(), |i: int| condition_text(db, conditions[i]));
    reveal_with_fuel(separated, 4);
    let ids = in_placeholders(db, count);
    assert(sets[0] == "removed_in_transaction_id"@ + " = "@ + numbered(db, 1));
    assert(texts[0] == "table_uuid"@ + " = "@ + numbered(db, 2));
    assert(texts[1] == "removed_in_transaction_id"@ + " IS NULL"@);
    assert(texts[2] == "file_uuid"@ + " IN ("@ + ids + ")"@);
    assert(texts.drop_last().drop_last().len() == 1);
    assert(texts.drop_last().last() == texts[1]);
    assert(separated(texts, " AND "@) == texts[0] + " AND "@ + texts[1] + " AND "@ + texts[2]);
    flat_deletion(
        "UPDATE "@,
        "files"@,
        " SET "@,
        "removed_in_transaction_id"@,
        " = "@,
        numbered(db, 1),
        " WHERE "@,
        "table_uuid"@,
        numbered(db, 2),
        " AND "@,
        " IS NULL"@,
        "file_uuid"@,
        " IN ("@,
        ids,
        ")"@,
    );
    deletion_literals();
}

/// The statement that removes files marks with its transaction the files that its text picks: those
/// of the table that are among the given ones and that no transaction has removed. It changes
/// nothing else.
pub proof fn files_are_removed_as_recorded(
    db: DbKind,
    before: Relations,
    after: Relations,
    s: StatementView,
    u: Uuid,
)
    requires
        s is DeleteFiles,
        run(before, s) == Some(after),
        before.files.dom().contains(u),
    ensures
        ({
            let uuids = s->DeleteFiles_file_uuids;
            let columns = seq!["removed_in_transaction_id"@];
            let conditions = seq![
                Condition::Is("table_uuid"@, 2),
                Condition::Missing("removed_in_transaction_id"@),
                Condition::OneOf("file_uuid"@, 3, uuids.len()),
            ];
            let binds = statement_binds(s);
            let row = |name: Seq<char>| file_cell(u, before.files[u], name);
            let picked = uuids.contains(u) && before.files[u].removed is None
                && before.files[u].table_uuid == s->DeleteFiles_table_uuid;
            &&& statement_text(db, s) == update_text(db, "files"@, columns, conditions)
            &&& meets_all(conditions, row, binds) == picked
            &&& after.files.dom() == before.files.dom()
            &&& !picked ==> after.files[u] == before.files[u]
            &&& picked ==> {
                &&& file_cell(u, after.files[u], columns[0]) == cell_of(binds[0])
                &&& forall|name: Seq<char>|
                    !columns.contains(name) ==> #[trigger] file_cell(u, after.files[u], name)
                        == file_cell(u, before.files[u], name)
            }
        }),
{
    let uuids = s->DeleteFiles_file_uuids;
    deletion_text(db, uuids.len());
    file_names_differ();
    let columns = seq!["removed_in_transaction_id"@];
    let conditions = seq![
        Condition::Is("table_uuid"@, 2),
        Condition::Missing("removed_in_transaction_id"@),
        Condition::OneOf("file_uuid"@, 3, uuids.len()),
    ];
    let binds = statement_binds(s);
    let row = |name: Seq<char>| file_cell(u, before.files[u], name);
    assert(after.files.dom() =~= before.files.dom());
    assert(columns[0] == "removed_in_transaction_id"@);
    assert(columns.contains("removed_in_transaction_id"@));
    assert forall|i: int| 0 <= i < uuids.len() implies #[trigger] binds[2 + i] == BindView::Id(
        uuids[i],
    ) by {}
    assert(meets(conditions[2], row, binds) == uuids.contains(u)) by {
        if uuids.contains(u) {
            let i = choose|i: int| 0 <= i < uuids.len() && uuids[i] == u;
            assert(binds[3 - 1 + i] == BindView::Id(u));
        }
    }
    assert(meets(conditions[0], row, binds) == (before.files[u].table_uuid
        == s->DeleteFiles_table_uuid));
    assert(meets(conditions[1], row, binds) == (before.files[u].removed is None));
}

} // verus!
