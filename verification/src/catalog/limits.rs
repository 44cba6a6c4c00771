//! Bounded limits for catalog operations.
//!
//! All operations have explicit upper bounds to prevent unbounded resource usage.

use vstd::prelude::*;

use super::database::DbKind;

verus! {

/// Maximum number of files returned per table query.
pub const MAX_FILES_PER_QUERY: u32 = 10_000;

/// Maximum number of columns per schema.
pub const MAX_COLUMNS_PER_SCHEMA: u32 = 1_000;

/// Maximum number of tables returned by a list query.
pub const MAX_TABLES_PER_LIST: u32 = 10_000;

/// Maximum number of transactions scanned in one event-log range query.
pub const MAX_TRANSACTIONS_PER_SCAN: u32 = 50_000;

/// Maximum number of operations per mutation.
pub const MAX_OPERATIONS_PER_MUTATION: u32 = 1_000;

/// Maximum number of files per append operation.
pub const MAX_FILES_PER_APPEND: u32 = 1_000;

/// Maximum number of files to delete in one operation.
pub const MAX_FILES_PER_DELETE: u32 = 1_000;

/// Maximum number of property keys to remove in one operation.
pub const MAX_PROPERTY_KEYS_TO_REMOVE: u32 = 100;

/// Maximum JSON size in bytes (for properties, partition values).
pub const MAX_JSON_SIZE_BYTES: u32 = 1_048_576;

/// Batch size for multi-row INSERT of files.
pub const BATCH_INSERT_FILES_CHUNK: u32 = 100;

/// Batch size for UPDATE files WHERE file_uuid IN (...).
pub const BATCH_DELETE_FILES_CHUNK: u32 = 500;

/// PostgreSQL's ceiling on the bind parameters of a statement.
pub const POSTGRES_MAX_BIND_PARAMS: u32 = 65_535;

/// SQLite's default ceiling on the host parameters of a statement.
pub const SQLITE_MAX_BIND_PARAMS: u32 = 32_766;

/// Bind parameters per row of `INSERT INTO columns`.
pub const COLUMN_INSERT_PARAMS_PER_ROW: u32 = 6;

/// Bind parameters per row of `INSERT INTO files`.
pub const FILE_INSERT_PARAMS_PER_ROW: u32 = 9;

/// Bind parameters of `UPDATE files ... IN (...)` besides the UUIDs.
pub const DELETE_FILES_FIXED_PARAMS: u32 = 2;

/// The bind parameters that a statement of a backend may have.
pub open spec fn bind_limit(db: DbKind) -> u32 {
    match db {
        DbKind::Sqlite => 32_766,
        DbKind::Postgres => 65_535,
    }
}

/// The rows that one `INSERT INTO columns` takes.
pub open spec fn columns_chunk(db: DbKind) -> u32 {
    let rows = bind_limit(db) / 6;
    if rows < MAX_COLUMNS_PER_SCHEMA {
        rows
    } else {
        MAX_COLUMNS_PER_SCHEMA
    }
}

/// Maximum bind parameters allowed for a backend.
pub fn db_bind_limit(db: DbKind) -> (r: u32)
    ensures
        r == bind_limit(db),
{
    match db {
        DbKind::Sqlite => SQLITE_MAX_BIND_PARAMS,
        DbKind::Postgres => POSTGRES_MAX_BIND_PARAMS,
    }
}

/// Total bind parameters for N rows of `INSERT INTO columns`.
pub fn column_insert_bind_count(rows: u32) -> (r: u32)
    requires
        rows * 6 <= u32::MAX,
    ensures
        r == rows * 6,
{
    rows * COLUMN_INSERT_PARAMS_PER_ROW
}

/// Total bind parameters for N rows of `INSERT INTO files`.
pub fn file_insert_bind_count(rows: u32) -> (r: u32)
    requires
        rows * 9 <= u32::MAX,
    ensures
        r == rows * 9,
{
    rows * FILE_INSERT_PARAMS_PER_ROW
}

/// Total bind parameters for N UUIDs in `UPDATE files ... IN (...)`.
pub fn delete_files_bind_count(rows: u32) -> (r: u32)
    requires
        rows + 2 <= u32::MAX,
    ensures
        r == rows + 2,
{
    DELETE_FILES_FIXED_PARAMS + rows
}

/// Backend-specific batch size for multi-row INSERT of columns: as many rows as the bind limit
/// allows, and no more than `MAX_COLUMNS_PER_SCHEMA`.
pub fn batch_insert_columns_chunk(db: DbKind) -> (r: u32)
    ensures
        r == columns_chunk(db),
{
    let max_rows_from_bind_limit: u32 = db_bind_limit(db) / COLUMN_INSERT_PARAMS_PER_ROW;
    if max_rows_from_bind_limit < MAX_COLUMNS_PER_SCHEMA {
        max_rows_from_bind_limit
    } else {
        MAX_COLUMNS_PER_SCHEMA
    }
}

/// The limits fit each other: what one append or delete names can be queried, a mutation has
/// room for as many operations as an append has files, and JSON stays under 10 MB.
pub proof fn limits_fit()
    ensures
        MAX_FILES_PER_APPEND <= MAX_FILES_PER_QUERY,
        MAX_FILES_PER_DELETE <= MAX_FILES_PER_QUERY,
        MAX_OPERATIONS_PER_MUTATION >= MAX_FILES_PER_APPEND,
        MAX_JSON_SIZE_BYTES <= 10_485_760,
{
}

/// No batch asks for more bind parameters than its backend allows.
pub proof fn batches_fit_bind_limits(db: DbKind)
    ensures
        0 < columns_chunk(db) <= MAX_COLUMNS_PER_SCHEMA,
        columns_chunk(db) * COLUMN_INSERT_PARAMS_PER_ROW <= bind_limit(db),
        BATCH_INSERT_FILES_CHUNK * FILE_INSERT_PARAMS_PER_ROW <= bind_limit(db),
        BATCH_DELETE_FILES_CHUNK + DELETE_FILES_FIXED_PARAMS <= bind_limit(db),
{
}

} // verus!
