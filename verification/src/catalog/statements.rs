//! Statements that write to the catalog database.

use vstd::prelude::*;
use vstd::string::*;

use super::database::DbKind;
use super::helpers::text_option;
use super::limits::{
    bind_limit, COLUMN_INSERT_PARAMS_PER_ROW, DELETE_FILES_FIXED_PARAMS,
    FILE_INSERT_PARAMS_PER_ROW,
};
use crate::ids::Uuid;
use crate::storage::{format_name, Format};
use crate::text::{decimal, decimal_text, joined};
use crate::time::Timestamp;

verus! {

/// A row for the table of columns.
#[derive(Debug)]
pub struct ColumnInsert {
    /// Column UUID.
    pub column_uuid: Uuid,
    /// Column name.
    pub name: String,
    /// Encoded column type.
    pub encoded_type: Vec<u8>,
    /// Column position in schema.
    pub ordinal_position: i32,
    /// Whether the column allows null values.
    pub is_nullable: bool,
}

/// What a row for the table of columns holds.
#[verifier::ext_equal]
pub struct ColumnInsertView {
    /// Column UUID.
    pub column_uuid: Uuid,
    /// Column name.
    pub name: Seq<char>,
    /// Encoded column type.
    pub encoded_type: Seq<u8>,
    /// Column position in schema.
    pub ordinal_position: i32,
    /// Whether the column allows null values.
    pub is_nullable: bool,
}

impl View for ColumnInsert {
    type V = ColumnInsertView;

    open spec fn view(&self) -> ColumnInsertView {
        ColumnInsertView {
            column_uuid: self.column_uuid,
            name: self.name@,
            encoded_type: self.encoded_type@,
            ordinal_position: self.ordinal_position,
            is_nullable: self.is_nullable,
        }
    }
}

/// A row for the table of files.
#[derive(Debug)]
pub struct FileInsert {
    /// File UUID.
    pub file_uuid: Uuid,
    /// File format.
    pub file_format: Format,
    /// File path.
    pub file_path: String,
    /// Number of records in the file.
    pub record_count: i64,
    /// File size in bytes.
    pub file_size_bytes: i64,
    /// Partition values as JSON text.
    pub partition_values: Option<String>,
    /// Format options as JSON text.
    pub format_options: Option<String>,
}

/// What a row for the table of files holds.
#[verifier::ext_equal]
pub struct FileInsertView {
    /// File UUID.
    pub file_uuid: Uuid,
    /// File format.
    pub file_format: Format,
    /// File path.
    pub file_path: Seq<char>,
    /// Number of records in the file.
    pub record_count: i64,
    /// File size in bytes.
    pub file_size_bytes: i64,
    /// Partition values as JSON text.
    pub partition_values: Option<Seq<char>>,
    /// Format options as JSON text.
    pub format_options: Option<Seq<char>>,
}

impl View for FileInsert {
    type V = FileInsertView;

    open spec fn view(&self) -> FileInsertView {
        FileInsertView {
            file_uuid: self.file_uuid,
            file_format: self.file_format,
            file_path: self.file_path@,
            record_count: self.record_count,
            file_size_bytes: self.file_size_bytes,
            partition_values: text_option(self.partition_values),
            format_options: text_option(self.format_options),
        }
    }
}

/// A statement that writes to the catalog database.
#[derive(Debug)]
pub enum Statement {
    /// Insert a table that has no schema and no transaction yet.
    InsertTable {
        /// Table UUID.
        table_uuid: Uuid,
        /// Table name.
        name: String,
        /// Table namespace.
        namespace: String,
        /// Storage location.
        location: String,
        /// Creation timestamp.
        created_at: Timestamp,
        /// Properties as JSON text.
        properties: String,
        /// Lowest reader protocol version that may read the table.
        min_reader_version: i32,
        /// Lowest writer protocol version that may write the table.
        min_writer_version: i32,
    },
    /// Insert a transaction.
    InsertTransaction {
        /// Transaction ID.
        transaction_id: Uuid,
        /// Table UUID.
        table_uuid: Uuid,
        /// Transaction timestamp.
        timestamp: Timestamp,
        /// Parent transaction.
        parent: Option<Uuid>,
    },
    /// Insert the properties that a table has from a transaction on.
    InsertProperties {
        /// Transaction ID.
        transaction_id: Uuid,
        /// Table UUID.
        table_uuid: Uuid,
        /// Properties as JSON text.
        properties: String,
    },
    /// Insert a schema that is valid from a transaction on.
    InsertSchema {
        /// Schema UUID.
        schema_uuid: Uuid,
        /// Table UUID.
        table_uuid: Uuid,
        /// Schema version number.
        schema_version: i32,
        /// Transaction where the schema becomes valid.
        valid_from: Uuid,
        /// Creation timestamp.
        created_at: Timestamp,
    },
    /// End the validity of a schema.
    CloseSchema {
        /// Schema UUID.
        schema_uuid: Uuid,
        /// Transaction where the schema becomes invalid.
        valid_to: Uuid,
    },
    /// Insert columns of a schema.
    InsertColumns {
        /// Schema UUID.
        schema_uuid: Uuid,
        /// Columns.
        rows: Vec<ColumnInsert>,
    },
    /// Insert files that a transaction adds.
    InsertFiles {
        /// Table UUID.
        table_uuid: Uuid,
        /// Transaction that adds the files.
        transaction_id: Uuid,
        /// Files.
        rows: Vec<FileInsert>,
    },
    /// Mark files that are still there as removed by a transaction.
    DeleteFiles {
        /// Table UUID.
        table_uuid: Uuid,
        /// Transaction that removes the files.
        transaction_id: Uuid,
        /// Files.
        file_uuids: Vec<Uuid>,
    },
    /// Give a new table its schema and transaction.
    SetHead {
        /// Table UUID.
        table_uuid: Uuid,
        /// Current schema.
        schema_uuid: Uuid,
        /// Current transaction.
        transaction_id: Uuid,
    },
    /// Move a table to its next transaction.
    UpdateTable {
        /// Table UUID.
        table_uuid: Uuid,
        /// Current transaction.
        transaction_id: Uuid,
        /// Current schema.
        schema_uuid: Option<Uuid>,
        /// Properties as JSON text.
        properties: String,
    },
}

/// What a statement holds.
#[verifier::ext_equal]
pub enum StatementView {
    /// Insert a table.
    InsertTable {
        /// Table UUID.
        table_uuid: Uuid,
        /// Table name.
        name: Seq<char>,
        /// Table namespace.
        namespace: Seq<char>,
        /// Storage location.
        location: Seq<char>,
        /// Creation timestamp.
        created_at: Timestamp,
        /// Properties as JSON text.
        properties: Seq<char>,
        /// Lowest reader protocol version.
        min_reader_version: i32,
        /// Lowest writer protocol version.
        min_writer_version: i32,
    },
    /// Insert a transaction.
    InsertTransaction {
        /// Transaction ID.
        transaction_id: Uuid,
        /// Table UUID.
        table_uuid: Uuid,
        /// Transaction timestamp.
        timestamp: Timestamp,
        /// Parent transaction.
        parent: Option<Uuid>,
    },
    /// Insert the properties that a table has from a transaction on.
    InsertProperties {
        /// Transaction ID.
        transaction_id: Uuid,
        /// Table UUID.
        table_uuid: Uuid,
        /// Properties as JSON text.
        properties: Seq<char>,
    },
    /// Insert a schema.
    InsertSchema {
        /// Schema UUID.
        schema_uuid: Uuid,
        /// Table UUID.
        table_uuid: Uuid,
        /// Schema version number.
        schema_version: i32,
        /// Transaction where the schema becomes valid.
        valid_from: Uuid,
        /// Creation timestamp.
        created_at: Timestamp,
    },
    /// End the validity of a schema.
    CloseSchema {
        /// Schema UUID.
        schema_uuid: Uuid,
        /// Transaction where the schema becomes invalid.
        valid_to: Uuid,
    },
    /// Insert columns of a schema.
    InsertColumns {
        /// Schema UUID.
        schema_uuid: Uuid,
        /// Columns.
        rows: Seq<ColumnInsertView>,
    },
    /// Insert files.
    InsertFiles {
        /// Table UUID.
        table_uuid: Uuid,
        /// Transaction that adds the files.
        transaction_id: Uuid,
        /// Files.
        rows: Seq<FileInsertView>,
    },
    /// Mark files as removed.
    DeleteFiles {
        /// Table UUID.
        table_uuid: Uuid,
        /// Transaction that removes the files.
        transaction_id: Uuid,
        /// Files.
        file_uuids: Seq<Uuid>,
    },
    /// Give a new table its schema and transaction.
    SetHead {
        /// Table UUID.
        table_uuid: Uuid,
        /// Current schema.
        schema_uuid: Uuid,
        /// Current transaction.
        transaction_id: Uuid,
    },
    /// Move a table to its next transaction.
    UpdateTable {
        /// Table UUID.
        table_uuid: Uuid,
        /// Current transaction.
        transaction_id: Uuid,
        /// Current schema.
        schema_uuid: Option<Uuid>,
        /// Properties as JSON text.
        properties: Seq<char>,
    },
}

/// What rows for the table of columns hold.
pub open spec fn column_rows(rows: Seq<ColumnInsert>) -> Seq<ColumnInsertView> {
    rows.map_values(|row: ColumnInsert| row@)
}

/// What rows for the table of files hold.
pub open spec fn file_rows(rows: Seq<FileInsert>) -> Seq<FileInsertView> {
    rows.map_values(|row: FileInsert| row@)
}

impl View for Statement {
    type V = StatementView;

    open spec fn view(&self) -> StatementView {
        match self {
            Statement::InsertTable {
                table_uuid,
                name,
                namespace,
                location,
                created_at,
                properties,
                min_reader_version,
                min_writer_version,
            } => StatementView::InsertTable {
                table_uuid: *table_uuid,
                name: name@,
                namespace: namespace@,
                location: location@,
                created_at: *created_at,
                properties: properties@,
                min_reader_version: *min_reader_version,
                min_writer_version: *min_writer_version,
            },
            Statement::InsertTransaction { transaction_id, table_uuid, timestamp, parent } => {
                StatementView::InsertTransaction {
                    transaction_id: *transaction_id,
                    table_uuid: *table_uuid,
                    timestamp: *timestamp,
                    parent: *parent,
                }
            },
            Statement::InsertProperties { transaction_id, table_uuid, properties } => {
                StatementView::InsertProperties {
                    transaction_id: *transaction_id,
                    table_uuid: *table_uuid,
                    properties: properties@,
                }
            },
            Statement::InsertSchema {
                schema_uuid,
                table_uuid,
                schema_version,
                valid_from,
                created_at,
            } => StatementView::InsertSchema {
                schema_uuid: *schema_uuid,
                table_uuid: *table_uuid,
                schema_version: *schema_version,
                valid_from: *valid_from,
                created_at: *created_at,
            },
            Statement::CloseSchema { schema_uuid, valid_to } => StatementView::CloseSchema {
                schema_uuid: *schema_uuid,
                valid_to: *valid_to,
            },
            Statement::InsertColumns { schema_uuid, rows } => StatementView::InsertColumns {
                schema_uuid: *schema_uuid,
                rows: column_rows(rows@),
            },
            Statement::InsertFiles { table_uuid, transaction_id, rows } => {
                StatementView::InsertFiles {
                    table_uuid: *table_uuid,
                    transaction_id: *transaction_id,
                    rows: file_rows(rows@),
                }
            },
            Statement::DeleteFiles { table_uuid, transaction_id, file_uuids } => {
                StatementView::DeleteFiles {
                    table_uuid: *table_uuid,
                    transaction_id: *transaction_id,
                    file_uuids: file_uuids@,
                }
            },
            Statement::SetHead { table_uuid, schema_uuid, transaction_id } => {
                StatementView::SetHead {
                    table_uuid: *table_uuid,
                    schema_uuid: *schema_uuid,
                    transaction_id: *transaction_id,
                }
            },
            Statement::UpdateTable { table_uuid, transaction_id, schema_uuid, properties } => {
                StatementView::UpdateTable {
                    table_uuid: *table_uuid,
                    transaction_id: *transaction_id,
                    schema_uuid: *schema_uuid,
                    properties: properties@,
                }
            },
        }
    }
}

/// What a list of statements holds.
pub open spec fn statement_views(statements: Seq<Statement>) -> Seq<StatementView> {
    statements.map_values(|s: Statement| s@)
}

/// Items in their order, cut into pieces of `n` of which only the last may be shorter.
pub open spec fn chunks<T>(items: Seq<T>, n: nat) -> Seq<Seq<T>>
    decreases items.len(),
{
    if items.len() == 0 {
        Seq::empty()
    } else {
        let front = chunks(items.drop_last(), n);
        if front.len() == 0 || front.last().len() >= n {
            front.push(seq![items.last()])
        } else {
            front.drop_last().push(front.last().push(items.last()))
        }
    }
}

/// The pieces hold the items in their order, none is empty or longer than `n`, and all but the
/// last are `n` long.
pub proof fn chunks_partition<T>(items: Seq<T>, n: nat)
    requires
        n > 0,
    ensures
        chunks(items, n).flatten() == items,
        forall|k: int|
            0 <= k < chunks(items, n).len() ==> 0 < (#[trigger] chunks(items, n)[k]).len() <= n,
        forall|k: int|
            0 <= k < chunks(items, n).len() - 1 ==> (#[trigger] chunks(items, n)[k]).len() == n,
    decreases items.len(),
{
    if items.len() == 0 {
        assert(chunks(items, n).flatten() =~= items);
    } else {
        let front = chunks(items.drop_last(), n);
        let all = chunks(items, n);
        chunks_partition(items.drop_last(), n);
        front.lemma_flatten_and_flatten_alt_are_equivalent();
        all.lemma_flatten_and_flatten_alt_are_equivalent();
        assert(items =~= items.drop_last().push(items.last()));
        if front.len() == 0 || front.last().len() >= n {
            assert(all.drop_last() =~= front);
            assert(all.flatten_alt() =~= front.flatten_alt() + seq![items.last()]);
        } else {
            assert(all.drop_last() =~= front.drop_last());
            front.drop_last().lemma_flatten_and_flatten_alt_are_equivalent();
            assert(all.flatten_alt() =~= front.drop_last().flatten_alt() + front.last().push(
                items.last(),
            ));
            assert(front.flatten_alt() =~= front.drop_last().flatten_alt() + front.last());
        }
    }
}

/// Cutting and viewing can be swapped.
pub proof fn chunks_of_views<T, V>(items: Seq<T>, n: nat, f: spec_fn(T) -> V)
    ensures
        chunks(items.map_values(f), n) == chunks(items, n).map_values(
            |c: Seq<T>| c.map_values(f),
        ),
    decreases items.len(),
{
    let views = items.map_values(f);
    let wanted = chunks(items, n).map_values(|c: Seq<T>| c.map_values(f));
    if items.len() == 0 {
        assert(chunks(views, n) =~= wanted);
    } else {
        chunks_of_views(items.drop_last(), n, f);
        assert(views.drop_last() =~= items.drop_last().map_values(f));
        let front = chunks(items.drop_last(), n);
        let mapped = front.map_values(|c: Seq<T>| c.map_values(f));
        assert(chunks(views.drop_last(), n) == mapped);
        if front.len() == 0 || front.last().len() >= n {
            assert(seq![items.last()].map_values(f) =~= seq![f(items.last())]);
            assert(chunks(views, n) =~= wanted);
        } else {
            assert(mapped.last() == front.last().map_values(f));
            assert(front.last().push(items.last()).map_values(f) =~= mapped.last().push(
                f(items.last()),
            ));
            assert(mapped.drop_last() =~= front.drop_last().map_values(
                |c: Seq<T>| c.map_values(f),
            ));
            assert(chunks(views, n) =~= wanted);
        }
    }
}

/// The sequences of a list of vectors.
pub open spec fn inner_seqs<T>(v: Seq<Vec<T>>) -> Seq<Seq<T>> {
    v.map_values(|c: Vec<T>| c@)
}

/// Cuts items into pieces of `n`.
pub fn chunked<T>(items: Vec<T>, n: usize) -> (r: Vec<Vec<T>>)
    requires
        n > 0,
    ensures
        inner_seqs(r@) == chunks(items@, n as nat),
{
    let ghost all = items@;
    let mut done: Vec<Vec<T>> = Vec::new();
    let mut current: Vec<T> = Vec::new();
    assert(all.take(0) =~= Seq::<T>::empty());
    assert(inner_seqs(done@) =~= Seq::<Seq<T>>::empty());
    for item in it: items
        invariant
            n > 0,
            it.seq() == all,
            current@.len() <= n,
            it.index() > 0 <==> current@.len() > 0,
            chunks(all.take(it.index() as int), n as nat) == (if current@.len() == 0 {
                inner_seqs(done@)
            } else {
                inner_seqs(done@).push(current@)
            }),
            current@.len() == 0 ==> done@.len() == 0,
    {
        let ghost i = it.index() as int;
        let ghost before = chunks(all.take(i), n as nat);
        proof {
            assert(all.take(i + 1).drop_last() =~= all.take(i));
            assert(all.take(i + 1).last() == item);
        }
        if current.len() == n {
            let ghost old_done = done@;
            let full = current;
            done.push(full);
            current = Vec::new();
            assert(inner_seqs(done@) =~= inner_seqs(old_done).push(full@));
            assert(before == inner_seqs(done@));
        }
        current.push(item);
        proof {
            let after = chunks(all.take(i + 1), n as nat);
            if before.len() == 0 || before.last().len() >= n {
                assert(current@ =~= seq![item]);
            }
            assert(after =~= inner_seqs(done@).push(current@));
        }
    }
    assert(all.take(all.len() as int) =~= all);
    if current.len() > 0 {
        let ghost old_done = done@;
        let ghost last = current@;
        done.push(current);
        assert(inner_seqs(done@) =~= inner_seqs(old_done).push(last));
    }
    done
}

/// The bind parameters of a statement.
pub open spec fn bind_count(s: StatementView) -> nat {
    match s {
        StatementView::InsertTable { .. } => 8,
        StatementView::InsertTransaction { parent, .. } => if parent is Some {
            4
        } else {
            3
        },
        StatementView::InsertProperties { .. } => 3,
        StatementView::InsertSchema { .. } => 5,
        StatementView::CloseSchema { .. } => 2,
        StatementView::InsertColumns { rows, .. } => rows.len()
            * COLUMN_INSERT_PARAMS_PER_ROW as nat,
        StatementView::InsertFiles { rows, .. } => rows.len() * FILE_INSERT_PARAMS_PER_ROW as nat,
        StatementView::DeleteFiles { file_uuids, .. } => file_uuids.len()
            + DELETE_FILES_FIXED_PARAMS as nat,
        StatementView::SetHead { .. } => 3,
        StatementView::UpdateTable { .. } => 4,
    }
}

/// The parameter number `i`, as a statement that counts its parameters writes it.
pub open spec fn numbered(db: DbKind, i: nat) -> Seq<char> {
    match db {
        DbKind::Sqlite => "?"@ + decimal_text(i),
        DbKind::Postgres => "$"@ + decimal_text(i),
    }
}

/// The parameter number `i`, as a row to insert writes it.
pub open spec fn placeholder(db: DbKind, i: nat) -> Seq<char> {
    match db {
        DbKind::Sqlite => "?"@,
        DbKind::Postgres => "$"@ + decimal_text(i),
    }
}

/// `count` parameters from `start` on, with commas between them.
pub open spec fn placeholders(db: DbKind, start: nat, count: nat) -> Seq<char>
    decreases count,
{
    if count == 0 {
        Seq::empty()
    } else if count == 1 {
        placeholder(db, start)
    } else {
        placeholders(db, start, (count - 1) as nat) + ", "@ + placeholder(
            db,
            (start + count - 1) as nat,
        )
    }
}

/// Rows of `width` parameters each, in brackets, with commas between them.
pub open spec fn row_placeholders(db: DbKind, width: nat, rows: nat) -> Seq<char>
    decreases rows,
{
    if rows == 0 {
        Seq::empty()
    } else {
        let row = "("@ + placeholders(db, ((rows - 1) * width + 1) as nat, width) + ")"@;
        if rows == 1 {
            row
        } else {
            row_placeholders(db, width, (rows - 1) as nat) + ", "@ + row
        }
    }
}

/// `count` numbered parameters from number 3 on, with commas between them.
pub open spec fn in_placeholders(db: DbKind, count: nat) -> Seq<char>
    decreases count,
{
    if count == 0 {
        Seq::empty()
    } else if count == 1 {
        numbered(db, 3)
    } else {
        in_placeholders(db, (count - 1) as nat) + ", "@ + numbered(db, count + 2)
    }
}

/// The SQL text of a statement.
pub open spec fn statement_text(db: DbKind, s: StatementView) -> Seq<char> {
    match s {
        StatementView::InsertTable { .. } => match db {
            DbKind::Sqlite => "INSERT INTO tables (table_uuid, table_name, namespace, location, created_at, properties, min_reader_version, min_writer_version) VALUES (?1, ?2, ?3, ?4, ?5, ?6, ?7, ?8)"@,
            DbKind::Postgres => "INSERT INTO tables (table_uuid, table_name, namespace, location, created_at, properties, min_reader_version, min_writer_version) VALUES ($1, $2, $3, $4, $5, $6, $7, $8)"@,
        },
        StatementView::InsertTransaction { parent, .. } => match (db, parent) {
            (DbKind::Sqlite, None) => "INSERT INTO transactions (transaction_id, table_uuid, transaction_timestamp) VALUES (?1, ?2, ?3)"@,
            (DbKind::Postgres, None) => "INSERT INTO transactions (transaction_id, table_uuid, transaction_timestamp) VALUES ($1, $2, $3)"@,
            (DbKind::Sqlite, Some(_)) => "INSERT INTO transactions (transaction_id, table_uuid, transaction_timestamp, parent_transaction_id) VALUES (?1, ?2, ?3, ?4)"@,
            (DbKind::Postgres, Some(_)) => "INSERT INTO transactions (transaction_id, table_uuid, transaction_timestamp, parent_transaction_id) VALUES ($1, $2, $3, $4)"@,
        },
        StatementView::InsertProperties { .. } => match db {
            DbKind::Sqlite => "INSERT INTO table_properties (transaction_id, table_uuid, properties) VALUES (?1, ?2, ?3)"@,
            DbKind::Postgres => "INSERT INTO table_properties (transaction_id, table_uuid, properties) VALUES ($1, $2, $3)"@,
        },
        StatementView::InsertSchema { .. } => match db {
            DbKind::Sqlite => "INSERT INTO schemas (schema_uuid, table_uuid, schema_version, valid_from_transaction_id, created_at) VALUES (?1, ?2, ?3, ?4, ?5)"@,
            DbKind::Postgres => "INSERT INTO schemas (schema_uuid, table_uuid, schema_version, valid_from_transaction_id, created_at) VALUES ($1, $2, $3, $4, $5)"@,
        },
        StatementView::CloseSchema { .. } => match db {
            DbKind::Sqlite => "UPDATE schemas SET valid_to_transaction_id = ?1 WHERE schema_uuid = ?2"@,
            DbKind::Postgres => "UPDATE schemas SET valid_to_transaction_id = $1 WHERE schema_uuid = $2"@,
        },
        StatementView::InsertColumns { rows, .. } => "INSERT INTO columns (column_uuid, schema_uuid, column_name, column_type, ordinal_position, is_nullable) VALUES "@
            + row_placeholders(db, 6, rows.len()),
        StatementView::InsertFiles { rows, .. } => "INSERT INTO files (file_uuid, table_uuid, file_format, file_path, record_count, file_size_bytes, added_in_transaction_id, partition_values, format_options) VALUES "@
            + row_placeholders(db, 9, rows.len()),
        StatementView::DeleteFiles { file_uuids, .. } => (match db {
            DbKind::Sqlite => "UPDATE files SET removed_in_transaction_id = ?1 WHERE table_uuid = ?2 AND removed_in_transaction_id IS NULL AND file_uuid IN ("@,
            DbKind::Postgres => "UPDATE files SET removed_in_transaction_id = $1 WHERE table_uuid = $2 AND removed_in_transaction_id IS NULL AND file_uuid IN ("@,
        }) + in_placeholders(db, file_uuids.len()) + ")"@,
        StatementView::SetHead { .. } => match db {
            DbKind::Sqlite => "UPDATE tables SET current_schema_uuid = ?1, current_transaction_id = ?2 WHERE table_uuid = ?3"@,
            DbKind::Postgres => "UPDATE tables SET current_schema_uuid = $1, current_transaction_id = $2 WHERE table_uuid = $3"@,
        },
        StatementView::UpdateTable { .. } => match db {
            DbKind::Sqlite => "UPDATE tables SET current_transaction_id = ?1, current_schema_uuid = ?2, properties = ?3 WHERE table_uuid = ?4"@,
            DbKind::Postgres => "UPDATE tables SET current_transaction_id = $1, current_schema_uuid = $2, properties = $3 WHERE table_uuid = $4"@,
        },
    }
}

fn write_placeholder(db: DbKind, i: u64) -> (r: String)
    ensures
        r@ == placeholder(db, i as nat),
{
    match db {
        DbKind::Sqlite => String::from_str("?"),
        DbKind::Postgres => joined("$", decimal(i).as_str()),
    }
}

pub(crate) fn write_numbered(db: DbKind, i: u64) -> (r: String)
    ensures
        r@ == numbered(db, i as nat),
{
    match db {
        DbKind::Sqlite => joined("?", decimal(i).as_str()),
        DbKind::Postgres => joined("$", decimal(i).as_str()),
    }
}

fn write_placeholders(db: DbKind, start: u64, count: u64) -> (r: String)
    requires
        start + count <= u64::MAX,
    ensures
        r@ == placeholders(db, start as nat, count as nat),
{
    let mut s = String::new();
    for i in 0..count
        invariant
            start + count <= u64::MAX,
            s@ == placeholders(db, start as nat, i as nat),
    {
        if i > 0 {
            s.append(", ");
        }
        s.append(write_placeholder(db, start + i).as_str());
        assert(s@ =~= placeholders(db, start as nat, (i + 1) as nat));
    }
    s
}

fn write_rows(db: DbKind, width: u64, rows: u64) -> (r: String)
    requires
        0 < width <= 9,
        rows <= 0x1000_0000_0000_0000,
    ensures
        r@ == row_placeholders(db, width as nat, rows as nat),
{
    let mut s = String::new();
    let mut start: u64 = 1;
    for i in 0..rows
        invariant
            0 < width <= 9,
            rows <= 0x1000_0000_0000_0000,
            start == i * width + 1,
            s@ == row_placeholders(db, width as nat, i as nat),
    {
        assert(i * width + width == (i + 1) * width) by (nonlinear_arith);
        assert((i + 1) * width <= 9 * 0x1000_0000_0000_0000) by (nonlinear_arith)
            requires
                0 < width <= 9,
                i + 1 <= 0x1000_0000_0000_0000,
        ;
        if i > 0 {
            s.append(", ");
        }
        s.append("(");
        s.append(write_placeholders(db, start, width).as_str());
        s.append(")");
        start = start + width;
        assert(s@ =~= row_placeholders(db, width as nat, (i + 1) as nat));
    }
    s
}

fn write_in(db: DbKind, count: u64) -> (r: String)
    requires
        count + 3 <= u64::MAX,
    ensures
        r@ == in_placeholders(db, count as nat),
{
    let mut s = String::new();
    for i in 0..count
        invariant
            count + 3 <= u64::MAX,
            s@ == in_placeholders(db, i as nat),
    {
        if i > 0 {
            s.append(", ");
        }
        s.append(write_numbered(db, i + 3).as_str());
        assert(s@ =~= in_placeholders(db, (i + 1) as nat));
    }
    s
}

impl Statement {
    /// The SQL text of the statement, for a statement within the bind limit of the backend.
    pub fn sql(&self, db: DbKind) -> (r: String)
        requires
            bind_count(self@) <= bind_limit(db),
        ensures
            r@ == statement_text(db, self@),
    {
        match self {
            Statement::InsertTable { .. } => String::from_str(
                match db {
                    DbKind::Sqlite => "INSERT INTO tables (table_uuid, table_name, namespace, location, created_at, properties, min_reader_version, min_writer_version) VALUES (?1, ?2, ?3, ?4, ?5, ?6, ?7, ?8)",
                    DbKind::Postgres => "INSERT INTO tables (table_uuid, table_name, namespace, location, created_at, properties, min_reader_version, min_writer_version) VALUES ($1, $2, $3, $4, $5, $6, $7, $8)",
                },
            ),
            Statement::InsertTransaction { parent, .. } => String::from_str(
                match (db, parent) {
                    (DbKind::Sqlite, None) => "INSERT INTO transactions (transaction_id, table_uuid, transaction_timestamp) VALUES (?1, ?2, ?3)",
                    (DbKind::Postgres, None) => "INSERT INTO transactions (transaction_id, table_uuid, transaction_timestamp) VALUES ($1, $2, $3)",
                    (DbKind::Sqlite, Some(_)) => "INSERT INTO transactions (transaction_id, table_uuid, transaction_timestamp, parent_transaction_id) VALUES (?1, ?2, ?3, ?4)",
                    (DbKind::Postgres, Some(_)) => "INSERT INTO transactions (transaction_id, table_uuid, transaction_timestamp, parent_transaction_id) VALUES ($1, $2, $3, $4)",
                },
            ),
            Statement::InsertProperties { .. } => String::from_str(
                match db {
                    DbKind::Sqlite => "INSERT INTO table_properties (transaction_id, table_uuid, properties) VALUES (?1, ?2, ?3)",
                    DbKind::Postgres => "INSERT INTO table_properties (transaction_id, table_uuid, properties) VALUES ($1, $2, $3)",
                },
            ),
            Statement::InsertSchema { .. } => String::from_str(
                match db {
                    DbKind::Sqlite => "INSERT INTO schemas (schema_uuid, table_uuid, schema_version, valid_from_transaction_id, created_at) VALUES (?1, ?2, ?3, ?4, ?5)",
                    DbKind::Postgres => "INSERT INTO schemas (schema_uuid, table_uuid, schema_version, valid_from_transaction_id, created_at) VALUES ($1, $2, $3, $4, $5)",
                },
            ),
            Statement::CloseSchema { .. } => String::from_str(
                match db {
                    DbKind::Sqlite => "UPDATE schemas SET valid_to_transaction_id = ?1 WHERE schema_uuid = ?2",
                    DbKind::Postgres => "UPDATE schemas SET valid_to_transaction_id = $1 WHERE schema_uuid = $2",
                },
            ),
            Statement::InsertColumns { rows, .. } => joined(
                "INSERT INTO columns (column_uuid, schema_uuid, column_name, column_type, ordinal_position, is_nullable) VALUES ",
                write_rows(db, 6, rows.len() as u64).as_str(),
            ),
            Statement::InsertFiles { rows, .. } => joined(
                "INSERT INTO files (file_uuid, table_uuid, file_format, file_path, record_count, file_size_bytes, added_in_transaction_id, partition_values, format_options) VALUES ",
                write_rows(db, 9, rows.len() as u64).as_str(),
            ),
            Statement::DeleteFiles { file_uuids, .. } => {
                let mut s = String::from_str(
                    match db {
                        DbKind::Sqlite => "UPDATE files SET removed_in_transaction_id = ?1 WHERE table_uuid = ?2 AND removed_in_transaction_id IS NULL AND file_uuid IN (",
                        DbKind::Postgres => "UPDATE files SET removed_in_transaction_id = $1 WHERE table_uuid = $2 AND removed_in_transaction_id IS NULL AND file_uuid IN (",
                    },
                );
                s.append(write_in(db, file_uuids.len() as u64).as_str());
                s.append(")");
                s
            },
            Statement::SetHead { .. } => String::from_str(
                match db {
                    DbKind::Sqlite => "UPDATE tables SET current_schema_uuid = ?1, current_transaction_id = ?2 WHERE table_uuid = ?3",
                    DbKind::Postgres => "UPDATE tables SET current_schema_uuid = $1, current_transaction_id = $2 WHERE table_uuid = $3",
                },
            ),
            Statement::UpdateTable { .. } => String::from_str(
                match db {
                    DbKind::Sqlite => "UPDATE tables SET current_transaction_id = ?1, current_schema_uuid = ?2, properties = ?3 WHERE table_uuid = ?4",
                    DbKind::Postgres => "UPDATE tables SET current_transaction_id = $1, current_schema_uuid = $2, properties = $3 WHERE table_uuid = $4",
                },
            ),
        }
    }
}

/// A parameter of a statement or a query.
#[derive(Debug)]
pub enum Bind {
    /// An identifier, bound as its sixteen bytes.
    Id(Uuid),
    /// An identifier that may be missing.
    OptionalId(Option<Uuid>),
    /// A text.
    Text(String),
    /// A text that may be missing.
    OptionalText(Option<String>),
    /// Bytes.
    Bytes(Vec<u8>),
    /// A 64-bit integer.
    Long(i64),
    /// A 32-bit integer.
    Int(i32),
    /// A boolean.
    Flag(bool),
    /// A point in time.
    Time(Timestamp),
}

/// What a parameter holds.
#[verifier::ext_equal]
pub enum BindView {
    /// An identifier.
    Id(Uuid),
    /// An identifier that may be missing.
    OptionalId(Option<Uuid>),
    /// A text.
    Text(Seq<char>),
    /// A text that may be missing.
    OptionalText(Option<Seq<char>>),
    /// Bytes.
    Bytes(Seq<u8>),
    /// A 64-bit integer.
    Long(i64),
    /// A 32-bit integer.
    Int(i32),
    /// A boolean.
    Flag(bool),
    /// A point in time.
    Time(Timestamp),
}

impl View for Bind {
    type V = BindView;

    open spec fn view(&self) -> BindView {
        match self {
            Bind::Id(u) => BindView::Id(*u),
            Bind::OptionalId(u) => BindView::OptionalId(*u),
            Bind::Text(s) => BindView::Text(s@),
            Bind::OptionalText(s) => BindView::OptionalText(text_option(*s)),
            Bind::Bytes(b) => BindView::Bytes(b@),
            Bind::Long(n) => BindView::Long(*n),
            Bind::Int(n) => BindView::Int(*n),
            Bind::Flag(b) => BindView::Flag(*b),
            Bind::Time(t) => BindView::Time(*t),
        }
    }
}

/// What parameters hold.
pub open spec fn bind_views(binds: Seq<Bind>) -> Seq<BindView> {
    binds.map_values(|b: Bind| b@)
}

/// The parameters of a row of the table of columns.
pub open spec fn column_binds(schema_uuid: Uuid, row: ColumnInsertView) -> Seq<BindView> {
    seq![
        BindView::Id(row.column_uuid),
        BindView::Id(schema_uuid),
        BindView::Text(row.name),
        BindView::Bytes(row.encoded_type),
        BindView::Int(row.ordinal_position),
        BindView::Flag(row.is_nullable),
    ]
}

/// The parameters of rows of the table of columns.
pub open spec fn all_column_binds(schema_uuid: Uuid, rows: Seq<ColumnInsertView>) -> Seq<BindView>
    decreases rows.len(),
{
    if rows.len() == 0 {
        Seq::empty()
    } else {
        all_column_binds(schema_uuid, rows.drop_last()) + column_binds(schema_uuid, rows.last())
    }
}

/// The parameters of a row of the table of files.
pub open spec fn file_binds(table_uuid: Uuid, transaction_id: Uuid, row: FileInsertView) -> Seq<
    BindView,
> {
    seq![
        BindView::Id(row.file_uuid),
        BindView::Id(table_uuid),
        BindView::Text(format_name(row.file_format)),
        BindView::Text(row.file_path),
        BindView::Long(row.record_count),
        BindView::Long(row.file_size_bytes),
        BindView::Id(transaction_id),
        BindView::OptionalText(row.partition_values),
        BindView::OptionalText(row.format_options),
    ]
}

/// The parameters of rows of the table of files.
pub open spec fn all_file_binds(
    table_uuid: Uuid,
    transaction_id: Uuid,
    rows: Seq<FileInsertView>,
) -> Seq<BindView>
    decreases rows.len(),
{
    if rows.len() == 0 {
        Seq::empty()
    } else {
        all_file_binds(table_uuid, transaction_id, rows.drop_last()) + file_binds(
            table_uuid,
            transaction_id,
            rows.last(),
        )
    }
}

/// The parameters of a statement, in their order.
pub open spec fn statement_binds(s: StatementView) -> Seq<BindView> {
    match s {
        StatementView::InsertTable {
            table_uuid,
            name,
            namespace,
            location,
            created_at,
            properties,
            min_reader_version,
            min_writer_version,
        } => seq![
            BindView::Id(table_uuid),
            BindView::Text(name),
            BindView::Text(namespace),
            BindView::Text(location),
            BindView::Time(created_at),
            BindView::Text(properties),
            BindView::Int(min_reader_version),
            BindView::Int(min_writer_version),
        ],
        StatementView::InsertTransaction { transaction_id, table_uuid, timestamp, parent } => {
            let known = seq![
                BindView::Id(transaction_id),
                BindView::Id(table_uuid),
                BindView::Time(timestamp),
            ];
            match parent {
                Some(parent) => known.push(BindView::Id(parent)),
                None => known,
            }
        },
        StatementView::InsertProperties { transaction_id, table_uuid, properties } => seq![
            BindView::Id(transaction_id),
            BindView::Id(table_uuid),
            BindView::Text(properties),
        ],
        StatementView::InsertSchema {
            schema_uuid,
            table_uuid,
            schema_version,
            valid_from,
            created_at,
        } => seq![
            BindView::Id(schema_uuid),
            BindView::Id(table_uuid),
            BindView::Int(schema_version),
            BindView::Id(valid_from),
            BindView::Time(created_at),
        ],
        StatementView::CloseSchema { schema_uuid, valid_to } => seq![
            BindView::Id(valid_to),
            BindView::Id(schema_uuid),
        ],
        StatementView::InsertColumns { schema_uuid, rows } => all_column_binds(schema_uuid, rows),
        StatementView::InsertFiles { table_uuid, transaction_id, rows } => all_file_binds(
            table_uuid,
            transaction_id,
            rows,
        ),
        StatementView::DeleteFiles { table_uuid, transaction_id, file_uuids } => seq![
            BindView::Id(transaction_id),
            BindView::Id(table_uuid),
        ] + file_uuids.map_values(|u: Uuid| BindView::Id(u)),
        StatementView::SetHead { table_uuid, schema_uuid, transaction_id } => seq![
            BindView::Id(schema_uuid),
            BindView::Id(transaction_id),
            BindView::Id(table_uuid),
        ],
        StatementView::UpdateTable { table_uuid, transaction_id, schema_uuid, properties } => seq![
            BindView::Id(transaction_id),
            BindView::OptionalId(schema_uuid),
            BindView::Text(properties),
            BindView::Id(table_uuid),
        ],
    }
}

proof fn column_binds_count(schema_uuid: Uuid, rows: Seq<ColumnInsertView>)
    ensures
        all_column_binds(schema_uuid, rows).len() == 6 * rows.len(),
    decreases rows.len(),
{
    if rows.len() > 0 {
        column_binds_count(schema_uuid, rows.drop_last());
    }
}

proof fn file_binds_count(table_uuid: Uuid, transaction_id: Uuid, rows: Seq<FileInsertView>)
    ensures
        all_file_binds(table_uuid, transaction_id, rows).len() == 9 * rows.len(),
    decreases rows.len(),
{
    if rows.len() > 0 {
        file_binds_count(table_uuid, transaction_id, rows.drop_last());
    }
}

/// A statement has as many parameters as are counted for it.
pub proof fn binds_are_counted(s: StatementView)
    ensures
        statement_binds(s).len() == bind_count(s),
{
    match s {
        StatementView::InsertColumns { schema_uuid, rows } => column_binds_count(schema_uuid, rows),
        StatementView::InsertFiles { table_uuid, transaction_id, rows } => file_binds_count(
            table_uuid,
            transaction_id,
            rows,
        ),
        _ => {},
    }
}

fn push_column(binds: &mut Vec<Bind>, schema_uuid: Uuid, row: &ColumnInsert)
    ensures
        bind_views(final(binds)@) == bind_views(old(binds)@) + column_binds(schema_uuid, row@),
{
    let ghost before = bind_views(binds@);
    let mut encoded_type: Vec<u8> = Vec::new();
    encoded_type.extend_from_slice(row.encoded_type.as_slice());
    assert(encoded_type@ =~= row.encoded_type@);
    binds.push(Bind::Id(row.column_uuid));
    binds.push(Bind::Id(schema_uuid));
    binds.push(Bind::Text(row.name.clone()));
    binds.push(Bind::Bytes(encoded_type));
    binds.push(Bind::Int(row.ordinal_position));
    binds.push(Bind::Flag(row.is_nullable));
    assert(bind_views(binds@) =~= before + column_binds(schema_uuid, row@));
}

fn optional_text(s: &Option<String>) -> (r: Bind)
    ensures
        r@ == BindView::OptionalText(text_option(*s)),
{
    Bind::OptionalText(
        match s {
            Some(text) => Some(text.clone()),
            None => None,
        },
    )
}

fn push_file(binds: &mut Vec<Bind>, table_uuid: Uuid, transaction_id: Uuid, row: &FileInsert)
    ensures
        bind_views(final(binds)@) == bind_views(old(binds)@) + file_binds(
            table_uuid,
            transaction_id,
            row@,
        ),
{
    let ghost before = bind_views(binds@);
    binds.push(Bind::Id(row.file_uuid));
    binds.push(Bind::Id(table_uuid));
    binds.push(Bind::Text(String::from_str(row.file_format.as_str())));
    binds.push(Bind::Text(row.file_path.clone()));
    binds.push(Bind::Long(row.record_count));
    binds.push(Bind::Long(row.file_size_bytes));
    binds.push(Bind::Id(transaction_id));
    binds.push(optional_text(&row.partition_values));
    binds.push(optional_text(&row.format_options));
    assert(bind_views(binds@) =~= before + file_binds(table_uuid, transaction_id, row@));
}

impl Statement {
    /// The parameters of the statement, in their order.
    pub fn binds(&self) -> (r: Vec<Bind>)
        ensures
            bind_views(r@) == statement_binds(self@),
    {
        let mut binds: Vec<Bind> = Vec::new();
        assert(bind_views(binds@) =~= Seq::<BindView>::empty());
        match self {
            Statement::InsertTable {
                table_uuid,
                name,
                namespace,
                location,
                created_at,
                properties,
                min_reader_version,
                min_writer_version,
            } => {
                binds.push(Bind::Id(*table_uuid));
                binds.push(Bind::Text(name.clone()));
                binds.push(Bind::Text(namespace.clone()));
                binds.push(Bind::Text(location.clone()));
                binds.push(Bind::Time(*created_at));
                binds.push(Bind::Text(properties.clone()));
                binds.push(Bind::Int(*min_reader_version));
                binds.push(Bind::Int(*min_writer_version));
            },
            Statement::InsertTransaction { transaction_id, table_uuid, timestamp, parent } => {
                binds.push(Bind::Id(*transaction_id));
                binds.push(Bind::Id(*table_uuid));
                binds.push(Bind::Time(*timestamp));
                if let Some(parent) = parent {
                    binds.push(Bind::Id(*parent));
                }
            },
            Statement::InsertProperties { transaction_id, table_uuid, properties } => {
                binds.push(Bind::Id(*transaction_id));
                binds.push(Bind::Id(*table_uuid));
                binds.push(Bind::Text(properties.clone()));
            },
            Statement::InsertSchema {
                schema_uuid,
                table_uuid,
                schema_version,
                valid_from,
                created_at,
            } => {
                binds.push(Bind::Id(*schema_uuid));
                binds.push(Bind::Id(*table_uuid));
                binds.push(Bind::Int(*schema_version));
                binds.push(Bind::Id(*valid_from));
                binds.push(Bind::Time(*created_at));
            },
            Statement::CloseSchema { schema_uuid, valid_to } => {
                binds.push(Bind::Id(*valid_to));
                binds.push(Bind::Id(*schema_uuid));
            },
            Statement::InsertColumns { schema_uuid, rows } => {
                let ghost views = column_rows(rows@);
                assert(views.take(0) =~= Seq::<ColumnInsertView>::empty());
                for i in 0..rows.len()
                    invariant
                        views == column_rows(rows@),
                        bind_views(binds@) == all_column_binds(*schema_uuid, views.take(i as int)),
                {
                    assert(views.take(i + 1).drop_last() =~= views.take(i as int));
                    assert(views.take(i + 1).last() == rows@[i as int]@);
                    push_column(&mut binds, *schema_uuid, &rows[i]);
                }
                assert(views.take(views.len() as int) =~= views);
            },
            Statement::InsertFiles { table_uuid, transaction_id, rows } => {
                let ghost views = file_rows(rows@);
                assert(views.take(0) =~= Seq::<FileInsertView>::empty());
                for i in 0..rows.len()
                    invariant
                        views == file_rows(rows@),
                        bind_views(binds@) == all_file_binds(
                            *table_uuid,
                            *transaction_id,
                            views.take(i as int),
                        ),
                {
                    assert(views.take(i + 1).drop_last() =~= views.take(i as int));
                    assert(views.take(i + 1).last() == rows@[i as int]@);
                    push_file(&mut binds, *table_uuid, *transaction_id, &rows[i]);
                }
                assert(views.take(views.len() as int) =~= views);
            },
            Statement::DeleteFiles { table_uuid, transaction_id, file_uuids } => {
                binds.push(Bind::Id(*transaction_id));
                binds.push(Bind::Id(*table_uuid));
                let ghost known = seq![BindView::Id(*transaction_id), BindView::Id(*table_uuid)];
                assert(bind_views(binds@) =~= known + file_uuids@.take(0).map_values(
                    |u: Uuid| BindView::Id(u),
                ));
                for i in 0..file_uuids.len()
                    invariant
                        bind_views(binds@) == known + file_uuids@.take(i as int).map_values(
                            |u: Uuid| BindView::Id(u),
                        ),
                {
                    let ghost before = bind_views(binds@);
                    binds.push(Bind::Id(file_uuids[i]));
                    assert(bind_views(binds@) =~= before.push(BindView::Id(file_uuids@[i as int])));
                    assert(bind_views(binds@) =~= known + file_uuids@.take(i + 1).map_values(
                        |u: Uuid| BindView::Id(u),
                    ));
                }
                assert(file_uuids@.take(file_uuids@.len() as int) =~= file_uuids@);
            },
            Statement::SetHead { table_uuid, schema_uuid, transaction_id } => {
                binds.push(Bind::Id(*schema_uuid));
                binds.push(Bind::Id(*transaction_id));
                binds.push(Bind::Id(*table_uuid));
            },
            Statement::UpdateTable { table_uuid, transaction_id, schema_uuid, properties } => {
                binds.push(Bind::Id(*transaction_id));
                binds.push(Bind::OptionalId(*schema_uuid));
                binds.push(Bind::Text(properties.clone()));
                binds.push(Bind::Id(*table_uuid));
            },
        }
        assert(bind_views(binds@) =~= statement_binds(self@));
        binds
    }
}

} // verus!
