//! What the catalog database holds, and what the statements of the catalog do to it.

use vstd::prelude::*;

use super::commit::{delete_files, insert_columns, insert_files};
use super::database::DbKind;
use super::limits::{columns_chunk, BATCH_DELETE_FILES_CHUNK, BATCH_INSERT_FILES_CHUNK};
use super::models::TxnId;
use super::statements::{chunks, ColumnInsertView, FileInsertView, StatementView};
use crate::ids::Uuid;
use crate::time::Timestamp;

verus! {

/// A table on record.
#[verifier::ext_equal]
pub struct TableRecord {
    /// Table name.
    pub name: Seq<char>,
    /// Table namespace.
    pub namespace: Seq<char>,
    /// Storage location.
    pub location: Seq<char>,
    /// Creation timestamp.
    pub created_at: Timestamp,
    /// Properties as JSON text.
    pub properties: Seq<char>,
    /// Current schema.
    pub schema_uuid: Option<Uuid>,
    /// Current transaction.
    pub transaction_id: Option<TxnId>,
    /// Lowest reader protocol version that may read the table.
    pub min_reader_version: i32,
    /// Lowest writer protocol version that may write the table.
    pub min_writer_version: i32,
}

/// A transaction on record.
#[verifier::ext_equal]
pub struct TransactionRecord {
    /// Table of the transaction.
    pub table_uuid: Uuid,
    /// Timestamp.
    pub timestamp: Timestamp,
    /// Parent transaction.
    pub parent: Option<TxnId>,
}

/// The properties of a table on record.
#[verifier::ext_equal]
pub struct PropertiesRecord {
    /// Table of the properties.
    pub table_uuid: Uuid,
    /// Properties as JSON text.
    pub properties: Seq<char>,
}

/// A schema on record.
#[verifier::ext_equal]
pub struct SchemaRecord {
    /// Table of the schema.
    pub table_uuid: Uuid,
    /// Version number.
    pub schema_version: i32,
    /// The first transaction that has the schema.
    pub valid_from: TxnId,
    /// The first transaction after that which has it no longer.
    pub valid_to: Option<TxnId>,
    /// Creation timestamp.
    pub created_at: Timestamp,
}

/// A file on record.
#[verifier::ext_equal]
pub struct FileRecord {
    /// Table of the file.
    pub table_uuid: Uuid,
    /// The transaction that added the file.
    pub added: TxnId,
    /// The transaction that removed the file.
    pub removed: Option<TxnId>,
    /// What was inserted.
    pub file: FileInsertView,
}

/// What the catalog database holds.
#[verifier::ext_equal]
pub struct Relations {
    /// Tables.
    pub tables: Map<Uuid, TableRecord>,
    /// Transactions.
    pub transactions: Map<TxnId, TransactionRecord>,
    /// The properties that each transaction left its table with.
    pub properties: Map<TxnId, PropertiesRecord>,
    /// Schemas.
    pub schemas: Map<Uuid, SchemaRecord>,
    /// The columns of each schema that has some.
    pub columns: Map<Uuid, Seq<ColumnInsertView>>,
    /// Files.
    pub files: Map<Uuid, FileRecord>,
}

/// The columns of a schema.
pub open spec fn columns_in(columns: Map<Uuid, Seq<ColumnInsertView>>, schema_uuid: Uuid) -> Seq<
    ColumnInsertView,
> {
    if columns.dom().contains(schema_uuid) {
        columns[schema_uuid]
    } else {
        Seq::empty()
    }
}

/// The files after some more are inserted, or `None` where one is there already.
pub open spec fn files_inserted(
    files: Map<Uuid, FileRecord>,
    table_uuid: Uuid,
    transaction_id: TxnId,
    rows: Seq<FileInsertView>,
) -> Option<Map<Uuid, FileRecord>>
    decreases rows.len(),
{
    if rows.len() == 0 {
        Some(files)
    } else {
        match files_inserted(files, table_uuid, transaction_id, rows.drop_last()) {
            None => None,
            Some(files) => if files.dom().contains(rows.last().file_uuid) {
                None
            } else {
                Some(
                    files.insert(
                        rows.last().file_uuid,
                        FileRecord {
                            table_uuid,
                            added: transaction_id,
                            removed: None,
                            file: rows.last(),
                        },
                    ),
                )
            },
        }
    }
}

/// The files after some are marked as removed: those of the table that were not yet.
pub open spec fn files_marked(
    files: Map<Uuid, FileRecord>,
    table_uuid: Uuid,
    transaction_id: TxnId,
    file_uuids: Seq<Uuid>,
) -> Map<Uuid, FileRecord> {
    Map::new(
        |u: Uuid| files.dom().contains(u),
        |u: Uuid|
            if file_uuids.contains(u) && files[u].table_uuid == table_uuid && files[u].removed is None {
                FileRecord { removed: Some(transaction_id), ..files[u] }
            } else {
                files[u]
            },
    )
}

/// The tables of a name.
pub open spec fn tables_named(db: Relations, namespace: Seq<char>, name: Seq<char>) -> Set<Uuid> {
    Set::new(
        |u: Uuid|
            db.tables.dom().contains(u) && db.tables[u].namespace == namespace && db.tables[u].name
                == name,
    )
}

/// What the database holds after a statement, or `None` where a key or a table name is taken and
/// the statement fails.
pub open spec fn run(db: Relations, s: StatementView) -> Option<Relations> {
    match s {
        StatementView::InsertTable {
            table_uuid,
            name,
            namespace,
            location,
            created_at,
            properties,
            min_reader_version,
            min_writer_version,
        } => if db.tables.dom().contains(table_uuid) || exists|u: Uuid|
            tables_named(db, namespace, name).contains(u) {
            None
        } else {
            Some(
                Relations {
                    tables: db.tables.insert(
                        table_uuid,
                        TableRecord {
                            name,
                            namespace,
                            location,
                            created_at,
                            properties,
                            schema_uuid: None,
                            transaction_id: None,
                            min_reader_version,
                            min_writer_version,
                        },
                    ),
                    ..db
                },
            )
        },
        StatementView::InsertTransaction { transaction_id, table_uuid, timestamp, parent } => if db.transactions.dom().contains(
            transaction_id,
        ) {
            None
        } else {
            Some(
                Relations {
                    transactions: db.transactions.insert(
                        transaction_id,
                        TransactionRecord { table_uuid, timestamp, parent },
                    ),
                    ..db
                },
            )
        },
        StatementView::InsertProperties { transaction_id, table_uuid, properties } => if db.properties.dom().contains(
            transaction_id,
        ) {
            None
        } else {
            Some(
                Relations {
                    properties: db.properties.insert(
                        transaction_id,
                        PropertiesRecord { table_uuid, properties },
                    ),
                    ..db
                },
            )
        },
        StatementView::InsertSchema {
            schema_uuid,
            table_uuid,
            schema_version,
            valid_from,
            created_at,
        } => if db.schemas.dom().contains(schema_uuid) {
            None
        } else {
            Some(
                Relations {
                    schemas: db.schemas.insert(
                        schema_uuid,
                        SchemaRecord {
                            table_uuid,
                            schema_version,
                            valid_from,
                            valid_to: None,
                            created_at,
                        },
                    ),
                    ..db
                },
            )
        },
        StatementView::CloseSchema { schema_uuid, valid_to } => if db.schemas.dom().contains(
            schema_uuid,
        ) {
            Some(
                Relations {
                    schemas: db.schemas.insert(
                        schema_uuid,
                        SchemaRecord { valid_to: Some(valid_to), ..db.schemas[schema_uuid] },
                    ),
                    ..db
                },
            )
        } else {
            Some(db)
        },
        StatementView::InsertColumns { schema_uuid, rows } => Some(
            Relations {
                columns: db.columns.insert(schema_uuid, columns_in(db.columns, schema_uuid) + rows),
                ..db
            },
        ),
        StatementView::InsertFiles { table_uuid, transaction_id, rows } => match files_inserted(
            db.files,
            table_uuid,
            transaction_id,
            rows,
        ) {
            Some(files) => Some(Relations { files, ..db }),
            None => None,
        },
        StatementView::DeleteFiles { table_uuid, transaction_id, file_uuids } => Some(
            Relations {
                files: files_marked(db.files, table_uuid, transaction_id, file_uuids),
                ..db
            },
        ),
        StatementView::SetHead { table_uuid, schema_uuid, transaction_id } => if db.tables.dom().contains(
            table_uuid,
        ) {
            Some(
                Relations {
                    tables: db.tables.insert(
                        table_uuid,
                        TableRecord {
                            schema_uuid: Some(schema_uuid),
                            transaction_id: Some(transaction_id),
                            ..db.tables[table_uuid]
                        },
                    ),
                    ..db
                },
            )
        } else {
            Some(db)
        },
        StatementView::UpdateTable { table_uuid, transaction_id, schema_uuid, properties } => if db.tables.dom().contains(
            table_uuid,
        ) {
            Some(
                Relations {
                    tables: db.tables.insert(
                        table_uuid,
                        TableRecord {
                            schema_uuid,
                            transaction_id: Some(transaction_id),
                            properties,
                            ..db.tables[table_uuid]
                        },
                    ),
                    ..db
                },
            )
        } else {
            Some(db)
        },
    }
}

/// What the database holds after statements, one after the other, or `None` where one fails.
pub open spec fn run_all(db: Relations, statements: Seq<StatementView>) -> Option<Relations>
    decreases statements.len(),
{
    if statements.len() == 0 {
        Some(db)
    } else {
        match run_all(db, statements.drop_last()) {
            Some(db) => run(db, statements.last()),
            None => None,
        }
    }
}

/// What the database holds after two runs of statements.
pub open spec fn run_both(
    db: Relations,
    first: Seq<StatementView>,
    second: Seq<StatementView>,
) -> Option<Relations> {
    match run_all(db, first) {
        Some(db) => run_all(db, second),
        None => None,
    }
}

/// Statements run one list after the other as they do in one list.
pub proof fn runs_join(db: Relations, first: Seq<StatementView>, second: Seq<StatementView>)
    ensures
        run_all(db, first + second) == run_both(db, first, second),
    decreases second.len(),
{
    if second.len() == 0 {
        assert(first + second =~= first);
    } else {
        runs_join(db, first, second.drop_last());
        assert((first + second).drop_last() =~= first + second.drop_last());
        assert((first + second).last() == second.last());
    }
}

/// A file that a table has at a transaction.
pub open spec fn visible(file: FileRecord, table_uuid: Uuid, at: TxnId) -> bool {
    &&& file.table_uuid == table_uuid
    &&& file.added.value <= at.value
    &&& (file.removed matches Some(removed) ==> removed.value > at.value)
}

/// The files that a table has at a transaction.
pub open spec fn files_at(db: Relations, table_uuid: Uuid, at: TxnId) -> Map<Uuid, FileInsertView> {
    Map::new(
        |u: Uuid| db.files.dom().contains(u) && visible(db.files[u], table_uuid, at),
        |u: Uuid| db.files[u].file,
    )
}

/// A schema that a table has at a transaction.
pub open spec fn valid(schema: SchemaRecord, table_uuid: Uuid, at: TxnId) -> bool {
    &&& schema.table_uuid == table_uuid
    &&& schema.valid_from.value <= at.value
    &&& (schema.valid_to matches Some(valid_to) ==> valid_to.value > at.value)
}

/// The schemas that a table has at a transaction.
pub open spec fn schemas_at(db: Relations, table_uuid: Uuid, at: TxnId) -> Set<Uuid> {
    Set::new(|u: Uuid| db.schemas.dom().contains(u) && valid(db.schemas[u], table_uuid, at))
}

/// A transaction left a table with properties, no later than another.
pub open spec fn properties_known(db: Relations, table_uuid: Uuid, at: TxnId, id: TxnId) -> bool {
    db.properties.dom().contains(id) && db.properties[id].table_uuid == table_uuid && id.value
        <= at.value
}

/// The last transaction, no later than another, that left a table with properties.
pub open spec fn properties_last(db: Relations, table_uuid: Uuid, at: TxnId, id: TxnId) -> bool {
    &&& properties_known(db, table_uuid, at, id)
    &&& forall|other: TxnId| #[trigger]
        properties_known(db, table_uuid, at, other) ==> other.value <= id.value
}

/// The properties that a table has at a transaction, as JSON text: those that the last
/// transaction up to it left.
pub open spec fn properties_at(db: Relations, table_uuid: Uuid, at: TxnId) -> Option<Seq<char>> {
    if exists|id: TxnId| properties_last(db, table_uuid, at, id) {
        Some(
            db.properties[choose|id: TxnId| properties_last(db, table_uuid, at, id)].properties,
        )
    } else {
        None
    }
}

/// A table has at a transaction the properties that the last one up to it left.
pub proof fn last_properties_count(db: Relations, table_uuid: Uuid, at: TxnId, id: TxnId)
    requires
        properties_last(db, table_uuid, at, id),
    ensures
        properties_at(db, table_uuid, at) == Some(db.properties[id].properties),
{
    let found = choose|id: TxnId| properties_last(db, table_uuid, at, id);
    assert(properties_last(db, table_uuid, at, found));
    assert(found.value == id.value);
    assert(found == id);
}

/// A table has at a transaction what it has in another database with the same properties up to
/// it.
pub proof fn same_properties_count(
    before: Relations,
    after: Relations,
    table_uuid: Uuid,
    at: TxnId,
)
    requires
        forall|id: TxnId| #[trigger]
            properties_known(after, table_uuid, at, id) == properties_known(
                before,
                table_uuid,
                at,
                id,
            ),
        forall|id: TxnId| #[trigger]
            properties_known(before, table_uuid, at, id) ==> after.properties[id]
                == before.properties[id],
    ensures
        properties_at(after, table_uuid, at) == properties_at(before, table_uuid, at),
{
    assert forall|id: TxnId|
        properties_last(after, table_uuid, at, id) == properties_last(before, table_uuid, at, id) by {
        assert(properties_known(after, table_uuid, at, id) == properties_known(
            before,
            table_uuid,
            at,
            id,
        ));
        if properties_last(before, table_uuid, at, id) {
            assert forall|other: TxnId| #[trigger]
                properties_known(after, table_uuid, at, other) implies other.value <= id.value by {
                assert(properties_known(before, table_uuid, at, other));
            }
        }
        if properties_last(after, table_uuid, at, id) {
            assert forall|other: TxnId| #[trigger]
                properties_known(before, table_uuid, at, other) implies other.value <= id.value by {
                assert(properties_known(after, table_uuid, at, other));
            }
        }
    }
    if exists|id: TxnId| properties_last(before, table_uuid, at, id) {
        let id = choose|id: TxnId| properties_last(before, table_uuid, at, id);
        assert(properties_last(after, table_uuid, at, id));
        last_properties_count(before, table_uuid, at, id);
        last_properties_count(after, table_uuid, at, id);
    } else if exists|id: TxnId| properties_last(after, table_uuid, at, id) {
        let id = choose|id: TxnId| properties_last(after, table_uuid, at, id);
        assert(properties_last(before, table_uuid, at, id));
    }
}

/// The current transaction of a table, if it is there and has one.
pub open spec fn head(db: Relations, table_uuid: Uuid) -> Option<TxnId> {
    if db.tables.dom().contains(table_uuid) {
        db.tables[table_uuid].transaction_id
    } else {
        None
    }
}

/// Each file belongs to a table, was added by a transaction of it, and if it was removed, by one
/// that is no earlier. Neither is later than the current one.
pub open spec fn files_consistent(db: Relations) -> bool {
    forall|u: Uuid| #[trigger]
        db.files.dom().contains(u) ==> {
            let f = db.files[u];
            &&& f.file.file_uuid == u
            &&& head(db, f.table_uuid) is Some
            &&& on_record(db, f.table_uuid, f.added)
            &&& f.added.value <= head(db, f.table_uuid)->0.value
            &&& f.removed matches Some(removed) ==> {
                &&& on_record(db, f.table_uuid, removed)
                &&& f.added.value <= removed.value <= head(db, f.table_uuid)->0.value
            }
        }
}

/// A transaction of a table is on record.
pub open spec fn on_record(db: Relations, table_uuid: Uuid, id: TxnId) -> bool {
    db.transactions.dom().contains(id) && db.transactions[id].table_uuid == table_uuid
}

/// Each schema belongs to a table, no transaction has two, the one that is valid without end is
/// the current one, and columns belong to a schema.
pub open spec fn schemas_consistent(db: Relations) -> bool {
    &&& forall|u: Uuid| #[trigger] db.columns.dom().contains(u) ==> db.schemas.dom().contains(u)
    &&& forall|u: Uuid| #[trigger]
        db.schemas.dom().contains(u) ==> {
            let s = db.schemas[u];
            &&& head(db, s.table_uuid) is Some
            &&& s.valid_from.value <= head(db, s.table_uuid)->0.value
            &&& (s.valid_to matches Some(valid_to) ==> valid_to.value
                <= head(db, s.table_uuid)->0.value)
            &&& (s.valid_to is None ==> db.tables[s.table_uuid].schema_uuid == Some(u))
        }
    &&& forall|t: Uuid| #[trigger]
        db.tables.dom().contains(t) ==> (db.tables[t].schema_uuid matches Some(u)
            ==> db.schemas.dom().contains(u) && db.schemas[u].table_uuid == t
            && db.schemas[u].valid_to is None)
    &&& forall|a: Uuid, b: Uuid, at: TxnId|
        db.schemas.dom().contains(a) && db.schemas.dom().contains(b) && a != b && #[trigger] valid(
            db.schemas[a],
            db.schemas[a].table_uuid,
            at,
        ) ==> !(#[trigger] valid(db.schemas[b], db.schemas[a].table_uuid, at))
}

/// The transactions of a table are a chain: each has a parent that came before it, or none, and
/// the current one is on record and the last.
pub open spec fn transactions_consistent(db: Relations) -> bool {
    &&& forall|id: TxnId| #[trigger]
        db.transactions.dom().contains(id) ==> {
            let t = db.transactions[id];
            &&& head(db, t.table_uuid) is Some
            &&& id.value <= head(db, t.table_uuid)->0.value
            &&& t.parent matches Some(parent) ==> on_record(db, t.table_uuid, parent)
                && parent.value < id.value
        }
    &&& forall|t: Uuid| #[trigger]
        db.tables.dom().contains(t) ==> (db.tables[t].transaction_id matches Some(id) ==> on_record(
            db,
            t,
            id,
        ))
}

/// Properties belong to a transaction of their table, and those of the current one are the
/// current ones.
pub open spec fn properties_consistent(db: Relations) -> bool {
    &&& forall|id: TxnId| #[trigger]
        db.properties.dom().contains(id) ==> on_record(db, db.properties[id].table_uuid, id)
    &&& forall|t: Uuid| #[trigger]
        db.tables.dom().contains(t) ==> (db.tables[t].transaction_id matches Some(id)
            ==> db.properties.dom().contains(id) && db.properties[id] == (PropertiesRecord {
            table_uuid: t,
            properties: db.tables[t].properties,
        }))
}

/// No two tables have one name.
pub open spec fn names_consistent(db: Relations) -> bool {
    forall|a: Uuid, b: Uuid|
        #![trigger db.tables.dom().contains(a), db.tables.dom().contains(b)]
        db.tables.dom().contains(a) && db.tables.dom().contains(b) && db.tables[a].namespace
            == db.tables[b].namespace && db.tables[a].name == db.tables[b].name ==> a == b
}

/// No two columns of a schema have one name.
pub open spec fn columns_consistent(db: Relations) -> bool {
    forall|u: Uuid| #[trigger] names_differ(columns_in(db.columns, u))
}

/// Columns with names that differ from each other.
pub open spec fn names_differ(columns: Seq<ColumnInsertView>) -> bool {
    forall|i: int, j: int|
        0 <= i < j < columns.len() ==> (#[trigger] columns[i]).name != (#[trigger] columns[j]).name
}

/// The database is as the operations of the catalog leave it.
pub open spec fn consistent(db: Relations) -> bool {
    &&& names_consistent(db)
    &&& columns_consistent(db)
    &&& transactions_consistent(db)
    &&& properties_consistent(db)
    &&& files_consistent(db)
    &&& schemas_consistent(db)
}

proof fn inserted_in_two(
    files: Map<Uuid, FileRecord>,
    table_uuid: Uuid,
    transaction_id: TxnId,
    first: Seq<FileInsertView>,
    row: FileInsertView,
)
    ensures
        files_inserted(files, table_uuid, transaction_id, first.push(row)) == match files_inserted(
            files,
            table_uuid,
            transaction_id,
            first,
        ) {
            Some(files) => files_inserted(files, table_uuid, transaction_id, seq![row]),
            None => None,
        },
{
    assert(first.push(row).drop_last() =~= first);
    assert(seq![row].drop_last() =~= Seq::<FileInsertView>::empty());
    assert(first.push(row).last() == row);
    if let Some(mid) = files_inserted(files, table_uuid, transaction_id, first) {
        assert(files_inserted(
            mid,
            table_uuid,
            transaction_id,
            seq![row].drop_last(),
        ) == Some(mid));
    }
}

/// Files that are inserted in pieces are inserted.
pub proof fn pieces_insert_all(
    db: Relations,
    table_uuid: Uuid,
    transaction_id: TxnId,
    rows: Seq<FileInsertView>,
)
    ensures
        run_all(db, insert_files(table_uuid, transaction_id, rows)) == match files_inserted(
            db.files,
            table_uuid,
            transaction_id,
            rows,
        ) {
            Some(files) => Some(Relations { files, ..db }),
            None => None,
        },
    decreases rows.len(),
{
    let n = BATCH_INSERT_FILES_CHUNK as nat;
    let f = |c: Seq<FileInsertView>|
        StatementView::InsertFiles { table_uuid, transaction_id, rows: c };
    let all = insert_files(table_uuid, transaction_id, rows);
    if rows.len() > 0 {
        let front = chunks(rows.drop_last(), n);
        let few = insert_files(table_uuid, transaction_id, rows.drop_last());
        assert(few == front.map_values(f));
        pieces_insert_all(db, table_uuid, transaction_id, rows.drop_last());
        inserted_in_two(db.files, table_uuid, transaction_id, rows.drop_last(), rows.last());
        assert(rows.drop_last().push(rows.last()) =~= rows);
        if front.len() == 0 || front.last().len() >= n {
            assert(all.drop_last() =~= few);
            assert(all.last() == f(seq![rows.last()]));
        } else {
            assert(all.drop_last() =~= few.drop_last());
            assert(few.last() == f(front.last()));
            assert(all.last() == f(front.last().push(rows.last())));
            if let Some(mid) = run_all(db, few.drop_last()) {
                inserted_in_two(mid.files, table_uuid, transaction_id, front.last(), rows.last());
            }
        }
    } else {
        assert(all =~= Seq::<StatementView>::empty());
    }
}

proof fn marked_in_two(
    files: Map<Uuid, FileRecord>,
    table_uuid: Uuid,
    transaction_id: TxnId,
    first: Seq<Uuid>,
    id: Uuid,
)
    ensures
        files_marked(files, table_uuid, transaction_id, first.push(id)) == files_marked(
            files_marked(files, table_uuid, transaction_id, first),
            table_uuid,
            transaction_id,
            seq![id],
        ),
{
    let once = files_marked(files, table_uuid, transaction_id, first.push(id));
    let twice = files_marked(
        files_marked(files, table_uuid, transaction_id, first),
        table_uuid,
        transaction_id,
        seq![id],
    );
    assert(seq![id][0] == id);
    assert forall|u: Uuid| #[trigger] first.push(id).contains(u) == (first.contains(u) || seq![
        id,
    ].contains(u)) by {
        if first.contains(u) {
            let i = choose|i: int| 0 <= i < first.len() && first[i] == u;
            assert(first.push(id)[i] == u);
        }
        if seq![id].contains(u) {
            assert(first.push(id)[first.len() as int] == u);
        }
        if first.push(id).contains(u) {
            let i = choose|i: int| 0 <= i < first.push(id).len() && first.push(id)[i] == u;
            if i < first.len() {
                assert(first[i] == u);
            }
        }
    }
    assert(once =~= twice);
}

/// Files that are marked in pieces are marked.
pub proof fn pieces_mark_all(
    db: Relations,
    table_uuid: Uuid,
    transaction_id: TxnId,
    file_uuids: Seq<Uuid>,
)
    ensures
        run_all(db, delete_files(table_uuid, transaction_id, file_uuids)) == Some(
            Relations {
                files: files_marked(db.files, table_uuid, transaction_id, file_uuids),
                ..db
            },
        ),
    decreases file_uuids.len(),
{
    let n = BATCH_DELETE_FILES_CHUNK as nat;
    let f = |c: Seq<Uuid>|
        StatementView::DeleteFiles { table_uuid, transaction_id, file_uuids: c };
    let all = delete_files(table_uuid, transaction_id, file_uuids);
    if file_uuids.len() > 0 {
        let front = chunks(file_uuids.drop_last(), n);
        let few = delete_files(table_uuid, transaction_id, file_uuids.drop_last());
        assert(few == front.map_values(f));
        pieces_mark_all(db, table_uuid, transaction_id, file_uuids.drop_last());
        marked_in_two(
            db.files,
            table_uuid,
            transaction_id,
            file_uuids.drop_last(),
            file_uuids.last(),
        );
        assert(file_uuids.drop_last().push(file_uuids.last()) =~= file_uuids);
        if front.len() == 0 || front.last().len() >= n {
            assert(all.drop_last() =~= few);
            assert(all.last() == f(seq![file_uuids.last()]));
        } else {
            assert(all.drop_last() =~= few.drop_last());
            assert(few.last() == f(front.last()));
            assert(all.last() == f(front.last().push(file_uuids.last())));
            let mid = run_all(db, few.drop_last())->0;
            marked_in_two(
                mid.files,
                table_uuid,
                transaction_id,
                front.last(),
                file_uuids.last(),
            );
        }
    } else {
        assert(all =~= Seq::<StatementView>::empty());
        assert(files_marked(db.files, table_uuid, transaction_id, file_uuids) =~= db.files);
    }
}

/// Columns that are inserted in pieces are inserted, in their order.
pub proof fn pieces_add_columns(
    db: Relations,
    kind: DbKind,
    schema_uuid: Uuid,
    rows: Seq<ColumnInsertView>,
)
    ensures
        ({
            let after = run_all(db, insert_columns(kind, schema_uuid, rows));
            &&& after is Some
            &&& after->0 == (Relations { columns: after->0.columns, ..db })
            &&& columns_in(after->0.columns, schema_uuid) == columns_in(db.columns, schema_uuid)
                + rows
            &&& forall|u: Uuid|
                u != schema_uuid ==> #[trigger] columns_in(after->0.columns, u) == columns_in(
                    db.columns,
                    u,
                )
        }),
    decreases rows.len(),
{
    let n = columns_chunk(kind) as nat;
    let f = |c: Seq<ColumnInsertView>| StatementView::InsertColumns { schema_uuid, rows: c };
    let all = insert_columns(kind, schema_uuid, rows);
    if rows.len() > 0 {
        let front = chunks(rows.drop_last(), n);
        let few = insert_columns(kind, schema_uuid, rows.drop_last());
        assert(few == front.map_values(f));
        pieces_add_columns(db, kind, schema_uuid, rows.drop_last());
        let before = columns_in(db.columns, schema_uuid);
        assert(before + rows.drop_last() + seq![rows.last()] =~= before + rows);
        if front.len() == 0 || front.last().len() >= n {
            assert(all.drop_last() =~= few);
            assert(all.last() == f(seq![rows.last()]));
            let b = run_all(db, few)->0;
            let a = run(b, all.last())->0;
            assert(run_all(db, all) == Some(a));
            assert forall|u: Uuid| u != schema_uuid implies #[trigger] columns_in(a.columns, u)
                == columns_in(db.columns, u) by {
                assert(columns_in(b.columns, u) == columns_in(db.columns, u));
            }
        } else {
            assert(all.drop_last() =~= few.drop_last());
            assert(few.last() == f(front.last()));
            assert(all.last() == f(front.last().push(rows.last())));
            let mid = run_all(db, few.drop_last())->0;
            let kept = columns_in(mid.columns, schema_uuid);
            assert(kept + front.last().push(rows.last()) =~= (kept + front.last()) + seq![
                rows.last(),
            ]);
            let b = run(mid, few.last())->0;
            let a = run(mid, all.last())->0;
            assert(run_all(db, few) == Some(b));
            assert(run_all(db, all) == Some(a));
            assert(columns_in(b.columns, schema_uuid) == kept + front.last());
            assert(columns_in(a.columns, schema_uuid) == kept + front.last().push(rows.last()));
            assert forall|u: Uuid| u != schema_uuid implies #[trigger] columns_in(a.columns, u)
                == columns_in(db.columns, u) by {
                assert(columns_in(b.columns, u) == columns_in(mid.columns, u));
            }
        }
    } else {
        assert(all =~= Seq::<StatementView>::empty());
        assert(columns_in(db.columns, schema_uuid) + rows =~= columns_in(db.columns, schema_uuid));
    }
}

} // verus!
