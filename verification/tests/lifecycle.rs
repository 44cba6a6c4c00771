//! Tables from creation to difference, on a small database in memory.

use arrow::datatypes::{DataType, TimeUnit};
use planar::catalog::commit::{
    draw_ids, open_commit, plan_commit, CommitPlan, CommitRequest, CommitVerdict,
};
use planar::catalog::create::{
    check_dropped, collect_tables, current_transaction, draw_table_ids, plan_create_table,
    CreateRequest,
};
use planar::catalog::database::DbKind;
use planar::catalog::delta::diff_views;
use planar::catalog::events::{open_events, read_events, EventRows, EventTableRow};
use planar::catalog::evolution::{CurrentColumnRow, CurrentSchema};
use planar::catalog::limits::{MAX_COLUMNS_PER_SCHEMA, MAX_FILES_PER_QUERY, MAX_TABLES_PER_LIST};
use planar::catalog::read::{open_read, read_view, ReadRows};
use planar::catalog::rows::{ColumnRow, FileRow, SchemaRow, StatsRow, TableRow, Verdict};
use planar::catalog::schema::File;
use planar::catalog::statements::{ColumnInsert, FileInsert, Statement};
use planar::catalog::{
    encode_data_type, CatalogError, ColumnSpec, FileSpec, Mutation, MutationBuilder, MutationOp,
    PropertyKey, ProtocolVersions, SchemaSpec, TableDelta, TableHandle, TableIdent,
    TableProperties, TableView, TxnEvent, TxnFileChangeKind, TxnRangeCursor,
};
use planar::ids::Uuid;
use planar::storage::Format;
use planar::time::Timestamp;

struct TableRecord {
    uuid: Uuid,
    name: String,
    namespace: String,
    properties: String,
    schema: Option<Uuid>,
    transaction: Option<Uuid>,
    min_reader_version: i32,
    min_writer_version: i32,
}

struct SchemaRecord {
    uuid: Uuid,
    table: Uuid,
    version: i32,
    valid_from: Uuid,
    valid_to: Option<Uuid>,
    created_at: Timestamp,
}

struct FileRecord {
    table: Uuid,
    added: Uuid,
    removed: Option<Uuid>,
    insert: FileInsert,
}

#[derive(Default)]
struct Db {
    tables: Vec<TableRecord>,
    transactions: Vec<(Uuid, Uuid, Option<Uuid>)>,
    properties: Vec<(Uuid, Uuid, String)>,
    schemas: Vec<SchemaRecord>,
    columns: Vec<(Uuid, ColumnInsert)>,
    files: Vec<FileRecord>,
}

fn now() -> Timestamp {
    Timestamp::new(1_770_000_000, 5).unwrap()
}

fn bytes(u: Uuid) -> Vec<u8> {
    u.as_u128().to_be_bytes().to_vec()
}

fn txn(n: u128) -> Uuid {
    Uuid::from_u128(0x0190_0000_0000_7000_8000_0000_0000_0000 + n)
}

fn json(text: &str) -> serde_json::Value {
    serde_json::from_str(text).expect("valid json")
}

fn properties(text: &str) -> TableProperties {
    TableProperties::from_json(json(text)).expect("an object")
}

impl Db {
    fn run(&mut self, statements: Vec<Statement>) {
        for statement in statements {
            match statement {
                Statement::InsertTable {
                    table_uuid,
                    name,
                    namespace,
                    properties,
                    min_reader_version,
                    min_writer_version,
                    ..
                } => self.tables.push(TableRecord {
                    uuid: table_uuid,
                    name,
                    namespace,
                    properties,
                    schema: None,
                    transaction: None,
                    min_reader_version,
                    min_writer_version,
                }),
                Statement::InsertTransaction { transaction_id, table_uuid, parent, .. } => {
                    self.transactions.push((transaction_id, table_uuid, parent))
                }
                Statement::InsertProperties { transaction_id, table_uuid, properties } => {
                    self.properties.push((transaction_id, table_uuid, properties))
                }
                Statement::InsertSchema {
                    schema_uuid,
                    table_uuid,
                    schema_version,
                    valid_from,
                    created_at,
                } => self.schemas.push(SchemaRecord {
                    uuid: schema_uuid,
                    table: table_uuid,
                    version: schema_version,
                    valid_from,
                    valid_to: None,
                    created_at,
                }),
                Statement::CloseSchema { schema_uuid, valid_to } => {
                    for schema in self.schemas.iter_mut().filter(|s| s.uuid == schema_uuid) {
                        schema.valid_to = Some(valid_to);
                    }
                }
                Statement::InsertColumns { schema_uuid, rows } => {
                    for row in rows {
                        self.columns.push((schema_uuid, row));
                    }
                }
                Statement::InsertFiles { table_uuid, transaction_id, rows } => {
                    for insert in rows {
                        self.files.push(FileRecord {
                            table: table_uuid,
                            added: transaction_id,
                            removed: None,
                            insert,
                        });
                    }
                }
                Statement::DeleteFiles { table_uuid, transaction_id, file_uuids } => {
                    for file in self.files.iter_mut() {
                        if file.table == table_uuid
                            && file.removed.is_none()
                            && file_uuids.contains(&file.insert.file_uuid)
                        {
                            file.removed = Some(transaction_id);
                        }
                    }
                }
                Statement::SetHead { table_uuid, schema_uuid, transaction_id } => {
                    for table in self.tables.iter_mut().filter(|t| t.uuid == table_uuid) {
                        table.schema = Some(schema_uuid);
                        table.transaction = Some(transaction_id);
                    }
                }
                Statement::UpdateTable { table_uuid, transaction_id, schema_uuid, properties } => {
                    for table in self.tables.iter_mut().filter(|t| t.uuid == table_uuid) {
                        table.transaction = Some(transaction_id);
                        table.schema = schema_uuid;
                        table.properties = properties.clone();
                    }
                }
            }
        }
    }

    fn table(&self, ident: &TableIdent) -> Option<&TableRecord> {
        self.tables.iter().find(|t| t.namespace == ident.namespace && t.name == ident.name)
    }

    fn table_row(&self, ident: &TableIdent) -> Option<TableRow> {
        self.table(ident).map(|t| TableRow {
            table_uuid: bytes(t.uuid),
            current_schema_uuid: t.schema.map(bytes),
            current_transaction_id: t.transaction.map(bytes),
            properties: Some(t.properties.clone()),
            min_reader_version: t.min_reader_version,
            min_writer_version: t.min_writer_version,
        })
    }

    fn schema_row(&self, schema: &SchemaRecord) -> SchemaRow {
        SchemaRow {
            schema_uuid: bytes(schema.uuid),
            table_uuid: bytes(schema.table),
            schema_version: schema.version,
            valid_from_transaction_id: bytes(schema.valid_from),
            valid_to_transaction_id: schema.valid_to.map(bytes),
            created_at: schema.created_at,
        }
    }

    fn column_rows(&self, schema: Uuid) -> Vec<ColumnRow> {
        let mut rows: Vec<ColumnRow> = self
            .columns
            .iter()
            .filter(|(s, _)| *s == schema)
            .map(|(s, c)| ColumnRow {
                column_uuid: bytes(c.column_uuid),
                schema_uuid: bytes(*s),
                column_name: c.name.clone(),
                column_type: c.encoded_type.clone(),
                ordinal_position: c.ordinal_position,
                is_nullable: c.is_nullable,
            })
            .collect();
        rows.sort_by_key(|c| c.ordinal_position);
        rows
    }

    fn file_row(&self, f: &FileRecord) -> FileRow {
        FileRow {
            file_uuid: bytes(f.insert.file_uuid),
            table_uuid: bytes(f.table),
            file_format: f.insert.file_format.as_str().to_string(),
            file_path: f.insert.file_path.clone(),
            record_count: f.insert.record_count,
            file_size_bytes: f.insert.file_size_bytes,
            added_in_transaction_id: bytes(f.added),
            removed_in_transaction_id: f.removed.map(bytes),
            partition_values: f.insert.partition_values.clone(),
            format_options: f.insert.format_options.clone(),
        }
    }

    fn properties_at(&self, table: Uuid, at: u128) -> Option<String> {
        self.properties
            .iter()
            .filter(|(id, t, _)| *t == table && id.as_u128() <= at)
            .max_by_key(|(id, _, _)| id.as_u128())
            .map(|(_, _, text)| text.clone())
    }

    fn drop_table(&mut self, ident: &TableIdent) -> Result<(), CatalogError> {
        let gone: Vec<Uuid> = self
            .tables
            .iter()
            .filter(|t| t.namespace == ident.namespace && t.name == ident.name)
            .map(|t| t.uuid)
            .collect();
        self.tables.retain(|t| !gone.contains(&t.uuid));
        self.transactions.retain(|(_, t, _)| !gone.contains(t));
        self.properties.retain(|(_, t, _)| !gone.contains(t));
        self.files.retain(|f| !gone.contains(&f.table));
        let schemas: Vec<Uuid> =
            self.schemas.iter().filter(|s| gone.contains(&s.table)).map(|s| s.uuid).collect();
        self.schemas.retain(|s| !gone.contains(&s.table));
        self.columns.retain(|(s, _)| !schemas.contains(s));
        check_dropped(ident, gone.len() as u64)
    }

    fn current_schema(&self, schema: Uuid) -> CurrentSchema {
        let record = self.schemas.iter().find(|s| s.uuid == schema).expect("a schema");
        CurrentSchema {
            schema_version: record.version,
            columns: self
                .column_rows(schema)
                .into_iter()
                .map(|c| CurrentColumnRow {
                    column_name: c.column_name,
                    column_type: c.column_type,
                    is_nullable: c.is_nullable,
                })
                .collect(),
        }
    }

    fn create(
        &mut self,
        protocol: ProtocolVersions,
        ident: &TableIdent,
        schema: &SchemaSpec,
        properties: Option<&TableProperties>,
        transaction_id: Uuid,
    ) -> Result<(), CatalogError> {
        let ids = draw_table_ids(schema);
        let request = CreateRequest {
            db: DbKind::Sqlite,
            protocol,
            ident,
            location: "memory://test",
            schema,
            properties,
            transaction_id,
            created_at: now(),
            ids: &ids,
        };
        match plan_create_table(&request, self.table(ident).is_some()) {
            Verdict::Done(statements) => {
                self.run(statements);
                Ok(())
            }
            Verdict::Refused(e) => Err(e),
            Verdict::Panics => panic!("the type cannot be stored"),
        }
    }

    fn plan(
        &self,
        ident: &TableIdent,
        base: Uuid,
        mutation: &Mutation,
        transaction_id: Uuid,
    ) -> Result<CommitPlan, CatalogError> {
        let ids = draw_ids(mutation);
        let request = CommitRequest {
            db: DbKind::Postgres,
            protocol: ProtocolVersions::default(),
            ident,
            base_transaction_id: base,
            mutation,
            transaction_id,
            timestamp: now(),
            ids: &ids,
        };
        let row = self.table_row(ident);
        match plan_commit(&request, &row, None) {
            CommitVerdict::Planned(plan) => Ok(plan),
            CommitVerdict::Refused(e) => Err(e),
            CommitVerdict::Panics => panic!("the commit cannot be planned"),
            CommitVerdict::NeedsSchema(uuid) => {
                let schema = self.current_schema(uuid);
                match plan_commit(&request, &row, Some(&schema)) {
                    CommitVerdict::Planned(plan) => Ok(plan),
                    CommitVerdict::Refused(e) => Err(e),
                    _ => panic!("the commit cannot be planned"),
                }
            }
        }
    }

    fn commit(
        &mut self,
        ident: &TableIdent,
        base: Uuid,
        mutation: Mutation,
        transaction_id: Uuid,
    ) -> Result<(), CatalogError> {
        let plan = self.plan(ident, base, &mutation, transaction_id)?;
        assert_eq!(plan.transaction_id, transaction_id);
        self.run(plan.statements);
        Ok(())
    }

    fn read(&self, ident: &TableIdent, at: Option<Uuid>) -> Result<TableView, CatalogError> {
        let base = open_read(&ProtocolVersions::default(), ident, self.table_row(ident), at)?;
        let at = base.transaction_id.as_u128();
        let schema = self.schemas.iter().find(|s| {
            s.table == base.table_uuid
                && s.valid_from.as_u128() <= at
                && s.valid_to.map_or(true, |t| t.as_u128() > at)
        });
        let rows = ReadRows {
            schema: schema.map(|s| self.schema_row(s)),
            columns: schema.map_or(Vec::new(), |s| self.column_rows(s.uuid)),
            properties: self.properties_at(base.table_uuid, at),
            files: self
                .files
                .iter()
                .filter(|f| {
                    f.table == base.table_uuid
                        && f.added.as_u128() <= at
                        && f.removed.map_or(true, |t| t.as_u128() > at)
                })
                .map(|f| self.file_row(f))
                .collect(),
            stats: None,
        };
        match read_view(ident, base, rows) {
            Verdict::Done(view) => Ok(view),
            Verdict::Refused(e) => Err(e),
            Verdict::Panics => panic!("a stored type cannot be decoded"),
        }
    }

    fn events(
        &self,
        ident: &TableIdent,
        range: TxnRangeCursor,
    ) -> Result<Vec<TxnEvent>, CatalogError> {
        let row = self.table(ident).map(|t| EventTableRow {
            table_uuid: bytes(t.uuid),
            current_transaction_id: t.transaction.map(bytes),
        });
        let table = open_events(ident, &row, range)?;
        let within = |id: Uuid| {
            range.from_exclusive.map_or(true, |f| id.as_u128() > f.as_u128())
                && id.as_u128() <= range.to_inclusive.as_u128()
        };
        let mut ids: Vec<Uuid> = self
            .transactions
            .iter()
            .filter(|(id, t, _)| *t == table && within(*id))
            .map(|(id, _, _)| *id)
            .collect();
        ids.sort_by_key(|id| id.as_u128());
        let rows = EventRows {
            transactions: ids.into_iter().map(bytes).collect(),
            added: self
                .files
                .iter()
                .filter(|f| f.table == table && within(f.added))
                .map(|f| self.file_row(f))
                .collect(),
            removed: self
                .files
                .iter()
                .filter(|f| f.table == table && f.removed.map_or(false, within))
                .map(|f| self.file_row(f))
                .collect(),
            schemas: self
                .schemas
                .iter()
                .filter(|s| s.table == table && within(s.valid_from))
                .map(|s| (self.schema_row(s), self.column_rows(s.uuid)))
                .collect(),
        };
        match read_events(rows) {
            Verdict::Done(events) => Ok(events),
            Verdict::Refused(e) => Err(e),
            Verdict::Panics => panic!("a stored type cannot be decoded"),
        }
    }

    fn diff(&self, ident: &TableIdent, from: Uuid, to: Uuid) -> TableDelta {
        let from_view = self.read(ident, Some(from)).expect("readable");
        let to_view = self.read(ident, Some(to)).expect("readable");
        let range = TxnRangeCursor { from_exclusive: Some(from), to_inclusive: to };
        let events = self.events(ident, range).expect("events");
        diff_views(&from_view, &to_view, &events)
    }
}

fn ident() -> TableIdent {
    TableIdent::new("ns", "events")
}

fn id_schema() -> SchemaSpec {
    SchemaSpec::new().with_column(ColumnSpec::new("id", DataType::Int32))
}

fn with_table() -> Db {
    let mut db = Db::default();
    db.create(ProtocolVersions::default(), &ident(), &id_schema(), None, txn(1)).expect("created");
    db
}

fn one(op: MutationOp) -> Mutation {
    Mutation { operations: vec![op] }
}

fn file(path: &str) -> FileSpec {
    FileSpec::new(Format::Parquet, path, 10, 1_000)
}

fn paths(files: &[File]) -> Vec<String> {
    let mut paths: Vec<String> = files.iter().map(|f| f.file_path.clone()).collect();
    paths.sort();
    paths
}

#[test]
fn a_created_table_is_there_to_be_read() {
    let mut db = Db::default();
    let schema = id_schema().with_columns(vec![ColumnSpec::new("name", DataType::Utf8).nullable()]);
    let owner = properties(r#"{"owner": "ops", "keep": [1, 2, {"days": 30}]}"#);
    db.create(ProtocolVersions::default(), &ident(), &schema, Some(&owner), txn(1)).unwrap();
    let view = db.read(&ident(), None).unwrap();
    assert_eq!(view.ident, ident());
    assert_eq!(view.transaction_id, txn(1));
    assert_eq!(view.schema.schema_version, 1);
    assert_eq!(view.schema.valid_from_transaction_id, txn(1));
    assert_eq!(view.schema.valid_to_transaction_id, None);
    assert_eq!(view.schema.created_at, now());
    let columns: Vec<(&str, &DataType, i32, bool)> = view
        .schema
        .columns
        .iter()
        .map(|c| (c.column_name.as_str(), &c.column_type, c.ordinal_position, c.is_nullable))
        .collect();
    assert_eq!(columns, vec![("id", &DataType::Int32, 1, false), ("name", &DataType::Utf8, 2, true)]);
    assert!(view.files.is_empty());
    assert!(view.properties.equals(&owner));
    assert!(view.stats.is_none());
    assert_eq!(db.transactions, vec![(txn(1), view.table_uuid, None)]);
}

#[test]
fn properties_keep_keys_of_any_name() {
    let mut db = Db::default();
    let odd = properties(r#"{"$a": 1, "$serde_json::private::RawValue": {"b": "x"}}"#);
    db.create(ProtocolVersions::default(), &ident(), &id_schema(), Some(&odd), txn(1)).unwrap();
    assert!(db.read(&ident(), None).unwrap().properties.equals(&odd));
}

#[test]
fn a_table_is_created_once() {
    let mut db = with_table();
    let err = db
        .create(ProtocolVersions::default(), &ident(), &id_schema(), None, txn(2))
        .expect_err("taken");
    assert!(matches!(&err, CatalogError::Conflict(s) if s == "table already exists: ns.events"));
    assert_eq!(err.to_string(), "conflict on table: table already exists: ns.events");
    assert_eq!(db.tables.len(), 1);
}

#[test]
fn appended_files_show_in_the_snapshot() {
    let mut db = with_table();
    let known = Uuid::from_u128(77);
    let files = vec![
        file("/data/a.parquet")
            .with_uuid(known)
            .with_partition_values(json(r#"{"date": "2026-02-12", "hour": 7}"#))
            .with_format_options(json(r#"{"compression": "zstd"}"#)),
        FileSpec::new(Format::Lance, "/data/b.lance", 20, 2_000),
    ];
    db.commit(&ident(), txn(1), one(MutationOp::AppendFiles(files)), txn(2)).unwrap();
    let view = db.read(&ident(), None).unwrap();
    assert_eq!(view.transaction_id, txn(2));
    assert_eq!(view.files.len(), 2);
    let a = view.files.iter().find(|f| f.file_uuid == known).expect("the known file");
    assert_eq!(a.file_format, "parquet");
    assert_eq!(a.file_path, "/data/a.parquet");
    assert_eq!((a.record_count, a.file_size_bytes), (10, 1_000));
    assert_eq!(a.added_in_transaction_id, txn(2));
    assert_eq!(a.removed_in_transaction_id, None);
    assert_eq!(a.partition_values, Some(json(r#"{"date": "2026-02-12", "hour": 7}"#)));
    assert_eq!(a.format_options, Some(json(r#"{"compression": "zstd"}"#)));
    let b = view.files.iter().find(|f| f.file_path == "/data/b.lance").expect("the other file");
    assert_eq!(b.file_format, "lance");
    assert!(b.file_uuid != known);
    assert_eq!(b.partition_values, None);
    assert_eq!(db.transactions[1], (txn(2), view.table_uuid, Some(txn(1))));
}

#[test]
fn the_past_stays_as_it_was() {
    let mut db = with_table();
    let a = Uuid::from_u128(10);
    db.commit(&ident(), txn(1), one(MutationOp::AppendFiles(vec![file("a").with_uuid(a)])), txn(2))
        .unwrap();
    db.commit(
        &ident(),
        txn(2),
        Mutation {
            operations: vec![
                MutationOp::DeleteFiles(vec![a]),
                MutationOp::AppendFiles(vec![file("b")]),
                MutationOp::UpdateSchema(
                    id_schema().with_column(ColumnSpec::new("note", DataType::Utf8).nullable()),
                ),
            ],
        },
        txn(5),
    )
    .unwrap();
    let first = db.read(&ident(), Some(txn(1))).unwrap();
    assert!(first.files.is_empty());
    assert_eq!(first.schema.columns.len(), 1);
    let second = db.read(&ident(), Some(txn(2))).unwrap();
    assert_eq!(paths(&second.files), vec!["a"]);
    assert_eq!(second.schema.columns.len(), 1);
    let between = db.read(&ident(), Some(txn(4))).unwrap();
    assert_eq!(paths(&between.files), vec!["a"]);
    assert_eq!(between.schema.schema_uuid, second.schema.schema_uuid);
    let last = db.read(&ident(), None).unwrap();
    assert_eq!(paths(&last.files), vec!["b"]);
    assert_eq!(last.schema.columns.len(), 2);
    assert_eq!(last.schema.schema_version, 2);
    assert_eq!(second.schema.valid_to_transaction_id, Some(txn(5)));
}

#[test]
fn a_table_is_not_read_in_the_future() {
    let db = with_table();
    let err = db.read(&ident(), Some(txn(2))).expect_err("too new");
    assert_eq!(err.to_string(), "invalid argument: requested transaction is newer than current");
    let err = db.read(&TableIdent::new("ns", "other"), None).expect_err("missing");
    assert!(matches!(err, CatalogError::NotFound(s) if s == "ns.other"));
}

#[test]
fn before_its_creation_a_table_has_no_schema() {
    let db = with_table();
    let err = db.read(&ident(), Some(txn(0))).expect_err("too old");
    assert_eq!(
        err.to_string(),
        format!("table not found: no schema for ns.events at transaction {}", txn(0).to_string())
    );
}

#[test]
fn the_second_of_two_commits_conflicts() {
    let mut db = with_table();
    let early = one(MutationOp::AppendFiles(vec![file("a")]));
    let late = one(MutationOp::AppendFiles(vec![file("b")]));
    db.commit(&ident(), txn(1), early, txn(2)).unwrap();
    let err = db.commit(&ident(), txn(1), late, txn(3)).expect_err("stale");
    assert!(matches!(&err, CatalogError::Conflict(s) if *s
        == format!(
            "base transaction {} does not match current {}",
            txn(1).to_string(),
            txn(2).to_string()
        )));
    assert_eq!(paths(&db.read(&ident(), None).unwrap().files), vec!["a"]);
}

#[test]
fn only_a_stale_base_conflicts() {
    let mut db = with_table();
    db.commit(&ident(), txn(1), one(MutationOp::AppendFiles(vec![file("a")])), txn(2)).unwrap();
    for base in [txn(0), txn(1), txn(3)] {
        let late = one(MutationOp::AppendFiles(vec![file("b")]));
        let err = db.commit(&ident(), base, late, txn(9)).expect_err("stale");
        assert!(matches!(err, CatalogError::Conflict(_)));
    }
    let narrower = SchemaSpec::new().with_column(ColumnSpec::new("id", DataType::Int16));
    for op in [
        MutationOp::UpdateSchema(narrower),
        MutationOp::AppendFiles(vec![file(" ")]),
        MutationOp::AppendFiles(vec![file("c").with_format_options(json(r#"{"no": 1}"#))]),
    ] {
        let err = db.commit(&ident(), txn(2), one(op), txn(9)).expect_err("flawed");
        assert!(!matches!(err, CatalogError::Conflict(_)));
    }
    db.commit(&ident(), txn(2), one(MutationOp::AppendFiles(vec![file("b")])), txn(9)).unwrap();
    assert_eq!(paths(&db.read(&ident(), None).unwrap().files), vec!["a", "b"]);
}

#[test]
fn each_operation_of_a_mutation_shows() {
    let mut db = with_table();
    let ids: Vec<Uuid> = (10..14).map(Uuid::from_u128).collect();
    let add = |i: usize| {
        file(&format!("f{i}"))
            .with_uuid(ids[i])
            .with_partition_values(json(&format!(r#"{{"part": {i}}}"#)))
    };
    db.commit(&ident(), txn(1), one(MutationOp::AppendFiles(vec![add(0)])), txn(2)).unwrap();
    db.commit(
        &ident(),
        txn(2),
        Mutation {
            operations: vec![
                MutationOp::AppendFiles(vec![add(1)]),
                MutationOp::UpdateSchema(id_schema()),
                MutationOp::AppendFiles(vec![add(2), add(3)]),
                MutationOp::DeleteFiles(vec![ids[2]]),
            ],
        },
        txn(3),
    )
    .unwrap();
    let view = db.read(&ident(), None).unwrap();
    assert_eq!(paths(&view.files), vec!["f0", "f1", "f3"]);
    for (i, added) in [(0, txn(2)), (1, txn(3)), (3, txn(3))] {
        let shown = view.files.iter().find(|f| f.file_uuid == ids[i]).expect("live");
        assert_eq!(shown.partition_values, Some(json(&format!(r#"{{"part": {i}}}"#))));
        assert_eq!(shown.added_in_transaction_id, added);
    }
    assert_eq!(view.schema.schema_version, 2);
    let all = TxnRangeCursor { from_exclusive: None, to_inclusive: txn(3) };
    let events = db.events(&ident(), all).unwrap();
    for event in events {
        let became_valid = db.schemas.iter().find(|s| s.valid_from == event.transaction_id);
        match event.schema_change {
            Some(change) => {
                let schema = became_valid.expect("a schema");
                assert_eq!(change.schema.schema_uuid, schema.uuid);
                assert_eq!(change.schema.columns.len(), 1);
            }
            None => assert!(became_valid.is_none()),
        }
    }
}

#[test]
fn a_commit_keeps_to_its_table() {
    let mut db = with_table();
    let other = TableIdent::new("ns", "other");
    db.create(ProtocolVersions::default(), &other, &id_schema(), None, txn(2)).unwrap();
    let a = Uuid::from_u128(10);
    db.commit(&ident(), txn(1), one(MutationOp::AppendFiles(vec![file("a").with_uuid(a)])), txn(3))
        .unwrap();
    db.commit(&other, txn(2), one(MutationOp::DeleteFiles(vec![a])), txn(4)).unwrap();
    assert_eq!(paths(&db.read(&ident(), None).unwrap().files), vec!["a"]);
    assert!(db.read(&other, None).unwrap().files.is_empty());
    assert_eq!(db.read(&ident(), None).unwrap().transaction_id, txn(3));
}

#[test]
fn what_one_mutation_adds_and_deletes_is_gone() {
    let mut db = with_table();
    let a = Uuid::from_u128(10);
    db.commit(
        &ident(),
        txn(1),
        Mutation {
            operations: vec![
                MutationOp::AppendFiles(vec![file("a").with_uuid(a), file("b")]),
                MutationOp::DeleteFiles(vec![a]),
            ],
        },
        txn(2),
    )
    .unwrap();
    assert_eq!(paths(&db.read(&ident(), None).unwrap().files), vec!["b"]);
    let delta = db.diff(&ident(), txn(1), txn(2));
    assert_eq!(paths(&delta.added_files), vec!["b"]);
    assert!(delta.removed_files.is_empty());
}

#[test]
fn properties_are_set_and_removed() {
    let mut db = with_table();
    db.commit(
        &ident(),
        txn(1),
        Mutation {
            operations: vec![
                MutationOp::SetProperties(properties(r#"{"owner": "ops", "tier": 2, "x": null}"#)),
                MutationOp::RemoveProperties(vec![
                    PropertyKey::new("tier").unwrap(),
                    PropertyKey::new("missing").unwrap(),
                ]),
            ],
        },
        txn(2),
    )
    .unwrap();
    let view = db.read(&ident(), None).unwrap();
    assert!(view.properties.equals(&properties(r#"{"owner": "ops", "x": null}"#)));
    let delta = db.diff(&ident(), txn(1), txn(2));
    assert!(delta.new_schema.is_none());
    assert!(delta.new_properties.expect("new").equals(&view.properties));
    assert!(db.read(&ident(), Some(txn(1))).unwrap().properties.equals(&properties("{}")));
    assert!(db.diff(&ident(), txn(2), txn(2)).new_properties.is_none());
}

#[test]
fn properties_stay_as_they_were_at_a_past_transaction() {
    let mut db = Db::default();
    let first = properties(r#"{"owner": "ops"}"#);
    let second = properties(r#"{"owner": "data", "tier": 2}"#);
    db.create(ProtocolVersions::default(), &ident(), &id_schema(), Some(&first), txn(1)).unwrap();
    let set = |p: &TableProperties| one(MutationOp::SetProperties(p.clone()));
    db.commit(&ident(), txn(1), set(&second), txn(4)).unwrap();
    db.commit(&ident(), txn(4), one(MutationOp::AppendFiles(vec![file("a")])), txn(5)).unwrap();
    db.commit(&ident(), txn(5), set(&first), txn(6)).unwrap();
    for (at, wanted) in [(1, &first), (3, &first), (4, &second), (5, &second), (6, &first)] {
        let view = db.read(&ident(), Some(txn(at))).unwrap();
        assert!(view.properties.equals(wanted), "at {at}");
    }
    let new = |from, to| db.diff(&ident(), txn(from), txn(to)).new_properties;
    assert!(new(1, 4).expect("new").equals(&second));
    assert!(new(5, 6).expect("new").equals(&first));
    assert!(new(4, 5).is_none());
    assert!(new(1, 6).is_none(), "set back to what they were");
}

#[test]
fn a_transaction_must_come_after_the_current_one() {
    let mut db = with_table();
    db.commit(&ident(), txn(1), one(MutationOp::AppendFiles(vec![file("a")])), txn(5)).unwrap();
    for id in [txn(5), txn(4), txn(0)] {
        let err = db
            .commit(&ident(), txn(5), one(MutationOp::AppendFiles(vec![file("b")])), id)
            .expect_err("out of order");
        assert!(matches!(&err, CatalogError::Conflict(s) if *s
            == format!(
                "transaction {} does not come after current {}",
                id.to_string(),
                txn(5).to_string()
            )));
    }
    assert_eq!(paths(&db.read(&ident(), None).unwrap().files), vec!["a"]);
    db.commit(&ident(), txn(5), one(MutationOp::AppendFiles(vec![file("b")])), txn(6)).unwrap();
    assert_eq!(paths(&db.read(&ident(), Some(txn(5))).unwrap().files), vec!["a"]);
}

#[test]
fn a_refused_mutation_leaves_nothing_behind() {
    let mut db = with_table();
    let mutation = Mutation {
        operations: vec![
            MutationOp::AppendFiles(vec![file("a")]),
            MutationOp::SetProperties(properties(r#"{"owner": "ops"}"#)),
            MutationOp::UpdateSchema(
                SchemaSpec::new().with_column(ColumnSpec::new("id", DataType::Int16)),
            ),
        ],
    };
    db.commit(&ident(), txn(1), mutation, txn(2)).expect_err("narrower");
    let view = db.read(&ident(), None).unwrap();
    assert_eq!(view.transaction_id, txn(1));
    assert!(view.files.is_empty());
    assert!(view.properties.equals(&properties("{}")));
    assert_eq!((db.transactions.len(), db.schemas.len(), db.files.len()), (1, 1, 0));
    let empty = SchemaSpec::new();
    db.create(ProtocolVersions::default(), &TableIdent::new("ns", "x"), &empty, None, txn(3))
        .expect_err("no columns");
    assert_eq!(db.tables.len(), 1);
}

#[test]
fn a_dropped_table_is_gone_and_the_others_stay() {
    let mut db = with_table();
    let other = TableIdent::new("ns", "other");
    db.create(ProtocolVersions::default(), &other, &id_schema(), None, txn(2)).unwrap();
    db.commit(&ident(), txn(1), one(MutationOp::AppendFiles(vec![file("a")])), txn(3)).unwrap();
    db.commit(&other, txn(2), one(MutationOp::AppendFiles(vec![file("b")])), txn(4)).unwrap();
    db.drop_table(&ident()).expect("dropped");
    assert!(matches!(db.read(&ident(), None), Err(CatalogError::NotFound(s)) if s == "ns.events"));
    assert!(matches!(db.drop_table(&ident()), Err(CatalogError::NotFound(s)) if s == "ns.events"));
    let view = db.read(&other, None).unwrap();
    assert_eq!(paths(&view.files), vec!["b"]);
    assert_eq!(view.schema.columns.len(), 1);
    db.create(ProtocolVersions::default(), &ident(), &id_schema(), None, txn(5)).expect("free");
    assert!(db.read(&ident(), None).unwrap().files.is_empty());
}

#[test]
fn a_schema_may_widen_and_grow() {
    let mut db = with_table();
    let wider = SchemaSpec::new()
        .with_column(ColumnSpec::new("id", DataType::Int64))
        .with_column(ColumnSpec::new("note", DataType::Utf8).nullable());
    db.commit(&ident(), txn(1), one(MutationOp::UpdateSchema(wider)), txn(2)).unwrap();
    let view = db.read(&ident(), None).unwrap();
    assert_eq!(view.schema.columns[0].column_type, DataType::Int64);
    let open: Vec<&SchemaRecord> = db.schemas.iter().filter(|s| s.valid_to.is_none()).collect();
    assert_eq!(open.len(), 1);
    assert_eq!(open[0].uuid, view.schema.schema_uuid);
    let delta = db.diff(&ident(), txn(1), txn(2));
    assert_eq!(delta.new_schema.expect("new").schema_uuid, view.schema.schema_uuid);
}

fn refused_change(new: SchemaSpec) -> String {
    let db = with_table();
    db.plan(&ident(), txn(1), &one(MutationOp::UpdateSchema(new)), txn(2))
        .expect_err("refused")
        .to_string()
}

#[test]
fn a_schema_may_not_drop_a_column() {
    let err = refused_change(
        SchemaSpec::new().with_column(ColumnSpec::new("other", DataType::Int32).nullable()),
    );
    assert_eq!(
        err,
        "invalid argument: cannot drop existing column 'id' via UpdateSchema"
    );
}

#[test]
fn a_schema_may_not_narrow_a_column() {
    let err = refused_change(SchemaSpec::new().with_column(ColumnSpec::new("id", DataType::Int16)));
    assert_eq!(
        err,
        "invalid argument: invalid schema evolution for column 'id': cannot evolve Int32 to Int16"
    );
}

#[test]
fn a_nullable_column_stays_nullable() {
    let mut db = Db::default();
    let schema = SchemaSpec::new().with_column(ColumnSpec::new("id", DataType::Int32).nullable());
    db.create(ProtocolVersions::default(), &ident(), &schema, None, txn(1)).unwrap();
    let err = db
        .plan(&ident(), txn(1), &one(MutationOp::UpdateSchema(id_schema())), txn(2))
        .expect_err("refused");
    assert_eq!(
        err.to_string(),
        "invalid argument: invalid schema evolution for column 'id': cannot change from nullable \
         to non-nullable (existing nulls would violate constraint)"
    );
}

#[test]
fn a_column_may_become_nullable() {
    let mut db = with_table();
    let nullable = SchemaSpec::new().with_column(ColumnSpec::new("id", DataType::Int32).nullable());
    db.commit(&ident(), txn(1), one(MutationOp::UpdateSchema(nullable)), txn(2)).unwrap();
    assert!(db.read(&ident(), None).unwrap().schema.columns[0].is_nullable);
}

#[test]
fn new_columns_need_not_be_nullable() {
    let mut db = with_table();
    let more = id_schema().with_column(ColumnSpec::new("must", DataType::Int32));
    db.commit(&ident(), txn(1), one(MutationOp::UpdateSchema(more)), txn(2)).unwrap();
    assert_eq!(db.read(&ident(), None).unwrap().schema.columns.len(), 2);
}

#[test]
fn a_schema_evolves_more_than_once() {
    let mut db = Db::default();
    let of = |t: DataType| SchemaSpec::new().with_column(ColumnSpec::new("v", t));
    db.create(ProtocolVersions::default(), &ident(), &of(DataType::Int8), None, txn(1)).unwrap();
    for (i, t) in [DataType::Int16, DataType::Int32, DataType::Int64].into_iter().enumerate() {
        let i = i as u128;
        db.commit(&ident(), txn(i + 1), one(MutationOp::UpdateSchema(of(t))), txn(i + 2)).unwrap();
    }
    for (i, t) in
        [DataType::Int8, DataType::Int16, DataType::Int32, DataType::Int64].into_iter().enumerate()
    {
        let view = db.read(&ident(), Some(txn(i as u128 + 1))).unwrap();
        assert_eq!(view.schema.columns[0].column_type, t);
        assert_eq!(view.schema.schema_version, i as i32 + 1);
    }
}

#[test]
fn one_mutation_gives_one_schema() {
    let db = with_table();
    let twice = Mutation {
        operations: vec![
            MutationOp::UpdateSchema(id_schema()),
            MutationOp::UpdateSchema(id_schema()),
        ],
    };
    let err = db.plan(&ident(), txn(1), &twice, txn(2)).expect_err("refused");
    assert!(err.to_string().contains("at most one UpdateSchema"));
}

#[test]
fn an_empty_mutation_is_refused() {
    let db = with_table();
    let err = db.plan(&ident(), txn(1), &Mutation::default(), txn(2)).expect_err("refused");
    assert_eq!(err.to_string(), "invalid argument: mutation has no operations");
}

#[test]
fn a_mutation_with_too_many_operations_is_refused() {
    let db = with_table();
    let operations = (0..1_001).map(|_| MutationOp::DeleteFiles(Vec::new())).collect();
    let err = db.plan(&ident(), txn(1), &Mutation { operations }, txn(2)).expect_err("refused");
    assert_eq!(
        err.to_string(),
        "limit exceeded: mutation has 1001 operations, exceeds limit of 1000"
    );
}

#[test]
fn an_operation_with_too_many_items_is_refused() {
    let db = with_table();
    let files = (0..1_001).map(|i| file(&format!("{i}"))).collect();
    let err = db
        .plan(&ident(), txn(1), &one(MutationOp::AppendFiles(files)), txn(2))
        .expect_err("refused");
    assert_eq!(err.to_string(), "limit exceeded: cannot append 1001 files, exceeds limit of 1000");
    let uuids = (0..1_001).map(Uuid::from_u128).collect();
    let err = db
        .plan(&ident(), txn(1), &one(MutationOp::DeleteFiles(uuids)), txn(2))
        .expect_err("refused");
    assert_eq!(err.to_string(), "limit exceeded: cannot delete 1001 files, exceeds limit of 1000");
    let keys = (0..101).map(|i| PropertyKey::new(&format!("k{i}")).unwrap()).collect();
    let err = db
        .plan(&ident(), txn(1), &one(MutationOp::RemoveProperties(keys)), txn(2))
        .expect_err("refused");
    assert_eq!(
        err.to_string(),
        "limit exceeded: cannot remove 101 property keys, exceeds limit of 100"
    );
}

#[test]
fn files_are_inserted_and_deleted_in_batches() {
    let db = with_table();
    let files = (0..250).map(|i| file(&format!("{i}"))).collect();
    let uuids = (0..700).map(Uuid::from_u128).collect();
    let mutation = Mutation {
        operations: vec![MutationOp::AppendFiles(files), MutationOp::DeleteFiles(uuids)],
    };
    let plan = db.plan(&ident(), txn(1), &mutation, txn(2)).unwrap();
    let sizes: Vec<usize> = plan
        .statements
        .iter()
        .filter_map(|s| match s {
            Statement::InsertFiles { rows, .. } => Some(rows.len()),
            Statement::DeleteFiles { file_uuids, .. } => Some(file_uuids.len()),
            _ => None,
        })
        .collect();
    assert_eq!(sizes, vec![100, 100, 50, 500, 200]);
    for statement in &plan.statements {
        assert!(statement.binds().len() <= 65_535);
        assert!(!statement.sql(DbKind::Postgres).is_empty());
    }
}

#[test]
fn a_wide_schema_is_inserted_in_batches() {
    let mut db = Db::default();
    let columns = (0..1_000).map(|i| ColumnSpec::new(&format!("c{i}"), DataType::Int8)).collect();
    let schema = SchemaSpec::new().with_columns(columns);
    db.create(ProtocolVersions::default(), &ident(), &schema, None, txn(1)).unwrap();
    let view = db.read(&ident(), None).unwrap();
    assert_eq!(view.schema.columns.len(), 1_000);
    assert_eq!(view.schema.columns[999].column_name, "c999");
    let wider = schema.with_column(ColumnSpec::new("one_more", DataType::Int8));
    let err = db
        .create(
            ProtocolVersions::default(),
            &TableIdent::new("ns", "wide"),
            &wider,
            None,
            txn(2),
        )
        .expect_err("too wide");
    assert!(matches!(err, CatalogError::LimitExceeded(_)));
}

#[test]
fn a_client_needs_the_protocol_of_the_table() {
    let mut db = Db::default();
    let newer = ProtocolVersions { reader: 3, writer: 4 };
    db.create(newer, &ident(), &id_schema(), None, txn(1)).unwrap();
    let row = db.table_row(&ident());
    assert!(open_read(&newer, &ident(), db.table_row(&ident()), None).is_ok());
    assert!(open_commit(&newer, &ident(), txn(1), &row).is_ok());
    let err = db.read(&ident(), None).expect_err("too old a client");
    assert!(matches!(
        err,
        CatalogError::ProtocolVersionIncompatible {
            operation: "read",
            client_version: 1,
            required_min_version: 3,
            ..
        }
    ));
    let err = open_commit(&ProtocolVersions::default(), &ident(), txn(1), &row).expect_err("too old");
    assert!(matches!(
        err,
        CatalogError::ProtocolVersionIncompatible {
            operation: "write",
            client_version: 1,
            required_min_version: 4,
            ..
        }
    ));
}

#[test]
fn events_tell_what_each_transaction_did() {
    let mut db = with_table();
    let a = Uuid::from_u128(10);
    db.commit(&ident(), txn(1), one(MutationOp::AppendFiles(vec![file("a").with_uuid(a)])), txn(2))
        .unwrap();
    db.commit(
        &ident(),
        txn(2),
        Mutation {
            operations: vec![
                MutationOp::DeleteFiles(vec![a]),
                MutationOp::AppendFiles(vec![file("b")]),
            ],
        },
        txn(3),
    )
    .unwrap();
    let wider = SchemaSpec::new().with_column(ColumnSpec::new("id", DataType::Int64));
    db.commit(&ident(), txn(3), one(MutationOp::UpdateSchema(wider)), txn(4)).unwrap();
    let all = TxnRangeCursor { from_exclusive: None, to_inclusive: txn(4) };
    let events = db.events(&ident(), all).unwrap();
    assert_eq!(
        events.iter().map(|e| e.transaction_id).collect::<Vec<_>>(),
        vec![txn(1), txn(2), txn(3), txn(4)]
    );
    let changes: Vec<Vec<(TxnFileChangeKind, &str)>> = events
        .iter()
        .map(|e| e.file_changes.iter().map(|c| (c.kind, c.file.file_path.as_str())).collect())
        .collect();
    assert_eq!(
        changes,
        vec![
            vec![],
            vec![(TxnFileChangeKind::Added, "a")],
            vec![(TxnFileChangeKind::Added, "b"), (TxnFileChangeKind::Removed, "a")],
            vec![],
        ]
    );
    let schemas: Vec<Option<i32>> =
        events.iter().map(|e| e.schema_change.as_ref().map(|c| c.schema.schema_version)).collect();
    assert_eq!(schemas, vec![Some(1), None, None, Some(2)]);
    let later = TxnRangeCursor { from_exclusive: Some(txn(2)), to_inclusive: txn(3) };
    assert_eq!(db.events(&ident(), later).unwrap().len(), 1);
}

#[test]
fn a_range_of_events_has_an_order() {
    let db = with_table();
    let beyond = TxnRangeCursor { from_exclusive: None, to_inclusive: txn(2) };
    let err = db.events(&ident(), beyond).expect_err("too new");
    assert_eq!(err.to_string(), "invalid argument: requested transaction is newer than current");
    let turned = TxnRangeCursor { from_exclusive: Some(txn(1)), to_inclusive: txn(0) };
    let err = db.events(&ident(), turned).expect_err("turned round");
    assert_eq!(err.to_string(), "invalid argument: from transaction must be <= to transaction");
    let err = db
        .events(&TableIdent::new("a", "b"), beyond)
        .expect_err("missing");
    assert!(matches!(err, CatalogError::NotFound(s) if s == "a.b"));
}

#[test]
fn a_difference_takes_the_past_to_the_present() {
    let mut db = with_table();
    let ids: Vec<Uuid> = (10..14).map(Uuid::from_u128).collect();
    let add = |i: usize| file(&format!("f{i}")).with_uuid(ids[i]);
    db.commit(&ident(), txn(1), one(MutationOp::AppendFiles(vec![add(0), add(1)])), txn(2)).unwrap();
    db.commit(&ident(), txn(2), one(MutationOp::AppendFiles(vec![add(2)])), txn(3)).unwrap();
    db.commit(&ident(), txn(3), one(MutationOp::DeleteFiles(vec![ids[0], ids[2]])), txn(4)).unwrap();
    db.commit(&ident(), txn(4), one(MutationOp::AppendFiles(vec![add(3)])), txn(5)).unwrap();
    for from in 1..=5u128 {
        for to in from..=5u128 {
            let delta = db.diff(&ident(), txn(from), txn(to));
            assert_eq!((delta.from_transaction_id, delta.to_transaction_id), (txn(from), txn(to)));
            let mut files = paths(&db.read(&ident(), Some(txn(from))).unwrap().files);
            let removed = paths(&delta.removed_files);
            assert!(removed.iter().all(|p| files.contains(p)));
            files.retain(|p| !removed.contains(p));
            let added = paths(&delta.added_files);
            assert!(added.iter().all(|p| !files.contains(p)));
            files.extend(added);
            files.sort();
            assert_eq!(files, paths(&db.read(&ident(), Some(txn(to))).unwrap().files));
        }
    }
}

#[test]
fn a_handle_writes_on_the_transaction_it_is_told() {
    let handle = TableHandle::new(ident());
    assert_eq!(handle.ident(), &ident());
    let builder = handle.write(None, txn(7));
    assert_eq!(builder.base_transaction_id, txn(7));
    let builder = handle.write(Some(txn(3)), txn(7));
    assert_eq!(builder.base_transaction_id, txn(3));
    assert_eq!(builder.ident, ident());
}

#[test]
fn a_builder_keeps_the_order_of_its_operations() {
    let builder = MutationBuilder::new(ident(), txn(1))
        .append_file(file("a"))
        .append_files(vec![file("b"), file("c")])
        .delete_files(vec![Uuid::from_u128(1)])
        .update_schema(id_schema())
        .set_properties(TableProperties::new())
        .remove_properties(vec![PropertyKey::new("k").unwrap()]);
    let ops = &builder.mutation.operations;
    assert_eq!(ops.len(), 6);
    assert!(matches!(&ops[0], MutationOp::AppendFiles(f) if f.len() == 1));
    assert!(matches!(&ops[1], MutationOp::AppendFiles(f) if f.len() == 2));
    assert!(matches!(&ops[2], MutationOp::DeleteFiles(u) if u.len() == 1));
    assert!(matches!(&ops[3], MutationOp::UpdateSchema(_)));
    assert!(matches!(&ops[4], MutationOp::SetProperties(_)));
    assert!(matches!(&ops[5], MutationOp::RemoveProperties(_)));
}

#[test]
fn tables_are_listed_up_to_the_limit() {
    let rows: Vec<(String, String)> =
        (0..10_000).map(|i| ("ns".to_string(), format!("t{i}"))).collect();
    let tables = collect_tables(rows.clone()).unwrap();
    assert_eq!(tables.len(), 10_000);
    assert_eq!(tables[42], TableIdent::new("ns", "t42"));
    let mut more = rows;
    more.push(("ns".to_string(), "more".to_string()));
    let err = collect_tables(more).expect_err("too many");
    assert_eq!(err.to_string(), "limit exceeded: table count exceeds limit of 10000");
}

#[test]
fn dropping_tells_whether_a_table_was_there() {
    assert!(check_dropped(&ident(), 1).is_ok());
    let err = check_dropped(&ident(), 0).expect_err("nothing dropped");
    assert_eq!(err.to_string(), "table not found: ns.events");
}

#[test]
fn the_current_transaction_is_read_from_its_row() {
    assert_eq!(current_transaction(&ident(), &Some(Some(bytes(txn(9))))).unwrap(), txn(9));
    let err = current_transaction(&ident(), &None).expect_err("missing");
    assert_eq!(err.to_string(), "table not found: ns.events");
    let err = current_transaction(&ident(), &Some(None)).expect_err("none yet");
    assert_eq!(err.to_string(), "invalid argument: table has no current transaction");
    let err = current_transaction(&ident(), &Some(Some(vec![1, 2, 3]))).expect_err("no uuid");
    assert_eq!(
        err.to_string(),
        "invalid argument: invalid uuid: invalid length: expected 16 bytes, found 3"
    );
}

fn file_row(i: u128) -> FileRow {
    FileRow {
        file_uuid: bytes(Uuid::from_u128(i)),
        table_uuid: bytes(Uuid::from_u128(1)),
        file_format: "parquet".to_string(),
        file_path: format!("f{i}"),
        record_count: 1,
        file_size_bytes: 1,
        added_in_transaction_id: bytes(txn(1)),
        removed_in_transaction_id: None,
        partition_values: None,
        format_options: None,
    }
}

fn event_rows() -> EventRows {
    EventRows {
        transactions: vec![bytes(txn(1))],
        added: Vec::new(),
        removed: Vec::new(),
        schemas: Vec::new(),
    }
}

fn refused_events(rows: EventRows) -> String {
    match read_events(rows) {
        Verdict::Refused(e) => e.to_string(),
        other => panic!("{other:?}"),
    }
}

#[test]
fn too_many_events_are_refused() {
    let rows = EventRows { transactions: (0..50_001).map(|i| bytes(txn(i))).collect(), ..event_rows() };
    assert_eq!(
        refused_events(rows),
        "limit exceeded: transaction scan exceeds limit of 50000"
    );
    let rows = EventRows { added: (0..10_001).map(file_row).collect(), ..event_rows() };
    assert_eq!(
        refused_events(rows),
        "limit exceeded: added file events exceed limit of 10000"
    );
    let rows = EventRows { removed: (0..10_001).map(file_row).collect(), ..event_rows() };
    assert_eq!(
        refused_events(rows),
        "limit exceeded: removed file events exceed limit of 10000"
    );
}

#[test]
fn too_many_schema_changes_are_refused() {
    let db = with_table();
    let schema = &db.schemas[0];
    let schemas = (0..1_001).map(|_| (db.schema_row(schema), Vec::new())).collect();
    let rows = EventRows { schemas, ..event_rows() };
    assert_eq!(
        refused_events(rows),
        "limit exceeded: schema change events exceed limit of 1000"
    );
}

#[test]
fn a_removed_file_needs_its_transaction() {
    let rows = EventRows { removed: vec![file_row(5)], ..event_rows() };
    assert_eq!(refused_events(rows), "invalid argument: missing removed transaction id");
}

#[test]
fn bad_json_in_a_file_row_is_told() {
    let mut row = file_row(5);
    row.partition_values = Some("{".to_string());
    let rows = EventRows { added: vec![row], ..event_rows() };
    assert!(refused_events(rows).starts_with("invalid argument: invalid json: "));
}

#[test]
fn too_many_files_or_columns_are_refused() {
    let db = with_table();
    let base = || open_read(&ProtocolVersions::default(), &ident(), db.table_row(&ident()), None).unwrap();
    let schema = &db.schemas[0];
    let rows = ReadRows {
        schema: Some(db.schema_row(schema)),
        columns: db.column_rows(schema.uuid),
        properties: None,
        files: (0..10_001).map(file_row).collect(),
        stats: None,
    };
    match read_view(&ident(), base(), rows) {
        Verdict::Refused(e) => {
            assert_eq!(e.to_string(), "limit exceeded: file count exceeds limit of 10000")
        }
        other => panic!("{other:?}"),
    }
    let mut columns = Vec::new();
    for _ in 0..1_001 {
        columns.extend(db.column_rows(schema.uuid));
    }
    let rows = ReadRows {
        schema: Some(db.schema_row(schema)),
        columns,
        properties: None,
        files: Vec::new(),
        stats: None,
    };
    match read_view(&ident(), base(), rows) {
        Verdict::Refused(e) => {
            assert_eq!(e.to_string(), "limit exceeded: column count exceeds limit of 1000")
        }
        other => panic!("{other:?}"),
    }
}

#[test]
fn statistics_are_read_with_the_snapshot() {
    let db = with_table();
    let base = open_read(&ProtocolVersions::default(), &ident(), db.table_row(&ident()), None).unwrap();
    let schema = &db.schemas[0];
    let rows = ReadRows {
        schema: Some(db.schema_row(schema)),
        columns: db.column_rows(schema.uuid),
        properties: None,
        files: Vec::new(),
        stats: Some(StatsRow {
            table_uuid: bytes(schema.table),
            transaction_id: bytes(txn(1)),
            record_count: 12,
            file_size_bytes: 34,
            file_count: 5,
            last_updated: now(),
        }),
    };
    match read_view(&ident(), base, rows) {
        Verdict::Done(view) => {
            let stats = view.stats.expect("statistics");
            assert_eq!(stats.table_uuid, schema.table);
            assert_eq!(stats.transaction_id, txn(1));
            assert_eq!((stats.record_count, stats.file_size_bytes, stats.file_count), (12, 34, 5));
            assert_eq!(stats.last_updated, now());
        }
        other => panic!("{other:?}"),
    }
}

#[test]
fn a_stored_type_that_is_no_type_is_refused() {
    let db = with_table();
    let base = open_read(&ProtocolVersions::default(), &ident(), db.table_row(&ident()), None).unwrap();
    let schema = &db.schemas[0];
    let mut columns = db.column_rows(schema.uuid);
    columns[0].column_type = vec![0xff, 0xff, 0xff, 0xff, 0, 0];
    let rows = ReadRows {
        schema: Some(db.schema_row(schema)),
        columns,
        properties: None,
        files: Vec::new(),
        stats: None,
    };
    match read_view(&ident(), base, rows) {
        Verdict::Refused(e) => assert!(e.to_string().contains("arrow error"), "{}", e.to_string()),
        other => panic!("{other:?}"),
    }
}

#[test]
fn a_dictionary_type_cannot_be_stored() {
    let schema = SchemaSpec::new().with_column(ColumnSpec::new(
        "d",
        DataType::Dictionary(Box::new(DataType::Int32), Box::new(DataType::Utf8)),
    ));
    let ids = draw_table_ids(&schema);
    let request = CreateRequest {
        db: DbKind::Sqlite,
        protocol: ProtocolVersions::default(),
        ident: &ident(),
        location: "memory://test",
        schema: &schema,
        properties: None,
        transaction_id: txn(1),
        created_at: now(),
        ids: &ids,
    };
    assert!(matches!(plan_create_table(&request, false), Verdict::Panics));
}

#[test]
fn json_that_is_too_large_is_refused() {
    let db = with_table();
    let mut large = TableProperties::new();
    large.insert("k".to_string(), serde_json::Value::String("x".repeat(1_048_576)));
    let err = db
        .plan(&ident(), txn(1), &one(MutationOp::SetProperties(large)), txn(2))
        .expect_err("too large");
    assert_eq!(
        err.to_string(),
        "limit exceeded: JSON size 1048584 bytes exceeds limit of 1048576 bytes"
    );
}

fn created(name: &str, schema: SchemaSpec) -> (Db, TableIdent) {
    let ident = TableIdent::new("test", name);
    let mut db = Db::default();
    db.create(ProtocolVersions::default(), &ident, &schema, None, txn(1)).expect("created");
    (db, ident)
}

fn head(db: &Db, ident: &TableIdent) -> Uuid {
    db.table(ident).expect("a table").transaction.expect("a transaction")
}

fn commit_on_head(db: &mut Db, ident: &TableIdent, op: MutationOp) -> Result<(), CatalogError> {
    let base = head(db, ident);
    db.commit(ident, base, one(op), Uuid::from_u128(base.as_u128() + 1))
}

fn update_schema(db: &mut Db, ident: &TableIdent, schema: SchemaSpec) -> Result<(), CatalogError> {
    commit_on_head(db, ident, MutationOp::UpdateSchema(schema))
}

fn single(name: &str, column_type: DataType) -> SchemaSpec {
    SchemaSpec::new().with_column(ColumnSpec::new(name, column_type))
}

fn timestamp(unit: TimeUnit, zone: &str) -> DataType {
    DataType::Timestamp(unit, Some(zone.into()))
}

#[test]
fn test_safe_type_widening() {
    let with_id = |id: DataType| {
        SchemaSpec::new()
            .with_column(ColumnSpec::new("id", id))
            .with_column(ColumnSpec::new("name", DataType::Utf8))
    };
    let (mut db, ident) = created("users", with_id(DataType::Int32));
    let file = FileSpec::new(Format::Parquet, "/test/users/part-0.parquet", 100, 1024);
    commit_on_head(&mut db, &ident, MutationOp::AppendFiles(vec![file])).unwrap();

    let view_before = db.read(&ident, None).unwrap();
    assert_eq!(view_before.schema.columns[0].column_type, DataType::Int32);

    update_schema(&mut db, &ident, with_id(DataType::Int64)).expect("Int32 -> Int64");
    let view_after = db.read(&ident, None).unwrap();
    assert_eq!(view_after.schema.columns[0].column_type, DataType::Int64);
    assert_eq!(view_after.schema.schema_version, 2);

    let view_at_old_txn = db.read(&ident, Some(view_before.transaction_id)).unwrap();
    assert_eq!(view_at_old_txn.schema.columns[0].column_type, DataType::Int32);
    assert_eq!(view_at_old_txn.schema.schema_version, 1);
}

#[test]
fn test_unsafe_type_narrowing_rejected() {
    let (mut db, ident) = created("metrics", single("value", DataType::Int64));
    let file = FileSpec::new(Format::Parquet, "/test/metrics/part-0.parquet", 100, 1024);
    commit_on_head(&mut db, &ident, MutationOp::AppendFiles(vec![file])).unwrap();

    let error = update_schema(&mut db, &ident, single("value", DataType::Int32))
        .expect_err("Int64 -> Int32 should be rejected")
        .to_string();
    assert!(error.contains("cannot evolve"));
    assert!(error.contains("value"));
}

#[test]
fn test_timestamp_precision_increase() {
    let (mut db, ident) =
        created("events", single("timestamp", timestamp(TimeUnit::Millisecond, "UTC")));
    let finer = single("timestamp", timestamp(TimeUnit::Microsecond, "UTC"));
    update_schema(&mut db, &ident, finer).expect("a finer unit should be allowed");
    let view = db.read(&ident, None).unwrap();
    match &view.schema.columns[0].column_type {
        DataType::Timestamp(unit, _) => assert_eq!(*unit, TimeUnit::Microsecond),
        other => panic!("{other:?}"),
    }
}

#[test]
fn test_timestamp_precision_decrease_rejected() {
    let (mut db, ident) =
        created("events", single("timestamp", timestamp(TimeUnit::Microsecond, "UTC")));
    let coarser = single("timestamp", timestamp(TimeUnit::Millisecond, "UTC"));
    assert!(update_schema(&mut db, &ident, coarser).is_err());
}

#[test]
fn test_timestamp_timezone_change_rejected() {
    let (mut db, ident) =
        created("events", single("timestamp", timestamp(TimeUnit::Microsecond, "UTC")));
    let elsewhere = single("timestamp", timestamp(TimeUnit::Microsecond, "America/New_York"));
    assert!(update_schema(&mut db, &ident, elsewhere).is_err());
}

#[test]
fn test_making_column_nullable() {
    let name = || ColumnSpec::new("name", DataType::Utf8);
    let (mut db, ident) =
        created("products", single("id", DataType::Int64).with_column(name()));
    assert!(!db.read(&ident, None).unwrap().schema.columns[0].is_nullable);
    let nullable = SchemaSpec::new()
        .with_column(ColumnSpec::new("id", DataType::Int64).nullable())
        .with_column(name());
    update_schema(&mut db, &ident, nullable).expect("nullable should be allowed");
    assert!(db.read(&ident, None).unwrap().schema.columns[0].is_nullable);
}

#[test]
fn test_making_column_non_nullable_rejected() {
    let name = || ColumnSpec::new("name", DataType::Utf8);
    let nullable = SchemaSpec::new()
        .with_column(ColumnSpec::new("id", DataType::Int64).nullable())
        .with_column(name());
    let (mut db, ident) = created("products", nullable);
    let strict = single("id", DataType::Int64).with_column(name());
    let error = update_schema(&mut db, &ident, strict)
        .expect_err("non-nullable should be rejected")
        .to_string();
    assert!(error.contains("nullable") || error.contains("non-nullable"));
}

#[test]
fn test_adding_new_columns() {
    let (mut db, ident) = created("users", single("id", DataType::Int64));
    assert_eq!(db.read(&ident, None).unwrap().schema.columns.len(), 1);
    let more = single("id", DataType::Int64)
        .with_column(ColumnSpec::new("email", DataType::Utf8).nullable())
        .with_column(ColumnSpec::new("age", DataType::Int32).nullable());
    update_schema(&mut db, &ident, more).expect("new columns should be allowed");
    let view_after = db.read(&ident, None).unwrap();
    assert_eq!(view_after.schema.columns.len(), 3);
    assert_eq!(view_after.schema.columns[1].column_name, "email");
    assert_eq!(view_after.schema.columns[2].column_name, "age");
}

#[test]
fn test_incompatible_type_change_rejected() {
    let (mut db, ident) = created("data", single("value", DataType::Utf8));
    assert!(update_schema(&mut db, &ident, single("value", DataType::Int64)).is_err());
}

#[test]
fn test_float_widening() {
    let (mut db, ident) = created("measurements", single("temperature", DataType::Float32));
    update_schema(&mut db, &ident, single("temperature", DataType::Float64))
        .expect("Float32 -> Float64 should be allowed");
    let view = db.read(&ident, None).unwrap();
    assert_eq!(view.schema.columns[0].column_type, DataType::Float64);
}

#[test]
fn test_multiple_schema_evolutions() {
    let (mut db, ident) = created("evolving", single("id", DataType::Int8));
    let v1 = db.read(&ident, None).unwrap();
    assert_eq!(v1.schema.schema_version, 1);
    assert_eq!(v1.schema.columns[0].column_type, DataType::Int8);

    update_schema(&mut db, &ident, single("id", DataType::Int16)).unwrap();
    let v2 = db.read(&ident, None).unwrap();
    assert_eq!(v2.schema.schema_version, 2);
    assert_eq!(v2.schema.columns[0].column_type, DataType::Int16);

    update_schema(&mut db, &ident, single("id", DataType::Int32)).unwrap();
    let v3 = db.read(&ident, None).unwrap();
    assert_eq!(v3.schema.schema_version, 3);
    assert_eq!(v3.schema.columns[0].column_type, DataType::Int32);

    update_schema(&mut db, &ident, single("id", DataType::Int64)).unwrap();
    let v4 = db.read(&ident, None).unwrap();
    assert_eq!(v4.schema.schema_version, 4);
    assert_eq!(v4.schema.columns[0].column_type, DataType::Int64);

    let type_at = |at: Uuid| {
        db.read(&ident, Some(at)).unwrap().schema.columns[0].column_type.clone()
    };
    assert_eq!(type_at(v1.transaction_id), DataType::Int8);
    assert_eq!(type_at(v2.transaction_id), DataType::Int16);
    assert_eq!(type_at(v3.transaction_id), DataType::Int32);
    assert_eq!(type_at(v4.transaction_id), DataType::Int64);
}

#[test]
fn schema_update_rejects_implicit_column_drop() {
    let (mut db, ident) = created("events", single("id", DataType::Int64));
    let wide = single("id", DataType::Int64)
        .with_column(ColumnSpec::new("value", DataType::Utf8).nullable());
    update_schema(&mut db, &ident, wide).expect("adding a new column should succeed");
    let err = update_schema(&mut db, &ident, single("id", DataType::Int64))
        .expect_err("implicit drop should fail");
    assert!(matches!(err, CatalogError::InvalidArgument(_)));
    assert!(err.to_string().contains("cannot drop existing column"));
    assert!(err.to_string().contains("value"));
}

#[test]
fn test_transaction_event_range_projection() {
    let (mut db, ident) = created("event_log", single("id", DataType::Int64));
    let initial_txn = head(&db, &ident);
    let total_files: usize = 400;
    for i in 0..total_files {
        let path = format!("/tmp/scale_event_log/part-{i:05}.parquet");
        let file = FileSpec::new(Format::Parquet, &path, 1, 128);
        commit_on_head(&mut db, &ident, MutationOp::AppendFiles(vec![file])).unwrap();
    }
    let head_txn = head(&db, &ident);
    let range = TxnRangeCursor { from_exclusive: Some(initial_txn), to_inclusive: head_txn };
    let events = db.events(&ident, range).unwrap();
    assert_eq!(events.len(), total_files);
    let change_count: usize = events.iter().map(|event| event.file_changes.len()).sum();
    assert_eq!(change_count, total_files);
    let delta = db.diff(&ident, initial_txn, head_txn);
    assert_eq!(delta.added_files.len(), total_files);
    assert!(delta.removed_files.is_empty());
}

fn add_transaction(db: &mut Db, id: Uuid) {
    let table = db.tables[0].uuid;
    let parent = db.tables[0].transaction;
    db.transactions.push((id, table, parent));
    db.tables[0].transaction = Some(id);
}

fn overflow_file(db: &Db, path: String, added: Uuid, removed: Option<Uuid>) -> FileRecord {
    FileRecord {
        table: db.tables[0].uuid,
        added,
        removed,
        insert: FileInsert {
            file_uuid: Uuid::new_v4(),
            file_format: Format::Parquet,
            file_path: path,
            record_count: 1,
            file_size_bytes: 1,
            partition_values: None,
            format_options: None,
        },
    }
}

fn events_since_creation(db: &Db, ident: &TableIdent) -> CatalogError {
    let range = TxnRangeCursor { from_exclusive: Some(txn(1)), to_inclusive: head(db, ident) };
    db.events(ident, range).expect_err("overflow should fail")
}

#[test]
fn list_transaction_events_rejects_added_file_overflow() {
    let (mut db, ident) = created("events", single("id", DataType::Int64));
    for i in 0..MAX_FILES_PER_QUERY + 1 {
        let id = txn(2 + i as u128);
        add_transaction(&mut db, id);
        let path = format!("/tmp/overflow-added-{i}.parquet");
        let record = overflow_file(&db, path, id, None);
        db.files.push(record);
    }
    let err = events_since_creation(&db, &ident);
    assert!(matches!(err, CatalogError::LimitExceeded(_)));
    assert!(err.to_string().contains("added file events exceed limit"));
}

#[test]
fn list_transaction_events_rejects_removed_file_overflow() {
    let (mut db, ident) = created("events", single("id", DataType::Int64));
    for i in 0..MAX_FILES_PER_QUERY + 1 {
        let id = txn(2 + i as u128);
        add_transaction(&mut db, id);
        let path = format!("/tmp/overflow-removed-{i}.parquet");
        let record = overflow_file(&db, path, txn(1), Some(id));
        db.files.push(record);
    }
    let err = events_since_creation(&db, &ident);
    assert!(matches!(err, CatalogError::LimitExceeded(_)));
    assert!(err.to_string().contains("removed file events exceed limit"));
}

#[test]
fn list_transaction_events_rejects_schema_change_overflow() {
    let (mut db, ident) = created("events", single("id", DataType::Int64));
    for i in 0..MAX_COLUMNS_PER_SCHEMA + 1 {
        let id = txn(2 + i as u128);
        add_transaction(&mut db, id);
        let table = db.tables[0].uuid;
        db.schemas.push(SchemaRecord {
            uuid: Uuid::new_v4(),
            table,
            version: i as i32 + 100,
            valid_from: id,
            valid_to: None,
            created_at: now(),
        });
    }
    let err = events_since_creation(&db, &ident);
    assert!(matches!(err, CatalogError::LimitExceeded(_)));
    assert!(err.to_string().contains("schema change events exceed limit"));
}

#[test]
fn list_tables_allows_exactly_max_then_rejects_overflow() {
    let mut rows: Vec<(String, String)> =
        (0..MAX_TABLES_PER_LIST).map(|i| ("ns".to_string(), format!("table_{i}"))).collect();
    let at_limit = collect_tables(rows.clone()).expect("exactly-at-limit listing should succeed");
    assert_eq!(at_limit.len(), MAX_TABLES_PER_LIST as usize);

    rows.push(("ns".to_string(), "table_overflow".to_string()));
    let err = collect_tables(rows).expect_err("overflow listing should fail");
    assert!(matches!(err, CatalogError::LimitExceeded(_)));
    assert!(err.to_string().contains("table count exceeds limit"));
}

#[test]
fn read_table_allows_exactly_max_columns_then_rejects_overflow() {
    let (mut db, ident) = created("events", single("id", DataType::Int64));
    let schema_uuid = db.schemas[0].uuid;
    let encoded_type = encode_data_type(&DataType::Int64).expect("type encoding should succeed");
    let column = |name: String, ordinal_position: i32| ColumnInsert {
        column_uuid: Uuid::new_v4(),
        name,
        encoded_type: encoded_type.clone(),
        ordinal_position,
        is_nullable: false,
    };
    db.columns.clear();
    for i in 0..MAX_COLUMNS_PER_SCHEMA {
        db.columns.push((schema_uuid, column(format!("col_{i}"), i as i32 + 1)));
    }
    let at_limit = db.read(&ident, None).expect("exactly-at-limit read should succeed");
    assert_eq!(at_limit.schema.columns.len(), MAX_COLUMNS_PER_SCHEMA as usize);

    let overflow = column("col_overflow".to_string(), MAX_COLUMNS_PER_SCHEMA as i32 + 1);
    db.columns.push((schema_uuid, overflow));
    let err = db.read(&ident, None).expect_err("overflow read should fail");
    assert!(matches!(err, CatalogError::LimitExceeded(_)));
    assert!(err.to_string().contains("column count exceeds limit"));
}
