use planar::catalog::database::DbKind;
use planar::catalog::queries::{
    all_tables, event_columns, files_added_in_range, files_at_transaction,
    properties_at_transaction, schema_at, schema_columns, table_exists, table_row_for_commit, transactions_in_range,
};
use planar::catalog::statements::{Bind, ColumnInsert, FileInsert, Statement};
use planar::catalog::{TableIdent, TxnRangeCursor};
use planar::ids::Uuid;
use planar::storage::Format;
use planar::time::Timestamp;

fn file(i: u128) -> FileInsert {
    FileInsert {
        file_uuid: Uuid::from_u128(i),
        file_format: Format::Vortex,
        file_path: format!("f{i}"),
        record_count: 1,
        file_size_bytes: 2,
        partition_values: Some("{}".to_string()),
        format_options: None,
    }
}

#[test]
fn files_are_inserted_row_by_row() {
    let s = Statement::InsertFiles {
        table_uuid: Uuid::from_u128(100),
        transaction_id: Uuid::from_u128(200),
        rows: vec![file(1), file(2)],
    };
    let head = "INSERT INTO files (file_uuid, table_uuid, file_format, file_path, record_count, \
                file_size_bytes, added_in_transaction_id, partition_values, format_options) VALUES ";
    assert_eq!(
        s.sql(DbKind::Sqlite),
        format!("{head}(?, ?, ?, ?, ?, ?, ?, ?, ?), (?, ?, ?, ?, ?, ?, ?, ?, ?)")
    );
    assert_eq!(
        s.sql(DbKind::Postgres),
        format!(
            "{head}($1, $2, $3, $4, $5, $6, $7, $8, $9), \
             ($10, $11, $12, $13, $14, $15, $16, $17, $18)"
        )
    );
    let binds = s.binds();
    assert_eq!(binds.len(), 18);
    assert!(matches!(&binds[0], Bind::Id(u) if u.as_u128() == 1));
    assert!(matches!(&binds[1], Bind::Id(u) if u.as_u128() == 100));
    assert!(matches!(&binds[2], Bind::Text(t) if t == "vortex"));
    assert!(matches!(&binds[6], Bind::Id(u) if u.as_u128() == 200));
    assert!(matches!(&binds[7], Bind::OptionalText(Some(t)) if t == "{}"));
    assert!(matches!(&binds[8], Bind::OptionalText(None)));
    assert!(matches!(&binds[12], Bind::Text(t) if t == "f2"));
}

#[test]
fn columns_are_inserted_row_by_row() {
    let s = Statement::InsertColumns {
        schema_uuid: Uuid::from_u128(9),
        rows: vec![ColumnInsert {
            column_uuid: Uuid::from_u128(1),
            name: "id".to_string(),
            encoded_type: vec![1, 2, 3],
            ordinal_position: 1,
            is_nullable: true,
        }],
    };
    assert_eq!(
        s.sql(DbKind::Postgres),
        "INSERT INTO columns (column_uuid, schema_uuid, column_name, column_type, \
         ordinal_position, is_nullable) VALUES ($1, $2, $3, $4, $5, $6)"
    );
    let binds = s.binds();
    assert_eq!(binds.len(), 6);
    assert!(matches!(&binds[3], Bind::Bytes(b) if *b == vec![1, 2, 3]));
    assert!(matches!(&binds[4], Bind::Int(1)));
    assert!(matches!(&binds[5], Bind::Flag(true)));
}

#[test]
fn files_are_marked_by_their_ids() {
    let s = Statement::DeleteFiles {
        table_uuid: Uuid::from_u128(100),
        transaction_id: Uuid::from_u128(200),
        file_uuids: vec![Uuid::from_u128(1), Uuid::from_u128(2)],
    };
    assert_eq!(
        s.sql(DbKind::Sqlite),
        "UPDATE files SET removed_in_transaction_id = ?1 WHERE table_uuid = ?2 \
         AND removed_in_transaction_id IS NULL AND file_uuid IN (?3, ?4)"
    );
    let binds = s.binds();
    assert!(matches!(&binds[0], Bind::Id(u) if u.as_u128() == 200));
    assert!(matches!(&binds[3], Bind::Id(u) if u.as_u128() == 2));
}

#[test]
fn a_first_transaction_has_no_parent() {
    let of = |parent: Option<Uuid>| Statement::InsertTransaction {
        transaction_id: Uuid::from_u128(1),
        table_uuid: Uuid::from_u128(2),
        timestamp: Timestamp::new(0, 0).unwrap(),
        parent,
    };
    assert_eq!(of(None).binds().len(), 3);
    assert!(!of(None).sql(DbKind::Sqlite).contains("parent_transaction_id"));
    let child = of(Some(Uuid::from_u128(3)));
    assert_eq!(child.binds().len(), 4);
    assert!(child.sql(DbKind::Postgres).ends_with("VALUES ($1, $2, $3, $4)"));
}

#[test]
fn the_table_moves_with_its_properties() {
    let s = Statement::UpdateTable {
        table_uuid: Uuid::from_u128(1),
        transaction_id: Uuid::from_u128(2),
        schema_uuid: None,
        properties: "{}".to_string(),
    };
    assert_eq!(
        s.sql(DbKind::Sqlite),
        "UPDATE tables SET current_transaction_id = ?1, current_schema_uuid = ?2, \
         properties = ?3 WHERE table_uuid = ?4"
    );
    let binds = s.binds();
    assert!(matches!(&binds[1], Bind::OptionalId(None)));
    assert!(matches!(&binds[3], Bind::Id(u) if u.as_u128() == 1));
}

#[test]
fn queries_ask_for_one_more_than_the_limit() {
    let q = files_at_transaction(DbKind::Postgres, Uuid::from_u128(1), Uuid::from_u128(2));
    assert_eq!(
        q.text,
        "SELECT file_uuid, table_uuid, file_format, file_path, record_count, file_size_bytes, \
         added_in_transaction_id, removed_in_transaction_id, partition_values, format_options \
         FROM files WHERE table_uuid = $1 AND added_in_transaction_id <= $2 \
         AND (removed_in_transaction_id IS NULL OR removed_in_transaction_id > $2) LIMIT $3"
    );
    assert!(matches!(&q.binds[2], Bind::Long(10_001)));
    let q = all_tables(DbKind::Sqlite);
    assert_eq!(q.text, "SELECT namespace, table_name FROM tables LIMIT ?1");
    assert!(matches!(&q.binds[0], Bind::Long(10_001)));
    let of = |q: planar::catalog::queries::Query| match q.binds.last() {
        Some(Bind::Long(n)) => *n,
        other => panic!("{other:?}"),
    };
    assert_eq!(of(schema_columns(DbKind::Sqlite, Uuid::from_u128(1))), 1_001);
    assert_eq!(of(event_columns(DbKind::Sqlite, Uuid::from_u128(1))), 1_000);
}

#[test]
fn ranges_may_start_at_the_beginning() {
    let open = TxnRangeCursor { from_exclusive: None, to_inclusive: Uuid::from_u128(9) };
    let q = transactions_in_range(DbKind::Sqlite, Uuid::from_u128(1), open);
    assert_eq!(
        q.text,
        "SELECT transaction_id FROM transactions WHERE table_uuid = ?1 \
         AND transaction_id <= ?2 ORDER BY transaction_id LIMIT ?3"
    );
    assert_eq!(q.binds.len(), 3);
    let closed = TxnRangeCursor { from_exclusive: Some(Uuid::from_u128(4)), ..open };
    let q = files_added_in_range(DbKind::Postgres, Uuid::from_u128(1), closed);
    assert!(q.text.ends_with(
        "added_in_transaction_id > $2 AND added_in_transaction_id <= $3 LIMIT $4"
    ));
    assert!(matches!(&q.binds[1], Bind::Id(u) if u.as_u128() == 4));
    assert!(matches!(&q.binds[2], Bind::Id(u) if u.as_u128() == 9));
}

#[test]
fn only_postgres_locks_the_row() {
    let ident = TableIdent::new("ns", "t");
    assert!(table_row_for_commit(DbKind::Postgres, &ident).text.ends_with("$2 FOR UPDATE"));
    assert!(table_row_for_commit(DbKind::Sqlite, &ident).text.ends_with("table_name = ?2"));
    let q = table_exists(DbKind::Sqlite, &ident);
    assert_eq!(q.text, "SELECT 1 FROM tables WHERE namespace = ?1 AND table_name = ?2 LIMIT 1");
    assert!(matches!(&q.binds[1], Bind::Text(t) if t == "t"));
    let q = schema_at(DbKind::Sqlite, Uuid::from_u128(1), Uuid::from_u128(2));
    assert!(q.text.ends_with(
        "valid_from_transaction_id <= ?2 AND (valid_to_transaction_id IS NULL \
         OR valid_to_transaction_id > ?2) LIMIT 1"
    ));
}

#[test]
fn properties_are_kept_with_their_transaction() {
    let s = Statement::InsertProperties {
        transaction_id: Uuid::from_u128(7),
        table_uuid: Uuid::from_u128(8),
        properties: "{\"a\":1}".to_string(),
    };
    let head = "INSERT INTO table_properties (transaction_id, table_uuid, properties) VALUES ";
    assert_eq!(s.sql(DbKind::Sqlite), format!("{head}(?1, ?2, ?3)"));
    assert_eq!(s.sql(DbKind::Postgres), format!("{head}($1, $2, $3)"));
    let binds = s.binds();
    assert_eq!(binds.len(), 3);
    assert!(matches!(&binds[0], Bind::Id(u) if u.as_u128() == 7));
    assert!(matches!(&binds[1], Bind::Id(u) if u.as_u128() == 8));
    assert!(matches!(&binds[2], Bind::Text(t) if t == "{\"a\":1}"));
}

#[test]
fn properties_are_those_of_the_last_transaction() {
    let q = properties_at_transaction(DbKind::Postgres, Uuid::from_u128(1), Uuid::from_u128(2));
    assert_eq!(
        q.text,
        "SELECT properties FROM table_properties WHERE table_uuid = $1 AND transaction_id <= $2 \
         ORDER BY transaction_id DESC LIMIT 1"
    );
    assert!(matches!(&q.binds[1], Bind::Id(u) if u.as_u128() == 2));
}
