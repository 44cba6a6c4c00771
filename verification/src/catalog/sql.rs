//! What SQL text means: which rows of the catalog database it is about, and what it puts in them.

use vstd::prelude::*;
use vstd::string::*;

use super::database::DbKind;
use super::models::TxnId;
use super::relations::{
    FileRecord, PropertiesRecord, SchemaRecord, TableRecord, TransactionRecord,
};
use super::statements::{numbered, placeholder, BindView, ColumnInsertView};
use crate::ids::Uuid;
use crate::storage::format_name;
use crate::text::{decimal_text, decimals_spell_their_number, spelled};
use crate::time::Timestamp;

verus! {

/// A value in a column of the database.
#[verifier::ext_equal]
pub enum Cell {
    /// Nothing.
    Null,
    /// An identifier.
    Id(Uuid),
    /// A text.
    Text(Seq<char>),
    /// Bytes.
    Bytes(Seq<u8>),
    /// A number.
    Number(int),
    /// A boolean.
    Flag(bool),
    /// A point in time.
    Time(Timestamp),
}

/// The values of a row, by the names of their columns.
pub type Row = spec_fn(Seq<char>) -> Cell;

/// The value of an identifier that may be missing.
pub open spec fn id_cell(id: Option<Uuid>) -> Cell {
    match id {
        Some(u) => Cell::Id(u),
        None => Cell::Null,
    }
}

/// The value of a text that may be missing.
pub open spec fn text_cell(text: Option<Seq<char>>) -> Cell {
    match text {
        Some(s) => Cell::Text(s),
        None => Cell::Null,
    }
}

/// The value that a parameter stands for.
pub open spec fn cell_of(bind: BindView) -> Cell {
    match bind {
        BindView::Id(u) => Cell::Id(u),
        BindView::OptionalId(u) => id_cell(u),
        BindView::Text(s) => Cell::Text(s),
        BindView::OptionalText(s) => text_cell(s),
        BindView::Bytes(b) => Cell::Bytes(b),
        BindView::Long(n) => Cell::Number(n as int),
        BindView::Int(n) => Cell::Number(n as int),
        BindView::Flag(b) => Cell::Flag(b),
        BindView::Time(t) => Cell::Time(t),
    }
}

/// What a row of the table of tables has under a name.
pub open spec fn table_cell(u: Uuid, t: TableRecord, name: Seq<char>) -> Cell {
    if name == "table_uuid"@ {
        Cell::Id(u)
    } else if name == "table_name"@ {
        Cell::Text(t.name)
    } else if name == "namespace"@ {
        Cell::Text(t.namespace)
    } else if name == "location"@ {
        Cell::Text(t.location)
    } else if name == "current_schema_uuid"@ {
        id_cell(t.schema_uuid)
    } else if name == "current_transaction_id"@ {
        id_cell(t.transaction_id)
    } else if name == "created_at"@ {
        Cell::Time(t.created_at)
    } else if name == "properties"@ {
        Cell::Text(t.properties)
    } else if name == "min_reader_version"@ {
        Cell::Number(t.min_reader_version as int)
    } else if name == "min_writer_version"@ {
        Cell::Number(t.min_writer_version as int)
    } else {
        Cell::Null
    }
}

/// What a row of the table of transactions has under a name.
pub open spec fn transaction_cell(id: TxnId, t: TransactionRecord, name: Seq<char>) -> Cell {
    if name == "transaction_id"@ {
        Cell::Id(id)
    } else if name == "table_uuid"@ {
        Cell::Id(t.table_uuid)
    } else if name == "transaction_timestamp"@ {
        Cell::Time(t.timestamp)
    } else if name == "parent_transaction_id"@ {
        id_cell(t.parent)
    } else {
        Cell::Null
    }
}

/// What a row of the table of properties has under a name.
pub open spec fn properties_cell(id: TxnId, p: PropertiesRecord, name: Seq<char>) -> Cell {
    if name == "transaction_id"@ {
        Cell::Id(id)
    } else if name == "table_uuid"@ {
        Cell::Id(p.table_uuid)
    } else if name == "properties"@ {
        Cell::Text(p.properties)
    } else {
        Cell::Null
    }
}

/// What a row of the table of schemas has under a name.
pub open spec fn schema_cell(u: Uuid, s: SchemaRecord, name: Seq<char>) -> Cell {
    if name == "schema_uuid"@ {
        Cell::Id(u)
    } else if name == "table_uuid"@ {
        Cell::Id(s.table_uuid)
    } else if name == "schema_version"@ {
        Cell::Number(s.schema_version as int)
    } else if name == "valid_from_transaction_id"@ {
        Cell::Id(s.valid_from)
    } else if name == "valid_to_transaction_id"@ {
        id_cell(s.valid_to)
    } else if name == "created_at"@ {
        Cell::Time(s.created_at)
    } else {
        Cell::Null
    }
}

/// What a row of the table of columns has under a name.
pub open spec fn column_cell(schema_uuid: Uuid, c: ColumnInsertView, name: Seq<char>) -> Cell {
    if name == "column_uuid"@ {
        Cell::Id(c.column_uuid)
    } else if name == "schema_uuid"@ {
        Cell::Id(schema_uuid)
    } else if name == "column_name"@ {
        Cell::Text(c.name)
    } else if name == "column_type"@ {
        Cell::Bytes(c.encoded_type)
    } else if name == "ordinal_position"@ {
        Cell::Number(c.ordinal_position as int)
    } else if name == "is_nullable"@ {
        Cell::Flag(c.is_nullable)
    } else {
        Cell::Null
    }
}

/// What a row of the table of files has under a name.
pub open spec fn file_cell(u: Uuid, f: FileRecord, name: Seq<char>) -> Cell {
    if name == "file_uuid"@ {
        Cell::Id(u)
    } else if name == "table_uuid"@ {
        Cell::Id(f.table_uuid)
    } else if name == "file_format"@ {
        Cell::Text(format_name(f.file.file_format))
    } else if name == "file_path"@ {
        Cell::Text(f.file.file_path)
    } else if name == "record_count"@ {
        Cell::Number(f.file.record_count as int)
    } else if name == "file_size_bytes"@ {
        Cell::Number(f.file.file_size_bytes as int)
    } else if name == "added_in_transaction_id"@ {
        Cell::Id(f.added)
    } else if name == "removed_in_transaction_id"@ {
        id_cell(f.removed)
    } else if name == "partition_values"@ {
        text_cell(f.file.partition_values)
    } else if name == "format_options"@ {
        text_cell(f.file.format_options)
    } else {
        Cell::Null
    }
}

/// A row of the table of tables.
pub open spec fn table_values(u: Uuid, t: TableRecord) -> Row {
    |name: Seq<char>| table_cell(u, t, name)
}

/// A row of the table of transactions.
pub open spec fn transaction_values(u: TxnId, t: TransactionRecord) -> Row {
    |name: Seq<char>| transaction_cell(u, t, name)
}

/// A row of the table of properties.
pub open spec fn properties_values(u: TxnId, t: PropertiesRecord) -> Row {
    |name: Seq<char>| properties_cell(u, t, name)
}

/// A row of the table of schemas.
pub open spec fn schema_values(u: Uuid, t: SchemaRecord) -> Row {
    |name: Seq<char>| schema_cell(u, t, name)
}

/// A row of the table of columns.
pub open spec fn column_values(u: Uuid, t: ColumnInsertView) -> Row {
    |name: Seq<char>| column_cell(u, t, name)
}

/// A row of the table of files.
pub open spec fn file_values(u: Uuid, t: FileRecord) -> Row {
    |name: Seq<char>| file_cell(u, t, name)
}

/// Texts one after the other, with another text between them.
pub open spec fn separated(texts: Seq<Seq<char>>, by: Seq<char>) -> Seq<char>
    decreases texts.len(),
{
    if texts.len() == 0 {
        Seq::empty()
    } else if texts.len() == 1 {
        texts[0]
    } else {
        separated(texts.drop_last(), by) + by + texts.last()
    }
}

/// A condition that a row must meet. Parameters are told by their numbers, which count from 1.
pub enum Condition {
    /// The column has the value of the parameter.
    Is(Seq<char>, nat),
    /// The identifier in the column is at most the parameter.
    AtMost(Seq<char>, nat),
    /// The identifier in the column is greater than the parameter.
    After(Seq<char>, nat),
    /// The column has no value.
    Missing(Seq<char>),
    /// The column has a value.
    Given(Seq<char>),
    /// The column has no value, or an identifier that is greater than the parameter.
    MissingOrAfter(Seq<char>, nat),
    /// The column has the value of one of the parameters from a first one on, of which there are
    /// so many.
    OneOf(Seq<char>, nat, nat),
}

/// The text of a condition.
pub open spec fn condition_text(db: DbKind, c: Condition) -> Seq<char> {
    match c {
        Condition::Is(column, i) => column + " = "@ + numbered(db, i),
        Condition::AtMost(column, i) => column + " <= "@ + numbered(db, i),
        Condition::After(column, i) => column + " > "@ + numbered(db, i),
        Condition::Missing(column) => column + " IS NULL"@,
        Condition::Given(column) => column + " IS NOT NULL"@,
        Condition::MissingOrAfter(column, i) => "("@ + column + " IS NULL OR "@ + column + " > "@
            + numbered(db, i) + ")"@,
        Condition::OneOf(column, first, n) => column + " IN ("@ + separated(
            Seq::new(n, |i: int| numbered(db, (first + i) as nat)),
            ", "@,
        ) + ")"@,
    }
}

/// One identifier is at most another; nothing is no identifier.
pub open spec fn at_most(a: Cell, b: Cell) -> bool {
    match (a, b) {
        (Cell::Id(a), Cell::Id(b)) => a.value <= b.value,
        _ => false,
    }
}

/// One identifier is greater than another; nothing is no identifier.
pub open spec fn after(a: Cell, b: Cell) -> bool {
    match (a, b) {
        (Cell::Id(a), Cell::Id(b)) => a.value > b.value,
        _ => false,
    }
}

/// A row meets a condition.
pub open spec fn meets(c: Condition, row: Row, binds: Seq<BindView>) -> bool {
    match c {
        Condition::Is(column, i) => row(column) == cell_of(binds[i - 1]) && !(row(column) is Null),
        Condition::AtMost(column, i) => at_most(row(column), cell_of(binds[i - 1])),
        Condition::After(column, i) => after(row(column), cell_of(binds[i - 1])),
        Condition::Missing(column) => row(column) is Null,
        Condition::Given(column) => !(row(column) is Null),
        Condition::MissingOrAfter(column, i) => row(column) is Null || after(
            row(column),
            cell_of(binds[i - 1]),
        ),
        Condition::OneOf(column, first, n) => exists|i: int|
            0 <= i < n && row(column) == cell_of(#[trigger] binds[first - 1 + i]) && !(
            row(column) is Null),
    }
}

/// A row meets all of some conditions.
pub open spec fn meets_all(conditions: Seq<Condition>, row: Row, binds: Seq<BindView>) -> bool {
    forall|i: int| 0 <= i < conditions.len() ==> meets(#[trigger] conditions[i], row, binds)
}

/// Conditions pick the rows of the table of tables that are wanted, and no others.
pub open spec fn picks_tables(
    conditions: Seq<Condition>,
    binds: Seq<BindView>,
    wanted: spec_fn(Uuid, TableRecord) -> bool,
) -> bool {
    forall|u: Uuid, t: TableRecord|
        #![trigger table_values(u, t)]
        meets_all(conditions, table_values(u, t), binds) == wanted(u, t)
}

/// Conditions pick the rows of the table of transactions that are wanted, and no others.
pub open spec fn picks_transactions(
    conditions: Seq<Condition>,
    binds: Seq<BindView>,
    wanted: spec_fn(TxnId, TransactionRecord) -> bool,
) -> bool {
    forall|u: TxnId, t: TransactionRecord|
        #![trigger transaction_values(u, t)]
        meets_all(conditions, transaction_values(u, t), binds) == wanted(u, t)
}

/// Conditions pick the rows of the table of properties that are wanted, and no others.
pub open spec fn picks_properties(
    conditions: Seq<Condition>,
    binds: Seq<BindView>,
    wanted: spec_fn(TxnId, PropertiesRecord) -> bool,
) -> bool {
    forall|u: TxnId, t: PropertiesRecord|
        #![trigger properties_values(u, t)]
        meets_all(conditions, properties_values(u, t), binds) == wanted(u, t)
}

/// Conditions pick the rows of the table of schemas that are wanted, and no others.
pub open spec fn picks_schemas(
    conditions: Seq<Condition>,
    binds: Seq<BindView>,
    wanted: spec_fn(Uuid, SchemaRecord) -> bool,
) -> bool {
    forall|u: Uuid, t: SchemaRecord|
        #![trigger schema_values(u, t)]
        meets_all(conditions, schema_values(u, t), binds) == wanted(u, t)
}

/// Conditions pick the rows of the table of columns that are wanted, and no others.
pub open spec fn picks_columns(
    conditions: Seq<Condition>,
    binds: Seq<BindView>,
    wanted: spec_fn(Uuid, ColumnInsertView) -> bool,
) -> bool {
    forall|u: Uuid, t: ColumnInsertView|
        #![trigger column_values(u, t)]
        meets_all(conditions, column_values(u, t), binds) == wanted(u, t)
}

/// Conditions pick the rows of the table of files that are wanted, and no others.
pub open spec fn picks_files(
    conditions: Seq<Condition>,
    binds: Seq<BindView>,
    wanted: spec_fn(Uuid, FileRecord) -> bool,
) -> bool {
    forall|u: Uuid, t: FileRecord|
        #![trigger file_values(u, t)]
        meets_all(conditions, file_values(u, t), binds) == wanted(u, t)
}

/// Conditions pick the rows that are wanted, and no others.
pub open spec fn picks_rows(
    conditions: Seq<Condition>,
    binds: Seq<BindView>,
    wanted: spec_fn(Row) -> bool,
) -> bool {
    forall|row: Row| #[trigger] meets_all(conditions, row, binds) == wanted(row)
}

/// The text of conditions.
pub open spec fn where_text(db: DbKind, conditions: Seq<Condition>) -> Seq<char> {
    if conditions.len() == 0 {
        Seq::empty()
    } else {
        " WHERE "@ + separated(
            Seq::new(conditions.len(), |i: int| condition_text(db, conditions[i])),
            " AND "@,
        )
    }
}

/// How many rows a query asks for.
pub enum Limit {
    /// All that there are.
    All,
    /// One.
    One,
    /// As many as the parameter says.
    Parameter(nat),
}

/// The text of a limit.
pub open spec fn limit_text(db: DbKind, limit: Limit) -> Seq<char> {
    match limit {
        Limit::All => Seq::empty(),
        Limit::One => " LIMIT 1"@,
        Limit::Parameter(i) => " LIMIT "@ + numbered(db, i),
    }
}

/// The order of the rows that a query finds.
pub enum Order {
    /// None is asked for.
    Any,
    /// By a column, the smallest first.
    Rising(Seq<char>),
    /// By a column, the greatest first.
    Falling(Seq<char>),
}

/// The text of an order.
pub open spec fn order_text(order: Order) -> Seq<char> {
    match order {
        Order::Any => Seq::empty(),
        Order::Rising(column) => " ORDER BY "@ + column,
        Order::Falling(column) => " ORDER BY "@ + column + " DESC"@,
    }
}

/// A query: the columns of the rows of a table that meet conditions.
pub struct Select {
    /// Columns.
    pub columns: Seq<Seq<char>>,
    /// Table.
    pub table: Seq<char>,
    /// Conditions.
    pub conditions: Seq<Condition>,
    /// Order.
    pub order: Order,
    /// Limit.
    pub limit: Limit,
}

/// The text of a query.
pub open spec fn select_text(db: DbKind, s: Select) -> Seq<char> {
    "SELECT "@ + separated(s.columns, ", "@) + " FROM "@ + s.table + where_text(db, s.conditions)
        + order_text(s.order) + limit_text(db, s.limit)
}

/// The text of a statement that inserts one row.
pub open spec fn insert_text(db: DbKind, table: Seq<char>, columns: Seq<Seq<char>>) -> Seq<char> {
    "INSERT INTO "@ + table + " ("@ + separated(columns, ", "@) + ") VALUES ("@ + separated(
        Seq::new(columns.len(), |i: int| numbered(db, (i + 1) as nat)),
        ", "@,
    ) + ")"@
}

/// The text of a statement that inserts rows.
pub open spec fn inserts_text(
    db: DbKind,
    table: Seq<char>,
    columns: Seq<Seq<char>>,
    rows: nat,
) -> Seq<char> {
    let width = columns.len();
    "INSERT INTO "@ + table + " ("@ + separated(columns, ", "@) + ") VALUES "@ + separated(
        Seq::new(
            rows,
            |r: int|
                "("@ + separated(
                    Seq::new(width, |i: int| placeholder(db, (r * width + i + 1) as nat)),
                    ", "@,
                ) + ")"@,
        ),
        ", "@,
    )
}

/// The text of a statement that updates columns of the rows that meet conditions. The columns get
/// the first parameters, in their order.
pub open spec fn update_text(
    db: DbKind,
    table: Seq<char>,
    columns: Seq<Seq<char>>,
    conditions: Seq<Condition>,
) -> Seq<char> {
    "UPDATE "@ + table + " SET "@ + separated(
        Seq::new(columns.len(), |i: int| columns[i] + " = "@ + numbered(db, (i + 1) as nat)),
        ", "@,
    ) + where_text(db, conditions)
}

/// The text of a statement that deletes the rows that meet conditions.
pub open spec fn delete_text(db: DbKind, table: Seq<char>, conditions: Seq<Condition>) -> Seq<char> {
    "DELETE FROM "@ + table + where_text(db, conditions)
}

/// The name of a parameter is a sign and its place among the parameters, but that of SQLite in a list
/// of values is the sign alone, which stands for the next parameter.
pub proof fn parameters_are_named_by_their_place(i: nat)
    ensures
        numbered(DbKind::Sqlite, i)[0] == '?',
        spelled(numbered(DbKind::Sqlite, i).skip(1)) == i,
        numbered(DbKind::Postgres, i)[0] == '$',
        spelled(numbered(DbKind::Postgres, i).skip(1)) == i,
        placeholder(DbKind::Postgres, i) == numbered(DbKind::Postgres, i),
        placeholder(DbKind::Sqlite, i) == seq!['?'],
{
    reveal_strlit("?");
    reveal_strlit("$");
    decimals_spell_their_number(i);
    assert(numbered(DbKind::Sqlite, i).skip(1) =~= decimal_text(i));
    assert(numbered(DbKind::Postgres, i).skip(1) =~= decimal_text(i));
    assert("?"@ =~= seq!['?']);
}

} // verus!
