//! Tables, mutations and what reading a table gives.

use vstd::hash_set::StringHashSet;
use vstd::prelude::*;
use vstd::string::*;

use super::data_type::{type_clone, type_model, TypeModel};
use super::error::{CatalogError, ErrorView, Result};
use super::limits::MAX_COLUMNS_PER_SCHEMA;
use super::schema::{File, Schema, TableStats};
use crate::ids::Uuid;
use crate::json::{
    json_entries, json_model, json_text, map_clone, map_eq, map_insert, map_new, map_remove,
    same_object, value_from_map, value_into_map, value_to_string, JsonModel, JsonObject,
};
use crate::text::{blank, decimal, decimal_text, is_blank, joined, joined3};

use arrow::datatypes::DataType;

verus! {

/// Transaction identifier.
pub type TxnId = Uuid;

/// Logical table identifier as `{namespace}.{name}`.
#[derive(Debug, PartialEq, Eq, Hash)]
pub struct TableIdent {
    /// Table namespace.
    pub namespace: String,
    /// Table name.
    pub name: String,
}

/// What is told of a table: its namespace, a dot and its name.
pub open spec fn ident_text(ident: TableIdent) -> Seq<char> {
    ident.namespace@ + "."@ + ident.name@
}

impl TableIdent {
    /// Create a new table identifier.
    pub fn new(namespace: &str, name: &str) -> (r: Self)
        ensures
            r.namespace@ == namespace@,
            r.name@ == name@,
    {
        TableIdent { namespace: String::from_str(namespace), name: String::from_str(name) }
    }

    /// The namespace, a dot and the name.
    pub fn to_string(&self) -> (r: String)
        ensures
            r@ == ident_text(*self),
    {
        joined3(self.namespace.as_str(), ".", self.name.as_str())
    }
}

impl Clone for TableIdent {
    fn clone(&self) -> (r: Self)
        ensures
            r.namespace@ == self.namespace@,
            r.name@ == self.name@,
    {
        TableIdent { namespace: self.namespace.clone(), name: self.name.clone() }
    }
}

/// Typed table properties: a JSON object.
#[derive(Debug)]
pub struct TableProperties {
    values: serde_json::Map<String, serde_json::Value>,
}

impl View for TableProperties {
    type V = JsonObject;

    closed spec fn view(&self) -> JsonObject {
        json_entries(self.values)
    }
}

/// The refusal of properties that are no JSON object.
pub open spec fn not_an_object() -> ErrorView {
    ErrorView::InvalidArgument("table properties must be a JSON object"@)
}

impl Default for TableProperties {
    fn default() -> (r: Self)
        ensures
            r@ == JsonObject::empty(),
    {
        TableProperties { values: map_new() }
    }
}

impl Clone for TableProperties {
    fn clone(&self) -> (r: Self)
        ensures
            r@ == self@,
    {
        TableProperties { values: map_clone(&self.values) }
    }
}

impl TableProperties {
    /// Create empty table properties.
    pub fn new() -> (r: Self)
        ensures
            r@ == JsonObject::empty(),
    {
        TableProperties::default()
    }

    /// Take table properties from JSON, requiring an object.
    pub fn from_json(value: serde_json::Value) -> (r: Result<Self>)
        ensures
            match r {
                Ok(p) => json_model(value) == JsonModel::Object(p@),
                Err(e) => !(json_model(value) is Object) && e@ == not_an_object(),
            },
    {
        match value_into_map(value) {
            Some(values) => Ok(TableProperties { values }),
            None => Err(
                CatalogError::InvalidArgument(
                    String::from_str("table properties must be a JSON object"),
                ),
            ),
        }
    }

    /// Borrow table properties as a JSON object map.
    pub fn as_map(&self) -> (r: &serde_json::Map<String, serde_json::Value>)
        ensures
            json_entries(*r) == self@,
    {
        &self.values
    }

    /// Convert table properties into a JSON object value.
    pub fn into_json(self) -> (r: serde_json::Value)
        ensures
            json_model(r) == JsonModel::Object(self@),
    {
        value_from_map(self.values)
    }

    /// Copy table properties into a JSON object value.
    pub fn to_json(&self) -> (r: serde_json::Value)
        ensures
            json_model(r) == JsonModel::Object(self@),
    {
        value_from_map(map_clone(&self.values))
    }

    /// Replace or insert a property value.
    pub fn insert(&mut self, key: String, value: serde_json::Value)
        ensures
            final(self)@ == old(self)@.insert(key@, json_model(value)),
    {
        map_insert(&mut self.values, key, value);
    }

    /// Remove a property key if present.
    pub fn remove(&mut self, key: &str)
        ensures
            final(self)@ == old(self)@.remove(key@),
    {
        map_remove(&mut self.values, key);
    }

    /// Whether two sets of properties are equal.
    pub fn equals(&self, other: &Self) -> (r: bool)
        ensures
            r == same_object(self@, other@),
    {
        map_eq(&self.values, &other.values)
    }

    /// The properties as JSON text.
    pub fn to_string(&self) -> (r: String)
        ensures
            r@ == json_text(JsonModel::Object(self@)),
    {
        match value_to_string(&self.to_json()) {
            Ok(text) => text,
            Err(reason) => reason,
        }
    }
}

/// Strongly-typed table property key: a text that is not blank.
#[derive(Debug, PartialEq, Eq, Hash)]
pub struct PropertyKey(String);

impl Clone for PropertyKey {
    fn clone(&self) -> (r: Self)
        ensures
            r@ == self@,
    {
        proof {
            use_type_invariant(self);
        }
        PropertyKey(self.0.clone())
    }
}

impl View for PropertyKey {
    type V = Seq<char>;

    closed spec fn view(&self) -> Seq<char> {
        self.0@
    }
}

/// The refusal of a property key that is blank.
pub open spec fn blank_key() -> ErrorView {
    ErrorView::InvalidArgument("property key cannot be empty"@)
}

impl PropertyKey {
    #[verifier::type_invariant]
    spec fn not_blank(self) -> bool {
        !blank(self.0@)
    }

    /// Create a validated property key.
    pub fn new(key: &str) -> (r: Result<Self>)
        ensures
            match r {
                Ok(k) => !blank(key@) && k@ == key@,
                Err(e) => blank(key@) && e@ == blank_key(),
            },
    {
        if is_blank(key) {
            return Err(
                CatalogError::InvalidArgument(String::from_str("property key cannot be empty")),
            );
        }
        Ok(PropertyKey(String::from_str(key)))
    }

    /// Borrow the property key string.
    pub fn as_str(&self) -> (r: &str)
        ensures
            r@ == self@,
            !blank(r@),
    {
        proof {
            use_type_invariant(self);
        }
        self.0.as_str()
    }
}

/// Immutable table snapshot at a specific transaction.
#[derive(Debug)]
pub struct TableView {
    /// Table identifier.
    pub ident: TableIdent,
    /// Unique table UUID.
    pub table_uuid: Uuid,
    /// Transaction ID this view represents.
    pub transaction_id: TxnId,
    /// Table schema.
    pub schema: Schema,
    /// Files in this table version.
    pub files: Vec<File>,
    /// Typed table properties.
    pub properties: TableProperties,
    /// Optional table statistics.
    pub stats: Option<TableStats>,
}

/// Difference between two table snapshots.
#[derive(Debug)]
pub struct TableDelta {
    /// Starting transaction ID.
    pub from_transaction_id: TxnId,
    /// Ending transaction ID.
    pub to_transaction_id: TxnId,
    /// Files added in this range.
    pub added_files: Vec<File>,
    /// Files removed in this range.
    pub removed_files: Vec<File>,
    /// New schema if changed.
    pub new_schema: Option<Schema>,
    /// New properties if changed.
    pub new_properties: Option<TableProperties>,
}

/// Ordered transaction range selection for event scans.
#[derive(Debug, Clone, Copy, PartialEq, Eq)]
pub struct TxnRangeCursor {
    /// Start transaction (exclusive). `None` means from table genesis.
    pub from_exclusive: Option<TxnId>,
    /// End transaction (inclusive).
    pub to_inclusive: TxnId,
}

/// File-level transaction event kind.
#[derive(Debug, Clone, Copy, PartialEq, Eq, Structural)]
pub enum TxnFileChangeKind {
    /// File became visible in this transaction.
    Added,
    /// File became invisible in this transaction.
    Removed,
}

/// File-level transaction event.
#[derive(Debug)]
pub struct TxnFileChange {
    /// Transaction that emitted this file change.
    pub transaction_id: TxnId,
    /// Kind of file change.
    pub kind: TxnFileChangeKind,
    /// Full file metadata.
    pub file: File,
}

/// Schema-level transaction event.
#[derive(Debug)]
pub struct TxnSchemaChange {
    /// Transaction that emitted this schema change.
    pub transaction_id: TxnId,
    /// Schema that became active at this transaction.
    pub schema: Schema,
}

/// Event-log record for one transaction.
#[derive(Debug)]
pub struct TxnEvent {
    /// Transaction ID.
    pub transaction_id: TxnId,
    /// File changes emitted by this transaction.
    pub file_changes: Vec<TxnFileChange>,
    /// Optional schema change emitted by this transaction.
    pub schema_change: Option<TxnSchemaChange>,
}

/// Result returned by a successful commit.
#[derive(Debug)]
pub struct CommitResult {
    /// Transaction ID of the commit.
    pub transaction_id: TxnId,
    /// Optional updated table view.
    pub table_view: Option<TableView>,
}

/// Column specification for schema creation.
#[derive(Debug)]
pub struct ColumnSpec {
    /// Column name.
    pub name: String,
    /// Column type.
    pub column_type: DataType,
    /// Whether the column allows null values.
    pub is_nullable: bool,
}

/// What a column specification holds.
#[verifier::ext_equal]
pub struct ColumnSpecView {
    /// Column name.
    pub name: Seq<char>,
    /// Column type.
    pub column_type: TypeModel,
    /// Whether the column allows null values.
    pub is_nullable: bool,
}

impl View for ColumnSpec {
    type V = ColumnSpecView;

    open spec fn view(&self) -> ColumnSpecView {
        ColumnSpecView {
            name: self.name@,
            column_type: type_model(self.column_type),
            is_nullable: self.is_nullable,
        }
    }
}

impl Clone for ColumnSpec {
    fn clone(&self) -> (r: Self)
        ensures
            r@ == self@,
    {
        ColumnSpec {
            name: self.name.clone(),
            column_type: type_clone(&self.column_type),
            is_nullable: self.is_nullable,
        }
    }
}

impl ColumnSpec {
    /// Create a new column specification (non-nullable by default).
    pub fn new(name: &str, column_type: DataType) -> (r: Self)
        ensures
            r@ == (ColumnSpecView {
                name: name@,
                column_type: type_model(column_type),
                is_nullable: false,
            }),
    {
        ColumnSpec { name: String::from_str(name), column_type, is_nullable: false }
    }

    /// Mark the column as nullable.
    pub fn nullable(self) -> (r: Self)
        ensures
            r@ == (ColumnSpecView { is_nullable: true, ..self@ }),
    {
        ColumnSpec { name: self.name, column_type: self.column_type, is_nullable: true }
    }
}

/// Schema specification used when creating or evolving a table.
#[derive(Debug)]
pub struct SchemaSpec {
    /// Column specifications.
    pub columns: Vec<ColumnSpec>,
}

impl View for SchemaSpec {
    type V = Seq<ColumnSpecView>;

    open spec fn view(&self) -> Seq<ColumnSpecView> {
        Seq::new(self.columns@.len(), |i: int| self.columns@[i]@)
    }
}

impl Clone for SchemaSpec {
    fn clone(&self) -> (r: Self)
        ensures
            r@ == self@,
    {
        let mut columns: Vec<ColumnSpec> = Vec::new();
        for c in it: &self.columns
            invariant
                columns@.len() == it.index(),
                it.seq().len() == self.columns@.len(),
                forall|i: int| 0 <= i < it.seq().len() ==> *it.seq()[i] == self.columns@[i],
                forall|i: int| 0 <= i < columns@.len() ==> columns@[i]@ == self.columns@[i]@,
        {
            columns.push(c.clone());
        }
        SchemaSpec { columns }
    }
}

/// The first flaw in the names of columns: one that is blank, or that an earlier column has.
pub open spec fn names_flaw(columns: Seq<ColumnSpecView>) -> Option<ErrorView>
    decreases columns.len(),
{
    if columns.len() == 0 {
        None
    } else {
        match names_flaw(columns.drop_last()) {
            Some(e) => Some(e),
            None => {
                let name = columns.last().name;
                if blank(name) {
                    Some(ErrorView::InvalidArgument("column name cannot be empty"@))
                } else if exists|i: int|
                    0 <= i < columns.len() - 1 && (#[trigger] columns[i]).name == name {
                    Some(
                        ErrorView::InvalidArgument("duplicate column name: '"@ + name + "'"@),
                    )
                } else {
                    None
                }
            },
        }
    }
}

/// The refusal of a schema specification, if it is refused: it needs a column, has a limit of
/// them, and their names are not blank and differ.
pub open spec fn schema_flaw(columns: Seq<ColumnSpecView>) -> Option<ErrorView> {
    if columns.len() == 0 {
        Some(ErrorView::InvalidArgument("schema must include at least one column"@))
    } else if columns.len() > MAX_COLUMNS_PER_SCHEMA {
        Some(
            ErrorView::LimitExceeded(
                "schema has "@ + decimal_text(columns.len()) + " columns, exceeds limit of "@
                    + decimal_text(MAX_COLUMNS_PER_SCHEMA as nat),
            ),
        )
    } else {
        names_flaw(columns)
    }
}

proof fn names_flaw_stays(columns: Seq<ColumnSpecView>, n: nat)
    requires
        n <= columns.len(),
        names_flaw(columns.take(n as int)) is Some,
    ensures
        names_flaw(columns) == names_flaw(columns.take(n as int)),
    decreases columns.len(),
{
    if n == columns.len() {
        assert(columns.take(n as int) =~= columns);
    } else {
        assert(columns.drop_last().take(n as int) =~= columns.take(n as int));
        names_flaw_stays(columns.drop_last(), n);
    }
}

/// Columns without a flaw have names that are not blank and differ from each other.
pub proof fn sound_names_differ(columns: Seq<ColumnSpecView>)
    requires
        names_flaw(columns) is None,
    ensures
        forall|i: int| 0 <= i < columns.len() ==> !blank((#[trigger] columns[i]).name),
        forall|i: int, j: int|
            0 <= i < j < columns.len() ==> (#[trigger] columns[i]).name != (
            #[trigger] columns[j]).name,
    decreases columns.len(),
{
    if columns.len() > 0 {
        let front = columns.drop_last();
        sound_names_differ(front);
        assert forall|i: int| 0 <= i < columns.len() implies !blank(
            (#[trigger] columns[i]).name,
        ) by {
            if i < columns.len() - 1 {
                assert(front[i] == columns[i]);
            }
        }
        assert forall|i: int, j: int| 0 <= i < j < columns.len() implies (
        #[trigger] columns[i]).name != (#[trigger] columns[j]).name by {
            assert(front[i] == columns[i]);
            if j < columns.len() - 1 {
                assert(front[j] == columns[j]);
            }
        }
    }
}

impl SchemaSpec {
    /// Create an empty schema specification.
    pub fn new() -> (r: Self)
        ensures
            r@ == Seq::<ColumnSpecView>::empty(),
    {
        let r = SchemaSpec { columns: Vec::new() };
        assert(r@ =~= Seq::<ColumnSpecView>::empty());
        r
    }

    /// Add a column to the schema.
    pub fn with_column(self, column: ColumnSpec) -> (r: Self)
        ensures
            r@ == self@.push(column@),
    {
        let mut columns = self.columns;
        columns.push(column);
        let r = SchemaSpec { columns };
        assert(r@ =~= self@.push(column@));
        r
    }

    /// Add multiple columns to the schema.
    pub fn with_columns(self, columns: Vec<ColumnSpec>) -> (r: Self)
        ensures
            r@ == self@ + Seq::new(columns@.len(), |i: int| columns@[i]@),
    {
        let mut all = self.columns;
        let mut more = columns;
        all.append(&mut more);
        let r = SchemaSpec { columns: all };
        assert(r@ =~= self@ + Seq::new(columns@.len(), |i: int| columns@[i]@));
        r
    }

    /// Validate schema shape and column naming constraints.
    pub fn validate(&self) -> (r: Result<()>)
        ensures
            match r {
                Ok(_) => schema_flaw(self@) is None,
                Err(e) => schema_flaw(self@) == Some(e@),
            },
    {
        if self.columns.len() == 0 {
            return Err(
                CatalogError::InvalidArgument(
                    String::from_str("schema must include at least one column"),
                ),
            );
        }
        if self.columns.len() > MAX_COLUMNS_PER_SCHEMA as usize {
            let mut text = joined("schema has ", decimal(self.columns.len() as u64).as_str());
            text.append(" columns, exceeds limit of ");
            text.append(decimal(MAX_COLUMNS_PER_SCHEMA as u64).as_str());
            return Err(CatalogError::LimitExceeded(text));
        }
        let ghost columns = self@;
        let mut seen = StringHashSet::new();
        assert(columns.take(0) =~= Seq::<ColumnSpecView>::empty());
        for i in 0..self.columns.len()
            invariant
                columns == self@,
                0 < columns.len() <= MAX_COLUMNS_PER_SCHEMA,
                names_flaw(columns.take(i as int)) is None,
                forall|s: Seq<char>|
                    seen@.contains(s) <==> exists|k: int|
                        0 <= k < i && (#[trigger] columns[k]).name == s,
        {
            let name = self.columns[i].name.as_str();
            proof {
                assert(columns.take(i + 1).drop_last() =~= columns.take(i as int));
                assert(columns.take(i + 1).last() == columns[i as int]);
                assert forall|k: int| 0 <= k < i implies columns.take(i + 1)[k]
                    == #[trigger] columns[k] by {}
            }
            if is_blank(name) {
                proof {
                    names_flaw_stays(columns, (i + 1) as nat);
                }
                return Err(
                    CatalogError::InvalidArgument(String::from_str("column name cannot be empty")),
                );
            }
            if !seen.insert(String::from_str(name)) {
                proof {
                    let k = choose|k: int|
                        0 <= k < i && (#[trigger] columns[k]).name == name@;
                    assert(columns.take(i + 1)[k].name == name@);
                    names_flaw_stays(columns, (i + 1) as nat);
                }
                return Err(
                    CatalogError::InvalidArgument(joined3("duplicate column name: '", name, "'")),
                );
            }
            proof {
                assert forall|s: Seq<char>|
                    seen@.contains(s) <==> exists|k: int|
                        0 <= k < i + 1 && (#[trigger] columns[k]).name == s by {
                    if s == name@ {
                        assert(columns[i as int].name == s);
                    }
                }
            }
        }
        assert(columns.take(columns.len() as int) =~= columns);
        Ok(())
    }
}

impl Default for SchemaSpec {
    fn default() -> (r: Self)
        ensures
            r@ == Seq::<ColumnSpecView>::empty(),
    {
        SchemaSpec::new()
    }
}

} // verus!
