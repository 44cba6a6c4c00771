//! Records of the catalog database.

use vstd::prelude::*;
use vstd::string::*;

use super::data_type::{type_clone, type_model, TypeModel};
use crate::ids::Uuid;
use crate::json::{json_model, value_clone, JsonModel};
use crate::time::Timestamp;

use arrow::datatypes::DataType;

verus! {

/// Database table metadata.
#[derive(Debug)]
pub struct Table {
    /// Unique table identifier.
    pub table_uuid: Uuid,
    /// Table name.
    pub table_name: String,
    /// Table namespace.
    pub namespace: String,
    /// Storage location.
    pub location: String,
    /// Current schema UUID.
    pub current_schema_uuid: Option<Uuid>,
    /// Current transaction ID.
    pub current_transaction_id: Option<Uuid>,
    /// Creation timestamp.
    pub created_at: Timestamp,
    /// Table properties.
    pub properties: serde_json::Value,
}

/// Transaction record.
#[derive(Clone, Copy, PartialEq, Eq, Debug)]
pub struct Transaction {
    /// Transaction identifier.
    pub transaction_id: Uuid,
    /// Table UUID.
    pub table_uuid: Uuid,
    /// Transaction timestamp.
    pub transaction_timestamp: Timestamp,
    /// Parent transaction ID if this is a child transaction.
    pub parent_transaction_id: Option<Uuid>,
}

/// Schema version with columns.
#[derive(Debug)]
pub struct Schema {
    /// Schema UUID.
    pub schema_uuid: Uuid,
    /// Table UUID.
    pub table_uuid: Uuid,
    /// Schema version number.
    pub schema_version: i32,
    /// Transaction ID where this schema becomes valid.
    pub valid_from_transaction_id: Uuid,
    /// Transaction ID where this schema becomes invalid (if superseded).
    pub valid_to_transaction_id: Option<Uuid>,
    /// Creation timestamp.
    pub created_at: Timestamp,
    /// Column definitions.
    pub columns: Vec<Column>,
}

/// Column definition.
#[derive(Debug)]
pub struct Column {
    /// Column UUID.
    pub column_uuid: Uuid,
    /// Schema UUID this column belongs to.
    pub schema_uuid: Uuid,
    /// Column name.
    pub column_name: String,
    /// Column type.
    pub column_type: DataType,
    /// Column position in schema.
    pub ordinal_position: i32,
    /// Whether the column allows null values.
    pub is_nullable: bool,
}

/// File metadata.
#[derive(Debug)]
pub struct File {
    /// File UUID.
    pub file_uuid: Uuid,
    /// Table UUID this file belongs to.
    pub table_uuid: Uuid,
    /// File format (e.g., "parquet", "lance", "vortex").
    pub file_format: String,
    /// File path.
    pub file_path: String,
    /// Number of records in the file.
    pub record_count: i64,
    /// File size in bytes.
    pub file_size_bytes: i64,
    /// Transaction ID where this file was added.
    pub added_in_transaction_id: Uuid,
    /// Transaction ID where this file was removed (if deleted).
    pub removed_in_transaction_id: Option<Uuid>,
    /// Partition values if partitioned.
    pub partition_values: Option<serde_json::Value>,
    /// Format-specific options for this file.
    pub format_options: Option<serde_json::Value>,
}

/// Table statistics at a transaction.
#[derive(Clone, Copy, PartialEq, Eq, Debug)]
pub struct TableStats {
    /// Table UUID.
    pub table_uuid: Uuid,
    /// Transaction ID these stats are for.
    pub transaction_id: Uuid,
    /// Total record count.
    pub record_count: i64,
    /// Total file size in bytes.
    pub file_size_bytes: i64,
    /// Number of files.
    pub file_count: i32,
    /// Last update timestamp.
    pub last_updated: Timestamp,
}

/// Column-level statistics for a file.
#[derive(Debug)]
pub struct FileColumnStats {
    /// File UUID.
    pub file_uuid: Uuid,
    /// Column name.
    pub column_name: String,
    /// Number of null values.
    pub null_count: i64,
    /// Number of NaN values.
    pub nan_count: i64,
    /// Minimum value (serialized).
    pub min_value: Option<Vec<u8>>,
    /// Maximum value (serialized).
    pub max_value: Option<Vec<u8>>,
    /// Distinct value count.
    pub distinct_count: Option<i64>,
}

/// What a column definition holds.
#[verifier::ext_equal]
pub struct ColumnView {
    /// Column UUID.
    pub column_uuid: Uuid,
    /// Schema UUID.
    pub schema_uuid: Uuid,
    /// Column name.
    pub column_name: Seq<char>,
    /// Column type.
    pub column_type: TypeModel,
    /// Column position in schema.
    pub ordinal_position: i32,
    /// Whether the column allows null values.
    pub is_nullable: bool,
}

impl View for Column {
    type V = ColumnView;

    open spec fn view(&self) -> ColumnView {
        ColumnView {
            column_uuid: self.column_uuid,
            schema_uuid: self.schema_uuid,
            column_name: self.column_name@,
            column_type: type_model(self.column_type),
            ordinal_position: self.ordinal_position,
            is_nullable: self.is_nullable,
        }
    }
}

/// What a list of column definitions holds.
pub open spec fn column_views(columns: Seq<Column>) -> Seq<ColumnView> {
    Seq::new(columns.len(), |i: int| columns[i]@)
}

/// What a schema version holds.
#[verifier::ext_equal]
pub struct SchemaView {
    /// Schema UUID.
    pub schema_uuid: Uuid,
    /// Table UUID.
    pub table_uuid: Uuid,
    /// Schema version number.
    pub schema_version: i32,
    /// Transaction ID where this schema becomes valid.
    pub valid_from_transaction_id: Uuid,
    /// Transaction ID where this schema becomes invalid.
    pub valid_to_transaction_id: Option<Uuid>,
    /// Creation timestamp.
    pub created_at: Timestamp,
    /// Column definitions.
    pub columns: Seq<ColumnView>,
}

impl View for Schema {
    type V = SchemaView;

    open spec fn view(&self) -> SchemaView {
        SchemaView {
            schema_uuid: self.schema_uuid,
            table_uuid: self.table_uuid,
            schema_version: self.schema_version,
            valid_from_transaction_id: self.valid_from_transaction_id,
            valid_to_transaction_id: self.valid_to_transaction_id,
            created_at: self.created_at,
            columns: column_views(self.columns@),
        }
    }
}

/// What an optional JSON value holds.
pub open spec fn json_option(v: Option<serde_json::Value>) -> Option<JsonModel> {
    match v {
        Some(x) => Some(json_model(x)),
        None => None,
    }
}

/// What file metadata holds.
#[verifier::ext_equal]
pub struct FileView {
    /// File UUID.
    pub file_uuid: Uuid,
    /// Table UUID.
    pub table_uuid: Uuid,
    /// File format.
    pub file_format: Seq<char>,
    /// File path.
    pub file_path: Seq<char>,
    /// Number of records in the file.
    pub record_count: i64,
    /// File size in bytes.
    pub file_size_bytes: i64,
    /// Transaction ID where this file was added.
    pub added_in_transaction_id: Uuid,
    /// Transaction ID where this file was removed.
    pub removed_in_transaction_id: Option<Uuid>,
    /// Partition values.
    pub partition_values: Option<JsonModel>,
    /// Format-specific options.
    pub format_options: Option<JsonModel>,
}

impl View for File {
    type V = FileView;

    open spec fn view(&self) -> FileView {
        FileView {
            file_uuid: self.file_uuid,
            table_uuid: self.table_uuid,
            file_format: self.file_format@,
            file_path: self.file_path@,
            record_count: self.record_count,
            file_size_bytes: self.file_size_bytes,
            added_in_transaction_id: self.added_in_transaction_id,
            removed_in_transaction_id: self.removed_in_transaction_id,
            partition_values: json_option(self.partition_values),
            format_options: json_option(self.format_options),
        }
    }
}

/// What a list of file metadata holds.
pub open spec fn file_views(files: Seq<File>) -> Seq<FileView> {
    Seq::new(files.len(), |i: int| files[i]@)
}

/// Copies an optional JSON value.
pub(crate) fn clone_json(v: &Option<serde_json::Value>) -> (r: Option<serde_json::Value>)
    ensures
        json_option(r) == json_option(*v),
{
    match v {
        Some(x) => Some(value_clone(x)),
        None => None,
    }
}

impl Clone for Column {
    fn clone(&self) -> (r: Self)
        ensures
            r@ == self@,
    {
        Column {
            column_uuid: self.column_uuid,
            schema_uuid: self.schema_uuid,
            column_name: self.column_name.clone(),
            column_type: type_clone(&self.column_type),
            ordinal_position: self.ordinal_position,
            is_nullable: self.is_nullable,
        }
    }
}

impl Clone for Schema {
    fn clone(&self) -> (r: Self)
        ensures
            r@ == self@,
    {
        let mut columns: Vec<Column> = Vec::new();
        for i in 0..self.columns.len()
            invariant
                columns@.len() == i,
                forall|k: int| 0 <= k < i ==> (#[trigger] columns@[k])@ == self.columns@[k]@,
        {
            columns.push(self.columns[i].clone());
        }
        assert(column_views(columns@) =~= column_views(self.columns@));
        Schema {
            schema_uuid: self.schema_uuid,
            table_uuid: self.table_uuid,
            schema_version: self.schema_version,
            valid_from_transaction_id: self.valid_from_transaction_id,
            valid_to_transaction_id: self.valid_to_transaction_id,
            created_at: self.created_at,
            columns,
        }
    }
}

impl Clone for File {
    fn clone(&self) -> (r: Self)
        ensures
            r@ == self@,
    {
        File {
            file_uuid: self.file_uuid,
            table_uuid: self.table_uuid,
            file_format: self.file_format.clone(),
            file_path: self.file_path.clone(),
            record_count: self.record_count,
            file_size_bytes: self.file_size_bytes,
            added_in_transaction_id: self.added_in_transaction_id,
            removed_in_transaction_id: self.removed_in_transaction_id,
            partition_values: clone_json(&self.partition_values),
            format_options: clone_json(&self.format_options),
        }
    }
}

} // verus!
