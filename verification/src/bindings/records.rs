//! Records of the catalog as plain values.

use vstd::prelude::*;
use vstd::string::*;

use super::data_type::{data_type_to_spec, describes, first_unsupported};
use super::value::{
    binding_tells, has_keys, is_text, pair, text, value_at, BindingError, BindingRefusal, SpecValue,
};
use crate::catalog::models::{CommitResult, TableDelta, TableView};
use crate::catalog::read::SnapshotView;
use crate::catalog::data_type::TypeModel;
use crate::catalog::schema::{
    column_views, file_views, json_option, Column, ColumnView, File, FileView, Schema, SchemaView,
    TableStats,
};
use crate::ids::{hyphenated, Uuid};
use crate::json::{json_model, value_clone, JsonModel};
use crate::time::{rfc3339_text, Timestamp};

verus! {

/// A value that tells an identifier.
pub open spec fn is_id(v: SpecValue, id: Uuid) -> bool {
    is_text(v, hyphenated(id.value as nat))
}

/// A value that tells a point in time.
pub open spec fn is_time_of(v: SpecValue, t: Timestamp) -> bool {
    is_text(v, rfc3339_text(t@.0, t@.1))
}

fn time(t: &Timestamp) -> (r: SpecValue)
    ensures
        is_time_of(r, *t),
{
    SpecValue::Text(t.to_rfc3339())
}

/// A value that tells an identifier, if there is one.
pub open spec fn is_optional_id(v: SpecValue, id: Option<Uuid>) -> bool {
    match id {
        Some(x) => is_id(v, x),
        None => v is Nothing,
    }
}

/// A value that tells what a JSON value holds.
pub open spec fn is_json(v: SpecValue, m: JsonModel) -> bool {
    v matches SpecValue::Json(x) && json_model(x) == m
}

/// A value that tells what a JSON value holds, if there is one.
pub open spec fn is_optional_json(v: SpecValue, m: Option<JsonModel>) -> bool {
    match m {
        Some(x) => is_json(v, x),
        None => v is Nothing,
    }
}

/// The keys under which a file is told.
pub open spec fn file_keys() -> Seq<Seq<char>> {
    seq![
        "file_uuid"@,
        "table_uuid"@,
        "file_format"@,
        "file_path"@,
        "record_count"@,
        "file_size_bytes"@,
        "added_in_transaction_id"@,
        "removed_in_transaction_id"@,
        "partition_values"@,
        "format_options"@,
    ]
}

/// A value tells of a file.
pub open spec fn tells_file(v: SpecValue, f: FileView) -> bool {
    &&& has_keys(v, file_keys())
    &&& is_id(value_at(v, 0), f.file_uuid)
    &&& is_id(value_at(v, 1), f.table_uuid)
    &&& is_text(value_at(v, 2), f.file_format)
    &&& is_text(value_at(v, 3), f.file_path)
    &&& value_at(v, 4) == SpecValue::Int(f.record_count)
    &&& value_at(v, 5) == SpecValue::Int(f.file_size_bytes)
    &&& is_id(value_at(v, 6), f.added_in_transaction_id)
    &&& is_optional_id(value_at(v, 7), f.removed_in_transaction_id)
    &&& is_optional_json(value_at(v, 8), f.partition_values)
    &&& is_optional_json(value_at(v, 9), f.format_options)
}

/// A value tells of files, in their order.
pub open spec fn tells_files(v: SpecValue, files: Seq<FileView>) -> bool {
    v matches SpecValue::List(items) && items@.len() == files.len() && forall|i: int|
        0 <= i < files.len() ==> tells_file(#[trigger] items@[i], files[i])
}

/// A value tells of a column.
pub open spec fn tells_column(v: SpecValue, c: ColumnView) -> bool {
    &&& has_keys(
        v,
        seq![
            "column_uuid"@,
            "schema_uuid"@,
            "column_name"@,
            "column_type"@,
            "ordinal_position"@,
            "is_nullable"@,
        ],
    )
    &&& is_id(value_at(v, 0), c.column_uuid)
    &&& is_id(value_at(v, 1), c.schema_uuid)
    &&& is_text(value_at(v, 2), c.column_name)
    &&& describes(value_at(v, 3), c.column_type)
    &&& value_at(v, 4) == SpecValue::Int(c.ordinal_position as i64)
    &&& value_at(v, 5) == SpecValue::Bool(c.is_nullable)
}

/// A value tells of columns, in their order.
pub open spec fn tells_columns(v: SpecValue, columns: Seq<ColumnView>) -> bool {
    v matches SpecValue::List(items) && items@.len() == columns.len() && forall|i: int|
        0 <= i < columns.len() ==> tells_column(#[trigger] items@[i], columns[i])
}

/// A value tells of a schema version.
pub open spec fn tells_schema(v: SpecValue, s: SchemaView) -> bool {
    &&& has_keys(
        v,
        seq![
            "schema_uuid"@,
            "table_uuid"@,
            "schema_version"@,
            "valid_from_transaction_id"@,
            "valid_to_transaction_id"@,
            "created_at"@,
            "columns"@,
        ],
    )
    &&& is_id(value_at(v, 0), s.schema_uuid)
    &&& is_id(value_at(v, 1), s.table_uuid)
    &&& value_at(v, 2) == SpecValue::Int(s.schema_version as i64)
    &&& is_id(value_at(v, 3), s.valid_from_transaction_id)
    &&& is_optional_id(value_at(v, 4), s.valid_to_transaction_id)
    &&& is_time_of(value_at(v, 5), s.created_at)
    &&& tells_columns(value_at(v, 6), s.columns)
}

/// The first type of a column that bindings do not have.
pub open spec fn first_untold(columns: Seq<ColumnView>) -> Option<TypeModel>
    decreases columns.len(),
{
    if columns.len() == 0 {
        None
    } else {
        match first_unsupported(columns[0].column_type) {
            Some(m) => Some(m),
            None => first_untold(columns.drop_first()),
        }
    }
}

/// A value tells of statistics.
pub open spec fn tells_stats(v: SpecValue, s: TableStats) -> bool {
    &&& has_keys(
        v,
        seq![
            "table_uuid"@,
            "transaction_id"@,
            "record_count"@,
            "file_size_bytes"@,
            "file_count"@,
            "last_updated"@,
        ],
    )
    &&& is_id(value_at(v, 0), s.table_uuid)
    &&& is_id(value_at(v, 1), s.transaction_id)
    &&& value_at(v, 2) == SpecValue::Int(s.record_count)
    &&& value_at(v, 3) == SpecValue::Int(s.file_size_bytes)
    &&& value_at(v, 4) == SpecValue::Int(s.file_count as i64)
    &&& is_time_of(value_at(v, 5), s.last_updated)
}

/// A value tells of a table snapshot.
pub open spec fn tells_snapshot(v: SpecValue, s: SnapshotView) -> bool {
    &&& has_keys(
        v,
        seq![
            "ident"@,
            "table_uuid"@,
            "transaction_id"@,
            "schema"@,
            "files"@,
            "properties"@,
            "stats"@,
        ],
    )
    &&& has_keys(value_at(v, 0), seq!["namespace"@, "name"@])
    &&& is_text(value_at(value_at(v, 0), 0), s.namespace)
    &&& is_text(value_at(value_at(v, 0), 1), s.name)
    &&& is_id(value_at(v, 1), s.table_uuid)
    &&& is_id(value_at(v, 2), s.transaction_id)
    &&& tells_schema(value_at(v, 3), s.schema)
    &&& tells_files(value_at(v, 4), s.files)
    &&& is_json(value_at(v, 5), JsonModel::Object(s.properties))
    &&& match s.stats {
        Some(stats) => tells_stats(value_at(v, 6), stats),
        None => value_at(v, 6) is Nothing,
    }
}

/// A value tells of the difference between two snapshots.
pub open spec fn tells_delta(v: SpecValue, d: TableDelta) -> bool {
    &&& has_keys(
        v,
        seq![
            "from_transaction_id"@,
            "to_transaction_id"@,
            "added_files"@,
            "removed_files"@,
            "new_schema"@,
            "new_properties"@,
        ],
    )
    &&& is_id(value_at(v, 0), d.from_transaction_id)
    &&& is_id(value_at(v, 1), d.to_transaction_id)
    &&& tells_files(value_at(v, 2), file_views(d.added_files@))
    &&& tells_files(value_at(v, 3), file_views(d.removed_files@))
    &&& match d.new_schema {
        Some(schema) => tells_schema(value_at(v, 4), schema@),
        None => value_at(v, 4) is Nothing,
    }
    &&& match d.new_properties {
        Some(properties) => is_json(value_at(v, 5), JsonModel::Object(properties@)),
        None => value_at(v, 5) is Nothing,
    }
}

/// A value tells of a commit.
pub open spec fn tells_commit(v: SpecValue, c: CommitResult) -> bool {
    &&& has_keys(v, seq!["transaction_id"@, "table_view"@])
    &&& is_id(value_at(v, 0), c.transaction_id)
    &&& match c.table_view {
        Some(view) => tells_snapshot(value_at(v, 1), view@),
        None => value_at(v, 1) is Nothing,
    }
}

fn id(given: &Uuid) -> (r: SpecValue)
    ensures
        is_id(r, *given),
{
    SpecValue::Text(given.to_string())
}

fn optional_id(given: &Option<Uuid>) -> (r: SpecValue)
    ensures
        is_optional_id(r, *given),
{
    match given {
        Some(x) => id(x),
        None => SpecValue::Nothing,
    }
}

fn optional_json(given: &Option<serde_json::Value>) -> (r: SpecValue)
    ensures
        is_optional_json(r, json_option(*given)),
{
    match given {
        Some(x) => SpecValue::Json(value_clone(x)),
        None => SpecValue::Nothing,
    }
}

/// Tells of a file.
pub fn file_to_spec(file: &File) -> (r: SpecValue)
    ensures
        tells_file(r, file@),
{
    let mut pairs: Vec<(String, SpecValue)> = Vec::new();
    pairs.push(pair("file_uuid", id(&file.file_uuid)));
    pairs.push(pair("table_uuid", id(&file.table_uuid)));
    pairs.push(pair("file_format", text(file.file_format.as_str())));
    pairs.push(pair("file_path", text(file.file_path.as_str())));
    pairs.push(pair("record_count", SpecValue::Int(file.record_count)));
    pairs.push(pair("file_size_bytes", SpecValue::Int(file.file_size_bytes)));
    pairs.push(pair("added_in_transaction_id", id(&file.added_in_transaction_id)));
    pairs.push(pair("removed_in_transaction_id", optional_id(&file.removed_in_transaction_id)));
    pairs.push(pair("partition_values", optional_json(&file.partition_values)));
    pairs.push(pair("format_options", optional_json(&file.format_options)));
    SpecValue::Dict(pairs)
}

fn files_to_spec(files: &Vec<File>) -> (r: SpecValue)
    ensures
        tells_files(r, file_views(files@)),
{
    let mut items: Vec<SpecValue> = Vec::new();
    for i in 0..files.len()
        invariant
            items@.len() == i,
            forall|k: int| 0 <= k < i ==> tells_file(#[trigger] items@[k], files@[k]@),
    {
        items.push(file_to_spec(&files[i]));
    }
    SpecValue::List(items)
}

fn column_to_spec(column: &Column) -> (r: Result<SpecValue, BindingError>)
    ensures
        match r {
            Ok(v) => first_unsupported(column@.column_type) is None && tells_column(v, column@),
            Err(e) => first_unsupported(column@.column_type) is Some && binding_tells(
                e,
                BindingRefusal::UnsupportedType(first_unsupported(column@.column_type)->0),
            ),
        },
{
    let column_type = match data_type_to_spec(&column.column_type) {
        Ok(v) => v,
        Err(e) => return Err(e),
    };
    let mut pairs: Vec<(String, SpecValue)> = Vec::new();
    pairs.push(pair("column_uuid", id(&column.column_uuid)));
    pairs.push(pair("schema_uuid", id(&column.schema_uuid)));
    pairs.push(pair("column_name", text(column.column_name.as_str())));
    pairs.push(pair("column_type", column_type));
    pairs.push(pair("ordinal_position", SpecValue::Int(column.ordinal_position as i64)));
    pairs.push(pair("is_nullable", SpecValue::Bool(column.is_nullable)));
    Ok(SpecValue::Dict(pairs))
}

/// Tells of a schema version. One with a column of a type that bindings do not have is refused.
pub fn schema_to_spec(schema: &Schema) -> (r: Result<SpecValue, BindingError>)
    ensures
        match r {
            Ok(v) => first_untold(schema@.columns) is None && tells_schema(v, schema@),
            Err(e) => first_untold(schema@.columns) is Some && binding_tells(
                e,
                BindingRefusal::UnsupportedType(first_untold(schema@.columns)->0),
            ),
        },
{
    let ghost columns = schema@.columns;
    let n: usize = schema.columns.len();
    let mut items: Vec<SpecValue> = Vec::new();
    assert(columns.skip(0) =~= columns);
    for i in 0..n
        invariant
            columns == column_views(schema.columns@),
            n == schema.columns@.len(),
            items@.len() == i,
            forall|k: int| 0 <= k < i ==> tells_column(#[trigger] items@[k], columns[k]),
            first_untold(columns) == first_untold(columns.skip(i as int)),
    {
        assert(columns.skip(i as int)[0] == schema.columns@[i as int]@);
        assert(columns.skip(i as int).drop_first() =~= columns.skip(i + 1));
        match column_to_spec(&schema.columns[i]) {
            Ok(v) => items.push(v),
            Err(e) => return Err(e),
        }
    }
    let mut pairs: Vec<(String, SpecValue)> = Vec::new();
    pairs.push(pair("schema_uuid", id(&schema.schema_uuid)));
    pairs.push(pair("table_uuid", id(&schema.table_uuid)));
    pairs.push(pair("schema_version", SpecValue::Int(schema.schema_version as i64)));
    pairs.push(pair("valid_from_transaction_id", id(&schema.valid_from_transaction_id)));
    pairs.push(pair("valid_to_transaction_id", optional_id(&schema.valid_to_transaction_id)));
    pairs.push(pair("created_at", time(&schema.created_at)));
    pairs.push(pair("columns", SpecValue::List(items)));
    Ok(SpecValue::Dict(pairs))
}

/// Tells of statistics.
pub fn table_stats_to_spec(stats: &TableStats) -> (r: SpecValue)
    ensures
        tells_stats(r, *stats),
{
    let mut pairs: Vec<(String, SpecValue)> = Vec::new();
    pairs.push(pair("table_uuid", id(&stats.table_uuid)));
    pairs.push(pair("transaction_id", id(&stats.transaction_id)));
    pairs.push(pair("record_count", SpecValue::Int(stats.record_count)));
    pairs.push(pair("file_size_bytes", SpecValue::Int(stats.file_size_bytes)));
    pairs.push(pair("file_count", SpecValue::Int(stats.file_count as i64)));
    pairs.push(pair("last_updated", time(&stats.last_updated)));
    SpecValue::Dict(pairs)
}

/// Tells of a table snapshot. One whose schema has a column of a type that bindings do not have
/// is refused.
pub fn table_view_to_spec(view: &TableView) -> (r: Result<SpecValue, BindingError>)
    ensures
        match r {
            Ok(v) => first_untold(view@.schema.columns) is None && tells_snapshot(v, view@),
            Err(e) => first_untold(view@.schema.columns) is Some && binding_tells(
                e,
                BindingRefusal::UnsupportedType(first_untold(view@.schema.columns)->0),
            ),
        },
{
    let schema = match schema_to_spec(&view.schema) {
        Ok(v) => v,
        Err(e) => return Err(e),
    };
    let mut ident: Vec<(String, SpecValue)> = Vec::new();
    ident.push(pair("namespace", text(view.ident.namespace.as_str())));
    ident.push(pair("name", text(view.ident.name.as_str())));
    let stats = match &view.stats {
        Some(stats) => table_stats_to_spec(stats),
        None => SpecValue::Nothing,
    };
    let mut pairs: Vec<(String, SpecValue)> = Vec::new();
    pairs.push(pair("ident", SpecValue::Dict(ident)));
    pairs.push(pair("table_uuid", id(&view.table_uuid)));
    pairs.push(pair("transaction_id", id(&view.transaction_id)));
    pairs.push(pair("schema", schema));
    pairs.push(pair("files", files_to_spec(&view.files)));
    pairs.push(pair("properties", SpecValue::Json(view.properties.to_json())));
    pairs.push(pair("stats", stats));
    Ok(SpecValue::Dict(pairs))
}

/// The first type of a new schema that bindings do not have.
pub open spec fn first_untold_of(schema: Option<Schema>) -> Option<TypeModel> {
    match schema {
        Some(s) => first_untold(s@.columns),
        None => None,
    }
}

/// Tells of the difference between two snapshots.
pub fn table_delta_to_spec(delta: &TableDelta) -> (r: Result<SpecValue, BindingError>)
    ensures
        match r {
            Ok(v) => first_untold_of(delta.new_schema) is None && tells_delta(v, *delta),
            Err(e) => first_untold_of(delta.new_schema) is Some && binding_tells(
                e,
                BindingRefusal::UnsupportedType(first_untold_of(delta.new_schema)->0),
            ),
        },
{
    let schema = match &delta.new_schema {
        Some(schema) => match schema_to_spec(schema) {
            Ok(v) => v,
            Err(e) => return Err(e),
        },
        None => SpecValue::Nothing,
    };
    let properties = match &delta.new_properties {
        Some(properties) => SpecValue::Json(properties.to_json()),
        None => SpecValue::Nothing,
    };
    let mut pairs: Vec<(String, SpecValue)> = Vec::new();
    pairs.push(pair("from_transaction_id", id(&delta.from_transaction_id)));
    pairs.push(pair("to_transaction_id", id(&delta.to_transaction_id)));
    pairs.push(pair("added_files", files_to_spec(&delta.added_files)));
    pairs.push(pair("removed_files", files_to_spec(&delta.removed_files)));
    pairs.push(pair("new_schema", schema));
    pairs.push(pair("new_properties", properties));
    Ok(SpecValue::Dict(pairs))
}

/// The first type of a snapshot that bindings do not have.
pub open spec fn first_untold_in(view: Option<TableView>) -> Option<TypeModel> {
    match view {
        Some(v) => first_untold(v@.schema.columns),
        None => None,
    }
}

/// Tells of a commit.
pub fn commit_result_to_spec(result: &CommitResult) -> (r: Result<SpecValue, BindingError>)
    ensures
        match r {
            Ok(v) => first_untold_in(result.table_view) is None && tells_commit(v, *result),
            Err(e) => first_untold_in(result.table_view) is Some && binding_tells(
                e,
                BindingRefusal::UnsupportedType(first_untold_in(result.table_view)->0),
            ),
        },
{
    let view = match &result.table_view {
        Some(view) => match table_view_to_spec(view) {
            Ok(v) => v,
            Err(e) => return Err(e),
        },
        None => SpecValue::Nothing,
    };
    let mut pairs: Vec<(String, SpecValue)> = Vec::new();
    pairs.push(pair("transaction_id", id(&result.transaction_id)));
    pairs.push(pair("table_view", view));
    Ok(SpecValue::Dict(pairs))
}

} // verus!
