//! That bindings tell each thing under its own name.

use vstd::prelude::*;
use vstd::string::*;

use super::arguments::bad_id;
use super::data_type::{
    describes, describes_field, first_unsupported, first_unsupported_among, int_under, key_position,
    key_position_is_one, kind_of_simple, named_unit, parsed_field, parsed_fields, parsed_type,
    simple_kind, unit_name, unit_names_read_back, value_under,
};
use super::records::{
    first_untold, is_id, is_json, is_optional_id, is_optional_json, is_time_of, tells_column, tells_columns,
    tells_commit, tells_delta, tells_file, tells_files, tells_schema, tells_snapshot, tells_stats,
};
use super::value::{
    binding_tells, has_keys, is_text, value_at, BindingError, BindingRefusal, Expected, SpecValue,
};
use crate::catalog::data_type::{type_model, FieldModel, ListKind, TypeModel};
use crate::catalog::models::{CommitResult, TableDelta};
use crate::catalog::read::SnapshotView;
use crate::catalog::schema::{file_views, ColumnView, FileView, SchemaView, TableStats};
use crate::catalog::values::{integer_range, is_signed, nanoseconds};
use crate::ids::{hyphenated, uuid_parse, Uuid};
use crate::json::{json_model, JsonModel};
use crate::text::decimal_text;
use crate::time::{rfc3339_text, Timestamp};

use arrow::datatypes::{DataType, TimeUnit};

verus! {

proof fn told_under(v: SpecValue, keys: Seq<Seq<char>>, i: int)
    requires
        has_keys(v, keys),
        0 <= i < keys.len(),
        forall|j: int| 0 <= j < keys.len() && j != i ==> #[trigger] keys[j] != keys[i],
    ensures
        value_under(v, keys[i]) == Some(value_at(v, i)),
{
    let pairs = v->Dict_0@;
    key_position_is_one(pairs, keys[i]);
    assert(pairs[i].0@ == keys[i]);
}

/// In what is told of files, each thing stands under its name.
pub proof fn files_are_told_by_name(v: SpecValue, f: FileView)
    requires
        tells_file(v, f),
    ensures
        value_under(v, "file_uuid"@) matches Some(x) && (is_id(x, f.file_uuid)),
        value_under(v, "table_uuid"@) matches Some(x) && (is_id(x, f.table_uuid)),
        value_under(v, "file_format"@) matches Some(x) && (is_text(x, f.file_format)),
        value_under(v, "file_path"@) matches Some(x) && (is_text(x, f.file_path)),
        value_under(v, "record_count"@) matches Some(x) && (x == SpecValue::Int(f.record_count)),
        value_under(v, "file_size_bytes"@) matches Some(x) && (x == SpecValue::Int(f.file_size_bytes)),
        value_under(v, "added_in_transaction_id"@) matches Some(x) && (is_id(x, f.added_in_transaction_id)),
        value_under(v, "removed_in_transaction_id"@) matches Some(x) && (is_optional_id(x, f.removed_in_transaction_id)),
        value_under(v, "partition_values"@) matches Some(x) && (is_optional_json(x, f.partition_values)),
        value_under(v, "format_options"@) matches Some(x) && (is_optional_json(x, f.format_options)),
{
    reveal_strlit("file_uuid");
    reveal_strlit("table_uuid");
    reveal_strlit("file_format");
    reveal_strlit("file_path");
    reveal_strlit("record_count");
    reveal_strlit("file_size_bytes");
    reveal_strlit("added_in_transaction_id");
    reveal_strlit("removed_in_transaction_id");
    reveal_strlit("partition_values");
    reveal_strlit("format_options");
    assert("file_uuid"@.len() != "table_uuid"@.len());
    assert("file_uuid"@.len() != "file_format"@.len());
    assert("file_uuid"@[5] != "file_path"@[5]);
    assert("file_uuid"@.len() != "record_count"@.len());
    assert("file_uuid"@.len() != "file_size_bytes"@.len());
    assert("file_uuid"@.len() != "added_in_transaction_id"@.len());
    assert("file_uuid"@.len() != "removed_in_transaction_id"@.len());
    assert("file_uuid"@.len() != "partition_values"@.len());
    assert("file_uuid"@.len() != "format_options"@.len());
    assert("table_uuid"@.len() != "file_format"@.len());
    assert("table_uuid"@.len() != "file_path"@.len());
    assert("table_uuid"@.len() != "record_count"@.len());
    assert("table_uuid"@.len() != "file_size_bytes"@.len());
    assert("table_uuid"@.len() != "added_in_transaction_id"@.len());
    assert("table_uuid"@.len() != "removed_in_transaction_id"@.len());
    assert("table_uuid"@.len() != "partition_values"@.len());
    assert("table_uuid"@.len() != "format_options"@.len());
    assert("file_format"@.len() != "file_path"@.len());
    assert("file_format"@.len() != "record_count"@.len());
    assert("file_format"@.len() != "file_size_bytes"@.len());
    assert("file_format"@.len() != "added_in_transaction_id"@.len());
    assert("file_format"@.len() != "removed_in_transaction_id"@.len());
    assert("file_format"@.len() != "partition_values"@.len());
    assert("file_format"@.len() != "format_options"@.len());
    assert("file_path"@.len() != "record_count"@.len());
    assert("file_path"@.len() != "file_size_bytes"@.len());
    assert("file_path"@.len() != "added_in_transaction_id"@.len());
    assert("file_path"@.len() != "removed_in_transaction_id"@.len());
    assert("file_path"@.len() != "partition_values"@.len());
    assert("file_path"@.len() != "format_options"@.len());
    assert("record_count"@.len() != "file_size_bytes"@.len());
    assert("record_count"@.len() != "added_in_transaction_id"@.len());
    assert("record_count"@.len() != "removed_in_transaction_id"@.len());
    assert("record_count"@.len() != "partition_values"@.len());
    assert("record_count"@.len() != "format_options"@.len());
    assert("file_size_bytes"@.len() != "added_in_transaction_id"@.len());
    assert("file_size_bytes"@.len() != "removed_in_transaction_id"@.len());
    assert("file_size_bytes"@.len() != "partition_values"@.len());
    assert("file_size_bytes"@.len() != "format_options"@.len());
    assert("added_in_transaction_id"@.len() != "removed_in_transaction_id"@.len());
    assert("added_in_transaction_id"@.len() != "partition_values"@.len());
    assert("added_in_transaction_id"@.len() != "format_options"@.len());
    assert("removed_in_transaction_id"@.len() != "partition_values"@.len());
    assert("removed_in_transaction_id"@.len() != "format_options"@.len());
    assert("partition_values"@.len() != "format_options"@.len());
    let keys = seq!["file_uuid"@, "table_uuid"@, "file_format"@, "file_path"@, "record_count"@, "file_size_bytes"@, "added_in_transaction_id"@, "removed_in_transaction_id"@, "partition_values"@, "format_options"@];
    assert(keys[0] == "file_uuid"@);
    assert(keys[1] == "table_uuid"@);
    assert(keys[2] == "file_format"@);
    assert(keys[3] == "file_path"@);
    assert(keys[4] == "record_count"@);
    assert(keys[5] == "file_size_bytes"@);
    assert(keys[6] == "added_in_transaction_id"@);
    assert(keys[7] == "removed_in_transaction_id"@);
    assert(keys[8] == "partition_values"@);
    assert(keys[9] == "format_options"@);
    assert(has_keys(v, keys));
    told_under(v, keys, 0);
    told_under(v, keys, 1);
    told_under(v, keys, 2);
    told_under(v, keys, 3);
    told_under(v, keys, 4);
    told_under(v, keys, 5);
    told_under(v, keys, 6);
    told_under(v, keys, 7);
    told_under(v, keys, 8);
    told_under(v, keys, 9);
}

/// In what is told of columns, each thing stands under its name.
pub proof fn columns_are_told_by_name(v: SpecValue, c: ColumnView)
    requires
        tells_column(v, c),
    ensures
        value_under(v, "column_uuid"@) matches Some(x) && (is_id(x, c.column_uuid)),
        value_under(v, "schema_uuid"@) matches Some(x) && (is_id(x, c.schema_uuid)),
        value_under(v, "column_name"@) matches Some(x) && (is_text(x, c.column_name)),
        value_under(v, "column_type"@) matches Some(x) && (describes(x, c.column_type)),
        value_under(v, "ordinal_position"@) matches Some(x) && (x == SpecValue::Int(c.ordinal_position as i64)),
        value_under(v, "is_nullable"@) matches Some(x) && (x == SpecValue::Bool(c.is_nullable)),
{
    reveal_strlit("column_uuid");
    reveal_strlit("schema_uuid");
    reveal_strlit("column_name");
    reveal_strlit("column_type");
    reveal_strlit("ordinal_position");
    reveal_strlit("is_nullable");
    assert("column_uuid"@[0] != "schema_uuid"@[0]);
    assert("column_uuid"@[7] != "column_name"@[7]);
    assert("column_uuid"@[7] != "column_type"@[7]);
    assert("column_uuid"@.len() != "ordinal_position"@.len());
    assert("column_uuid"@[0] != "is_nullable"@[0]);
    assert("schema_uuid"@[0] != "column_name"@[0]);
    assert("schema_uuid"@[0] != "column_type"@[0]);
    assert("schema_uuid"@.len() != "ordinal_position"@.len());
    assert("schema_uuid"@[0] != "is_nullable"@[0]);
    assert("column_name"@[7] != "column_type"@[7]);
    assert("column_name"@.len() != "ordinal_position"@.len());
    assert("column_name"@[0] != "is_nullable"@[0]);
    assert("column_type"@.len() != "ordinal_position"@.len());
    assert("column_type"@[0] != "is_nullable"@[0]);
    assert("ordinal_position"@.len() != "is_nullable"@.len());
    let keys = seq!["column_uuid"@, "schema_uuid"@, "column_name"@, "column_type"@, "ordinal_position"@, "is_nullable"@];
    assert(keys[0] == "column_uuid"@);
    assert(keys[1] == "schema_uuid"@);
    assert(keys[2] == "column_name"@);
    assert(keys[3] == "column_type"@);
    assert(keys[4] == "ordinal_position"@);
    assert(keys[5] == "is_nullable"@);
    assert(has_keys(v, keys));
    told_under(v, keys, 0);
    told_under(v, keys, 1);
    told_under(v, keys, 2);
    told_under(v, keys, 3);
    told_under(v, keys, 4);
    told_under(v, keys, 5);
}

/// In what is told of schemas, each thing stands under its name.
pub proof fn schemas_are_told_by_name(v: SpecValue, s: SchemaView)
    requires
        tells_schema(v, s),
    ensures
        value_under(v, "schema_uuid"@) matches Some(x) && (is_id(x, s.schema_uuid)),
        value_under(v, "table_uuid"@) matches Some(x) && (is_id(x, s.table_uuid)),
        value_under(v, "schema_version"@) matches Some(x) && (x == SpecValue::Int(s.schema_version as i64)),
        value_under(v, "valid_from_transaction_id"@) matches Some(x) && (is_id(x, s.valid_from_transaction_id)),
        value_under(v, "valid_to_transaction_id"@) matches Some(x) && (is_optional_id(x, s.valid_to_transaction_id)),
        value_under(v, "created_at"@) matches Some(x) && (is_time_of(x, s.created_at)),
        value_under(v, "columns"@) matches Some(x) && (tells_columns(x, s.columns)),
{
    reveal_strlit("schema_uuid");
    reveal_strlit("table_uuid");
    reveal_strlit("schema_version");
    reveal_strlit("valid_from_transaction_id");
    reveal_strlit("valid_to_transaction_id");
    reveal_strlit("created_at");
    reveal_strlit("columns");
    assert("schema_uuid"@.len() != "table_uuid"@.len());
    assert("schema_uuid"@.len() != "schema_version"@.len());
    assert("schema_uuid"@.len() != "valid_from_transaction_id"@.len());
    assert("schema_uuid"@.len() != "valid_to_transaction_id"@.len());
    assert("schema_uuid"@.len() != "created_at"@.len());
    assert("schema_uuid"@.len() != "columns"@.len());
    assert("table_uuid"@.len() != "schema_version"@.len());
    assert("table_uuid"@.len() != "valid_from_transaction_id"@.len());
    assert("table_uuid"@.len() != "valid_to_transaction_id"@.len());
    assert("table_uuid"@[0] != "created_at"@[0]);
    assert("table_uuid"@.len() != "columns"@.len());
    assert("schema_version"@.len() != "valid_from_transaction_id"@.len());
    assert("schema_version"@.len() != "valid_to_transaction_id"@.len());
    assert("schema_version"@.len() != "created_at"@.len());
    assert("schema_version"@.len() != "columns"@.len());
    assert("valid_from_transaction_id"@.len() != "valid_to_transaction_id"@.len());
    assert("valid_from_transaction_id"@.len() != "created_at"@.len());
    assert("valid_from_transaction_id"@.len() != "columns"@.len());
    assert("valid_to_transaction_id"@.len() != "created_at"@.len());
    assert("valid_to_transaction_id"@.len() != "columns"@.len());
    assert("created_at"@.len() != "columns"@.len());
    let keys = seq!["schema_uuid"@, "table_uuid"@, "schema_version"@, "valid_from_transaction_id"@, "valid_to_transaction_id"@, "created_at"@, "columns"@];
    assert(keys[0] == "schema_uuid"@);
    assert(keys[1] == "table_uuid"@);
    assert(keys[2] == "schema_version"@);
    assert(keys[3] == "valid_from_transaction_id"@);
    assert(keys[4] == "valid_to_transaction_id"@);
    assert(keys[5] == "created_at"@);
    assert(keys[6] == "columns"@);
    assert(has_keys(v, keys));
    told_under(v, keys, 0);
    told_under(v, keys, 1);
    told_under(v, keys, 2);
    told_under(v, keys, 3);
    told_under(v, keys, 4);
    told_under(v, keys, 5);
    told_under(v, keys, 6);
}

/// In what is told of statistics, each thing stands under its name.
pub proof fn statistics_are_told_by_name(v: SpecValue, s: TableStats)
    requires
        tells_stats(v, s),
    ensures
        value_under(v, "table_uuid"@) matches Some(x) && (is_id(x, s.table_uuid)),
        value_under(v, "transaction_id"@) matches Some(x) && (is_id(x, s.transaction_id)),
        value_under(v, "record_count"@) matches Some(x) && (x == SpecValue::Int(s.record_count)),
        value_under(v, "file_size_bytes"@) matches Some(x) && (x == SpecValue::Int(s.file_size_bytes)),
        value_under(v, "file_count"@) matches Some(x) && (x == SpecValue::Int(s.file_count as i64)),
        value_under(v, "last_updated"@) matches Some(x) && (is_time_of(x, s.last_updated)),
{
    reveal_strlit("table_uuid");
    reveal_strlit("transaction_id");
    reveal_strlit("record_count");
    reveal_strlit("file_size_bytes");
    reveal_strlit("file_count");
    reveal_strlit("last_updated");
    assert("table_uuid"@.len() != "transaction_id"@.len());
    assert("table_uuid"@.len() != "record_count"@.len());
    assert("table_uuid"@.len() != "file_size_bytes"@.len());
    assert("table_uuid"@[0] != "file_count"@[0]);
    assert("table_uuid"@.len() != "last_updated"@.len());
    assert("transaction_id"@.len() != "record_count"@.len());
    assert("transaction_id"@.len() != "file_size_bytes"@.len());
    assert("transaction_id"@.len() != "file_count"@.len());
    assert("transaction_id"@.len() != "last_updated"@.len());
    assert("record_count"@.len() != "file_size_bytes"@.len());
    assert("record_count"@.len() != "file_count"@.len());
    assert("record_count"@[0] != "last_updated"@[0]);
    assert("file_size_bytes"@.len() != "file_count"@.len());
    assert("file_size_bytes"@.len() != "last_updated"@.len());
    assert("file_count"@.len() != "last_updated"@.len());
    let keys = seq!["table_uuid"@, "transaction_id"@, "record_count"@, "file_size_bytes"@, "file_count"@, "last_updated"@];
    assert(keys[0] == "table_uuid"@);
    assert(keys[1] == "transaction_id"@);
    assert(keys[2] == "record_count"@);
    assert(keys[3] == "file_size_bytes"@);
    assert(keys[4] == "file_count"@);
    assert(keys[5] == "last_updated"@);
    assert(has_keys(v, keys));
    told_under(v, keys, 0);
    told_under(v, keys, 1);
    told_under(v, keys, 2);
    told_under(v, keys, 3);
    told_under(v, keys, 4);
    told_under(v, keys, 5);
}

/// In what is told of snapshots, each thing stands under its name.
pub proof fn snapshots_are_told_by_name(v: SpecValue, s: SnapshotView)
    requires
        tells_snapshot(v, s),
    ensures
        value_under(v, "ident"@) matches Some(x) && (value_under(x, "namespace"@) matches Some(y) && is_text(y, s.namespace) && (value_under(x, "name"@) matches Some(z) && is_text(z, s.name))),
        value_under(v, "table_uuid"@) matches Some(x) && (is_id(x, s.table_uuid)),
        value_under(v, "transaction_id"@) matches Some(x) && (is_id(x, s.transaction_id)),
        value_under(v, "schema"@) matches Some(x) && (tells_schema(x, s.schema)),
        value_under(v, "files"@) matches Some(x) && (tells_files(x, s.files)),
        value_under(v, "properties"@) matches Some(x) && (is_json(x, JsonModel::Object(s.properties))),
        value_under(v, "stats"@) matches Some(x) && (match s.stats {
            Some(stats) => tells_stats(x, stats),
            None => x is Nothing,
        }),
{
    reveal_strlit("ident");
    reveal_strlit("table_uuid");
    reveal_strlit("transaction_id");
    reveal_strlit("schema");
    reveal_strlit("files");
    reveal_strlit("properties");
    reveal_strlit("stats");
    reveal_strlit("namespace");
    reveal_strlit("name");
    assert("ident"@.len() != "table_uuid"@.len());
    assert("ident"@.len() != "transaction_id"@.len());
    assert("ident"@.len() != "schema"@.len());
    assert("ident"@[0] != "files"@[0]);
    assert("ident"@.len() != "properties"@.len());
    assert("ident"@[0] != "stats"@[0]);
    assert("table_uuid"@.len() != "transaction_id"@.len());
    assert("table_uuid"@.len() != "schema"@.len());
    assert("table_uuid"@.len() != "files"@.len());
    assert("table_uuid"@[0] != "properties"@[0]);
    assert("table_uuid"@.len() != "stats"@.len());
    assert("transaction_id"@.len() != "schema"@.len());
    assert("transaction_id"@.len() != "files"@.len());
    assert("transaction_id"@.len() != "properties"@.len());
    assert("transaction_id"@.len() != "stats"@.len());
    assert("schema"@.len() != "files"@.len());
    assert("schema"@.len() != "properties"@.len());
    assert("schema"@.len() != "stats"@.len());
    assert("files"@.len() != "properties"@.len());
    assert("files"@[0] != "stats"@[0]);
    assert("properties"@.len() != "stats"@.len());
    let keys = seq!["ident"@, "table_uuid"@, "transaction_id"@, "schema"@, "files"@, "properties"@, "stats"@];
    assert(keys[0] == "ident"@);
    assert(keys[1] == "table_uuid"@);
    assert(keys[2] == "transaction_id"@);
    assert(keys[3] == "schema"@);
    assert(keys[4] == "files"@);
    assert(keys[5] == "properties"@);
    assert(keys[6] == "stats"@);
    assert(has_keys(v, keys));
    told_under(v, keys, 0);
    told_under(v, keys, 1);
    told_under(v, keys, 2);
    told_under(v, keys, 3);
    told_under(v, keys, 4);
    told_under(v, keys, 5);
    told_under(v, keys, 6);
    assert("namespace"@.len() != "name"@.len());
    let names = seq!["namespace"@, "name"@];
    assert(names[0] == "namespace"@);
    assert(names[1] == "name"@);
    told_under(value_at(v, 0), names, 0);
    told_under(value_at(v, 0), names, 1);
}

/// In what is told of differences, each thing stands under its name.
pub proof fn differences_are_told_by_name(v: SpecValue, d: TableDelta)
    requires
        tells_delta(v, d),
    ensures
        value_under(v, "from_transaction_id"@) matches Some(x) && (is_id(x, d.from_transaction_id)),
        value_under(v, "to_transaction_id"@) matches Some(x) && (is_id(x, d.to_transaction_id)),
        value_under(v, "added_files"@) matches Some(x) && (tells_files(x, file_views(d.added_files@))),
        value_under(v, "removed_files"@) matches Some(x) && (tells_files(x, file_views(d.removed_files@))),
        value_under(v, "new_schema"@) matches Some(x) && (match d.new_schema {
            Some(schema) => tells_schema(x, schema@),
            None => x is Nothing,
        }),
        value_under(v, "new_properties"@) matches Some(x) && (match d.new_properties {
            Some(properties) => is_json(x, JsonModel::Object(properties@)),
            None => x is Nothing,
        }),
{
    reveal_strlit("from_transaction_id");
    reveal_strlit("to_transaction_id");
    reveal_strlit("added_files");
    reveal_strlit("removed_files");
    reveal_strlit("new_schema");
    reveal_strlit("new_properties");
    assert("from_transaction_id"@.len() != "to_transaction_id"@.len());
    assert("from_transaction_id"@.len() != "added_files"@.len());
    assert("from_transaction_id"@.len() != "removed_files"@.len());
    assert("from_transaction_id"@.len() != "new_schema"@.len());
    assert("from_transaction_id"@.len() != "new_properties"@.len());
    assert("to_transaction_id"@.len() != "added_files"@.len());
    assert("to_transaction_id"@.len() != "removed_files"@.len());
    assert("to_transaction_id"@.len() != "new_schema"@.len());
    assert("to_transaction_id"@.len() != "new_properties"@.len());
    assert("added_files"@.len() != "removed_files"@.len());
    assert("added_files"@.len() != "new_schema"@.len());
    assert("added_files"@.len() != "new_properties"@.len());
    assert("removed_files"@.len() != "new_schema"@.len());
    assert("removed_files"@.len() != "new_properties"@.len());
    assert("new_schema"@.len() != "new_properties"@.len());
    let keys = seq!["from_transaction_id"@, "to_transaction_id"@, "added_files"@, "removed_files"@, "new_schema"@, "new_properties"@];
    assert(keys[0] == "from_transaction_id"@);
    assert(keys[1] == "to_transaction_id"@);
    assert(keys[2] == "added_files"@);
    assert(keys[3] == "removed_files"@);
    assert(keys[4] == "new_schema"@);
    assert(keys[5] == "new_properties"@);
    assert(has_keys(v, keys));
    told_under(v, keys, 0);
    told_under(v, keys, 1);
    told_under(v, keys, 2);
    told_under(v, keys, 3);
    told_under(v, keys, 4);
    told_under(v, keys, 5);
}

/// In what is told of commits, each thing stands under its name.
pub proof fn commits_are_told_by_name(v: SpecValue, c: CommitResult)
    requires
        tells_commit(v, c),
    ensures
        value_under(v, "transaction_id"@) matches Some(x) && (is_id(x, c.transaction_id)),
        value_under(v, "table_view"@) matches Some(x) && (match c.table_view {
            Some(view) => tells_snapshot(x, view@),
            None => x is Nothing,
        }),
{
    reveal_strlit("transaction_id");
    reveal_strlit("table_view");
    assert("transaction_id"@.len() != "table_view"@.len());
    let keys = seq!["transaction_id"@, "table_view"@];
    assert(keys[0] == "transaction_id"@);
    assert(keys[1] == "table_view"@);
    assert(has_keys(v, keys));
    told_under(v, keys, 0);
    told_under(v, keys, 1);
}

proof fn type_keys_differ()
    ensures
        "kind"@ != "byte_width"@,
        "kind"@ != "unit"@,
        "kind"@ != "precision"@,
        "kind"@ != "scale"@,
        "kind"@ != "tz"@,
        "kind"@ != "field"@,
        "kind"@ != "size"@,
        "kind"@ != "fields"@,
        "kind"@ != "name"@,
        "kind"@ != "nullable"@,
        "kind"@ != "dtype"@,
        "byte_width"@ != "unit"@,
        "byte_width"@ != "precision"@,
        "byte_width"@ != "scale"@,
        "byte_width"@ != "tz"@,
        "byte_width"@ != "field"@,
        "byte_width"@ != "size"@,
        "byte_width"@ != "fields"@,
        "byte_width"@ != "name"@,
        "byte_width"@ != "nullable"@,
        "byte_width"@ != "dtype"@,
        "unit"@ != "precision"@,
        "unit"@ != "scale"@,
        "unit"@ != "tz"@,
        "unit"@ != "field"@,
        "unit"@ != "size"@,
        "unit"@ != "fields"@,
        "unit"@ != "name"@,
        "unit"@ != "nullable"@,
        "unit"@ != "dtype"@,
        "precision"@ != "scale"@,
        "precision"@ != "tz"@,
        "precision"@ != "field"@,
        "precision"@ != "size"@,
        "precision"@ != "fields"@,
        "precision"@ != "name"@,
        "precision"@ != "nullable"@,
        "precision"@ != "dtype"@,
        "scale"@ != "tz"@,
        "scale"@ != "field"@,
        "scale"@ != "size"@,
        "scale"@ != "fields"@,
        "scale"@ != "name"@,
        "scale"@ != "nullable"@,
        "scale"@ != "dtype"@,
        "tz"@ != "field"@,
        "tz"@ != "size"@,
        "tz"@ != "fields"@,
        "tz"@ != "name"@,
        "tz"@ != "nullable"@,
        "tz"@ != "dtype"@,
        "field"@ != "size"@,
        "field"@ != "fields"@,
        "field"@ != "name"@,
        "field"@ != "nullable"@,
        "field"@ != "dtype"@,
        "size"@ != "fields"@,
        "size"@ != "name"@,
        "size"@ != "nullable"@,
        "size"@ != "dtype"@,
        "fields"@ != "name"@,
        "fields"@ != "nullable"@,
        "fields"@ != "dtype"@,
        "name"@ != "nullable"@,
        "name"@ != "dtype"@,
        "nullable"@ != "dtype"@,
{
    reveal_strlit("kind");
    reveal_strlit("byte_width");
    reveal_strlit("unit");
    reveal_strlit("precision");
    reveal_strlit("scale");
    reveal_strlit("tz");
    reveal_strlit("field");
    reveal_strlit("size");
    reveal_strlit("fields");
    reveal_strlit("name");
    reveal_strlit("nullable");
    reveal_strlit("dtype");
    assert("kind"@.len() != "byte_width"@.len());
    assert("kind"@[0] != "unit"@[0]);
    assert("kind"@.len() != "precision"@.len());
    assert("kind"@.len() != "scale"@.len());
    assert("kind"@.len() != "tz"@.len());
    assert("kind"@.len() != "field"@.len());
    assert("kind"@[0] != "size"@[0]);
    assert("kind"@.len() != "fields"@.len());
    assert("kind"@[0] != "name"@[0]);
    assert("kind"@.len() != "nullable"@.len());
    assert("kind"@.len() != "dtype"@.len());
    assert("byte_width"@.len() != "unit"@.len());
    assert("byte_width"@.len() != "precision"@.len());
    assert("byte_width"@.len() != "scale"@.len());
    assert("byte_width"@.len() != "tz"@.len());
    assert("byte_width"@.len() != "field"@.len());
    assert("byte_width"@.len() != "size"@.len());
    assert("byte_width"@.len() != "fields"@.len());
    assert("byte_width"@.len() != "name"@.len());
    assert("byte_width"@.len() != "nullable"@.len());
    assert("byte_width"@.len() != "dtype"@.len());
    assert("unit"@.len() != "precision"@.len());
    assert("unit"@.len() != "scale"@.len());
    assert("unit"@.len() != "tz"@.len());
    assert("unit"@.len() != "field"@.len());
    assert("unit"@[0] != "size"@[0]);
    assert("unit"@.len() != "fields"@.len());
    assert("unit"@[0] != "name"@[0]);
    assert("unit"@.len() != "nullable"@.len());
    assert("unit"@.len() != "dtype"@.len());
    assert("precision"@.len() != "scale"@.len());
    assert("precision"@.len() != "tz"@.len());
    assert("precision"@.len() != "field"@.len());
    assert("precision"@.len() != "size"@.len());
    assert("precision"@.len() != "fields"@.len());
    assert("precision"@.len() != "name"@.len());
    assert("precision"@.len() != "nullable"@.len());
    assert("precision"@.len() != "dtype"@.len());
    assert("scale"@.len() != "tz"@.len());
    assert("scale"@[0] != "field"@[0]);
    assert("scale"@.len() != "size"@.len());
    assert("scale"@.len() != "fields"@.len());
    assert("scale"@.len() != "name"@.len());
    assert("scale"@.len() != "nullable"@.len());
    assert("scale"@[0] != "dtype"@[0]);
    assert("tz"@.len() != "field"@.len());
    assert("tz"@.len() != "size"@.len());
    assert("tz"@.len() != "fields"@.len());
    assert("tz"@.len() != "name"@.len());
    assert("tz"@.len() != "nullable"@.len());
    assert("tz"@.len() != "dtype"@.len());
    assert("field"@.len() != "size"@.len());
    assert("field"@.len() != "fields"@.len());
    assert("field"@.len() != "name"@.len());
    assert("field"@.len() != "nullable"@.len());
    assert("field"@[0] != "dtype"@[0]);
    assert("size"@.len() != "fields"@.len());
    assert("size"@[0] != "name"@[0]);
    assert("size"@.len() != "nullable"@.len());
    assert("size"@.len() != "dtype"@.len());
    assert("fields"@.len() != "name"@.len());
    assert("fields"@.len() != "nullable"@.len());
    assert("fields"@.len() != "dtype"@.len());
    assert("name"@.len() != "nullable"@.len());
    assert("name"@.len() != "dtype"@.len());
    assert("nullable"@.len() != "dtype"@.len());
}

/// What stands under a key is a text.
pub open spec fn text_stands(v: SpecValue, key: Seq<char>, s: Seq<char>) -> bool {
    value_under(v, key) matches Some(x) && is_text(x, s)
}

/// What stands under a key is a number.
pub open spec fn number_stands(v: SpecValue, key: Seq<char>, n: int) -> bool {
    value_under(v, key) matches Some(SpecValue::Int(m)) && m == n
}

/// In what is told of a data type, each thing that it consists of stands under its name.
pub proof fn types_are_told_by_name(v: SpecValue, m: TypeModel)
    requires
        describes(v, m),
    ensures
        m matches TypeModel::Scalar(DataType::FixedSizeBinary(n)) ==> number_stands(
            v,
            "byte_width"@,
            n as int,
        ),
        m matches TypeModel::Scalar(DataType::Time32(unit)) ==> text_stands(
            v,
            "unit"@,
            unit_name(unit),
        ) && text_stands(v, "kind"@, "time32"@),
        m matches TypeModel::Scalar(DataType::Time64(unit)) ==> text_stands(
            v,
            "unit"@,
            unit_name(unit),
        ) && text_stands(v, "kind"@, "time64"@),
        m matches TypeModel::Scalar(DataType::Duration(unit)) ==> text_stands(
            v,
            "unit"@,
            unit_name(unit),
        ) && text_stands(v, "kind"@, "duration"@),
        m matches TypeModel::Scalar(DataType::Decimal128(precision, scale)) ==> number_stands(
            v,
            "precision"@,
            precision as int,
        ) && number_stands(v, "scale"@, scale as int) && text_stands(v, "kind"@, "decimal128"@),
        m matches TypeModel::Scalar(DataType::Decimal256(precision, scale)) ==> number_stands(
            v,
            "precision"@,
            precision as int,
        ) && number_stands(v, "scale"@, scale as int) && text_stands(v, "kind"@, "decimal256"@),
        m matches TypeModel::Timestamp(unit, zone) ==> text_stands(v, "kind"@, "timestamp"@)
            && text_stands(v, "unit"@, unit_name(unit)) && (zone matches Some(z) ==> text_stands(
            v,
            "tz"@,
            z,
        )) && (zone is None ==> value_under(v, "tz"@) matches Some(SpecValue::Nothing)),
        m matches TypeModel::List(kind, f) ==> (value_under(v, "field"@) matches Some(x)
            && describes_field(x, *f)) && text_stands(
            v,
            "kind"@,
            if kind is LargeList {
                "large_list"@
            } else {
                "list"@
            },
        ),
        m matches TypeModel::FixedSizeList(f, n) ==> (value_under(v, "field"@) matches Some(x)
            && describes_field(x, *f)) && number_stands(v, "size"@, n as int) && text_stands(
            v,
            "kind"@,
            "fixed_size_list"@,
        ),
        m is Struct ==> text_stands(v, "kind"@, "struct"@) && (value_under(
            v,
            "fields"@,
        ) matches Some(SpecValue::List(_))),
{
    type_keys_differ();
    if m matches TypeModel::Scalar(DataType::FixedSizeBinary(_)) {
        let keys = seq!["kind"@, "byte_width"@];
        assert(keys[0] == "kind"@);
        assert(keys[1] == "byte_width"@);
        assert(has_keys(v, keys));
        told_under(v, keys, 0);
        told_under(v, keys, 1);
    }
    if m matches TypeModel::Scalar(DataType::Time32(_)) || m matches TypeModel::Scalar(DataType::Time64(_)) || m matches TypeModel::Scalar(DataType::Duration(_)) {
        let keys = seq!["kind"@, "unit"@];
        assert(keys[0] == "kind"@);
        assert(keys[1] == "unit"@);
        assert(has_keys(v, keys));
        told_under(v, keys, 0);
        told_under(v, keys, 1);
    }
    if m matches TypeModel::Scalar(DataType::Decimal128(_, _)) || m matches TypeModel::Scalar(DataType::Decimal256(_, _)) {
        let keys = seq!["kind"@, "precision"@, "scale"@];
        assert(keys[0] == "kind"@);
        assert(keys[1] == "precision"@);
        assert(keys[2] == "scale"@);
        assert(has_keys(v, keys));
        told_under(v, keys, 0);
        told_under(v, keys, 1);
        told_under(v, keys, 2);
    }
    if m is Timestamp {
        let keys = seq!["kind"@, "unit"@, "tz"@];
        assert(keys[0] == "kind"@);
        assert(keys[1] == "unit"@);
        assert(keys[2] == "tz"@);
        assert(has_keys(v, keys));
        told_under(v, keys, 0);
        told_under(v, keys, 1);
        told_under(v, keys, 2);
    }
    if m is List {
        let keys = seq!["kind"@, "field"@];
        assert(keys[0] == "kind"@);
        assert(keys[1] == "field"@);
        assert(has_keys(v, keys));
        told_under(v, keys, 0);
        told_under(v, keys, 1);
    }
    if m is FixedSizeList {
        let keys = seq!["kind"@, "field"@, "size"@];
        assert(keys[0] == "kind"@);
        assert(keys[1] == "field"@);
        assert(keys[2] == "size"@);
        assert(has_keys(v, keys));
        told_under(v, keys, 0);
        told_under(v, keys, 1);
        told_under(v, keys, 2);
    }
    if m is Struct {
        let keys = seq!["kind"@, "fields"@];
        assert(keys[0] == "kind"@);
        assert(keys[1] == "fields"@);
        assert(has_keys(v, keys));
        told_under(v, keys, 0);
        told_under(v, keys, 1);
    }
}

/// In what is told of a field, each thing stands under its name.
pub proof fn fields_are_told_by_name(v: SpecValue, f: FieldModel)
    requires
        describes_field(v, f),
    ensures
        text_stands(v, "name"@, f.name),
        value_under(v, "nullable"@) == Some(SpecValue::Bool(f.nullable)),
        value_under(v, "dtype"@) matches Some(x) && describes(x, f.data_type),
{
    type_keys_differ();
    let keys = seq!["name"@, "nullable"@, "dtype"@];
    assert(keys[0] == "name"@);
    assert(keys[1] == "nullable"@);
    assert(keys[2] == "dtype"@);
    assert(has_keys(v, keys));
    told_under(v, keys, 0);
    told_under(v, keys, 1);
    told_under(v, keys, 2);
}

/// The bits of a number or a date, by its values.
pub open spec fn bits(t: DataType) -> nat {
    match integer_range(t) {
        Some((smallest, largest)) => if largest - smallest == 255 {
            8
        } else if largest - smallest == 65_535 {
            16
        } else if largest - smallest == 4_294_967_295 {
            32
        } else {
            64
        },
        None => if t is Float32 || t is Date32 {
            32
        } else {
            64
        },
    }
}

/// Numbers and dates are named by what they are and by how many bits they have, and the large forms
/// of texts and binaries after the others.
pub proof fn kinds_are_named_for_what_they_are(t: DataType)
    ensures
        integer_range(t) is Some ==> kind_of_simple(t) == Some(
            (if is_signed(t) {
                "int"@
            } else {
                "uint"@
            }) + decimal_text(bits(t)),
        ),
        t is Float32 || t is Float64 ==> kind_of_simple(t) == Some("float"@ + decimal_text(bits(t))),
        t is Date32 || t is Date64 ==> kind_of_simple(t) == Some("date"@ + decimal_text(bits(t))),
        kind_of_simple(DataType::LargeUtf8) == Some("large_"@ + "string"@),
        kind_of_simple(DataType::Utf8) == Some("string"@),
        kind_of_simple(DataType::LargeBinary) == Some("large_"@ + "binary"@),
        kind_of_simple(DataType::Binary) == Some("binary"@),
        kind_of_simple(DataType::Boolean) == Some("bool"@),
        kind_of_simple(DataType::Null) == Some("null"@),
{
    reveal_with_fuel(decimal_text, 3);
    reveal_strlit("int");
    reveal_strlit("uint");
    reveal_strlit("float");
    reveal_strlit("date");
    reveal_strlit("large_");
    reveal_strlit("string");
    reveal_strlit("binary");
    reveal_strlit("large_string");
    reveal_strlit("large_binary");
    reveal_strlit("int8");
    reveal_strlit("int16");
    reveal_strlit("int32");
    reveal_strlit("int64");
    reveal_strlit("uint8");
    reveal_strlit("uint16");
    reveal_strlit("uint32");
    reveal_strlit("uint64");
    reveal_strlit("float32");
    reveal_strlit("float64");
    reveal_strlit("date32");
    reveal_strlit("date64");
    assert(decimal_text(8) =~= seq!['8']);
    assert(decimal_text(16) =~= seq!['1', '6']);
    assert(decimal_text(32) =~= seq!['3', '2']);
    assert(decimal_text(64) =~= seq!['6', '4']);
    assert("int8"@ =~= "int"@ + decimal_text(8));
    assert("int16"@ =~= "int"@ + decimal_text(16));
    assert("int32"@ =~= "int"@ + decimal_text(32));
    assert("int64"@ =~= "int"@ + decimal_text(64));
    assert("uint8"@ =~= "uint"@ + decimal_text(8));
    assert("uint16"@ =~= "uint"@ + decimal_text(16));
    assert("uint32"@ =~= "uint"@ + decimal_text(32));
    assert("uint64"@ =~= "uint"@ + decimal_text(64));
    assert("float32"@ =~= "float"@ + decimal_text(32));
    assert("float64"@ =~= "float"@ + decimal_text(64));
    assert("date32"@ =~= "date"@ + decimal_text(32));
    assert("date64"@ =~= "date"@ + decimal_text(64));
    assert("large_string"@ =~= "large_"@ + "string"@);
    assert("large_binary"@ =~= "large_"@ + "binary"@);
}

/// What stands under a key is an integer of a range. A boolean counts as 0 or 1.
pub open spec fn counts_as(v: SpecValue, key: Seq<char>, n: int, low: int, high: int) -> bool {
    value_under(v, key) matches Some(x) && ((x matches SpecValue::Int(m) && m == n && low <= m
        <= high) || (x == SpecValue::Bool(false) && n == 0) || (x == SpecValue::Bool(true) && n
        == 1))
}

/// A dictionary says what time zone a timestamp has: none where the key is missing or holds
/// nothing.
pub open spec fn says_zone(v: SpecValue, zone: Option<Seq<char>>) -> bool {
    match zone {
        Some(z) => text_stands(v, "tz"@, z),
        None => value_under(v, "tz"@) is None || value_under(v, "tz"@) == Some(SpecValue::Nothing),
    }
}

proof fn numbers_are_read(
    v: SpecValue,
    key: Seq<char>,
    missing: Seq<char>,
    low: i64,
    high: i64,
    n: int,
)
    requires
        low <= 0,
        high >= 1,
    ensures
        int_under(v, key, missing, low, high) == Result::<int, BindingRefusal>::Ok(n)
            <==> counts_as(v, key, n, low as int, high as int),
{
}

proof fn kinds_apart()
    ensures
        simple_kind("timestamp"@) is None,
        simple_kind("decimal128"@) is None,
        simple_kind("decimal256"@) is None,
        simple_kind("fixed_size_binary"@) is None,
        simple_kind("time32"@) is None,
        simple_kind("time64"@) is None,
        simple_kind("duration"@) is None,
        "timestamp"@.len() == 9,
        "decimal128"@.len() == 10,
        "decimal256"@.len() == 10,
        "decimal128"@ != "decimal256"@,
        "fixed_size_binary"@.len() == 17,
        "time32"@.len() == 6,
        "time64"@.len() == 6,
        "time32"@ != "time64"@,
        "duration"@.len() == 8,
{
    reveal_strlit("null");
    reveal_strlit("bool");
    reveal_strlit("int8");
    reveal_strlit("int16");
    reveal_strlit("int32");
    reveal_strlit("int64");
    reveal_strlit("uint8");
    reveal_strlit("uint16");
    reveal_strlit("uint32");
    reveal_strlit("uint64");
    reveal_strlit("float32");
    reveal_strlit("float64");
    reveal_strlit("string");
    reveal_strlit("large_string");
    reveal_strlit("binary");
    reveal_strlit("large_binary");
    reveal_strlit("date32");
    reveal_strlit("date64");
    reveal_strlit("timestamp");
    reveal_strlit("decimal128");
    reveal_strlit("decimal256");
    reveal_strlit("fixed_size_binary");
    reveal_strlit("time32");
    reveal_strlit("time64");
    reveal_strlit("duration");
    assert("decimal128"@[7] != "decimal256"@[7]);
    assert("time32"@[4] != "time64"@[4]);
    assert("timestamp"@.len() != "null"@.len());
    assert("timestamp"@.len() != "bool"@.len());
    assert("timestamp"@.len() != "int8"@.len());
    assert("timestamp"@.len() != "int16"@.len());
    assert("timestamp"@.len() != "int32"@.len());
    assert("timestamp"@.len() != "int64"@.len());
    assert("timestamp"@.len() != "uint8"@.len());
    assert("timestamp"@.len() != "uint16"@.len());
    assert("timestamp"@.len() != "uint32"@.len());
    assert("timestamp"@.len() != "uint64"@.len());
    assert("timestamp"@.len() != "float32"@.len());
    assert("timestamp"@.len() != "float64"@.len());
    assert("timestamp"@.len() != "string"@.len());
    assert("timestamp"@.len() != "large_string"@.len());
    assert("timestamp"@.len() != "binary"@.len());
    assert("timestamp"@.len() != "large_binary"@.len());
    assert("timestamp"@.len() != "date32"@.len());
    assert("timestamp"@.len() != "date64"@.len());
    assert("decimal128"@.len() != "null"@.len());
    assert("decimal128"@.len() != "bool"@.len());
    assert("decimal128"@.len() != "int8"@.len());
    assert("decimal128"@.len() != "int16"@.len());
    assert("decimal128"@.len() != "int32"@.len());
    assert("decimal128"@.len() != "int64"@.len());
    assert("decimal128"@.len() != "uint8"@.len());
    assert("decimal128"@.len() != "uint16"@.len());
    assert("decimal128"@.len() != "uint32"@.len());
    assert("decimal128"@.len() != "uint64"@.len());
    assert("decimal128"@.len() != "float32"@.len());
    assert("decimal128"@.len() != "float64"@.len());
    assert("decimal128"@.len() != "string"@.len());
    assert("decimal128"@.len() != "large_string"@.len());
    assert("decimal128"@.len() != "binary"@.len());
    assert("decimal128"@.len() != "large_binary"@.len());
    assert("decimal128"@.len() != "date32"@.len());
    assert("decimal128"@.len() != "date64"@.len());
    assert("decimal256"@.len() != "null"@.len());
    assert("decimal256"@.len() != "bool"@.len());
    assert("decimal256"@.len() != "int8"@.len());
    assert("decimal256"@.len() != "int16"@.len());
    assert("decimal256"@.len() != "int32"@.len());
    assert("decimal256"@.len() != "int64"@.len());
    assert("decimal256"@.len() != "uint8"@.len());
    assert("decimal256"@.len() != "uint16"@.len());
    assert("decimal256"@.len() != "uint32"@.len());
    assert("decimal256"@.len() != "uint64"@.len());
    assert("decimal256"@.len() != "float32"@.len());
    assert("decimal256"@.len() != "float64"@.len());
    assert("decimal256"@.len() != "string"@.len());
    assert("decimal256"@.len() != "large_string"@.len());
    assert("decimal256"@.len() != "binary"@.len());
    assert("decimal256"@.len() != "large_binary"@.len());
    assert("decimal256"@.len() != "date32"@.len());
    assert("decimal256"@.len() != "date64"@.len());
    assert("fixed_size_binary"@.len() != "null"@.len());
    assert("fixed_size_binary"@.len() != "bool"@.len());
    assert("fixed_size_binary"@.len() != "int8"@.len());
    assert("fixed_size_binary"@.len() != "int16"@.len());
    assert("fixed_size_binary"@.len() != "int32"@.len());
    assert("fixed_size_binary"@.len() != "int64"@.len());
    assert("fixed_size_binary"@.len() != "uint8"@.len());
    assert("fixed_size_binary"@.len() != "uint16"@.len());
    assert("fixed_size_binary"@.len() != "uint32"@.len());
    assert("fixed_size_binary"@.len() != "uint64"@.len());
    assert("fixed_size_binary"@.len() != "float32"@.len());
    assert("fixed_size_binary"@.len() != "float64"@.len());
    assert("fixed_size_binary"@.len() != "string"@.len());
    assert("fixed_size_binary"@.len() != "large_string"@.len());
    assert("fixed_size_binary"@.len() != "binary"@.len());
    assert("fixed_size_binary"@.len() != "large_binary"@.len());
    assert("fixed_size_binary"@.len() != "date32"@.len());
    assert("fixed_size_binary"@.len() != "date64"@.len());
    assert("time32"@.len() != "null"@.len());
    assert("time32"@.len() != "bool"@.len());
    assert("time32"@.len() != "int8"@.len());
    assert("time32"@.len() != "int16"@.len());
    assert("time32"@.len() != "int32"@.len());
    assert("time32"@.len() != "int64"@.len());
    assert("time32"@.len() != "uint8"@.len());
    assert("time32"@[0] != "uint16"@[0]);
    assert("time32"@[0] != "uint32"@[0]);
    assert("time32"@[0] != "uint64"@[0]);
    assert("time32"@.len() != "float32"@.len());
    assert("time32"@.len() != "float64"@.len());
    assert("time32"@[0] != "string"@[0]);
    assert("time32"@.len() != "large_string"@.len());
    assert("time32"@[0] != "binary"@[0]);
    assert("time32"@.len() != "large_binary"@.len());
    assert("time32"@[0] != "date32"@[0]);
    assert("time32"@[0] != "date64"@[0]);
    assert("time64"@.len() != "null"@.len());
    assert("time64"@.len() != "bool"@.len());
    assert("time64"@.len() != "int8"@.len());
    assert("time64"@.len() != "int16"@.len());
    assert("time64"@.len() != "int32"@.len());
    assert("time64"@.len() != "int64"@.len());
    assert("time64"@.len() != "uint8"@.len());
    assert("time64"@[0] != "uint16"@[0]);
    assert("time64"@[0] != "uint32"@[0]);
    assert("time64"@[0] != "uint64"@[0]);
    assert("time64"@.len() != "float32"@.len());
    assert("time64"@.len() != "float64"@.len());
    assert("time64"@[0] != "string"@[0]);
    assert("time64"@.len() != "large_string"@.len());
    assert("time64"@[0] != "binary"@[0]);
    assert("time64"@.len() != "large_binary"@.len());
    assert("time64"@[0] != "date32"@[0]);
    assert("time64"@[0] != "date64"@[0]);
    assert("duration"@.len() != "null"@.len());
    assert("duration"@.len() != "bool"@.len());
    assert("duration"@.len() != "int8"@.len());
    assert("duration"@.len() != "int16"@.len());
    assert("duration"@.len() != "int32"@.len());
    assert("duration"@.len() != "int64"@.len());
    assert("duration"@.len() != "uint8"@.len());
    assert("duration"@.len() != "uint16"@.len());
    assert("duration"@.len() != "uint32"@.len());
    assert("duration"@.len() != "uint64"@.len());
    assert("duration"@.len() != "float32"@.len());
    assert("duration"@.len() != "float64"@.len());
    assert("duration"@.len() != "string"@.len());
    assert("duration"@.len() != "large_string"@.len());
    assert("duration"@.len() != "binary"@.len());
    assert("duration"@.len() != "large_binary"@.len());
    assert("duration"@.len() != "date32"@.len());
    assert("duration"@.len() != "date64"@.len());
}

/// Types are read by name, whatever order their descriptions are in and whatever else is in them:
/// a timestamp with its unit and time zone, a decimal with its precision and scale, a binary of
/// fixed size with its width, and times and durations with their units.
pub proof fn types_are_read_by_name(
    v: SpecValue,
    unit: TimeUnit,
    zone: Option<Seq<char>>,
    precision: u8,
    scale: i8,
    width: i32,
)
    requires
        v is Dict,
    ensures
        text_stands(v, "kind"@, "timestamp"@) ==> (parsed_type(v) == Result::<
            TypeModel,
            BindingRefusal,
        >::Ok(TypeModel::Timestamp(unit, zone)) <==> text_stands(v, "unit"@, unit_name(unit))
            && says_zone(v, zone)),
        text_stands(v, "kind"@, "decimal128"@) ==> (parsed_type(v) == Result::<
            TypeModel,
            BindingRefusal,
        >::Ok(TypeModel::Scalar(DataType::Decimal128(precision, scale))) <==> counts_as(
            v,
            "precision"@,
            precision as int,
            0,
            255,
        ) && counts_as(v, "scale"@, scale as int, -128, 127)),
        text_stands(v, "kind"@, "decimal256"@) ==> (parsed_type(v) == Result::<
            TypeModel,
            BindingRefusal,
        >::Ok(TypeModel::Scalar(DataType::Decimal256(precision, scale))) <==> counts_as(
            v,
            "precision"@,
            precision as int,
            0,
            255,
        ) && counts_as(v, "scale"@, scale as int, -128, 127)),
        text_stands(v, "kind"@, "fixed_size_binary"@) ==> (parsed_type(v) == Result::<
            TypeModel,
            BindingRefusal,
        >::Ok(TypeModel::Scalar(DataType::FixedSizeBinary(width))) <==> counts_as(
            v,
            "byte_width"@,
            width as int,
            -2_147_483_648,
            2_147_483_647,
        )),
        text_stands(v, "kind"@, "time32"@) ==> (parsed_type(v) == Result::<
            TypeModel,
            BindingRefusal,
        >::Ok(TypeModel::Scalar(DataType::Time32(unit))) <==> text_stands(
            v,
            "unit"@,
            unit_name(unit),
        )),
        text_stands(v, "kind"@, "time64"@) ==> (parsed_type(v) == Result::<
            TypeModel,
            BindingRefusal,
        >::Ok(TypeModel::Scalar(DataType::Time64(unit))) <==> text_stands(
            v,
            "unit"@,
            unit_name(unit),
        )),
        text_stands(v, "kind"@, "duration"@) ==> (parsed_type(v) == Result::<
            TypeModel,
            BindingRefusal,
        >::Ok(TypeModel::Scalar(DataType::Duration(unit))) <==> text_stands(
            v,
            "unit"@,
            unit_name(unit),
        )),
{
    kinds_apart();
    unit_names_read_back(unit);
    unit_names_are_all(unit);
    numbers_are_read(v, "precision"@, "Missing precision"@, 0, 255, precision as int);
    numbers_are_read(v, "scale"@, "Missing scale"@, -128i64, 127, scale as int);
    numbers_are_read(
        v,
        "byte_width"@,
        "Missing byte_width"@,
        -2_147_483_648i64,
        2_147_483_647,
        width as int,
    );
}

proof fn unit_names_are_all(unit: TimeUnit)
    ensures
        forall|name: Seq<char>| #[trigger]
            named_unit(name) == Result::<TimeUnit, BindingRefusal>::Ok(unit) ==> name == unit_name(
                unit,
            ),
{
}

/// A value is told as nothing where there is none, an identifier by its hyphenated text, a point in
/// time by its text, and JSON as it is.
pub proof fn values_are_told_as_they_are(v: SpecValue, id: Uuid, t: Timestamp, m: JsonModel)
    ensures
        is_id(v, id) <==> (v matches SpecValue::Text(text) && text@ == hyphenated(id.value as nat)),
        is_time_of(v, t) <==> (v matches SpecValue::Text(text) && text@ == rfc3339_text(
            t@.0,
            t@.1,
        )),
        is_json(v, m) <==> (v matches SpecValue::Json(value) && json_model(value) == m),
        is_optional_id(v, None) <==> v is Nothing,
        is_optional_id(v, Some(id)) <==> is_id(v, id),
        is_optional_json(v, None) <==> v is Nothing,
        is_optional_json(v, Some(m)) <==> is_json(v, m),
{
}

/// Fields are read by name, whatever order their descriptions are in: a field has the name, the type
/// and the nullability that its description gives, and no metadata.
pub proof fn fields_are_read_by_name(v: SpecValue, f: FieldModel)
    requires
        v is Dict,
    ensures
        parsed_field(v) == Result::<FieldModel, BindingRefusal>::Ok(f) <==> {
            &&& text_stands(v, "name"@, f.name)
            &&& value_under(v, "nullable"@) == Some(SpecValue::Bool(f.nullable))
            &&& value_under(v, "dtype"@) matches Some(x) && parsed_type(x) == Result::<
                TypeModel,
                BindingRefusal,
            >::Ok(f.data_type)
            &&& f.metadata == Map::<Seq<char>, Seq<char>>::empty()
        },
{
    key_position_is_within(v->Dict_0@, "dtype"@);
}

proof fn key_position_is_within(pairs: Seq<(String, SpecValue)>, key: Seq<char>)
    ensures
        key_position(pairs, key) matches Some(i) ==> i < pairs.len(),
    decreases pairs.len(),
{
    if pairs.len() > 0 {
        key_position_is_within(pairs.drop_last(), key);
    }
}

proof fn nested_kinds_apart()
    ensures
        simple_kind("list"@) is None,
        simple_kind("large_list"@) is None,
        simple_kind("fixed_size_list"@) is None,
        simple_kind("struct"@) is None,
        "list"@.len() == 4,
        "large_list"@.len() == 10,
        "fixed_size_list"@.len() == 15,
        "struct"@.len() == 6,
        "struct"@ != "time32"@,
        "struct"@ != "time64"@,
        "large_list"@ != "decimal128"@,
        "large_list"@ != "decimal256"@,
{
    reveal_strlit("null");
    reveal_strlit("bool");
    reveal_strlit("int8");
    reveal_strlit("int16");
    reveal_strlit("int32");
    reveal_strlit("int64");
    reveal_strlit("uint8");
    reveal_strlit("uint16");
    reveal_strlit("uint32");
    reveal_strlit("uint64");
    reveal_strlit("float32");
    reveal_strlit("float64");
    reveal_strlit("string");
    reveal_strlit("large_string");
    reveal_strlit("binary");
    reveal_strlit("large_binary");
    reveal_strlit("date32");
    reveal_strlit("date64");
    reveal_strlit("list");
    reveal_strlit("large_list");
    reveal_strlit("fixed_size_list");
    reveal_strlit("struct");
    reveal_strlit("time32");
    reveal_strlit("time64");
    reveal_strlit("decimal128");
    reveal_strlit("decimal256");
    assert("struct"@[0] != "time32"@[0]);
    assert("struct"@[0] != "time64"@[0]);
    assert("large_list"@[0] != "decimal128"@[0]);
    assert("large_list"@[0] != "decimal256"@[0]);
    assert("list"@[0] != "null"@[0]);
    assert("list"@[0] != "bool"@[0]);
    assert("list"@[0] != "int8"@[0]);
    assert("list"@.len() != "int16"@.len());
    assert("list"@.len() != "int32"@.len());
    assert("list"@.len() != "int64"@.len());
    assert("list"@.len() != "uint8"@.len());
    assert("list"@.len() != "uint16"@.len());
    assert("list"@.len() != "uint32"@.len());
    assert("list"@.len() != "uint64"@.len());
    assert("list"@.len() != "float32"@.len());
    assert("list"@.len() != "float64"@.len());
    assert("list"@.len() != "string"@.len());
    assert("list"@.len() != "large_string"@.len());
    assert("list"@.len() != "binary"@.len());
    assert("list"@.len() != "large_binary"@.len());
    assert("list"@.len() != "date32"@.len());
    assert("list"@.len() != "date64"@.len());
    assert("large_list"@.len() != "null"@.len());
    assert("large_list"@.len() != "bool"@.len());
    assert("large_list"@.len() != "int8"@.len());
    assert("large_list"@.len() != "int16"@.len());
    assert("large_list"@.len() != "int32"@.len());
    assert("large_list"@.len() != "int64"@.len());
    assert("large_list"@.len() != "uint8"@.len());
    assert("large_list"@.len() != "uint16"@.len());
    assert("large_list"@.len() != "uint32"@.len());
    assert("large_list"@.len() != "uint64"@.len());
    assert("large_list"@.len() != "float32"@.len());
    assert("large_list"@.len() != "float64"@.len());
    assert("large_list"@.len() != "string"@.len());
    assert("large_list"@.len() != "large_string"@.len());
    assert("large_list"@.len() != "binary"@.len());
    assert("large_list"@.len() != "large_binary"@.len());
    assert("large_list"@.len() != "date32"@.len());
    assert("large_list"@.len() != "date64"@.len());
    assert("fixed_size_list"@.len() != "null"@.len());
    assert("fixed_size_list"@.len() != "bool"@.len());
    assert("fixed_size_list"@.len() != "int8"@.len());
    assert("fixed_size_list"@.len() != "int16"@.len());
    assert("fixed_size_list"@.len() != "int32"@.len());
    assert("fixed_size_list"@.len() != "int64"@.len());
    assert("fixed_size_list"@.len() != "uint8"@.len());
    assert("fixed_size_list"@.len() != "uint16"@.len());
    assert("fixed_size_list"@.len() != "uint32"@.len());
    assert("fixed_size_list"@.len() != "uint64"@.len());
    assert("fixed_size_list"@.len() != "float32"@.len());
    assert("fixed_size_list"@.len() != "float64"@.len());
    assert("fixed_size_list"@.len() != "string"@.len());
    assert("fixed_size_list"@.len() != "large_string"@.len());
    assert("fixed_size_list"@.len() != "binary"@.len());
    assert("fixed_size_list"@.len() != "large_binary"@.len());
    assert("fixed_size_list"@.len() != "date32"@.len());
    assert("fixed_size_list"@.len() != "date64"@.len());
    assert("struct"@.len() != "null"@.len());
    assert("struct"@.len() != "bool"@.len());
    assert("struct"@.len() != "int8"@.len());
    assert("struct"@.len() != "int16"@.len());
    assert("struct"@.len() != "int32"@.len());
    assert("struct"@.len() != "int64"@.len());
    assert("struct"@.len() != "uint8"@.len());
    assert("struct"@[0] != "uint16"@[0]);
    assert("struct"@[0] != "uint32"@[0]);
    assert("struct"@[0] != "uint64"@[0]);
    assert("struct"@.len() != "float32"@.len());
    assert("struct"@.len() != "float64"@.len());
    assert("struct"@[3] != "string"@[3]);
    assert("struct"@.len() != "large_string"@.len());
    assert("struct"@[0] != "binary"@[0]);
    assert("struct"@.len() != "large_binary"@.len());
    assert("struct"@[0] != "date32"@[0]);
    assert("struct"@[0] != "date64"@[0]);
}

/// Lists are read with the field that their description gives and, where they are of fixed size,
/// with that size. Structs are read with their fields, in order.
pub proof fn nested_types_are_read_by_name(
    v: SpecValue,
    f: FieldModel,
    size: i32,
    fields: Seq<FieldModel>,
)
    requires
        v is Dict,
    ensures
        ({
            let holds = value_under(v, "field"@) matches Some(x) && parsed_field(x) == Result::<
                FieldModel,
                BindingRefusal,
            >::Ok(f);
            &&& text_stands(v, "kind"@, "list"@) ==> (parsed_type(v) == Result::<
                TypeModel,
                BindingRefusal,
            >::Ok(TypeModel::List(ListKind::List, Box::new(f))) <==> holds)
            &&& text_stands(v, "kind"@, "large_list"@) ==> (parsed_type(v) == Result::<
                TypeModel,
                BindingRefusal,
            >::Ok(TypeModel::List(ListKind::LargeList, Box::new(f))) <==> holds)
            &&& text_stands(v, "kind"@, "fixed_size_list"@) ==> (parsed_type(v) == Result::<
                TypeModel,
                BindingRefusal,
            >::Ok(TypeModel::FixedSizeList(Box::new(f), size)) <==> holds && counts_as(
                v,
                "size"@,
                size as int,
                -2_147_483_648,
                2_147_483_647,
            ))
            &&& text_stands(v, "kind"@, "struct"@) ==> (parsed_type(v) == Result::<
                TypeModel,
                BindingRefusal,
            >::Ok(TypeModel::Struct(fields)) <==> (value_under(v, "fields"@) matches Some(
                SpecValue::List(items),
            ) && items@.len() == fields.len() && forall|i: int|
                0 <= i < fields.len() ==> parsed_field(items@[i]) == Result::<
                    FieldModel,
                    BindingRefusal,
                >::Ok(#[trigger] fields[i])))
        }),
{
    kinds_apart();
    nested_kinds_apart();
    key_position_is_within(v->Dict_0@, "field"@);
    key_position_is_within(v->Dict_0@, "fields"@);
    numbers_are_read(
        v,
        "size"@,
        "Missing list size"@,
        -2_147_483_648i64,
        2_147_483_647,
        size as int,
    );
    if let Some(SpecValue::List(items)) = value_under(v, "fields"@) {
        items_are_read_in_order(items@, fields);
    }
}

proof fn items_are_read_in_order(items: Seq<SpecValue>, fields: Seq<FieldModel>)
    ensures
        parsed_fields(items) == Result::<Seq<FieldModel>, BindingRefusal>::Ok(fields) <==> {
            &&& items.len() == fields.len()
            &&& forall|i: int|
                0 <= i < fields.len() ==> parsed_field(items[i]) == Result::<
                    FieldModel,
                    BindingRefusal,
                >::Ok(#[trigger] fields[i])
        },
    decreases items.len(),
{
    if items.len() > 0 {
        let n = items.len() - 1;
        let front = items.subrange(0, n);
        assert forall|i: int| 0 <= i < n implies front[i] == #[trigger] items[i] by {}
        if fields.len() > 0 {
            let few = fields.drop_last();
            items_are_read_in_order(front, few);
            assert(few.push(fields.last()) =~= fields);
            assert forall|i: int| 0 <= i < few.len() implies few[i] == #[trigger] fields[i] by {}
            if parsed_fields(items) is Ok {
                let read = parsed_fields(front)->Ok_0;
                let last = parsed_field(items[n])->Ok_0;
                assert(parsed_fields(items)->Ok_0 == read.push(last));
                if read.push(last) == fields {
                    assert(read.push(last).drop_last() =~= read);
                    assert(read =~= few);
                    assert(fields[n] == last);
                    assert forall|i: int| 0 <= i < fields.len() implies parsed_field(items[i])
                        == Result::<FieldModel, BindingRefusal>::Ok(#[trigger] fields[i]) by {
                        if i < n {
                            assert(few[i] == fields[i]);
                        }
                    }
                }
            }
            if items.len() == fields.len() && (forall|i: int|
                0 <= i < fields.len() ==> parsed_field(items[i]) == Result::<
                    FieldModel,
                    BindingRefusal,
                >::Ok(#[trigger] fields[i])) {
                assert forall|i: int| 0 <= i < few.len() implies parsed_field(front[i])
                    == Result::<FieldModel, BindingRefusal>::Ok(#[trigger] few[i]) by {
                    assert(few[i] == fields[i]);
                }
                assert(fields[n] == fields.last());
            }
        } else {
            if parsed_fields(items) is Ok {
                let read = parsed_fields(front)->Ok_0;
                assert(parsed_fields(items)->Ok_0.len() == read.len() + 1);
            }
        }
    } else {
        if fields.len() == 0 {
            assert(fields =~= Seq::empty());
        }
    }
}

/// Scalar types can be told, but for those that no kind is named for: floats of 16 bits, intervals,
/// small decimals and views.
pub proof fn scalars_are_told_but_some(t: DataType)
    requires
        type_model(t) == TypeModel::Scalar(t),
    ensures
        first_unsupported(TypeModel::Scalar(t)) is Some <==> t is Float16 || t is Interval
            || t is Decimal32 || t is Decimal64 || t is BinaryView || t is Utf8View,
        first_unsupported(TypeModel::Scalar(t)) matches Some(m) ==> m == TypeModel::Scalar(t),
{
}

/// A type that cannot be told is not made of others that can: it is the reason itself.
pub proof fn untold_types_are_the_reason(m: TypeModel)
    ensures
        first_unsupported(m) matches Some(x) ==> first_unsupported(x) == Some(x),
    decreases m,
{
    match m {
        TypeModel::List(_, f) => untold_types_are_the_reason(f.data_type),
        TypeModel::FixedSizeList(f, _) => untold_types_are_the_reason(f.data_type),
        TypeModel::Struct(fields) => {
            if first_unsupported_among(fields) is Some {
                let i = untold_fields_are_found(fields);
                untold_types_are_the_reason(fields[i].data_type);
            }
        },
        _ => {},
    }
}

/// A struct that cannot be told has a field that cannot, and is refused for the first such.
pub proof fn untold_fields_are_found(fields: Seq<FieldModel>) -> (place: int)
    requires
        first_unsupported_among(fields) is Some,
    ensures
        0 <= place < fields.len(),
        first_unsupported_among(fields) == first_unsupported(fields[place].data_type),
        forall|i: int|
            0 <= i < place ==> first_unsupported((#[trigger] fields[i]).data_type) is None,
    decreases fields.len(),
{
    if first_unsupported(fields[0].data_type) is Some {
        0
    } else {
        let rest = fields.subrange(1, fields.len() as int);
        let place = untold_fields_are_found(rest);
        assert(rest[place] == fields[place + 1]);
        assert forall|i: int| 0 <= i < place + 1 implies first_unsupported(
            (#[trigger] fields[i]).data_type,
        ) is None by {
            if i > 0 {
                assert(rest[i - 1] == fields[i]);
            }
        }
        place + 1
    }
}

/// A schema that cannot be told has a column that cannot, and is refused for the first such.
pub proof fn untold_columns_are_found(columns: Seq<ColumnView>) -> (place: int)
    requires
        first_untold(columns) is Some,
    ensures
        0 <= place < columns.len(),
        first_untold(columns) == first_unsupported(columns[place].column_type),
        forall|i: int|
            0 <= i < place ==> first_unsupported((#[trigger] columns[i]).column_type) is None,
    decreases columns.len(),
{
    if first_unsupported(columns[0].column_type) is Some {
        0
    } else {
        let rest = columns.drop_first();
        let place = untold_columns_are_found(rest);
        assert(rest[place] == columns[place + 1]);
        assert forall|i: int| 0 <= i < place + 1 implies first_unsupported(
            (#[trigger] columns[i]).column_type,
        ) is None by {
            if i > 0 {
                assert(rest[i - 1] == columns[i]);
            }
        }
        place + 1
    }
}

/// Units of time are named for seconds and the thousandth, the millionth and the billionth of one.
pub proof fn units_are_named_for_what_they_are(unit: TimeUnit)
    ensures
        nanoseconds(unit) == 1_000_000_000 ==> unit_name(unit) == "s"@,
        nanoseconds(unit) == 1_000_000 ==> unit_name(unit) == "m"@ + "s"@,
        nanoseconds(unit) == 1_000 ==> unit_name(unit) == "u"@ + "s"@,
        nanoseconds(unit) == 1 ==> unit_name(unit) == "n"@ + "s"@,
{
    reveal_strlit("s");
    reveal_strlit("m");
    reveal_strlit("u");
    reveal_strlit("n");
    reveal_strlit("ms");
    reveal_strlit("us");
    reveal_strlit("ns");
    assert("ms"@ =~= "m"@ + "s"@);
    assert("us"@ =~= "u"@ + "s"@);
    assert("ns"@ =~= "n"@ + "s"@);
}

/// A kind of types has that name.
pub open spec fn names_a_type(kind: Seq<char>) -> bool {
    ||| simple_kind(kind) is Some
    ||| kind == "fixed_size_binary"@
    ||| kind == "time32"@
    ||| kind == "time64"@
    ||| kind == "duration"@
    ||| kind == "timestamp"@
    ||| kind == "decimal128"@
    ||| kind == "decimal256"@
    ||| kind == "list"@
    ||| kind == "large_list"@
    ||| kind == "fixed_size_list"@
    ||| kind == "struct"@
}

/// What is said of a type that cannot be read: that it is no dictionary, what is missing from it, or
/// which kind or unit has no meaning.
pub proof fn unreadable_types_are_told(v: SpecValue, kind: Seq<char>, name: Seq<char>)
    ensures
        ({
            let missing = |what: Seq<char>|
                parsed_type(v) == Result::<TypeModel, BindingRefusal>::Err(
                    BindingRefusal::Value("Missing "@ + what),
                );
            let lacks = |of: Seq<char>, key: Seq<char>|
                v is Dict && text_stands(v, "kind"@, of) && value_under(v, key) is None;
            &&& !(v is Dict) ==> parsed_type(v) == Result::<TypeModel, BindingRefusal>::Err(
                BindingRefusal::Conversion(Expected::Dict),
            )
            &&& v is Dict && value_under(v, "kind"@) is None ==> missing("dtype kind"@)
            &&& lacks("fixed_size_binary"@, "byte_width"@) ==> missing("byte_width"@)
            &&& lacks("time32"@, "unit"@) || lacks("time64"@, "unit"@) ==> missing("time unit"@)
            &&& lacks("duration"@, "unit"@) ==> missing("duration unit"@)
            &&& lacks("timestamp"@, "unit"@) ==> missing("timestamp unit"@)
            &&& lacks("decimal128"@, "precision"@) || lacks("decimal256"@, "precision"@) ==> missing(
                "precision"@,
            )
            &&& lacks("list"@, "field"@) || lacks("large_list"@, "field"@) || lacks(
                "fixed_size_list"@,
                "field"@,
            ) ==> missing("list field"@)
            &&& lacks("struct"@, "fields"@) ==> missing("struct fields"@)
            &&& v is Dict && text_stands(v, "kind"@, kind) && !names_a_type(kind) ==> parsed_type(v)
                == Result::<TypeModel, BindingRefusal>::Err(
                BindingRefusal::Value("Unsupported dtype kind: "@ + kind),
            )
        }),
        named_unit(name) is Err ==> named_unit(name) == Result::<TimeUnit, BindingRefusal>::Err(
            BindingRefusal::Value("Unsupported time unit: "@ + name),
        ),
{
    kinds_apart();
    nested_kinds_apart();
    missing_things_are_named();
    if v is Dict {
        key_position_is_within(v->Dict_0@, "field"@);
        key_position_is_within(v->Dict_0@, "fields"@);
    }
}

proof fn missing_things_are_named()
    ensures
        "Missing dtype kind"@ == "Missing "@ + "dtype kind"@,
        "Missing byte_width"@ == "Missing "@ + "byte_width"@,
        "Missing time unit"@ == "Missing "@ + "time unit"@,
        "Missing duration unit"@ == "Missing "@ + "duration unit"@,
        "Missing timestamp unit"@ == "Missing "@ + "timestamp unit"@,
        "Missing precision"@ == "Missing "@ + "precision"@,
        "Missing list field"@ == "Missing "@ + "list field"@,
        "Missing struct fields"@ == "Missing "@ + "struct fields"@,
        "Missing field name"@ == "Missing "@ + "field name"@,
        "Missing field nullable"@ == "Missing "@ + "field nullable"@,
        "Missing field dtype"@ == "Missing "@ + "field dtype"@,
{
    reveal_strlit("Missing ");
    reveal_strlit("dtype kind");
    reveal_strlit("Missing dtype kind");
    reveal_strlit("byte_width");
    reveal_strlit("Missing byte_width");
    reveal_strlit("time unit");
    reveal_strlit("Missing time unit");
    reveal_strlit("duration unit");
    reveal_strlit("Missing duration unit");
    reveal_strlit("timestamp unit");
    reveal_strlit("Missing timestamp unit");
    reveal_strlit("precision");
    reveal_strlit("Missing precision");
    reveal_strlit("list field");
    reveal_strlit("Missing list field");
    reveal_strlit("struct fields");
    reveal_strlit("Missing struct fields");
    reveal_strlit("field name");
    reveal_strlit("Missing field name");
    reveal_strlit("field nullable");
    reveal_strlit("Missing field nullable");
    reveal_strlit("field dtype");
    reveal_strlit("Missing field dtype");
    assert("Missing dtype kind"@ =~= "Missing "@ + "dtype kind"@);
    assert("Missing byte_width"@ =~= "Missing "@ + "byte_width"@);
    assert("Missing time unit"@ =~= "Missing "@ + "time unit"@);
    assert("Missing duration unit"@ =~= "Missing "@ + "duration unit"@);
    assert("Missing timestamp unit"@ =~= "Missing "@ + "timestamp unit"@);
    assert("Missing precision"@ =~= "Missing "@ + "precision"@);
    assert("Missing list field"@ =~= "Missing "@ + "list field"@);
    assert("Missing struct fields"@ =~= "Missing "@ + "struct fields"@);
    assert("Missing field name"@ =~= "Missing "@ + "field name"@);
    assert("Missing field nullable"@ =~= "Missing "@ + "field nullable"@);
    assert("Missing field dtype"@ =~= "Missing "@ + "field dtype"@);
}

/// What is said of a field that cannot be read: that it is no dictionary, or what is missing from
/// it. Its name is looked for first, then its nullability and its type.
pub proof fn unreadable_fields_are_told(v: SpecValue)
    ensures
        ({
            let missing = |what: Seq<char>|
                parsed_field(v) == Result::<FieldModel, BindingRefusal>::Err(
                    BindingRefusal::Value("Missing "@ + what),
                );
            let named = exists|s: Seq<char>| #[trigger] text_stands(v, "name"@, s);
            &&& !(v is Dict) ==> parsed_field(v) == Result::<FieldModel, BindingRefusal>::Err(
                BindingRefusal::Conversion(Expected::Dict),
            )
            &&& v is Dict && value_under(v, "name"@) is None ==> missing("field name"@)
            &&& v is Dict && named && value_under(v, "nullable"@) is None ==> missing(
                "field nullable"@,
            )
            &&& v is Dict && named && (value_under(v, "nullable"@) matches Some(SpecValue::Bool(_)))
                && value_under(v, "dtype"@) is None ==> missing("field dtype"@)
        }),
{
    missing_things_are_named();
    if v is Dict {
        key_position_is_within(v->Dict_0@, "dtype"@);
    }
}

/// What is said of an identifier that cannot be read: what it was for, and why not. An error of the
/// bindings has the words of the refusal that it tells of.
pub proof fn bad_ids_are_told(what: Seq<char>, s: Seq<char>, e: BindingError, words: Seq<char>)
    ensures
        uuid_parse(s) matches Err(why) ==> bad_id(what, s) == BindingRefusal::Value(what + why),
        binding_tells(e, BindingRefusal::Value(words)) <==> (e matches BindingError::Value(text)
            && text@ == words),
{
}

/// Lists are told item by item, in their order, and have no other items.
pub proof fn lists_are_told_in_order(
    v: SpecValue,
    files: Seq<FileView>,
    columns: Seq<ColumnView>,
    i: int,
)
    ensures
        tells_files(v, files) ==> v is List && v->List_0@.len() == files.len(),
        tells_files(v, files) && 0 <= i < files.len() ==> tells_file(v->List_0@[i], files[i]),
        tells_columns(v, columns) ==> v is List && v->List_0@.len() == columns.len(),
        tells_columns(v, columns) && 0 <= i < columns.len() ==> tells_column(
            v->List_0@[i],
            columns[i],
        ),
{
}

/// What is told has just the names that it is told under, and no others: there are as many as there
/// are things to tell.
pub proof fn nothing_else_is_told(
    v: SpecValue,
    f: FileView,
    c: ColumnView,
    s: SchemaView,
    stats: TableStats,
    t: SnapshotView,
    d: TableDelta,
    r: CommitResult,
)
    ensures
        tells_file(v, f) ==> v->Dict_0@.len() == 10,
        tells_column(v, c) ==> v->Dict_0@.len() == 6,
        tells_schema(v, s) ==> v->Dict_0@.len() == 7,
        tells_stats(v, stats) ==> v->Dict_0@.len() == 6,
        tells_snapshot(v, t) ==> v->Dict_0@.len() == 7,
        tells_delta(v, d) ==> v->Dict_0@.len() == 6,
        tells_commit(v, r) ==> v->Dict_0@.len() == 2,
{
}

} // verus!
