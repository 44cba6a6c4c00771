use arrow::datatypes::DataType;
use planar::catalog::models::{ColumnSpec, PropertyKey, SchemaSpec};
use planar::catalog::mutation::{FileSpec, Mutation, MutationOp};
use planar::ids::Uuid;
use planar::storage::Format;

fn json(text: &str) -> serde_json::Value {
    serde_json::from_str(text).expect("valid json")
}

#[test]
fn schema_spec_validate_rejects_duplicate_column_names() {
    let schema = SchemaSpec::new()
        .with_column(ColumnSpec::new("id", DataType::Int64))
        .with_column(ColumnSpec::new("id", DataType::Int64));
    let err = schema.validate().expect_err("schema should be invalid");
    assert!(err.to_string().contains("duplicate column name"));
}

#[test]
fn schema_spec_validate_rejects_empty_column_name() {
    let schema = SchemaSpec::new().with_column(ColumnSpec::new("   ", DataType::Int64));
    let err = schema.validate().expect_err("schema should be invalid");
    assert!(err.to_string().contains("column name cannot be empty"));
}

#[test]
fn schema_spec_validate_accepts_valid_schema() {
    let schema = SchemaSpec::new()
        .with_column(ColumnSpec::new("id", DataType::Int64))
        .with_column(ColumnSpec::new("value", DataType::Utf8).nullable());
    schema.validate().expect("schema should be valid");
}

#[test]
fn file_spec_validate_rejects_non_object_partition_values() {
    let file = FileSpec::new(Format::Parquet, "/tmp/part-0.parquet", 1, 1)
        .with_partition_values(json(r#"["not-object"]"#));
    let err = file.validate().expect_err("file spec should be invalid");
    assert!(
        err.to_string()
            .contains("partition_values must be a JSON object")
    );
}

#[test]
fn file_spec_validate_rejects_non_object_format_options() {
    let file = FileSpec::new(Format::Parquet, "/tmp/part-0.parquet", 1, 1)
        .with_format_options(json(r#"["not-object"]"#));
    let err = file.validate().expect_err("file spec should be invalid");
    assert!(
        err.to_string()
            .contains("format_options must be a JSON object")
    );
}

#[test]
fn file_spec_validate_accepts_valid_payload() {
    let file = FileSpec::new(Format::Parquet, "/tmp/part-0.parquet", 1, 1)
        .with_partition_values(json(r#"{"date": "2026-02-12"}"#))
        .with_format_options(json(r#"{"compression": "zstd"}"#));
    file.validate().expect("file spec should be valid");
}

#[test]
fn property_key_rejects_empty_value() {
    let err = PropertyKey::new("   ").expect_err("key should be invalid");
    assert!(err.to_string().contains("property key cannot be empty"));
}

#[test]
fn property_key_accepts_non_empty_value() {
    let key = PropertyKey::new("owner").expect("key should be valid");
    assert_eq!(key.as_str(), "owner");
}

#[test]
fn mutation_validate_rejects_duplicate_file_deletes() {
    let file_uuid = Uuid::new_v4();
    let mutation = Mutation {
        operations: vec![MutationOp::DeleteFiles(vec![file_uuid, file_uuid])],
    };
    let err = mutation.validate().expect_err("mutation should be invalid");
    assert!(err.to_string().contains("duplicate file UUID"));
}

#[test]
fn mutation_validate_rejects_duplicate_property_keys() {
    let key1 = PropertyKey::new("owner").expect("valid");
    let key2 = PropertyKey::new("owner").expect("valid");
    let mutation = Mutation {
        operations: vec![MutationOp::RemoveProperties(vec![key1, key2])],
    };
    let err = mutation.validate().expect_err("mutation should be invalid");
    assert!(err.to_string().contains("duplicate property key"));
}

#[test]
fn mutation_validate_rejects_multiple_schema_updates() {
    let s1 = SchemaSpec::new().with_column(ColumnSpec::new("id", DataType::Int64));
    let s2 = SchemaSpec::new().with_column(ColumnSpec::new("id", DataType::Int64));
    let mutation = Mutation {
        operations: vec![MutationOp::UpdateSchema(s1), MutationOp::UpdateSchema(s2)],
    };
    let err = mutation.validate().expect_err("mutation should be invalid");
    assert!(err.to_string().contains("at most one UpdateSchema"));
}
