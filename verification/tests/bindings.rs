use std::sync::Arc;

use arrow::datatypes::{DataType, Field, TimeUnit};
use planar::bindings::arguments::{file_uuids, transaction_id};
use planar::bindings::data_type::{
    data_type_from_spec, data_type_to_spec, field_from_spec, field_to_spec, time_unit_from_str,
    time_unit_to_str,
};
use planar::bindings::records::{
    commit_result_to_spec, file_to_spec, table_delta_to_spec, table_view_to_spec,
};
use planar::bindings::value::{BindingError, Expected, SpecValue};
use planar::catalog::schema::{Column, File, Schema, TableStats};
use planar::catalog::{CommitResult, TableDelta, TableIdent, TableProperties, TableView};
use planar::ids::Uuid;
use planar::time::Timestamp;

fn dict(pairs: Vec<(&str, SpecValue)>) -> SpecValue {
    SpecValue::Dict(pairs.into_iter().map(|(k, v)| (k.to_string(), v)).collect())
}

fn text(s: &str) -> SpecValue {
    SpecValue::Text(s.to_string())
}

fn at<'a>(v: &'a SpecValue, key: &str) -> &'a SpecValue {
    match v {
        SpecValue::Dict(pairs) => {
            &pairs.iter().find(|(k, _)| k == key).expect("the key").1
        }
        other => panic!("{other:?}"),
    }
}

fn is_text(v: &SpecValue, s: &str) -> bool {
    matches!(v, SpecValue::Text(t) if t == s)
}

fn reads_back(t: DataType) {
    let spec = data_type_to_spec(&t).expect("supported");
    assert_eq!(data_type_from_spec(&spec).expect("readable"), t);
}

fn refused(v: &SpecValue) -> String {
    match data_type_from_spec(v) {
        Err(BindingError::Value(s)) => s,
        other => panic!("{other:?}"),
    }
}

#[test]
fn types_read_back_from_their_description() {
    for t in [
        DataType::Null,
        DataType::Boolean,
        DataType::Int8,
        DataType::Int16,
        DataType::Int32,
        DataType::Int64,
        DataType::UInt8,
        DataType::UInt16,
        DataType::UInt32,
        DataType::UInt64,
        DataType::Float32,
        DataType::Float64,
        DataType::Utf8,
        DataType::LargeUtf8,
        DataType::Binary,
        DataType::LargeBinary,
        DataType::FixedSizeBinary(16),
        DataType::Date32,
        DataType::Date64,
        DataType::Time32(TimeUnit::Millisecond),
        DataType::Time64(TimeUnit::Nanosecond),
        DataType::Duration(TimeUnit::Second),
        DataType::Timestamp(TimeUnit::Microsecond, None),
        DataType::Timestamp(TimeUnit::Microsecond, Some("UTC".into())),
        DataType::Decimal128(38, -2),
        DataType::Decimal256(76, 20),
    ] {
        reads_back(t);
    }
    let item = Arc::new(Field::new("item", DataType::Int32, true));
    reads_back(DataType::List(item.clone()));
    reads_back(DataType::LargeList(item.clone()));
    reads_back(DataType::FixedSizeList(item.clone(), 3));
    let inner = DataType::Struct(vec![Field::new("x", DataType::Float64, false)].into());
    reads_back(DataType::Struct(
        vec![Field::new("points", DataType::List(Arc::new(Field::new("p", inner, true))), false)].into(),
    ));
    reads_back(DataType::Struct(Vec::<Field>::new().into()));
}

#[test]
fn descriptions_lose_metadata() {
    let metadata = std::collections::HashMap::from([("k".to_string(), "v".to_string())]);
    let field = Field::new("f", DataType::Int8, true).with_metadata(metadata);
    let spec = field_to_spec(&field).unwrap();
    let back = field_from_spec(&spec).unwrap();
    assert_eq!(back, Field::new("f", DataType::Int8, true));
    assert!(back != field);
}

#[test]
fn descriptions_have_their_keys() {
    let spec = data_type_to_spec(&DataType::Timestamp(TimeUnit::Nanosecond, None)).unwrap();
    assert!(is_text(at(&spec, "kind"), "timestamp"));
    assert!(is_text(at(&spec, "unit"), "ns"));
    assert!(matches!(at(&spec, "tz"), SpecValue::Nothing));
    let spec = data_type_to_spec(&DataType::Decimal128(10, 2)).unwrap();
    assert!(is_text(at(&spec, "kind"), "decimal128"));
    assert!(matches!(at(&spec, "precision"), SpecValue::Int(10)));
    assert!(matches!(at(&spec, "scale"), SpecValue::Int(2)));
}

#[test]
fn unsupported_types_are_told() {
    let list = DataType::ListView(Arc::new(Field::new("item", DataType::Int8, true)));
    match data_type_to_spec(&list) {
        Err(BindingError::Value(s)) => {
            assert!(s.starts_with("Unsupported DataType for Python bindings: ListView"), "{s}")
        }
        other => panic!("{other:?}"),
    }
    let inside = DataType::List(Arc::new(Field::new("item", DataType::Float16, true)));
    match data_type_to_spec(&inside) {
        Err(BindingError::Value(s)) => {
            assert_eq!(s, "Unsupported DataType for Python bindings: Float16")
        }
        other => panic!("{other:?}"),
    }
}

#[test]
fn bad_descriptions_are_told() {
    assert_eq!(refused(&dict(vec![])), "Missing dtype kind");
    assert_eq!(refused(&dict(vec![("kind", text("int7"))])), "Unsupported dtype kind: int7");
    assert_eq!(refused(&dict(vec![("kind", text("fixed_size_binary"))])), "Missing byte_width");
    assert_eq!(refused(&dict(vec![("kind", text("time32"))])), "Missing time unit");
    assert_eq!(refused(&dict(vec![("kind", text("duration"))])), "Missing duration unit");
    assert_eq!(refused(&dict(vec![("kind", text("timestamp"))])), "Missing timestamp unit");
    assert_eq!(refused(&dict(vec![("kind", text("decimal256"))])), "Missing precision");
    assert_eq!(
        refused(&dict(vec![("kind", text("decimal256")), ("precision", SpecValue::Int(3))])),
        "Missing scale"
    );
    assert_eq!(refused(&dict(vec![("kind", text("large_list"))])), "Missing list field");
    assert_eq!(
        refused(&dict(vec![("kind", text("fixed_size_list")), ("field", SpecValue::Other)])),
        "Missing list size"
    );
    assert_eq!(refused(&dict(vec![("kind", text("struct"))])), "Missing struct fields");
    assert_eq!(
        refused(&dict(vec![("kind", text("time64")), ("unit", text("min"))])),
        "Unsupported time unit: min"
    );
    assert_eq!(
        refused(&dict(vec![("kind", text("list")), ("field", dict(vec![]))])),
        "Missing field name"
    );
    let named = dict(vec![("name", text("f"))]);
    assert_eq!(
        refused(&dict(vec![("kind", text("list")), ("field", named)])),
        "Missing field nullable"
    );
    let untyped = dict(vec![("name", text("f")), ("nullable", SpecValue::Bool(true))]);
    assert_eq!(
        refused(&dict(vec![("kind", text("list")), ("field", untyped)])),
        "Missing field dtype"
    );
}

#[test]
fn values_of_the_wrong_kind_are_told() {
    let expected = |v: &SpecValue| match data_type_from_spec(v) {
        Err(BindingError::Conversion(x)) => x,
        other => panic!("{other:?}"),
    };
    assert_eq!(expected(&SpecValue::Nothing), Expected::Dict);
    assert_eq!(expected(&dict(vec![("kind", SpecValue::Int(1))])), Expected::Text);
    assert_eq!(
        expected(&dict(vec![("kind", text("struct")), ("fields", text("x"))])),
        Expected::List
    );
    assert_eq!(
        expected(&dict(vec![("kind", text("decimal128")), ("precision", SpecValue::Int(256))])),
        Expected::Int(0, 255)
    );
    assert_eq!(
        expected(&dict(vec![
            ("kind", text("timestamp")),
            ("unit", text("bad")),
            ("tz", SpecValue::Int(1))
        ])),
        Expected::Text
    );
    let field = dict(vec![("name", text("f")), ("nullable", SpecValue::Int(1))]);
    assert_eq!(
        expected(&dict(vec![("kind", text("list")), ("field", field)])),
        Expected::Bool
    );
    let odd = dict(vec![("kind", text("fixed_size_binary")), ("byte_width", SpecValue::Bool(true))]);
    assert_eq!(data_type_from_spec(&odd).unwrap(), DataType::FixedSizeBinary(1));
}

#[test]
fn time_units_have_names() {
    for unit in
        [TimeUnit::Second, TimeUnit::Millisecond, TimeUnit::Microsecond, TimeUnit::Nanosecond]
    {
        assert_eq!(time_unit_from_str(time_unit_to_str(&unit)).unwrap(), unit);
    }
    assert_eq!(time_unit_to_str(&TimeUnit::Microsecond), "us");
}

#[test]
fn arguments_are_uuids() {
    let id = Uuid::from_u128(5);
    assert_eq!(transaction_id(&id.to_string()).unwrap(), id);
    match transaction_id("nonsense") {
        Err(BindingError::Value(s)) => assert!(s.starts_with("Invalid transaction id: "), "{s}"),
        other => panic!("{other:?}"),
    }
    let texts = vec![id.to_string(), Uuid::from_u128(6).to_string()];
    assert_eq!(file_uuids(&texts).unwrap(), vec![id, Uuid::from_u128(6)]);
    match file_uuids(&vec![id.to_string(), "x".to_string()]) {
        Err(BindingError::Value(s)) => assert!(s.starts_with("Invalid file uuid: "), "{s}"),
        other => panic!("{other:?}"),
    }
}

fn schema(column_type: DataType) -> Schema {
    Schema {
        schema_uuid: Uuid::from_u128(2),
        table_uuid: Uuid::from_u128(1),
        schema_version: 4,
        valid_from_transaction_id: Uuid::from_u128(8),
        valid_to_transaction_id: None,
        created_at: Timestamp::new(3, 4).unwrap(),
        columns: vec![Column {
            column_uuid: Uuid::from_u128(3),
            schema_uuid: Uuid::from_u128(2),
            column_name: "id".to_string(),
            column_type,
            ordinal_position: 1,
            is_nullable: false,
        }],
    }
}

fn view(column_type: DataType) -> TableView {
    TableView {
        ident: TableIdent::new("ns", "t"),
        table_uuid: Uuid::from_u128(1),
        transaction_id: Uuid::from_u128(9),
        schema: schema(column_type),
        files: vec![file()],
        properties: TableProperties::new(),
        stats: Some(TableStats {
            table_uuid: Uuid::from_u128(1),
            transaction_id: Uuid::from_u128(9),
            record_count: 1,
            file_size_bytes: 2,
            file_count: 3,
            last_updated: Timestamp::new(5, 6).unwrap(),
        }),
    }
}

fn file() -> File {
    File {
        file_uuid: Uuid::from_u128(7),
        table_uuid: Uuid::from_u128(1),
        file_format: "lance".to_string(),
        file_path: "/f".to_string(),
        record_count: 10,
        file_size_bytes: 20,
        added_in_transaction_id: Uuid::from_u128(8),
        removed_in_transaction_id: None,
        partition_values: Some(serde_json::Value::Bool(true)),
        format_options: None,
    }
}

#[test]
fn files_are_told() {
    let v = file_to_spec(&file());
    assert!(is_text(at(&v, "file_uuid"), "00000000-0000-0000-0000-000000000007"));
    assert!(is_text(at(&v, "file_format"), "lance"));
    assert!(matches!(at(&v, "record_count"), SpecValue::Int(10)));
    assert!(matches!(at(&v, "removed_in_transaction_id"), SpecValue::Nothing));
    assert!(matches!(at(&v, "partition_values"), SpecValue::Json(serde_json::Value::Bool(true))));
    assert!(matches!(at(&v, "format_options"), SpecValue::Nothing));
}

#[test]
fn snapshots_are_told() {
    let v = table_view_to_spec(&view(DataType::Int32)).unwrap();
    assert!(is_text(at(at(&v, "ident"), "namespace"), "ns"));
    assert!(is_text(at(&v, "transaction_id"), "00000000-0000-0000-0000-000000000009"));
    let columns = at(at(&v, "schema"), "columns");
    match columns {
        SpecValue::List(items) => {
            assert_eq!(items.len(), 1);
            assert!(is_text(at(&items[0], "column_name"), "id"));
            assert!(is_text(at(at(&items[0], "column_type"), "kind"), "int32"));
        }
        other => panic!("{other:?}"),
    }
    let created_at = at(at(&v, "schema"), "created_at");
    assert!(is_text(created_at, "1970-01-01T00:00:03.000000004+00:00"));
    let last_updated = at(at(&v, "stats"), "last_updated");
    assert!(is_text(last_updated, "1970-01-01T00:00:05.000000006+00:00"));
    assert!(matches!(at(&v, "files"), SpecValue::List(items) if items.len() == 1));
    assert!(table_view_to_spec(&view(DataType::Float16)).is_err());
}

#[test]
fn differences_and_commits_are_told() {
    let delta = TableDelta {
        from_transaction_id: Uuid::from_u128(8),
        to_transaction_id: Uuid::from_u128(9),
        added_files: vec![file()],
        removed_files: vec![],
        new_schema: Some(schema(DataType::Utf8)),
        new_properties: None,
    };
    let v = table_delta_to_spec(&delta).unwrap();
    assert!(matches!(at(&v, "added_files"), SpecValue::List(items) if items.len() == 1));
    assert!(matches!(at(&v, "removed_files"), SpecValue::List(items) if items.is_empty()));
    assert!(matches!(at(at(&v, "new_schema"), "schema_version"), SpecValue::Int(4)));
    assert!(matches!(at(&v, "new_properties"), SpecValue::Nothing));
    let result = CommitResult { transaction_id: Uuid::from_u128(9), table_view: None };
    let v = commit_result_to_spec(&result).unwrap();
    assert!(is_text(at(&v, "transaction_id"), "00000000-0000-0000-0000-000000000009"));
    assert!(matches!(at(&v, "table_view"), SpecValue::Nothing));
}
