use std::sync::Arc;

use arrow::datatypes::{DataType, Field, IntervalUnit, TimeUnit, UnionFields, UnionMode};
use planar::catalog::data_type::{decode_data_type, encode_data_type, is_encodable};
use planar::catalog::room::spend_field;

fn roundtrip(data_type: DataType) {
    let encoded = encode_data_type(&data_type).expect("encode should succeed");
    let decoded = decode_data_type(&encoded).expect("decode should succeed");
    assert_eq!(data_type, decoded, "round-trip should preserve type");
}

#[test]
fn test_primitive_types() {
    roundtrip(DataType::Boolean);
    roundtrip(DataType::Int8);
    roundtrip(DataType::Int16);
    roundtrip(DataType::Int32);
    roundtrip(DataType::Int64);
    roundtrip(DataType::UInt8);
    roundtrip(DataType::UInt16);
    roundtrip(DataType::UInt32);
    roundtrip(DataType::UInt64);
    roundtrip(DataType::Float32);
    roundtrip(DataType::Float64);
}

#[test]
fn test_string_types() {
    roundtrip(DataType::Utf8);
    roundtrip(DataType::LargeUtf8);
    roundtrip(DataType::Binary);
    roundtrip(DataType::LargeBinary);
    roundtrip(DataType::FixedSizeBinary(16));
}

#[test]
fn test_temporal_types() {
    roundtrip(DataType::Date32);
    roundtrip(DataType::Date64);
    roundtrip(DataType::Time32(TimeUnit::Second));
    roundtrip(DataType::Time32(TimeUnit::Millisecond));
    roundtrip(DataType::Time64(TimeUnit::Microsecond));
    roundtrip(DataType::Time64(TimeUnit::Nanosecond));
    roundtrip(DataType::Duration(TimeUnit::Second));
    roundtrip(DataType::Duration(TimeUnit::Millisecond));
    roundtrip(DataType::Duration(TimeUnit::Microsecond));
    roundtrip(DataType::Duration(TimeUnit::Nanosecond));
}

#[test]
fn test_timestamp_types() {
    // Without timezone
    roundtrip(DataType::Timestamp(TimeUnit::Second, None));
    roundtrip(DataType::Timestamp(TimeUnit::Millisecond, None));
    roundtrip(DataType::Timestamp(TimeUnit::Microsecond, None));
    roundtrip(DataType::Timestamp(TimeUnit::Nanosecond, None));

    // With timezone
    roundtrip(DataType::Timestamp(
        TimeUnit::Microsecond,
        Some("UTC".into()),
    ));
    roundtrip(DataType::Timestamp(
        TimeUnit::Microsecond,
        Some("America/New_York".into()),
    ));
    roundtrip(DataType::Timestamp(
        TimeUnit::Nanosecond,
        Some("+00:00".into()),
    ));
}

#[test]
fn test_decimal_types() {
    roundtrip(DataType::Decimal128(10, 2));
    roundtrip(DataType::Decimal128(38, 10));
    roundtrip(DataType::Decimal256(76, 20));
}

#[test]
fn test_list_types() {
    roundtrip(DataType::List(Arc::new(Field::new(
        "item",
        DataType::Int32,
        true,
    ))));
    roundtrip(DataType::LargeList(Arc::new(Field::new(
        "item",
        DataType::Utf8,
        false,
    ))));
    roundtrip(DataType::FixedSizeList(
        Arc::new(Field::new("item", DataType::Float64, true)),
        5,
    ));
}

#[test]
fn test_struct_type() {
    let fields = vec![
        Field::new("id", DataType::Int64, false),
        Field::new("name", DataType::Utf8, true),
        Field::new(
            "created_at",
            DataType::Timestamp(TimeUnit::Microsecond, Some("UTC".into())),
            false,
        ),
    ];
    roundtrip(DataType::Struct(fields.into()));
}

#[test]
fn test_nested_types() {
    // List of structs
    let struct_type = DataType::Struct(
        vec![
            Field::new("x", DataType::Float64, false),
            Field::new("y", DataType::Float64, false),
        ]
        .into(),
    );
    roundtrip(DataType::List(Arc::new(Field::new(
        "point",
        struct_type,
        true,
    ))));

    // Struct with list
    let list_type = DataType::List(Arc::new(Field::new("item", DataType::Int32, true)));
    let fields = vec![
        Field::new("id", DataType::Int64, false),
        Field::new("values", list_type, true),
    ];
    roundtrip(DataType::Struct(fields.into()));
}

#[test]
fn test_decode_empty_bytes() {
    let result = decode_data_type(&[]);
    assert!(result.is_err());
    assert!(result.unwrap_err().to_string().contains("arrow error"));
}

#[test]
fn test_decode_invalid_bytes() {
    let garbage = vec![0xFF, 0xFF, 0xFF, 0xFF, 0x00, 0x00];
    let result = decode_data_type(&garbage);
    assert!(result.is_err());
    assert!(result.unwrap_err().to_string().contains("arrow error"));
}

#[test]
fn test_encoded_size() {
    // Basic types should be relatively small
    let int32_encoded = encode_data_type(&DataType::Int32).unwrap();
    assert!(
        int32_encoded.len() < 200,
        "Int32 encoding should be compact"
    );

    let timestamp_encoded = encode_data_type(&DataType::Timestamp(
        TimeUnit::Microsecond,
        Some("UTC".into()),
    ))
    .unwrap();
    assert!(
        timestamp_encoded.len() < 300,
        "Timestamp with timezone should be reasonably compact"
    );
}

#[test]
fn what_is_no_schema_is_refused_with_the_reason() {
    for bytes in [&[][..], &[0xFF, 0xFF, 0xFF, 0xFF, 0x00, 0x00][..], &[1, 2, 3][..]] {
        let reason = arrow_ipc::root_as_schema(bytes).expect_err("no schema").to_string();
        let err = decode_data_type(bytes).expect_err("refused");
        assert_eq!(
            err.to_string(),
            format!("arrow error: Ipc error: Invalid FlatBuffer schema: {reason}")
        );
    }
}

#[test]
fn a_long_name_comes_back() {
    let field = Field::new("n".repeat(17_000_000), DataType::Int8, false);
    roundtrip(DataType::Struct(vec![field].into()));
}

#[test]
fn metadata_comes_back() {
    let entries = [("unit", "m"), ("source", "gauge 7")];
    let metadata = entries.iter().map(|(k, v)| (k.to_string(), v.to_string())).collect();
    let field = Field::new("depth", DataType::Float64, true).with_metadata(metadata);
    let list = DataType::List(Arc::new(field));
    assert!(is_encodable(&list));
    roundtrip(list);
}

#[test]
fn a_dictionary_has_no_encoding() {
    let dictionary = DataType::Dictionary(Box::new(DataType::Int32), Box::new(DataType::Utf8));
    assert!(!is_encodable(&dictionary));
    let field = Arc::new(Field::new("d", dictionary, true));
    assert!(!is_encodable(&DataType::Struct(vec![field.clone()].into())));
    assert!(!is_encodable(&DataType::LargeList(field)));
    assert!(is_encodable(&DataType::Utf8));
}

fn many(field: Field, n: usize) -> DataType {
    let field = Arc::new(field);
    DataType::Struct((0..n).map(|_| field.clone()).collect::<Vec<_>>().into())
}

#[test]
fn an_encoding_ends_at_two_gigabytes() {
    let long = "n".repeat(20_000_000);
    let named = Field::new(long.clone(), DataType::Int8, false);
    assert!(is_encodable(&many(named.clone(), 107)));
    assert!(!is_encodable(&many(named, 108)));
    let zone: Arc<str> = long.as_str().into();
    let zoned = Field::new("t", DataType::Timestamp(TimeUnit::Second, Some(zone)), false);
    assert!(is_encodable(&many(zoned.clone(), 107)));
    assert!(!is_encodable(&many(zoned, 108)));
    let metadata = [("k".to_string(), long.clone()), (long, "v".to_string())];
    let noted = Field::new("m", DataType::Int8, false).with_metadata(metadata.into_iter().collect());
    assert!(is_encodable(&many(noted.clone(), 53)));
    assert!(!is_encodable(&many(noted, 54)));
}

fn room_of(data_type: &DataType) -> u64 {
    let budget = 1_000_000_000;
    let field = Field::new("_", data_type.clone(), true);
    budget - spend_field(&field, budget).expect("enough")
}

fn kinds() -> Vec<DataType> {
    let item = Arc::new(Field::new("item", DataType::Int16, true));
    let mut kinds = vec![
        DataType::Null,
        DataType::Boolean,
        DataType::Int8,
        DataType::Int64,
        DataType::UInt8,
        DataType::UInt64,
        DataType::Float16,
        DataType::Float32,
        DataType::Float64,
        DataType::Utf8,
        DataType::LargeUtf8,
        DataType::Utf8View,
        DataType::Binary,
        DataType::LargeBinary,
        DataType::BinaryView,
        DataType::FixedSizeBinary(0),
        DataType::FixedSizeBinary(16),
        DataType::Date32,
        DataType::Date64,
        DataType::Time32(TimeUnit::Second),
        DataType::Time32(TimeUnit::Millisecond),
        DataType::Time64(TimeUnit::Microsecond),
        DataType::Time64(TimeUnit::Nanosecond),
        DataType::Timestamp(TimeUnit::Second, None),
        DataType::Timestamp(TimeUnit::Nanosecond, None),
        DataType::Timestamp(TimeUnit::Second, Some("UTC".into())),
        DataType::Timestamp(TimeUnit::Millisecond, Some("+00:00".into())),
        DataType::Timestamp(TimeUnit::Microsecond, Some("".into())),
        DataType::Interval(IntervalUnit::YearMonth),
        DataType::Interval(IntervalUnit::DayTime),
        DataType::Interval(IntervalUnit::MonthDayNano),
        DataType::Duration(TimeUnit::Millisecond),
        DataType::Duration(TimeUnit::Second),
        DataType::Decimal32(5, 0),
        DataType::Decimal64(5, 2),
        DataType::Decimal128(0, 0),
        DataType::Decimal128(10, 0),
        DataType::Decimal128(10, -2),
        DataType::Decimal256(40, 3),
        DataType::List(item.clone()),
        DataType::ListView(item.clone()),
        DataType::LargeList(item.clone()),
        DataType::LargeListView(item.clone()),
        DataType::FixedSizeList(item.clone(), 0),
        DataType::FixedSizeList(item.clone(), 3),
        DataType::Struct(vec![Field::new("", DataType::Int8, false)].into()),
        DataType::Struct(Vec::<Field>::new().into()),
        DataType::Map(item.clone(), false),
        DataType::Map(item.clone(), true),
        DataType::RunEndEncoded(item.clone(), Arc::new(Field::new("values", DataType::Utf8, true))),
    ];
    for mode in [UnionMode::Sparse, UnionMode::Dense] {
        let fields: UnionFields = [(0, item.clone()), (5, item.clone())].into_iter().collect();
        kinds.push(DataType::Union(fields, mode));
    }
    kinds
}

#[test]
fn the_room_of_a_type_is_what_its_encoding_takes() {
    let close = |data_type: DataType| {
        let taken = encode_data_type(&data_type).unwrap().len() as u64;
        let room = room_of(&data_type);
        assert!(room <= taken && taken - room < 4_096, "{taken} for {room}: {data_type:?}");
    };
    for kind in kinds() {
        close(kind.clone());
        for name in ["", "a", "abc", "abcd", "abcdefg"] {
            close(many(Field::new(name, kind.clone(), false), 2_000));
            close(many(Field::new(name, kind.clone(), true), 2_000));
        }
        let entries = [("", "v"), ("key", ""), ("longer key", "longer value")];
        let metadata = entries.iter().map(|(k, v)| (k.to_string(), v.to_string())).collect();
        close(many(Field::new("noted", kind, true).with_metadata(metadata), 2_000));
    }
    let mixed: Vec<Field> =
        kinds().into_iter().enumerate().map(|(i, t)| Field::new(format!("f{i}"), t, i % 2 == 0)).collect();
    close(many(Field::new("mixed", DataType::Struct(mixed.into()), true), 500));
}
