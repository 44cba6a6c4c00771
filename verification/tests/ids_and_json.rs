use arrow::datatypes::DataType;
use planar::catalog::commit::draw_ids;
use planar::catalog::create::draw_table_ids;
use planar::catalog::helpers::{
    following, next_transaction_id, next_transaction_id_after, parse_json, parse_json_optional, parse_table_properties, serialize_json,
    serialize_json_optional, uuid_from_row, uuid_from_row_optional,
};
use planar::catalog::{
    ColumnSpec, FileSpec, Mutation, MutationOp, SchemaSpec, TableIdent, TableProperties,
};
use planar::ids::Uuid;
use planar::storage::Format;
use planar::text::{decimal, is_blank, signed_decimal};
use planar::time::Timestamp;

fn json(text: &str) -> serde_json::Value {
    serde_json::from_str(text).expect("valid json")
}

#[test]
fn uuids_read_their_bytes_in_order() {
    let bytes: Vec<u8> = (0..16).collect();
    let u = Uuid::from_slice(&bytes).unwrap();
    assert_eq!(u.as_u128(), 0x0001_0203_0405_0607_0809_0a0b_0c0d_0e0f);
    assert_eq!(u.to_string(), "00010203-0405-0607-0809-0a0b0c0d0e0f");
    assert_eq!(
        Uuid::from_slice(&bytes[..15]).expect_err("short"),
        "invalid length: expected 16 bytes, found 15"
    );
}

#[test]
fn uuids_read_back_from_their_text() {
    let u = Uuid::from_u128(0x936d_a01f_9abd_4d9d_80c7_02af_85c8_22a8);
    assert_eq!(Uuid::parse_str(&u.to_string()), Ok(u));
    assert_eq!(Uuid::parse_str("936DA01F9ABD4D9D80C702AF85C822A8"), Ok(u));
    assert!(Uuid::parse_str("not a uuid").is_err());
}

#[test]
fn drawn_uuids_have_their_version() {
    let version = |u: Uuid| (u.as_u128() >> 76) & 0xf;
    let variant = |u: Uuid| (u.as_u128() >> 62) & 0x3;
    let random = Uuid::new_v4();
    assert_eq!((version(random), variant(random)), (4, 2));
    assert!(random != Uuid::new_v4());
    let id = next_transaction_id();
    assert_eq!((version(id), variant(id)), (7, 2));
    assert!(next_transaction_id().as_u128() > id.as_u128());
}

#[test]
fn ids_for_operations_are_drawn_at_random() {
    let schema = SchemaSpec::new().with_column(ColumnSpec::new("id", DataType::Int8));
    let mut drawn = draw_table_ids(&schema);
    assert_eq!(drawn.len(), 3);
    let file = || FileSpec::new(Format::Lance, "f", 1, 1);
    let operations = vec![
        MutationOp::AppendFiles(vec![file(), file()]),
        MutationOp::UpdateSchema(schema),
        MutationOp::DeleteFiles(vec![Uuid::new_v4()]),
    ];
    let more = draw_ids(&Mutation { operations });
    assert_eq!(more.len(), 4);
    drawn.extend(more);
    for (i, id) in drawn.iter().enumerate() {
        assert_eq!(((id.as_u128() >> 76) & 0xf, (id.as_u128() >> 62) & 0x3), (4, 2));
        assert!(!drawn[..i].contains(id));
    }
}

#[test]
fn transaction_ids_follow_the_one_they_build_on() {
    let id = |n: u128| Uuid::from_u128(n);
    assert_eq!(following(id(9), id(5)), Some(id(9)));
    assert_eq!(following(id(5), id(5)), Some(id(6)));
    assert_eq!(following(id(2), id(5)), Some(id(6)));
    assert_eq!(following(id(2), id(u128::MAX)), None);
    let base = next_transaction_id();
    assert!(next_transaction_id_after(base).expect("one").as_u128() > base.as_u128());
    let ahead = id(u128::MAX - 1);
    assert_eq!(next_transaction_id_after(ahead), Some(id(u128::MAX)));
}

#[test]
fn uuids_of_rows() {
    let u = Uuid::from_u128(7);
    let bytes = u.as_u128().to_be_bytes().to_vec();
    assert_eq!(uuid_from_row(&bytes).unwrap(), u);
    assert_eq!(uuid_from_row_optional(&Some(bytes)).unwrap(), Some(u));
    assert_eq!(uuid_from_row_optional(&None).unwrap(), None);
    assert_eq!(
        uuid_from_row(&Vec::new()).expect_err("empty").to_string(),
        "invalid argument: invalid uuid: invalid length: expected 16 bytes, found 0"
    );
}

#[test]
fn json_reads_back_from_its_text() {
    let value = json(r#"{"a": [1, -2, "x", true, null], "b": {"c": 18446744073709551615}}"#);
    let text = serialize_json(&value).unwrap();
    assert_eq!(text, r#"{"a":[1,-2,"x",true,null],"b":{"c":18446744073709551615}}"#);
    assert_eq!(parse_json(Some(text)).unwrap(), value);
    assert_eq!(serialize_json_optional(&None).unwrap(), None);
    assert_eq!(parse_json_optional(None).unwrap(), None);
    let text = serialize_json_optional(&Some(value.clone())).unwrap();
    assert_eq!(parse_json_optional(text).unwrap(), Some(value));
}

#[test]
fn missing_json_stands_for_an_empty_object() {
    assert_eq!(parse_json(None).unwrap(), json("{}"));
    assert!(parse_table_properties(None).unwrap().equals(&TableProperties::new()));
}

#[test]
fn bad_json_is_told() {
    let err = parse_json(Some("{".to_string())).expect_err("bad").to_string();
    assert!(err.starts_with("invalid argument: invalid json: EOF"), "{err}");
    let err = parse_table_properties(Some("[1]".to_string())).expect_err("no object").to_string();
    assert_eq!(err, "invalid argument: table properties must be a JSON object");
}

#[test]
fn json_has_a_size() {
    let fits = format!("\"{}\"", "x".repeat(1_048_574));
    assert!(parse_json_optional(Some(fits.clone())).is_ok());
    let err = parse_json_optional(Some(format!("{fits} "))).expect_err("too large").to_string();
    assert_eq!(err, "limit exceeded: JSON size 1048577 bytes exceeds limit of 1048576 bytes");
    let value = serde_json::Value::String("x".repeat(1_048_575));
    let err = serialize_json(&value).expect_err("too large").to_string();
    assert_eq!(err, "limit exceeded: JSON size 1048577 bytes exceeds limit of 1048576 bytes");
}

#[test]
fn properties_hold_keys_and_values() {
    let mut p = TableProperties::from_json(json(r#"{"b": 1}"#)).unwrap();
    p.insert("a".to_string(), json("[2]"));
    p.insert("b".to_string(), json("3"));
    assert_eq!(p.to_string(), r#"{"a":[2],"b":3}"#);
    assert_eq!(p.as_map().len(), 2);
    let copy = p.clone();
    p.remove("a");
    p.remove("missing");
    assert_eq!(p.to_json(), json(r#"{"b": 3}"#));
    assert!(!p.equals(&copy));
    assert!(copy.equals(&copy.clone()));
    assert_eq!(copy.into_json(), json(r#"{"a": [2], "b": 3}"#));
    let err = TableProperties::from_json(json("1")).expect_err("no object");
    assert_eq!(err.to_string(), "invalid argument: table properties must be a JSON object");
}

#[test]
fn identifiers_have_a_dot() {
    assert_eq!(TableIdent::new("ns", "t").to_string(), "ns.t");
    assert_eq!(TableIdent::new("", "").to_string(), ".");
}

#[test]
fn numbers_and_blanks() {
    assert_eq!(decimal(0), "0");
    assert_eq!(decimal(18_446_744_073_709_551_615), "18446744073709551615");
    assert_eq!(signed_decimal(-42), "-42");
    assert_eq!(signed_decimal(7), "7");
    assert!(is_blank(""));
    assert!(is_blank(" \t\n\u{3000}\u{85}"));
    assert!(!is_blank(" x "));
    assert!(!is_blank("\u{200b}"));
}

#[test]
fn times_have_their_text() {
    let t = Timestamp::new(1_431_648_000, 0).expect("a time");
    assert_eq!(t.to_rfc3339(), "2015-05-15T00:00:00+00:00");
    let t = Timestamp::new(-1, 250_000_000).expect("a time");
    assert_eq!((t.seconds(), t.nanos()), (-1, 250_000_000));
    assert_eq!(t.to_rfc3339(), "1969-12-31T23:59:59.250+00:00");
}

#[test]
fn times_have_bounds() {
    assert!(Timestamp::new(8_210_266_876_799, 999_999_999).is_some());
    assert!(Timestamp::new(8_210_266_876_800, 0).is_none());
    assert!(Timestamp::new(-8_334_601_228_800, 0).is_some());
    assert!(Timestamp::new(-8_334_601_228_801, 0).is_none());
    assert!(Timestamp::new(i64::MAX, 0).is_none());
    assert!(Timestamp::new(i64::MIN, 0).is_none());
}

#[test]
fn leap_seconds_end_a_minute() {
    let t = Timestamp::new(59, 1_000_000_000).expect("a leap second");
    assert_eq!(t.to_rfc3339(), "1970-01-01T00:00:60+00:00");
    assert!(Timestamp::new(59, 2_000_000_000).is_none());
    assert!(Timestamp::new(58, 1_000_000_000).is_none());
    assert!(Timestamp::new(-1, 1_500_000_000).is_some());
}
