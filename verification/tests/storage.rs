use planar::storage::error::StorageError;
use planar::storage::file_format::lance::{
    self, LanceReadOptions, LanceReader, LanceScanStep, LanceWriteOptions, LanceWriter, WriteMode,
};
use planar::storage::file_format::parquet::{
    self as parquet_format, BloomFilterPosition, Compression, ParquetReadOptions, ParquetReadStep,
    WriterVersion,
};
use planar::storage::file_format::vortex::{
    self, vortex_dtype_mismatch_error, VortexOpenStep, VortexReadOptions, VortexWriteOptions,
};
use planar::storage::file_format::{
    path_to_utf8, validate_format_options, validate_format_options_checked,
};
use planar::storage::stream::{
    check_batches, check_encodable, empty_stream_error, merge_batches, schema_mismatch_error,
    write_stream_step, BatchMerge, StreamAction, StreamItem,
};
use planar::storage::{Format, FormatReadOptions, FormatWriteOptions, ReaderEnum, WriterEnum};

fn json(text: &str) -> serde_json::Value {
    serde_json::from_str(text).expect("valid json")
}

fn properties(text: &str) -> parquet::file::properties::WriterProperties {
    parquet_format::parse_write_options_checked(Some(&json(text)))
        .expect("no panic")
        .expect("accepted")
}

fn refused(text: &str) -> String {
    parquet_format::parse_write_options_checked(Some(&json(text)))
        .expect("no panic")
        .expect_err("refused")
        .to_string()
}

#[test]
fn formats_have_names() {
    for format in [Format::Parquet, Format::Lance, Format::Vortex] {
        assert_eq!(Format::from_str(format.as_str()).unwrap(), format);
    }
    assert_eq!(Format::from_str("PARQUET").unwrap(), Format::Parquet);
    assert_eq!(
        Format::from_str("CSV").expect_err("unknown").to_string(),
        "Unsupported operation: File format 'CSV' is not supported. \
         Supported formats: parquet, lance, vortex"
    );
}

#[test]
fn readers_and_writers_are_of_a_format() {
    assert!(matches!(ReaderEnum::new(Format::Lance), ReaderEnum::Lance(_)));
    assert!(matches!(WriterEnum::new(Format::Vortex), WriterEnum::Vortex(_)));
    assert!(matches!(ReaderEnum::from_str("Vortex").unwrap(), ReaderEnum::Vortex(_)));
    assert!(matches!(WriterEnum::from_str("parquet").unwrap(), WriterEnum::Parquet(_)));
    assert!(ReaderEnum::from_str("orc").is_err());
    assert!(WriterEnum::from_str("").is_err());
    let _ = (LanceReader::new(), LanceWriter::new());
}

#[test]
fn options_have_to_match_the_format() {
    let reader = ReaderEnum::new(Format::Parquet);
    assert!(reader.check_options(&FormatReadOptions::Parquet(ParquetReadOptions::default())).is_ok());
    assert_eq!(
        reader
            .check_options(&FormatReadOptions::Lance(LanceReadOptions::default()))
            .expect_err("mismatch")
            .to_string(),
        "Unsupported operation: read options do not match reader format"
    );
    let writer = WriterEnum::new(Format::Lance);
    let lance = lance::parse_write_options(None).unwrap();
    assert!(writer.check_options(&FormatWriteOptions::Lance(lance)).is_ok());
    assert_eq!(
        writer
            .check_options(&FormatWriteOptions::Vortex(VortexWriteOptions { exclude_dtype: false }))
            .expect_err("mismatch")
            .to_string(),
        "Unsupported operation: write options do not match writer format"
    );
}

#[test]
fn parquet_options_reach_the_writer() {
    let p = properties(
        r#"{"compression": "ZSTD", "max_row_group_size": 77, "data_page_size_limit": 88,
            "data_page_row_count_limit": 99, "write_batch_size": 11,
            "writer_version": "PARQUET_2_0", "bloom_filter_position": "End",
            "created_by": "planar", "offset_index_disabled": true}"#,
    );
    let column = parquet::schema::types::ColumnPath::from("x");
    assert!(matches!(p.compression(&column), parquet::basic::Compression::ZSTD(_)));
    assert_eq!(p.max_row_group_size(), 77);
    assert_eq!(p.data_page_size_limit(), 88);
    assert_eq!(p.data_page_row_count_limit(), 99);
    assert_eq!(p.write_batch_size(), 11);
    assert_eq!(p.writer_version(), parquet::file::properties::WriterVersion::PARQUET_2_0);
    assert!(matches!(
        p.bloom_filter_position(),
        parquet::file::properties::BloomFilterPosition::End
    ));
    assert_eq!(p.created_by(), "planar");
    assert!(p.offset_index_disabled());
}

#[test]
fn parquet_without_options_is_the_default() {
    let given = parquet_format::parse_write_options(None).unwrap();
    let default = parquet::file::properties::WriterProperties::builder().build();
    assert_eq!(given.max_row_group_size(), default.max_row_group_size());
    assert_eq!(given.writer_version(), default.writer_version());
    assert_eq!(given.created_by(), default.created_by());
    assert_eq!(properties("{}").write_batch_size(), default.write_batch_size());
}

#[test]
fn bad_parquet_options_are_told() {
    assert_eq!(refused("[]"), "Unsupported operation: format_options must be a JSON object");
    assert_eq!(
        refused(r#"{"compression": 1}"#),
        "Unsupported operation: compression must be a string"
    );
    assert_eq!(
        refused(r#"{"compression": "LZO"}"#),
        "Unsupported operation: Unsupported compression: lzo"
    );
    assert_eq!(
        refused(r#"{"write_batch_size": -1}"#),
        "Unsupported operation: write_batch_size must be an integer"
    );
    assert_eq!(
        refused(r#"{"write_batch_size": 1.5}"#),
        "Unsupported operation: write_batch_size must be an integer"
    );
    assert_eq!(
        refused(r#"{"offset_index_disabled": "yes"}"#),
        "Unsupported operation: offset_index_disabled must be a bool"
    );
    assert_eq!(
        refused(r#"{"color": "red"}"#),
        "Unsupported operation: Unsupported option 'color' for format 'parquet'"
    );
    assert_eq!(
        refused(r#"{"writer_version": "3"}"#),
        "Unsupported operation: Invalid writer version: 3"
    );
    assert_eq!(
        refused(r#"{"bloom_filter_position": "Start"}"#),
        "Unsupported operation: Unsupported bloom_filter_position: start"
    );
}

#[test]
fn the_first_bad_option_in_key_order_is_told() {
    assert_eq!(
        refused(r#"{"zzz": 1, "aaa": 1, "created_by": 3}"#),
        "Unsupported operation: Unsupported option 'aaa' for format 'parquet'"
    );
    assert_eq!(
        refused(r#"{"zzz": 1, "created_by": 3}"#),
        "Unsupported operation: created_by must be a string"
    );
}

#[test]
fn row_groups_of_no_rows_panic() {
    let zero = json(r#"{"max_row_group_size": 0}"#);
    assert!(parquet_format::parse_write_options_checked(Some(&zero)).is_none());
    assert!(validate_format_options_checked("parquet", &zero).is_none());
    let before = json(r#"{"aaa": 1, "max_row_group_size": 0}"#);
    assert!(matches!(validate_format_options_checked("parquet", &before), Some(Err(_))));
}

#[test]
fn parquet_names_have_no_case() {
    assert_eq!(parquet_format::parse_compression("None").unwrap(), Compression::Uncompressed);
    assert_eq!(parquet_format::parse_compression("SNAPPY").unwrap(), Compression::Snappy);
    assert_eq!(parquet_format::parse_compression("gzip").unwrap(), Compression::Gzip);
    assert_eq!(parquet_format::parse_compression("brotli").unwrap(), Compression::Brotli);
    assert_eq!(parquet_format::parse_compression("lz4").unwrap(), Compression::Lz4);
    assert_eq!(
        parquet_format::parse_bloom_filter_position("After_Row_Group").unwrap(),
        BloomFilterPosition::AfterRowGroup
    );
    assert_eq!(
        parquet_format::parse_writer_version("parquet_1_0").unwrap(),
        WriterVersion::Parquet1
    );
    assert!(parquet_format::parse_writer_version("Parquet_1_0").is_err());
}

#[test]
fn parquet_reads_in_batches() {
    let options = ParquetReadOptions { batch_size: Some(5), ..ParquetReadOptions::default() };
    assert_eq!(parquet_format::apply_read_options(&options), vec![ParquetReadStep::BatchSize(5)]);
    assert!(parquet_format::apply_read_options(&ParquetReadOptions::default()).is_empty());
    assert_eq!(options.clone().batch_size, Some(5));
}

#[test]
fn lance_options_are_read() {
    let given = json(
        r#"{"max_rows_per_file": 1, "max_rows_per_group": 2, "max_bytes_per_file": 3,
            "mode": "Append", "enable_stable_row_ids": true, "enable_v2_manifest_paths": false}"#,
    );
    assert_eq!(
        lance::parse_write_options(Some(&given)).unwrap(),
        LanceWriteOptions {
            max_rows_per_file: Some(1),
            max_rows_per_group: Some(2),
            max_bytes_per_file: Some(3),
            mode: Some(WriteMode::Append),
            enable_stable_row_ids: Some(true),
            enable_v2_manifest_paths: Some(false),
        }
    );
    let err = |text: &str| {
        lance::parse_write_options(Some(&json(text))).expect_err("refused").to_string()
    };
    assert_eq!(err(r#"{"mode": true}"#), "Unsupported operation: mode must be a string");
    assert_eq!(
        err(r#"{"compression": "zstd"}"#),
        "Unsupported operation: Unsupported option 'compression' for format 'lance'"
    );
    assert_eq!(
        err(r#"{"max_rows_per_file": "1"}"#),
        "Unsupported operation: max_rows_per_file must be an integer"
    );
    assert_eq!(lance::parse_write_mode("OVERWRITE").unwrap(), WriteMode::Overwrite);
    assert_eq!(lance::parse_write_mode("create").unwrap(), WriteMode::Create);
    assert!(lance::parse_write_mode("replace").is_err());
}

#[test]
fn lance_scans_take_their_options_in_order() {
    let options = LanceReadOptions {
        batch_size: Some(1),
        columns: Some(vec!["a".to_string(), "b".to_string()]),
        filter: Some("a > 1".to_string()),
        limit: None,
        offset: Some(4),
        scan_in_order: Some(false),
        io_buffer_size: Some(6),
    };
    let steps = lance::apply_read_options(&options);
    assert_eq!(steps.len(), 6);
    assert!(matches!(&steps[0], LanceScanStep::BatchSize(1)));
    assert!(matches!(&steps[1], LanceScanStep::Project(c) if c.len() == 2 && c[1] == "b"));
    assert!(matches!(&steps[2], LanceScanStep::Filter(f) if f == "a > 1"));
    assert!(matches!(&steps[3], LanceScanStep::Limit(None, Some(4))));
    assert!(matches!(&steps[4], LanceScanStep::ScanInOrder(false)));
    assert!(matches!(&steps[5], LanceScanStep::IoBufferSize(6)));
    assert!(lance::apply_read_options(&LanceReadOptions::default()).is_empty());
}

#[test]
fn vortex_options_are_read() {
    assert!(vortex::parse_write_options(Some(&json(r#"{"exclude_dtype": true}"#))).unwrap().exclude_dtype);
    assert!(!vortex::parse_write_options(Some(&json(r#"{"exclude_dtype": false}"#))).unwrap().exclude_dtype);
    assert!(!vortex::parse_write_options(None).unwrap().exclude_dtype);
    assert_eq!(
        vortex::parse_write_options(Some(&json(r#"{"x": 1}"#))).expect_err("refused").to_string(),
        "Unsupported operation: Unsupported option 'x' for format 'vortex'"
    );
    let options = VortexReadOptions { initial_read_size: Some(9), segment_cache: Some(false) };
    let steps = vortex::apply_read_options(&options);
    assert_eq!(steps[0], VortexOpenStep::InitialReadSize(9));
    assert_eq!(steps.len(), 2);
}

#[test]
fn format_options_are_checked_by_their_format() {
    assert!(validate_format_options("Lance", &json(r#"{"mode": "create"}"#)).is_ok());
    assert!(validate_format_options("vortex", &json(r#"{"mode": "create"}"#)).is_err());
    assert!(validate_format_options("PARQUET", &json(r#"{"compression": "none"}"#)).is_ok());
    assert_eq!(
        validate_format_options("Orc", &json("{}")).expect_err("unknown").to_string(),
        "Unsupported operation: Unsupported file format: orc"
    );
}

#[test]
fn a_stream_is_written_batch_by_batch() {
    let batch = |same_schema: bool| StreamItem::Batch { same_schema };
    assert_eq!(write_stream_step(false, batch(false)), StreamAction::Open);
    assert_eq!(write_stream_step(true, batch(true)), StreamAction::Write);
    assert_eq!(write_stream_step(true, batch(false)), StreamAction::RefuseSchema);
    assert_eq!(write_stream_step(true, StreamItem::End), StreamAction::Close);
    assert_eq!(write_stream_step(false, StreamItem::End), StreamAction::RefuseEmpty);
    assert_eq!(write_stream_step(true, StreamItem::Failure), StreamAction::Fail);
    assert_eq!(write_stream_step(false, StreamItem::Failure), StreamAction::Fail);
}

#[test]
fn no_batch_of_a_written_stream_is_lost() {
    let rows = [3, 0, 7, 5];
    let mut items: Vec<StreamItem> =
        rows.iter().map(|_| StreamItem::Batch { same_schema: true }).collect();
    items.push(StreamItem::End);
    let (mut opened, mut written, mut closed) = (false, Vec::new(), false);
    for (i, item) in items.into_iter().enumerate() {
        match write_stream_step(opened, item) {
            StreamAction::Open => {
                assert_eq!(i, 0);
                opened = true;
                written.push(i);
            }
            StreamAction::Write => written.push(i),
            StreamAction::Close => closed = true,
            other => panic!("{other:?}"),
        }
    }
    assert!(closed);
    assert_eq!(written, vec![0, 1, 2, 3]);
    assert_eq!(written.iter().map(|i| rows[*i]).sum::<i32>(), 15);
}

#[test]
fn writers_need_batches() {
    assert!(check_batches("write_parquet", 1).is_ok());
    assert_eq!(
        check_batches("write_parquet", 0).expect_err("none").to_string(),
        "Unsupported operation: write_parquet requires at least one RecordBatch"
    );
    assert!(check_encodable(2).is_ok());
    assert_eq!(
        check_encodable(0).expect_err("none").to_string(),
        "Unsupported operation: expected at least one RecordBatch"
    );
    assert_eq!(
        empty_stream_error().to_string(),
        "Unsupported operation: write_stream requires at least one RecordBatch"
    );
    assert_eq!(
        schema_mismatch_error("A", "B"),
        "Schema mismatch in stream: expected A, got B"
    );
}

#[test]
fn batches_of_a_file_become_one() {
    assert_eq!(merge_batches(1).unwrap(), BatchMerge::Single);
    assert_eq!(merge_batches(3).unwrap(), BatchMerge::Concatenate);
    assert!(matches!(merge_batches(0), Err(StorageError::Parquet(_))));
}

#[test]
fn paths_are_text() {
    assert_eq!(path_to_utf8(Some("/a/b")).unwrap(), "/a/b");
    assert_eq!(
        path_to_utf8(None).expect_err("no text").to_string(),
        "IO error: Path contains invalid UTF-8"
    );
}

#[test]
fn vortex_types_have_to_match() {
    let text = vortex_dtype_mismatch_error("utf8", "i32");
    assert!(text.contains("utf8") && text.contains("i32"), "{text}");
}

#[test]
fn storage_errors_tell_their_layer() {
    assert_eq!(StorageError::Io("x".to_string()).to_string(), "IO error: x");
    assert_eq!(StorageError::Arrow("x".to_string()).to_string(), "Arrow error: x");
    assert_eq!(StorageError::Parquet("x".to_string()).to_string(), "Parquet error: x");
    assert_eq!(StorageError::Lance("x".to_string()).to_string(), "Lance error: x");
    assert_eq!(StorageError::Vortex("x".to_string()).to_string(), "Vortex error: x");
    assert_eq!(
        StorageError::NotYetImplemented("x".to_string()).to_string(),
        "Feature not yet implemented: x"
    );
}

#[test]
fn cloned_parquet_read_options_are_the_same() {
    let options = ParquetReadOptions {
        arrow_options: parquet::arrow::arrow_reader::ArrowReaderOptions::new().with_page_index(true),
        batch_size: Some(7),
    };
    let copy = options.clone();
    assert_eq!(copy.batch_size, Some(7));
    assert!(copy.arrow_options.page_index());
    assert!(!ParquetReadOptions::default().arrow_options.page_index());
}
