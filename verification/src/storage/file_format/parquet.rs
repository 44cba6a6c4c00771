//! Parquet options.

use vstd::prelude::*;
use vstd::string::*;

use crate::json::{json_model, JsonModel};
use crate::storage::error::{Result, StorageError, StorageErrorView};
use crate::storage::utils::{
    entry_views, not_a_bool, not_a_string, not_an_integer, option_entries, ordered_entries,
    parse_usize, unknown_option, unknown_option_error, EntryView, OptionEntry,
};
use crate::text::{joined, lowercase_text, same_text, to_lowercase};

verus! {

/// Parquet file reader.
#[derive(Debug, Default)]
pub struct ParquetReader;

/// Parquet file writer.
#[derive(Debug, Default)]
pub struct ParquetWriter;

/// `parquet::arrow::arrow_reader::ArrowReaderOptions`.
#[verifier::external_type_specification]
#[verifier::external_body]
pub struct ExArrowReaderOptions(parquet::arrow::arrow_reader::ArrowReaderOptions);

/// `parquet::file::properties::WriterPropertiesBuilder`.
#[verifier::external_type_specification]
#[verifier::external_body]
pub struct ExWriterPropertiesBuilder(parquet::file::properties::WriterPropertiesBuilder);

/// `parquet::file::properties::WriterProperties`.
#[verifier::external_type_specification]
#[verifier::external_body]
pub struct ExWriterProperties(parquet::file::properties::WriterProperties);

/// Read-time options for Parquet scans.
#[derive(Debug)]
pub struct ParquetReadOptions {
    /// Low-level Arrow reader configuration (e.g., page index usage).
    pub arrow_options: parquet::arrow::arrow_reader::ArrowReaderOptions,
    /// Optional record batch size for streaming reads.
    pub batch_size: Option<usize>,
}

/// `Clone` of `parquet::arrow::arrow_reader::ArrowReaderOptions`: the same options.
#[verifier::external_body]
fn clone_arrow_options(options: &parquet::arrow::arrow_reader::ArrowReaderOptions) -> (r:
    parquet::arrow::arrow_reader::ArrowReaderOptions)
    ensures
        r == *options,
{
    options.clone()
}

impl Clone for ParquetReadOptions {
    fn clone(&self) -> (r: Self)
        ensures
            r == *self,
    {
        ParquetReadOptions {
            arrow_options: clone_arrow_options(&self.arrow_options),
            batch_size: self.batch_size,
        }
    }
}

/// `Default` of `parquet::arrow::arrow_reader::ArrowReaderOptions`. Nothing is claimed of the
/// options, which nothing here looks into.
#[verifier::external_body]
fn default_arrow_options() -> (r: parquet::arrow::arrow_reader::ArrowReaderOptions) {
    Default::default()
}

impl Default for ParquetReadOptions {
    fn default() -> (r: Self)
        ensures
            r.batch_size is None,
    {
        ParquetReadOptions { arrow_options: default_arrow_options(), batch_size: None }
    }
}

/// One call on a Parquet stream builder.
#[derive(Debug, Clone, Copy, PartialEq, Eq, Structural)]
pub enum ParquetReadStep {
    /// Set the record batch size.
    BatchSize(usize),
}

/// The calls on a stream builder that the options ask for, in their order.
pub fn apply_read_options(options: &ParquetReadOptions) -> (r: Vec<ParquetReadStep>)
    ensures
        r@ == (match options.batch_size {
            Some(n) => seq![ParquetReadStep::BatchSize(n)],
            None => Seq::empty(),
        }),
        forall|n: usize| #[trigger]
            r@.contains(ParquetReadStep::BatchSize(n)) <==> options.batch_size == Some(n),
        r@.len() <= 1,
{
    let mut steps: Vec<ParquetReadStep> = Vec::new();
    if let Some(batch_size) = options.batch_size {
        steps.push(ParquetReadStep::BatchSize(batch_size));
        assert(steps@[0] == ParquetReadStep::BatchSize(batch_size));
    }
    steps
}

/// Compression codecs, each at its default level.
#[derive(Debug, Clone, Copy, PartialEq, Eq, Structural)]
pub enum Compression {
    /// No compression.
    Uncompressed,
    /// Snappy.
    Snappy,
    /// Gzip.
    Gzip,
    /// Brotli.
    Brotli,
    /// LZ4.
    Lz4,
    /// Zstandard.
    Zstd,
}

/// Parquet writer versions.
#[derive(Debug, Clone, Copy, PartialEq, Eq, Structural)]
pub enum WriterVersion {
    /// Version 1.0.
    Parquet1,
    /// Version 2.0.
    Parquet2,
}

/// Where a Parquet file holds its Bloom filters.
#[derive(Debug, Clone, Copy, PartialEq, Eq, Structural)]
pub enum BloomFilterPosition {
    /// After each row group.
    AfterRowGroup,
    /// At the end of the file.
    End,
}

/// The settings of Parquet writer properties that options can change.
#[verifier::ext_equal]
pub struct ParquetSettings {
    /// Compression of all columns.
    pub compression: Compression,
    /// Maximum number of rows in a row group.
    pub max_row_group_size: usize,
    /// Best-effort limit on the bytes of a data page.
    pub data_page_size_limit: usize,
    /// Best-effort limit on the rows of a data page.
    pub data_page_row_count_limit: usize,
    /// Rows written at once.
    pub write_batch_size: usize,
    /// Writer version.
    pub writer_version: WriterVersion,
    /// Position of Bloom filters.
    pub bloom_filter_position: BloomFilterPosition,
    /// What the file says it was created by.
    pub created_by: Seq<char>,
    /// Whether offset indexes are left out.
    pub offset_index_disabled: bool,
}

/// The settings that a builder holds.
pub uninterp spec fn builder_settings(
    b: parquet::file::properties::WriterPropertiesBuilder,
) -> ParquetSettings;

/// The settings that writer properties hold.
pub uninterp spec fn properties_settings(
    p: parquet::file::properties::WriterProperties,
) -> ParquetSettings;

/// The settings of a builder on which nothing has been set. What it says a file was created by
/// names the version of the Parquet crate, and is left open.
pub open spec fn default_settings(created_by: Seq<char>) -> ParquetSettings {
    ParquetSettings {
        compression: Compression::Uncompressed,
        max_row_group_size: 1_048_576,
        data_page_size_limit: 1_048_576,
        data_page_row_count_limit: 20_000,
        write_batch_size: 1024,
        writer_version: WriterVersion::Parquet1,
        bloom_filter_position: BloomFilterPosition::AfterRowGroup,
        created_by,
        offset_index_disabled: false,
    }
}

/// `WriterPropertiesBuilder::default`: the documented defaults.
#[verifier::external_body]
fn new_builder() -> (r: parquet::file::properties::WriterPropertiesBuilder)
    ensures
        builder_settings(r) == default_settings(builder_settings(r).created_by),
{
    parquet::file::properties::WriterPropertiesBuilder::default()
}

/// `WriterPropertiesBuilder::build`: properties with the builder's settings.
#[verifier::external_body]
fn build(b: parquet::file::properties::WriterPropertiesBuilder) -> (r:
    parquet::file::properties::WriterProperties)
    ensures
        properties_settings(r) == builder_settings(b),
{
    b.build()
}

/// `WriterPropertiesBuilder::set_compression`.
#[verifier::external_body]
fn set_compression(
    b: parquet::file::properties::WriterPropertiesBuilder,
    value: Compression,
) -> (r: parquet::file::properties::WriterPropertiesBuilder)
    ensures
        builder_settings(r) == (ParquetSettings { compression: value, ..builder_settings(b) }),
{
    b.set_compression(
        match value {
            Compression::Uncompressed => parquet::basic::Compression::UNCOMPRESSED,
            Compression::Snappy => parquet::basic::Compression::SNAPPY,
            Compression::Gzip => parquet::basic::Compression::GZIP(Default::default()),
            Compression::Brotli => parquet::basic::Compression::BROTLI(Default::default()),
            Compression::Lz4 => parquet::basic::Compression::LZ4,
            Compression::Zstd => parquet::basic::Compression::ZSTD(Default::default()),
        },
    )
}

/// `WriterPropertiesBuilder::set_max_row_group_size`, which panics on 0.
#[verifier::external_body]
fn set_max_row_group_size(
    b: parquet::file::properties::WriterPropertiesBuilder,
    value: usize,
) -> (r: parquet::file::properties::WriterPropertiesBuilder)
    requires
        value > 0,
    ensures
        builder_settings(r) == (ParquetSettings {
            max_row_group_size: value,
            ..builder_settings(b)
        }),
{
    b.set_max_row_group_size(value)
}

/// `WriterPropertiesBuilder::set_data_page_size_limit`.
#[verifier::external_body]
fn set_data_page_size_limit(
    b: parquet::file::properties::WriterPropertiesBuilder,
    value: usize,
) -> (r: parquet::file::properties::WriterPropertiesBuilder)
    ensures
        builder_settings(r) == (ParquetSettings {
            data_page_size_limit: value,
            ..builder_settings(b)
        }),
{
    b.set_data_page_size_limit(value)
}

/// `WriterPropertiesBuilder::set_data_page_row_count_limit`.
#[verifier::external_body]
fn set_data_page_row_count_limit(
    b: parquet::file::properties::WriterPropertiesBuilder,
    value: usize,
) -> (r: parquet::file::properties::WriterPropertiesBuilder)
    ensures
        builder_settings(r) == (ParquetSettings {
            data_page_row_count_limit: value,
            ..builder_settings(b)
        }),
{
    b.set_data_page_row_count_limit(value)
}

/// `WriterPropertiesBuilder::set_write_batch_size`.
#[verifier::external_body]
fn set_write_batch_size(
    b: parquet::file::properties::WriterPropertiesBuilder,
    value: usize,
) -> (r: parquet::file::properties::WriterPropertiesBuilder)
    ensures
        builder_settings(r) == (ParquetSettings { write_batch_size: value, ..builder_settings(b) }),
{
    b.set_write_batch_size(value)
}

/// `WriterPropertiesBuilder::set_writer_version`.
#[verifier::external_body]
fn set_writer_version(
    b: parquet::file::properties::WriterPropertiesBuilder,
    value: WriterVersion,
) -> (r: parquet::file::properties::WriterPropertiesBuilder)
    ensures
        builder_settings(r) == (ParquetSettings { writer_version: value, ..builder_settings(b) }),
{
    b.set_writer_version(
        match value {
            WriterVersion::Parquet1 => parquet::file::properties::WriterVersion::PARQUET_1_0,
            WriterVersion::Parquet2 => parquet::file::properties::WriterVersion::PARQUET_2_0,
        },
    )
}

/// `WriterPropertiesBuilder::set_bloom_filter_position`.
#[verifier::external_body]
fn set_bloom_filter_position(
    b: parquet::file::properties::WriterPropertiesBuilder,
    value: BloomFilterPosition,
) -> (r: parquet::file::properties::WriterPropertiesBuilder)
    ensures
        builder_settings(r) == (ParquetSettings {
            bloom_filter_position: value,
            ..builder_settings(b)
        }),
{
    b.set_bloom_filter_position(
        match value {
            BloomFilterPosition::AfterRowGroup => {
                parquet::file::properties::BloomFilterPosition::AfterRowGroup
            },
            BloomFilterPosition::End => parquet::file::properties::BloomFilterPosition::End,
        },
    )
}

/// `WriterPropertiesBuilder::set_created_by`.
#[verifier::external_body]
fn set_created_by(
    b: parquet::file::properties::WriterPropertiesBuilder,
    value: String,
) -> (r: parquet::file::properties::WriterPropertiesBuilder)
    ensures
        builder_settings(r) == (ParquetSettings { created_by: value@, ..builder_settings(b) }),
{
    b.set_created_by(value)
}

/// `WriterPropertiesBuilder::set_offset_index_disabled`.
#[verifier::external_body]
fn set_offset_index_disabled(
    b: parquet::file::properties::WriterPropertiesBuilder,
    value: bool,
) -> (r: parquet::file::properties::WriterPropertiesBuilder)
    ensures
        builder_settings(r) == (ParquetSettings {
            offset_index_disabled: value,
            ..builder_settings(b)
        }),
{
    b.set_offset_index_disabled(value)
}

/// The codec that a text names, whatever its case.
pub open spec fn named_compression(text: Seq<char>) -> Option<Compression> {
    let lower = lowercase_text(text);
    if lower == "uncompressed"@ || lower == "none"@ {
        Some(Compression::Uncompressed)
    } else if lower == "snappy"@ {
        Some(Compression::Snappy)
    } else if lower == "gzip"@ {
        Some(Compression::Gzip)
    } else if lower == "brotli"@ {
        Some(Compression::Brotli)
    } else if lower == "lz4"@ {
        Some(Compression::Lz4)
    } else if lower == "zstd"@ {
        Some(Compression::Zstd)
    } else {
        None
    }
}

/// The writer version that a text names.
pub open spec fn named_version(text: Seq<char>) -> Option<WriterVersion> {
    if text == "PARQUET_1_0"@ || text == "parquet_1_0"@ {
        Some(WriterVersion::Parquet1)
    } else if text == "PARQUET_2_0"@ || text == "parquet_2_0"@ {
        Some(WriterVersion::Parquet2)
    } else {
        None
    }
}

/// The Bloom filter position that a text names, whatever its case.
pub open spec fn named_position(text: Seq<char>) -> Option<BloomFilterPosition> {
    let lower = lowercase_text(text);
    if lower == "afterrowgroup"@ || lower == "after_row_group"@ {
        Some(BloomFilterPosition::AfterRowGroup)
    } else if lower == "end"@ {
        Some(BloomFilterPosition::End)
    } else {
        None
    }
}

/// Reads a compression codec.
pub fn parse_compression(value: &str) -> (r: Result<Compression>)
    ensures
        match r {
            Ok(c) => named_compression(value@) == Some(c),
            Err(e) => named_compression(value@) is None && e@ == StorageErrorView::Unsupported(
                "Unsupported compression: "@ + lowercase_text(value@),
            ),
        },
{
    let lower = to_lowercase(value);
    let s = lower.as_str();
    if same_text(s, "uncompressed") || same_text(s, "none") {
        Ok(Compression::Uncompressed)
    } else if same_text(s, "snappy") {
        Ok(Compression::Snappy)
    } else if same_text(s, "gzip") {
        Ok(Compression::Gzip)
    } else if same_text(s, "brotli") {
        Ok(Compression::Brotli)
    } else if same_text(s, "lz4") {
        Ok(Compression::Lz4)
    } else if same_text(s, "zstd") {
        Ok(Compression::Zstd)
    } else {
        Err(StorageError::Unsupported(joined("Unsupported compression: ", s)))
    }
}

/// `FromStr` of `parquet::file::properties::WriterVersion`: it knows each version by its name in
/// upper case and in lower case, and refuses any other text with an error that repeats it.
#[verifier::external_body]
fn version_from_str(value: &str) -> (r: std::result::Result<WriterVersion, String>)
    ensures
        match r {
            Ok(v) => named_version(value@) == Some(v),
            Err(e) => named_version(value@) is None && e@ == "Invalid writer version: "@ + value@,
        },
{
    let version: std::result::Result<parquet::file::properties::WriterVersion, String> =
        value.parse();
    version.map(|v| match v {
        parquet::file::properties::WriterVersion::PARQUET_1_0 => WriterVersion::Parquet1,
        parquet::file::properties::WriterVersion::PARQUET_2_0 => WriterVersion::Parquet2,
    })
}

/// Reads a writer version.
pub fn parse_writer_version(value: &str) -> (r: Result<WriterVersion>)
    ensures
        match r {
            Ok(v) => named_version(value@) == Some(v),
            Err(e) => named_version(value@) is None && e@ == StorageErrorView::Unsupported(
                "Invalid writer version: "@ + value@,
            ),
        },
{
    match version_from_str(value) {
        Ok(v) => Ok(v),
        Err(e) => Err(StorageError::Unsupported(e)),
    }
}

/// Reads a Bloom filter position.
pub fn parse_bloom_filter_position(value: &str) -> (r: Result<BloomFilterPosition>)
    ensures
        match r {
            Ok(p) => named_position(value@) == Some(p),
            Err(e) => named_position(value@) is None && e@ == StorageErrorView::Unsupported(
                "Unsupported bloom_filter_position: "@ + lowercase_text(value@),
            ),
        },
{
    let lower = to_lowercase(value);
    let s = lower.as_str();
    if same_text(s, "afterrowgroup") || same_text(s, "after_row_group") {
        Ok(BloomFilterPosition::AfterRowGroup)
    } else if same_text(s, "end") {
        Ok(BloomFilterPosition::End)
    } else {
        Err(StorageError::Unsupported(joined("Unsupported bloom_filter_position: ", s)))
    }
}

/// What comes of reading Parquet options.
#[verifier::ext_equal]
pub enum ParquetOutcome {
    /// Settings.
    Done(ParquetSettings),
    /// An unsupported option, with the text that says so.
    Refused(Seq<char>),
    /// A row group size of 0, on which Parquet's builder panics.
    Panics,
}

/// What one more option makes of the settings.
pub open spec fn parquet_step(s: ParquetSettings, e: EntryView) -> ParquetOutcome {
    if e.key == "compression"@ {
        match e.as_str {
            Some(v) => match named_compression(v) {
                Some(c) => ParquetOutcome::Done(ParquetSettings { compression: c, ..s }),
                None => ParquetOutcome::Refused("Unsupported compression: "@ + lowercase_text(v)),
            },
            None => ParquetOutcome::Refused(not_a_string(e.key)),
        }
    } else if e.key == "max_row_group_size"@ {
        match e.as_u64 {
            Some(n) => if n as usize == 0 {
                ParquetOutcome::Panics
            } else {
                ParquetOutcome::Done(ParquetSettings { max_row_group_size: n as usize, ..s })
            },
            None => ParquetOutcome::Refused(not_an_integer(e.key)),
        }
    } else if e.key == "data_page_size_limit"@ {
        match e.as_u64 {
            Some(n) => ParquetOutcome::Done(
                ParquetSettings { data_page_size_limit: n as usize, ..s },
            ),
            None => ParquetOutcome::Refused(not_an_integer(e.key)),
        }
    } else if e.key == "data_page_row_count_limit"@ {
        match e.as_u64 {
            Some(n) => ParquetOutcome::Done(
                ParquetSettings { data_page_row_count_limit: n as usize, ..s },
            ),
            None => ParquetOutcome::Refused(not_an_integer(e.key)),
        }
    } else if e.key == "write_batch_size"@ {
        match e.as_u64 {
            Some(n) => ParquetOutcome::Done(ParquetSettings { write_batch_size: n as usize, ..s }),
            None => ParquetOutcome::Refused(not_an_integer(e.key)),
        }
    } else if e.key == "writer_version"@ {
        match e.as_str {
            Some(v) => match named_version(v) {
                Some(version) => ParquetOutcome::Done(
                    ParquetSettings { writer_version: version, ..s },
                ),
                None => ParquetOutcome::Refused("Invalid writer version: "@ + v),
            },
            None => ParquetOutcome::Refused(not_a_string(e.key)),
        }
    } else if e.key == "bloom_filter_position"@ {
        match e.as_str {
            Some(v) => match named_position(v) {
                Some(position) => ParquetOutcome::Done(
                    ParquetSettings { bloom_filter_position: position, ..s },
                ),
                None => ParquetOutcome::Refused(
                    "Unsupported bloom_filter_position: "@ + lowercase_text(v),
                ),
            },
            None => ParquetOutcome::Refused(not_a_string(e.key)),
        }
    } else if e.key == "created_by"@ {
        match e.as_str {
            Some(v) => ParquetOutcome::Done(ParquetSettings { created_by: v, ..s }),
            None => ParquetOutcome::Refused(not_a_string(e.key)),
        }
    } else if e.key == "offset_index_disabled"@ {
        match e.as_bool {
            Some(b) => ParquetOutcome::Done(ParquetSettings { offset_index_disabled: b, ..s }),
            None => ParquetOutcome::Refused(not_a_bool(e.key)),
        }
    } else {
        ParquetOutcome::Refused(unknown_option(e.key, "parquet"@))
    }
}

/// What a list of options makes of the settings `init`: it stops at the first that is refused
/// or panics.
pub open spec fn parquet_fold(init: ParquetSettings, entries: Seq<EntryView>) -> ParquetOutcome
    decreases entries.len(),
{
    if entries.len() == 0 {
        ParquetOutcome::Done(init)
    } else {
        match parquet_fold(init, entries.drop_last()) {
            ParquetOutcome::Done(s) => parquet_step(s, entries.last()),
            other => other,
        }
    }
}

/// The verdict on a list of options is the same from any settings; only what is not set differs.
pub proof fn parquet_verdict_is_fixed(
    a: ParquetSettings,
    b: ParquetSettings,
    entries: Seq<EntryView>,
)
    ensures
        parquet_fold(a, entries) is Done <==> parquet_fold(b, entries) is Done,
        !(parquet_fold(a, entries) is Done) ==> parquet_fold(a, entries) == parquet_fold(
            b,
            entries,
        ),
    decreases entries.len(),
{
    if entries.len() > 0 {
        parquet_verdict_is_fixed(a, b, entries.drop_last());
    }
}

proof fn parquet_fold_stops(init: ParquetSettings, entries: Seq<EntryView>, n: nat)
    requires
        n <= entries.len(),
        !(parquet_fold(init, entries.take(n as int)) is Done),
    ensures
        parquet_fold(init, entries) == parquet_fold(init, entries.take(n as int)),
    decreases entries.len(),
{
    if n == entries.len() {
        assert(entries.take(n as int) =~= entries);
    } else {
        assert(entries.drop_last().take(n as int) =~= entries.take(n as int));
        parquet_fold_stops(init, entries.drop_last(), n);
    }
}

fn parquet_apply(
    b: parquet::file::properties::WriterPropertiesBuilder,
    entry: &OptionEntry,
) -> (r: Option<Result<parquet::file::properties::WriterPropertiesBuilder>>)
    ensures
        match r {
            Some(Ok(x)) => parquet_step(builder_settings(b), entry@) == ParquetOutcome::Done(
                builder_settings(x),
            ),
            Some(Err(e)) => parquet_step(builder_settings(b), entry@) is Refused && e@
                == StorageErrorView::Unsupported(
                parquet_step(builder_settings(b), entry@)->Refused_0,
            ),
            None => parquet_step(builder_settings(b), entry@) is Panics,
        },
{
    let key = entry.key.as_str();
    if same_text(key, "compression") {
        match &entry.as_str {
            Some(v) => match parse_compression(v.as_str()) {
                Ok(c) => Some(Ok(set_compression(b, c))),
                Err(e) => Some(Err(e)),
            },
            None => Some(Err(StorageError::Unsupported(joined(key, " must be a string")))),
        }
    } else if same_text(key, "max_row_group_size") {
        match parse_usize(entry) {
            Ok(n) => if n == 0 {
                None
            } else {
                Some(Ok(set_max_row_group_size(b, n)))
            },
            Err(e) => Some(Err(e)),
        }
    } else if same_text(key, "data_page_size_limit") {
        match parse_usize(entry) {
            Ok(n) => Some(Ok(set_data_page_size_limit(b, n))),
            Err(e) => Some(Err(e)),
        }
    } else if same_text(key, "data_page_row_count_limit") {
        match parse_usize(entry) {
            Ok(n) => Some(Ok(set_data_page_row_count_limit(b, n))),
            Err(e) => Some(Err(e)),
        }
    } else if same_text(key, "write_batch_size") {
        match parse_usize(entry) {
            Ok(n) => Some(Ok(set_write_batch_size(b, n))),
            Err(e) => Some(Err(e)),
        }
    } else if same_text(key, "writer_version") {
        match &entry.as_str {
            Some(v) => match parse_writer_version(v.as_str()) {
                Ok(version) => Some(Ok(set_writer_version(b, version))),
                Err(e) => Some(Err(e)),
            },
            None => Some(Err(StorageError::Unsupported(joined(key, " must be a string")))),
        }
    } else if same_text(key, "bloom_filter_position") {
        match &entry.as_str {
            Some(v) => match parse_bloom_filter_position(v.as_str()) {
                Ok(position) => Some(Ok(set_bloom_filter_position(b, position))),
                Err(e) => Some(Err(e)),
            },
            None => Some(Err(StorageError::Unsupported(joined(key, " must be a string")))),
        }
    } else if same_text(key, "created_by") {
        match &entry.as_str {
            Some(v) => Some(Ok(set_created_by(b, v.clone()))),
            None => Some(Err(StorageError::Unsupported(joined(key, " must be a string")))),
        }
    } else if same_text(key, "offset_index_disabled") {
        match entry.as_bool {
            Some(v) => Some(Ok(set_offset_index_disabled(b, v))),
            None => Some(Err(StorageError::Unsupported(joined(key, " must be a bool")))),
        }
    } else {
        Some(Err(unknown_option_error(key, "parquet")))
    }
}

/// Reads writer properties from option entries; nothing where Parquet's builder would panic.
pub fn parse_write_entries(entries: &Vec<OptionEntry>) -> (r: Option<
    Result<parquet::file::properties::WriterProperties>,
>)
    ensures
        exists|created_by: Seq<char>|
            ({
                let outcome = parquet_fold(
                    #[trigger] default_settings(created_by),
                    entry_views(entries@),
                );
                match r {
                    Some(Ok(p)) => outcome == ParquetOutcome::Done(properties_settings(p)),
                    Some(Err(e)) => outcome is Refused && e@ == StorageErrorView::Unsupported(
                        outcome->Refused_0,
                    ),
                    None => outcome is Panics,
                }
            }),
{
    let mut builder = new_builder();
    let ghost init = builder_settings(builder);
    let ghost views = entry_views(entries@);
    assert(init == default_settings(init.created_by));
    assert(views.take(0) =~= Seq::<EntryView>::empty());
    for i in 0..entries.len()
        invariant
            views == entry_views(entries@),
            init == default_settings(init.created_by),
            parquet_fold(init, views.take(i as int)) == ParquetOutcome::Done(
                builder_settings(builder),
            ),
    {
        proof {
            assert(views.take(i + 1).drop_last() =~= views.take(i as int));
            assert(views.take(i + 1).last() == entries@[i as int]@);
        }
        match parquet_apply(builder, &entries[i]) {
            Some(Ok(b)) => {
                builder = b;
            },
            Some(Err(e)) => {
                proof {
                    parquet_fold_stops(init, views, (i + 1) as nat);
                }
                return Some(Err(e));
            },
            None => {
                proof {
                    parquet_fold_stops(init, views, (i + 1) as nat);
                }
                return None;
            },
        }
    }
    assert(views.take(entries@.len() as int) =~= views);
    Some(Ok(build(builder)))
}

/// What Parquet settings a JSON value makes of the settings `init`.
pub open spec fn parquet_options(
    init: ParquetSettings,
    options: Option<JsonModel>,
) -> ParquetOutcome {
    match options {
        None => ParquetOutcome::Done(init),
        Some(JsonModel::Object(object)) => parquet_fold(init, ordered_entries(object)),
        Some(_) => ParquetOutcome::Refused("format_options must be a JSON object"@),
    }
}

/// What an optional JSON value holds.
pub open spec fn options_model(options: Option<&serde_json::Value>) -> Option<JsonModel> {
    match options {
        Some(v) => Some(json_model(*v)),
        None => None,
    }
}

/// The options ask for an empty row group before anything else is wrong with them.
pub open spec fn parquet_panics(options: Option<JsonModel>) -> bool {
    parquet_options(default_settings(Seq::empty()), options) is Panics
}

/// Writer properties, or a refusal, as the options ask for them.
pub open spec fn parquet_answer(
    options: Option<JsonModel>,
    r: Result<parquet::file::properties::WriterProperties>,
) -> bool {
    exists|created_by: Seq<char>|
        ({
            let outcome = parquet_options(#[trigger] default_settings(created_by), options);
            match r {
                Ok(p) => outcome == ParquetOutcome::Done(properties_settings(p)),
                Err(e) => outcome is Refused && e@ == StorageErrorView::Unsupported(
                    outcome->Refused_0,
                ),
            }
        })
}

fn read_write_options(options: Option<&serde_json::Value>) -> (r: Option<
    Result<parquet::file::properties::WriterProperties>,
>)
    ensures
        r is None <==> parquet_panics(options_model(options)),
        r is Some ==> parquet_answer(options_model(options), r->0),
{
    let ghost wanted = options_model(options);
    match options {
        None => {
            let builder = new_builder();
            assert(parquet_options(
                default_settings(builder_settings(builder).created_by),
                wanted,
            ) is Done);
            Some(Ok(build(builder)))
        },
        Some(v) => match option_entries(v) {
            Some(entries) => {
                let r = parse_write_entries(&entries);
                proof {
                    let views = entry_views(entries@);
                    let created_by = choose|created_by: Seq<char>|
                        ({
                            let outcome = parquet_fold(
                                #[trigger] default_settings(created_by),
                                views,
                            );
                            match r {
                                Some(Ok(p)) => outcome == ParquetOutcome::Done(
                                    properties_settings(p),
                                ),
                                Some(Err(e)) => outcome is Refused && e@
                                    == StorageErrorView::Unsupported(outcome->Refused_0),
                                None => outcome is Panics,
                            }
                        });
                    let init = default_settings(created_by);
                    assert(parquet_options(init, wanted) == parquet_fold(init, views));
                    parquet_verdict_is_fixed(init, default_settings(Seq::empty()), views);
                }
                r
            },
            None => {
                assert(parquet_options(default_settings(Seq::empty()), wanted) is Refused);
                Some(
                    Err(
                        StorageError::Unsupported(
                            String::from_str("format_options must be a JSON object"),
                        ),
                    ),
                )
            },
        },
    }
}

/// Reads Parquet writer properties from JSON.
pub fn parse_write_options(options: Option<&serde_json::Value>) -> (r: Result<
    parquet::file::properties::WriterProperties,
>)
    requires
        !parquet_panics(options_model(options)),
    ensures
        parquet_answer(options_model(options), r),
{
    match read_write_options(options) {
        Some(r) => r,
        None => {
            assert(false);
            Err(StorageError::Unsupported(String::new()))
        },
    }
}

/// Reads Parquet writer properties from JSON; nothing where Parquet's builder would panic.
pub fn parse_write_options_checked(options: Option<&serde_json::Value>) -> (r: Option<
    Result<parquet::file::properties::WriterProperties>,
>)
    ensures
        r is None <==> parquet_panics(options_model(options)),
        r is Some ==> parquet_answer(options_model(options), r->0),
{
    match read_write_options(options) {
        Some(_) => Some(parse_write_options(options)),
        None => None,
    }
}

impl ParquetReader {
    /// Creates a new Parquet reader.
    pub fn new() -> (r: Self)
        ensures
            r == ParquetReader,
    {
        ParquetReader
    }
}

impl ParquetWriter {
    /// Creates a new Parquet writer.
    pub fn new() -> (r: Self)
        ensures
            r == ParquetWriter,
    {
        ParquetWriter
    }
}

} // verus!
