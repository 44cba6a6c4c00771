//! Lance options.

use vstd::prelude::*;
use vstd::string::*;

use crate::json::json_model;
use crate::storage::error::{Result, StorageError, StorageErrorView};
use crate::storage::utils::{
    entry_views, not_a_bool, not_a_string, not_an_integer, option_entries, ordered_entries,
    parse_usize, unknown_option, unknown_option_error, EntryView, OptionEntry,
};
use crate::text::{joined, lowercase_text, same_text, to_lowercase};

verus! {

/// Lance file reader.
#[derive(Debug, Default)]
pub struct LanceReader;

/// Lance file writer.
#[derive(Debug, Default)]
pub struct LanceWriter;

/// Read-time options for Lance scans.
#[derive(Debug, Clone, Default)]
pub struct LanceReadOptions {
    /// Optional record batch size for scanning.
    pub batch_size: Option<usize>,
    /// Optional column projection list.
    pub columns: Option<Vec<String>>,
    /// Optional filter expression string.
    pub filter: Option<String>,
    /// Optional row limit.
    pub limit: Option<i64>,
    /// Optional row offset.
    pub offset: Option<i64>,
    /// Optional scan ordering preference.
    pub scan_in_order: Option<bool>,
    /// Optional I/O buffer size in bytes.
    pub io_buffer_size: Option<u64>,
}

/// How a Lance write treats a dataset that is already there.
#[derive(Debug, Clone, Copy, PartialEq, Eq, Structural)]
pub enum WriteMode {
    /// Create a new dataset.
    Create,
    /// Append to the dataset.
    Append,
    /// Overwrite the dataset.
    Overwrite,
}

/// Parameters of a Lance write. What is `None` stays as Lance has it by default.
#[derive(Debug, Clone, Copy, PartialEq, Eq)]
pub struct LanceWriteOptions {
    /// Maximum number of rows in a file.
    pub max_rows_per_file: Option<usize>,
    /// Maximum number of rows in a group.
    pub max_rows_per_group: Option<usize>,
    /// Maximum number of bytes in a file.
    pub max_bytes_per_file: Option<usize>,
    /// Write mode.
    pub mode: Option<WriteMode>,
    /// Whether row ids are stable.
    pub enable_stable_row_ids: Option<bool>,
    /// Whether manifest paths are of the second version.
    pub enable_v2_manifest_paths: Option<bool>,
}

/// One call on a Lance scanner.
#[derive(Debug, Clone)]
pub enum LanceScanStep {
    /// Set the record batch size.
    BatchSize(usize),
    /// Project to columns.
    Project(Vec<String>),
    /// Filter by an expression.
    Filter(String),
    /// Limit the rows and skip some.
    Limit(Option<i64>, Option<i64>),
    /// Set the scan order.
    ScanInOrder(bool),
    /// Set the I/O buffer size.
    IoBufferSize(u64),
}

/// A call on a Lance scanner, with its texts as sequences of characters.
#[verifier::ext_equal]
pub enum ScanStepView {
    /// Set the record batch size.
    BatchSize(usize),
    /// Project to columns.
    Project(Seq<Seq<char>>),
    /// Filter by an expression.
    Filter(Seq<char>),
    /// Limit the rows and skip some.
    Limit(Option<i64>, Option<i64>),
    /// Set the scan order.
    ScanInOrder(bool),
    /// Set the I/O buffer size.
    IoBufferSize(u64),
}

impl View for LanceScanStep {
    type V = ScanStepView;

    open spec fn view(&self) -> ScanStepView {
        match self {
            LanceScanStep::BatchSize(n) => ScanStepView::BatchSize(*n),
            LanceScanStep::Project(columns) => ScanStepView::Project(
                Seq::new(columns@.len(), |i: int| columns@[i]@),
            ),
            LanceScanStep::Filter(s) => ScanStepView::Filter(s@),
            LanceScanStep::Limit(limit, offset) => ScanStepView::Limit(*limit, *offset),
            LanceScanStep::ScanInOrder(b) => ScanStepView::ScanInOrder(*b),
            LanceScanStep::IoBufferSize(n) => ScanStepView::IoBufferSize(*n),
        }
    }
}

/// The calls on a scanner that the options ask for, in their order.
pub open spec fn scan_steps(options: LanceReadOptions) -> Seq<ScanStepView> {
    let none = Seq::<ScanStepView>::empty();
    (match options.batch_size {
        Some(n) => seq![ScanStepView::BatchSize(n)],
        None => none,
    }) + (match options.columns {
        Some(columns) => seq![
            ScanStepView::Project(Seq::new(columns@.len(), |i: int| columns@[i]@)),
        ],
        None => none,
    }) + (match options.filter {
        Some(filter) => seq![ScanStepView::Filter(filter@)],
        None => none,
    }) + (if options.limit is Some || options.offset is Some {
        seq![ScanStepView::Limit(options.limit, options.offset)]
    } else {
        none
    }) + (match options.scan_in_order {
        Some(b) => seq![ScanStepView::ScanInOrder(b)],
        None => none,
    }) + (match options.io_buffer_size {
        Some(n) => seq![ScanStepView::IoBufferSize(n)],
        None => none,
    })
}

/// The views of a list of scanner calls.
pub open spec fn step_views(steps: Seq<LanceScanStep>) -> Seq<ScanStepView> {
    Seq::new(steps.len(), |i: int| steps[i]@)
}

fn clone_texts(texts: &Vec<String>) -> (r: Vec<String>)
    ensures
        r@.len() == texts@.len(),
        forall|i: int| 0 <= i < texts@.len() ==> #[trigger] r@[i]@ == texts@[i]@,
{
    let mut r: Vec<String> = Vec::new();
    for i in 0..texts.len()
        invariant
            r@.len() == i,
            forall|j: int| 0 <= j < i ==> #[trigger] r@[j]@ == texts@[j]@,
    {
        r.push(texts[i].clone());
    }
    r
}

/// The calls on a scanner that the options ask for, in their order.
pub fn apply_read_options(options: &LanceReadOptions) -> (r: Vec<LanceScanStep>)
    ensures
        step_views(r@) == scan_steps(*options),
{
    let mut steps: Vec<LanceScanStep> = Vec::new();
    if let Some(batch_size) = options.batch_size {
        steps.push(LanceScanStep::BatchSize(batch_size));
    }
    if let Some(columns) = &options.columns {
        let copy = clone_texts(columns);
        assert(Seq::new(copy@.len(), |i: int| copy@[i]@) =~= Seq::new(
            columns@.len(),
            |i: int| columns@[i]@,
        ));
        steps.push(LanceScanStep::Project(copy));
    }
    if let Some(filter) = &options.filter {
        steps.push(LanceScanStep::Filter(filter.clone()));
    }
    if options.limit.is_some() || options.offset.is_some() {
        steps.push(LanceScanStep::Limit(options.limit, options.offset));
    }
    if let Some(scan_in_order) = options.scan_in_order {
        steps.push(LanceScanStep::ScanInOrder(scan_in_order));
    }
    if let Some(io_buffer_size) = options.io_buffer_size {
        steps.push(LanceScanStep::IoBufferSize(io_buffer_size));
    }
    assert(step_views(steps@) =~= scan_steps(*options));
    steps
}

/// The write mode that a text names, whatever its case.
pub open spec fn named_mode(text: Seq<char>) -> Option<WriteMode> {
    if lowercase_text(text) == "create"@ {
        Some(WriteMode::Create)
    } else if lowercase_text(text) == "append"@ {
        Some(WriteMode::Append)
    } else if lowercase_text(text) == "overwrite"@ {
        Some(WriteMode::Overwrite)
    } else {
        None
    }
}

/// Reads a write mode.
pub fn parse_write_mode(value: &str) -> (r: Result<WriteMode>)
    ensures
        match r {
            Ok(mode) => named_mode(value@) == Some(mode),
            Err(e) => named_mode(value@) is None && e@ == StorageErrorView::Unsupported(
                "Unsupported write mode: "@ + value@,
            ),
        },
{
    let lower = to_lowercase(value);
    if same_text(lower.as_str(), "create") {
        Ok(WriteMode::Create)
    } else if same_text(lower.as_str(), "append") {
        Ok(WriteMode::Append)
    } else if same_text(lower.as_str(), "overwrite") {
        Ok(WriteMode::Overwrite)
    } else {
        Err(StorageError::Unsupported(joined("Unsupported write mode: ", value)))
    }
}

/// Write parameters that leave everything to Lance's defaults.
pub open spec fn default_lance_options() -> LanceWriteOptions {
    LanceWriteOptions {
        max_rows_per_file: None,
        max_rows_per_group: None,
        max_bytes_per_file: None,
        mode: None,
        enable_stable_row_ids: None,
        enable_v2_manifest_paths: None,
    }
}

impl Default for LanceWriteOptions {
    fn default() -> (r: Self)
        ensures
            r == default_lance_options(),
    {
        LanceWriteOptions {
            max_rows_per_file: None,
            max_rows_per_group: None,
            max_bytes_per_file: None,
            mode: None,
            enable_stable_row_ids: None,
            enable_v2_manifest_paths: None,
        }
    }
}

/// What one more option makes of the write parameters, or why it is refused.
pub open spec fn lance_step(params: LanceWriteOptions, e: EntryView) -> std::result::Result<
    LanceWriteOptions,
    Seq<char>,
> {
    if e.key == "max_rows_per_file"@ {
        match e.as_u64 {
            Some(n) => Ok(LanceWriteOptions { max_rows_per_file: Some(n as usize), ..params }),
            None => Err(not_an_integer(e.key)),
        }
    } else if e.key == "max_rows_per_group"@ {
        match e.as_u64 {
            Some(n) => Ok(LanceWriteOptions { max_rows_per_group: Some(n as usize), ..params }),
            None => Err(not_an_integer(e.key)),
        }
    } else if e.key == "max_bytes_per_file"@ {
        match e.as_u64 {
            Some(n) => Ok(LanceWriteOptions { max_bytes_per_file: Some(n as usize), ..params }),
            None => Err(not_an_integer(e.key)),
        }
    } else if e.key == "mode"@ {
        match e.as_str {
            Some(s) => match named_mode(s) {
                Some(mode) => Ok(LanceWriteOptions { mode: Some(mode), ..params }),
                None => Err("Unsupported write mode: "@ + s),
            },
            None => Err(not_a_string(e.key)),
        }
    } else if e.key == "enable_stable_row_ids"@ {
        match e.as_bool {
            Some(b) => Ok(LanceWriteOptions { enable_stable_row_ids: Some(b), ..params }),
            None => Err(not_a_bool(e.key)),
        }
    } else if e.key == "enable_v2_manifest_paths"@ {
        match e.as_bool {
            Some(b) => Ok(LanceWriteOptions { enable_v2_manifest_paths: Some(b), ..params }),
            None => Err(not_a_bool(e.key)),
        }
    } else {
        Err(unknown_option(e.key, "lance"@))
    }
}

/// What a list of options makes of Lance's defaults, or why the first bad one is refused.
pub open spec fn lance_fold(entries: Seq<EntryView>) -> std::result::Result<
    LanceWriteOptions,
    Seq<char>,
>
    decreases entries.len(),
{
    if entries.len() == 0 {
        Ok(default_lance_options())
    } else {
        match lance_fold(entries.drop_last()) {
            Ok(params) => lance_step(params, entries.last()),
            Err(e) => Err(e),
        }
    }
}

proof fn lance_fold_stops(entries: Seq<EntryView>, n: nat)
    requires
        n <= entries.len(),
        lance_fold(entries.take(n as int)) is Err,
    ensures
        lance_fold(entries) == lance_fold(entries.take(n as int)),
    decreases entries.len(),
{
    if n == entries.len() {
        assert(entries.take(n as int) =~= entries);
    } else {
        assert(entries.drop_last().take(n as int) =~= entries.take(n as int));
        lance_fold_stops(entries.drop_last(), n);
    }
}

fn lance_apply(params: LanceWriteOptions, entry: &OptionEntry) -> (r: Result<LanceWriteOptions>)
    ensures
        match r {
            Ok(p) => lance_step(params, entry@) == std::result::Result::<
                LanceWriteOptions,
                Seq<char>,
            >::Ok(p),
            Err(e) => lance_step(params, entry@) is Err && e@ == StorageErrorView::Unsupported(
                lance_step(params, entry@)->Err_0,
            ),
        },
{
    let mut p = params;
    let key = entry.key.as_str();
    if same_text(key, "max_rows_per_file") {
        match parse_usize(entry) {
            Ok(n) => p.max_rows_per_file = Some(n),
            Err(e) => return Err(e),
        }
    } else if same_text(key, "max_rows_per_group") {
        match parse_usize(entry) {
            Ok(n) => p.max_rows_per_group = Some(n),
            Err(e) => return Err(e),
        }
    } else if same_text(key, "max_bytes_per_file") {
        match parse_usize(entry) {
            Ok(n) => p.max_bytes_per_file = Some(n),
            Err(e) => return Err(e),
        }
    } else if same_text(key, "mode") {
        match &entry.as_str {
            Some(s) => match parse_write_mode(s.as_str()) {
                Ok(mode) => p.mode = Some(mode),
                Err(e) => return Err(e),
            },
            None => return Err(StorageError::Unsupported(joined(key, " must be a string"))),
        }
    } else if same_text(key, "enable_stable_row_ids") {
        match entry.as_bool {
            Some(b) => p.enable_stable_row_ids = Some(b),
            None => return Err(StorageError::Unsupported(joined(key, " must be a bool"))),
        }
    } else if same_text(key, "enable_v2_manifest_paths") {
        match entry.as_bool {
            Some(b) => p.enable_v2_manifest_paths = Some(b),
            None => return Err(StorageError::Unsupported(joined(key, " must be a bool"))),
        }
    } else {
        return Err(unknown_option_error(key, "lance"));
    }
    Ok(p)
}

/// Reads write parameters from option entries.
pub fn parse_write_entries(entries: &Vec<OptionEntry>) -> (r: Result<LanceWriteOptions>)
    ensures
        match r {
            Ok(p) => lance_fold(entry_views(entries@)) == std::result::Result::<
                LanceWriteOptions,
                Seq<char>,
            >::Ok(p),
            Err(e) => lance_fold(entry_views(entries@)) is Err && e@
                == StorageErrorView::Unsupported(lance_fold(entry_views(entries@))->Err_0),
        },
{
    let mut params = LanceWriteOptions::default();
    let ghost views = entry_views(entries@);
    assert(views.take(0) =~= Seq::<EntryView>::empty());
    for i in 0..entries.len()
        invariant
            views == entry_views(entries@),
            lance_fold(views.take(i as int)) == std::result::Result::<
                LanceWriteOptions,
                Seq<char>,
            >::Ok(params),
    {
        proof {
            assert(views.take(i + 1).drop_last() =~= views.take(i as int));
            assert(views.take(i + 1).last() == entries@[i as int]@);
        }
        match lance_apply(params, &entries[i]) {
            Ok(p) => {
                params = p;
            },
            Err(e) => {
                proof {
                    lance_fold_stops(views, (i + 1) as nat);
                }
                return Err(e);
            },
        }
    }
    assert(views.take(entries@.len() as int) =~= views);
    Ok(params)
}

/// What Lance write parameters a JSON value asks for, or why it is refused.
pub open spec fn lance_options(options: Option<crate::json::JsonModel>) -> std::result::Result<
    LanceWriteOptions,
    Seq<char>,
> {
    match options {
        None => Ok(default_lance_options()),
        Some(crate::json::JsonModel::Object(object)) => lance_fold(ordered_entries(object)),
        Some(_) => Err("format_options must be a JSON object"@),
    }
}

/// Reads Lance write parameters from JSON.
pub fn parse_write_options(options: Option<&serde_json::Value>) -> (r: Result<LanceWriteOptions>)
    ensures
        ({
            let wanted = lance_options(
                match options {
                    Some(v) => Some(json_model(*v)),
                    None => None,
                },
            );
            match r {
                Ok(p) => wanted == std::result::Result::<LanceWriteOptions, Seq<char>>::Ok(p),
                Err(e) => wanted is Err && e@ == StorageErrorView::Unsupported(wanted->Err_0),
            }
        }),
{
    match options {
        None => Ok(LanceWriteOptions::default()),
        Some(v) => match option_entries(v) {
            Some(entries) => parse_write_entries(&entries),
            None => Err(
                StorageError::Unsupported(
                    String::from_str("format_options must be a JSON object"),
                ),
            ),
        },
    }
}

impl LanceReader {
    /// Creates a new Lance reader.
    pub fn new() -> (r: Self)
        ensures
            r == LanceReader,
    {
        LanceReader
    }
}

impl LanceWriter {
    /// Creates a new Lance writer.
    pub fn new() -> (r: Self)
        ensures
            r == LanceWriter,
    {
        LanceWriter
    }
}

} // verus!
