//! Vortex options.

use vstd::prelude::*;
use vstd::string::*;

use crate::json::{json_model, JsonModel};
use crate::storage::error::{Result, StorageError, StorageErrorView};
use crate::storage::utils::{
    entry_views, not_a_bool, option_entries, ordered_entries, unknown_option,
    unknown_option_error, EntryView, OptionEntry,
};
use crate::text::{joined, same_text};

verus! {

/// Vortex file reader.
#[derive(Debug, Default)]
pub struct VortexReader;

/// Vortex file writer.
#[derive(Debug, Default)]
pub struct VortexWriter;

/// Read-time options for Vortex scans.
#[derive(Debug, Clone, Copy, Default)]
pub struct VortexReadOptions {
    /// Optional initial read size hint in bytes.
    pub initial_read_size: Option<usize>,
    /// Optional segment cache toggle.
    pub segment_cache: Option<bool>,
}

/// Parameters of a Vortex write.
#[derive(Debug, Clone, Copy, PartialEq, Eq, Structural)]
pub struct VortexWriteOptions {
    /// Whether the data type is left out of the file.
    pub exclude_dtype: bool,
}

/// One call on Vortex open options.
#[derive(Debug, Clone, Copy, PartialEq, Eq, Structural)]
pub enum VortexOpenStep {
    /// Set the initial read size.
    InitialReadSize(usize),
    /// Go without the segment cache.
    WithoutSegmentCache,
}

/// The calls on open options that the options ask for, in their order.
pub fn apply_read_options(options: &VortexReadOptions) -> (r: Vec<VortexOpenStep>)
    ensures
        r@ == (match options.initial_read_size {
            Some(n) => seq![VortexOpenStep::InitialReadSize(n)],
            None => Seq::empty(),
        }) + (if options.segment_cache == Some(false) {
            seq![VortexOpenStep::WithoutSegmentCache]
        } else {
            Seq::empty()
        }),
        forall|n: usize| #[trigger]
            r@.contains(VortexOpenStep::InitialReadSize(n)) <==> options.initial_read_size == Some(n),
        r@.contains(VortexOpenStep::WithoutSegmentCache) <==> options.segment_cache == Some(false),
        r@.no_duplicates(),
{
    let mut steps: Vec<VortexOpenStep> = Vec::new();
    if let Some(size) = options.initial_read_size {
        steps.push(VortexOpenStep::InitialReadSize(size));
    }
    if let Some(segment_cache) = options.segment_cache {
        if !segment_cache {
            steps.push(VortexOpenStep::WithoutSegmentCache);
        }
    }
    proof {
        if let Some(n) = options.initial_read_size {
            assert(steps@[0] == VortexOpenStep::InitialReadSize(n));
        }
        if options.segment_cache == Some(false) {
            assert(steps@[steps@.len() - 1] == VortexOpenStep::WithoutSegmentCache);
        }
    }
    steps
}

impl Default for VortexWriteOptions {
    fn default() -> (r: Self)
        ensures
            !r.exclude_dtype,
    {
        VortexWriteOptions { exclude_dtype: false }
    }
}

/// What one more option makes of the write parameters, or why it is refused.
pub open spec fn vortex_step(params: VortexWriteOptions, e: EntryView) -> std::result::Result<
    VortexWriteOptions,
    Seq<char>,
> {
    if e.key == "exclude_dtype"@ {
        match e.as_bool {
            Some(true) => Ok(VortexWriteOptions { exclude_dtype: true }),
            Some(false) => Ok(params),
            None => Err(not_a_bool(e.key)),
        }
    } else {
        Err(unknown_option(e.key, "vortex"@))
    }
}

/// What a list of options makes of the defaults, or why the first bad one is refused.
pub open spec fn vortex_fold(entries: Seq<EntryView>) -> std::result::Result<
    VortexWriteOptions,
    Seq<char>,
>
    decreases entries.len(),
{
    if entries.len() == 0 {
        Ok(VortexWriteOptions { exclude_dtype: false })
    } else {
        match vortex_fold(entries.drop_last()) {
            Ok(params) => vortex_step(params, entries.last()),
            Err(e) => Err(e),
        }
    }
}

proof fn vortex_fold_stops(entries: Seq<EntryView>, n: nat)
    requires
        n <= entries.len(),
        vortex_fold(entries.take(n as int)) is Err,
    ensures
        vortex_fold(entries) == vortex_fold(entries.take(n as int)),
    decreases entries.len(),
{
    if n == entries.len() {
        assert(entries.take(n as int) =~= entries);
    } else {
        assert(entries.drop_last().take(n as int) =~= entries.take(n as int));
        vortex_fold_stops(entries.drop_last(), n);
    }
}

/// Reads write parameters from option entries.
pub fn parse_write_entries(entries: &Vec<OptionEntry>) -> (r: Result<VortexWriteOptions>)
    ensures
        match r {
            Ok(p) => vortex_fold(entry_views(entries@)) == std::result::Result::<
                VortexWriteOptions,
                Seq<char>,
            >::Ok(p),
            Err(e) => vortex_fold(entry_views(entries@)) is Err && e@
                == StorageErrorView::Unsupported(vortex_fold(entry_views(entries@))->Err_0),
        },
{
    let mut params = VortexWriteOptions::default();
    let ghost views = entry_views(entries@);
    assert(views.take(0) =~= Seq::<EntryView>::empty());
    for i in 0..entries.len()
        invariant
            views == entry_views(entries@),
            vortex_fold(views.take(i as int)) == std::result::Result::<
                VortexWriteOptions,
                Seq<char>,
            >::Ok(params),
    {
        proof {
            assert(views.take(i + 1).drop_last() =~= views.take(i as int));
            assert(views.take(i + 1).last() == entries@[i as int]@);
            if vortex_fold(views.take(i + 1)) is Err {
                vortex_fold_stops(views, (i + 1) as nat);
            }
        }
        let entry = &entries[i];
        let key = entry.key.as_str();
        if same_text(key, "exclude_dtype") {
            match entry.as_bool {
                Some(exclude) => {
                    if exclude {
                        params = VortexWriteOptions { exclude_dtype: true };
                    }
                },
                None => return Err(StorageError::Unsupported(joined(key, " must be a bool"))),
            }
        } else {
            return Err(unknown_option_error(key, "vortex"));
        }
    }
    assert(views.take(entries@.len() as int) =~= views);
    Ok(params)
}

/// What Vortex write parameters a JSON value asks for, or why it is refused.
pub open spec fn vortex_options(options: Option<JsonModel>) -> std::result::Result<
    VortexWriteOptions,
    Seq<char>,
> {
    match options {
        None => Ok(VortexWriteOptions { exclude_dtype: false }),
        Some(JsonModel::Object(object)) => vortex_fold(ordered_entries(object)),
        Some(_) => Err("format_options must be a JSON object"@),
    }
}

/// Reads Vortex write parameters from JSON.
pub fn parse_write_options(options: Option<&serde_json::Value>) -> (r: Result<VortexWriteOptions>)
    ensures
        ({
            let wanted = vortex_options(
                match options {
                    Some(v) => Some(json_model(*v)),
                    None => None,
                },
            );
            match r {
                Ok(p) => wanted == std::result::Result::<VortexWriteOptions, Seq<char>>::Ok(p),
                Err(e) => wanted is Err && e@ == StorageErrorView::Unsupported(wanted->Err_0),
            }
        }),
{
    match options {
        None => Ok(VortexWriteOptions::default()),
        Some(v) => match option_entries(v) {
            Some(entries) => parse_write_entries(&entries),
            None => Err(
                StorageError::Unsupported(
                    String::from_str("format_options must be a JSON object"),
                ),
            ),
        },
    }
}

/// What is said of a stream whose data type changes on the way. `expected` and `actual` are the
/// two types as their debug texts.
pub open spec fn dtype_mismatch_text(expected: Seq<char>, actual: Seq<char>) -> Seq<char> {
    "dtype mismatch in stream: expected "@ + expected + ", got "@ + actual
}

/// The refusal of a stream whose data type changes on the way.
pub fn vortex_dtype_mismatch_error(expected: &str, actual: &str) -> (r: String)
    ensures
        r@ == dtype_mismatch_text(expected@, actual@),
{
    let mut s = joined("dtype mismatch in stream: expected ", expected);
    s.append(", got ");
    s.append(actual);
    s
}

impl VortexReader {
    /// Creates a new Vortex reader.
    pub fn new() -> (r: Self)
        ensures
            r == VortexReader,
    {
        VortexReader
    }
}

impl VortexWriter {
    /// Creates a new Vortex writer.
    pub fn new() -> (r: Self)
        ensures
            r == VortexWriter,
    {
        VortexWriter
    }
}

} // verus!
