//! What format options come to: which option reaches which setting, and that none is lost.

use vstd::prelude::*;
use vstd::string::*;

use super::file_format::lance::{
    lance_fold, lance_options, lance_step, named_mode, scan_steps, step_views, LanceReadOptions,
    LanceScanStep, LanceWriteOptions, ScanStepView, WriteMode,
};
use super::file_format::parquet::{
    default_settings, named_compression, named_position, named_version, parquet_fold,
    parquet_options, parquet_step, BloomFilterPosition, Compression, ParquetOutcome, ParquetSettings, WriterVersion,
};
use super::file_format::vortex::{
    dtype_mismatch_text, vortex_fold, vortex_options, vortex_step, VortexWriteOptions,
};
use super::error::{storage_error_text, StorageError, StorageErrorView};
use super::file_format::options_verdict;
use super::stream::{batches_needed, schema_mismatch_text};
use super::utils::{entry_views, ordered_entries, EntryView, OptionEntry};
use super::{
    format_name, named_format, unknown_format, Format, FormatReadOptions, FormatWriteOptions, ReaderEnum,
    WriterEnum,
};
use crate::json::JsonModel;
use crate::text::lowercase_text;

verus! {

/// The options of a Lance scan ask for a call.
pub open spec fn asked_of_scan(options: LanceReadOptions, step: ScanStepView) -> bool {
    match step {
        ScanStepView::BatchSize(n) => options.batch_size == Some(n),
        ScanStepView::Project(names) => options.columns matches Some(columns) && names
            == Seq::new(columns@.len(), |i: int| columns@[i]@),
        ScanStepView::Filter(text) => options.filter matches Some(filter) && text == filter@,
        ScanStepView::Limit(limit, offset) => limit == options.limit && offset == options.offset
            && (limit is Some || offset is Some),
        ScanStepView::ScanInOrder(b) => options.scan_in_order == Some(b),
        ScanStepView::IoBufferSize(n) => options.io_buffer_size == Some(n),
    }
}

spec fn kind(step: ScanStepView) -> int {
    match step {
        ScanStepView::BatchSize(_) => 0,
        ScanStepView::Project(_) => 1,
        ScanStepView::Filter(_) => 2,
        ScanStepView::Limit(_, _) => 3,
        ScanStepView::ScanInOrder(_) => 4,
        ScanStepView::IoBufferSize(_) => 5,
    }
}

spec fn kinds_rise(steps: Seq<ScanStepView>, from: int, to: int) -> bool {
    &&& forall|i: int| 0 <= i < steps.len() ==> from <= kind(#[trigger] steps[i]) <= to
    &&& forall|i: int, j: int|
        0 <= i < j < steps.len() ==> kind(#[trigger] steps[i]) < kind(#[trigger] steps[j])
}

proof fn part_of_either(
    x: Seq<ScanStepView>,
    y: Seq<ScanStepView>,
    step: ScanStepView,
    middle: int,
    end: int,
)
    requires
        kinds_rise(x, 0, middle),
        kinds_rise(y, end, end),
        middle < end,
    ensures
        (x + y).contains(step) == (x.contains(step) || y.contains(step)),
        kinds_rise(x + y, 0, end),
        (x + y).no_duplicates(),
{
    let z = x + y;
    if x.contains(step) {
        let i = choose|i: int| 0 <= i < x.len() && x[i] == step;
        assert(z[i] == step);
    }
    if y.contains(step) {
        let i = choose|i: int| 0 <= i < y.len() && y[i] == step;
        assert(z[x.len() + i] == step);
    }
}

proof fn holds_its_one(x: Seq<ScanStepView>, step: ScanStepView)
    ensures
        x.len() == 0 ==> !x.contains(step),
        x.len() == 1 ==> x.contains(step) == (x[0] == step),
{
    if x.len() == 1 && x[0] == step {
        assert(x.contains(step));
    }
}

/// Each option that is given for a Lance scan reaches the scanner, once and with its value, and
/// nothing else does.
pub proof fn scan_options_reach_the_scanner(options: LanceReadOptions, step: ScanStepView)
    ensures
        scan_steps(options).contains(step) <==> asked_of_scan(options, step),
        scan_steps(options).no_duplicates(),
{
    let none = Seq::<ScanStepView>::empty();
    let a = match options.batch_size {
        Some(n) => seq![ScanStepView::BatchSize(n)],
        None => none,
    };
    let b = match options.columns {
        Some(columns) => seq![
            ScanStepView::Project(Seq::new(columns@.len(), |i: int| columns@[i]@)),
        ],
        None => none,
    };
    let c = match options.filter {
        Some(filter) => seq![ScanStepView::Filter(filter@)],
        None => none,
    };
    let d = if options.limit is Some || options.offset is Some {
        seq![ScanStepView::Limit(options.limit, options.offset)]
    } else {
        none
    };
    let e = match options.scan_in_order {
        Some(b) => seq![ScanStepView::ScanInOrder(b)],
        None => none,
    };
    let f = match options.io_buffer_size {
        Some(n) => seq![ScanStepView::IoBufferSize(n)],
        None => none,
    };
    part_of_either(a, b, step, 0, 1);
    part_of_either(a + b, c, step, 1, 2);
    part_of_either(a + b + c, d, step, 2, 3);
    part_of_either(a + b + c + d, e, step, 3, 4);
    part_of_either(a + b + c + d + e, f, step, 4, 5);
    assert(scan_steps(options) == a + b + c + d + e + f);
    holds_its_one(a, step);
    holds_its_one(b, step);
    holds_its_one(c, step);
    holds_its_one(d, step);
    holds_its_one(e, step);
    holds_its_one(f, step);
}

/// A Lance scan has a limit on its rows exactly if one is given, and skips rows exactly if it is
/// told to.
pub proof fn scan_limits_are_kept(options: LanceReadOptions, n: i64)
    ensures
        options.limit == Some(n) <==> exists|offset: Option<i64>|
            scan_steps(options).contains(ScanStepView::Limit(Some(n), offset)),
        options.offset == Some(n) <==> exists|limit: Option<i64>|
            scan_steps(options).contains(ScanStepView::Limit(limit, Some(n))),
{
    assert forall|limit: Option<i64>, offset: Option<i64>| #[trigger]
        scan_steps(options).contains(ScanStepView::Limit(limit, offset)) <==> asked_of_scan(
            options,
            ScanStepView::Limit(limit, offset),
        ) by {
        scan_options_reach_the_scanner(options, ScanStepView::Limit(limit, offset));
    }
    if options.limit == Some(n) {
        assert(scan_steps(options).contains(ScanStepView::Limit(Some(n), options.offset)));
    }
    if options.offset == Some(n) {
        assert(scan_steps(options).contains(ScanStepView::Limit(options.limit, Some(n))));
    }
}

/// What an option may ask for.
pub enum Wish {
    /// A number.
    Number(usize),
    /// A text.
    Text(Seq<char>),
    /// A truth value.
    Flag(bool),
    /// A write mode.
    Mode(WriteMode),
    /// A compression codec.
    Codec(Compression),
    /// A writer version.
    Version(WriterVersion),
    /// A Bloom filter position.
    Position(BloomFilterPosition),
}

/// No key comes twice.
pub open spec fn keys_differ(entries: Seq<EntryView>) -> bool {
    forall|i: int, j: int|
        0 <= i < j < entries.len() ==> (#[trigger] entries[i]).key != (#[trigger] entries[j]).key
}

/// A key is among those of some options.
pub open spec fn has_key(entries: Seq<EntryView>, key: Seq<char>) -> bool {
    exists|i: int| 0 <= i < entries.len() && (#[trigger] entries[i]).key == key
}

/// The number that an option asks for.
pub open spec fn number_wish(e: EntryView) -> Option<Wish> {
    match e.as_u64 {
        Some(n) => Some(Wish::Number(n as usize)),
        None => None,
    }
}

/// The truth value that an option asks for.
pub open spec fn flag_wish(e: EntryView) -> Option<Wish> {
    match e.as_bool {
        Some(b) => Some(Wish::Flag(b)),
        None => None,
    }
}

/// What an option asks of a Lance write, if Lance has it and takes its value.
pub open spec fn lance_wish(e: EntryView) -> Option<Wish> {
    if e.key == "max_rows_per_file"@ || e.key == "max_rows_per_group"@ || e.key
        == "max_bytes_per_file"@ {
        number_wish(e)
    } else if e.key == "enable_stable_row_ids"@ || e.key == "enable_v2_manifest_paths"@ {
        flag_wish(e)
    } else if e.key == "mode"@ {
        match e.as_str {
            Some(s) => if lowercase_text(s) == "create"@ {
                Some(Wish::Mode(WriteMode::Create))
            } else if lowercase_text(s) == "append"@ {
                Some(Wish::Mode(WriteMode::Append))
            } else if lowercase_text(s) == "overwrite"@ {
                Some(Wish::Mode(WriteMode::Overwrite))
            } else {
                None
            },
            None => None,
        }
    } else {
        None
    }
}

/// The parameter of a Lance write that has a name.
pub open spec fn lance_parameter(p: LanceWriteOptions, key: Seq<char>) -> Option<Wish> {
    if key == "max_rows_per_file"@ {
        match p.max_rows_per_file {
            Some(n) => Some(Wish::Number(n)),
            None => None,
        }
    } else if key == "max_rows_per_group"@ {
        match p.max_rows_per_group {
            Some(n) => Some(Wish::Number(n)),
            None => None,
        }
    } else if key == "max_bytes_per_file"@ {
        match p.max_bytes_per_file {
            Some(n) => Some(Wish::Number(n)),
            None => None,
        }
    } else if key == "mode"@ {
        match p.mode {
            Some(m) => Some(Wish::Mode(m)),
            None => None,
        }
    } else if key == "enable_stable_row_ids"@ {
        match p.enable_stable_row_ids {
            Some(b) => Some(Wish::Flag(b)),
            None => None,
        }
    } else if key == "enable_v2_manifest_paths"@ {
        match p.enable_v2_manifest_paths {
            Some(b) => Some(Wish::Flag(b)),
            None => None,
        }
    } else {
        None
    }
}

proof fn lance_keys_differ()
    ensures
        "max_rows_per_file"@.len() == 17,
        "max_rows_per_group"@ != "max_bytes_per_file"@,
        "max_rows_per_group"@.len() == 18,
        "max_bytes_per_file"@.len() == 18,
        "mode"@.len() == 4,
        "enable_stable_row_ids"@.len() == 21,
        "enable_v2_manifest_paths"@.len() == 24,
{
    reveal_strlit("max_rows_per_file");
    reveal_strlit("max_rows_per_group");
    reveal_strlit("max_bytes_per_file");
    reveal_strlit("mode");
    reveal_strlit("enable_stable_row_ids");
    reveal_strlit("enable_v2_manifest_paths");
    assert("max_rows_per_group"@[4] != "max_bytes_per_file"@[4]);
}

/// Options for a Lance write are taken exactly if Lance has each of them and takes its value. Each
/// then sets the parameter of its name to its value, and the parameters that no option names are
/// left to Lance.
pub proof fn lance_options_set_their_parameters(entries: Seq<EntryView>, key: Seq<char>)
    requires
        keys_differ(entries),
    ensures
        lance_fold(entries) is Ok <==> forall|i: int|
            0 <= i < entries.len() ==> lance_wish(#[trigger] entries[i]) is Some,
        lance_fold(entries) matches Ok(p) ==> {
            &&& forall|i: int|
                0 <= i < entries.len() ==> lance_parameter(p, (#[trigger] entries[i]).key)
                    == lance_wish(entries[i])
            &&& !has_key(entries, key) ==> lance_parameter(p, key) is None
        },
    decreases entries.len(),
{
    lance_keys_differ();
    if entries.len() > 0 {
        let few = entries.drop_last();
        let last = entries.last();
        assert forall|i: int| 0 <= i < few.len() implies few[i] == #[trigger] entries[i] by {}
        assert forall|i: int, j: int| 0 <= i < j < few.len() implies (#[trigger] few[i]).key != (
        #[trigger] few[j]).key by {
            assert(entries[i].key != entries[j].key);
        }
        lance_options_set_their_parameters(few, key);
        lance_options_set_their_parameters(few, last.key);
        assert(entries[entries.len() - 1] == last);
        assert(!has_key(few, last.key)) by {
            if has_key(few, last.key) {
                let i = choose|i: int| 0 <= i < few.len() && (#[trigger] few[i]).key == last.key;
                assert(entries[i].key != entries[entries.len() - 1].key);
            }
        }
        if has_key(few, key) {
            let i = choose|i: int| 0 <= i < few.len() && (#[trigger] few[i]).key == key;
            assert(entries[i].key == key);
        }
        if lance_fold(few) is Ok {
            let p = lance_fold(few)->Ok_0;
            assert(lance_fold(entries) == lance_step(p, last));
            assert(lance_step(p, last) is Ok <==> lance_wish(last) is Some);
            if lance_fold(entries) is Ok {
                let now = lance_fold(entries)->Ok_0;
                assert(lance_parameter(now, last.key) == lance_wish(last));
                assert forall|other: Seq<char>| other != last.key implies #[trigger] lance_parameter(
                    now,
                    other,
                ) == lance_parameter(p, other) by {}
                assert forall|i: int| 0 <= i < entries.len() implies lance_parameter(
                    now,
                    (#[trigger] entries[i]).key,
                ) == lance_wish(entries[i]) by {
                    if i < few.len() {
                        assert(few[i] == entries[i]);
                        assert(entries[i].key != entries[entries.len() - 1].key);
                    }
                }
            }
        } else {
            let i = choose|i: int| 0 <= i < few.len() && lance_wish(#[trigger] few[i]) is None;
            assert(lance_wish(entries[i]) is None);
        }
    }
}

/// Options for a Vortex write are taken exactly if each is the one that Vortex has, with a truth
/// value. The data type is left out exactly if it is asked for.
pub proof fn vortex_options_set_their_parameter(entries: Seq<EntryView>)
    ensures
        vortex_fold(entries) is Ok <==> forall|i: int|
            0 <= i < entries.len() ==> (#[trigger] entries[i]).key == "exclude_dtype"@
                && entries[i].as_bool is Some,
        vortex_fold(entries) matches Ok(p) ==> (p.exclude_dtype <==> exists|i: int|
            0 <= i < entries.len() && (#[trigger] entries[i]).as_bool == Some(true)),
    decreases entries.len(),
{
    if entries.len() > 0 {
        let few = entries.drop_last();
        let last = entries.last();
        let n = entries.len() - 1;
        assert(entries[n] == last);
        assert forall|i: int| 0 <= i < few.len() implies few[i] == #[trigger] entries[i] by {}
        vortex_options_set_their_parameter(few);
        if vortex_fold(few) is Ok {
            let p = vortex_fold(few)->Ok_0;
            assert(vortex_fold(entries) == vortex_step(p, last));
            if exists|i: int| 0 <= i < few.len() && (#[trigger] few[i]).as_bool == Some(true) {
                let i = choose|i: int|
                    0 <= i < few.len() && (#[trigger] few[i]).as_bool == Some(true);
                assert(entries[i].as_bool == Some(true));
            }
        } else {
            let i = choose|i: int|
                0 <= i < few.len() && !((#[trigger] few[i]).key == "exclude_dtype"@
                    && few[i].as_bool is Some);
            assert(entries[i] == few[i]);
        }
    }
}

/// What an option asks of a Parquet write, if Parquet has it and takes its value.
pub open spec fn parquet_wish(e: EntryView) -> Option<Wish> {
    if e.key == "max_row_group_size"@ || e.key == "data_page_size_limit"@ || e.key
        == "data_page_row_count_limit"@ || e.key == "write_batch_size"@ {
        number_wish(e)
    } else if e.key == "offset_index_disabled"@ {
        flag_wish(e)
    } else if e.key == "created_by"@ {
        match e.as_str {
            Some(s) => Some(Wish::Text(s)),
            None => None,
        }
    } else if e.key == "compression"@ {
        match e.as_str {
            Some(s) => match named_compression(s) {
                Some(c) => Some(Wish::Codec(c)),
                None => None,
            },
            None => None,
        }
    } else if e.key == "writer_version"@ {
        match e.as_str {
            Some(s) => match named_version(s) {
                Some(v) => Some(Wish::Version(v)),
                None => None,
            },
            None => None,
        }
    } else if e.key == "bloom_filter_position"@ {
        match e.as_str {
            Some(s) => match named_position(s) {
                Some(p) => Some(Wish::Position(p)),
                None => None,
            },
            None => None,
        }
    } else {
        None
    }
}

/// An option asks for row groups of no rows.
pub open spec fn wants_empty_groups(e: EntryView) -> bool {
    e.key == "max_row_group_size"@ && number_wish(e) == Some(Wish::Number(0))
}

/// The setting of a Parquet write that has a name.
pub open spec fn parquet_setting(s: ParquetSettings, key: Seq<char>) -> Option<Wish> {
    if key == "max_row_group_size"@ {
        Some(Wish::Number(s.max_row_group_size))
    } else if key == "data_page_size_limit"@ {
        Some(Wish::Number(s.data_page_size_limit))
    } else if key == "data_page_row_count_limit"@ {
        Some(Wish::Number(s.data_page_row_count_limit))
    } else if key == "write_batch_size"@ {
        Some(Wish::Number(s.write_batch_size))
    } else if key == "offset_index_disabled"@ {
        Some(Wish::Flag(s.offset_index_disabled))
    } else if key == "created_by"@ {
        Some(Wish::Text(s.created_by))
    } else if key == "compression"@ {
        Some(Wish::Codec(s.compression))
    } else if key == "writer_version"@ {
        Some(Wish::Version(s.writer_version))
    } else if key == "bloom_filter_position"@ {
        Some(Wish::Position(s.bloom_filter_position))
    } else {
        None
    }
}

proof fn parquet_keys_differ()
    ensures
        "max_row_group_size"@.len() == 18,
        "data_page_size_limit"@.len() == 20,
        "data_page_row_count_limit"@.len() == 25,
        "write_batch_size"@.len() == 16,
        "offset_index_disabled"@ != "bloom_filter_position"@,
        "offset_index_disabled"@.len() == 21,
        "created_by"@.len() == 10,
        "compression"@.len() == 11,
        "writer_version"@.len() == 14,
        "bloom_filter_position"@.len() == 21,
{
    reveal_strlit("max_row_group_size");
    reveal_strlit("data_page_size_limit");
    reveal_strlit("data_page_row_count_limit");
    reveal_strlit("write_batch_size");
    reveal_strlit("offset_index_disabled");
    reveal_strlit("created_by");
    reveal_strlit("compression");
    reveal_strlit("writer_version");
    reveal_strlit("bloom_filter_position");
    assert("offset_index_disabled"@[0] != "bloom_filter_position"@[0]);
}

/// Options for a Parquet write are taken exactly if Parquet has each of them and takes its value,
/// and none asks for row groups of no rows. Each then sets the setting of its name to its value,
/// and the settings that no option names stay as they were.
pub proof fn parquet_options_set_their_settings(
    init: ParquetSettings,
    entries: Seq<EntryView>,
    key: Seq<char>,
)
    requires
        keys_differ(entries),
    ensures
        parquet_fold(init, entries) is Done <==> forall|i: int|
            0 <= i < entries.len() ==> parquet_wish(#[trigger] entries[i]) is Some
                && !wants_empty_groups(entries[i]),
        parquet_fold(init, entries) matches ParquetOutcome::Done(s) ==> {
            &&& forall|i: int|
                0 <= i < entries.len() ==> parquet_setting(s, (#[trigger] entries[i]).key)
                    == parquet_wish(entries[i])
            &&& !has_key(entries, key) ==> parquet_setting(s, key) == parquet_setting(init, key)
        },
    decreases entries.len(),
{
    parquet_keys_differ();
    if entries.len() > 0 {
        let few = entries.drop_last();
        let last = entries.last();
        let n = entries.len() - 1;
        assert(entries[n] == last);
        assert forall|i: int| 0 <= i < few.len() implies few[i] == #[trigger] entries[i] by {}
        assert forall|i: int, j: int| 0 <= i < j < few.len() implies (#[trigger] few[i]).key != (
        #[trigger] few[j]).key by {
            assert(entries[i].key != entries[j].key);
        }
        parquet_options_set_their_settings(init, few, key);
        if has_key(few, key) {
            let i = choose|i: int| 0 <= i < few.len() && (#[trigger] few[i]).key == key;
            assert(entries[i].key == key);
        }
        if parquet_fold(init, few) is Done {
            let s = parquet_fold(init, few)->Done_0;
            assert(parquet_fold(init, entries) == parquet_step(s, last));
            assert(parquet_step(s, last) is Done <==> parquet_wish(last) is Some
                && !wants_empty_groups(last));
            if parquet_fold(init, entries) is Done {
                let now = parquet_fold(init, entries)->Done_0;
                assert(parquet_setting(now, last.key) == parquet_wish(last));
                assert forall|other: Seq<char>| other != last.key implies #[trigger] parquet_setting(
                    now,
                    other,
                ) == parquet_setting(s, other) by {}
                assert forall|i: int| 0 <= i < entries.len() implies parquet_setting(
                    now,
                    (#[trigger] entries[i]).key,
                ) == parquet_wish(entries[i]) by {
                    if i < few.len() {
                        assert(few[i] == entries[i]);
                        assert(entries[i].key != entries[n].key);
                    }
                }
            }
        } else {
            let i = choose|i: int|
                0 <= i < few.len() && !(parquet_wish(#[trigger] few[i]) is Some
                    && !wants_empty_groups(few[i]));
            assert(entries[i] == few[i]);
        }
    }
}

/// Options are judged by the rules of the format that they are for, and what is no object is refused
/// by all.
pub proof fn options_are_judged_by_their_format(format: Format, options: JsonModel)
    requires
        lowercase_text(format_name(format)) == format_name(format),
        options matches JsonModel::Object(object) ==> keys_differ(ordered_entries(object)),
    ensures
        !(options is Object) ==> options_verdict(format_name(format), options) is Refused,
        options matches JsonModel::Object(object) ==> (options_verdict(
            format_name(format),
            options,
        ) is Fine <==> forall|i: int|
            0 <= i < ordered_entries(object).len() ==> {
                let e = #[trigger] ordered_entries(object)[i];
                match format {
                    Format::Parquet => parquet_wish(e) is Some && !wants_empty_groups(e),
                    Format::Lance => lance_wish(e) is Some,
                    Format::Vortex => e.key == "exclude_dtype"@ && e.as_bool is Some,
                }
            }),
{
    reveal_strlit("parquet");
    reveal_strlit("lance");
    reveal_strlit("vortex");
    assert("parquet"@.len() == 7 && "lance"@.len() == 5 && "vortex"@.len() == 6);
    if let JsonModel::Object(object) = options {
        let entries = ordered_entries(object);
        let key = Seq::<char>::empty();
        parquet_options_set_their_settings(default_settings(Seq::empty()), entries, key);
        lance_options_set_their_parameters(entries, key);
        vortex_options_set_their_parameter(entries);
    }
}

/// The names of codecs, versions, positions, write modes and formats: each names one thing, and
/// no other text names anything.
pub proof fn names_mean_what_they_say(text: Seq<char>)
    ensures
        named_compression(text) == Some(Compression::Uncompressed) <==> lowercase_text(text)
            == "uncompressed"@ || lowercase_text(text) == "none"@,
        named_compression(text) == Some(Compression::Snappy) <==> lowercase_text(text) == "snappy"@,
        named_compression(text) == Some(Compression::Gzip) <==> lowercase_text(text) == "gzip"@,
        named_compression(text) == Some(Compression::Brotli) <==> lowercase_text(text) == "brotli"@,
        named_compression(text) == Some(Compression::Lz4) <==> lowercase_text(text) == "lz4"@,
        named_compression(text) == Some(Compression::Zstd) <==> lowercase_text(text) == "zstd"@,
        named_version(text) == Some(WriterVersion::Parquet1) <==> text == "PARQUET_1_0"@ || text
            == "parquet_1_0"@,
        named_version(text) == Some(WriterVersion::Parquet2) <==> text == "PARQUET_2_0"@ || text
            == "parquet_2_0"@,
        named_position(text) == Some(BloomFilterPosition::End) <==> lowercase_text(text) == "end"@,
        named_position(text) == Some(BloomFilterPosition::AfterRowGroup) <==> lowercase_text(text)
            == "after_row_group"@ || lowercase_text(text) == "afterrowgroup"@,
        named_mode(text) == Some(WriteMode::Create) <==> lowercase_text(text) == "create"@,
        named_mode(text) == Some(WriteMode::Append) <==> lowercase_text(text) == "append"@,
        named_mode(text) == Some(WriteMode::Overwrite) <==> lowercase_text(text) == "overwrite"@,
        named_format(text) == Some(Format::Parquet) <==> lowercase_text(text) == "parquet"@,
        named_format(text) == Some(Format::Lance) <==> lowercase_text(text) == "lance"@,
        named_format(text) == Some(Format::Vortex) <==> lowercase_text(text) == "vortex"@,
{
    reveal_strlit("uncompressed");
    reveal_strlit("none");
    reveal_strlit("snappy");
    reveal_strlit("gzip");
    reveal_strlit("brotli");
    reveal_strlit("lz4");
    reveal_strlit("zstd");
    reveal_strlit("PARQUET_1_0");
    reveal_strlit("parquet_1_0");
    reveal_strlit("PARQUET_2_0");
    reveal_strlit("parquet_2_0");
    reveal_strlit("end");
    reveal_strlit("after_row_group");
    reveal_strlit("afterrowgroup");
    reveal_strlit("create");
    reveal_strlit("append");
    reveal_strlit("overwrite");
    reveal_strlit("parquet");
    reveal_strlit("lance");
    reveal_strlit("vortex");
    assert("uncompressed"@.len() == 12);
    assert("none"@.len() == 4);
    assert("snappy"@.len() == 6);
    assert("gzip"@.len() == 4);
    assert("brotli"@.len() == 6);
    assert("lz4"@.len() == 3);
    assert("zstd"@.len() == 4);
    assert("PARQUET_1_0"@.len() == 11);
    assert("parquet_1_0"@.len() == 11);
    assert("PARQUET_2_0"@.len() == 11);
    assert("parquet_2_0"@.len() == 11);
    assert("end"@.len() == 3);
    assert("after_row_group"@.len() == 15);
    assert("afterrowgroup"@.len() == 13);
    assert("create"@.len() == 6);
    assert("append"@.len() == 6);
    assert("overwrite"@.len() == 9);
    assert("parquet"@.len() == 7);
    assert("lance"@.len() == 5);
    assert("vortex"@.len() == 6);
    assert("snappy"@[0] != "brotli"@[0]);
    assert("none"@[0] != "gzip"@[0] && "none"@[0] != "zstd"@[0] && "gzip"@[0] != "zstd"@[0]);
    assert("PARQUET_1_0"@[8] != "PARQUET_2_0"@[8] && "PARQUET_1_0"@[8] != "parquet_2_0"@[8]
        && "parquet_1_0"@[8] != "PARQUET_2_0"@[8] && "parquet_1_0"@[8] != "parquet_2_0"@[8]);
    assert("create"@[0] != "append"@[0]);
}

/// A reader, a writer and their options are for the format that they are of, so that a reader and
/// a writer take the options of their own format and no others.
pub proof fn formats_go_together(
    reader: ReaderEnum,
    read: FormatReadOptions,
    writer: WriterEnum,
    write: FormatWriteOptions,
)
    ensures
        reader.format() == read.format() <==> (reader is Parquet && read is Parquet) || (
        reader is Lance && read is Lance) || (reader is Vortex && read is Vortex),
        writer.format() == write.format() <==> (writer is Parquet && write is Parquet) || (
        writer is Lance && write is Lance) || (writer is Vortex && write is Vortex),
        reader.format() is Parquet <==> reader is Parquet,
        reader.format() is Lance <==> reader is Lance,
        writer.format() is Parquet <==> writer is Parquet,
        writer.format() is Lance <==> writer is Lance,
{
}

/// Formats have the names that they are stored and asked for by.
pub proof fn formats_have_their_names(a: Format, b: Format)
    ensures
        format_name(a) == format_name(b) <==> a == b,
        a is Parquet <==> format_name(a) == "parquet"@,
        a is Lance <==> format_name(a) == "lance"@,
        a is Vortex <==> format_name(a) == "vortex"@,
{
    reveal_strlit("parquet");
    reveal_strlit("lance");
    reveal_strlit("vortex");
    assert("parquet"@.len() == 7 && "lance"@.len() == 5 && "vortex"@.len() == 6);
}

/// What is said of an option that is refused: which it is and of what kind its value must be, or that
/// the format has none of that name, or which name in its value means nothing.
pub proof fn refused_options_are_told(p: LanceWriteOptions, s: ParquetSettings, e: EntryView)
    ensures
        ({
            let wrong_kind = |kind: Seq<char>| e.key + " must be "@ + kind;
            let lance_refuses = |words: Seq<char>|
                lance_step(p, e) == std::result::Result::<LanceWriteOptions, Seq<char>>::Err(words);
            let parquet_refuses = |words: Seq<char>|
                parquet_step(s, e) == ParquetOutcome::Refused(words);
            &&& (e.key == "max_rows_per_file"@ || e.key == "max_rows_per_group"@ || e.key
                == "max_bytes_per_file"@) && e.as_u64 is None ==> lance_refuses(
                wrong_kind("an integer"@),
            )
            &&& e.key == "mode"@ && e.as_str is None ==> lance_refuses(wrong_kind("a string"@))
            &&& e.key == "mode"@ && e.as_str is Some && named_mode(e.as_str->0) is None
                ==> lance_refuses("Unsupported write mode: "@ + e.as_str->0)
            &&& (e.key == "enable_stable_row_ids"@ || e.key == "enable_v2_manifest_paths"@)
                && e.as_bool is None ==> lance_refuses(wrong_kind("a bool"@))
            &&& (e.key == "max_row_group_size"@ || e.key == "data_page_size_limit"@ || e.key
                == "data_page_row_count_limit"@ || e.key == "write_batch_size"@) && e.as_u64 is None
                ==> parquet_refuses(wrong_kind("an integer"@))
            &&& (e.key == "compression"@ || e.key == "writer_version"@ || e.key
                == "bloom_filter_position"@ || e.key == "created_by"@) && e.as_str is None
                ==> parquet_refuses(wrong_kind("a string"@))
            &&& e.key == "offset_index_disabled"@ && e.as_bool is None ==> parquet_refuses(
                wrong_kind("a bool"@),
            )
            &&& e.key == "compression"@ && e.as_str is Some && named_compression(e.as_str->0) is None
                ==> parquet_refuses("Unsupported compression: "@ + lowercase_text(e.as_str->0))
            &&& e.key == "writer_version"@ && e.as_str is Some && named_version(e.as_str->0) is None
                ==> parquet_refuses("Invalid writer version: "@ + e.as_str->0)
            &&& e.key == "bloom_filter_position"@ && e.as_str is Some && named_position(
                e.as_str->0,
            ) is None ==> parquet_refuses(
                "Unsupported bloom_filter_position: "@ + lowercase_text(e.as_str->0),
            )
        }),
{
    lance_keys_differ();
    parquet_keys_differ();
    reveal_strlit(" must be ");
    reveal_strlit("an integer");
    reveal_strlit("a string");
    reveal_strlit("a bool");
    reveal_strlit(" must be an integer");
    reveal_strlit(" must be a string");
    reveal_strlit(" must be a bool");
    assert(e.key + " must be an integer"@ =~= e.key + " must be "@ + "an integer"@);
    assert(e.key + " must be a string"@ =~= e.key + " must be "@ + "a string"@);
    assert(e.key + " must be a bool"@ =~= e.key + " must be "@ + "a bool"@);
}

/// What is said of an option that a format does not have: its name, and that of the format.
pub proof fn unknown_options_are_told(
    p: LanceWriteOptions,
    s: ParquetSettings,
    v: VortexWriteOptions,
    e: EntryView,
)
    ensures
        ({
            let words = |format: Format|
                "Unsupported option '"@ + e.key + "' for format '"@ + format_name(format) + "'"@;
            &&& !lance_has(e.key) ==> lance_step(p, e) == std::result::Result::<
                LanceWriteOptions,
                Seq<char>,
            >::Err(words(Format::Lance))
            &&& !parquet_has(e.key) ==> parquet_step(s, e) == ParquetOutcome::Refused(
                words(Format::Parquet),
            )
            &&& e.key != "exclude_dtype"@ ==> vortex_step(v, e) == std::result::Result::<
                VortexWriteOptions,
                Seq<char>,
            >::Err(words(Format::Vortex))
            &&& e.key == "exclude_dtype"@ && e.as_bool is None ==> vortex_step(v, e)
                == std::result::Result::<VortexWriteOptions, Seq<char>>::Err(
                "exclude_dtype"@ + " must be a bool"@,
            )
        }),
{
}

/// Lance has an option of that name.
pub open spec fn lance_has(key: Seq<char>) -> bool {
    ||| key == "max_rows_per_file"@
    ||| key == "max_rows_per_group"@
    ||| key == "max_bytes_per_file"@
    ||| key == "mode"@
    ||| key == "enable_stable_row_ids"@
    ||| key == "enable_v2_manifest_paths"@
}

/// Parquet has an option of that name.
pub open spec fn parquet_has(key: Seq<char>) -> bool {
    ||| key == "compression"@
    ||| key == "max_row_group_size"@
    ||| key == "data_page_size_limit"@
    ||| key == "data_page_row_count_limit"@
    ||| key == "write_batch_size"@
    ||| key == "writer_version"@
    ||| key == "bloom_filter_position"@
    ||| key == "created_by"@
    ||| key == "offset_index_disabled"@
}

/// Without options nothing is set, and what is no object is refused in the same words by all.
pub proof fn missing_options_set_nothing(init: ParquetSettings, m: JsonModel)
    ensures
        parquet_options(init, None) == ParquetOutcome::Done(init),
        lance_options(None) matches Ok(p) && p.max_rows_per_file is None && p.max_rows_per_group
            is None && p.max_bytes_per_file is None && p.mode is None && p.enable_stable_row_ids
            is None && p.enable_v2_manifest_paths is None,
        vortex_options(None) matches Ok(v) && !v.exclude_dtype,
        !(m is Object) ==> {
            &&& parquet_options(init, Some(m)) == ParquetOutcome::Refused(
                "format_options must be a JSON object"@,
            )
            &&& lance_options(Some(m)) matches Err(words) && words
                == "format_options must be a JSON object"@
            &&& vortex_options(Some(m)) matches Err(words) && words
                == "format_options must be a JSON object"@
        },
{
}

/// What is said of storage that fails, after what it is that failed.
pub proof fn storage_errors_say_what_they_carry(s: Seq<char>, t: Seq<char>)
    ensures
        storage_error_text(StorageErrorView::Io(s)) == "IO error: "@ + s,
        storage_error_text(StorageErrorView::Arrow(s)) == "Arrow error: "@ + s,
        storage_error_text(StorageErrorView::Parquet(s)) == "Parquet error: "@ + s,
        storage_error_text(StorageErrorView::Lance(s)) == "Lance error: "@ + s,
        storage_error_text(StorageErrorView::Vortex(s)) == "Vortex error: "@ + s,
        storage_error_text(StorageErrorView::NotYetImplemented(s))
            == "Feature not yet implemented: "@ + s,
        storage_error_text(StorageErrorView::Unsupported(s)) == "Unsupported operation: "@ + s,
        unknown_format(s) == StorageErrorView::Unsupported(
            "File format '"@ + s
                + "' is not supported. Supported formats: parquet, lance, vortex"@,
        ),
        batches_needed(s) == StorageErrorView::Unsupported(
            s + " requires at least one RecordBatch"@,
        ),
        schema_mismatch_text(s, t) == "Schema mismatch in stream: expected "@ + s + ", got "@ + t,
        dtype_mismatch_text(s, t) == "dtype mismatch in stream: expected "@ + s + ", got "@ + t,
{
}

/// The calls on a scanner, the options and the errors are shown with what they carry.
pub proof fn steps_are_shown(
    step: LanceScanStep,
    steps: Seq<LanceScanStep>,
    e: OptionEntry,
    entries: Seq<OptionEntry>,
    error: StorageError,
    i: int,
)
    ensures
        match step {
            LanceScanStep::BatchSize(n) => step@ == ScanStepView::BatchSize(n),
            LanceScanStep::Project(columns) => step@ is Project && step@->Project_0.len()
                == columns@.len() && forall|j: int|
                0 <= j < columns@.len() ==> step@->Project_0[j] == (#[trigger] columns@[j])@,
            LanceScanStep::Filter(s) => step@ == ScanStepView::Filter(s@),
            LanceScanStep::Limit(limit, offset) => step@ == ScanStepView::Limit(limit, offset),
            LanceScanStep::ScanInOrder(b) => step@ == ScanStepView::ScanInOrder(b),
            LanceScanStep::IoBufferSize(n) => step@ == ScanStepView::IoBufferSize(n),
        },
        step_views(steps).len() == steps.len(),
        0 <= i < steps.len() ==> step_views(steps)[i] == steps[i]@,
        e@.key == e.key@ && e@.as_bool == e.as_bool && e@.as_u64 == e.as_u64,
        match e.as_str {
            Some(s) => e@.as_str == Some(s@),
            None => e@.as_str is None,
        },
        entry_views(entries).len() == entries.len(),
        0 <= i < entries.len() ==> entry_views(entries)[i] == entries[i]@,
        match error {
            StorageError::Io(s) => error@ == StorageErrorView::Io(s@),
            StorageError::Arrow(s) => error@ == StorageErrorView::Arrow(s@),
            StorageError::Parquet(s) => error@ == StorageErrorView::Parquet(s@),
            StorageError::Lance(s) => error@ == StorageErrorView::Lance(s@),
            StorageError::Vortex(s) => error@ == StorageErrorView::Vortex(s@),
            StorageError::NotYetImplemented(s) => error@ == StorageErrorView::NotYetImplemented(s@),
            StorageError::Unsupported(s) => error@ == StorageErrorView::Unsupported(s@),
        },
{
}

} // verus!
