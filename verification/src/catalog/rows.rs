//! Rows as the catalog database gives them, and what they decode to.

use vstd::prelude::*;
use vstd::string::*;

use super::data_type::{decode_data_type_checked, decoded, DecodeOutcome};
use super::error::{tells, CatalogError, ErrorView, Refusal, Result};
use super::helpers::{
    bytes_option, parse_json_optional, parsed_json, parsed_uuid, parsed_uuid_option, text_option,
    uuid_from_row, uuid_from_row_optional,
};
use super::schema::{column_views, file_views, Column, ColumnView, File, FileView, TableStats};
use crate::time::Timestamp;

verus! {

/// A row of the table of tables.
#[derive(Debug)]
pub struct TableRow {
    /// Table UUID.
    pub table_uuid: Vec<u8>,
    /// Current schema UUID.
    pub current_schema_uuid: Option<Vec<u8>>,
    /// Current transaction ID.
    pub current_transaction_id: Option<Vec<u8>>,
    /// Properties as JSON text.
    pub properties: Option<String>,
    /// Lowest reader protocol version that may read the table.
    pub min_reader_version: i32,
    /// Lowest writer protocol version that may write the table.
    pub min_writer_version: i32,
}

/// A row of the table of files.
#[derive(Debug)]
pub struct FileRow {
    /// File UUID.
    pub file_uuid: Vec<u8>,
    /// Table UUID.
    pub table_uuid: Vec<u8>,
    /// File format.
    pub file_format: String,
    /// File path.
    pub file_path: String,
    /// Number of records in the file.
    pub record_count: i64,
    /// File size in bytes.
    pub file_size_bytes: i64,
    /// Transaction where the file was added.
    pub added_in_transaction_id: Vec<u8>,
    /// Transaction where the file was removed.
    pub removed_in_transaction_id: Option<Vec<u8>>,
    /// Partition values as JSON text.
    pub partition_values: Option<String>,
    /// Format options as JSON text.
    pub format_options: Option<String>,
}

/// A row of the table of columns.
#[derive(Debug)]
pub struct ColumnRow {
    /// Column UUID.
    pub column_uuid: Vec<u8>,
    /// Schema UUID.
    pub schema_uuid: Vec<u8>,
    /// Column name.
    pub column_name: String,
    /// Encoded column type.
    pub column_type: Vec<u8>,
    /// Column position in schema.
    pub ordinal_position: i32,
    /// Whether the column allows null values.
    pub is_nullable: bool,
}

/// A row of the table of schemas.
#[derive(Debug)]
pub struct SchemaRow {
    /// Schema UUID.
    pub schema_uuid: Vec<u8>,
    /// Table UUID.
    pub table_uuid: Vec<u8>,
    /// Schema version number.
    pub schema_version: i32,
    /// Transaction where the schema becomes valid.
    pub valid_from_transaction_id: Vec<u8>,
    /// Transaction where the schema becomes invalid.
    pub valid_to_transaction_id: Option<Vec<u8>>,
    /// Creation timestamp.
    pub created_at: Timestamp,
}

/// A row of the table of statistics.
#[derive(Debug)]
pub struct StatsRow {
    /// Table UUID.
    pub table_uuid: Vec<u8>,
    /// Transaction that the statistics are for.
    pub transaction_id: Vec<u8>,
    /// Total record count.
    pub record_count: i64,
    /// Total file size in bytes.
    pub file_size_bytes: i64,
    /// Number of files.
    pub file_count: i32,
    /// Last update timestamp.
    pub last_updated: Timestamp,
}

/// What comes of an operation of the catalog.
#[derive(Debug)]
pub enum Verdict<T> {
    /// It is done, with this result.
    Done(T),
    /// It is refused.
    Refused(CatalogError),
    /// An outer library panics on what the operation would hand it.
    Panics,
}

/// What an operation of the catalog comes to, as a specification says it.
#[verifier::ext_equal]
pub enum Outcome<T> {
    /// It is done, with this result.
    Done(T),
    /// It is refused.
    Refused(Refusal),
    /// An outer library panics on what the operation would hand it.
    Panics,
}

/// What comes of decoding a row of the table of files.
pub open spec fn file_of(row: FileRow) -> std::result::Result<FileView, ErrorView> {
    match parsed_uuid(row.file_uuid@) {
        Err(e) => Err(e),
        Ok(file_uuid) => match parsed_uuid(row.table_uuid@) {
            Err(e) => Err(e),
            Ok(table_uuid) => match parsed_uuid(row.added_in_transaction_id@) {
                Err(e) => Err(e),
                Ok(added) => match parsed_uuid_option(
                    bytes_option(row.removed_in_transaction_id),
                ) {
                    Err(e) => Err(e),
                    Ok(removed) => match parsed_json(text_option(row.partition_values)) {
                        Err(e) => Err(e),
                        Ok(partition_values) => match parsed_json(text_option(row.format_options)) {
                            Err(e) => Err(e),
                            Ok(format_options) => Ok(
                                FileView {
                                    file_uuid,
                                    table_uuid,
                                    file_format: row.file_format@,
                                    file_path: row.file_path@,
                                    record_count: row.record_count,
                                    file_size_bytes: row.file_size_bytes,
                                    added_in_transaction_id: added,
                                    removed_in_transaction_id: removed,
                                    partition_values,
                                    format_options,
                                },
                            ),
                        },
                    },
                },
            },
        },
    }
}

/// Decodes a row of the table of files.
pub fn decode_file(row: FileRow) -> (r: Result<File>)
    ensures
        match r {
            Ok(f) => file_of(row) == std::result::Result::<FileView, ErrorView>::Ok(f@),
            Err(e) => file_of(row) == std::result::Result::<FileView, ErrorView>::Err(e@),
        },
{
    let file_uuid = match uuid_from_row(&row.file_uuid) {
        Ok(u) => u,
        Err(e) => return Err(e),
    };
    let table_uuid = match uuid_from_row(&row.table_uuid) {
        Ok(u) => u,
        Err(e) => return Err(e),
    };
    let added_in_transaction_id = match uuid_from_row(&row.added_in_transaction_id) {
        Ok(u) => u,
        Err(e) => return Err(e),
    };
    let removed_in_transaction_id = match uuid_from_row_optional(&row.removed_in_transaction_id) {
        Ok(u) => u,
        Err(e) => return Err(e),
    };
    let partition_values = match parse_json_optional(row.partition_values) {
        Ok(v) => v,
        Err(e) => return Err(e),
    };
    let format_options = match parse_json_optional(row.format_options) {
        Ok(v) => v,
        Err(e) => return Err(e),
    };
    Ok(
        File {
            file_uuid,
            table_uuid,
            file_format: row.file_format,
            file_path: row.file_path,
            record_count: row.record_count,
            file_size_bytes: row.file_size_bytes,
            added_in_transaction_id,
            removed_in_transaction_id,
            partition_values,
            format_options,
        },
    )
}

/// What comes of decoding rows of the table of files, up to the first that fails.
pub open spec fn files_of(rows: Seq<FileRow>) -> std::result::Result<Seq<FileView>, ErrorView>
    decreases rows.len(),
{
    if rows.len() == 0 {
        Ok(Seq::empty())
    } else {
        match files_of(rows.drop_last()) {
            Err(e) => Err(e),
            Ok(files) => match file_of(rows.last()) {
                Err(e) => Err(e),
                Ok(f) => Ok(files.push(f)),
            },
        }
    }
}

proof fn files_of_stops(rows: Seq<FileRow>, n: nat)
    requires
        n <= rows.len(),
        files_of(rows.take(n as int)) is Err,
    ensures
        files_of(rows) == files_of(rows.take(n as int)),
    decreases rows.len(),
{
    if n == rows.len() {
        assert(rows.take(n as int) =~= rows);
    } else {
        assert(rows.drop_last().take(n as int) =~= rows.take(n as int));
        files_of_stops(rows.drop_last(), n);
    }
}

/// Decodes rows of the table of files.
pub fn decode_files(rows: Vec<FileRow>) -> (r: Result<Vec<File>>)
    ensures
        match r {
            Ok(files) => files_of(rows@) == std::result::Result::<Seq<FileView>, ErrorView>::Ok(
                file_views(files@),
            ),
            Err(e) => files_of(rows@) == std::result::Result::<Seq<FileView>, ErrorView>::Err(e@),
        },
{
    let mut files: Vec<File> = Vec::new();
    let ghost all = rows@;
    assert(all.take(0) =~= Seq::<FileRow>::empty());
    assert(file_views(files@) =~= Seq::<FileView>::empty());
    for row in it: rows
        invariant
            it.seq() == all,
            files_of(all.take(it.index() as int)) == std::result::Result::<
                Seq<FileView>,
                ErrorView,
            >::Ok(file_views(files@)),
    {
        let ghost i = it.index() as int;
        proof {
            assert(all.take(i + 1).drop_last() =~= all.take(i));
            assert(all.take(i + 1).last() == row);
        }
        match decode_file(row) {
            Ok(f) => {
                let ghost before = files@;
                files.push(f);
                assert(file_views(files@) =~= file_views(before).push(f@));
            },
            Err(e) => {
                proof {
                    files_of_stops(all, (i + 1) as nat);
                }
                return Err(e);
            },
        }
    }
    assert(all.take(all.len() as int) =~= all);
    Ok(files)
}

/// What comes of decoding a row of the table of columns: its type comes first.
pub open spec fn column_of(row: ColumnRow) -> Outcome<ColumnView> {
    match decoded(row.column_type@) {
        DecodeOutcome::Panics => Outcome::Panics,
        DecodeOutcome::Refused(why) => Outcome::Refused(why),
        DecodeOutcome::Type(column_type) => match parsed_uuid(row.column_uuid@) {
            Err(e) => Outcome::Refused(Refusal::Exact(e)),
            Ok(column_uuid) => match parsed_uuid(row.schema_uuid@) {
                Err(e) => Outcome::Refused(Refusal::Exact(e)),
                Ok(schema_uuid) => Outcome::Done(
                    ColumnView {
                        column_uuid,
                        schema_uuid,
                        column_name: row.column_name@,
                        column_type,
                        ordinal_position: row.ordinal_position,
                        is_nullable: row.is_nullable,
                    },
                ),
            },
        },
    }
}

/// Decodes a row of the table of columns.
pub fn decode_column(row: ColumnRow) -> (r: Verdict<Column>)
    ensures
        match r {
            Verdict::Done(c) => column_of(row) == Outcome::Done(c@),
            Verdict::Refused(e) => column_of(row) is Refused && tells(
                e,
                column_of(row)->Refused_0,
            ),
            Verdict::Panics => column_of(row) is Panics,
        },
{
    let column_type = match decode_data_type_checked(row.column_type.as_slice()) {
        Some(Ok(t)) => t,
        Some(Err(e)) => return Verdict::Refused(e),
        None => return Verdict::Panics,
    };
    let column_uuid = match uuid_from_row(&row.column_uuid) {
        Ok(u) => u,
        Err(e) => return Verdict::Refused(e),
    };
    let schema_uuid = match uuid_from_row(&row.schema_uuid) {
        Ok(u) => u,
        Err(e) => return Verdict::Refused(e),
    };
    Verdict::Done(
        Column {
            column_uuid,
            schema_uuid,
            column_name: row.column_name,
            column_type,
            ordinal_position: row.ordinal_position,
            is_nullable: row.is_nullable,
        },
    )
}

/// What comes of decoding rows of the table of columns, up to the first that fails.
pub open spec fn columns_of(rows: Seq<ColumnRow>) -> Outcome<Seq<ColumnView>>
    decreases rows.len(),
{
    if rows.len() == 0 {
        Outcome::Done(Seq::empty())
    } else {
        match columns_of(rows.drop_last()) {
            Outcome::Done(columns) => match column_of(rows.last()) {
                Outcome::Done(c) => Outcome::Done(columns.push(c)),
                Outcome::Refused(why) => Outcome::Refused(why),
                Outcome::Panics => Outcome::Panics,
            },
            stopped => stopped,
        }
    }
}

proof fn columns_of_stops(rows: Seq<ColumnRow>, n: nat)
    requires
        n <= rows.len(),
        !(columns_of(rows.take(n as int)) is Done),
    ensures
        columns_of(rows) == columns_of(rows.take(n as int)),
    decreases rows.len(),
{
    if n == rows.len() {
        assert(rows.take(n as int) =~= rows);
    } else {
        assert(rows.drop_last().take(n as int) =~= rows.take(n as int));
        columns_of_stops(rows.drop_last(), n);
    }
}

/// Decodes rows of the table of columns.
pub fn decode_columns(rows: Vec<ColumnRow>) -> (r: Verdict<Vec<Column>>)
    ensures
        match r {
            Verdict::Done(columns) => columns_of(rows@) == Outcome::Done(column_views(columns@)),
            Verdict::Refused(e) => columns_of(rows@) is Refused && tells(
                e,
                columns_of(rows@)->Refused_0,
            ),
            Verdict::Panics => columns_of(rows@) is Panics,
        },
{
    let mut columns: Vec<Column> = Vec::new();
    let ghost all = rows@;
    assert(all.take(0) =~= Seq::<ColumnRow>::empty());
    assert(column_views(columns@) =~= Seq::<ColumnView>::empty());
    for row in it: rows
        invariant
            it.seq() == all,
            columns_of(all.take(it.index() as int)) == Outcome::Done(column_views(columns@)),
    {
        let ghost i = it.index() as int;
        proof {
            assert(all.take(i + 1).drop_last() =~= all.take(i));
            assert(all.take(i + 1).last() == row);
        }
        match decode_column(row) {
            Verdict::Done(c) => {
                let ghost before = columns@;
                columns.push(c);
                assert(column_views(columns@) =~= column_views(before).push(c@));
            },
            Verdict::Refused(e) => {
                proof {
                    columns_of_stops(all, (i + 1) as nat);
                }
                return Verdict::Refused(e);
            },
            Verdict::Panics => {
                proof {
                    columns_of_stops(all, (i + 1) as nat);
                }
                return Verdict::Panics;
            },
        }
    }
    assert(all.take(all.len() as int) =~= all);
    Verdict::Done(columns)
}

/// What comes of decoding a row of the table of statistics.
pub open spec fn stats_of(row: StatsRow) -> std::result::Result<TableStats, ErrorView> {
    match parsed_uuid(row.table_uuid@) {
        Err(e) => Err(e),
        Ok(table_uuid) => match parsed_uuid(row.transaction_id@) {
            Err(e) => Err(e),
            Ok(transaction_id) => Ok(
                TableStats {
                    table_uuid,
                    transaction_id,
                    record_count: row.record_count,
                    file_size_bytes: row.file_size_bytes,
                    file_count: row.file_count,
                    last_updated: row.last_updated,
                },
            ),
        },
    }
}

/// Decodes a row of the table of statistics.
pub fn decode_stats(row: StatsRow) -> (r: Result<TableStats>)
    ensures
        match r {
            Ok(s) => stats_of(row) == std::result::Result::<TableStats, ErrorView>::Ok(s),
            Err(e) => stats_of(row) == std::result::Result::<TableStats, ErrorView>::Err(e@),
        },
{
    let table_uuid = match uuid_from_row(&row.table_uuid) {
        Ok(u) => u,
        Err(e) => return Err(e),
    };
    let transaction_id = match uuid_from_row(&row.transaction_id) {
        Ok(u) => u,
        Err(e) => return Err(e),
    };
    Ok(
        TableStats {
            table_uuid,
            transaction_id,
            record_count: row.record_count,
            file_size_bytes: row.file_size_bytes,
            file_count: row.file_count,
            last_updated: row.last_updated,
        },
    )
}

} // verus!
