//! Reading a table: the snapshot that the rows of the catalog database make.

use vstd::prelude::*;
use vstd::string::*;

use super::commit::{no_current_transaction, table_not_found};
use super::error::{tells, CatalogError, ErrorView, Refusal, Result};
use super::helpers::{
    bytes_option, parse_table_properties, parsed_properties, parsed_uuid, parsed_uuid_option,
    text_option, uuid_from_row, uuid_from_row_optional,
};
use super::limits::{MAX_COLUMNS_PER_SCHEMA, MAX_FILES_PER_QUERY};
use super::models::{ident_text, TableIdent, TableProperties, TableView, TxnId};
use super::protocol::{protocol_flaw, ProtocolVersions};
use super::rows::{
    columns_of, decode_columns, decode_files, decode_stats, files_of, stats_of, ColumnRow, FileRow,
    Outcome, SchemaRow, StatsRow, TableRow, Verdict,
};
use super::schema::{
    column_views, file_views, Column, ColumnView, File, FileView, Schema, SchemaView, TableStats,
};
use crate::ids::{hyphenated, Uuid};
use crate::json::JsonObject;
use crate::text::{decimal, decimal_text, joined, joined3};

verus! {

/// A table that can be read at a transaction.
#[verifier::ext_equal]
pub struct ReadView {
    /// Table UUID.
    pub table_uuid: Uuid,
    /// The transaction to read at.
    pub transaction_id: TxnId,
}

/// The refusal of a transaction that is yet to come.
pub open spec fn newer_than_current() -> ErrorView {
    ErrorView::InvalidArgument("requested transaction is newer than current"@)
}

/// What comes of looking at the table to read: it is read at the given transaction, or else at
/// the current one, and not at a later one.
pub open spec fn read_base_of(
    protocol: ProtocolVersions,
    ident: TableIdent,
    row: Option<TableRow>,
    at: Option<TxnId>,
) -> std::result::Result<ReadView, ErrorView> {
    match row {
        None => Err(table_not_found(ident)),
        Some(row) => match parsed_uuid(row.table_uuid@) {
            Err(e) => Err(e),
            Ok(table_uuid) => match parsed_uuid_option(bytes_option(row.current_schema_uuid)) {
                Err(e) => Err(e),
                Ok(_) => match parsed_uuid_option(bytes_option(row.current_transaction_id)) {
                    Err(e) => Err(e),
                    Ok(current) => match protocol_flaw(
                        "read"@,
                        ident,
                        protocol.reader,
                        row.min_reader_version,
                    ) {
                        Some(e) => Err(e),
                        None => match current {
                            None => Err(no_current_transaction()),
                            Some(current) => {
                                let effective = match at {
                                    Some(id) => id,
                                    None => current,
                                };
                                if effective.value > current.value {
                                    Err(newer_than_current())
                                } else {
                                    Ok(ReadView { table_uuid, transaction_id: effective })
                                }
                            },
                        },
                    },
                },
            },
        },
    }
}

/// A table that can be read at a transaction.
#[derive(Debug)]
pub struct ReadBase {
    /// Table UUID.
    pub table_uuid: Uuid,
    /// The transaction to read at.
    pub transaction_id: TxnId,
}

impl View for ReadBase {
    type V = ReadView;

    open spec fn view(&self) -> ReadView {
        ReadView { table_uuid: self.table_uuid, transaction_id: self.transaction_id }
    }
}

/// Looks at the table to read.
pub fn open_read(
    protocol: &ProtocolVersions,
    ident: &TableIdent,
    row: Option<TableRow>,
    at_transaction_id: Option<TxnId>,
) -> (r: Result<ReadBase>)
    ensures
        match r {
            Ok(base) => read_base_of(*protocol, *ident, row, at_transaction_id)
                == std::result::Result::<ReadView, ErrorView>::Ok(base@),
            Err(e) => read_base_of(*protocol, *ident, row, at_transaction_id)
                == std::result::Result::<ReadView, ErrorView>::Err(e@),
        },
{
    let row = match row {
        Some(row) => row,
        None => return Err(CatalogError::NotFound(ident.to_string())),
    };
    let table_uuid = match uuid_from_row(&row.table_uuid) {
        Ok(u) => u,
        Err(e) => return Err(e),
    };
    match uuid_from_row_optional(&row.current_schema_uuid) {
        Ok(_) => {},
        Err(e) => return Err(e),
    }
    let current = match uuid_from_row_optional(&row.current_transaction_id) {
        Ok(u) => u,
        Err(e) => return Err(e),
    };
    match protocol.ensure_reader_protocol_compatible(ident, row.min_reader_version) {
        Ok(_) => {},
        Err(e) => return Err(e),
    }
    let current = match current {
        Some(u) => u,
        None => return Err(
            CatalogError::InvalidArgument(String::from_str("table has no current transaction")),
        ),
    };
    let transaction_id = match at_transaction_id {
        Some(id) => id,
        None => current,
    };
    if transaction_id.as_u128() > current.as_u128() {
        return Err(
            CatalogError::InvalidArgument(
                String::from_str("requested transaction is newer than current"),
            ),
        );
    }
    Ok(ReadBase { table_uuid, transaction_id })
}

/// The refusal of a table that has no schema at a transaction.
pub open spec fn no_schema_at(ident: TableIdent, at: TxnId) -> ErrorView {
    ErrorView::NotFound(
        "no schema for "@ + ident_text(ident) + " at transaction "@ + hyphenated(at.value as nat),
    )
}

/// What comes of looking for the schema to read.
pub open spec fn schema_uuid_of(
    ident: TableIdent,
    at: TxnId,
    row: Option<SchemaRow>,
) -> std::result::Result<Uuid, ErrorView> {
    match row {
        None => Err(no_schema_at(ident, at)),
        Some(row) => parsed_uuid(row.schema_uuid@),
    }
}

/// Finds the schema to read.
pub fn read_schema_uuid(ident: &TableIdent, at: TxnId, row: &Option<SchemaRow>) -> (r: Result<Uuid>)
    ensures
        match r {
            Ok(u) => schema_uuid_of(*ident, at, *row) == std::result::Result::<
                Uuid,
                ErrorView,
            >::Ok(u),
            Err(e) => schema_uuid_of(*ident, at, *row) == std::result::Result::<
                Uuid,
                ErrorView,
            >::Err(e@),
        },
{
    match row {
        None => {
            let mut text = joined3("no schema for ", ident.to_string().as_str(), " at transaction ");
            text.append(at.to_string().as_str());
            Err(CatalogError::NotFound(text))
        },
        Some(row) => uuid_from_row(&row.schema_uuid),
    }
}

/// What comes of decoding a row of the table of schemas that has these columns: what is left to
/// read of it comes after the columns.
pub open spec fn schema_of(
    schema_uuid: Uuid,
    row: SchemaRow,
    columns: Seq<ColumnView>,
) -> std::result::Result<SchemaView, ErrorView> {
    match parsed_uuid(row.table_uuid@) {
        Err(e) => Err(e),
        Ok(table_uuid) => match parsed_uuid(row.valid_from_transaction_id@) {
            Err(e) => Err(e),
            Ok(valid_from_transaction_id) => match parsed_uuid_option(
                bytes_option(row.valid_to_transaction_id),
            ) {
                Err(e) => Err(e),
                Ok(valid_to_transaction_id) => Ok(
                    SchemaView {
                        schema_uuid,
                        table_uuid,
                        schema_version: row.schema_version,
                        valid_from_transaction_id,
                        valid_to_transaction_id,
                        created_at: row.created_at,
                        columns,
                    },
                ),
            },
        },
    }
}

/// Decodes a row of the table of schemas that has these columns.
pub fn decode_schema(schema_uuid: Uuid, row: &SchemaRow, columns: Vec<Column>) -> (r: Result<
    Schema,
>)
    ensures
        match r {
            Ok(schema) => schema_of(schema_uuid, *row, column_views(columns@))
                == std::result::Result::<SchemaView, ErrorView>::Ok(schema@),
            Err(e) => schema_of(schema_uuid, *row, column_views(columns@))
                == std::result::Result::<SchemaView, ErrorView>::Err(e@),
        },
{
    let table_uuid = match uuid_from_row(&row.table_uuid) {
        Ok(u) => u,
        Err(e) => return Err(e),
    };
    let valid_from_transaction_id = match uuid_from_row(&row.valid_from_transaction_id) {
        Ok(u) => u,
        Err(e) => return Err(e),
    };
    let valid_to_transaction_id = match uuid_from_row_optional(&row.valid_to_transaction_id) {
        Ok(u) => u,
        Err(e) => return Err(e),
    };
    Ok(
        Schema {
            schema_uuid,
            table_uuid,
            schema_version: row.schema_version,
            valid_from_transaction_id,
            valid_to_transaction_id,
            created_at: row.created_at,
            columns,
        },
    )
}

/// The refusal of more rows than a limit.
pub open spec fn too_many(what: Seq<char>, limit: u32) -> ErrorView {
    ErrorView::LimitExceeded(what + decimal_text(limit as nat))
}

pub(crate) fn too_many_error(what: &str, limit: u32) -> (r: CatalogError)
    ensures
        r@ == too_many(what@, limit),
{
    CatalogError::LimitExceeded(joined(what, decimal(limit as u64).as_str()))
}

/// What comes of reading a schema with its columns.
pub open spec fn read_schema_outcome(
    ident: TableIdent,
    at: TxnId,
    row: Option<SchemaRow>,
    columns: Seq<ColumnRow>,
) -> Outcome<SchemaView> {
    match schema_uuid_of(ident, at, row) {
        Err(e) => Outcome::Refused(Refusal::Exact(e)),
        Ok(schema_uuid) => if columns.len() > MAX_COLUMNS_PER_SCHEMA {
            Outcome::Refused(
                Refusal::Exact(
                    too_many("column count exceeds limit of "@, MAX_COLUMNS_PER_SCHEMA),
                ),
            )
        } else {
            match columns_of(columns) {
                Outcome::Panics => Outcome::Panics,
                Outcome::Refused(why) => Outcome::Refused(why),
                Outcome::Done(columns) => match schema_of(schema_uuid, row->0, columns) {
                    Err(e) => Outcome::Refused(Refusal::Exact(e)),
                    Ok(schema) => Outcome::Done(schema),
                },
            }
        },
    }
}

/// Reads a schema with its columns.
pub fn read_schema(
    ident: &TableIdent,
    at: TxnId,
    row: &Option<SchemaRow>,
    columns: Vec<ColumnRow>,
) -> (r: Verdict<Schema>)
    ensures
        ({
            let wanted = read_schema_outcome(*ident, at, *row, columns@);
            match r {
                Verdict::Done(schema) => wanted == Outcome::Done(schema@),
                Verdict::Refused(e) => wanted is Refused && tells(e, wanted->Refused_0),
                Verdict::Panics => wanted is Panics,
            }
        }),
{
    let schema_uuid = match read_schema_uuid(ident, at, row) {
        Ok(u) => u,
        Err(e) => return Verdict::Refused(e),
    };
    if columns.len() > MAX_COLUMNS_PER_SCHEMA as usize {
        return Verdict::Refused(
            too_many_error("column count exceeds limit of ", MAX_COLUMNS_PER_SCHEMA),
        );
    }
    let columns = match decode_columns(columns) {
        Verdict::Done(columns) => columns,
        Verdict::Refused(e) => return Verdict::Refused(e),
        Verdict::Panics => return Verdict::Panics,
    };
    match row {
        Some(row) => match decode_schema(schema_uuid, row, columns) {
            Ok(schema) => Verdict::Done(schema),
            Err(e) => Verdict::Refused(e),
        },
        None => Verdict::Panics,
    }
}

/// What comes of reading the files of a table, of which the query asks for one more than the
/// limit.
pub open spec fn read_files_outcome(rows: Seq<FileRow>) -> std::result::Result<
    Seq<FileView>,
    ErrorView,
> {
    if rows.len() > MAX_FILES_PER_QUERY {
        Err(too_many("file count exceeds limit of "@, MAX_FILES_PER_QUERY))
    } else {
        files_of(rows)
    }
}

/// Reads the files of a table.
pub fn read_files(rows: Vec<FileRow>) -> (r: Result<Vec<File>>)
    ensures
        match r {
            Ok(files) => read_files_outcome(rows@) == std::result::Result::<
                Seq<FileView>,
                ErrorView,
            >::Ok(file_views(files@)),
            Err(e) => read_files_outcome(rows@) == std::result::Result::<
                Seq<FileView>,
                ErrorView,
            >::Err(e@),
        },
{
    if rows.len() > MAX_FILES_PER_QUERY as usize {
        return Err(too_many_error("file count exceeds limit of ", MAX_FILES_PER_QUERY));
    }
    decode_files(rows)
}

/// What comes of reading the statistics of a table, if it has any.
pub open spec fn read_stats_outcome(row: Option<StatsRow>) -> std::result::Result<
    Option<TableStats>,
    ErrorView,
> {
    match row {
        None => Ok(None),
        Some(row) => match stats_of(row) {
            Ok(stats) => Ok(Some(stats)),
            Err(e) => Err(e),
        },
    }
}

/// Reads the statistics of a table, if it has any.
pub fn read_stats(row: Option<StatsRow>) -> (r: Result<Option<TableStats>>)
    ensures
        match r {
            Ok(stats) => read_stats_outcome(row) == std::result::Result::<
                Option<TableStats>,
                ErrorView,
            >::Ok(stats),
            Err(e) => read_stats_outcome(row) == std::result::Result::<
                Option<TableStats>,
                ErrorView,
            >::Err(e@),
        },
{
    match row {
        None => Ok(None),
        Some(row) => match decode_stats(row) {
            Ok(stats) => Ok(Some(stats)),
            Err(e) => Err(e),
        },
    }
}

/// What a snapshot of a table holds.
#[verifier::ext_equal]
pub struct SnapshotView {
    /// Table namespace.
    pub namespace: Seq<char>,
    /// Table name.
    pub name: Seq<char>,
    /// Table UUID.
    pub table_uuid: Uuid,
    /// Transaction of the snapshot.
    pub transaction_id: TxnId,
    /// Schema.
    pub schema: SchemaView,
    /// Files.
    pub files: Seq<FileView>,
    /// Properties.
    pub properties: JsonObject,
    /// Statistics.
    pub stats: Option<TableStats>,
}

impl View for TableView {
    type V = SnapshotView;

    open spec fn view(&self) -> SnapshotView {
        SnapshotView {
            namespace: self.ident.namespace@,
            name: self.ident.name@,
            table_uuid: self.table_uuid,
            transaction_id: self.transaction_id,
            schema: self.schema@,
            files: file_views(self.files@),
            properties: self.properties@,
            stats: self.stats,
        }
    }
}

/// The rows that a table is read from, once it can be read at a transaction.
#[derive(Debug)]
pub struct ReadRows {
    /// The schema that is valid at the transaction.
    pub schema: Option<SchemaRow>,
    /// The columns of that schema.
    pub columns: Vec<ColumnRow>,
    /// The properties that the table has at the transaction, as JSON text.
    pub properties: Option<String>,
    /// The files that are there at the transaction.
    pub files: Vec<FileRow>,
    /// The statistics for the transaction.
    pub stats: Option<StatsRow>,
}

/// What comes of reading a table.
pub open spec fn read_outcome(ident: TableIdent, base: ReadView, rows: ReadRows) -> Outcome<
    SnapshotView,
> {
    match read_schema_outcome(ident, base.transaction_id, rows.schema, rows.columns@) {
        Outcome::Panics => Outcome::Panics,
        Outcome::Refused(why) => Outcome::Refused(why),
        Outcome::Done(schema) => match parsed_properties(text_option(rows.properties)) {
            Err(e) => Outcome::Refused(Refusal::Exact(e)),
            Ok(properties) => match read_files_outcome(rows.files@) {
                Err(e) => Outcome::Refused(Refusal::Exact(e)),
                Ok(files) => match read_stats_outcome(rows.stats) {
                    Err(e) => Outcome::Refused(Refusal::Exact(e)),
                    Ok(stats) => Outcome::Done(
                        SnapshotView {
                            namespace: ident.namespace@,
                            name: ident.name@,
                            table_uuid: base.table_uuid,
                            transaction_id: base.transaction_id,
                            schema,
                            files,
                            properties,
                            stats,
                        },
                    ),
                },
            },
        },
    }
}

/// Puts a snapshot together from its parts.
pub fn snapshot(
    ident: &TableIdent,
    base: ReadBase,
    schema: Schema,
    files: Vec<File>,
    properties: TableProperties,
    stats: Option<TableStats>,
) -> (r: TableView)
    ensures
        r@ == (SnapshotView {
            namespace: ident.namespace@,
            name: ident.name@,
            table_uuid: base.table_uuid,
            transaction_id: base.transaction_id,
            schema: schema@,
            files: file_views(files@),
            properties: properties@,
            stats,
        }),
{
    TableView {
        ident: ident.clone(),
        table_uuid: base.table_uuid,
        transaction_id: base.transaction_id,
        schema,
        files,
        properties,
        stats,
    }
}

/// Reads a table.
pub fn read_view(ident: &TableIdent, base: ReadBase, rows: ReadRows) -> (r: Verdict<TableView>)
    ensures
        ({
            let wanted = read_outcome(*ident, base@, rows);
            match r {
                Verdict::Done(view) => wanted == Outcome::Done(view@),
                Verdict::Refused(e) => wanted is Refused && tells(e, wanted->Refused_0),
                Verdict::Panics => wanted is Panics,
            }
        }),
{
    let schema = match read_schema(ident, base.transaction_id, &rows.schema, rows.columns) {
        Verdict::Done(schema) => schema,
        Verdict::Refused(e) => return Verdict::Refused(e),
        Verdict::Panics => return Verdict::Panics,
    };
    let properties = match parse_table_properties(rows.properties) {
        Ok(properties) => properties,
        Err(e) => return Verdict::Refused(e),
    };
    let files = match read_files(rows.files) {
        Ok(files) => files,
        Err(e) => return Verdict::Refused(e),
    };
    let stats = match read_stats(rows.stats) {
        Ok(stats) => stats,
        Err(e) => return Verdict::Refused(e),
    };
    Verdict::Done(snapshot(ident, base, schema, files, properties, stats))
}

} // verus!
