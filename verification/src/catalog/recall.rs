//! What reading gives of what the catalog database holds.

use vstd::prelude::*;

use super::commit::{append_rows, new_columns, types_read_back};
use super::data_type::{decoded, readable, stored_field, type_reads_back, DecodeOutcome};
use super::error::ErrorView;
use super::helpers::{
    bytes_option, parsed_json, parsed_uuid, parsed_uuid_option, serialized_option, text_option,
};
use super::limits::{MAX_COLUMNS_PER_SCHEMA, MAX_FILES_PER_QUERY};
use super::models::{ColumnSpecView, TxnId};
use super::mutation::FileSpecView;
use super::read::{read_files_outcome, read_stats_outcome, schema_of};
use super::relations::{files_at, files_inserted, FileRecord, Relations, SchemaRecord};
use super::rows::{
    column_of, columns_of, file_of, files_of, ColumnRow, FileRow, Outcome, SchemaRow,
    StatsRow,
};
use super::schema::{ColumnView, FileView, SchemaView, TableStats};
use super::statements::{ColumnInsertView, FileInsertView};
use crate::ids::Uuid;
use crate::json::{plain_json, JsonModel};
use crate::storage::format_name;

verus! {

/// A row tells what is on record of a file.
pub open spec fn row_tells_file(row: FileRow, u: Uuid, record: FileRecord) -> bool {
    &&& parsed_uuid(row.file_uuid@) == std::result::Result::<Uuid, ErrorView>::Ok(u)
    &&& parsed_uuid(row.table_uuid@) == std::result::Result::<Uuid, ErrorView>::Ok(
        record.table_uuid,
    )
    &&& row.file_format@ == format_name(record.file.file_format)
    &&& row.file_path@ == record.file.file_path
    &&& row.record_count == record.file.record_count
    &&& row.file_size_bytes == record.file.file_size_bytes
    &&& parsed_uuid(row.added_in_transaction_id@) == std::result::Result::<Uuid, ErrorView>::Ok(
        record.added,
    )
    &&& parsed_uuid_option(bytes_option(row.removed_in_transaction_id)) == std::result::Result::<
        Option<Uuid>,
        ErrorView,
    >::Ok(record.removed)
    &&& text_option(row.partition_values) == record.file.partition_values
    &&& text_option(row.format_options) == record.file.format_options
}

/// The UUID of the file that a row tells of.
pub open spec fn row_id(row: FileRow) -> Uuid {
    parsed_uuid(row.file_uuid@)->Ok_0
}

/// Rows tell of files, each of them once, in any order.
pub open spec fn rows_tell_files(
    rows: Seq<FileRow>,
    files: Map<Uuid, FileRecord>,
    wanted: Set<Uuid>,
) -> bool {
    &&& forall|i: int|
        0 <= i < rows.len() ==> wanted.contains(row_id(#[trigger] rows[i])) && row_tells_file(
            rows[i],
            row_id(rows[i]),
            files[row_id(rows[i])],
        )
    &&& forall|i: int, j: int|
        0 <= i < j < rows.len() ==> row_id(#[trigger] rows[i]) != row_id(#[trigger] rows[j])
    &&& forall|u: Uuid|
        wanted.contains(u) ==> exists|i: int| 0 <= i < rows.len() && row_id(#[trigger] rows[i]) == u
}

/// The JSON on record of a file can be read.
pub open spec fn json_readable(file: FileInsertView) -> bool {
    parsed_json(file.partition_values) is Ok && parsed_json(file.format_options) is Ok
}

/// What is shown of a file is what is on record of it.
pub open spec fn shows(view: FileView, u: Uuid, record: FileRecord) -> bool {
    &&& view.file_uuid == u
    &&& view.table_uuid == record.table_uuid
    &&& view.file_format == format_name(record.file.file_format)
    &&& view.file_path == record.file.file_path
    &&& view.record_count == record.file.record_count
    &&& view.file_size_bytes == record.file.file_size_bytes
    &&& view.added_in_transaction_id == record.added
    &&& view.removed_in_transaction_id == record.removed
    &&& parsed_json(record.file.partition_values) == std::result::Result::<
        Option<JsonModel>,
        ErrorView,
    >::Ok(view.partition_values)
    &&& parsed_json(record.file.format_options) == std::result::Result::<
        Option<JsonModel>,
        ErrorView,
    >::Ok(view.format_options)
}

/// A row that tells of a file decodes to it, exactly if its JSON can be read.
pub proof fn file_rows_decode(row: FileRow, u: Uuid, record: FileRecord)
    requires
        row_tells_file(row, u, record),
    ensures
        file_of(row) is Ok <==> json_readable(record.file),
        file_of(row) is Ok ==> shows(file_of(row)->Ok_0, u, record),
{
}

proof fn rows_decode_in_order(rows: Seq<FileRow>)
    requires
        forall|i: int| 0 <= i < rows.len() ==> file_of(#[trigger] rows[i]) is Ok,
    ensures
        files_of(rows) is Ok,
        files_of(rows)->Ok_0.len() == rows.len(),
        forall|i: int|
            0 <= i < rows.len() ==> #[trigger] files_of(rows)->Ok_0[i] == file_of(rows[i])->Ok_0,
    decreases rows.len(),
{
    if rows.len() > 0 {
        let few = rows.drop_last();
        assert forall|i: int| 0 <= i < few.len() implies file_of(#[trigger] few[i]) is Ok by {
            assert(few[i] == rows[i]);
        }
        rows_decode_in_order(few);
        assert(file_of(rows[rows.len() - 1]) is Ok);
        assert forall|i: int| 0 <= i < rows.len() implies #[trigger] files_of(rows)->Ok_0[i]
            == file_of(rows[i])->Ok_0 by {
            if i < few.len() {
                assert(files_of(few)->Ok_0[i] == file_of(few[i])->Ok_0);
            }
        }
    }
}

/// Reading a table shows the files that it has at the transaction, each once and as it is on
/// record, as long as they are no more than a query may find and their JSON can be read.
pub proof fn reads_show_the_files(
    db: Relations,
    table_uuid: Uuid,
    at: TxnId,
    rows: Seq<FileRow>,
)
    requires
        rows_tell_files(rows, db.files, files_at(db, table_uuid, at).dom()),
        rows.len() <= MAX_FILES_PER_QUERY,
        forall|u: Uuid| #[trigger]
            files_at(db, table_uuid, at).dom().contains(u) ==> json_readable(db.files[u].file),
    ensures
        ({
            let files = read_files_outcome(rows);
            &&& files is Ok
            &&& files->Ok_0.len() == rows.len()
            &&& forall|i: int|
                0 <= i < rows.len() ==> {
                    let u = (#[trigger] files->Ok_0[i]).file_uuid;
                    files_at(db, table_uuid, at).dom().contains(u) && shows(
                        files->Ok_0[i],
                        u,
                        db.files[u],
                    )
                }
            &&& forall|i: int, j: int|
                0 <= i < j < rows.len() ==> (#[trigger] files->Ok_0[i]).file_uuid != (
                #[trigger] files->Ok_0[j]).file_uuid
            &&& forall|u: Uuid| #[trigger]
                files_at(db, table_uuid, at).dom().contains(u) ==> exists|i: int|
                    0 <= i < rows.len() && (#[trigger] files->Ok_0[i]).file_uuid == u
        }),
{
    let wanted = files_at(db, table_uuid, at).dom();
    assert forall|i: int| 0 <= i < rows.len() implies file_of(#[trigger] rows[i]) is Ok && shows(
        file_of(rows[i])->Ok_0,
        row_id(rows[i]),
        db.files[row_id(rows[i])],
    ) by {
        assert(wanted.contains(row_id(rows[i])));
        file_rows_decode(rows[i], row_id(rows[i]), db.files[row_id(rows[i])]);
    }
    rows_decode_in_order(rows);
    let files = read_files_outcome(rows)->Ok_0;
    assert forall|i: int| 0 <= i < rows.len() implies (#[trigger] files[i]).file_uuid == row_id(
        rows[i],
    ) by {}
    assert forall|u: Uuid| #[trigger] wanted.contains(u) implies exists|i: int|
        0 <= i < rows.len() && (#[trigger] files[i]).file_uuid == u by {
        let i = choose|i: int| 0 <= i < rows.len() && row_id(#[trigger] rows[i]) == u;
        assert(files[i].file_uuid == u);
    }
}

/// A row tells what is on record of a column.
pub open spec fn row_tells_column(
    row: ColumnRow,
    schema_uuid: Uuid,
    column: ColumnInsertView,
) -> bool {
    &&& parsed_uuid(row.column_uuid@) == std::result::Result::<Uuid, ErrorView>::Ok(
        column.column_uuid,
    )
    &&& parsed_uuid(row.schema_uuid@) == std::result::Result::<Uuid, ErrorView>::Ok(schema_uuid)
    &&& row.column_name@ == column.name
    &&& row.column_type@ == column.encoded_type
    &&& row.ordinal_position == column.ordinal_position
    &&& row.is_nullable == column.is_nullable
}

/// A row tells what is on record of a schema.
pub open spec fn row_tells_schema(row: SchemaRow, u: Uuid, record: SchemaRecord) -> bool {
    &&& parsed_uuid(row.schema_uuid@) == std::result::Result::<Uuid, ErrorView>::Ok(u)
    &&& parsed_uuid(row.table_uuid@) == std::result::Result::<Uuid, ErrorView>::Ok(
        record.table_uuid,
    )
    &&& row.schema_version == record.schema_version
    &&& parsed_uuid(row.valid_from_transaction_id@) == std::result::Result::<Uuid, ErrorView>::Ok(
        record.valid_from,
    )
    &&& parsed_uuid_option(bytes_option(row.valid_to_transaction_id)) == std::result::Result::<
        Option<Uuid>,
        ErrorView,
    >::Ok(record.valid_to)
    &&& row.created_at == record.created_at
}

/// Rows tell of columns, in their order.
pub open spec fn rows_tell_columns(
    rows: Seq<ColumnRow>,
    schema_uuid: Uuid,
    columns: Seq<ColumnInsertView>,
) -> bool {
    &&& rows.len() == columns.len()
    &&& forall|i: int|
        0 <= i < rows.len() ==> row_tells_column(#[trigger] rows[i], schema_uuid, columns[i])
}

/// What is shown of a column is what is on record of it.
pub open spec fn shows_column(
    view: ColumnView,
    schema_uuid: Uuid,
    column: ColumnInsertView,
) -> bool {
    &&& view.column_uuid == column.column_uuid
    &&& view.schema_uuid == schema_uuid
    &&& view.column_name == column.name
    &&& decoded(column.encoded_type) == DecodeOutcome::Type(view.column_type)
    &&& view.ordinal_position == column.ordinal_position
    &&& view.is_nullable == column.is_nullable
}

/// What is shown of a schema is what is on record of it.
pub open spec fn shows_schema(
    view: SchemaView,
    u: Uuid,
    record: SchemaRecord,
    columns: Seq<ColumnInsertView>,
) -> bool {
    &&& view.schema_uuid == u
    &&& view.table_uuid == record.table_uuid
    &&& view.schema_version == record.schema_version
    &&& view.valid_from_transaction_id == record.valid_from
    &&& view.valid_to_transaction_id == record.valid_to
    &&& view.created_at == record.created_at
    &&& view.columns.len() == columns.len()
    &&& forall|i: int|
        0 <= i < columns.len() ==> shows_column(#[trigger] view.columns[i], u, columns[i])
}

proof fn decoded_columns_are_shown(
    rows: Seq<ColumnRow>,
    schema_uuid: Uuid,
    columns: Seq<ColumnInsertView>,
)
    requires
        rows_tell_columns(rows, schema_uuid, columns),
        columns_of(rows) is Done,
    ensures
        columns_of(rows)->Done_0.len() == columns.len(),
        forall|i: int|
            0 <= i < columns.len() ==> shows_column(
                #[trigger] columns_of(rows)->Done_0[i],
                schema_uuid,
                columns[i],
            ),
    decreases rows.len(),
{
    if rows.len() > 0 {
        let few = rows.drop_last();
        let fewer = columns.drop_last();
        assert forall|i: int| 0 <= i < few.len() implies row_tells_column(
            #[trigger] few[i],
            schema_uuid,
            fewer[i],
        ) by {
            assert(few[i] == rows[i]);
        }
        decoded_columns_are_shown(few, schema_uuid, fewer);
        let n = rows.len() - 1;
        assert(row_tells_column(rows[n], schema_uuid, columns[n]));
        assert forall|i: int| 0 <= i < columns.len() implies shows_column(
            #[trigger] columns_of(rows)->Done_0[i],
            schema_uuid,
            columns[i],
        ) by {
            if i < n {
                assert(columns_of(few)->Done_0[i] == columns_of(rows)->Done_0[i]);
            }
        }
    }
}

/// Rows that tell of a schema decode to it, if its columns decode.
pub proof fn schema_rows_decode(
    row: SchemaRow,
    rows: Seq<ColumnRow>,
    u: Uuid,
    record: SchemaRecord,
    columns: Seq<ColumnInsertView>,
)
    requires
        row_tells_schema(row, u, record),
        rows_tell_columns(rows, u, columns),
        columns_of(rows) is Done,
    ensures
        schema_of(u, row, columns_of(rows)->Done_0) matches Ok(view) && shows_schema(
            view,
            u,
            record,
            columns,
        ),
{
    decoded_columns_are_shown(rows, u, columns);
}

/// Reading a schema shows its columns, in their order and as they are on record, as long as their
/// types can be decoded.
pub proof fn reads_show_the_columns(
    schema_uuid: Uuid,
    columns: Seq<ColumnInsertView>,
    rows: Seq<ColumnRow>,
)
    requires
        rows.len() == columns.len(),
        forall|i: int|
            0 <= i < rows.len() ==> row_tells_column(#[trigger] rows[i], schema_uuid, columns[i]),
        forall|i: int|
            0 <= i < columns.len() ==> decoded((#[trigger] columns[i]).encoded_type) is Type,
    ensures
        columns_of(rows) == Outcome::Done(
            Seq::new(
                columns.len(),
                |i: int|
                    ColumnView {
                        column_uuid: columns[i].column_uuid,
                        schema_uuid,
                        column_name: columns[i].name,
                        column_type: decoded(columns[i].encoded_type)->Type_0,
                        ordinal_position: columns[i].ordinal_position,
                        is_nullable: columns[i].is_nullable,
                    },
            ),
        ),
    decreases rows.len(),
{
    let f = |i: int|
        ColumnView {
            column_uuid: columns[i].column_uuid,
            schema_uuid,
            column_name: columns[i].name,
            column_type: decoded(columns[i].encoded_type)->Type_0,
            ordinal_position: columns[i].ordinal_position,
            is_nullable: columns[i].is_nullable,
        };
    if rows.len() > 0 {
        let few = rows.drop_last();
        let fewer = columns.drop_last();
        assert forall|i: int| 0 <= i < few.len() implies row_tells_column(
            #[trigger] few[i],
            schema_uuid,
            fewer[i],
        ) by {
            assert(few[i] == rows[i]);
        }
        assert forall|i: int| 0 <= i < fewer.len() implies decoded(
            (#[trigger] fewer[i]).encoded_type,
        ) is Type by {
            assert(fewer[i] == columns[i]);
        }
        reads_show_the_columns(schema_uuid, fewer, few);
        let n = rows.len() - 1;
        assert(row_tells_column(rows[n], schema_uuid, columns[n]));
        assert(decoded(columns[n].encoded_type) is Type);
        assert(column_of(rows[n]) == Outcome::Done(f(n)));
        assert(Seq::new(columns.len(), f) =~= (columns_of(few)->Done_0).push(f(n)));
    } else {
        assert(Seq::new(columns.len(), f) =~= Seq::<ColumnView>::empty());
    }
}

/// The columns that a table was given are read back, in their order: each has its name, its type
/// and its position, which counts from 1, and is nullable as it was given. That the types come
/// back needs that they lose nothing in their encoding.
pub proof fn given_columns_are_read(
    schema_uuid: Uuid,
    given: Seq<ColumnSpecView>,
    ids: Seq<Uuid>,
    first: nat,
    rows: Seq<ColumnRow>,
)
    requires
        rows.len() == given.len(),
        given.len() <= MAX_COLUMNS_PER_SCHEMA,
        forall|i: int|
            0 <= i < rows.len() ==> row_tells_column(
                #[trigger] rows[i],
                schema_uuid,
                new_columns(given, ids, first)[i],
            ),
        types_read_back(given),
        forall|i: int|
            0 <= i < given.len() ==> readable(
                stored_field((#[trigger] given[i]).column_type),
            ),
    ensures
        ({
            let columns = columns_of(rows);
            &&& columns is Done
            &&& columns->Done_0.len() == given.len()
            &&& forall|i: int|
                0 <= i < given.len() ==> {
                    let c = #[trigger] columns->Done_0[i];
                    &&& c.column_uuid == ids[first + i]
                    &&& c.schema_uuid == schema_uuid
                    &&& c.column_name == given[i].name
                    &&& c.column_type == given[i].column_type
                    &&& c.ordinal_position == i + 1
                    &&& c.is_nullable == given[i].is_nullable
                }
        }),
{
    let columns = new_columns(given, ids, first);
    assert forall|i: int| 0 <= i < columns.len() implies decoded(
        (#[trigger] columns[i]).encoded_type,
    ) == DecodeOutcome::Type(given[i].column_type) by {
        assert(type_reads_back(given[i].column_type));
        assert(readable(stored_field(given[i].column_type)));
    }
    reads_show_the_columns(schema_uuid, columns, rows);
}

/// What is shown of a file is what was asked to be appended. The JSON comes back where it holds
/// nothing that its text would lose.
pub open spec fn shows_spec(view: FileView, spec_view: FileSpecView, id: TxnId) -> bool {
    &&& (spec_view.file_uuid matches Some(u) ==> view.file_uuid == u)
    &&& view.file_format == format_name(spec_view.file_format)
    &&& view.file_path == spec_view.file_path
    &&& view.record_count == spec_view.record_count
    &&& view.file_size_bytes == spec_view.file_size_bytes
    &&& view.added_in_transaction_id == id
    &&& view.removed_in_transaction_id is None
    &&& comes_back(spec_view.partition_values, view.partition_values)
    &&& comes_back(spec_view.format_options, view.format_options)
}

/// A JSON value comes back, where it holds nothing that its text would lose.
pub open spec fn comes_back(given: Option<JsonModel>, shown: Option<JsonModel>) -> bool {
    match given {
        None => shown is None,
        Some(m) => plain_json(m, 127) ==> shown == Some(m),
    }
}

/// Each file that is to be appended has its row.
pub proof fn each_file_has_its_row(specs: Seq<FileSpecView>, ids: Seq<Uuid>, used: nat)
    requires
        append_rows(specs, ids, used) is Done,
    ensures
        ({
            let rows = append_rows(specs, ids, used)->Done_0.0;
            &&& rows.len() == specs.len()
            &&& forall|k: int|
                0 <= k < specs.len() ==> row_has_spec(#[trigger] rows[k], specs[k])
        }),
    decreases specs.len(),
{
    if specs.len() > 0 {
        let few = specs.drop_last();
        each_file_has_its_row(few, ids, used);
        let rows = append_rows(specs, ids, used)->Done_0.0;
        let before = append_rows(few, ids, used)->Done_0.0;
        assert forall|k: int| 0 <= k < specs.len() implies row_has_spec(
            #[trigger] rows[k],
            specs[k],
        ) by {
            if k < few.len() {
                assert(rows[k] == before[k]);
                assert(row_has_spec(before[k], few[k]));
            }
        }
    }
}

/// A row to insert holds what was asked for.
pub open spec fn row_has_spec(row: FileInsertView, spec_view: FileSpecView) -> bool {
    &&& (spec_view.file_uuid matches Some(u) ==> row.file_uuid == u)
    &&& row.file_format == spec_view.file_format
    &&& row.file_path == spec_view.file_path
    &&& row.record_count == spec_view.record_count
    &&& row.file_size_bytes == spec_view.file_size_bytes
    &&& serialized_option(spec_view.partition_values) == std::result::Result::<
        Option<Seq<char>>,
        ErrorView,
    >::Ok(row.partition_values)
    &&& serialized_option(spec_view.format_options) == std::result::Result::<
        Option<Seq<char>>,
        ErrorView,
    >::Ok(row.format_options)
}

/// Each row that is inserted is on record then.
pub proof fn inserted_rows_stay(
    files: Map<Uuid, FileRecord>,
    table_uuid: Uuid,
    id: TxnId,
    rows: Seq<FileInsertView>,
    k: int,
)
    requires
        files_inserted(files, table_uuid, id, rows) is Some,
        0 <= k < rows.len(),
    ensures
        ({
            let after = files_inserted(files, table_uuid, id, rows)->0;
            after.dom().contains(rows[k].file_uuid) && after[rows[k].file_uuid] == (FileRecord {
                table_uuid,
                added: id,
                removed: None,
                file: rows[k],
            })
        }),
    decreases rows.len(),
{
    if k < rows.len() - 1 {
        inserted_rows_stay(files, table_uuid, id, rows.drop_last(), k);
        assert(rows.drop_last()[k] == rows[k]);
    }
}

/// Rows that decode do so each for itself.
pub proof fn decoded_rows_are_sound(rows: Seq<FileRow>)
    requires
        files_of(rows) is Ok,
    ensures
        files_of(rows)->Ok_0.len() == rows.len(),
        forall|i: int|
            0 <= i < rows.len() ==> file_of(#[trigger] rows[i]) is Ok && files_of(rows)->Ok_0[i]
                == file_of(rows[i])->Ok_0,
    decreases rows.len(),
{
    if rows.len() > 0 {
        let few = rows.drop_last();
        decoded_rows_are_sound(few);
        assert forall|i: int| 0 <= i < rows.len() implies file_of(#[trigger] rows[i]) is Ok
            && files_of(rows)->Ok_0[i] == file_of(rows[i])->Ok_0 by {
            if i < few.len() {
                assert(few[i] == rows[i]);
            }
        }
    }
}

/// Statistics are read as they are stored: a row of a table at a transaction gives those of that
/// table and transaction, and each number is the one of its name. Where no row is stored there are
/// none.
pub proof fn statistics_are_read_as_stored(row: StatsRow, table_uuid: Uuid, transaction_id: TxnId)
    requires
        parsed_uuid(row.table_uuid@) == std::result::Result::<Uuid, ErrorView>::Ok(table_uuid),
        parsed_uuid(row.transaction_id@) == std::result::Result::<Uuid, ErrorView>::Ok(
            transaction_id,
        ),
    ensures
        read_stats_outcome(None) == std::result::Result::<Option<TableStats>, ErrorView>::Ok(None),
        read_stats_outcome(Some(row)) matches Ok(Some(stats)) && stats.table_uuid == table_uuid
            && stats.transaction_id == transaction_id && stats.record_count == row.record_count
            && stats.file_size_bytes == row.file_size_bytes && stats.file_count == row.file_count
            && stats.last_updated == row.last_updated,
{
}

} // verus!
