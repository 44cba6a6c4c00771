//! Creating, listing and dropping tables.

use vstd::prelude::*;
use vstd::string::*;

use super::commit::{
    all_storable, insert_columns, insert_columns_statements, new_columns, no_current_transaction,
    prepare_columns, table_not_found, types_read_back,
};
use super::database::DbKind;
use super::error::{tells, CatalogError, ErrorView, Refusal, Result};
use super::helpers::{
    bytes_option, json_reads_back, parsed_uuid_option, serialize_json, serialized, uuid_from_row_optional,
};
use super::history::{creation_statements_fit, fit};
use super::limits::MAX_TABLES_PER_LIST;
use super::models::{ident_text, schema_flaw, SchemaSpec, TableIdent, TableProperties, TxnId};
use super::protocol::ProtocolVersions;
use super::rows::{Outcome, Verdict};
use super::statements::{statement_views, Statement, StatementView};
use crate::ids::{all_random, Uuid};
use crate::json::{JsonModel, JsonObject};
use crate::text::{decimal, decimal_text, joined};
use crate::time::Timestamp;

verus! {

/// The version of a table's first schema.
pub const INITIAL_SCHEMA_VERSION: i32 = 1;

/// A table to create.
#[derive(Debug)]
pub struct CreateRequest<'a> {
    /// Database backend.
    pub db: DbKind,
    /// Protocol versions of the client, which the table then requires.
    pub protocol: ProtocolVersions,
    /// Table identifier.
    pub ident: &'a TableIdent,
    /// Storage location.
    pub location: &'a str,
    /// Schema.
    pub schema: &'a SchemaSpec,
    /// Properties, if any.
    pub properties: Option<&'a TableProperties>,
    /// The first transaction of the table.
    pub transaction_id: TxnId,
    /// Creation timestamp.
    pub created_at: Timestamp,
    /// Fresh UUIDs: for the table, its schema and the columns.
    pub ids: &'a Vec<Uuid>,
}

/// The properties that a table is created with.
pub open spec fn given_properties(properties: Option<&TableProperties>) -> JsonObject {
    match properties {
        Some(p) => p@,
        None => JsonObject::empty(),
    }
}

/// The statements that create a table: the table, its first transaction with the properties, its
/// schema with the columns, and then the schema and the transaction as its current ones.
pub open spec fn create_statements(
    request: CreateRequest,
    properties: Seq<char>,
) -> Seq<StatementView> {
    let table_uuid = request.ids@[0];
    let schema_uuid = request.ids@[1];
    seq![
        StatementView::InsertTable {
            table_uuid,
            name: request.ident.name@,
            namespace: request.ident.namespace@,
            location: request.location@,
            created_at: request.created_at,
            properties,
            min_reader_version: request.protocol.reader,
            min_writer_version: request.protocol.writer,
        },
        StatementView::InsertTransaction {
            transaction_id: request.transaction_id,
            table_uuid,
            timestamp: request.created_at,
            parent: None,
        },
        StatementView::InsertProperties {
            transaction_id: request.transaction_id,
            table_uuid,
            properties,
        },
        StatementView::InsertSchema {
            schema_uuid,
            table_uuid,
            schema_version: INITIAL_SCHEMA_VERSION,
            valid_from: request.transaction_id,
            created_at: request.created_at,
        },
    ] + insert_columns(
        request.db,
        schema_uuid,
        new_columns(request.schema@, request.ids@, 2),
    ) + seq![
        StatementView::SetHead {
            table_uuid,
            schema_uuid,
            transaction_id: request.transaction_id,
        },
    ]
}

/// What comes of creating a table. `exists` tells whether there is a table of that name.
pub open spec fn create_outcome(request: CreateRequest, exists: bool) -> Outcome<
    Seq<StatementView>,
> {
    match schema_flaw(request.schema@) {
        Some(e) => Outcome::Refused(Refusal::Exact(e)),
        None => if exists {
            Outcome::Refused(
                Refusal::Exact(
                    ErrorView::Conflict("table already exists: "@ + ident_text(*request.ident)),
                ),
            )
        } else {
            match serialized(JsonModel::Object(given_properties(request.properties))) {
                Err(e) => Outcome::Refused(Refusal::Exact(e)),
                Ok(properties) => if !all_storable(request.schema@) {
                    Outcome::Panics
                } else {
                    Outcome::Done(create_statements(request, properties))
                },
            }
        },
    }
}

/// Plans the creation of a table. The properties and the types of the columns can be read back
/// from how they are stored, and no statement has more parameters than the backend allows.
pub fn plan_create_table(request: &CreateRequest, exists: bool) -> (r: Verdict<Vec<Statement>>)
    requires
        request.ids@.len() >= 2 + request.schema@.len(),
    ensures
        ({
            let wanted = create_outcome(*request, exists);
            match r {
                Verdict::Done(statements) => wanted == Outcome::Done(
                    statement_views(statements@),
                ) && fit(request.db, statement_views(statements@)) && types_read_back(
                    request.schema@,
                ) && json_reads_back(
                    JsonModel::Object(given_properties(request.properties)),
                ),
                Verdict::Refused(e) => wanted is Refused && tells(e, wanted->Refused_0),
                Verdict::Panics => wanted is Panics,
            }
        }),
{
    proof {
        creation_statements_fit(*request, exists);
    }
    match request.schema.validate() {
        Ok(_) => {},
        Err(e) => return Verdict::Refused(e),
    }
    if exists {
        return Verdict::Refused(
            CatalogError::Conflict(
                joined("table already exists: ", request.ident.to_string().as_str()),
            ),
        );
    }
    let json = match request.properties {
        Some(p) => p.to_json(),
        None => TableProperties::default().to_json(),
    };
    let properties = match serialize_json(&json) {
        Ok(text) => text,
        Err(e) => return Verdict::Refused(e),
    };
    let table_uuid = request.ids[0];
    let schema_uuid = request.ids[1];
    let rows = match prepare_columns(&request.schema.columns, request.ids, 2) {
        Some(rows) => rows,
        None => return Verdict::Panics,
    };
    let mut columns = insert_columns_statements(request.db, schema_uuid, rows);
    let ghost column_part = statement_views(columns@);
    let kept = properties.clone();
    let mut statements: Vec<Statement> = Vec::new();
    statements.push(
        Statement::InsertTable {
            table_uuid,
            name: request.ident.name.clone(),
            namespace: request.ident.namespace.clone(),
            location: String::from_str(request.location),
            created_at: request.created_at,
            properties,
            min_reader_version: request.protocol.reader,
            min_writer_version: request.protocol.writer,
        },
    );
    statements.push(
        Statement::InsertTransaction {
            transaction_id: request.transaction_id,
            table_uuid,
            timestamp: request.created_at,
            parent: None,
        },
    );
    statements.push(
        Statement::InsertProperties {
            transaction_id: request.transaction_id,
            table_uuid,
            properties: kept,
        },
    );
    statements.push(
        Statement::InsertSchema {
            schema_uuid,
            table_uuid,
            schema_version: INITIAL_SCHEMA_VERSION,
            valid_from: request.transaction_id,
            created_at: request.created_at,
        },
    );
    statements.append(&mut columns);
    statements.push(
        Statement::SetHead { table_uuid, schema_uuid, transaction_id: request.transaction_id },
    );
    assert(statement_views(statements@) =~= create_statements(*request, properties@));
    Verdict::Done(statements)
}

/// Draws as many fresh UUIDs as the creation of a table takes.
pub fn draw_table_ids(schema: &SchemaSpec) -> (r: Vec<Uuid>)
    ensures
        r@.len() == 2 + schema@.len(),
        all_random(r@),
{
    let mut ids: Vec<Uuid> = Vec::new();
    ids.push(Uuid::new_v4());
    ids.push(Uuid::new_v4());
    for i in 0..schema.columns.len()
        invariant
            ids@.len() == 2 + i,
            all_random(ids@),
    {
        ids.push(Uuid::new_v4());
    }
    ids
}

/// Takes the tables that a listing found, of which it asks for one more than the limit.
pub fn collect_tables(rows: Vec<(String, String)>) -> (r: Result<Vec<TableIdent>>)
    ensures
        r is Ok <==> rows@.len() <= 10_000,
        match r {
            Ok(tables) => rows@.len() <= MAX_TABLES_PER_LIST && tables@.len() == rows@.len() && (
            forall|i: int|
                0 <= i < rows@.len() ==> (#[trigger] tables@[i]).namespace@ == rows@[i].0@
                    && tables@[i].name@ == rows@[i].1@),
            Err(e) => rows@.len() > MAX_TABLES_PER_LIST && e@ == ErrorView::LimitExceeded(
                "table count exceeds limit of "@ + decimal_text(MAX_TABLES_PER_LIST as nat),
            ),
        },
{
    if rows.len() > MAX_TABLES_PER_LIST as usize {
        return Err(
            CatalogError::LimitExceeded(
                joined(
                    "table count exceeds limit of ",
                    decimal(MAX_TABLES_PER_LIST as u64).as_str(),
                ),
            ),
        );
    }
    let ghost all = rows@;
    let mut tables: Vec<TableIdent> = Vec::new();
    for row in it: rows
        invariant
            it.seq() == all,
            tables@.len() == it.index(),
            forall|i: int|
                0 <= i < it.index() ==> (#[trigger] tables@[i]).namespace@ == all[i].0@
                    && tables@[i].name@ == all[i].1@,
    {
        let (namespace, name) = row;
        tables.push(TableIdent { namespace, name });
    }
    Ok(tables)
}

/// What comes of dropping a table, from the number of tables that went.
pub open spec fn drop_outcome(ident: TableIdent, affected: nat) -> std::result::Result<
    (),
    ErrorView,
> {
    if affected == 0 {
        Err(table_not_found(ident))
    } else {
        Ok(())
    }
}

/// Tells whether a table was dropped, from the number of rows that went.
pub fn check_dropped(ident: &TableIdent, affected: u64) -> (r: Result<()>)
    ensures
        match r {
            Ok(_) => drop_outcome(*ident, affected as nat) is Ok,
            Err(e) => drop_outcome(*ident, affected as nat) == std::result::Result::<
                (),
                ErrorView,
            >::Err(e@),
        },
{
    if affected == 0 {
        return Err(CatalogError::NotFound(ident.to_string()));
    }
    Ok(())
}

/// What comes of asking for the current transaction of a table. `row` holds the column of its
/// current transaction, if the table is there.
pub open spec fn current_transaction_of(
    ident: TableIdent,
    row: Option<Option<Vec<u8>>>,
) -> std::result::Result<TxnId, ErrorView> {
    match row {
        None => Err(table_not_found(ident)),
        Some(bytes) => match parsed_uuid_option(bytes_option(bytes)) {
            Err(e) => Err(e),
            Ok(None) => Err(no_current_transaction()),
            Ok(Some(id)) => Ok(id),
        },
    }
}

/// Reads the current transaction of a table.
pub fn current_transaction(ident: &TableIdent, row: &Option<Option<Vec<u8>>>) -> (r: Result<TxnId>)
    ensures
        match r {
            Ok(id) => current_transaction_of(*ident, *row) == std::result::Result::<
                TxnId,
                ErrorView,
            >::Ok(id),
            Err(e) => current_transaction_of(*ident, *row) == std::result::Result::<
                TxnId,
                ErrorView,
            >::Err(e@),
        },
{
    match row {
        None => Err(CatalogError::NotFound(ident.to_string())),
        Some(bytes) => match uuid_from_row_optional(bytes) {
            Err(e) => Err(e),
            Ok(None) => Err(
                CatalogError::InvalidArgument(String::from_str("table has no current transaction")),
            ),
            Ok(Some(id)) => Ok(id),
        },
    }
}

} // verus!
