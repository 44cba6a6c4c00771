//! Committing a mutation: the statements that carry it out, or why it is refused.

use vstd::prelude::*;
use vstd::string::*;

use super::data_type::{encode_data_type, is_encodable, storable, stored_bytes, type_reads_back};
use super::database::DbKind;
use super::error::{tells, CatalogError, ErrorView, Refusal, Result};
use super::evolution::{
    check_schema_change, current_of, decode_current, schema_change_flaw, CurrentSchema,
};
use super::helpers::{
    bytes_option, json_reads_back, parse_table_properties, parsed_properties, parsed_uuid, parsed_uuid_option,
    serialize_json, serialize_json_optional, serialized, serialized_option, text_option,
    uuid_from_row, uuid_from_row_optional,
};
use super::history::{commit_statements_fit, fit};
use super::limits::{
    batch_insert_columns_chunk, columns_chunk, BATCH_DELETE_FILES_CHUNK,
    BATCH_INSERT_FILES_CHUNK, MAX_COLUMNS_PER_SCHEMA, MAX_FILES_PER_APPEND, MAX_FILES_PER_DELETE,
    MAX_OPERATIONS_PER_MUTATION, MAX_PROPERTY_KEYS_TO_REMOVE,
};
use super::models::{
    ident_text, schema_flaw, ColumnSpec, ColumnSpecView, PropertyKey, SchemaSpec, TableIdent,
    TableProperties, TxnId,
};
use super::mutation::{
    file_judgement, key_texts, ops_flaw, FileSpec, FileSpecView, Judgement, Mutation, MutationOp,
    OpView,
};
use super::protocol::{protocol_flaw, ProtocolVersions};
use super::rows::{Outcome, TableRow, Verdict};
use super::statements::{
    chunked, chunks, chunks_of_views, column_rows, file_rows, inner_seqs, statement_views,
    ColumnInsert, ColumnInsertView, FileInsert, FileInsertView, Statement, StatementView,
};
use crate::ids::{all_random, hyphenated, Uuid};
use crate::json::{JsonModel, JsonObject};
use crate::text::{decimal, decimal_text, joined, joined3};
use crate::time::Timestamp;

verus! {

/// The refusal of more items than a limit.
pub open spec fn over_limit(
    before: Seq<char>,
    count: nat,
    between: Seq<char>,
    limit: u32,
) -> ErrorView {
    ErrorView::LimitExceeded(before + decimal_text(count) + between + decimal_text(limit as nat))
}

pub(crate) fn over_limit_error(before: &str, count: usize, between: &str, limit: u32) -> (r:
    CatalogError)
    ensures
        r@ == over_limit(before@, count as nat, between@, limit),
{
    let mut text = joined3(before, decimal(count as u64).as_str(), between);
    text.append(decimal(limit as u64).as_str());
    CatalogError::LimitExceeded(text)
}

/// The refusal of an operation on a table that is not there.
pub open spec fn table_not_found(ident: TableIdent) -> ErrorView {
    ErrorView::NotFound(ident_text(ident))
}

/// The refusal of an operation on a table without a transaction.
pub open spec fn no_current_transaction() -> ErrorView {
    ErrorView::InvalidArgument("table has no current transaction"@)
}

/// The refusal of a mutation before the table is looked at, if it is refused.
pub open spec fn mutation_flaw(ops: Seq<OpView>) -> Option<ErrorView> {
    if ops.len() == 0 {
        Some(ErrorView::InvalidArgument("mutation has no operations"@))
    } else if ops.len() > MAX_OPERATIONS_PER_MUTATION {
        Some(
            over_limit(
                "mutation has "@,
                ops.len(),
                " operations, exceeds limit of "@,
                MAX_OPERATIONS_PER_MUTATION,
            ),
        )
    } else {
        ops_flaw(ops)
    }
}

/// Checks a mutation before the table is looked at.
pub fn check_mutation(mutation: &Mutation) -> (r: Result<()>)
    ensures
        match r {
            Ok(_) => mutation_flaw(mutation@) is None,
            Err(e) => mutation_flaw(mutation@) == Some(e@),
        },
{
    if mutation.operations.len() == 0 {
        return Err(
            CatalogError::InvalidArgument(String::from_str("mutation has no operations")),
        );
    }
    if mutation.operations.len() > MAX_OPERATIONS_PER_MUTATION as usize {
        return Err(
            over_limit_error(
                "mutation has ",
                mutation.operations.len(),
                " operations, exceeds limit of ",
                MAX_OPERATIONS_PER_MUTATION,
            ),
        );
    }
    mutation.validate()
}

/// A table that is ready to be committed to.
#[verifier::ext_equal]
pub struct BaseView {
    /// Table UUID.
    pub table_uuid: Uuid,
    /// Current schema.
    pub current_schema_uuid: Option<Uuid>,
    /// Current transaction.
    pub current_transaction_id: Uuid,
    /// Properties.
    pub properties: JsonObject,
}

/// The refusal of a commit on a transaction that is no longer current.
pub open spec fn base_conflict(base: TxnId, current: TxnId) -> ErrorView {
    ErrorView::Conflict(
        "base transaction "@ + hyphenated(base.value as nat) + " does not match current "@
            + hyphenated(current.value as nat),
    )
}

/// The refusal of a transaction that does not come after the current one.
pub open spec fn out_of_order(id: TxnId, current: TxnId) -> ErrorView {
    ErrorView::Conflict(
        "transaction "@ + hyphenated(id.value as nat) + " does not come after current "@
            + hyphenated(current.value as nat),
    )
}

/// What comes of looking at the table to commit to. A commit on a base transaction other than the
/// current one is a conflict.
pub open spec fn base_of(
    protocol: ProtocolVersions,
    ident: TableIdent,
    base: TxnId,
    row: Option<TableRow>,
) -> std::result::Result<BaseView, ErrorView> {
    match row {
        None => Err(table_not_found(ident)),
        Some(row) => match parsed_uuid(row.table_uuid@) {
            Err(e) => Err(e),
            Ok(table_uuid) => match parsed_uuid_option(bytes_option(row.current_schema_uuid)) {
                Err(e) => Err(e),
                Ok(current_schema_uuid) => match parsed_uuid_option(
                    bytes_option(row.current_transaction_id),
                ) {
                    Err(e) => Err(e),
                    Ok(current) => match parsed_properties(text_option(row.properties)) {
                        Err(e) => Err(e),
                        Ok(properties) => match protocol_flaw(
                            "write"@,
                            ident,
                            protocol.writer,
                            row.min_writer_version,
                        ) {
                            Some(e) => Err(e),
                            None => match current {
                                None => Err(no_current_transaction()),
                                Some(current) => if current != base {
                                    Err(base_conflict(base, current))
                                } else {
                                    Ok(
                                        BaseView {
                                            table_uuid,
                                            current_schema_uuid,
                                            current_transaction_id: current,
                                            properties,
                                        },
                                    )
                                },
                            },
                        },
                    },
                },
            },
        },
    }
}

/// A table that is ready to be committed to.
#[derive(Debug)]
pub struct CommitBase {
    /// Table UUID.
    pub table_uuid: Uuid,
    /// Current schema.
    pub current_schema_uuid: Option<Uuid>,
    /// Current transaction.
    pub current_transaction_id: Uuid,
    /// Properties.
    pub properties: TableProperties,
}

impl View for CommitBase {
    type V = BaseView;

    open spec fn view(&self) -> BaseView {
        BaseView {
            table_uuid: self.table_uuid,
            current_schema_uuid: self.current_schema_uuid,
            current_transaction_id: self.current_transaction_id,
            properties: self.properties@,
        }
    }
}

/// Looks at the table to commit to.
pub fn open_commit(
    protocol: &ProtocolVersions,
    ident: &TableIdent,
    base_transaction_id: TxnId,
    row: &Option<TableRow>,
) -> (r: Result<CommitBase>)
    ensures
        match r {
            Ok(base) => base_of(*protocol, *ident, base_transaction_id, *row)
                == std::result::Result::<BaseView, ErrorView>::Ok(base@),
            Err(e) => base_of(*protocol, *ident, base_transaction_id, *row)
                == std::result::Result::<BaseView, ErrorView>::Err(e@),
        },
{
    let row = match row {
        Some(row) => row,
        None => return Err(CatalogError::NotFound(ident.to_string())),
    };
    let table_uuid = match uuid_from_row(&row.table_uuid) {
        Ok(u) => u,
        Err(e) => return Err(e),
    };
    let current_schema_uuid = match uuid_from_row_optional(&row.current_schema_uuid) {
        Ok(u) => u,
        Err(e) => return Err(e),
    };
    let current = match uuid_from_row_optional(&row.current_transaction_id) {
        Ok(u) => u,
        Err(e) => return Err(e),
    };
    let text = match &row.properties {
        Some(text) => Some(text.clone()),
        None => None,
    };
    let properties = match parse_table_properties(text) {
        Ok(p) => p,
        Err(e) => return Err(e),
    };
    match protocol.ensure_writer_protocol_compatible(ident, row.min_writer_version) {
        Ok(_) => {},
        Err(e) => return Err(e),
    }
    let current_transaction_id = match current {
        Some(u) => u,
        None => return Err(
            CatalogError::InvalidArgument(String::from_str("table has no current transaction")),
        ),
    };
    if current_transaction_id != base_transaction_id {
        let mut text = joined("base transaction ", base_transaction_id.to_string().as_str());
        text.append(" does not match current ");
        text.append(current_transaction_id.to_string().as_str());
        return Err(CatalogError::Conflict(text));
    }
    Ok(CommitBase { table_uuid, current_schema_uuid, current_transaction_id, properties })
}

/// What a commit works with besides its operations.
#[derive(Debug)]
pub struct CommitEnv<'a> {
    /// Database backend.
    pub db: DbKind,
    /// Table UUID.
    pub table_uuid: Uuid,
    /// The schema that the table has before the commit.
    pub current_schema_uuid: Option<Uuid>,
    /// The transaction of the commit.
    pub transaction_id: TxnId,
    /// Timestamp of the transaction.
    pub timestamp: Timestamp,
    /// Fresh UUIDs, taken in their order.
    pub ids: &'a Vec<Uuid>,
    /// The rows of the current schema, once they have been asked for.
    pub schema: Option<&'a CurrentSchema>,
}

/// How far a commit has come.
#[verifier::ext_equal]
pub struct PlanView {
    /// Statements so far.
    pub statements: Seq<StatementView>,
    /// Fresh UUIDs taken so far.
    pub used: nat,
    /// Schema of the table.
    pub schema_uuid: Option<Uuid>,
    /// Properties of the table.
    pub properties: JsonObject,
}

/// What comes of one operation of a commit.
#[verifier::ext_equal]
pub enum StepOutcome {
    /// The commit goes on.
    Next(PlanView),
    /// The rows of the current schema are needed.
    NeedsSchema(Uuid),
    /// The commit is refused.
    Refused(Refusal),
    /// An outer library panics on what the commit would hand it.
    Panics,
}

/// What comes of preparing files to be inserted: each is checked, given a fresh UUID if it has
/// none, and has its JSON written as text.
pub open spec fn append_rows(files: Seq<FileSpecView>, ids: Seq<Uuid>, used: nat) -> Outcome<
    (Seq<FileInsertView>, nat),
>
    decreases files.len(),
{
    if files.len() == 0 {
        Outcome::Done((Seq::empty(), used))
    } else {
        match append_rows(files.drop_last(), ids, used) {
            Outcome::Done((rows, used)) => {
                let file = files.last();
                match file_judgement(file) {
                    Judgement::Panics => Outcome::Panics,
                    Judgement::Refused(e) => Outcome::Refused(Refusal::Exact(e)),
                    Judgement::Fine => match serialized_option(file.partition_values) {
                        Err(e) => Outcome::Refused(Refusal::Exact(e)),
                        Ok(partition_values) => match serialized_option(file.format_options) {
                            Err(e) => Outcome::Refused(Refusal::Exact(e)),
                            Ok(format_options) => Outcome::Done(
                                (
                                    rows.push(
                                        FileInsertView {
                                            file_uuid: match file.file_uuid {
                                                Some(u) => u,
                                                None => ids[used as int],
                                            },
                                            file_format: file.file_format,
                                            file_path: file.file_path,
                                            record_count: file.record_count,
                                            file_size_bytes: file.file_size_bytes,
                                            partition_values,
                                            format_options,
                                        },
                                    ),
                                    match file.file_uuid {
                                        Some(_) => used,
                                        None => used + 1,
                                    },
                                ),
                            ),
                        },
                    },
                }
            },
            Outcome::Refused(why) => Outcome::Refused(why),
            Outcome::Panics => Outcome::Panics,
        }
    }
}

proof fn append_rows_stops(files: Seq<FileSpecView>, ids: Seq<Uuid>, used: nat, n: nat)
    requires
        n <= files.len(),
        !(append_rows(files.take(n as int), ids, used) is Done),
    ensures
        append_rows(files, ids, used) == append_rows(files.take(n as int), ids, used),
    decreases files.len(),
{
    if n == files.len() {
        assert(files.take(n as int) =~= files);
    } else {
        assert(files.drop_last().take(n as int) =~= files.take(n as int));
        append_rows_stops(files.drop_last(), ids, used, n);
    }
}

/// The statements that insert files.
pub open spec fn insert_files(
    table_uuid: Uuid,
    transaction_id: TxnId,
    rows: Seq<FileInsertView>,
) -> Seq<StatementView> {
    chunks(rows, BATCH_INSERT_FILES_CHUNK as nat).map_values(
        |c: Seq<FileInsertView>|
            StatementView::InsertFiles { table_uuid, transaction_id, rows: c },
    )
}

/// The statements that mark files as removed.
pub open spec fn delete_files(
    table_uuid: Uuid,
    transaction_id: TxnId,
    file_uuids: Seq<Uuid>,
) -> Seq<StatementView> {
    chunks(file_uuids, BATCH_DELETE_FILES_CHUNK as nat).map_values(
        |c: Seq<Uuid>|
            StatementView::DeleteFiles { table_uuid, transaction_id, file_uuids: c },
    )
}

/// The rows for the columns of a new schema. The first has position 1, and each has a fresh UUID.
pub open spec fn new_columns(
    columns: Seq<ColumnSpecView>,
    ids: Seq<Uuid>,
    first: nat,
) -> Seq<ColumnInsertView> {
    Seq::new(
        columns.len(),
        |i: int|
            ColumnInsertView {
                column_uuid: ids[first + i],
                name: columns[i].name,
                encoded_type: stored_bytes(columns[i].column_type),
                ordinal_position: (i + 1) as i32,
                is_nullable: columns[i].is_nullable,
            },
    )
}

/// The statements that insert columns.
pub open spec fn insert_columns(
    db: DbKind,
    schema_uuid: Uuid,
    rows: Seq<ColumnInsertView>,
) -> Seq<StatementView> {
    chunks(rows, columns_chunk(db) as nat).map_values(
        |c: Seq<ColumnInsertView>| StatementView::InsertColumns { schema_uuid, rows: c },
    )
}

/// No column has a type that cannot be stored.
pub open spec fn all_storable(columns: Seq<ColumnSpecView>) -> bool {
    forall|i: int| 0 <= i < columns.len() ==> storable((#[trigger] columns[i]).column_type)
}

/// The types of columns are read back from how they are stored.
pub open spec fn types_read_back(columns: Seq<ColumnSpecView>) -> bool {
    forall|i: int| 0 <= i < columns.len() ==> type_reads_back((#[trigger] columns[i]).column_type)
}

/// The JSON of files is read back from how it is stored.
pub open spec fn files_read_back(files: Seq<FileSpecView>) -> bool {
    forall|i: int|
        0 <= i < files.len() ==> ((#[trigger] files[i]).partition_values matches Some(m)
            ==> json_reads_back(m)) && (files[i].format_options matches Some(m) ==> json_reads_back(
            m,
        ))
}

/// What an operation writes is read back from how it is stored.
pub open spec fn op_reads_back(op: OpView) -> bool {
    match op {
        OpView::AppendFiles(files) => files_read_back(files),
        OpView::UpdateSchema(columns) => types_read_back(columns),
        _ => true,
    }
}

/// What operations write is read back from how it is stored.
pub open spec fn ops_read_back(ops: Seq<OpView>) -> bool {
    forall|i: int| 0 <= i < ops.len() ==> op_reads_back(#[trigger] ops[i])
}

/// What comes of giving the table a new schema.
pub open spec fn update_schema(env: CommitEnv, st: PlanView, columns: Seq<ColumnSpecView>) -> StepOutcome {
    match schema_flaw(columns) {
        Some(e) => StepOutcome::Refused(Refusal::Exact(e)),
        None => match env.current_schema_uuid {
            None => StepOutcome::Refused(
                Refusal::Exact(
                    ErrorView::InvalidArgument("cannot update schema without a current schema"@),
                ),
            ),
            Some(current_schema_uuid) => match env.schema {
                None => StepOutcome::NeedsSchema(current_schema_uuid),
                Some(schema) => match current_of(schema.columns@) {
                    Outcome::Panics => StepOutcome::Panics,
                    Outcome::Refused(why) => StepOutcome::Refused(why),
                    Outcome::Done(current) => match schema_change_flaw(current, columns) {
                        Some(why) => StepOutcome::Refused(why),
                        None => if schema.schema_version == i32::MAX || !all_storable(columns) {
                            StepOutcome::Panics
                        } else {
                            let schema_uuid = env.ids@[st.used as int];
                            StepOutcome::Next(
                                PlanView {
                                    statements: st.statements + seq![
                                        StatementView::InsertSchema {
                                            schema_uuid,
                                            table_uuid: env.table_uuid,
                                            schema_version: (schema.schema_version + 1) as i32,
                                            valid_from: env.transaction_id,
                                            created_at: env.timestamp,
                                        },
                                        StatementView::CloseSchema {
                                            schema_uuid: current_schema_uuid,
                                            valid_to: env.transaction_id,
                                        },
                                    ] + insert_columns(
                                        env.db,
                                        schema_uuid,
                                        new_columns(columns, env.ids@, st.used + 1),
                                    ),
                                    used: st.used + 1 + columns.len(),
                                    schema_uuid: Some(schema_uuid),
                                    ..st
                                },
                            )
                        },
                    },
                },
            },
        },
    }
}

/// Properties without those that have one of the keys.
pub open spec fn without_keys(properties: JsonObject, keys: Seq<Seq<char>>) -> JsonObject {
    Map::new(
        |k: Seq<char>| properties.dom().contains(k) && !keys.contains(k),
        |k: Seq<char>| properties[k],
    )
}

/// What comes of one operation of a commit.
#[verifier::opaque]
pub open spec fn apply_op(env: CommitEnv, st: PlanView, op: OpView) -> StepOutcome {
    match op {
        OpView::AppendFiles(files) => if files.len() > MAX_FILES_PER_APPEND {
            StepOutcome::Refused(
                Refusal::Exact(
                    over_limit(
                        "cannot append "@,
                        files.len(),
                        " files, exceeds limit of "@,
                        MAX_FILES_PER_APPEND,
                    ),
                ),
            )
        } else {
            match append_rows(files, env.ids@, st.used) {
                Outcome::Panics => StepOutcome::Panics,
                Outcome::Refused(why) => StepOutcome::Refused(why),
                Outcome::Done((rows, used)) => StepOutcome::Next(
                    PlanView {
                        statements: st.statements + insert_files(
                            env.table_uuid,
                            env.transaction_id,
                            rows,
                        ),
                        used,
                        ..st
                    },
                ),
            }
        },
        OpView::DeleteFiles(uuids) => if uuids.len() > MAX_FILES_PER_DELETE {
            StepOutcome::Refused(
                Refusal::Exact(
                    over_limit(
                        "cannot delete "@,
                        uuids.len(),
                        " files, exceeds limit of "@,
                        MAX_FILES_PER_DELETE,
                    ),
                ),
            )
        } else {
            StepOutcome::Next(
                PlanView {
                    statements: st.statements + delete_files(
                        env.table_uuid,
                        env.transaction_id,
                        uuids,
                    ),
                    ..st
                },
            )
        },
        OpView::UpdateSchema(columns) => update_schema(env, st, columns),
        OpView::SetProperties(properties) => StepOutcome::Next(PlanView { properties, ..st }),
        OpView::RemoveProperties(keys) => if keys.len() > MAX_PROPERTY_KEYS_TO_REMOVE {
            StepOutcome::Refused(
                Refusal::Exact(
                    over_limit(
                        "cannot remove "@,
                        keys.len(),
                        " property keys, exceeds limit of "@,
                        MAX_PROPERTY_KEYS_TO_REMOVE,
                    ),
                ),
            )
        } else {
            StepOutcome::Next(
                PlanView { properties: without_keys(st.properties, keys), ..st },
            )
        },
    }
}

/// What comes of the operations of a commit, one after the other, up to the first that stops it.
pub open spec fn apply_ops(env: CommitEnv, st: PlanView, ops: Seq<OpView>) -> StepOutcome
    decreases ops.len(),
{
    if ops.len() == 0 {
        StepOutcome::Next(st)
    } else {
        match apply_ops(env, st, ops.drop_last()) {
            StepOutcome::Next(st) => apply_op(env, st, ops.last()),
            stopped => stopped,
        }
    }
}

/// Operations that stop a commit stop it whatever comes after them.
pub proof fn apply_ops_stops(env: CommitEnv, st: PlanView, ops: Seq<OpView>, n: nat)
    requires
        n <= ops.len(),
        !(apply_ops(env, st, ops.take(n as int)) is Next),
    ensures
        apply_ops(env, st, ops) == apply_ops(env, st, ops.take(n as int)),
    decreases ops.len(),
{
    if n == ops.len() {
        assert(ops.take(n as int) =~= ops);
    } else {
        assert(ops.drop_last().take(n as int) =~= ops.take(n as int));
        apply_ops_stops(env, st, ops.drop_last(), n);
    }
}

/// The fresh UUIDs that an operation may take.
pub open spec fn op_ids(op: OpView) -> nat {
    match op {
        OpView::AppendFiles(files) => files.len(),
        OpView::UpdateSchema(columns) => 1 + columns.len(),
        _ => 0,
    }
}

/// The fresh UUIDs that operations may take.
pub open spec fn ids_needed(ops: Seq<OpView>) -> nat
    decreases ops.len(),
{
    if ops.len() == 0 {
        0
    } else {
        ids_needed(ops.drop_last()) + op_ids(ops.last())
    }
}

proof fn ids_needed_grows(ops: Seq<OpView>, n: nat)
    requires
        n <= ops.len(),
    ensures
        ids_needed(ops.take(n as int)) <= ids_needed(ops),
    decreases ops.len(),
{
    if n == ops.len() {
        assert(ops.take(n as int) =~= ops);
    } else {
        assert(ops.drop_last().take(n as int) =~= ops.take(n as int));
        ids_needed_grows(ops.drop_last(), n);
    }
}

/// How far a commit has come.
#[derive(Debug)]
pub struct Plan {
    /// Statements so far.
    pub statements: Vec<Statement>,
    /// Fresh UUIDs taken so far.
    pub used: usize,
    /// Schema of the table.
    pub schema_uuid: Option<Uuid>,
    /// Properties of the table.
    pub properties: TableProperties,
}

impl View for Plan {
    type V = PlanView;

    open spec fn view(&self) -> PlanView {
        PlanView {
            statements: statement_views(self.statements@),
            used: self.used as nat,
            schema_uuid: self.schema_uuid,
            properties: self.properties@,
        }
    }
}

/// What comes of one operation of a commit.
#[derive(Debug)]
pub enum Step {
    /// The commit goes on.
    Next(Plan),
    /// The rows of the current schema are needed.
    NeedsSchema(Uuid),
    /// The commit is refused.
    Refused(CatalogError),
    /// An outer library panics on what the commit would hand it.
    Panics,
}

/// What came of an operation is what should have.
pub open spec fn step_agrees(step: Step, wanted: StepOutcome) -> bool {
    match step {
        Step::Next(plan) => wanted == StepOutcome::Next(plan@),
        Step::NeedsSchema(uuid) => wanted == StepOutcome::NeedsSchema(uuid),
        Step::Refused(e) => wanted is Refused && tells(e, wanted->Refused_0),
        Step::Panics => wanted is Panics,
    }
}

fn append_statements(statements: &mut Vec<Statement>, more: Vec<Statement>)
    ensures
        statement_views(final(statements)@) == statement_views(old(statements)@)
            + statement_views(more@),
{
    let mut more = more;
    let ghost added = more@;
    statements.append(&mut more);
    assert(statement_views(statements@) =~= statement_views(old(statements)@) + statement_views(
        added,
    ));
}

/// Prepares files to be inserted.
pub fn prepare_files(files: &Vec<FileSpec>, ids: &Vec<Uuid>, used: usize) -> (r: Verdict<
    (Vec<FileInsert>, usize),
>)
    requires
        used + files@.len() <= ids@.len(),
    ensures
        ({
            let wanted = append_rows(
                Seq::new(files@.len(), |i: int| files@[i]@),
                ids@,
                used as nat,
            );
            match r {
                Verdict::Done((rows, now)) => wanted == Outcome::Done(
                    (file_rows(rows@), now as nat),
                ) && used <= now <= used + files@.len() && files_read_back(
                    Seq::new(files@.len(), |i: int| files@[i]@),
                ),
                Verdict::Refused(e) => wanted is Refused && tells(e, wanted->Refused_0),
                Verdict::Panics => wanted is Panics,
            }
        }),
{
    let ghost views = Seq::new(files@.len(), |i: int| files@[i]@);
    let mut rows: Vec<FileInsert> = Vec::new();
    let mut now: usize = used;
    let total: usize = ids.len();
    assert(views.take(0) =~= Seq::<FileSpecView>::empty());
    assert(file_rows(rows@) =~= Seq::<FileInsertView>::empty());
    for i in 0..files.len()
        invariant
            views == Seq::new(files@.len(), |i: int| files@[i]@),
            used + files@.len() <= ids@.len() == total,
            used <= now <= used + i,
            append_rows(views.take(i as int), ids@, used as nat) == Outcome::Done(
                (file_rows(rows@), now as nat),
            ),
            files_read_back(views.take(i as int)),
    {
        let file = &files[i];
        proof {
            assert(views.take(i + 1).drop_last() =~= views.take(i as int));
            assert(views.take(i + 1).last() == file@);
            if !(append_rows(views.take(i + 1), ids@, used as nat) is Done) {
                append_rows_stops(views, ids@, used as nat, (i + 1) as nat);
            }
        }
        match file.try_validate() {
            Some(Ok(_)) => {},
            Some(Err(e)) => return Verdict::Refused(e),
            None => return Verdict::Panics,
        }
        let partition_values = match serialize_json_optional(&file.partition_values) {
            Ok(text) => text,
            Err(e) => return Verdict::Refused(e),
        };
        let format_options = match serialize_json_optional(&file.format_options) {
            Ok(text) => text,
            Err(e) => return Verdict::Refused(e),
        };
        let file_uuid = match file.file_uuid {
            Some(u) => u,
            None => {
                let fresh = ids[now];
                now = now + 1;
                fresh
            },
        };
        let ghost before = rows@;
        let row = FileInsert {
            file_uuid,
            file_format: file.file_format,
            file_path: file.file_path.clone(),
            record_count: file.record_count,
            file_size_bytes: file.file_size_bytes,
            partition_values,
            format_options,
        };
        rows.push(row);
        assert(file_rows(rows@) =~= file_rows(before).push(row@));
        assert(files_read_back(views.take(i + 1))) by {
            assert forall|k: int| 0 <= k < i implies ((#[trigger] views.take(
                i + 1,
            )[k]).partition_values matches Some(m) ==> json_reads_back(m)) && (views.take(
                i + 1,
            )[k].format_options matches Some(m) ==> json_reads_back(m)) by {
                assert(views.take(i + 1)[k] == views.take(i as int)[k]);
            }
        }
    }
    assert(views.take(views.len() as int) =~= views);
    Verdict::Done((rows, now))
}

/// The statements that insert files.
pub fn insert_files_statements(
    table_uuid: Uuid,
    transaction_id: TxnId,
    rows: Vec<FileInsert>,
) -> (r: Vec<Statement>)
    ensures
        statement_views(r@) == insert_files(table_uuid, transaction_id, file_rows(rows@)),
{
    let ghost f = |row: FileInsert| row@;
    let pieces = chunked(rows, BATCH_INSERT_FILES_CHUNK as usize);
    let ghost seqs = inner_seqs(pieces@);
    proof {
        chunks_of_views(rows@, BATCH_INSERT_FILES_CHUNK as nat, f);
    }
    let mut statements: Vec<Statement> = Vec::new();
    let ghost all = pieces@;
    for piece in it: pieces
        invariant
            it.seq() == all,
            statements@.len() == it.index(),
            forall|k: int|
                0 <= k < it.index() ==> (#[trigger] statements@[k])@
                    == (StatementView::InsertFiles {
                    table_uuid,
                    transaction_id,
                    rows: file_rows(all[k]@),
                }),
    {
        statements.push(Statement::InsertFiles { table_uuid, transaction_id, rows: piece });
    }
    proof {
        let wanted = insert_files(table_uuid, transaction_id, file_rows(rows@));
        assert(seqs == chunks(rows@, BATCH_INSERT_FILES_CHUNK as nat));
        assert forall|k: int| 0 <= k < all.len() implies statement_views(statements@)[k]
            == wanted[k] by {
            assert(seqs[k] == all[k]@);
        }
        assert(statement_views(statements@) =~= wanted);
    }
    statements
}

/// The statements that mark files as removed.
pub fn delete_files_statements(
    table_uuid: Uuid,
    transaction_id: TxnId,
    file_uuids: Vec<Uuid>,
) -> (r: Vec<Statement>)
    ensures
        statement_views(r@) == delete_files(table_uuid, transaction_id, file_uuids@),
{
    let pieces = chunked(file_uuids, BATCH_DELETE_FILES_CHUNK as usize);
    let ghost seqs = inner_seqs(pieces@);
    let mut statements: Vec<Statement> = Vec::new();
    let ghost all = pieces@;
    for piece in it: pieces
        invariant
            it.seq() == all,
            statements@.len() == it.index(),
            forall|k: int|
                0 <= k < it.index() ==> (#[trigger] statements@[k])@
                    == (StatementView::DeleteFiles {
                    table_uuid,
                    transaction_id,
                    file_uuids: all[k]@,
                }),
    {
        statements.push(Statement::DeleteFiles { table_uuid, transaction_id, file_uuids: piece });
    }
    proof {
        let wanted = delete_files(table_uuid, transaction_id, file_uuids@);
        assert forall|k: int| 0 <= k < all.len() implies statement_views(statements@)[k]
            == wanted[k] by {
            assert(seqs[k] == all[k]@);
        }
        assert(statement_views(statements@) =~= wanted);
    }
    statements
}

/// Prepares the columns of a new schema to be inserted; nothing where one has a type that cannot
/// be stored.
pub fn prepare_columns(columns: &Vec<ColumnSpec>, ids: &Vec<Uuid>, first: usize) -> (r: Option<
    Vec<ColumnInsert>,
>)
    requires
        first + columns@.len() <= ids@.len(),
        columns@.len() <= MAX_COLUMNS_PER_SCHEMA,
    ensures
        ({
            let views = Seq::new(columns@.len(), |i: int| columns@[i]@);
            match r {
                Some(rows) => all_storable(views) && column_rows(rows@) == new_columns(
                    views,
                    ids@,
                    first as nat,
                ) && types_read_back(views),
                None => !all_storable(views),
            }
        }),
{
    let ghost views = Seq::new(columns@.len(), |i: int| columns@[i]@);
    let ghost wanted = new_columns(views, ids@, first as nat);
    let mut rows: Vec<ColumnInsert> = Vec::new();
    let total: usize = ids.len();
    for i in 0..columns.len()
        invariant
            views == Seq::new(columns@.len(), |i: int| columns@[i]@),
            wanted == new_columns(views, ids@, first as nat),
            first + columns@.len() <= ids@.len() == total,
            columns@.len() <= MAX_COLUMNS_PER_SCHEMA,
            rows@.len() == i,
            forall|k: int| 0 <= k < i ==> (#[trigger] rows@[k])@ == wanted[k],
            forall|k: int| 0 <= k < i ==> storable((#[trigger] views[k]).column_type),
            forall|k: int| 0 <= k < i ==> type_reads_back((#[trigger] views[k]).column_type),
    {
        let column = &columns[i];
        assert(views[i as int] == column@);
        if !is_encodable(&column.column_type) {
            assert(!storable(views[i as int].column_type));
            return None;
        }
        let encoded_type = match encode_data_type(&column.column_type) {
            Ok(bytes) => bytes,
            Err(_) => Vec::new(),
        };
        rows.push(
            ColumnInsert {
                column_uuid: ids[first + i],
                name: column.name.clone(),
                encoded_type,
                ordinal_position: (i + 1) as i32,
                is_nullable: column.is_nullable,
            },
        );
        assert(rows@[i as int]@ == wanted[i as int]);
    }
    assert(column_rows(rows@) =~= wanted);
    Some(rows)
}

/// The statements that insert columns.
pub fn insert_columns_statements(db: DbKind, schema_uuid: Uuid, rows: Vec<ColumnInsert>) -> (r: Vec<
    Statement,
>)
    ensures
        statement_views(r@) == insert_columns(db, schema_uuid, column_rows(rows@)),
{
    let ghost f = |row: ColumnInsert| row@;
    let n: usize = batch_insert_columns_chunk(db) as usize;
    let pieces = chunked(rows, n);
    let ghost seqs = inner_seqs(pieces@);
    proof {
        chunks_of_views(rows@, columns_chunk(db) as nat, f);
    }
    let mut statements: Vec<Statement> = Vec::new();
    let ghost all = pieces@;
    for piece in it: pieces
        invariant
            it.seq() == all,
            statements@.len() == it.index(),
            forall|k: int|
                0 <= k < it.index() ==> (#[trigger] statements@[k])@
                    == (StatementView::InsertColumns { schema_uuid, rows: column_rows(all[k]@) }),
    {
        statements.push(Statement::InsertColumns { schema_uuid, rows: piece });
    }
    proof {
        let wanted = insert_columns(db, schema_uuid, column_rows(rows@));
        assert(seqs == chunks(rows@, columns_chunk(db) as nat));
        assert forall|k: int| 0 <= k < all.len() implies statement_views(statements@)[k]
            == wanted[k] by {
            assert(seqs[k] == all[k]@);
        }
        assert(statement_views(statements@) =~= wanted);
    }
    statements
}

fn remove_keys(properties: &mut TableProperties, keys: &Vec<PropertyKey>)
    ensures
        final(properties)@ == without_keys(old(properties)@, key_texts(keys@)),
{
    let ghost texts = key_texts(keys@);
    let ghost start = properties@;
    assert(properties@ =~= without_keys(start, texts.take(0)));
    for i in 0..keys.len()
        invariant
            texts == key_texts(keys@),
            properties@ == without_keys(start, texts.take(i as int)),
    {
        let ghost before = texts.take(i as int);
        let ghost after = texts.take(i + 1);
        properties.remove(keys[i].as_str());
        proof {
            assert(after =~= before.push(texts[i as int]));
            assert forall|k: Seq<char>| after.contains(k) <==> before.contains(k) || k
                == texts[i as int] by {
                if before.contains(k) {
                    let n = choose|n: int| 0 <= n < before.len() && before[n] == k;
                    assert(after[n] == k);
                }
                if after.contains(k) {
                    let n = choose|n: int| 0 <= n < after.len() && after[n] == k;
                    if n < before.len() {
                        assert(before[n] == k);
                    }
                }
                if k == texts[i as int] {
                    assert(after[i as int] == k);
                }
            }
            assert(properties@ =~= without_keys(start, after));
        }
    }
    assert(texts.take(texts.len() as int) =~= texts);
}

fn apply_append(env: &CommitEnv, plan: Plan, files: &Vec<FileSpec>) -> (r: Step)
    requires
        plan.used + files@.len() <= env.ids@.len(),
    ensures
        step_agrees(
            r,
            apply_op(
                *env,
                plan@,
                OpView::AppendFiles(Seq::new(files@.len(), |i: int| files@[i]@)),
            ),
        ),
        r matches Step::Next(p) ==> p.used <= plan.used + files@.len() && files_read_back(
            Seq::new(files@.len(), |i: int| files@[i]@),
        ),
{
    proof {
        reveal(apply_op);
    }
    if files.len() > MAX_FILES_PER_APPEND as usize {
        return Step::Refused(
            over_limit_error(
                "cannot append ",
                files.len(),
                " files, exceeds limit of ",
                MAX_FILES_PER_APPEND,
            ),
        );
    }
    match prepare_files(files, env.ids, plan.used) {
        Verdict::Done((rows, used)) => {
            let more = insert_files_statements(env.table_uuid, env.transaction_id, rows);
            let mut statements = plan.statements;
            append_statements(&mut statements, more);
            Step::Next(
                Plan {
                    statements,
                    used,
                    schema_uuid: plan.schema_uuid,
                    properties: plan.properties,
                },
            )
        },
        Verdict::Refused(e) => Step::Refused(e),
        Verdict::Panics => Step::Panics,
    }
}

fn clone_uuids(uuids: &Vec<Uuid>) -> (r: Vec<Uuid>)
    ensures
        r@ == uuids@,
{
    let mut copy: Vec<Uuid> = Vec::new();
    for i in 0..uuids.len()
        invariant
            copy@ == uuids@.take(i as int),
    {
        copy.push(uuids[i]);
        assert(copy@ =~= uuids@.take(i + 1));
    }
    assert(uuids@.take(uuids@.len() as int) =~= uuids@);
    copy
}

fn apply_delete(env: &CommitEnv, plan: Plan, file_uuids: &Vec<Uuid>) -> (r: Step)
    ensures
        step_agrees(r, apply_op(*env, plan@, OpView::DeleteFiles(file_uuids@))),
        r matches Step::Next(p) ==> p.used == plan.used,
{
    proof {
        reveal(apply_op);
    }
    if file_uuids.len() > MAX_FILES_PER_DELETE as usize {
        return Step::Refused(
            over_limit_error(
                "cannot delete ",
                file_uuids.len(),
                " files, exceeds limit of ",
                MAX_FILES_PER_DELETE,
            ),
        );
    }
    let more = delete_files_statements(env.table_uuid, env.transaction_id, clone_uuids(file_uuids));
    let mut statements = plan.statements;
    append_statements(&mut statements, more);
    Step::Next(
        Plan {
            statements,
            used: plan.used,
            schema_uuid: plan.schema_uuid,
            properties: plan.properties,
        },
    )
}

fn apply_schema(env: &CommitEnv, plan: Plan, spec: &SchemaSpec) -> (r: Step)
    requires
        plan.used + 1 + spec@.len() <= env.ids@.len(),
    ensures
        step_agrees(r, apply_op(*env, plan@, OpView::UpdateSchema(spec@))),
        r matches Step::Next(p) ==> p.used <= plan.used + 1 + spec@.len() && types_read_back(spec@),
{
    proof {
        reveal(apply_op);
    }
    match spec.validate() {
        Ok(_) => {},
        Err(e) => return Step::Refused(e),
    }
    let current_schema_uuid = match env.current_schema_uuid {
        Some(u) => u,
        None => return Step::Refused(
            CatalogError::InvalidArgument(
                String::from_str("cannot update schema without a current schema"),
            ),
        ),
    };
    let schema = match env.schema {
        Some(schema) => schema,
        None => return Step::NeedsSchema(current_schema_uuid),
    };
    let current = match decode_current(&schema.columns) {
        Verdict::Done(columns) => columns,
        Verdict::Refused(e) => return Step::Refused(e),
        Verdict::Panics => return Step::Panics,
    };
    match check_schema_change(&current, spec) {
        Ok(_) => {},
        Err(e) => return Step::Refused(e),
    }
    if schema.schema_version == i32::MAX {
        return Step::Panics;
    }
    let total: usize = env.ids.len();
    assert(total == env.ids@.len());
    let schema_uuid = env.ids[plan.used];
    let rows = match prepare_columns(&spec.columns, env.ids, plan.used + 1) {
        Some(rows) => rows,
        None => return Step::Panics,
    };
    let more = insert_columns_statements(env.db, schema_uuid, rows);
    let mut head: Vec<Statement> = Vec::new();
    head.push(
        Statement::InsertSchema {
            schema_uuid,
            table_uuid: env.table_uuid,
            schema_version: schema.schema_version + 1,
            valid_from: env.transaction_id,
            created_at: env.timestamp,
        },
    );
    head.push(
        Statement::CloseSchema { schema_uuid: current_schema_uuid, valid_to: env.transaction_id },
    );
    assert(statement_views(head@) =~= seq![
        StatementView::InsertSchema {
            schema_uuid,
            table_uuid: env.table_uuid,
            schema_version: (schema.schema_version + 1) as i32,
            valid_from: env.transaction_id,
            created_at: env.timestamp,
        },
        StatementView::CloseSchema { schema_uuid: current_schema_uuid, valid_to: env.transaction_id },
    ]);
    let mut statements = plan.statements;
    append_statements(&mut statements, head);
    append_statements(&mut statements, more);
    Step::Next(
        Plan {
            statements,
            used: plan.used + 1 + spec.columns.len(),
            schema_uuid: Some(schema_uuid),
            properties: plan.properties,
        },
    )
}

/// Carries out one operation of a commit.
pub fn apply_operation(env: &CommitEnv, plan: Plan, op: &MutationOp) -> (r: Step)
    requires
        plan.used + op_ids(op@) <= env.ids@.len(),
    ensures
        step_agrees(r, apply_op(*env, plan@, op@)),
        r matches Step::Next(p) ==> p.used <= plan.used + op_ids(op@) && op_reads_back(op@),
{
    proof {
        reveal(apply_op);
    }
    match op {
        MutationOp::AppendFiles(files) => apply_append(env, plan, files),
        MutationOp::DeleteFiles(file_uuids) => apply_delete(env, plan, file_uuids),
        MutationOp::UpdateSchema(spec) => apply_schema(env, plan, spec),
        MutationOp::SetProperties(properties) => Step::Next(
            Plan {
                statements: plan.statements,
                used: plan.used,
                schema_uuid: plan.schema_uuid,
                properties: properties.clone(),
            },
        ),
        MutationOp::RemoveProperties(keys) => {
            if keys.len() > MAX_PROPERTY_KEYS_TO_REMOVE as usize {
                return Step::Refused(
                    over_limit_error(
                        "cannot remove ",
                        keys.len(),
                        " property keys, exceeds limit of ",
                        MAX_PROPERTY_KEYS_TO_REMOVE,
                    ),
                );
            }
            let mut properties = plan.properties;
            remove_keys(&mut properties, keys);
            Step::Next(
                Plan {
                    statements: plan.statements,
                    used: plan.used,
                    schema_uuid: plan.schema_uuid,
                    properties,
                },
            )
        },
    }
}

/// Carries out the operations of a commit, one after the other.
pub fn apply_operations(env: &CommitEnv, start: Plan, mutation: &Mutation) -> (r: Step)
    requires
        start.used + ids_needed(mutation@) <= env.ids@.len(),
    ensures
        step_agrees(r, apply_ops(*env, start@, mutation@)),
        r is Next ==> ops_read_back(mutation@),
{
    let ghost ops = mutation@;
    let ghost begin = start@;
    let mut plan = start;
    assert(ops.take(0) =~= Seq::<OpView>::empty());
    for i in 0..mutation.operations.len()
        invariant
            ops == mutation@,
            begin == start@,
            begin.used + ids_needed(ops) <= env.ids@.len(),
            plan.used <= begin.used + ids_needed(ops.take(i as int)),
            apply_ops(*env, begin, ops.take(i as int)) == StepOutcome::Next(plan@),
            forall|k: int| 0 <= k < i ==> op_reads_back(#[trigger] ops[k]),
    {
        let op = &mutation.operations[i];
        proof {
            assert(ops.take(i + 1).drop_last() =~= ops.take(i as int));
            assert(ops.take(i + 1).last() == op@);
            ids_needed_grows(ops, (i + 1) as nat);
            if !(apply_ops(*env, begin, ops.take(i + 1)) is Next) {
                apply_ops_stops(*env, begin, ops, (i + 1) as nat);
            }
        }
        match apply_operation(env, plan, op) {
            Step::Next(p) => {
                plan = p;
            },
            stopped => return stopped,
        }
    }
    assert(ops.take(ops.len() as int) =~= ops);
    Step::Next(plan)
}

/// What a commit is asked to do.
#[derive(Debug)]
pub struct CommitRequest<'a> {
    /// Database backend.
    pub db: DbKind,
    /// Protocol versions of the client.
    pub protocol: ProtocolVersions,
    /// Table to commit to.
    pub ident: &'a TableIdent,
    /// The transaction that the mutation was made on.
    pub base_transaction_id: TxnId,
    /// The mutation.
    pub mutation: &'a Mutation,
    /// The transaction of the commit.
    pub transaction_id: TxnId,
    /// Timestamp of the transaction.
    pub timestamp: Timestamp,
    /// Fresh UUIDs, taken in their order.
    pub ids: &'a Vec<Uuid>,
}

/// A commit that can be carried out.
#[derive(Debug)]
pub struct CommitPlan {
    /// The transaction of the commit.
    pub transaction_id: TxnId,
    /// The statements to run, in their order, in one database transaction.
    pub statements: Vec<Statement>,
}

/// What comes of a commit.
#[derive(Debug)]
pub enum CommitVerdict {
    /// It can be carried out.
    Planned(CommitPlan),
    /// The rows of the current schema are needed.
    NeedsSchema(Uuid),
    /// It is refused.
    Refused(CatalogError),
    /// An outer library panics on what the commit would hand it.
    Panics,
}

/// What comes of a commit, as a specification says it.
#[verifier::ext_equal]
pub enum CommitOutcome {
    /// It can be carried out by these statements.
    Planned(Seq<StatementView>),
    /// The rows of the current schema are needed.
    NeedsSchema(Uuid),
    /// It is refused.
    Refused(Refusal),
    /// An outer library panics on what the commit would hand it.
    Panics,
}

/// What a commit to a table works with.
pub open spec fn env_of<'a>(
    request: CommitRequest<'a>,
    base: BaseView,
    schema: Option<&'a CurrentSchema>,
) -> CommitEnv<'a> {
    CommitEnv {
        db: request.db,
        table_uuid: base.table_uuid,
        current_schema_uuid: base.current_schema_uuid,
        transaction_id: request.transaction_id,
        timestamp: request.timestamp,
        ids: request.ids,
        schema,
    }
}

/// A commit before its first operation: its transaction is on record, as a child of the current
/// one.
pub open spec fn start_of(request: CommitRequest, base: BaseView) -> PlanView {
    PlanView {
        statements: seq![
            StatementView::InsertTransaction {
                transaction_id: request.transaction_id,
                table_uuid: base.table_uuid,
                timestamp: request.timestamp,
                parent: Some(base.current_transaction_id),
            },
        ],
        used: 0,
        schema_uuid: base.current_schema_uuid,
        properties: base.properties,
    }
}

/// The statements of a commit after its last operation: the transaction has its properties, and
/// the table moves to it.
pub open spec fn finished(request: CommitRequest, base: BaseView, end: PlanView) -> CommitOutcome {
    match serialized(JsonModel::Object(end.properties)) {
        Err(e) => CommitOutcome::Refused(Refusal::Exact(e)),
        Ok(properties) => CommitOutcome::Planned(
            end.statements.push(
                StatementView::InsertProperties {
                    transaction_id: request.transaction_id,
                    table_uuid: base.table_uuid,
                    properties,
                },
            ).push(
                StatementView::UpdateTable {
                    table_uuid: base.table_uuid,
                    transaction_id: request.transaction_id,
                    schema_uuid: end.schema_uuid,
                    properties,
                },
            ),
        ),
    }
}

/// What comes of a commit, given the row of its table and, once they have been asked for, the
/// rows of its current schema. Its transaction must come after the current one.
pub open spec fn commit_outcome<'a>(
    request: CommitRequest<'a>,
    row: Option<TableRow>,
    schema: Option<&'a CurrentSchema>,
) -> CommitOutcome {
    match mutation_flaw(request.mutation@) {
        Some(e) => CommitOutcome::Refused(Refusal::Exact(e)),
        None => match base_of(
            request.protocol,
            *request.ident,
            request.base_transaction_id,
            row,
        ) {
            Err(e) => CommitOutcome::Refused(Refusal::Exact(e)),
            Ok(base) => if request.transaction_id.value <= base.current_transaction_id.value {
                CommitOutcome::Refused(
                    Refusal::Exact(
                        out_of_order(request.transaction_id, base.current_transaction_id),
                    ),
                )
            } else {
                match apply_ops(
                    env_of(request, base, schema),
                    start_of(request, base),
                    request.mutation@,
                ) {
                    StepOutcome::Next(end) => finished(request, base, end),
                    StepOutcome::NeedsSchema(uuid) => CommitOutcome::NeedsSchema(uuid),
                    StepOutcome::Refused(why) => CommitOutcome::Refused(why),
                    StepOutcome::Panics => CommitOutcome::Panics,
                }
            },
        },
    }
}

/// How far a commit has come after its last operation.
pub open spec fn commit_end<'a>(
    request: CommitRequest<'a>,
    row: Option<TableRow>,
    schema: Option<&'a CurrentSchema>,
) -> PlanView {
    let base = base_of(
        request.protocol,
        *request.ident,
        request.base_transaction_id,
        row,
    )->Ok_0;
    apply_ops(
        env_of(request, base, schema),
        start_of(request, base),
        request.mutation@,
    )->Next_0
}

/// What came of a commit is what should have.
pub open spec fn commit_agrees(
    verdict: CommitVerdict,
    transaction_id: TxnId,
    wanted: CommitOutcome,
) -> bool {
    match verdict {
        CommitVerdict::Planned(plan) => plan.transaction_id == transaction_id && wanted
            == CommitOutcome::Planned(statement_views(plan.statements@)),
        CommitVerdict::NeedsSchema(uuid) => wanted == CommitOutcome::NeedsSchema(uuid),
        CommitVerdict::Refused(e) => wanted is Refused && tells(e, wanted->Refused_0),
        CommitVerdict::Panics => wanted is Panics,
    }
}

fn out_of_order_error(id: TxnId, current: TxnId) -> (r: CatalogError)
    ensures
        r@ == out_of_order(id, current),
{
    let mut text = joined("transaction ", id.to_string().as_str());
    text.append(" does not come after current ");
    text.append(current.to_string().as_str());
    CatalogError::Conflict(text)
}

/// Plans a commit. `row` is the row of the table, read in the database transaction that is to run
/// the statements. Where the plan needs the rows of the current schema, they are read and the
/// commit is planned again with them. What a planned commit writes as JSON or as encoded types
/// can be read back, its statements have no more parameters than the backend allows, and its
/// transaction comes after the one that it was made on.
pub fn plan_commit<'a>(
    request: &CommitRequest<'a>,
    row: &Option<TableRow>,
    schema: Option<&'a CurrentSchema>,
) -> (r: CommitVerdict)
    requires
        request.ids@.len() >= ids_needed(request.mutation@),
    ensures
        commit_agrees(r, request.transaction_id, commit_outcome(*request, *row, schema)),
        r matches CommitVerdict::Planned(plan) ==> plan.transaction_id.value
            > request.base_transaction_id.value,
        r matches CommitVerdict::Planned(plan) ==> fit(
            request.db,
            statement_views(plan.statements@),
        ),
        r is Planned ==> ops_read_back(request.mutation@),
        r is Planned ==> json_reads_back(
            JsonModel::Object(commit_end(*request, *row, schema).properties),
        ),
{
    proof {
        commit_statements_fit(*request, *row, schema);
    }
    match check_mutation(request.mutation) {
        Ok(_) => {},
        Err(e) => return CommitVerdict::Refused(e),
    }
    let base = match open_commit(
        &request.protocol,
        request.ident,
        request.base_transaction_id,
        row,
    ) {
        Ok(base) => base,
        Err(e) => return CommitVerdict::Refused(e),
    };
    let ghost base_view = base@;
    if request.transaction_id.as_u128() <= base.current_transaction_id.as_u128() {
        return CommitVerdict::Refused(
            out_of_order_error(request.transaction_id, base.current_transaction_id),
        );
    }
    let env = CommitEnv {
        db: request.db,
        table_uuid: base.table_uuid,
        current_schema_uuid: base.current_schema_uuid,
        transaction_id: request.transaction_id,
        timestamp: request.timestamp,
        ids: request.ids,
        schema,
    };
    let mut statements: Vec<Statement> = Vec::new();
    statements.push(
        Statement::InsertTransaction {
            transaction_id: request.transaction_id,
            table_uuid: base.table_uuid,
            timestamp: request.timestamp,
            parent: Some(base.current_transaction_id),
        },
    );
    let start = Plan {
        statements,
        used: 0,
        schema_uuid: base.current_schema_uuid,
        properties: base.properties,
    };
    assert(start@.statements =~= start_of(*request, base_view).statements);
    assert(start@ == start_of(*request, base_view));
    assert(env == env_of(*request, base_view, schema));
    match apply_operations(&env, start, request.mutation) {
        Step::Next(end) => {
            let ghost end_view = end@;
            match serialize_json(&end.properties.to_json()) {
                Err(e) => CommitVerdict::Refused(e),
                Ok(properties) => {
                    let mut statements = end.statements;
                    let ghost before = statements@;
                    let kept = Statement::InsertProperties {
                        transaction_id: request.transaction_id,
                        table_uuid: env.table_uuid,
                        properties: properties.clone(),
                    };
                    statements.push(kept);
                    let last = Statement::UpdateTable {
                        table_uuid: env.table_uuid,
                        transaction_id: request.transaction_id,
                        schema_uuid: end.schema_uuid,
                        properties,
                    };
                    statements.push(last);
                    assert(statement_views(statements@) =~= statement_views(before).push(
                        kept@,
                    ).push(last@));
                    CommitVerdict::Planned(
                        CommitPlan { transaction_id: request.transaction_id, statements },
                    )
                },
            }
        },
        Step::NeedsSchema(uuid) => CommitVerdict::NeedsSchema(uuid),
        Step::Refused(e) => CommitVerdict::Refused(e),
        Step::Panics => CommitVerdict::Panics,
    }
}

fn draw(ids: &mut Vec<Uuid>, count: usize)
    requires
        all_random(old(ids)@),
    ensures
        final(ids)@.len() == old(ids)@.len() + count,
        all_random(final(ids)@),
{
    for i in 0..count
        invariant
            ids@.len() == old(ids)@.len() + i,
            all_random(ids@),
    {
        ids.push(Uuid::new_v4());
    }
}

/// Draws as many fresh UUIDs as the operations of a mutation may take.
pub fn draw_ids(mutation: &Mutation) -> (r: Vec<Uuid>)
    ensures
        r@.len() == ids_needed(mutation@),
        all_random(r@),
{
    let ghost ops = mutation@;
    let mut ids: Vec<Uuid> = Vec::new();
    assert(ops.take(0) =~= Seq::<OpView>::empty());
    for i in 0..mutation.operations.len()
        invariant
            ops == mutation@,
            ids@.len() == ids_needed(ops.take(i as int)),
            all_random(ids@),
    {
        let op = &mutation.operations[i];
        proof {
            assert(ops.take(i + 1).drop_last() =~= ops.take(i as int));
            assert(ops.take(i + 1).last() == op@);
        }
        match op {
            MutationOp::AppendFiles(files) => draw(&mut ids, files.len()),
            MutationOp::UpdateSchema(spec) => {
                draw(&mut ids, 1);
                draw(&mut ids, spec.columns.len());
            },
            _ => {},
        }
    }
    assert(ops.take(ops.len() as int) =~= ops);
    ids
}

} // verus!
