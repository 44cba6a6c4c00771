//! When a commit is told of a conflict.

use vstd::prelude::*;

use super::commit::{
    append_rows, apply_op, apply_ops, base_conflict, base_of, commit_outcome, env_of,
    mutation_flaw, start_of, update_schema, CommitEnv, CommitOutcome, CommitRequest, PlanView,
    StepOutcome,
};
use super::data_type::{decoded, DecodeOutcome};
use super::error::{ErrorView, Refusal};
use super::evolution::{columns_change_flaw, current_of, CurrentColumnRow, CurrentSchema};
use super::helpers::parsed_properties;
use super::history::row_tells_table;
use super::lifecycle::after_commit;
use super::models::{names_flaw, ColumnSpecView};
use super::mutation::{FileSpecView, OpView};
use super::protocol::protocol_flaw;
use super::relations::{head, Relations};
use super::rows::{Outcome, TableRow};
use crate::ids::Uuid;

verus! {

/// A refusal with a conflict.
pub open spec fn is_conflict(why: Refusal) -> bool {
    why matches Refusal::Exact(ErrorView::Conflict(_))
}

/// A commit that is refused with a conflict.
pub open spec fn told_of_conflict(outcome: CommitOutcome) -> bool {
    outcome matches CommitOutcome::Refused(why) && is_conflict(why)
}

proof fn appending_does_not_conflict(files: Seq<FileSpecView>, ids: Seq<Uuid>, used: nat)
    ensures
        append_rows(files, ids, used) matches Outcome::Refused(why) ==> !is_conflict(why),
    decreases files.len(),
{
    if files.len() > 0 {
        appending_does_not_conflict(files.drop_last(), ids, used);
    }
}

proof fn decoding_does_not_conflict(rows: Seq<CurrentColumnRow>)
    ensures
        current_of(rows) matches Outcome::Refused(why) ==> !is_conflict(why),
    decreases rows.len(),
{
    if rows.len() > 0 {
        decoding_does_not_conflict(rows.drop_last());
        assert(decoded(rows.last().column_type@) matches DecodeOutcome::Refused(why)
            ==> !is_conflict(why));
    }
}

proof fn names_do_not_conflict(columns: Seq<ColumnSpecView>)
    ensures
        names_flaw(columns) matches Some(e) ==> !(e is Conflict),
    decreases columns.len(),
{
    if columns.len() > 0 {
        names_do_not_conflict(columns.drop_last());
    }
}

proof fn changes_do_not_conflict(current: Seq<ColumnSpecView>, new: Seq<ColumnSpecView>)
    ensures
        columns_change_flaw(current, new) matches Some(why) ==> !is_conflict(why),
    decreases new.len(),
{
    if new.len() > 0 {
        changes_do_not_conflict(current, new.drop_last());
    }
}

proof fn operations_do_not_conflict(env: CommitEnv, st: PlanView, ops: Seq<OpView>)
    ensures
        apply_ops(env, st, ops) matches StepOutcome::Refused(why) ==> !is_conflict(why),
    decreases ops.len(),
{
    if ops.len() > 0 {
        operations_do_not_conflict(env, st, ops.drop_last());
        if let StepOutcome::Next(mid) = apply_ops(env, st, ops.drop_last()) {
            reveal(apply_op);
            match ops.last() {
                OpView::AppendFiles(files) => {
                    appending_does_not_conflict(files, env.ids@, mid.used);
                },
                OpView::UpdateSchema(columns) => {
                    names_do_not_conflict(columns);
                    if let Some(schema) = env.schema {
                        decoding_does_not_conflict(schema.columns@);
                        if let Outcome::Done(current) = current_of(schema.columns@) {
                            changes_do_not_conflict(current, columns);
                        }
                    }
                    assert(update_schema(env, mid, columns) matches StepOutcome::Refused(why)
                        ==> !is_conflict(why));
                },
                _ => {},
            }
        }
    }
}

/// A commit is told of a conflict exactly if it was made on another transaction than the current
/// one, and then nothing of it shows in the database. This is so of a mutation without a flaw, a
/// client that may write the table, properties on record that can be read, and a transaction that
/// comes after the one that the mutation was made on.
pub proof fn conflicts_tell_of_a_stale_base<'a>(
    before: Relations,
    request: CommitRequest<'a>,
    table_uuid: Uuid,
    row: TableRow,
    schema: Option<&'a CurrentSchema>,
)
    requires
        row_tells_table(row, before, table_uuid),
        head(before, table_uuid) is Some,
        mutation_flaw(request.mutation@) is None,
        protocol_flaw(
            "write"@,
            *request.ident,
            request.protocol.writer,
            before.tables[table_uuid].min_writer_version,
        ) is None,
        parsed_properties(Some(before.tables[table_uuid].properties)) is Ok,
        request.transaction_id.value > request.base_transaction_id.value,
    ensures
        ({
            let outcome = commit_outcome(request, Some(row), schema);
            let current = head(before, table_uuid)->0;
            &&& told_of_conflict(outcome) <==> request.base_transaction_id != current
            &&& told_of_conflict(outcome) ==> outcome == CommitOutcome::Refused(
                Refusal::Exact(base_conflict(request.base_transaction_id, current)),
            ) && after_commit(before, request, Some(row), schema) == before
        }),
{
    let base = base_of(
        request.protocol,
        *request.ident,
        request.base_transaction_id,
        Some(row),
    );
    if base is Ok {
        operations_do_not_conflict(
            env_of(request, base->Ok_0, schema),
            start_of(request, base->Ok_0),
            request.mutation@,
        );
    }
}

} // verus!
