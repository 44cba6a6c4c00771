//! What the event log tells of a table: the difference between two transactions, and the changes
//! of its schema.

use vstd::prelude::*;

use super::delta::{all_changes, net_of, net_step, NetView};
use super::error::ErrorView;
use super::events::{
    added_outcome, changes_of, empty_records, events_outcome, ids_of, record_of, removed_outcome,
    schema_head_of, schema_outcome, schemas_of, start_outcome, with_change, ChangeView, EventRows,
    EventView,
};
use super::helpers::{bytes_option, parsed_uuid, parsed_uuid_option};
use super::models::{TxnFileChangeKind, TxnId};
use super::read::schema_of;
use super::recall::{
    file_rows_decode, row_id, row_tells_file, row_tells_schema, rows_tell_columns, rows_tell_files,
    schema_rows_decode, shows, shows_schema,
};
use super::relations::{columns_in, files_at, files_consistent, on_record, Relations};
use super::rows::{columns_of, file_of, ColumnRow, FileRow, Outcome, SchemaRow};
use super::schema::SchemaView;
use crate::ids::Uuid;

verus! {

/// The transaction that a row tells to have added the file, or to have removed it.
pub open spec fn change_id(kind: TxnFileChangeKind, row: FileRow) -> TxnId {
    match kind {
        TxnFileChangeKind::Added => parsed_uuid(row.added_in_transaction_id@)->Ok_0,
        TxnFileChangeKind::Removed => parsed_uuid_option(
            bytes_option(row.removed_in_transaction_id),
        )->Ok_0->0,
    }
}

/// The change that a row tells of.
pub open spec fn change_told(kind: TxnFileChangeKind, row: FileRow) -> ChangeView {
    ChangeView { transaction_id: change_id(kind, row), kind, file: file_of(row)->Ok_0 }
}

/// The changes of a transaction that rows tell of, in the order of the rows.
pub open spec fn picked(kind: TxnFileChangeKind, rows: Seq<FileRow>, id: TxnId) -> Seq<ChangeView>
    decreases rows.len(),
{
    if rows.len() == 0 {
        Seq::empty()
    } else {
        let front = picked(kind, rows.drop_last(), id);
        if change_id(kind, rows.last()) == id {
            front.push(change_told(kind, rows.last()))
        } else {
            front
        }
    }
}

/// No transaction has two records.
pub open spec fn distinct_records(events: Seq<EventView>) -> bool {
    forall|i: int, j: int|
        0 <= i < j < events.len() ==> (#[trigger] events[i]).transaction_id != (
        #[trigger] events[j]).transaction_id
}

proof fn record_is_found(events: Seq<EventView>, id: TxnId)
    ensures
        record_of(events, id) matches Some(i) ==> 0 <= i < events.len() && events[i].transaction_id
            == id,
        record_of(events, id) is None ==> forall|k: int|
            0 <= k < events.len() ==> (#[trigger] events[k]).transaction_id != id,
    decreases events.len(),
{
    if events.len() > 0 {
        record_is_found(events.drop_last(), id);
        if record_of(events, id) is None {
            assert forall|k: int| 0 <= k < events.len() implies (
            #[trigger] events[k]).transaction_id != id by {
                if k < events.len() - 1 {
                    assert(events.drop_last()[k] == events[k]);
                }
            }
        }
    }
}

proof fn changes_land_in_their_records(
    kind: TxnFileChangeKind,
    events: Seq<EventView>,
    rows: Seq<FileRow>,
)
    requires
        distinct_records(events),
        changes_of(kind, events, rows) is Ok,
    ensures
        ({
            let after = changes_of(kind, events, rows)->Ok_0;
            &&& after.len() == events.len()
            &&& forall|k: int|
                0 <= k < events.len() ==> (#[trigger] after[k]).transaction_id
                    == events[k].transaction_id && after[k].file_changes == events[k].file_changes
                    + picked(kind, rows, events[k].transaction_id) && after[k].schema_change
                    == events[k].schema_change
            &&& forall|i: int, k: int|
                0 <= i < rows.len() && 0 <= k < events.len() && change_id(kind, #[trigger] rows[i])
                    == (#[trigger] events[k]).transaction_id ==> file_of(rows[i]) is Ok
        }),
    decreases rows.len(),
{
    if rows.len() == 0 {
        assert forall|k: int| 0 <= k < events.len() implies events[k].file_changes
            == #[trigger] events[k].file_changes + picked(
            kind,
            rows,
            events[k].transaction_id,
        ) by {
            assert(events[k].file_changes =~= events[k].file_changes + picked(
                kind,
                rows,
                events[k].transaction_id,
            ));
        }
    } else {
        let few = rows.drop_last();
        let row = rows.last();
        changes_land_in_their_records(kind, events, few);
        let mid = changes_of(kind, events, few)->Ok_0;
        let after = changes_of(kind, events, rows)->Ok_0;
        let id = change_id(kind, row);
        record_is_found(mid, id);
        assert forall|k: int| 0 <= k < events.len() implies (
        #[trigger] after[k]).transaction_id == events[k].transaction_id && after[k].file_changes
            == events[k].file_changes + picked(kind, rows, events[k].transaction_id)
            && after[k].schema_change == events[k].schema_change by {
            assert(mid[k].transaction_id == events[k].transaction_id);
            match record_of(mid, id) {
                None => {
                    assert(after == mid);
                    assert(mid[k].transaction_id != id);
                },
                Some(i) => {
                    assert(after == with_change(mid, i, change_told(kind, row)));
                    assert(mid[i].transaction_id == events[i].transaction_id);
                    if k == i {
                        assert(after[k].file_changes =~= events[k].file_changes + picked(
                            kind,
                            rows,
                            events[k].transaction_id,
                        ));
                    } else {
                        assert(events[k].transaction_id != events[i].transaction_id);
                    }
                },
            }
        }
        assert forall|i: int, k: int|
            0 <= i < rows.len() && 0 <= k < events.len() && change_id(kind, #[trigger] rows[i]) == (
            #[trigger] events[k]).transaction_id implies file_of(rows[i]) is Ok by {
            if i < few.len() {
                assert(few[i] == rows[i]);
            } else {
                assert(mid[k].transaction_id == events[k].transaction_id);
                assert(record_of(mid, id) is Some);
            }
        }
    }
}

/// The schema that rows tell to have become valid with a transaction, if they do: the last one.
pub open spec fn schema_picked(schemas: Seq<(SchemaRow, Vec<ColumnRow>)>, id: TxnId) -> Option<
    (TxnId, SchemaView),
>
    decreases schemas.len(),
{
    if schemas.len() == 0 {
        None
    } else {
        let (schema_uuid, valid_from) = schema_head_of(schemas.last().0)->Ok_0;
        if valid_from == id {
            let columns = columns_of(schemas.last().1@)->Done_0;
            Some((id, schema_of(schema_uuid, schemas.last().0, columns)->Ok_0))
        } else {
            schema_picked(schemas.drop_last(), id)
        }
    }
}

proof fn schemas_land_in_their_records(
    events: Seq<EventView>,
    schemas: Seq<(SchemaRow, Vec<ColumnRow>)>,
)
    requires
        distinct_records(events),
        schemas_of(events, schemas) is Done,
    ensures
        ({
            let after = schemas_of(events, schemas)->Done_0;
            &&& after.len() == events.len()
            &&& forall|k: int|
                0 <= k < events.len() ==> (#[trigger] after[k]).transaction_id
                    == events[k].transaction_id && after[k].file_changes == events[k].file_changes
                    && after[k].schema_change == match schema_picked(
                    schemas,
                    events[k].transaction_id,
                ) {
                    Some(change) => Some(change),
                    None => events[k].schema_change,
                }
            &&& forall|i: int|
                0 <= i < schemas.len() ==> columns_of((#[trigger] schemas[i]).1@) is Done
        }),
    decreases schemas.len(),
{
    if schemas.len() > 0 {
        let few = schemas.drop_last();
        let last = schemas.last();
        schemas_land_in_their_records(events, few);
        let mid = schemas_of(events, few)->Done_0;
        let after = schemas_of(events, schemas)->Done_0;
        let id = schema_head_of(last.0)->Ok_0.1;
        record_is_found(mid, id);
        assert(schema_outcome(mid, last.0, last.1@) == Outcome::Done(after));
        assert forall|k: int| 0 <= k < events.len() implies (
        #[trigger] after[k]).transaction_id == events[k].transaction_id && after[k].file_changes
            == events[k].file_changes && after[k].schema_change == match schema_picked(
            schemas,
            events[k].transaction_id,
        ) {
            Some(change) => Some(change),
            None => events[k].schema_change,
        } by {
            assert(mid[k].transaction_id == events[k].transaction_id);
            if let Some(i) = record_of(mid, id) {
                assert(mid[i].transaction_id == events[i].transaction_id);
                if k != i {
                    assert(events[k].transaction_id != events[i].transaction_id);
                }
            }
        }
        assert forall|i: int| 0 <= i < schemas.len() implies columns_of(
            (#[trigger] schemas[i]).1@,
        ) is Done by {
            if i < few.len() {
                assert(few[i] == schemas[i]);
            }
        }
    }
}

/// Each record of the log holds the changes of its transaction: the files that it added, and then
/// the files that it removed, and the schema that became valid with it.
pub proof fn records_hold_their_changes(rows: EventRows, ids: Seq<TxnId>, events: Seq<EventView>)
    requires
        ids_of(rows.transactions@) == std::result::Result::<Seq<TxnId>, ErrorView>::Ok(ids),
        ids.no_duplicates(),
        events_outcome(rows) == Outcome::Done(events),
    ensures
        events.len() == ids.len(),
        forall|k: int|
            0 <= k < ids.len() ==> (#[trigger] events[k]).transaction_id == ids[k]
                && events[k].file_changes == picked(TxnFileChangeKind::Added, rows.added@, ids[k])
                + picked(TxnFileChangeKind::Removed, rows.removed@, ids[k])
                && events[k].schema_change == schema_picked(rows.schemas@, ids[k]),
        forall|i: int|
            0 <= i < rows.schemas@.len() ==> columns_of((#[trigger] rows.schemas@[i]).1@) is Done,
        forall|i: int|
            0 <= i < rows.added@.len() && ids.contains(
                change_id(TxnFileChangeKind::Added, #[trigger] rows.added@[i]),
            ) ==> file_of(rows.added@[i]) is Ok,
        forall|i: int|
            0 <= i < rows.removed@.len() && ids.contains(
                change_id(TxnFileChangeKind::Removed, #[trigger] rows.removed@[i]),
            ) ==> file_of(rows.removed@[i]) is Ok,
{
    let start = empty_records(ids);
    assert(start_outcome(rows.transactions@) == std::result::Result::<
        Seq<EventView>,
        ErrorView,
    >::Ok(start));
    let first = added_outcome(start, rows.added@)->Ok_0;
    let second = removed_outcome(first, rows.removed@)->Ok_0;
    changes_land_in_their_records(TxnFileChangeKind::Added, start, rows.added@);
    assert forall|i: int, j: int| 0 <= i < j < first.len() implies (
    #[trigger] first[i]).transaction_id != (#[trigger] first[j]).transaction_id by {
        assert(first[i].transaction_id == start[i].transaction_id);
        assert(first[j].transaction_id == start[j].transaction_id);
    }
    changes_land_in_their_records(TxnFileChangeKind::Removed, first, rows.removed@);
    assert forall|i: int, j: int| 0 <= i < j < second.len() implies (
    #[trigger] second[i]).transaction_id != (#[trigger] second[j]).transaction_id by {
        assert(second[i].transaction_id == first[i].transaction_id);
        assert(second[j].transaction_id == first[j].transaction_id);
    }
    schemas_land_in_their_records(second, rows.schemas@);
    assert forall|k: int| 0 <= k < ids.len() implies (#[trigger] events[k]).transaction_id == ids[k]
        && events[k].file_changes == picked(TxnFileChangeKind::Added, rows.added@, ids[k])
        + picked(TxnFileChangeKind::Removed, rows.removed@, ids[k]) && events[k].schema_change
        == schema_picked(rows.schemas@, ids[k]) by {
        assert(start[k].transaction_id == ids[k]);
        assert(first[k].transaction_id == ids[k]);
        assert(second[k].transaction_id == ids[k]);
        assert(first[k].file_changes =~= picked(TxnFileChangeKind::Added, rows.added@, ids[k]));
    }
    assert forall|i: int|
        0 <= i < rows.added@.len() && ids.contains(
            change_id(TxnFileChangeKind::Added, #[trigger] rows.added@[i]),
        ) implies file_of(rows.added@[i]) is Ok by {
        let id = change_id(TxnFileChangeKind::Added, rows.added@[i]);
        let k = choose|k: int| 0 <= k < ids.len() && ids[k] == id;
        assert(start[k].transaction_id == id);
    }
    assert forall|i: int|
        0 <= i < rows.removed@.len() && ids.contains(
            change_id(TxnFileChangeKind::Removed, #[trigger] rows.removed@[i]),
        ) implies file_of(rows.removed@[i]) is Ok by {
        let id = change_id(TxnFileChangeKind::Removed, rows.removed@[i]);
        let k = choose|k: int| 0 <= k < ids.len() && ids[k] == id;
        assert(start[k].transaction_id == id);
        assert(first[k].transaction_id == id);
    }
}

/// The changes of one file.
pub open spec fn about(changes: Seq<ChangeView>, u: Uuid) -> Seq<ChangeView>
    decreases changes.len(),
{
    if changes.len() == 0 {
        Seq::empty()
    } else if changes.last().file.file_uuid == u {
        about(changes.drop_last(), u).push(changes.last())
    } else {
        about(changes.drop_last(), u)
    }
}

proof fn about_both(a: Seq<ChangeView>, b: Seq<ChangeView>, u: Uuid)
    ensures
        about(a + b, u) == about(a, u) + about(b, u),
    decreases b.len(),
{
    if b.len() == 0 {
        assert(a + b =~= a);
        assert(about(a, u) + about(b, u) =~= about(a, u));
    } else {
        about_both(a, b.drop_last(), u);
        assert((a + b).drop_last() =~= a + b.drop_last());
        assert((a + b).last() == b.last());
        assert(about(a + b, u) =~= about(a, u) + about(b, u));
    }
}

/// What becomes of a file depends on the changes of that file alone.
proof fn files_do_not_mix(changes: Seq<ChangeView>, u: Uuid)
    ensures
        ({
            let all = net_of(changes);
            let own = net_of(about(changes, u));
            &&& all.added.dom().contains(u) == own.added.dom().contains(u)
            &&& all.removed.dom().contains(u) == own.removed.dom().contains(u)
            &&& all.added.dom().contains(u) ==> all.added[u] == own.added[u]
            &&& all.removed.dom().contains(u) ==> all.removed[u] == own.removed[u]
        }),
    decreases changes.len(),
{
    if changes.len() > 0 {
        files_do_not_mix(changes.drop_last(), u);
        if changes.last().file.file_uuid == u {
            let own = about(changes, u);
            assert(own.drop_last() =~= about(changes.drop_last(), u));
        }
    }
}

proof fn a_change_is_picked_once(
    kind: TxnFileChangeKind,
    rows: Seq<FileRow>,
    id: TxnId,
    u: Uuid,
    j: int,
)
    requires
        forall|a: int, b: int|
            0 <= a < b < rows.len() ==> row_id(#[trigger] rows[a]) != row_id(#[trigger] rows[b]),
        forall|a: int| 0 <= a < rows.len() ==> file_of(#[trigger] rows[a]) is Ok,
        0 <= j < rows.len(),
        row_id(rows[j]) == u,
    ensures
        about(picked(kind, rows, id), u) == (if change_id(kind, rows[j]) == id {
            seq![change_told(kind, rows[j])]
        } else {
            Seq::empty()
        }),
    decreases rows.len(),
{
    let few = rows.drop_last();
    let last = rows.last();
    assert(last == rows[rows.len() - 1]);
    assert(file_of(last) is Ok);
    assert(file_of(last)->Ok_0.file_uuid == row_id(last));
    let front = picked(kind, few, id);
    assert forall|a: int, b: int| 0 <= a < b < few.len() implies row_id(#[trigger] few[a])
        != row_id(#[trigger] few[b]) by {
        assert(few[a] == rows[a] && few[b] == rows[b]);
    }
    assert forall|a: int| 0 <= a < few.len() implies file_of(#[trigger] few[a]) is Ok by {
        assert(few[a] == rows[a]);
    }
    if change_id(kind, last) == id {
        assert(picked(kind, rows, id).drop_last() =~= front);
        assert(picked(kind, rows, id).last() == change_told(kind, last));
    }
    if j < few.len() {
        a_change_is_picked_once(kind, few, id, u, j);
        assert(few[j] == rows[j]);
        assert(row_id(rows[j]) != row_id(rows[rows.len() - 1]));
    } else {
        assert forall|a: int| 0 <= a < few.len() implies row_id(#[trigger] few[a]) != u by {
            assert(few[a] == rows[a]);
            assert(row_id(rows[a]) != row_id(rows[j]));
        }
        other_changes_are_not_picked(kind, few, id, u);
        assert(about(picked(kind, rows, id), u) =~= if change_id(kind, rows[j]) == id {
            seq![change_told(kind, rows[j])]
        } else {
            Seq::empty()
        });
    }
}

proof fn other_changes_are_not_picked(
    kind: TxnFileChangeKind,
    rows: Seq<FileRow>,
    id: TxnId,
    u: Uuid,
)
    requires
        forall|a: int| 0 <= a < rows.len() ==> file_of(#[trigger] rows[a]) is Ok,
        forall|a: int| 0 <= a < rows.len() ==> row_id(#[trigger] rows[a]) != u,
    ensures
        about(picked(kind, rows, id), u) == Seq::<ChangeView>::empty(),
    decreases rows.len(),
{
    if rows.len() > 0 {
        let few = rows.drop_last();
        let last = rows.last();
        assert(last == rows[rows.len() - 1]);
        assert forall|a: int| 0 <= a < few.len() implies file_of(#[trigger] few[a]) is Ok && row_id(
            few[a],
        ) != u by {
            assert(few[a] == rows[a]);
        }
        other_changes_are_not_picked(kind, few, id, u);
        assert(file_of(last) is Ok);
        assert(file_of(last)->Ok_0.file_uuid == row_id(last));
        if change_id(kind, last) == id {
            assert(picked(kind, rows, id).drop_last() =~= picked(kind, few, id));
        }
    }
}

/// A transaction comes after the start of a range, which may have none.
pub open spec fn after_start(from: Option<TxnId>, id: TxnId) -> bool {
    from matches Some(start) ==> id.value > start.value
}

/// The files of a table that a range of transactions added.
pub open spec fn added_in(db: Relations, table_uuid: Uuid, from: Option<TxnId>, to: TxnId) -> Set<
    Uuid,
> {
    Set::new(
        |u: Uuid|
            db.files.dom().contains(u) && db.files[u].table_uuid == table_uuid && after_start(
                from,
                db.files[u].added,
            ) && db.files[u].added.value <= to.value,
    )
}

/// The files of a table that a range of transactions removed.
pub open spec fn removed_in(db: Relations, table_uuid: Uuid, from: Option<TxnId>, to: TxnId) -> Set<
    Uuid,
> {
    Set::new(
        |u: Uuid|
            db.files.dom().contains(u) && db.files[u].table_uuid == table_uuid && (
            db.files[u].removed matches Some(removed) && after_start(from, removed) && removed.value
                <= to.value),
    )
}

/// The schemas of a table that became valid with a range of transactions.
pub open spec fn schemas_in(db: Relations, table_uuid: Uuid, from: Option<TxnId>, to: TxnId) -> Set<
    Uuid,
> {
    Set::new(
        |u: Uuid|
            db.schemas.dom().contains(u) && db.schemas[u].table_uuid == table_uuid && after_start(
                from,
                db.schemas[u].valid_from,
            ) && db.schemas[u].valid_from.value <= to.value,
    )
}

/// The UUID of the schema that a row tells of.
pub open spec fn schema_row_id(row: SchemaRow) -> Uuid {
    parsed_uuid(row.schema_uuid@)->Ok_0
}

/// Rows tell of schemas with their columns, of each once, in any order.
pub open spec fn rows_tell_schemas(
    rows: Seq<(SchemaRow, Vec<ColumnRow>)>,
    db: Relations,
    wanted: Set<Uuid>,
) -> bool {
    &&& forall|i: int|
        0 <= i < rows.len() ==> {
            let u = schema_row_id((#[trigger] rows[i]).0);
            &&& wanted.contains(u)
            &&& row_tells_schema(rows[i].0, u, db.schemas[u])
            &&& rows_tell_columns(rows[i].1@, u, columns_in(db.columns, u))
        }
    &&& forall|i: int, j: int|
        0 <= i < j < rows.len() ==> schema_row_id((#[trigger] rows[i]).0) != schema_row_id(
            (#[trigger] rows[j]).0,
        )
    &&& forall|u: Uuid| #[trigger]
        wanted.contains(u) ==> exists|i: int|
            0 <= i < rows.len() && schema_row_id((#[trigger] rows[i]).0) == u
}

/// Rows tell of a range of transactions of a table: of the transactions, in their order, of the
/// files that they added and removed, and of the schemas that became valid with them.
pub open spec fn rows_tell_range(
    db: Relations,
    table_uuid: Uuid,
    from: Option<TxnId>,
    to: TxnId,
    rows: EventRows,
    ids: Seq<TxnId>,
) -> bool {
    &&& ids_of(rows.transactions@) == std::result::Result::<Seq<TxnId>, ErrorView>::Ok(ids)
    &&& forall|i: int, j: int|
        0 <= i < j < ids.len() ==> (#[trigger] ids[i]).value < (#[trigger] ids[j]).value
    &&& forall|id: TxnId| #[trigger]
        ids.contains(id) <==> on_record(db, table_uuid, id) && after_start(from, id) && id.value
            <= to.value
    &&& rows_tell_files(rows.added@, db.files, added_in(db, table_uuid, from, to))
    &&& rows_tell_files(rows.removed@, db.files, removed_in(db, table_uuid, from, to))
    &&& rows_tell_schemas(rows.schemas@, db, schemas_in(db, table_uuid, from, to))
}

/// The files that a table has where a range of transactions starts.
pub open spec fn files_before(db: Relations, table_uuid: Uuid, from: Option<TxnId>) -> Set<Uuid> {
    match from {
        Some(start) => files_at(db, table_uuid, start).dom(),
        None => Set::empty(),
    }
}

/// The change of a file that rows tell of, if they do.
spec fn told(kind: TxnFileChangeKind, rows: Seq<FileRow>, u: Uuid) -> Option<ChangeView> {
    if exists|j: int| 0 <= j < rows.len() && row_id(#[trigger] rows[j]) == u {
        let j = choose|j: int| 0 <= j < rows.len() && row_id(#[trigger] rows[j]) == u;
        Some(change_told(kind, rows[j]))
    } else {
        None
    }
}

/// A change as a list, if its transaction is among some.
spec fn if_among(change: Option<ChangeView>, ids: Seq<TxnId>) -> Seq<ChangeView> {
    match change {
        Some(c) => if ids.contains(c.transaction_id) {
            seq![c]
        } else {
            Seq::empty()
        },
        None => Seq::empty(),
    }
}

proof fn picked_about(kind: TxnFileChangeKind, rows: Seq<FileRow>, id: TxnId, u: Uuid)
    requires
        forall|a: int, b: int|
            0 <= a < b < rows.len() ==> row_id(#[trigger] rows[a]) != row_id(#[trigger] rows[b]),
        forall|a: int| 0 <= a < rows.len() ==> file_of(#[trigger] rows[a]) is Ok,
    ensures
        about(picked(kind, rows, id), u) == if_among(told(kind, rows, u), seq![id]),
{
    assert(seq![id][0] == id);
    if exists|j: int| 0 <= j < rows.len() && row_id(#[trigger] rows[j]) == u {
        let j = choose|j: int| 0 <= j < rows.len() && row_id(#[trigger] rows[j]) == u;
        a_change_is_picked_once(kind, rows, id, u, j);
        assert(seq![id].contains(change_id(kind, rows[j])) == (change_id(kind, rows[j]) == id));
    } else {
        other_changes_are_not_picked(kind, rows, id, u);
    }
}

/// The log tells of each file that it was added, if it was, and then that it was removed, if it
/// was.
proof fn log_about(
    events: Seq<EventView>,
    ids: Seq<TxnId>,
    added: Seq<FileRow>,
    removed: Seq<FileRow>,
    u: Uuid,
)
    requires
        events.len() == ids.len(),
        forall|i: int, j: int|
            0 <= i < j < ids.len() ==> (#[trigger] ids[i]).value < (#[trigger] ids[j]).value,
        forall|k: int|
            0 <= k < ids.len() ==> (#[trigger] events[k]).file_changes == picked(
                TxnFileChangeKind::Added,
                added,
                ids[k],
            ) + picked(TxnFileChangeKind::Removed, removed, ids[k]),
        forall|a: int, b: int|
            0 <= a < b < added.len() ==> row_id(#[trigger] added[a]) != row_id(#[trigger] added[b]),
        forall|a: int| 0 <= a < added.len() ==> file_of(#[trigger] added[a]) is Ok,
        forall|a: int, b: int|
            0 <= a < b < removed.len() ==> row_id(#[trigger] removed[a]) != row_id(
                #[trigger] removed[b],
            ),
        forall|a: int| 0 <= a < removed.len() ==> file_of(#[trigger] removed[a]) is Ok,
        told(TxnFileChangeKind::Added, added, u) is Some && told(
            TxnFileChangeKind::Removed,
            removed,
            u,
        ) is Some ==> told(TxnFileChangeKind::Added, added, u)->0.transaction_id.value <= told(
            TxnFileChangeKind::Removed,
            removed,
            u,
        )->0.transaction_id.value,
    ensures
        about(all_changes(events), u) == if_among(told(TxnFileChangeKind::Added, added, u), ids)
            + if_among(told(TxnFileChangeKind::Removed, removed, u), ids),
    decreases events.len(),
{
    let a = told(TxnFileChangeKind::Added, added, u);
    let r = told(TxnFileChangeKind::Removed, removed, u);
    if events.len() == 0 {
        assert(about(all_changes(events), u) =~= if_among(a, ids) + if_among(r, ids));
    } else {
        let n = events.len() - 1;
        let few = events.drop_last();
        let fewer = ids.drop_last();
        let id = ids[n];
        assert forall|i: int, j: int| 0 <= i < j < fewer.len() implies (
        #[trigger] fewer[i]).value < (#[trigger] fewer[j]).value by {
            assert(fewer[i] == ids[i] && fewer[j] == ids[j]);
        }
        assert forall|k: int| 0 <= k < fewer.len() implies (#[trigger] few[k]).file_changes
            == picked(TxnFileChangeKind::Added, added, fewer[k]) + picked(
            TxnFileChangeKind::Removed,
            removed,
            fewer[k],
        ) by {
            assert(few[k] == events[k] && fewer[k] == ids[k]);
        }
        log_about(few, fewer, added, removed, u);
        about_both(all_changes(few), events.last().file_changes, u);
        assert(events[n].file_changes == picked(TxnFileChangeKind::Added, added, id) + picked(
            TxnFileChangeKind::Removed,
            removed,
            id,
        ));
        about_both(
            picked(TxnFileChangeKind::Added, added, id),
            picked(TxnFileChangeKind::Removed, removed, id),
            u,
        );
        picked_about(TxnFileChangeKind::Added, added, id, u);
        picked_about(TxnFileChangeKind::Removed, removed, id, u);
        assert forall|x: TxnId| #[trigger] ids.contains(x) == (fewer.contains(x) || seq![
            id,
        ].contains(x)) by {
            assert(seq![id][0] == id);
            if fewer.contains(x) {
                let i = choose|i: int| 0 <= i < fewer.len() && fewer[i] == x;
                assert(ids[i] == x);
            }
            if ids.contains(x) {
                let i = choose|i: int| 0 <= i < ids.len() && ids[i] == x;
                if i < n {
                    assert(fewer[i] == x);
                }
            }
            if seq![id].contains(x) {
                assert(ids[n] == x);
            }
        }
        assert forall|x: TxnId| fewer.contains(x) implies x.value < id.value by {
            let i = choose|i: int| 0 <= i < fewer.len() && fewer[i] == x;
            assert(ids[i] == x);
        }
        assert(about(all_changes(events), u) =~= if_among(a, ids) + if_among(r, ids));
    }
}

proof fn net_of_one(c: ChangeView)
    ensures
        net_of(seq![c]) == net_step(NetView { added: Map::empty(), removed: Map::empty() }, c),
{
    let none = Seq::<ChangeView>::empty();
    assert(net_of(none) == (NetView { added: Map::empty(), removed: Map::empty() }));
    assert(seq![c].drop_last() =~= none);
}

proof fn net_of_two(a: ChangeView, b: ChangeView)
    ensures
        net_of(seq![a, b]) == net_step(net_of(seq![a]), b),
{
    assert(seq![a, b].drop_last() =~= seq![a]);
}

/// The event log of a range of transactions tells the difference between its ends: the files that
/// count as added in it are those that the table has where it ends and not where it starts, and
/// the files that count as removed those that it has where it starts and not where it ends. Each
/// is shown as it is on record.
pub proof fn logs_tell_the_difference(
    db: Relations,
    table_uuid: Uuid,
    from: Option<TxnId>,
    to: TxnId,
    rows: EventRows,
    ids: Seq<TxnId>,
    events: Seq<EventView>,
)
    requires
        files_consistent(db),
        from matches Some(start) ==> start.value <= to.value,
        rows_tell_range(db, table_uuid, from, to, rows, ids),
        events_outcome(rows) == Outcome::Done(events),
    ensures
        ({
            let net = net_of(all_changes(events));
            let then = files_before(db, table_uuid, from);
            let now = files_at(db, table_uuid, to).dom();
            &&& net.added.dom() == now.difference(then)
            &&& net.removed.dom() == then.difference(now)
            &&& forall|u: Uuid| #[trigger]
                net.added.dom().contains(u) ==> shows(net.added[u], u, db.files[u])
            &&& forall|u: Uuid| #[trigger]
                net.removed.dom().contains(u) ==> shows(net.removed[u], u, db.files[u])
        }),
{
    let net = net_of(all_changes(events));
    let then = files_before(db, table_uuid, from);
    let now = files_at(db, table_uuid, to).dom();
    assert(ids.no_duplicates());
    records_hold_their_changes(rows, ids, events);
    assert forall|i: int| 0 <= i < rows.added@.len() implies file_of(
        #[trigger] rows.added@[i],
    ) is Ok && change_id(TxnFileChangeKind::Added, rows.added@[i]) == db.files[row_id(
        rows.added@[i],
    )].added by {
        let u = row_id(rows.added@[i]);
        assert(added_in(db, table_uuid, from, to).contains(u));
        assert(row_tells_file(rows.added@[i], u, db.files[u]));
        assert(on_record(db, table_uuid, db.files[u].added));
        assert(ids.contains(db.files[u].added));
    }
    assert forall|i: int| 0 <= i < rows.removed@.len() implies file_of(
        #[trigger] rows.removed@[i],
    ) is Ok && db.files[row_id(rows.removed@[i])].removed == Some(
        change_id(TxnFileChangeKind::Removed, rows.removed@[i]),
    ) by {
        let u = row_id(rows.removed@[i]);
        assert(removed_in(db, table_uuid, from, to).contains(u));
        assert(row_tells_file(rows.removed@[i], u, db.files[u]));
        assert(on_record(db, table_uuid, db.files[u].removed->0));
        assert(ids.contains(db.files[u].removed->0));
    }
    assert forall|u: Uuid|
        net.added.dom().contains(u) == (now.contains(u) && !then.contains(u))
            && net.removed.dom().contains(u) == (then.contains(u) && !now.contains(u)) && (
        net.added.dom().contains(u) ==> shows(net.added[u], u, db.files[u])) && (
        net.removed.dom().contains(u) ==> shows(net.removed[u], u, db.files[u])) by {
        one_file_is_told(db, table_uuid, from, to, rows, ids, events, u);
    }
    assert(net.added.dom() =~= now.difference(then));
    assert(net.removed.dom() =~= then.difference(now));
}

proof fn one_file_is_told(
    db: Relations,
    table_uuid: Uuid,
    from: Option<TxnId>,
    to: TxnId,
    rows: EventRows,
    ids: Seq<TxnId>,
    events: Seq<EventView>,
    u: Uuid,
)
    requires
        files_consistent(db),
        from matches Some(start) ==> start.value <= to.value,
        rows_tell_range(db, table_uuid, from, to, rows, ids),
        events.len() == ids.len(),
        forall|k: int|
            0 <= k < ids.len() ==> (#[trigger] events[k]).file_changes == picked(
                TxnFileChangeKind::Added,
                rows.added@,
                ids[k],
            ) + picked(TxnFileChangeKind::Removed, rows.removed@, ids[k]),
        forall|i: int|
            0 <= i < rows.added@.len() ==> file_of(#[trigger] rows.added@[i]) is Ok && change_id(
                TxnFileChangeKind::Added,
                rows.added@[i],
            ) == db.files[row_id(rows.added@[i])].added,
        forall|i: int|
            0 <= i < rows.removed@.len() ==> file_of(#[trigger] rows.removed@[i]) is Ok
                && db.files[row_id(rows.removed@[i])].removed == Some(
                change_id(TxnFileChangeKind::Removed, rows.removed@[i]),
            ),
    ensures
        ({
            let net = net_of(all_changes(events));
            let then = files_before(db, table_uuid, from);
            let now = files_at(db, table_uuid, to).dom();
            &&& net.added.dom().contains(u) == (now.contains(u) && !then.contains(u))
            &&& net.removed.dom().contains(u) == (then.contains(u) && !now.contains(u))
            &&& net.added.dom().contains(u) ==> shows(net.added[u], u, db.files[u])
            &&& net.removed.dom().contains(u) ==> shows(net.removed[u], u, db.files[u])
        }),
{
    let added = rows.added@;
    let removed = rows.removed@;
    let a = told(TxnFileChangeKind::Added, added, u);
    let r = told(TxnFileChangeKind::Removed, removed, u);
    let was_added = added_in(db, table_uuid, from, to).contains(u);
    let was_removed = removed_in(db, table_uuid, from, to).contains(u);
    assert(a is Some == was_added);
    assert(r is Some == was_removed);
    if a is Some {
        let j = choose|j: int| 0 <= j < added.len() && row_id(#[trigger] added[j]) == u;
        assert(file_of(added[j]) is Ok);
        file_rows_decode(added[j], u, db.files[u]);
        assert(a->0.transaction_id == db.files[u].added);
        assert(on_record(db, table_uuid, db.files[u].added));
        assert(ids.contains(a->0.transaction_id));
        assert(shows(a->0.file, u, db.files[u]));
    }
    if r is Some {
        let j = choose|j: int| 0 <= j < removed.len() && row_id(#[trigger] removed[j]) == u;
        assert(file_of(removed[j]) is Ok);
        file_rows_decode(removed[j], u, db.files[u]);
        assert(Some(r->0.transaction_id) == db.files[u].removed);
        assert(on_record(db, table_uuid, db.files[u].removed->0));
        assert(ids.contains(r->0.transaction_id));
        assert(shows(r->0.file, u, db.files[u]));
    }
    log_about(events, ids, added, removed, u);
    files_do_not_mix(all_changes(events), u);
    let own = about(all_changes(events), u);
    if a is Some && r is Some {
        assert(own =~= seq![a->0, r->0]);
        net_of_one(a->0);
        net_of_two(a->0, r->0);
    } else if a is Some {
        assert(own =~= seq![a->0]);
        net_of_one(a->0);
    } else if r is Some {
        assert(own =~= seq![r->0]);
        net_of_one(r->0);
    } else {
        assert(own =~= Seq::<ChangeView>::empty());
    }
}

proof fn picked_schema_has_a_row(
    schemas: Seq<(SchemaRow, Vec<ColumnRow>)>,
    id: TxnId,
)
    ensures
        schema_picked(schemas, id) is Some <==> exists|i: int|
            0 <= i < schemas.len() && schema_head_of((#[trigger] schemas[i]).0)->Ok_0.1 == id,
        schema_picked(schemas, id) matches Some((at, view)) ==> at == id && exists|i: int|
            0 <= i < schemas.len() && schema_head_of((#[trigger] schemas[i]).0)->Ok_0.1 == id
                && view == schema_of(
                schema_head_of(schemas[i].0)->Ok_0.0,
                schemas[i].0,
                columns_of(schemas[i].1@)->Done_0,
            )->Ok_0,
    decreases schemas.len(),
{
    if schemas.len() > 0 {
        let few = schemas.drop_last();
        picked_schema_has_a_row(few, id);
        let n = schemas.len() - 1;
        assert(schemas[n] == schemas.last());
        if schema_head_of(schemas.last().0)->Ok_0.1 != id {
            assert forall|i: int| 0 <= i < few.len() implies few[i] == #[trigger] schemas[i] by {}
            if exists|i: int|
                0 <= i < schemas.len() && schema_head_of((#[trigger] schemas[i]).0)->Ok_0.1 == id {
                let i = choose|i: int|
                    0 <= i < schemas.len() && schema_head_of((#[trigger] schemas[i]).0)->Ok_0.1
                        == id;
                assert(few[i] == schemas[i]);
            }
            if let Some((at, view)) = schema_picked(few, id) {
                let i = choose|i: int|
                    0 <= i < few.len() && schema_head_of((#[trigger] few[i]).0)->Ok_0.1 == id
                        && view == schema_of(
                        schema_head_of(few[i].0)->Ok_0.0,
                        few[i].0,
                        columns_of(few[i].1@)->Done_0,
                    )->Ok_0;
                assert(schemas[i] == few[i]);
            }
        }
    }
}

/// A schema of a table that becomes valid with a transaction.
pub open spec fn becomes_valid(db: Relations, table_uuid: Uuid, u: Uuid, id: TxnId) -> bool {
    db.schemas.dom().contains(u) && db.schemas[u].table_uuid == table_uuid
        && db.schemas[u].valid_from == id
}

/// The event log tells of the changes of schema: an event has one exactly if a schema of the table
/// becomes valid with its transaction, and shows that schema as it is on record.
pub proof fn logs_tell_schema_changes(
    db: Relations,
    table_uuid: Uuid,
    from: Option<TxnId>,
    to: TxnId,
    rows: EventRows,
    ids: Seq<TxnId>,
    events: Seq<EventView>,
    k: int,
)
    requires
        rows_tell_range(db, table_uuid, from, to, rows, ids),
        events_outcome(rows) == Outcome::Done(events),
        0 <= k < ids.len(),
    ensures
        events.len() == ids.len(),
        events[k].transaction_id == ids[k],
        events[k].schema_change is Some <==> exists|u: Uuid| #[trigger]
            becomes_valid(db, table_uuid, u, ids[k]),
        events[k].schema_change matches Some((at, view)) ==> at == ids[k] && becomes_valid(
            db,
            table_uuid,
            view.schema_uuid,
            ids[k],
        ) && shows_schema(
            view,
            view.schema_uuid,
            db.schemas[view.schema_uuid],
            columns_in(db.columns, view.schema_uuid),
        ),
{
    let id = ids[k];
    let schemas = rows.schemas@;
    assert(ids.no_duplicates());
    records_hold_their_changes(rows, ids, events);
    picked_schema_has_a_row(schemas, id);
    assert(events[k].schema_change == schema_picked(schemas, id));
    assert(ids.contains(id));
    if exists|u: Uuid| #[trigger] becomes_valid(db, table_uuid, u, id) {
        let u = choose|u: Uuid| #[trigger] becomes_valid(db, table_uuid, u, id);
        assert(schemas_in(db, table_uuid, from, to).contains(u));
        let i = choose|i: int|
            0 <= i < schemas.len() && schema_row_id((#[trigger] schemas[i]).0) == u;
        assert(schema_head_of(schemas[i].0)->Ok_0.1 == id);
    }
    if let Some((at, view)) = schema_picked(schemas, id) {
        let i = choose|i: int|
            0 <= i < schemas.len() && schema_head_of((#[trigger] schemas[i]).0)->Ok_0.1 == id
                && view == schema_of(
                schema_head_of(schemas[i].0)->Ok_0.0,
                schemas[i].0,
                columns_of(schemas[i].1@)->Done_0,
            )->Ok_0;
        let u = schema_row_id(schemas[i].0);
        assert(schemas_in(db, table_uuid, from, to).contains(u));
        schema_rows_decode(
            schemas[i].0,
            schemas[i].1@,
            u,
            db.schemas[u],
            columns_in(db.columns, u),
        );
        assert(becomes_valid(db, table_uuid, u, id));
    }
}

} // verus!
