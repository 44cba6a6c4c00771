//! The event log of a table: what each transaction in a range changed.

use std::collections::HashMap;

use vstd::prelude::*;
use vstd::string::*;

use super::commit::{no_current_transaction, table_not_found};
use super::error::{tells, CatalogError, ErrorView, Refusal, Result};
use super::helpers::{
    bytes_option, parsed_uuid, parsed_uuid_option, uuid_from_row, uuid_from_row_optional,
};
use super::limits::{MAX_COLUMNS_PER_SCHEMA, MAX_FILES_PER_QUERY, MAX_TRANSACTIONS_PER_SCAN};
use super::models::{
    TableIdent, TxnEvent, TxnFileChange, TxnFileChangeKind, TxnId, TxnRangeCursor, TxnSchemaChange,
};
use super::read::{decode_schema, newer_than_current, schema_of, too_many, too_many_error};
use super::rows::{
    columns_of, decode_columns, decode_file, file_of, ColumnRow, FileRow, Outcome, SchemaRow,
    Verdict,
};
use super::schema::{FileView, SchemaView};
use crate::ids::Uuid;

verus! {

broadcast use vstd::std_specs::hash::group_hash_axioms;

/// What a file change holds.
#[verifier::ext_equal]
pub struct ChangeView {
    /// Transaction that made the change.
    pub transaction_id: TxnId,
    /// Kind of change.
    pub kind: TxnFileChangeKind,
    /// The file.
    pub file: FileView,
}

impl View for TxnFileChange {
    type V = ChangeView;

    open spec fn view(&self) -> ChangeView {
        ChangeView { transaction_id: self.transaction_id, kind: self.kind, file: self.file@ }
    }
}

/// What file changes hold.
pub open spec fn change_views(changes: Seq<TxnFileChange>) -> Seq<ChangeView> {
    Seq::new(changes.len(), |i: int| changes[i]@)
}

/// What the event-log record of a transaction holds.
#[verifier::ext_equal]
pub struct EventView {
    /// Transaction ID.
    pub transaction_id: TxnId,
    /// File changes of the transaction.
    pub file_changes: Seq<ChangeView>,
    /// The transaction that changed the schema, and the schema, if it did.
    pub schema_change: Option<(TxnId, SchemaView)>,
}

impl View for TxnEvent {
    type V = EventView;

    open spec fn view(&self) -> EventView {
        EventView {
            transaction_id: self.transaction_id,
            file_changes: change_views(self.file_changes@),
            schema_change: match self.schema_change {
                Some(change) => Some((change.transaction_id, change.schema@)),
                None => None,
            },
        }
    }
}

/// What event-log records hold.
pub open spec fn event_views(events: Seq<TxnEvent>) -> Seq<EventView> {
    Seq::new(events.len(), |i: int| events[i]@)
}

/// The row of a table whose events are asked for.
#[derive(Debug)]
pub struct EventTableRow {
    /// Table UUID.
    pub table_uuid: Vec<u8>,
    /// Current transaction ID.
    pub current_transaction_id: Option<Vec<u8>>,
}

/// What comes of asking for events in a range: it must not reach beyond the current transaction,
/// nor end before it starts.
pub open spec fn events_base_of(
    ident: TableIdent,
    row: Option<EventTableRow>,
    cursor: TxnRangeCursor,
) -> std::result::Result<Uuid, ErrorView> {
    match row {
        None => Err(table_not_found(ident)),
        Some(row) => match parsed_uuid(row.table_uuid@) {
            Err(e) => Err(e),
            Ok(table_uuid) => match parsed_uuid_option(bytes_option(row.current_transaction_id)) {
                Err(e) => Err(e),
                Ok(None) => Err(no_current_transaction()),
                Ok(Some(current)) => if cursor.to_inclusive.value > current.value {
                    Err(newer_than_current())
                } else if cursor.from_exclusive is Some && cursor.from_exclusive->0.value
                    > cursor.to_inclusive.value {
                    Err(
                        ErrorView::InvalidArgument("from transaction must be <= to transaction"@),
                    )
                } else {
                    Ok(table_uuid)
                },
            },
        },
    }
}

/// Looks at the table whose events are asked for.
pub fn open_events(
    ident: &TableIdent,
    row: &Option<EventTableRow>,
    cursor: TxnRangeCursor,
) -> (r: Result<Uuid>)
    ensures
        match r {
            Ok(u) => events_base_of(*ident, *row, cursor) == std::result::Result::<
                Uuid,
                ErrorView,
            >::Ok(u),
            Err(e) => events_base_of(*ident, *row, cursor) == std::result::Result::<
                Uuid,
                ErrorView,
            >::Err(e@),
        },
{
    let row = match row {
        Some(row) => row,
        None => return Err(CatalogError::NotFound(ident.to_string())),
    };
    let table_uuid = match uuid_from_row(&row.table_uuid) {
        Ok(u) => u,
        Err(e) => return Err(e),
    };
    let current = match uuid_from_row_optional(&row.current_transaction_id) {
        Ok(Some(u)) => u,
        Ok(None) => return Err(
            CatalogError::InvalidArgument(String::from_str("table has no current transaction")),
        ),
        Err(e) => return Err(e),
    };
    if cursor.to_inclusive.as_u128() > current.as_u128() {
        return Err(
            CatalogError::InvalidArgument(
                String::from_str("requested transaction is newer than current"),
            ),
        );
    }
    if let Some(from_exclusive) = cursor.from_exclusive {
        if from_exclusive.as_u128() > cursor.to_inclusive.as_u128() {
            return Err(
                CatalogError::InvalidArgument(
                    String::from_str("from transaction must be <= to transaction"),
                ),
            );
        }
    }
    Ok(table_uuid)
}

/// The position of the last record of a transaction.
pub open spec fn record_of(events: Seq<EventView>, id: TxnId) -> Option<int>
    decreases events.len(),
{
    if events.len() == 0 {
        None
    } else if events.last().transaction_id == id {
        Some(events.len() - 1)
    } else {
        record_of(events.drop_last(), id)
    }
}

/// Two logs with records of the same transactions have them at the same positions.
proof fn record_of_depends_on_ids(a: Seq<EventView>, b: Seq<EventView>, id: TxnId)
    requires
        a.len() == b.len(),
        forall|i: int|
            0 <= i < a.len() ==> (#[trigger] a[i]).transaction_id == (
            #[trigger] b[i]).transaction_id,
    ensures
        record_of(a, id) == record_of(b, id),
        record_of(a, id) matches Some(i) ==> 0 <= i < a.len() && a[i].transaction_id == id,
    decreases a.len(),
{
    if a.len() > 0 {
        assert(a.last().transaction_id == b.last().transaction_id);
        assert forall|i: int| 0 <= i < a.drop_last().len() implies (
        #[trigger] a.drop_last()[i]).transaction_id == (
        #[trigger] b.drop_last()[i]).transaction_id by {
            assert(a[i].transaction_id == b[i].transaction_id);
        }
        record_of_depends_on_ids(a.drop_last(), b.drop_last(), id);
    }
}

/// Each change in a log carries the transaction of its record.
pub open spec fn tagged(events: Seq<EventView>) -> bool {
    &&& forall|i: int, k: int|
        0 <= i < events.len() && 0 <= k < events[i].file_changes.len() ==> (
        #[trigger] events[i].file_changes[k]).transaction_id == events[i].transaction_id
    &&& forall|i: int|
        0 <= i < events.len() ==> ((#[trigger] events[i]).schema_change matches Some((id, schema))
            ==> id == events[i].transaction_id && schema.valid_from_transaction_id == id)
}

/// A log without changes yet, with a record for each transaction.
pub open spec fn empty_records(ids: Seq<TxnId>) -> Seq<EventView> {
    Seq::new(
        ids.len(),
        |i: int|
            EventView { transaction_id: ids[i], file_changes: Seq::empty(), schema_change: None },
    )
}

/// What comes of reading transaction ids, up to the first that fails.
pub open spec fn ids_of(rows: Seq<Vec<u8>>) -> std::result::Result<Seq<TxnId>, ErrorView>
    decreases rows.len(),
{
    if rows.len() == 0 {
        Ok(Seq::empty())
    } else {
        match ids_of(rows.drop_last()) {
            Err(e) => Err(e),
            Ok(ids) => match parsed_uuid(rows.last()@) {
                Err(e) => Err(e),
                Ok(id) => Ok(ids.push(id)),
            },
        }
    }
}

proof fn ids_of_stops(rows: Seq<Vec<u8>>, n: nat)
    requires
        n <= rows.len(),
        ids_of(rows.take(n as int)) is Err,
    ensures
        ids_of(rows) == ids_of(rows.take(n as int)),
    decreases rows.len(),
{
    if n == rows.len() {
        assert(rows.take(n as int) =~= rows);
    } else {
        assert(rows.drop_last().take(n as int) =~= rows.take(n as int));
        ids_of_stops(rows.drop_last(), n);
    }
}

/// What comes of starting a log with the transactions of a range.
pub open spec fn start_outcome(rows: Seq<Vec<u8>>) -> std::result::Result<
    Seq<EventView>,
    ErrorView,
> {
    if rows.len() > MAX_TRANSACTIONS_PER_SCAN {
        Err(too_many("transaction scan exceeds limit of "@, MAX_TRANSACTIONS_PER_SCAN))
    } else {
        match ids_of(rows) {
            Err(e) => Err(e),
            Ok(ids) => Ok(empty_records(ids)),
        }
    }
}

/// The log with one more change in a record.
pub open spec fn with_change(events: Seq<EventView>, i: int, change: ChangeView) -> Seq<EventView> {
    events.update(
        i,
        EventView { file_changes: events[i].file_changes.push(change), ..events[i] },
    )
}

/// What comes of logging that a file was added. A transaction outside the log is passed over.
pub open spec fn added_step(events: Seq<EventView>, row: FileRow) -> std::result::Result<
    Seq<EventView>,
    ErrorView,
> {
    match parsed_uuid(row.added_in_transaction_id@) {
        Err(e) => Err(e),
        Ok(id) => match record_of(events, id) {
            None => Ok(events),
            Some(i) => match file_of(row) {
                Err(e) => Err(e),
                Ok(file) => Ok(
                    with_change(
                        events,
                        i,
                        ChangeView { transaction_id: id, kind: TxnFileChangeKind::Added, file },
                    ),
                ),
            },
        },
    }
}

/// What comes of logging that a file was removed. A transaction outside the log is passed over.
pub open spec fn removed_step(events: Seq<EventView>, row: FileRow) -> std::result::Result<
    Seq<EventView>,
    ErrorView,
> {
    match parsed_uuid_option(bytes_option(row.removed_in_transaction_id)) {
        Err(e) => Err(e),
        Ok(None) => Err(ErrorView::InvalidArgument("missing removed transaction id"@)),
        Ok(Some(id)) => match record_of(events, id) {
            None => Ok(events),
            Some(i) => match file_of(row) {
                Err(e) => Err(e),
                Ok(file) => Ok(
                    with_change(
                        events,
                        i,
                        ChangeView { transaction_id: id, kind: TxnFileChangeKind::Removed, file },
                    ),
                ),
            },
        },
    }
}

/// What comes of logging files of one kind of change, up to the first that fails.
pub open spec fn changes_of(
    kind: TxnFileChangeKind,
    events: Seq<EventView>,
    rows: Seq<FileRow>,
) -> std::result::Result<Seq<EventView>, ErrorView>
    decreases rows.len(),
{
    if rows.len() == 0 {
        Ok(events)
    } else {
        match changes_of(kind, events, rows.drop_last()) {
            Err(e) => Err(e),
            Ok(events) => match kind {
                TxnFileChangeKind::Added => added_step(events, rows.last()),
                TxnFileChangeKind::Removed => removed_step(events, rows.last()),
            },
        }
    }
}

proof fn changes_of_stops(
    kind: TxnFileChangeKind,
    events: Seq<EventView>,
    rows: Seq<FileRow>,
    n: nat,
)
    requires
        n <= rows.len(),
        changes_of(kind, events, rows.take(n as int)) is Err,
    ensures
        changes_of(kind, events, rows) == changes_of(kind, events, rows.take(n as int)),
    decreases rows.len(),
{
    if n == rows.len() {
        assert(rows.take(n as int) =~= rows);
    } else {
        assert(rows.drop_last().take(n as int) =~= rows.take(n as int));
        changes_of_stops(kind, events, rows.drop_last(), n);
    }
}

/// What comes of logging the files that were added in a range.
pub open spec fn added_outcome(events: Seq<EventView>, rows: Seq<FileRow>) -> std::result::Result<
    Seq<EventView>,
    ErrorView,
> {
    if rows.len() > MAX_FILES_PER_QUERY {
        Err(too_many("added file events exceed limit of "@, MAX_FILES_PER_QUERY))
    } else {
        changes_of(TxnFileChangeKind::Added, events, rows)
    }
}

/// What comes of logging the files that were removed in a range.
pub open spec fn removed_outcome(events: Seq<EventView>, rows: Seq<FileRow>) -> std::result::Result<
    Seq<EventView>,
    ErrorView,
> {
    if rows.len() > MAX_FILES_PER_QUERY {
        Err(too_many("removed file events exceed limit of "@, MAX_FILES_PER_QUERY))
    } else {
        changes_of(TxnFileChangeKind::Removed, events, rows)
    }
}

/// What comes of reading which schema became valid when.
pub open spec fn schema_head_of(row: SchemaRow) -> std::result::Result<(Uuid, TxnId), ErrorView> {
    match parsed_uuid(row.schema_uuid@) {
        Err(e) => Err(e),
        Ok(schema_uuid) => match parsed_uuid(row.valid_from_transaction_id@) {
            Err(e) => Err(e),
            Ok(valid_from) => Ok((schema_uuid, valid_from)),
        },
    }
}

/// What comes of logging that a schema became valid. A transaction outside the log is passed
/// over, once the columns of its schema have been read.
pub open spec fn schema_outcome(
    events: Seq<EventView>,
    row: SchemaRow,
    columns: Seq<ColumnRow>,
) -> Outcome<Seq<EventView>> {
    match schema_head_of(row) {
        Err(e) => Outcome::Refused(Refusal::Exact(e)),
        Ok((schema_uuid, valid_from)) => match columns_of(columns) {
            Outcome::Panics => Outcome::Panics,
            Outcome::Refused(why) => Outcome::Refused(why),
            Outcome::Done(columns) => match record_of(events, valid_from) {
                None => Outcome::Done(events),
                Some(i) => match schema_of(schema_uuid, row, columns) {
                    Err(e) => Outcome::Refused(Refusal::Exact(e)),
                    Ok(schema) => Outcome::Done(
                        events.update(
                            i,
                            EventView { schema_change: Some((valid_from, schema)), ..events[i] },
                        ),
                    ),
                },
            },
        },
    }
}

/// Checks the number of schema changes in a range, of which the query asks for one more than the
/// limit.
pub fn check_schema_count(count: usize) -> (r: Result<()>)
    ensures
        r is Ok <==> count <= 1_000,
        match r {
            Ok(_) => count <= MAX_COLUMNS_PER_SCHEMA,
            Err(e) => count > MAX_COLUMNS_PER_SCHEMA && e@ == too_many(
                "schema change events exceed limit of "@,
                MAX_COLUMNS_PER_SCHEMA,
            ),
        },
{
    if count > MAX_COLUMNS_PER_SCHEMA as usize {
        return Err(
            too_many_error("schema change events exceed limit of ", MAX_COLUMNS_PER_SCHEMA),
        );
    }
    Ok(())
}

/// Reads which schema became valid when.
pub fn read_schema_head(row: &SchemaRow) -> (r: Result<(Uuid, TxnId)>)
    ensures
        match r {
            Ok(head) => schema_head_of(*row) == std::result::Result::<
                (Uuid, TxnId),
                ErrorView,
            >::Ok(head),
            Err(e) => schema_head_of(*row) == std::result::Result::<
                (Uuid, TxnId),
                ErrorView,
            >::Err(e@),
        },
{
    let schema_uuid = match uuid_from_row(&row.schema_uuid) {
        Ok(u) => u,
        Err(e) => return Err(e),
    };
    let valid_from = match uuid_from_row(&row.valid_from_transaction_id) {
        Ok(u) => u,
        Err(e) => return Err(e),
    };
    Ok((schema_uuid, valid_from))
}

/// The event log of a range of transactions, while it is filled.
#[derive(Debug)]
pub struct EventLog {
    events: Vec<TxnEvent>,
    index: HashMap<u128, usize>,
}

impl View for EventLog {
    type V = Seq<EventView>;

    closed spec fn view(&self) -> Seq<EventView> {
        event_views(self.events@)
    }
}

impl EventLog {
    /// The index knows where the last record of each transaction is, and each change carries the
    /// transaction of its record.
    pub closed spec fn wf(&self) -> bool {
        &&& tagged(self@)
        &&& forall|v: u128|
            #![trigger self.index@.dom().contains(v)]
            match record_of(self@, Uuid { value: v }) {
                Some(i) => self.index@.dom().contains(v) && self.index@[v] as int == i,
                None => !self.index@.dom().contains(v),
            }
    }

    /// Starts a log with the transactions of a range, in their order.
    pub fn start(rows: Vec<Vec<u8>>) -> (r: Result<EventLog>)
        ensures
            match r {
                Ok(log) => log.wf() && start_outcome(rows@) == std::result::Result::<
                    Seq<EventView>,
                    ErrorView,
                >::Ok(log@),
                Err(e) => start_outcome(rows@) == std::result::Result::<
                    Seq<EventView>,
                    ErrorView,
                >::Err(e@),
            },
    {
        if rows.len() > MAX_TRANSACTIONS_PER_SCAN as usize {
            return Err(
                too_many_error("transaction scan exceeds limit of ", MAX_TRANSACTIONS_PER_SCAN),
            );
        }
        let mut log = EventLog { events: Vec::new(), index: HashMap::new() };
        let ghost mut ids: Seq<TxnId> = Seq::empty();
        assert(rows@.take(0) =~= Seq::<Vec<u8>>::empty());
        assert(log@ =~= empty_records(ids));
        for i in 0..rows.len()
            invariant
                rows@.len() <= MAX_TRANSACTIONS_PER_SCAN,
                log.wf(),
                log.events@.len() == i,
                ids_of(rows@.take(i as int)) == std::result::Result::<Seq<TxnId>, ErrorView>::Ok(
                    ids,
                ),
                log@ == empty_records(ids),
        {
            proof {
                assert(rows@.take(i + 1).drop_last() =~= rows@.take(i as int));
                assert(rows@.take(i + 1).last() == rows@[i as int]);
            }
            let transaction_id = match uuid_from_row(&rows[i]) {
                Ok(u) => u,
                Err(e) => {
                    proof {
                        ids_of_stops(rows@, (i + 1) as nat);
                    }
                    return Err(e);
                },
            };
            let ghost before = log@;
            let ghost old_index = log.index@;
            log.index.insert(transaction_id.value, i);
            let event = TxnEvent {
                transaction_id,
                file_changes: Vec::new(),
                schema_change: None,
            };
            log.events.push(event);
            proof {
                ids = ids.push(transaction_id);
                assert(change_views(event.file_changes@) =~= Seq::<ChangeView>::empty());
                assert(log@ =~= before.push(event@));
                assert(log@ =~= empty_records(ids));
                assert(log@.drop_last() =~= before);
                assert(Uuid { value: transaction_id.value } == transaction_id);
                assert forall|v: u128|
                    #![trigger log.index@.dom().contains(v)]
                    match record_of(log@, Uuid { value: v }) {
                        Some(k) => log.index@.dom().contains(v) && log.index@[v] as int == k,
                        None => !log.index@.dom().contains(v),
                    } by {
                    if v != transaction_id.value {
                        assert(record_of(log@, Uuid { value: v }) == record_of(
                            before,
                            Uuid { value: v },
                        ));
                        assert(old_index.dom().contains(v) == log.index@.dom().contains(v));
                    }
                }
                assert(tagged(log@));
            }
        }
        assert(rows@.take(rows@.len() as int) =~= rows@);
        Ok(log)
    }

    fn find(&self, id: TxnId) -> (r: Option<usize>)
        requires
            self.wf(),
        ensures
            match r {
                Some(i) => record_of(self@, id) == Some(i as int) && i < self.events@.len()
                    && self@[i as int].transaction_id == id,
                None => record_of(self@, id) is None,
            },
    {
        proof {
            assert(Uuid { value: id.value } == id);
            record_of_depends_on_ids(self@, self@, id);
        }
        match self.index.get(&id.value) {
            Some(i) => Some(*i),
            None => None,
        }
    }

    fn push_change(&mut self, i: usize, change: TxnFileChange)
        requires
            old(self).wf(),
            i < old(self).events@.len(),
            change.transaction_id == old(self)@[i as int].transaction_id,
        ensures
            final(self).wf(),
            final(self)@ == with_change(old(self)@, i as int, change@),
    {
        let ghost before = self@;
        let ghost old_changes = self.events@[i as int].file_changes@;
        self.events[i].file_changes.push(change);
        proof {
            assert(change_views(self.events@[i as int].file_changes@) =~= change_views(
                old_changes,
            ).push(change@));
            assert(self@ =~= with_change(before, i as int, change@));
            assert forall|v: u128|
                #![trigger self.index@.dom().contains(v)]
                match record_of(self@, Uuid { value: v }) {
                    Some(k) => self.index@.dom().contains(v) && self.index@[v] as int == k,
                    None => !self.index@.dom().contains(v),
                } by {
                record_of_depends_on_ids(before, self@, Uuid { value: v });
            }
            assert(tagged(self@)) by {
                assert forall|a: int, k: int|
                    0 <= a < self@.len() && 0 <= k < self@[a].file_changes.len() implies (
                #[trigger] self@[a].file_changes[k]).transaction_id
                    == self@[a].transaction_id by {
                    if a != i || k < before[a].file_changes.len() {
                        assert(self@[a].file_changes[k] == before[a].file_changes[k]);
                    }
                }
                assert forall|a: int| 0 <= a < self@.len() implies ((
                #[trigger] self@[a]).schema_change matches Some((id, schema)) ==> id
                    == self@[a].transaction_id && schema.valid_from_transaction_id == id) by {
                    assert(self@[a].schema_change == before[a].schema_change);
                }
            }
        }
    }

    fn log_added(&mut self, row: FileRow) -> (r: Result<()>)
        requires
            old(self).wf(),
        ensures
            match r {
                Ok(_) => final(self).wf() && added_step(old(self)@, row) == std::result::Result::<
                    Seq<EventView>,
                    ErrorView,
                >::Ok(final(self)@),
                Err(e) => added_step(old(self)@, row) == std::result::Result::<
                    Seq<EventView>,
                    ErrorView,
                >::Err(e@),
            },
    {
        let transaction_id = match uuid_from_row(&row.added_in_transaction_id) {
            Ok(u) => u,
            Err(e) => return Err(e),
        };
        if let Some(i) = self.find(transaction_id) {
            match decode_file(row) {
                Ok(file) => self.push_change(
                    i,
                    TxnFileChange { transaction_id, kind: TxnFileChangeKind::Added, file },
                ),
                Err(e) => return Err(e),
            }
        }
        Ok(())
    }

    fn log_removed(&mut self, row: FileRow) -> (r: Result<()>)
        requires
            old(self).wf(),
        ensures
            match r {
                Ok(_) => final(self).wf() && removed_step(old(self)@, row)
                    == std::result::Result::<Seq<EventView>, ErrorView>::Ok(final(self)@),
                Err(e) => removed_step(old(self)@, row) == std::result::Result::<
                    Seq<EventView>,
                    ErrorView,
                >::Err(e@),
            },
    {
        let transaction_id = match uuid_from_row_optional(&row.removed_in_transaction_id) {
            Ok(Some(u)) => u,
            Ok(None) => return Err(
                CatalogError::InvalidArgument(String::from_str("missing removed transaction id")),
            ),
            Err(e) => return Err(e),
        };
        if let Some(i) = self.find(transaction_id) {
            match decode_file(row) {
                Ok(file) => self.push_change(
                    i,
                    TxnFileChange { transaction_id, kind: TxnFileChangeKind::Removed, file },
                ),
                Err(e) => return Err(e),
            }
        }
        Ok(())
    }

    /// Logs the files that were added in the range, of which the query asks for one more than the
    /// limit.
    pub fn add_added(&mut self, rows: Vec<FileRow>) -> (r: Result<()>)
        requires
            old(self).wf(),
        ensures
            match r {
                Ok(_) => final(self).wf() && added_outcome(old(self)@, rows@)
                    == std::result::Result::<Seq<EventView>, ErrorView>::Ok(final(self)@),
                Err(e) => added_outcome(old(self)@, rows@) == std::result::Result::<
                    Seq<EventView>,
                    ErrorView,
                >::Err(e@),
            },
    {
        if rows.len() > MAX_FILES_PER_QUERY as usize {
            return Err(too_many_error("added file events exceed limit of ", MAX_FILES_PER_QUERY));
        }
        let ghost all = rows@;
        let ghost begin = self@;
        let ghost kind = TxnFileChangeKind::Added;
        assert(all.take(0) =~= Seq::<FileRow>::empty());
        for row in it: rows
            invariant
                it.seq() == all,
                all == rows@,
                all.len() <= MAX_FILES_PER_QUERY,
                begin == old(self)@,
                kind == TxnFileChangeKind::Added,
                self.wf(),
                changes_of(kind, begin, all.take(it.index() as int)) == std::result::Result::<
                    Seq<EventView>,
                    ErrorView,
                >::Ok(self@),
        {
            let ghost i = it.index() as int;
            proof {
                assert(all.take(i + 1).drop_last() =~= all.take(i));
                assert(all.take(i + 1).last() == row);
                if changes_of(kind, begin, all.take(i + 1)) is Err {
                    changes_of_stops(kind, begin, all, (i + 1) as nat);
                }
            }
            match self.log_added(row) {
                Ok(_) => {},
                Err(e) => return Err(e),
            }
        }
        assert(all.take(all.len() as int) =~= all);
        Ok(())
    }

    /// Logs the files that were removed in the range, of which the query asks for one more than
    /// the limit.
    pub fn add_removed(&mut self, rows: Vec<FileRow>) -> (r: Result<()>)
        requires
            old(self).wf(),
        ensures
            match r {
                Ok(_) => final(self).wf() && removed_outcome(old(self)@, rows@)
                    == std::result::Result::<Seq<EventView>, ErrorView>::Ok(final(self)@),
                Err(e) => removed_outcome(old(self)@, rows@) == std::result::Result::<
                    Seq<EventView>,
                    ErrorView,
                >::Err(e@),
            },
    {
        if rows.len() > MAX_FILES_PER_QUERY as usize {
            return Err(
                too_many_error("removed file events exceed limit of ", MAX_FILES_PER_QUERY),
            );
        }
        let ghost all = rows@;
        let ghost begin = self@;
        let ghost kind = TxnFileChangeKind::Removed;
        assert(all.take(0) =~= Seq::<FileRow>::empty());
        for row in it: rows
            invariant
                it.seq() == all,
                all == rows@,
                all.len() <= MAX_FILES_PER_QUERY,
                begin == old(self)@,
                kind == TxnFileChangeKind::Removed,
                self.wf(),
                changes_of(kind, begin, all.take(it.index() as int)) == std::result::Result::<
                    Seq<EventView>,
                    ErrorView,
                >::Ok(self@),
        {
            let ghost i = it.index() as int;
            proof {
                assert(all.take(i + 1).drop_last() =~= all.take(i));
                assert(all.take(i + 1).last() == row);
                if changes_of(kind, begin, all.take(i + 1)) is Err {
                    changes_of_stops(kind, begin, all, (i + 1) as nat);
                }
            }
            match self.log_removed(row) {
                Ok(_) => {},
                Err(e) => return Err(e),
            }
        }
        assert(all.take(all.len() as int) =~= all);
        Ok(())
    }

    /// Logs that a schema became valid.
    pub fn add_schema(&mut self, row: &SchemaRow, columns: Vec<ColumnRow>) -> (r: Verdict<()>)
        requires
            old(self).wf(),
        ensures
            ({
                let wanted = schema_outcome(old(self)@, *row, columns@);
                match r {
                    Verdict::Done(_) => final(self).wf() && wanted == Outcome::Done(final(self)@),
                    Verdict::Refused(e) => wanted is Refused && tells(e, wanted->Refused_0),
                    Verdict::Panics => wanted is Panics,
                }
            }),
    {
        let ghost before = self@;
        let (schema_uuid, valid_from) = match read_schema_head(row) {
            Ok(head) => head,
            Err(e) => return Verdict::Refused(e),
        };
        let columns = match decode_columns(columns) {
            Verdict::Done(columns) => columns,
            Verdict::Refused(e) => return Verdict::Refused(e),
            Verdict::Panics => return Verdict::Panics,
        };
        if let Some(i) = self.find(valid_from) {
            let schema = match decode_schema(schema_uuid, row, columns) {
                Ok(schema) => schema,
                Err(e) => return Verdict::Refused(e),
            };
            let ghost view = schema@;
            self.events[i].schema_change = Some(
                TxnSchemaChange { transaction_id: valid_from, schema },
            );
            proof {
                assert(self@ =~= before.update(
                    i as int,
                    EventView { schema_change: Some((valid_from, view)), ..before[i as int] },
                ));
                assert forall|v: u128|
                    #![trigger self.index@.dom().contains(v)]
                    match record_of(self@, Uuid { value: v }) {
                        Some(k) => self.index@.dom().contains(v) && self.index@[v] as int == k,
                        None => !self.index@.dom().contains(v),
                    } by {
                    record_of_depends_on_ids(before, self@, Uuid { value: v });
                }
                assert(tagged(self@)) by {
                    assert forall|a: int, k: int|
                        0 <= a < self@.len() && 0 <= k < self@[a].file_changes.len() implies (
                    #[trigger] self@[a].file_changes[k]).transaction_id
                        == self@[a].transaction_id by {
                        assert(self@[a].file_changes[k] == before[a].file_changes[k]);
                    }
                    assert forall|a: int| 0 <= a < self@.len() implies ((
                    #[trigger] self@[a]).schema_change matches Some((id, schema)) ==> id
                        == self@[a].transaction_id && schema.valid_from_transaction_id == id) by {
                        if a != i {
                            assert(self@[a] == before[a]);
                        }
                    }
                }
            }
        }
        Verdict::Done(())
    }

    /// The records of the log, in the order of their transactions.
    pub fn into_events(self) -> (r: Vec<TxnEvent>)
        requires
            self.wf(),
        ensures
            event_views(r@) == self@,
            tagged(event_views(r@)),
    {
        self.events
    }
}

/// The rows that the events of a range are read from.
#[derive(Debug)]
pub struct EventRows {
    /// The transactions of the range, in their order.
    pub transactions: Vec<Vec<u8>>,
    /// The files that were added in the range.
    pub added: Vec<FileRow>,
    /// The files that were removed in the range.
    pub removed: Vec<FileRow>,
    /// The schemas that became valid in the range, with their columns.
    pub schemas: Vec<(SchemaRow, Vec<ColumnRow>)>,
}

/// What comes of logging schemas, up to the first that fails.
pub open spec fn schemas_of(
    events: Seq<EventView>,
    schemas: Seq<(SchemaRow, Vec<ColumnRow>)>,
) -> Outcome<Seq<EventView>>
    decreases schemas.len(),
{
    if schemas.len() == 0 {
        Outcome::Done(events)
    } else {
        match schemas_of(events, schemas.drop_last()) {
            Outcome::Done(events) => schema_outcome(
                events,
                schemas.last().0,
                schemas.last().1@,
            ),
            stopped => stopped,
        }
    }
}

proof fn schemas_of_stops(
    events: Seq<EventView>,
    schemas: Seq<(SchemaRow, Vec<ColumnRow>)>,
    n: nat,
)
    requires
        n <= schemas.len(),
        !(schemas_of(events, schemas.take(n as int)) is Done),
    ensures
        schemas_of(events, schemas) == schemas_of(events, schemas.take(n as int)),
    decreases schemas.len(),
{
    if n == schemas.len() {
        assert(schemas.take(n as int) =~= schemas);
    } else {
        assert(schemas.drop_last().take(n as int) =~= schemas.take(n as int));
        schemas_of_stops(events, schemas.drop_last(), n);
    }
}

/// What comes of reading the events of a range: first the transactions, then the files added,
/// the files removed and the schemas.
pub open spec fn events_outcome(rows: EventRows) -> Outcome<Seq<EventView>> {
    match start_outcome(rows.transactions@) {
        Err(e) => Outcome::Refused(Refusal::Exact(e)),
        Ok(events) => match added_outcome(events, rows.added@) {
            Err(e) => Outcome::Refused(Refusal::Exact(e)),
            Ok(events) => match removed_outcome(events, rows.removed@) {
                Err(e) => Outcome::Refused(Refusal::Exact(e)),
                Ok(events) => if rows.schemas@.len() > MAX_COLUMNS_PER_SCHEMA {
                    Outcome::Refused(
                        Refusal::Exact(
                            too_many(
                                "schema change events exceed limit of "@,
                                MAX_COLUMNS_PER_SCHEMA,
                            ),
                        ),
                    )
                } else {
                    schemas_of(events, rows.schemas@)
                },
            },
        },
    }
}

/// Reads the events of a range.
pub fn read_events(rows: EventRows) -> (r: Verdict<Vec<TxnEvent>>)
    ensures
        ({
            let wanted = events_outcome(rows);
            match r {
                Verdict::Done(events) => wanted == Outcome::Done(event_views(events@)) && tagged(
                    event_views(events@),
                ),
                Verdict::Refused(e) => wanted is Refused && tells(e, wanted->Refused_0),
                Verdict::Panics => wanted is Panics,
            }
        }),
{
    let mut log = match EventLog::start(rows.transactions) {
        Ok(log) => log,
        Err(e) => return Verdict::Refused(e),
    };
    match log.add_added(rows.added) {
        Ok(_) => {},
        Err(e) => return Verdict::Refused(e),
    }
    match log.add_removed(rows.removed) {
        Ok(_) => {},
        Err(e) => return Verdict::Refused(e),
    }
    match check_schema_count(rows.schemas.len()) {
        Ok(_) => {},
        Err(e) => return Verdict::Refused(e),
    }
    let schemas = rows.schemas;
    let ghost all = schemas@;
    let ghost begin = log@;
    let ghost wanted = events_outcome(rows);
    assert(all.take(0) =~= Seq::<(SchemaRow, Vec<ColumnRow>)>::empty());
    for pair in it: schemas
        invariant
            it.seq() == all,
            log.wf(),
            wanted == schemas_of(begin, all),
            wanted == events_outcome(rows),
            schemas_of(begin, all.take(it.index() as int)) == Outcome::Done(log@),
    {
        let ghost i = it.index() as int;
        proof {
            assert(all.take(i + 1).drop_last() =~= all.take(i));
            assert(all.take(i + 1).last() == pair);
            if !(schemas_of(begin, all.take(i + 1)) is Done) {
                schemas_of_stops(begin, all, (i + 1) as nat);
            }
        }
        let (row, columns) = pair;
        match log.add_schema(&row, columns) {
            Verdict::Done(_) => {},
            Verdict::Refused(e) => return Verdict::Refused(e),
            Verdict::Panics => return Verdict::Panics,
        }
    }
    assert(all.take(all.len() as int) =~= all);
    Verdict::Done(log.into_events())
}

} // verus!
