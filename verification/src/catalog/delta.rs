//! The difference between two snapshots of a table.

use std::collections::HashMap;

use vstd::prelude::*;

use super::events::{change_views, event_views, ChangeView, EventView};
use super::models::{
    TableDelta, TableProperties, TableView, TxnEvent, TxnFileChange, TxnFileChangeKind, TxnId,
};
use super::schema::{file_views, File, FileView, Schema, SchemaView};
use crate::ids::Uuid;
use crate::json::{same_object, values_equal_themselves, JsonModel, JsonObject};

verus! {

broadcast use vstd::std_specs::hash::group_hash_axioms;

/// The net effect of changes: files that were added and stayed, and files that were removed and
/// did not come back, by UUID.
#[verifier::ext_equal]
pub struct NetView {
    /// Files added.
    pub added: Map<Uuid, FileView>,
    /// Files removed.
    pub removed: Map<Uuid, FileView>,
}

/// The net effect after one more change. A file that is added counts as added, whether or not it
/// was removed before. A file that is removed cancels that it was added before, or else counts as
/// removed.
pub open spec fn net_step(net: NetView, change: ChangeView) -> NetView {
    let uuid = change.file.file_uuid;
    match change.kind {
        TxnFileChangeKind::Added => NetView {
            added: net.added.insert(uuid, change.file),
            removed: net.removed.remove(uuid),
        },
        TxnFileChangeKind::Removed => if net.added.dom().contains(uuid) {
            NetView { added: net.added.remove(uuid), removed: net.removed }
        } else {
            NetView { added: net.added, removed: net.removed.insert(uuid, change.file) }
        },
    }
}

/// The net effect of changes.
pub open spec fn net_of(changes: Seq<ChangeView>) -> NetView
    decreases changes.len(),
{
    if changes.len() == 0 {
        NetView { added: Map::empty(), removed: Map::empty() }
    } else {
        net_step(net_of(changes.drop_last()), changes.last())
    }
}

/// The changes of all records, in their order.
pub open spec fn all_changes(events: Seq<EventView>) -> Seq<ChangeView>
    decreases events.len(),
{
    if events.len() == 0 {
        Seq::empty()
    } else {
        all_changes(events.drop_last()) + events.last().file_changes
    }
}

/// The files are those of the map, each once, in any order.
pub open spec fn lists_files(files: Seq<FileView>, map: Map<Uuid, FileView>) -> bool {
    &&& forall|i: int|
        0 <= i < files.len() ==> map.dom().contains((#[trigger] files[i]).file_uuid)
            && map[files[i].file_uuid] == files[i]
    &&& forall|i: int, j: int|
        0 <= i < j < files.len() ==> (#[trigger] files[i]).file_uuid != (
        #[trigger] files[j]).file_uuid
    &&& forall|u: Uuid|
        map.dom().contains(u) ==> exists|i: int|
            0 <= i < files.len() && (#[trigger] files[i]).file_uuid == u
}

/// The map from numbers of UUIDs to files holds what the map from UUIDs does.
spec fn mirrors(exec: Map<u128, File>, map: Map<Uuid, FileView>) -> bool {
    &&& forall|v: u128|
        #![trigger exec.dom().contains(v)]
        exec.dom().contains(v) == map.dom().contains(Uuid { value: v })
    &&& forall|v: u128| #[trigger] exec.dom().contains(v) ==> exec[v]@ == map[Uuid { value: v }]
    &&& forall|u: Uuid| #[trigger] map.dom().contains(u) ==> map[u].file_uuid == u
}

fn drain(map: HashMap<u128, File>, order: &Vec<u128>, Ghost(model): Ghost<Map<Uuid, FileView>>) -> (r: Vec<
    File,
>)
    requires
        mirrors(map@, model),
        forall|v: u128| #[trigger] map@.dom().contains(v) ==> order@.contains(v),
    ensures
        lists_files(file_views(r@), model),
{
    let mut left = map;
    let mut files: Vec<File> = Vec::new();
    for i in 0..order.len()
        invariant
            mirrors(map@, model),
            forall|v: u128| #[trigger] map@.dom().contains(v) ==> order@.contains(v),
            forall|v: u128|
                #[trigger] left@.dom().contains(v) ==> map@.dom().contains(v) && left@[v]
                    == map@[v],
            forall|v: u128|
                #[trigger] map@.dom().contains(v) ==> left@.dom().contains(v) || exists|k: int|
                    0 <= k < files@.len() && (#[trigger] files@[k]).file_uuid == (Uuid { value: v }),
            forall|k: int|
                0 <= k < files@.len() ==> map@.dom().contains(
                    (#[trigger] files@[k]).file_uuid.value,
                ) && files@[k] == map@[files@[k].file_uuid.value] && !left@.dom().contains(
                    files@[k].file_uuid.value,
                ),
            forall|k: int, j: int|
                0 <= k < j < files@.len() ==> (#[trigger] files@[k]).file_uuid != (
                #[trigger] files@[j]).file_uuid,
            forall|k: int|
                0 <= k < i ==> !left@.dom().contains(#[trigger] order@[k]),
    {
        let ghost before = left@;
        let ghost old_files = files@;
        let v: u128 = order[i];
        if let Some(file) = left.remove(&v) {
            proof {
                let u = Uuid { value: v };
                assert(map@.dom().contains(v));
                assert(model.dom().contains(u));
                assert(file@ == model[u]);
                assert(file.file_uuid == u);
            }
            files.push(file);
            proof {
                assert forall|w: u128| #[trigger] map@.dom().contains(w) implies left@.dom().contains(
                    w,
                ) || exists|k: int|
                    0 <= k < files@.len() && (#[trigger] files@[k]).file_uuid == (Uuid {
                        value: w,
                    }) by {
                    if w == v {
                        assert(files@[old_files.len() as int].file_uuid == (Uuid { value: w }));
                    } else if !before.dom().contains(w) {
                        let k = choose|k: int|
                            0 <= k < old_files.len() && (#[trigger] old_files[k]).file_uuid == (
                            Uuid { value: w });
                        assert(files@[k] == old_files[k]);
                    } else {
                        assert(left@.dom().contains(w));
                    }
                }
                assert forall|k: int, j: int| 0 <= k < j < files@.len() implies (
                #[trigger] files@[k]).file_uuid != (#[trigger] files@[j]).file_uuid by {
                    if j == old_files.len() {
                        assert(files@[k] == old_files[k]);
                        assert(!before.dom().contains(old_files[k].file_uuid.value));
                    }
                }
            }
        }
    }
    proof {
        let views = file_views(files@);
        assert forall|i: int| 0 <= i < views.len() implies model.dom().contains(
            (#[trigger] views[i]).file_uuid,
        ) && model[views[i].file_uuid] == views[i] by {
            assert(views[i] == files@[i]@);
            let v = files@[i].file_uuid.value;
            assert(map@.dom().contains(v));
            assert(Uuid { value: v } == files@[i].file_uuid);
        }
        assert forall|i: int, j: int| 0 <= i < j < views.len() implies (
        #[trigger] views[i]).file_uuid != (#[trigger] views[j]).file_uuid by {
            assert(files@[i].file_uuid != files@[j].file_uuid);
        }
        assert forall|u: Uuid| model.dom().contains(u) implies exists|i: int|
            0 <= i < views.len() && (#[trigger] views[i]).file_uuid == u by {
            let v = u.value;
            assert(Uuid { value: v } == u);
            assert(map@.dom().contains(v));
            assert(order@.contains(v));
            let n = choose|n: int| 0 <= n < order@.len() && order@[n] == v;
            assert(!left@.dom().contains(order@[n]));
            let k = choose|k: int|
                0 <= k < files@.len() && (#[trigger] files@[k]).file_uuid == (Uuid { value: v });
            assert(views[k].file_uuid == u);
        }
    }
    files
}

/// The maps of files added and removed so far, and the UUIDs they were met under.
struct Tally {
    added: HashMap<u128, File>,
    removed: HashMap<u128, File>,
    order: Vec<u128>,
}

impl Tally {
    spec fn holds(&self, net: NetView) -> bool {
        &&& mirrors(self.added@, net.added)
        &&& mirrors(self.removed@, net.removed)
        &&& forall|v: u128| #[trigger] self.added@.dom().contains(v) ==> self.order@.contains(v)
        &&& forall|v: u128| #[trigger] self.removed@.dom().contains(v) ==> self.order@.contains(v)
    }

    fn count(&mut self, change: &TxnFileChange, Ghost(net): Ghost<NetView>)
        requires
            old(self).holds(net),
        ensures
            final(self).holds(net_step(net, change@)),
    {
        let v: u128 = change.file.file_uuid.value;
        let ghost u = change.file.file_uuid;
        let ghost next = net_step(net, change@);
        let ghost old_order = self.order@;
        assert(Uuid { value: v } == u);
        self.order.push(v);
        proof {
            assert forall|w: u128| old_order.contains(w) implies self.order@.contains(w) by {
                let k = choose|k: int| 0 <= k < old_order.len() && old_order[k] == w;
                assert(self.order@[k] == w);
            }
            assert(self.order@[old_order.len() as int] == v);
            assert(self.order@.contains(v));
        }
        match change.kind {
            TxnFileChangeKind::Added => {
                self.removed.remove(&v);
                self.added.insert(v, change.file.clone());
            },
            TxnFileChangeKind::Removed => {
                if self.added.remove(&v).is_none() {
                    self.removed.insert(v, change.file.clone());
                }
            },
        }
        proof {
            assert forall|w: u128| w != v implies (Uuid { value: w }) != u by {}
            assert(mirrors(self.added@, next.added));
            assert(mirrors(self.removed@, next.removed));
        }
    }
}

/// A difference tells of its range, of the net effect on the files, and of what else is new.
pub open spec fn delta_agrees(
    delta: TableDelta,
    from_transaction_id: TxnId,
    to_transaction_id: TxnId,
    net: NetView,
    new_schema: Option<Schema>,
    new_properties: Option<TableProperties>,
) -> bool {
    &&& delta.from_transaction_id == from_transaction_id
    &&& delta.to_transaction_id == to_transaction_id
    &&& lists_files(file_views(delta.added_files@), net.added)
    &&& lists_files(file_views(delta.removed_files@), net.removed)
    &&& delta.new_schema == new_schema
    &&& delta.new_properties == new_properties
}

/// Projects the net difference of a range of transactions from its ordered events.
pub fn project_delta_range(
    from_transaction_id: TxnId,
    to_transaction_id: TxnId,
    events: &[TxnEvent],
    new_schema: Option<Schema>,
    new_properties: Option<TableProperties>,
) -> (r: TableDelta)
    ensures
        delta_agrees(
            r,
            from_transaction_id,
            to_transaction_id,
            net_of(all_changes(event_views(events@))),
            new_schema,
            new_properties,
        ),
{
    let mut tally = Tally { added: HashMap::new(), removed: HashMap::new(), order: Vec::new() };
    let ghost views = event_views(events@);
    assert(views.take(0) =~= Seq::<EventView>::empty());
    assert(tally.holds(net_of(all_changes(views.take(0)))));
    for i in 0..events.len()
        invariant
            views == event_views(events@),
            tally.holds(net_of(all_changes(views.take(i as int)))),
    {
        let event = &events[i];
        let ghost before = all_changes(views.take(i as int));
        let ghost changes = change_views(event.file_changes@);
        proof {
            assert(views.take(i + 1).drop_last() =~= views.take(i as int));
            assert(views.take(i + 1).last() == event@);
            assert(before + changes.take(0) =~= before);
        }
        for k in 0..event.file_changes.len()
            invariant
                changes == change_views(event.file_changes@),
                tally.holds(net_of(before + changes.take(k as int))),
        {
            let change = &event.file_changes[k];
            proof {
                let now = before + changes.take(k + 1);
                assert(now.drop_last() =~= before + changes.take(k as int));
                assert(now.last() == change@);
            }
            tally.count(change, Ghost(net_of(before + changes.take(k as int))));
        }
        proof {
            assert(changes.take(changes.len() as int) =~= changes);
        }
    }
    assert(views.take(views.len() as int) =~= views);
    let ghost net = net_of(all_changes(views));
    let added_files = drain(tally.added, &tally.order, Ghost(net.added));
    let removed_files = drain(tally.removed, &tally.order, Ghost(net.removed));
    TableDelta {
        from_transaction_id,
        to_transaction_id,
        added_files,
        removed_files,
        new_schema,
        new_properties,
    }
}

/// The schema that a difference tells of: the later one, where it is another.
pub open spec fn new_schema_of(from: SchemaView, to: SchemaView) -> Option<SchemaView> {
    if from.schema_uuid != to.schema_uuid {
        Some(to)
    } else {
        None
    }
}

/// The properties that a difference tells of: the later ones, where they differ.
pub open spec fn new_properties_of(from: JsonObject, to: JsonObject) -> Option<JsonObject> {
    if same_object(from, to) {
        None
    } else {
        Some(to)
    }
}

/// The schema of a difference leads from the earlier schema to the later one, and is there exactly
/// if they are two.
pub proof fn new_schemas_lead_on(from: SchemaView, to: SchemaView)
    ensures
        (match new_schema_of(from, to) {
            Some(schema) => schema,
            None => from,
        }).schema_uuid == to.schema_uuid,
        new_schema_of(from, to) is Some <==> from.schema_uuid != to.schema_uuid,
        new_schema_of(from, to) matches Some(schema) ==> schema == to,
{
}

/// A list of the files of a map has each of them once, and no other.
pub proof fn lists_are_whole(files: Seq<FileView>, map: Map<Uuid, FileView>, file: FileView)
    requires
        lists_files(files, map),
    ensures
        files.no_duplicates(),
        files.contains(file) <==> map.dom().contains(file.file_uuid) && map[file.file_uuid] == file,
        forall|u: Uuid| map.dom().contains(u) ==> files.contains(#[trigger] map[u]),
{
    assert forall|u: Uuid| map.dom().contains(u) implies files.contains(#[trigger] map[u]) by {
        let i = choose|i: int| 0 <= i < files.len() && (#[trigger] files[i]).file_uuid == u;
        assert(files[i] == map[u]);
    }
}

/// The last change of a file in a log.
pub open spec fn last_change(changes: Seq<ChangeView>, uuid: Uuid) -> Option<ChangeView>
    decreases changes.len(),
{
    if changes.len() == 0 {
        None
    } else if changes.last().file.file_uuid == uuid {
        Some(changes.last())
    } else {
        last_change(changes.drop_last(), uuid)
    }
}

/// The last change of a file decides: the net of a log has it as added exactly if it was added last,
/// and as removed only if it was removed last, as it was then. It has no file as both, and none
/// that the log does not name.
pub proof fn last_changes_decide(changes: Seq<ChangeView>, uuid: Uuid)
    ensures
        ({
            let net = net_of(changes);
            match last_change(changes, uuid) {
                None => !net.added.dom().contains(uuid) && !net.removed.dom().contains(uuid),
                Some(change) => match change.kind {
                    TxnFileChangeKind::Added => net.added.dom().contains(uuid) && net.added[uuid]
                        == change.file && !net.removed.dom().contains(uuid),
                    TxnFileChangeKind::Removed => !net.added.dom().contains(uuid) && (
                    net.removed.dom().contains(uuid) ==> net.removed[uuid] == change.file),
                },
            }
        }),
    decreases changes.len(),
{
    if changes.len() > 0 {
        last_changes_decide(changes.drop_last(), uuid);
        last_changes_decide(changes.drop_last(), changes.last().file.file_uuid);
    }
}

/// A removal undoes the addition of a file, and stands on its own where there was none: a file that
/// was there before is removed, and one that came and went leaves no trace.
pub proof fn removals_undo_additions(
    changes: Seq<ChangeView>,
    added: ChangeView,
    removed: ChangeView,
)
    requires
        added.kind is Added,
        removed.kind is Removed,
        added.file.file_uuid == removed.file.file_uuid,
    ensures
        last_change(changes, added.file.file_uuid) is None ==> net_of(
            changes.push(added).push(removed),
        ) == net_of(changes),
        !(last_change(changes, removed.file.file_uuid) matches Some(last) && last.kind is Added)
            ==> net_of(changes.push(removed)) == (NetView {
            added: net_of(changes).added,
            removed: net_of(changes).removed.insert(removed.file.file_uuid, removed.file),
        }),
{
    let uuid = added.file.file_uuid;
    last_changes_decide(changes, uuid);
    assert(changes.push(added).push(removed).drop_last() =~= changes.push(added));
    assert(changes.push(added).drop_last() =~= changes);
    assert(changes.push(removed).drop_last() =~= changes);
    let net = net_of(changes);
    if last_change(changes, uuid) is None {
        let then = net_of(changes.push(added));
        assert(then == net_step(net, added));
        assert(net_of(changes.push(added).push(removed)) == net_step(then, removed));
        assert(net.added.insert(uuid, added.file).remove(uuid) =~= net.added);
        assert(net.removed.remove(uuid) =~= net.removed);
    }
}

/// The properties of a difference lead from the earlier properties to the later ones, and are
/// there exactly if those differ.
pub proof fn new_properties_lead_on(from: JsonObject, to: JsonObject)
    ensures
        same_object(
            match new_properties_of(from, to) {
                Some(properties) => properties,
                None => from,
            },
            to,
        ),
        new_properties_of(from, to) is Some <==> !same_object(from, to),
        new_properties_of(from, to) matches Some(properties) ==> properties == to,
{
    values_equal_themselves(JsonModel::Object(to));
}

/// Computes the difference between two snapshots of a table from the events between them. The
/// schema and the properties are in it where they changed.
pub fn diff_views(from_view: &TableView, to_view: &TableView, events: &[TxnEvent]) -> (r:
    TableDelta)
    ensures
        r.from_transaction_id == from_view.transaction_id,
        r.to_transaction_id == to_view.transaction_id,
        lists_files(
            file_views(r.added_files@),
            net_of(all_changes(event_views(events@))).added,
        ),
        lists_files(
            file_views(r.removed_files@),
            net_of(all_changes(event_views(events@))).removed,
        ),
        match r.new_schema {
            Some(schema) => new_schema_of(from_view.schema@, to_view.schema@) == Some(schema@),
            None => new_schema_of(from_view.schema@, to_view.schema@) is None,
        },
        match r.new_properties {
            Some(properties) => new_properties_of(from_view.properties@, to_view.properties@)
                == Some(properties@),
            None => new_properties_of(from_view.properties@, to_view.properties@) is None,
        },
{
    let new_schema = if from_view.schema.schema_uuid != to_view.schema.schema_uuid {
        Some(to_view.schema.clone())
    } else {
        None
    };
    let new_properties = if !from_view.properties.equals(&to_view.properties) {
        Some(to_view.properties.clone())
    } else {
        None
    };
    project_delta_range(
        from_view.transaction_id,
        to_view.transaction_id,
        events,
        new_schema,
        new_properties,
    )
}

} // verus!
