//! Writing a stream of record batches: what to do with each item of it.

use vstd::prelude::*;
use vstd::string::*;

use super::error::{Result, StorageError, StorageErrorView};
use crate::text::joined;

verus! {

/// What a stream of record batches hands over next.
#[derive(Debug, Clone, Copy, PartialEq, Eq, Structural)]
pub enum StreamItem {
    /// A record batch. `same_schema` tells whether it has the schema of the first one; of the
    /// first one it tells nothing.
    Batch {
        /// Whether the schema is that of the first batch.
        same_schema: bool,
    },
    /// An error of the stream.
    Failure,
    /// The end of the stream.
    End,
}

/// What a writer does with the item.
#[derive(Debug, Clone, Copy, PartialEq, Eq, Structural)]
pub enum StreamAction {
    /// Open the file with the schema of this batch, and write the batch.
    Open,
    /// Write the batch.
    Write,
    /// Close the file: all is written.
    Close,
    /// Stop with the error of the stream.
    Fail,
    /// Stop: there is no batch at all.
    RefuseEmpty,
    /// Stop: the batch has another schema.
    RefuseSchema,
}

/// What a writer does with an item, once it has opened its file or before.
pub open spec fn action_for(opened: bool, item: StreamItem) -> StreamAction {
    match item {
        StreamItem::Failure => StreamAction::Fail,
        StreamItem::End => if opened {
            StreamAction::Close
        } else {
            StreamAction::RefuseEmpty
        },
        StreamItem::Batch { same_schema } => if !opened {
            StreamAction::Open
        } else if same_schema {
            StreamAction::Write
        } else {
            StreamAction::RefuseSchema
        },
    }
}

/// Decides what a writer does with an item of the stream.
pub fn write_stream_step(opened: bool, item: StreamItem) -> (r: StreamAction)
    ensures
        r == action_for(opened, item),
{
    match item {
        StreamItem::Failure => StreamAction::Fail,
        StreamItem::End => {
            if opened {
                StreamAction::Close
            } else {
                StreamAction::RefuseEmpty
            }
        },
        StreamItem::Batch { same_schema } => {
            if !opened {
                StreamAction::Open
            } else if same_schema {
                StreamAction::Write
            } else {
                StreamAction::RefuseSchema
            }
        },
    }
}

/// The last thing a writer does with a stream, item by item from `opened`.
pub open spec fn stream_end(opened: bool, items: Seq<StreamItem>) -> Option<StreamAction>
    decreases items.len(),
{
    if items.len() == 0 {
        None
    } else {
        match action_for(opened, items[0]) {
            StreamAction::Open => stream_end(true, items.drop_first()),
            StreamAction::Write => stream_end(true, items.drop_first()),
            last => Some(last),
        }
    }
}

/// A stream is written whole exactly if it holds a batch, its batches all have the schema of the
/// first, and no item before its end is an error.
pub proof fn stream_is_written_whole_iff_sound(items: Seq<StreamItem>, n: int)
    requires
        0 <= n < items.len(),
        items[n] is End,
        forall|i: int| 0 <= i < n ==> !(#[trigger] items[i] is End),
    ensures
        stream_end(false, items) == Some(StreamAction::Close) <==> n > 0 && (forall|i: int|
            0 <= i < n ==> #[trigger] items[i] is Batch) && (forall|i: int|
            0 < i < n ==> (#[trigger] items[i])->same_schema),
{
    if n > 0 && items[0] is Batch {
        let rest = items.drop_first();
        assert forall|i: int| 0 <= i < n - 1 implies !(#[trigger] rest[i] is End) by {
            assert(rest[i] == items[i + 1]);
        }
        opened_stream_is_closed_iff_sound(rest, n - 1);
        if stream_end(false, items) == Some(StreamAction::Close) {
            assert forall|i: int| 0 <= i < n implies #[trigger] items[i] is Batch by {
                if i > 0 {
                    assert(rest[i - 1] == items[i]);
                }
            }
            assert forall|i: int| 0 < i < n implies (#[trigger] items[i])->same_schema by {
                assert(rest[i - 1] == items[i]);
            }
        }
        if (forall|i: int| 0 <= i < n ==> #[trigger] items[i] is Batch) && (forall|i: int|
            0 < i < n ==> (#[trigger] items[i])->same_schema) {
            assert forall|i: int| 0 <= i < n - 1 implies #[trigger] rest[i] is Batch by {
                assert(rest[i] == items[i + 1]);
            }
            assert forall|i: int| 0 <= i < n - 1 implies (#[trigger] rest[i])->same_schema by {
                assert(rest[i] == items[i + 1]);
            }
        }
    }
}

proof fn opened_stream_is_closed_iff_sound(items: Seq<StreamItem>, n: int)
    requires
        0 <= n < items.len(),
        items[n] is End,
        forall|i: int| 0 <= i < n ==> !(#[trigger] items[i] is End),
    ensures
        stream_end(true, items) == Some(StreamAction::Close) <==> (forall|i: int|
            0 <= i < n ==> #[trigger] items[i] is Batch) && (forall|i: int|
            0 <= i < n ==> (#[trigger] items[i])->same_schema),
    decreases n,
{
    if n > 0 && items[0] is Batch && items[0]->same_schema {
        let rest = items.drop_first();
        assert forall|i: int| 0 <= i < n - 1 implies !(#[trigger] rest[i] is End) by {
            assert(rest[i] == items[i + 1]);
        }
        opened_stream_is_closed_iff_sound(rest, n - 1);
        if stream_end(true, items) == Some(StreamAction::Close) {
            assert forall|i: int| 0 <= i < n implies #[trigger] items[i] is Batch
                && items[i]->same_schema by {
                if i > 0 {
                    assert(rest[i - 1] == items[i]);
                }
            }
        }
        if (forall|i: int| 0 <= i < n ==> #[trigger] items[i] is Batch) && (forall|i: int|
            0 <= i < n ==> (#[trigger] items[i])->same_schema) {
            assert forall|i: int| 0 <= i < n - 1 implies #[trigger] rest[i] is Batch
                && rest[i]->same_schema by {
                assert(rest[i] == items[i + 1]);
            }
        }
    }
}

/// The places of the items that a writer opens its file with or writes, from a place on, in the
/// order in which it does so.
pub open spec fn written_from(opened: bool, items: Seq<StreamItem>, from: nat) -> Seq<int>
    decreases items.len() - from,
{
    if from >= items.len() {
        Seq::empty()
    } else {
        match action_for(opened, items[from as int]) {
            StreamAction::Open | StreamAction::Write => seq![from as int] + written_from(
                true,
                items,
                from + 1,
            ),
            _ => Seq::empty(),
        }
    }
}

/// Numbers from `from` on, one after the other.
pub open spec fn counting(from: nat, n: nat) -> Seq<int> {
    Seq::new(n, |i: int| from + i)
}

/// The sum of numbers.
pub open spec fn total(numbers: Seq<nat>) -> nat
    decreases numbers.len(),
{
    if numbers.len() == 0 {
        0
    } else {
        total(numbers.drop_last()) + numbers.last()
    }
}

/// The rows of the batches at some places of a stream.
pub open spec fn rows_of(rows: Seq<nat>, places: Seq<int>) -> nat
    decreases places.len(),
{
    if places.len() == 0 {
        0
    } else {
        rows_of(rows, places.drop_last()) + rows[places.last()]
    }
}

proof fn counted_rows_are_all(rows: Seq<nat>, n: nat)
    requires
        n <= rows.len(),
    ensures
        rows_of(rows, counting(0, n)) == total(rows.take(n as int)),
    decreases n,
{
    if n > 0 {
        counted_rows_are_all(rows, (n - 1) as nat);
        assert(counting(0, n).drop_last() =~= counting(0, (n - 1) as nat));
        assert(rows.take(n as int).drop_last() =~= rows.take(n - 1));
    }
}

proof fn writing_goes_in_order(opened: bool, items: Seq<StreamItem>, from: nat, n: nat)
    requires
        from <= n < items.len(),
        items[n as int] is End,
        forall|i: int| 0 <= i < n ==> !(#[trigger] items[i] is End),
    ensures
        written_from(opened, items, from).len() <= n - from,
        written_from(opened, items, from) == counting(
            from,
            written_from(opened, items, from).len(),
        ),
        stream_end(opened, items.skip(from as int)) == Some(StreamAction::Close) ==> written_from(
            opened,
            items,
            from,
        ).len() == n - from,
    decreases n - from,
{
    let rest = items.skip(from as int);
    assert(rest[0] == items[from as int]);
    let whole = written_from(opened, items, from);
    if from == n {
        assert(whole =~= counting(from, 0));
    } else {
        let action = action_for(opened, items[from as int]);
        if action is Open || action is Write {
            writing_goes_in_order(true, items, from + 1, n);
            let more = written_from(true, items, from + 1);
            assert(rest.drop_first() =~= items.skip((from + 1) as int));
            assert(whole =~= counting(from, 1 + more.len()));
        } else {
            assert(whole =~= counting(from, 0));
        }
    }
}

/// A stream is written in its order and no batch of it twice or passed over: what a writer opens
/// its file with and writes are the first items, one after the other. Where it closes the file
/// they are all that come before the end, so that none of their rows, which `rows` counts batch by
/// batch, is lost: the first batch is the one that it opened with, and the others it wrote.
pub proof fn batches_are_written_once_and_in_order(
    items: Seq<StreamItem>,
    rows: Seq<nat>,
    n: nat,
)
    requires
        n < items.len(),
        n <= rows.len(),
        items[n as int] is End,
        forall|i: int| 0 <= i < n ==> !(#[trigger] items[i] is End),
    ensures
        ({
            let written = written_from(false, items, 0);
            &&& written.len() <= n
            &&& written == counting(0, written.len())
            &&& stream_end(false, items) == Some(StreamAction::Close) ==> {
                &&& written == counting(0, n)
                &&& rows_of(rows, written) == total(rows.take(n as int))
                &&& action_for(false, items[0]) is Open
                &&& forall|i: int| 0 < i < n ==> action_for(true, #[trigger] items[i]) is Write
            }
        }),
{
    assert(items.skip(0) =~= items);
    writing_goes_in_order(false, items, 0, n);
    counted_rows_are_all(rows, n);
    stream_is_written_whole_iff_sound(items, n as int);
}

/// The refusal of a stream without a batch.
pub fn empty_stream_error() -> (r: StorageError)
    ensures
        r@ == StorageErrorView::Unsupported("write_stream requires at least one RecordBatch"@),
{
    StorageError::Unsupported(String::from_str("write_stream requires at least one RecordBatch"))
}

/// What is said where record batches have to be there and are not.
pub open spec fn batches_needed(function: Seq<char>) -> StorageErrorView {
    StorageErrorView::Unsupported(function + " requires at least one RecordBatch"@)
}

/// Checks that there is a record batch for a function to write.
pub fn check_batches(function: &str, count: usize) -> (r: Result<()>)
    ensures
        match r {
            Ok(_) => count > 0,
            Err(e) => count == 0 && e@ == batches_needed(function@),
        },
{
    if count == 0 {
        Err(StorageError::Unsupported(joined(function, " requires at least one RecordBatch")))
    } else {
        Ok(())
    }
}

/// Checks that there is a record batch to encode.
pub fn check_encodable(count: usize) -> (r: Result<()>)
    ensures
        match r {
            Ok(_) => count > 0,
            Err(e) => count == 0 && e@ == StorageErrorView::Unsupported(
                "expected at least one RecordBatch"@,
            ),
        },
{
    if count == 0 {
        Err(
            StorageError::Unsupported(
                String::from_str("expected at least one RecordBatch"),
            ),
        )
    } else {
        Ok(())
    }
}

/// What is said of a stream whose schema changes on the way. `expected` and `actual` are the two
/// schemas as their debug texts.
pub open spec fn schema_mismatch_text(expected: Seq<char>, actual: Seq<char>) -> Seq<char> {
    "Schema mismatch in stream: expected "@ + expected + ", got "@ + actual
}

/// The refusal of a stream whose schema changes on the way.
pub fn schema_mismatch_error(expected: &str, actual: &str) -> (r: String)
    ensures
        r@ == schema_mismatch_text(expected@, actual@),
{
    let mut s = joined("Schema mismatch in stream: expected ", expected);
    s.append(", got ");
    s.append(actual);
    s
}

/// How the batches of a Parquet file become one.
#[derive(Debug, Clone, Copy, PartialEq, Eq, Structural)]
pub enum BatchMerge {
    /// There is one batch: take it.
    Single,
    /// There are more: concatenate them under the schema of the first.
    Concatenate,
}

/// Decides how the batches of a Parquet file become one.
pub fn merge_batches(count: usize) -> (r: Result<BatchMerge>)
    ensures
        match r {
            Ok(BatchMerge::Single) => count == 1,
            Ok(BatchMerge::Concatenate) => count > 1,
            Err(e) => count == 0 && e@ == StorageErrorView::Parquet(
                "Parquet error: empty parquet file"@,
            ),
        },
{
    if count == 0 {
        Err(StorageError::Parquet(String::from_str("Parquet error: empty parquet file")))
    } else if count == 1 {
        Ok(BatchMerge::Single)
    } else {
        Ok(BatchMerge::Concatenate)
    }
}

} // verus!
