//! What holds of every table that a conversion gives.

use vstd::prelude::*;

use crate::error::no_batches_message;
use crate::model::Failure;
use crate::model::SeriesView;
use crate::outside::batch_columns;
use crate::outside::batch_names;
use crate::outside::batch_rows;
use crate::outside::Batch;
use crate::table::column_of;
use crate::table::lemma_stacked_rows;
use crate::table::rows_before;
use crate::table::segment_of;
use crate::table::segments_of;
use crate::table::stacked_cells;
use crate::table::table_of;
use crate::table::total_rows;

verus! {

/// Every column of a segment has the name that the schema holds for its
/// position.
pub proof fn law_segment_names(batch: Batch, names: Seq<Seq<char>>)
    requires
        segment_of(batch, names) is Ok,
    ensures
        segment_of(batch, names)->Ok_0.len() == batch_columns(batch).len(),
        batch_columns(batch).len() <= names.len(),
        forall|i: int|
            0 <= i < batch_columns(batch).len() ==> (#[trigger] segment_of(
                batch,
                names,
            )->Ok_0[i]).name == names[i],
{
    assert forall|i: int| 0 <= i < batch_columns(batch).len() implies i < names.len() && (
    #[trigger] segment_of(batch, names)->Ok_0[i]).name == names[i] by {
        assert(column_of(batch, names, i) is Ok);
    }
    if batch_columns(batch).len() > names.len() {
        assert(column_of(batch, names, names.len() as int) is Ok);
    }
}

/// Every column of a segment has as many values as its batch has rows.
pub proof fn law_segment_rows(batch: Batch, names: Seq<Seq<char>>)
    requires
        segment_of(batch, names) is Ok,
    ensures
        forall|i: int|
            0 <= i < batch_columns(batch).len() ==> (#[trigger] segment_of(
                batch,
                names,
            )->Ok_0[i]).cells.len() == batch_rows(batch),
{
    assert forall|i: int| 0 <= i < batch_columns(batch).len() implies (#[trigger] segment_of(
        batch,
        names,
    )->Ok_0[i]).cells.len() == batch_rows(batch) by {
        assert(column_of(batch, names, i) is Ok);
    }
}

/// The columns of a table are as many as the first batch's schema has fields,
/// and carry the names of those fields in the schema's order.
pub proof fn law_table_names(batches: Seq<Batch>)
    requires
        table_of(batches) is Ok,
        batch_names(batches[0]).len() == batch_columns(batches[0]).len(),
    ensures
        batches.len() >= 1,
        table_of(batches)->Ok_0.len() == batch_names(batches[0]).len(),
        forall|i: int|
            0 <= i < batch_names(batches[0]).len() ==> (#[trigger] table_of(batches)->Ok_0[i]).name
                == batch_names(batches[0])[i],
{
    let names = batch_names(batches[0]);
    assert(segment_of(batches[0], names) is Ok);
    law_segment_names(batches[0], names);
    assert(segments_of(batches, names)[0] == segment_of(batches[0], names)->Ok_0);
}

/// Every column of a table has as many values as the batches have rows
/// together, where every batch has as many columns as the first.
pub proof fn law_table_rows(batches: Seq<Batch>)
    requires
        table_of(batches) is Ok,
        forall|k: int|
            0 <= k < batches.len() ==> batch_columns(#[trigger] batches[k]).len()
                == batch_columns(batches[0]).len(),
    ensures
        forall|i: int|
            0 <= i < table_of(batches)->Ok_0.len() ==> (#[trigger] table_of(
                batches,
            )->Ok_0[i]).cells.len() == total_rows(batches),
{
    let names = batch_names(batches[0]);
    let segments = segments_of(batches, names);
    assert(segment_of(batches[0], names) is Ok);
    assert(segments[0] == segment_of(batches[0], names)->Ok_0);
    assert forall|i: int| 0 <= i < table_of(batches)->Ok_0.len() implies (#[trigger] table_of(
        batches,
    )->Ok_0[i]).cells.len() == total_rows(batches) by {
        assert forall|k: int| 0 <= k < batches.len() implies (
        #[trigger] segments[k])[i].cells.len() == batch_rows(batches[k]) by {
            assert(segment_of(batches[k], names) is Ok);
            law_segment_rows(batches[k], names);
            assert(segments[k] == segment_of(batches[k], names)->Ok_0);
        }
        lemma_stacked_rows(segments, batches, i, batches.len());
    }
}

/// The values of a stacked column begin with those of its first segments.
proof fn lemma_stacked_prefix(
    segments: Seq<Seq<SeriesView>>,
    index: int,
    count: nat,
    total: nat,
)
    requires
        count <= total,
    ensures
        stacked_cells(segments, index, count).len() <= stacked_cells(
            segments,
            index,
            total,
        ).len(),
        stacked_cells(segments, index, total).subrange(
            0,
            stacked_cells(segments, index, count).len() as int,
        ) == stacked_cells(segments, index, count),
    decreases total,
{
    if count < total {
        lemma_stacked_prefix(segments, index, count, (total - 1) as nat);
        assert(stacked_cells(segments, index, total).subrange(
            0,
            stacked_cells(segments, index, count).len() as int,
        ) =~= stacked_cells(segments, index, (total - 1) as nat).subrange(
            0,
            stacked_cells(segments, index, count).len() as int,
        ));
    } else {
        assert(stacked_cells(segments, index, total).subrange(
            0,
            stacked_cells(segments, index, count).len() as int,
        ) =~= stacked_cells(segments, index, count));
    }
}

/// The rows of a table are the rows of the batches, batch after batch: where
/// every batch has as many columns as the first, the values of batch `k` stand
/// in every column in their own order at the rows from the number of rows of
/// the batches before it on, one row of the table for each row of the batch.
pub proof fn law_row_order(batches: Seq<Batch>, k: int, index: int)
    requires
        table_of(batches) is Ok,
        forall|j: int|
            0 <= j < batches.len() ==> batch_columns(#[trigger] batches[j]).len()
                == batch_columns(batches[0]).len(),
        0 <= k < batches.len(),
        0 <= index < table_of(batches)->Ok_0.len(),
    ensures
        ({
            let names = batch_names(batches[0]);
            let column = table_of(batches)->Ok_0[index].cells;
            let before = rows_before(batches, k as nat) as int;
            let own = segment_of(batches[k], names)->Ok_0[index].cells;
            &&& segment_of(batches[k], names) is Ok
            &&& own.len() == batch_rows(batches[k])
            &&& before + own.len() <= column.len()
            &&& column.subrange(before, before + own.len()) == own
        }),
{
    let names = batch_names(batches[0]);
    let segments = segments_of(batches, names);
    let column = table_of(batches)->Ok_0[index].cells;
    let before = stacked_cells(segments, index, k as nat).len() as int;
    let own = segment_of(batches[k], names)->Ok_0[index].cells;
    assert(segment_of(batches[k], names) is Ok);
    assert(segment_of(batches[0], names) is Ok);
    assert(segments[0] == segment_of(batches[0], names)->Ok_0);
    assert(column == stacked_cells(segments, index, batches.len()));
    assert forall|j: int| 0 <= j < batches.len() implies (
    #[trigger] segments[j])[index].cells.len() == batch_rows(batches[j]) by {
        assert(segment_of(batches[j], names) is Ok);
        law_segment_rows(batches[j], names);
        assert(segments[j] == segment_of(batches[j], names)->Ok_0);
    }
    lemma_stacked_rows(segments, batches, index, k as nat);
    lemma_stacked_prefix(segments, index, (k + 1) as nat, batches.len());
    let upto = stacked_cells(segments, index, (k + 1) as nat);
    assert(upto == stacked_cells(segments, index, k as nat) + segments[k][index].cells);
    assert(segments[k] == segment_of(batches[k], names)->Ok_0);
    assert(column.subrange(before, before + own.len()) =~= column.subrange(
        0,
        upto.len() as int,
    ).subrange(before, before + own.len()));
    assert(upto.subrange(before, before + own.len()) =~= own);
}

/// No batches give no table: the conversion of an empty sequence is an
/// internal error.
pub proof fn law_no_batches(batches: Seq<Batch>)
    requires
        batches.len() == 0,
    ensures
        table_of(batches) == Err::<Seq<SeriesView>, Failure>(
            Failure::Internal { msg: no_batches_message() },
        ),
{
}

} // verus!
