//! Segments and their stacking, as the contracts describe them.

use vstd::prelude::*;

use crate::error::missing_name_message;
use crate::error::no_batches_message;
use crate::error::polars_message;
use crate::error::row_mismatch_message;
use crate::error::too_many_rows_message;
use crate::error::unstackable_message;
use crate::error::unsupported_message;
use crate::model::Failure;
use crate::model::SeriesView;
use crate::outside::batch_columns;
use crate::outside::batch_names;
use crate::outside::batch_rows;
use crate::outside::converted_cells;
use crate::outside::Batch;
use crate::support::batch_supported;
use crate::support::dtype_appends;
use crate::support::shape_appends;
use crate::support::LENGTH_LIMIT;

verus! {

/// Whether the columns of `other` can be stacked below those of `first`: there
/// are as many, and each has the name and the data type of the column above it.
pub open spec fn can_extend(first: Seq<SeriesView>, other: Seq<SeriesView>) -> bool {
    &&& other.len() == first.len()
    &&& forall|i: int|
        0 <= i < first.len() ==> (#[trigger] other[i]).name == first[i].name && other[i].dtype
            == first[i].dtype
}

/// Whether every segment has the columns of the first one: as many, with the
/// same names and data types.
pub open spec fn alike(segments: Seq<Seq<SeriesView>>) -> bool {
    &&& segments.len() > 0
    &&& forall|k: int| 0 <= k < segments.len() ==> can_extend(segments[0], #[trigger] segments[k])
}

/// The values of column `index` in the first `count` segments, one segment
/// after the other.
pub open spec fn stacked_cells(segments: Seq<Seq<SeriesView>>, index: int, count: nat) -> Seq<
    Seq<char>,
>
    decreases count,
{
    if count == 0 {
        Seq::empty()
    } else {
        stacked_cells(segments, index, (count - 1) as nat) + segments[count - 1][index].cells
    }
}

/// How many of the first `count` segments have values in column `index`.
pub open spec fn filled_before(segments: Seq<Seq<SeriesView>>, index: int, count: nat) -> nat
    decreases count,
{
    if count == 0 {
        0
    } else {
        filled_before(segments, index, (count - 1) as nat) + if segments[count
            - 1][index].cells.len() > 0 {
            1nat
        } else {
            0nat
        }
    }
}

/// Whether polars can stack column `index` of the segments: the values
/// together are fewer than polars counts, and either the data type is one to
/// whose series polars can append, or at most one segment has values, so that
/// nothing is appended to values.
pub open spec fn column_stacks(segments: Seq<Seq<SeriesView>>, index: int) -> bool {
    &&& stacked_cells(segments, index, segments.len()).len() < LENGTH_LIMIT
    &&& dtype_appends(segments[0][index].dtype) || filled_before(
        segments,
        index,
        segments.len(),
    ) <= 1
}

/// Whether the segments can be stacked: they are alike, and polars can stack
/// each of their columns.
pub open spec fn stackable(segments: Seq<Seq<SeriesView>>) -> bool {
    &&& alike(segments)
    &&& forall|i: int| 0 <= i < segments[0].len() ==> #[trigger] column_stacks(segments, i)
}

/// The table that stacking the segments gives: the columns of the first
/// segment, each holding its values from every segment in the segments' order.
pub open spec fn stacked(segments: Seq<Seq<SeriesView>>) -> Seq<SeriesView> {
    Seq::new(
        segments[0].len(),
        |i: int|
            (SeriesView {
                name: segments[0][i].name,
                dtype: segments[0][i].dtype,
                cells: stacked_cells(segments, i, segments.len()),
            }),
    )
}

/// What converting the column at `index` of a batch gives, with `names` as the
/// names of the schema: an error where the schema has no name for the position,
/// else what polars makes of the column under the name at that position; and
/// an error again where that series has another number of values than the
/// batch has rows.
pub open spec fn column_of(batch: Batch, names: Seq<Seq<char>>, index: int) -> Result<
    SeriesView,
    Failure,
> {
    if index >= names.len() {
        Err(Failure::Internal { msg: missing_name_message(index as nat) })
    } else {
        match converted_cells(batch, index, names[index]) {
            Ok(cells) => if cells.len() == batch_rows(batch) {
                Ok(
                    SeriesView {
                        name: names[index],
                        dtype: batch_columns(batch)[index].data_type.target,
                        cells,
                    },
                )
            } else {
                Err(
                    Failure::Internal {
                        msg: row_mismatch_message(index as nat, cells.len(), batch_rows(batch)),
                    },
                )
            },
            Err(text) => Err(Failure::Polars { msg: polars_message(text), source: text }),
        }
    }
}

/// Whether every column of a batch before `end` converts.
pub open spec fn columns_hold(batch: Batch, names: Seq<Seq<char>>, end: int) -> bool {
    forall|i: int| 0 <= i < end ==> (#[trigger] column_of(batch, names, i)) is Ok
}

/// The position of the first column of a batch that does not convert.
pub open spec fn first_failing_column(batch: Batch, names: Seq<Seq<char>>) -> int {
    choose|i: int|
        0 <= i < batch_columns(batch).len() && column_of(batch, names, i) is Err && columns_hold(
            batch,
            names,
            i,
        )
}

/// The segment that a batch becomes: its columns converted, in order; or the
/// error of the first column that does not convert. A batch with a column on
/// which the conversion cannot be tried becomes an error before any column is
/// converted.
pub open spec fn segment_of(batch: Batch, names: Seq<Seq<char>>) -> Result<
    Seq<SeriesView>,
    Failure,
> {
    if !batch_supported(batch) {
        Err(Failure::Internal { msg: unsupported_message() })
    } else if columns_hold(batch, names, batch_columns(batch).len() as int) {
        Ok(Seq::new(batch_columns(batch).len(), |i: int| column_of(batch, names, i)->Ok_0))
    } else {
        Err(column_of(batch, names, first_failing_column(batch, names))->Err_0)
    }
}

/// Whether every batch before `end` becomes a segment.
pub open spec fn segments_hold(batches: Seq<Batch>, names: Seq<Seq<char>>, end: int) -> bool {
    forall|k: int| 0 <= k < end ==> (#[trigger] segment_of(batches[k], names)) is Ok
}

/// The position of the first batch that does not become a segment.
pub open spec fn first_failing_batch(batches: Seq<Batch>, names: Seq<Seq<char>>) -> int {
    choose|k: int|
        0 <= k < batches.len() && segment_of(batches[k], names) is Err && segments_hold(
            batches,
            names,
            k,
        )
}

/// The segments of the batches, in the batches' order.
pub open spec fn segments_of(batches: Seq<Batch>, names: Seq<Seq<char>>) -> Seq<Seq<SeriesView>> {
    Seq::new(batches.len(), |k: int| segment_of(batches[k], names)->Ok_0)
}

/// Whether the segments of the batches, if every batch becomes one, are alike:
/// each has as many columns as the first, with the same data types. Batches of
/// one schema are such.
pub open spec fn segments_alike(batches: Seq<Batch>) -> bool {
    batches.len() > 0 && segments_hold(
        batches,
        batch_names(batches[0]),
        batches.len() as int,
    ) ==> alike(segments_of(batches, batch_names(batches[0])))
}

/// The number of rows of the first `count` batches together.
pub open spec fn rows_before(batches: Seq<Batch>, count: nat) -> nat
    decreases count,
{
    if count == 0 {
        0
    } else {
        rows_before(batches, (count - 1) as nat) + batch_rows(batches[count - 1])
    }
}

/// The number of rows of all the batches together.
pub open spec fn total_rows(batches: Seq<Batch>) -> nat {
    rows_before(batches, batches.len())
}

/// How many of the first `count` batches have rows.
pub open spec fn filled_batches(batches: Seq<Batch>, count: nat) -> nat
    decreases count,
{
    if count == 0 {
        0
    } else {
        filled_batches(batches, (count - 1) as nat) + if batch_rows(batches[count - 1]) > 0 {
            1nat
        } else {
            0nat
        }
    }
}

/// Whether polars can append to the series of every column of a batch.
pub open spec fn batch_appends(batch: Batch) -> bool {
    forall|i: int|
        0 <= i < batch_columns(batch).len() ==> shape_appends(
            (#[trigger] batch_columns(batch)[i]).data_type,
        )
}

/// The table that a sequence of batches becomes.
///
/// Without a batch there is no schema and hence no table. Otherwise the names
/// are those of the first batch's schema, every batch becomes a segment under
/// those names, and the segments are stacked; the error of the first batch
/// that does not become a segment is the error of the whole. The segments are
/// not stacked, and the table is an error, where the batches have more rows
/// together than polars counts, and where more than one batch has rows and a
/// struct among the columns has a field without values.
pub open spec fn table_of(batches: Seq<Batch>) -> Result<Seq<SeriesView>, Failure> {
    if batches.len() == 0 {
        Err(Failure::Internal { msg: no_batches_message() })
    } else {
        let names = batch_names(batches[0]);
        if !segments_hold(batches, names, batches.len() as int) {
            Err(segment_of(batches[first_failing_batch(batches, names)], names)->Err_0)
        } else if total_rows(batches) >= LENGTH_LIMIT {
            Err(Failure::Internal { msg: too_many_rows_message() })
        } else if filled_batches(batches, batches.len()) > 1 && !batch_appends(batches[0]) {
            Err(Failure::Internal { msg: unstackable_message() })
        } else {
            Ok(stacked(segments_of(batches, names)))
        }
    }
}

/// A batch whose column at `index` is the first that does not convert becomes
/// the error of that column.
pub proof fn lemma_first_failing_column(batch: Batch, names: Seq<Seq<char>>, index: int)
    requires
        batch_supported(batch),
        0 <= index < batch_columns(batch).len(),
        columns_hold(batch, names, index),
        column_of(batch, names, index) is Err,
    ensures
        segment_of(batch, names) == Err::<Seq<SeriesView>, Failure>(
            column_of(batch, names, index)->Err_0,
        ),
{
    let first = first_failing_column(batch, names);
    assert(0 <= first < batch_columns(batch).len() && column_of(batch, names, first) is Err
        && columns_hold(batch, names, first));
    if first < index {
        assert(column_of(batch, names, first) is Ok);
    }
    if index < first {
        assert(column_of(batch, names, index) is Ok);
    }
    assert(!columns_hold(batch, names, batch_columns(batch).len() as int));
}

/// Batches of which the one at `index` is the first that does not become a
/// segment become the error of that batch.
pub proof fn lemma_first_failing_batch(batches: Seq<Batch>, index: int)
    requires
        0 <= index < batches.len(),
        segments_hold(batches, batch_names(batches[0]), index),
        segment_of(batches[index], batch_names(batches[0])) is Err,
    ensures
        table_of(batches) == Err::<Seq<SeriesView>, Failure>(
            segment_of(batches[index], batch_names(batches[0]))->Err_0,
        ),
{
    let names = batch_names(batches[0]);
    let first = first_failing_batch(batches, names);
    assert(0 <= first < batches.len() && segment_of(batches[first], names) is Err
        && segments_hold(batches, names, first));
    if first < index {
        assert(segment_of(batches[first], names) is Ok);
    }
    if index < first {
        assert(segment_of(batches[index], names) is Ok);
    }
    assert(!segments_hold(batches, names, batches.len() as int));
}

/// Stacked values are as many as the batches have rows, and segments with
/// values as many as batches with rows, where each segment has as many values
/// as its batch has rows.
pub proof fn lemma_stacked_rows(
    segments: Seq<Seq<SeriesView>>,
    batches: Seq<Batch>,
    index: int,
    count: nat,
)
    requires
        count <= segments.len(),
        segments.len() == batches.len(),
        forall|k: int|
            0 <= k < count ==> (#[trigger] segments[k])[index].cells.len() == batch_rows(
                batches[k],
            ),
    ensures
        stacked_cells(segments, index, count).len() == rows_before(batches, count),
        filled_before(segments, index, count) == filled_batches(batches, count),
    decreases count,
{
    if count > 0 {
        lemma_stacked_rows(segments, batches, index, (count - 1) as nat);
        assert(segments[count - 1][index].cells.len() == batch_rows(batches[count - 1]));
    }
}

/// The rows of more batches are not fewer.
pub proof fn lemma_rows_grow(batches: Seq<Batch>, count: nat, total: nat)
    requires
        count <= total,
    ensures
        rows_before(batches, count) <= rows_before(batches, total),
        filled_batches(batches, count) <= filled_batches(batches, total),
    decreases total,
{
    if count < total {
        lemma_rows_grow(batches, count, (total - 1) as nat);
    }
}

} // verus!
