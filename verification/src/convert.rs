//! From record batches to one table.

use polars::prelude::DataFrame;
use polars::prelude::PolarsError;
use polars::prelude::Series;
use vstd::prelude::*;

use crate::error::differing_message;
use crate::error::no_batches_message;
use crate::error::polars_message;
use crate::error::wraps_engine;
use crate::error::DuckDBPolarsError;
use crate::laws::law_segment_names;
use crate::laws::law_segment_rows;
use crate::laws::law_table_names;
use crate::laws::law_table_rows;
use crate::model::names_view;
use crate::model::Failure;
use crate::model::SeriesView;
use crate::outside::array_type;
use crate::outside::batch_columns;
use crate::outside::batch_names;
use crate::outside::batch_rows;
use crate::outside::column_at;
use crate::outside::column_count;
use crate::outside::error_text;
use crate::outside::frame_columns;
use crate::outside::frame_of;
use crate::outside::frames_view;
use crate::outside::reinterpret_column;
use crate::outside::row_count;
use crate::outside::same_dtype;
use crate::outside::schema_names;
use crate::outside::series_len;
use crate::outside::series_view;
use crate::outside::stack_frames;
use crate::outside::type_shape;
use crate::outside::Batch;
use crate::support::batch_is_supported;
use crate::support::batch_supported;
use crate::support::dtype_appends;
use crate::support::shape_appends;
use crate::support::type_appends;
use crate::support::LENGTH_LIMIT;
use crate::table::alike;
use crate::table::batch_appends;
use crate::table::can_extend;
use crate::table::column_of;
use crate::table::column_stacks;
use crate::table::columns_hold;
use crate::table::filled_batches;
use crate::table::lemma_first_failing_batch;
use crate::table::lemma_first_failing_column;
use crate::table::lemma_rows_grow;
use crate::table::lemma_stacked_rows;
use crate::table::rows_before;
use crate::table::segment_of;
use crate::table::segments_alike;
use crate::table::segments_hold;
use crate::table::segments_of;
use crate::table::stackable;
use crate::table::table_of;
use crate::table::total_rows;

verus! {

/// What a series that polars made, or the error that it gave, stands for.
pub open spec fn series_outcome<E>(outcome: Result<Series, DuckDBPolarsError<E>>) -> Result<
    SeriesView,
    Failure,
> {
    match outcome {
        Ok(series) => Ok(series_view(series)),
        Err(error) => Err(error@),
    }
}

/// What a frame, or the error in its place, stands for.
pub open spec fn frame_outcome<E>(outcome: Result<DataFrame, DuckDBPolarsError<E>>) -> Result<
    Seq<SeriesView>,
    Failure,
> {
    match outcome {
        Ok(frame) => Ok(frame_columns(frame)),
        Err(error) => Err(error@),
    }
}

/// Whether a table has the names of the first batch's schema, in the schema's
/// order, and in every column as many values as the batches have rows
/// together.
pub open spec fn table_matches(table: Seq<SeriesView>, batches: Seq<Batch>) -> bool {
    &&& batches.len() >= 1
    &&& table.len() == batch_names(batches[0]).len()
    &&& forall|i: int|
        0 <= i < table.len() ==> (#[trigger] table[i]).name == batch_names(batches[0])[i]
    &&& forall|i: int|
        0 <= i < table.len() ==> (#[trigger] table[i]).cells.len() == total_rows(batches)
}

/// Passes a series on and wraps an error of polars: the error keeps polars'
/// error as its source and carries its text behind `Polars error: `.
pub fn column_outcome<E>(outcome: Result<Series, PolarsError>) -> (result: Result<
    Series,
    DuckDBPolarsError<E>,
>)
    ensures
        match outcome {
            Ok(series) => result == Ok::<Series, DuckDBPolarsError<E>>(series),
            Err(e) => {
                &&& result matches Err(DuckDBPolarsError::Polars { source, .. }) && source == e
                &&& series_outcome(result) == Err::<SeriesView, Failure>(
                    Failure::Polars { msg: polars_message(error_text(e)), source: error_text(e) },
                )
            },
        },
{
    match outcome {
        Ok(series) => Ok(series),
        Err(e) => Err(DuckDBPolarsError::from(e)),
    }
}

/// Converts one batch into a segment.
///
/// Each column is reinterpreted as a polars series, under the name that `names`
/// holds for its position. The columns keep their order. The first column
/// whose position has no name, that polars refuses, or that comes out with
/// another number of values than the batch has rows, ends the conversion with
/// its error. A batch with a column on which the calls into arrow2 and polars
/// could panic is not converted at all.
///
/// polars panics in place of every error that it gives where the process has
/// the environment variable `POLARS_PANIC_ON_ERR` set. What is said here holds
/// of a process without it.
pub fn convert_batch<E>(batch: &Batch, names: &Vec<String>) -> (result: Result<
    DataFrame,
    DuckDBPolarsError<E>,
>)
    ensures
        frame_outcome(result) == segment_of(*batch, names_view(names@)),
        result matches Ok(frame) ==> {
            &&& frame_columns(frame).len() == batch_names(*batch).len()
            &&& forall|i: int|
                0 <= i < frame_columns(frame).len() ==> (#[trigger] frame_columns(
                    frame,
                )[i]).cells.len() == batch_rows(*batch)
        },
{
    if !batch_is_supported(batch) {
        return Err(DuckDBPolarsError::unsupported());
    }
    let width = column_count(batch);
    let rows = row_count(batch);
    let ghost labels = names_view(names@);
    let mut columns: Vec<Series> = Vec::new();
    let mut index: usize = 0;
    while index < width
        invariant
            index <= width,
            width == batch_columns(*batch).len(),
            rows == batch_rows(*batch),
            batch_supported(*batch),
            labels == names_view(names@),
            columns@.len() == index,
            forall|i: int|
                0 <= i < index ==> #[trigger] column_of(*batch, labels, i) == Ok::<
                    SeriesView,
                    Failure,
                >(series_view(columns@[i])),
        decreases width - index,
    {
        if index >= names.len() {
            let error = DuckDBPolarsError::missing_name(index);
            proof {
                assert(columns_hold(*batch, labels, index as int));
                lemma_first_failing_column(*batch, labels, index as int);
            }
            return Err(error);
        }
        assert(labels[index as int] == names@[index as int]@);
        let outcome = reinterpret_column(batch, index, names[index].as_str());
        match column_outcome(outcome) {
            Ok(series) => {
                let found = series_len(&series);
                if found != rows {
                    let error = DuckDBPolarsError::row_mismatch(index, found, rows);
                    proof {
                        assert(columns_hold(*batch, labels, index as int));
                        lemma_first_failing_column(*batch, labels, index as int);
                    }
                    return Err(error);
                }
                assert(column_of(*batch, labels, index as int) == Ok::<SeriesView, Failure>(
                    series_view(series),
                ));
                columns.push(series);
            },
            Err(error) => {
                proof {
                    assert(columns_hold(*batch, labels, index as int));
                    lemma_first_failing_column(*batch, labels, index as int);
                }
                return Err(error);
            },
        }
        index += 1;
    }
    let frame = frame_of(columns);
    proof {
        assert(columns_hold(*batch, labels, width as int));
        assert(frame_columns(frame) =~= segment_of(*batch, labels)->Ok_0);
        assert forall|i: int| 0 <= i < frame_columns(frame).len() implies (
        #[trigger] frame_columns(frame)[i]).cells.len() == batch_rows(*batch) by {
            assert(column_of(*batch, labels, i) is Ok);
        }
    }
    Ok(frame)
}

/// Converts every batch into a segment under the names of the first batch's
/// schema, or ends with the error of the first batch that does not become one.
fn convert_segments<E>(rbs: &Vec<Batch>) -> (result: Result<Vec<DataFrame>, DuckDBPolarsError<E>>)
    requires
        rbs@.len() > 0,
    ensures
        match result {
            Ok(frames) => {
                &&& segments_hold(rbs@, batch_names(rbs@[0]), rbs@.len() as int)
                &&& frames_view(frames@) == segments_of(rbs@, batch_names(rbs@[0]))
                &&& frames@.len() > 0
                &&& frame_columns(frames@[0]).len() == batch_names(rbs@[0]).len()
            },
            Err(error) => {
                &&& !segments_hold(rbs@, batch_names(rbs@[0]), rbs@.len() as int)
                &&& table_of(rbs@) == Err::<Seq<SeriesView>, Failure>(error@)
            },
        },
{
    let names = schema_names(&rbs[0]);
    let ghost labels = batch_names(rbs@[0]);
    let mut frames: Vec<DataFrame> = Vec::new();
    let mut index: usize = 0;
    while index < rbs.len()
        invariant
            index <= rbs.len(),
            rbs@.len() > 0,
            labels == batch_names(rbs@[0]),
            labels == names_view(names@),
            frames@.len() == index,
            forall|k: int|
                0 <= k < index ==> #[trigger] segment_of(rbs@[k], labels) == Ok::<
                    Seq<SeriesView>,
                    Failure,
                >(frame_columns(frames@[k])),
            index > 0 ==> frame_columns(frames@[0]).len() == labels.len(),
        decreases rbs.len() - index,
    {
        match convert_batch(&rbs[index], &names) {
            Ok(frame) => {
                frames.push(frame);
            },
            Err(error) => {
                proof {
                    assert(segments_hold(rbs@, labels, index as int));
                    lemma_first_failing_batch(rbs@, index as int);
                    assert(segment_of(rbs@[index as int], labels) is Err);
                }
                return Err(error);
            },
        }
        index += 1;
    }
    proof {
        assert(segments_hold(rbs@, labels, rbs@.len() as int));
        assert(frames_view(frames@) =~= segments_of(rbs@, labels));
    }
    Ok(frames)
}

/// Decides whether the segments of the batches are alike: whether each has as
/// many columns as the first, with the same data types. Their names are the
/// same in any case.
fn segments_match(rbs: &Vec<Batch>, frames: &Vec<DataFrame>) -> (ok: bool)
    requires
        rbs@.len() > 0,
        segments_hold(rbs@, batch_names(rbs@[0]), rbs@.len() as int),
        frames_view(frames@) == segments_of(rbs@, batch_names(rbs@[0])),
    ensures
        ok == alike(frames_view(frames@)),
{
    let ghost labels = batch_names(rbs@[0]);
    let ghost segments = frames_view(frames@);
    assert(segments.len() == frames@.len());
    assert(segments.len() == rbs@.len());
    assert(segment_of(rbs@[0], labels) is Ok);
    assert(segments[0] == segment_of(rbs@[0], labels)->Ok_0);
    let width = column_count(&rbs[0]);
    let mut index: usize = 0;
    while index < frames.len()
        invariant
            index <= frames.len(),
            frames@.len() == rbs@.len(),
            rbs@.len() > 0,
            labels == batch_names(rbs@[0]),
            segments == frames_view(frames@),
            segments == segments_of(rbs@, labels),
            segments_hold(rbs@, labels, rbs@.len() as int),
            width == segments[0].len(),
            forall|k: int| 0 <= k < index ==> can_extend(segments[0], #[trigger] segments[k]),
        decreases frames.len() - index,
    {
        assert(segment_of(rbs@[index as int], labels) is Ok);
        assert(segments[index as int] == segment_of(rbs@[index as int], labels)->Ok_0);
        assert(segments[index as int] == frame_columns(frames@[index as int]));
        assert(segments[0] == frame_columns(frames@[0]));
        if column_count(&rbs[index]) != width {
            assert(!can_extend(segments[0], segments[index as int]));
            return false;
        }
        let mut column: usize = 0;
        while column < width
            invariant
                column <= width,
                index < frames.len(),
                width == segments[0].len(),
                width == segments[index as int].len(),
                segments == frames_view(frames@),
                segments[index as int] == frame_columns(frames@[index as int]),
                segments[0] == frame_columns(frames@[0]),
                forall|i: int|
                    0 <= i < column ==> (#[trigger] segments[index as int][i]).dtype
                        == segments[0][i].dtype,
            decreases width - column,
        {
            if !same_dtype(&frames[0], &frames[index], column) {
                assert(segments[index as int][column as int].dtype
                    != segments[0][column as int].dtype);
                assert(!can_extend(segments[0], segments[index as int]));
                return false;
            }
            column += 1;
        }
        proof {
            law_segment_names(rbs@[0], labels);
            law_segment_names(rbs@[index as int], labels);
            assert(can_extend(segments[0], segments[index as int]));
        }
        index += 1;
    }
    true
}

/// Adds up the rows of the batches, as long as they stay below what polars
/// counts.
fn count_rows(rbs: &Vec<Batch>) -> (total: Option<usize>)
    ensures
        match total {
            Some(rows) => rows == total_rows(rbs@) && rows < LENGTH_LIMIT,
            None => total_rows(rbs@) >= LENGTH_LIMIT,
        },
{
    let mut rows: usize = 0;
    let mut index: usize = 0;
    while index < rbs.len()
        invariant
            index <= rbs.len(),
            rows == rows_before(rbs@, index as nat),
            rows < LENGTH_LIMIT,
        decreases rbs.len() - index,
    {
        let more = row_count(&rbs[index]);
        if more >= LENGTH_LIMIT - rows {
            proof {
                lemma_rows_grow(rbs@, (index + 1) as nat, rbs@.len());
            }
            return None;
        }
        rows = rows + more;
        index += 1;
    }
    Some(rows)
}

/// Decides whether more than one batch has rows.
fn several_filled(rbs: &Vec<Batch>) -> (several: bool)
    ensures
        several == (filled_batches(rbs@, rbs@.len()) > 1),
{
    let mut filled: bool = false;
    let mut index: usize = 0;
    while index < rbs.len()
        invariant
            index <= rbs.len(),
            filled_batches(rbs@, index as nat) == (if filled {
                1nat
            } else {
                0nat
            }),
        decreases rbs.len() - index,
    {
        if row_count(&rbs[index]) > 0 {
            if filled {
                proof {
                    lemma_rows_grow(rbs@, (index + 1) as nat, rbs@.len());
                }
                return true;
            }
            filled = true;
        }
        index += 1;
    }
    false
}

/// Decides whether polars can append to the series of every column of a batch.
fn columns_append(batch: &Batch) -> (ok: bool)
    ensures
        ok == batch_appends(*batch),
        ok ==> forall|i: int|
            0 <= i < batch_columns(*batch).len() ==> dtype_appends(
                (#[trigger] batch_columns(*batch)[i]).data_type.target,
            ),
{
    let width = column_count(batch);
    let mut index: usize = 0;
    while index < width
        invariant
            index <= width,
            width == batch_columns(*batch).len(),
            forall|i: int|
                0 <= i < index ==> shape_appends((#[trigger] batch_columns(*batch)[i]).data_type)
                    && dtype_appends(batch_columns(*batch)[i].data_type.target),
        decreases width - index,
    {
        let column = column_at(batch, index);
        let data_type = array_type(&column);
        if !type_appends(&data_type) {
            assert(!shape_appends(batch_columns(*batch)[index as int].data_type));
            return false;
        }
        assert(shape_appends(type_shape(data_type)));
        assert(dtype_appends(batch_columns(*batch)[index as int].data_type.target));
        index += 1;
    }
    true
}

/// Stacks the segments of the batches, unless polars cannot stack them.
fn assemble<E>(rbs: &Vec<Batch>, frames: Vec<DataFrame>) -> (result: Result<
    DataFrame,
    DuckDBPolarsError<E>,
>)
    requires
        rbs@.len() > 0,
        segments_hold(rbs@, batch_names(rbs@[0]), rbs@.len() as int),
        frames_view(frames@) == segments_of(rbs@, batch_names(rbs@[0])),
        alike(segments_of(rbs@, batch_names(rbs@[0]))),
        frames@.len() > 0,
        frame_columns(frames@[0]).len() == batch_names(rbs@[0]).len(),
    ensures
        frame_outcome(result) == table_of(rbs@),
        result matches Ok(table) ==> table_matches(frame_columns(table), rbs@),
{
    if count_rows(rbs).is_none() {
        return Err(DuckDBPolarsError::too_many_rows());
    }
    let appends = columns_append(&rbs[0]);
    if !appends && several_filled(rbs) {
        return Err(DuckDBPolarsError::unstackable());
    }
    proof {
        let labels = batch_names(rbs@[0]);
        let segments = segments_of(rbs@, labels);
        assert(segment_of(rbs@[0], labels) is Ok);
        assert(segments[0] == frame_columns(frames@[0]));
        assert forall|k: int| 0 <= k < rbs@.len() implies batch_columns(#[trigger] rbs@[k]).len()
            == batch_columns(rbs@[0]).len() by {
            assert(can_extend(segments[0], segments[k]));
            assert(segment_of(rbs@[k], labels) is Ok);
        }
        assert forall|i: int| 0 <= i < segments[0].len() implies #[trigger] column_stacks(
            segments,
            i,
        ) by {
            assert forall|k: int| 0 <= k < segments.len() implies (
            #[trigger] segments[k])[i].cells.len() == batch_rows(rbs@[k]) by {
                assert(segment_of(rbs@[k], labels) is Ok);
                law_segment_rows(rbs@[k], labels);
            }
            lemma_stacked_rows(segments, rbs@, i, segments.len());
            assert(column_of(rbs@[0], labels, i) is Ok);
            assert(segments[0][i].dtype == batch_columns(rbs@[0])[i].data_type.target);
        }
        assert(stackable(segments));
        law_table_names(rbs@);
        law_table_rows(rbs@);
    }
    let table = stack_frames(frames);
    Ok(table)
}

/// Converts the record batches of one query result into a single table.
///
/// The names of the columns are those of the first batch's schema. Every batch
/// becomes a segment under those names, and the segments are stacked in the
/// order of the batches: the table has the columns of the first segment, each
/// with its values from every batch, first batch first. An empty sequence
/// gives an error, not an empty table, and the first column that fails to
/// convert gives its error for the whole.
///
/// The batches of one result share one schema, and the table is stacked
/// without looking at that again. It is asked of the caller as far as the
/// stacking needs it: where every batch converts, the segments have one width
/// and, column by column, one data type.
///
/// polars panics in place of every error that it gives where the process has
/// the environment variable `POLARS_PANIC_ON_ERR` set. What is said here holds
/// of a process without it.
pub fn arrowrs_record_batches_to_polars_df<E>(rbs: Vec<Batch>) -> (result: Result<
    DataFrame,
    DuckDBPolarsError<E>,
>)
    requires
        segments_alike(rbs@),
    ensures
        frame_outcome(result) == table_of(rbs@),
        rbs@.len() == 0 ==> frame_outcome(result) == Err::<Seq<SeriesView>, Failure>(
            Failure::Internal { msg: no_batches_message() },
        ),
        result matches Ok(table) ==> table_matches(frame_columns(table), rbs@),
{
    if rbs.len() == 0 {
        return Err(DuckDBPolarsError::no_batches());
    }
    match convert_segments(&rbs) {
        Ok(frames) => assemble(&rbs, frames),
        Err(error) => Err(error),
    }
}

/// What batches that a query gave become: where every batch converts but the
/// segments are not alike, an internal error that says so; else what the
/// conversion of the batches gives.
pub open spec fn answer_of(batches: Seq<Batch>) -> Result<Seq<SeriesView>, Failure> {
    if !segments_alike(batches) {
        Err(Failure::Internal { msg: differing_message() })
    } else {
        table_of(batches)
    }
}

/// Whether `result` is what the outcome of a query becomes: for batches, what
/// `answer_of` says; for an error of the engine, the error that wraps it.
pub open spec fn answers<E: core::fmt::Display>(
    result: Result<DataFrame, DuckDBPolarsError<E>>,
    queried: Result<Vec<Batch>, E>,
) -> bool {
    match queried {
        Ok(rbs) => frame_outcome(result) == answer_of(rbs@),
        Err(e) => result matches Err(error) && wraps_engine(error, e),
    }
}

/// Turns what a query engine handed over, its batches or its error, into the
/// table of the query or the error of the whole.
///
/// Other than the conversion of the batches itself, this looks at the segments
/// before it stacks them, and gives an error where they are not alike.
///
/// polars panics in place of every error that it gives where the process has
/// the environment variable `POLARS_PANIC_ON_ERR` set. What is said here holds
/// of a process without it.
pub fn query_to_df_polars<E: core::fmt::Display>(queried: Result<Vec<Batch>, E>) -> (result: Result<
    DataFrame,
    DuckDBPolarsError<E>,
>)
    ensures
        answers(result, queried),
        result matches Ok(table) ==> queried matches Ok(rbs) && table_matches(
            frame_columns(table),
            rbs@,
        ),
{
    match queried {
        Ok(rbs) => {
            if rbs.len() == 0 {
                return Err(DuckDBPolarsError::no_batches());
            }
            match convert_segments(&rbs) {
                Ok(frames) => {
                    if segments_match(&rbs, &frames) {
                        assemble(&rbs, frames)
                    } else {
                        Err(DuckDBPolarsError::differing())
                    }
                },
                Err(error) => Err(error),
            }
        },
        Err(e) => Err(DuckDBPolarsError::from_engine(e)),
    }
}

} // verus!
