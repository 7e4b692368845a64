//! The types and calls that the library takes from arrow, arrow2 and polars.
//!
//! Nothing in this file is proved: each contract restates what the named
//! function of the other crate does, and the rest of the library is verified
//! against these contracts.

use arrow_array::cast::AsArray;
use arrow_array::make_array;
use arrow_array::types::DurationSecondType;
use arrow_array::types::Time64MicrosecondType;
use arrow_array::types::TimestampSecondType;
use arrow_array::Array;
use arrow_schema::DataType;
use arrow_schema::TimeUnit;
use polars::export::arrow::array::from_data;
use polars::prelude::DataFrame;
use polars::prelude::PolarsError;
use polars::prelude::Series;
use polars_core::utils::accumulate_dataframes_vertical_unchecked;
use vstd::prelude::*;

use crate::model::names_view;
use crate::model::ArrayShape;
use crate::model::Kind;
use crate::model::SeriesView;
use crate::model::TypeShape;
use crate::support::column_supported;
use crate::table::stackable;
use crate::table::stacked;

verus! {

/// One slice of a query result: an Arrow record batch, held as it is.
///
/// Verus does not take a declaration of arrow's `RecordBatch` itself (its
/// columns are trait objects), so the batch stands in a struct of the library.
/// To the proofs a batch is opaque: they know of it what `batch_names`,
/// `batch_columns`, `batch_rows` and `converted_cells` say.
#[verifier::external_body]
pub struct Batch {
    pub inner: arrow_array::RecordBatch,
}

/// An Arrow array, held as it is. It is a trait object, so it stands in a
/// struct of the library; the proofs know of it what `column_shape` says.
#[verifier::external_body]
pub struct Column {
    pub inner: arrow_array::ArrayRef,
}

/// arrow's `DataType`, opaque to the proofs.
#[verifier::external_type_specification]
#[verifier::external_body]
pub struct ExDataType(arrow_schema::DataType);

/// polars' `Series`, opaque to the proofs.
#[verifier::external_type_specification]
#[verifier::external_body]
pub struct ExSeries(polars::prelude::Series);

/// polars' `DataFrame`, opaque to the proofs.
#[verifier::external_type_specification]
#[verifier::external_body]
pub struct ExDataFrame(polars::prelude::DataFrame);

/// polars' `PolarsError`, opaque to the proofs.
#[verifier::external_type_specification]
#[verifier::external_body]
pub struct ExPolarsError(polars::prelude::PolarsError);

/// The field names of a batch's schema, in order.
pub uninterp spec fn batch_names(batch: Batch) -> Seq<Seq<char>>;

/// The columns of a batch, in order.
pub uninterp spec fn batch_columns(batch: Batch) -> Seq<ArrayShape>;

/// The number of rows that a batch says it has.
pub uninterp spec fn batch_rows(batch: Batch) -> nat;

/// What an array holds, as far as the library reads it.
pub uninterp spec fn column_shape(column: Column) -> ArrayShape;

/// The shape of an Arrow data type.
pub uninterp spec fn type_shape(data_type: DataType) -> TypeShape;

/// What reinterpreting one column of a batch as a polars series under a given
/// name gives: the values of the series, or the text of polars' error.
pub uninterp spec fn converted_cells(batch: Batch, index: int, name: Seq<char>) -> Result<
    Seq<Seq<char>>,
    Seq<char>,
>;

/// What a series holds.
pub uninterp spec fn series_view(series: Series) -> SeriesView;

/// The columns of a frame, in order.
pub uninterp spec fn frame_columns(frame: DataFrame) -> Seq<SeriesView>;

/// The text that a polars error displays.
pub uninterp spec fn error_text(error: PolarsError) -> Seq<char>;

/// The columns of each frame, in the frames' order.
pub open spec fn frames_view(frames: Seq<DataFrame>) -> Seq<Seq<SeriesView>> {
    frames.map_values(|frame: DataFrame| frame_columns(frame))
}

/// What each series holds, in the series' order.
pub open spec fn series_views(columns: Seq<Series>) -> Seq<SeriesView> {
    columns.map_values(|series: Series| series_view(series))
}

/// `RecordBatch::schema`, `Schema::fields` and `Field::name`: the names of the
/// schema's fields, copied in order.
#[verifier::external_body]
pub(crate) fn schema_names(batch: &Batch) -> (names: Vec<String>)
    ensures
        names_view(names@) == batch_names(*batch),
{
    batch.inner.schema().fields().iter().map(|field| field.name().clone()).collect()
}

/// `RecordBatch::num_columns`: the number of columns, which a record batch
/// keeps equal to the number of fields of its schema.
#[verifier::external_body]
pub(crate) fn column_count(batch: &Batch) -> (count: usize)
    ensures
        count == batch_columns(*batch).len(),
        count == batch_names(*batch).len(),
{
    batch.inner.num_columns()
}

/// `RecordBatch::num_rows`: the number of rows that the batch was made with.
#[verifier::external_body]
pub(crate) fn row_count(batch: &Batch) -> (count: usize)
    ensures
        count == batch_rows(*batch),
{
    batch.inner.num_rows()
}

/// `RecordBatch::column`: the array at `index`, shared and not copied. It
/// panics past the last column.
#[verifier::external_body]
pub(crate) fn column_at(batch: &Batch, index: usize) -> (column: Column)
    requires
        index < batch_columns(*batch).len(),
    ensures
        column_shape(column) == batch_columns(*batch)[index as int],
{
    Column { inner: batch.inner.column(index).clone() }
}

/// `Array::data_type`: a copy of the data type of an array.
#[verifier::external_body]
pub(crate) fn array_type(column: &Column) -> (data_type: DataType)
    ensures
        type_shape(data_type) == column_shape(*column).data_type,
{
    column.inner.data_type().clone()
}

/// `Array::len`: the number of values of an array.
#[verifier::external_body]
pub(crate) fn array_len(column: &Column) -> (len: usize)
    ensures
        len == column_shape(*column).len,
{
    column.inner.len()
}

/// `Array::offset`: the number of values that an array skips at its start.
#[verifier::external_body]
pub(crate) fn array_offset(column: &Column) -> (offset: usize)
    ensures
        offset == column_shape(*column).offset,
{
    column.inner.offset()
}

/// `Array::to_data` and `ArrayData::nulls`: whether an array marks missing
/// values at all, as arrow2 finds it when it takes the array over.
#[verifier::external_body]
pub(crate) fn array_masked(column: &Column) -> (masked: bool)
    ensures
        masked == column_shape(*column).masked,
{
    column.inner.to_data().nulls().is_some()
}

/// `PrimitiveArray::values` on an array of timestamps or durations in seconds
/// or of 64 bit times in microseconds: a copy of the numbers in its slots, in
/// order; none for an array of another data type.
#[verifier::external_body]
pub(crate) fn array_numbers(column: &Column) -> (numbers: Vec<i64>)
    ensures
        numbers@.len() == column_shape(*column).numbers.len(),
        forall|i: int|
            0 <= i < numbers@.len() ==> #[trigger] numbers@[i] == column_shape(
                *column,
            ).numbers[i],
{
    let array = column.inner.as_ref();
    match array.data_type() {
        DataType::Timestamp(TimeUnit::Second, _) => {
            array.as_primitive::<TimestampSecondType>().values().to_vec()
        },
        DataType::Duration(TimeUnit::Second) => {
            array.as_primitive::<DurationSecondType>().values().to_vec()
        },
        DataType::Time64(TimeUnit::Microsecond) => {
            array.as_primitive::<Time64MicrosecondType>().values().to_vec()
        },
        _ => Vec::new(),
    }
}

/// `Array::to_data`, `ArrayData::child_data` and `make_array`: the arrays
/// directly below an array, as arrow2 finds them when it takes the array over.
#[verifier::external_body]
pub(crate) fn array_children(column: &Column) -> (children: Vec<Column>)
    ensures
        children@.len() == column_shape(*column).children.len(),
        forall|i: int|
            0 <= i < children@.len() ==> column_shape(#[trigger] children@[i]) == column_shape(
                *column,
            ).children[i],
{
    let data = column.inner.to_data();
    data.child_data().iter().map(|child| Column { inner: make_array(child.clone()) }).collect()
}

/// Tells the variants of arrow's `DataType` for booleans and plain numbers
/// apart; every other variant is answered with `Other`.
#[verifier::external_body]
pub(crate) fn number_kind(data_type: &DataType) -> (kind: Kind)
    ensures
        kind == if type_shape(*data_type).kind.is_number() {
            type_shape(*data_type).kind
        } else {
            Kind::Other
        },
{
    match data_type {
        DataType::Boolean => Kind::Boolean,
        DataType::Int8 => Kind::Int8,
        DataType::Int16 => Kind::Int16,
        DataType::Int32 => Kind::Int32,
        DataType::Int64 => Kind::Int64,
        DataType::UInt8 => Kind::UInt8,
        DataType::UInt16 => Kind::UInt16,
        DataType::UInt32 => Kind::UInt32,
        DataType::UInt64 => Kind::UInt64,
        DataType::Float16 => Kind::Float16,
        DataType::Float32 => Kind::Float32,
        DataType::Float64 => Kind::Float64,
        _ => Kind::Other,
    }
}

/// Tells the variants of arrow's `DataType` for dates, times, spans of time
/// and decimal numbers apart, and with them the variants of `TimeUnit`; every
/// other variant is answered with `Other`.
#[verifier::external_body]
pub(crate) fn measure_kind(data_type: &DataType) -> (kind: Kind)
    ensures
        kind == if type_shape(*data_type).kind.is_measure() {
            type_shape(*data_type).kind
        } else {
            Kind::Other
        },
{
    match data_type {
        DataType::Date32 => Kind::Date32,
        DataType::Date64 => Kind::Date64,
        DataType::Time32(_) => Kind::Time32,
        DataType::Time64(TimeUnit::Microsecond) => Kind::Time64Microsecond,
        DataType::Time64(TimeUnit::Nanosecond) => Kind::Time64Nanosecond,
        DataType::Timestamp(TimeUnit::Second, _) => Kind::TimestampSecond,
        DataType::Timestamp(_, _) => Kind::Timestamp,
        DataType::Duration(TimeUnit::Second) => Kind::DurationSecond,
        DataType::Duration(_) => Kind::Duration,
        DataType::Interval(_) => Kind::Interval,
        DataType::Decimal128(_, _) => Kind::Decimal128,
        DataType::Decimal256(_, _) => Kind::Decimal256,
        _ => Kind::Other,
    }
}

/// Tells the variants of arrow's `DataType` for texts, bytes, nested types and
/// the type without values apart; every other variant is answered with
/// `Other`.
#[verifier::external_body]
pub(crate) fn composite_kind(data_type: &DataType) -> (kind: Kind)
    ensures
        kind == if type_shape(*data_type).kind.is_number() || type_shape(
            *data_type,
        ).kind.is_measure() {
            Kind::Other
        } else {
            type_shape(*data_type).kind
        },
{
    match data_type {
        DataType::Null => Kind::Null,
        DataType::Utf8 => Kind::Utf8,
        DataType::LargeUtf8 => Kind::LargeUtf8,
        DataType::Binary => Kind::Binary,
        DataType::LargeBinary => Kind::LargeBinary,
        DataType::FixedSizeBinary(_) => Kind::FixedSizeBinary,
        DataType::List(_) => Kind::List,
        DataType::LargeList(_) => Kind::LargeList,
        DataType::FixedSizeList(_, _) => Kind::FixedSizeList,
        DataType::Struct(_) => Kind::Struct,
        DataType::Map(_, _) => Kind::Mapping,
        DataType::Union(_, _) => Kind::Union,
        _ => Kind::Other,
    }
}

/// The number of items in each list of a fixed size list and the number of
/// bytes in each value of fixed size bytes, as the `DataType` holds it; 0 for
/// every other data type.
#[verifier::external_body]
pub(crate) fn fixed_size(data_type: &DataType) -> (size: i32)
    ensures
        size == type_shape(*data_type).size,
{
    match data_type {
        DataType::FixedSizeList(_, size) => *size,
        DataType::FixedSizeBinary(size) => *size,
        _ => 0,
    }
}

/// `UnionFields::iter`: the type ids of a union, in the order of its fields;
/// none for every other data type.
#[verifier::external_body]
pub(crate) fn union_ids(data_type: &DataType) -> (ids: Vec<i8>)
    ensures
        ids@.len() == type_shape(*data_type).ids.len(),
        forall|i: int| 0 <= i < ids@.len() ==> #[trigger] ids@[i] == type_shape(*data_type).ids[i],
{
    match data_type {
        DataType::Union(fields, _) => fields.iter().map(|(id, _)| id).collect(),
        _ => Vec::new(),
    }
}

/// `Field::data_type` on the item field of a list, on the entry field of a map
/// and on the fields of a struct or a union: copies of the data types directly
/// below a data type.
#[verifier::external_body]
pub(crate) fn children_of(data_type: &DataType) -> (children: Vec<DataType>)
    ensures
        children@.len() == type_shape(*data_type).children.len(),
        forall|i: int|
            0 <= i < children@.len() ==> type_shape(#[trigger] children@[i]) == type_shape(
                *data_type,
            ).children[i],
{
    match data_type {
        DataType::List(item) | DataType::LargeList(item) => vec![item.data_type().clone()],
        DataType::FixedSizeList(item, _) => vec![item.data_type().clone()],
        DataType::Map(entries, _) => vec![entries.data_type().clone()],
        DataType::Struct(fields) => fields.iter().map(|f| f.data_type().clone()).collect(),
        DataType::Union(fields, _) => fields.iter().map(|(_, f)| f.data_type().clone()).collect(),
        _ => Vec::new(),
    }
}

/// polars' `Series::try_from` on a name and an array, the array being the
/// column at `index` as `Array::to_data` and arrow2's `from_data` hand it over:
/// the column, reinterpreted as a series of that name.
///
/// The outcome depends on the batch, the position and the name alone. A series
/// that comes back has the name it was asked for and a data type that the
/// column's Arrow data type decides. How many values it has is not promised
/// here. The calls panic on some data types, on a struct whose field arrays
/// are not as long as the struct, on numbers that overflow when polars
/// rescales them, and on more values than polars counts; `requires` keeps to
/// the columns on which they do not. Where polars has no series for a type, it
/// gives an error.
///
/// This holds of a process in which the environment variable
/// `POLARS_PANIC_ON_ERR` is not set: with it, polars panics where it would
/// give an error.
#[verifier::external_body]
pub(crate) fn reinterpret_column(batch: &Batch, index: usize, name: &str) -> (outcome: Result<
    Series,
    PolarsError,
>)
    requires
        index < batch_columns(*batch).len(),
        column_supported(batch_columns(*batch)[index as int]),
    ensures
        match outcome {
            Ok(series) => {
                &&& converted_cells(*batch, index as int, name@) == Ok::<
                    Seq<Seq<char>>,
                    Seq<char>,
                >(series_view(series).cells)
                &&& series_view(series).name == name@
                &&& series_view(series).dtype == batch_columns(
                    *batch,
                )[index as int].data_type.target
            },
            Err(error) => converted_cells(*batch, index as int, name@) == Err::<
                Seq<Seq<char>>,
                Seq<char>,
            >(error_text(error)),
        },
{
    let data = batch.inner.column(index).to_data();
    Series::try_from((name, from_data(&data)))
}

/// `Series::len`: the number of values of a series.
#[verifier::external_body]
pub(crate) fn series_len(series: &Series) -> (len: usize)
    ensures
        len == series_view(*series).cells.len(),
{
    series.len()
}

/// `DataFrame::new_no_checks`: a frame of the given columns, as they are.
#[verifier::external_body]
pub(crate) fn frame_of(columns: Vec<Series>) -> (frame: DataFrame)
    ensures
        frame_columns(frame) == series_views(columns@),
{
    DataFrame::new_no_checks(columns)
}

/// `DataFrame::get_columns`, `Series::dtype` and polars' `==` on data types:
/// whether the columns at `index` of two frames have the same data type.
/// Indexing panics past the last column.
#[verifier::external_body]
pub(crate) fn same_dtype(left: &DataFrame, right: &DataFrame, index: usize) -> (same: bool)
    requires
        index < frame_columns(*left).len(),
        index < frame_columns(*right).len(),
    ensures
        same == (frame_columns(*left)[index as int].dtype == frame_columns(
            *right,
        )[index as int].dtype),
{
    left.get_columns()[index].dtype() == right.get_columns()[index].dtype()
}

/// `accumulate_dataframes_vertical_unchecked`: the first frame, with the
/// columns of every later frame appended to its own, position by position.
///
/// It panics on an empty list, and where a column cannot be appended to the one
/// above it. polars' `DataFrame::vstack_mut` appends as soon as the names and
/// the data types of two columns are equal, so `requires` asks for equal ones,
/// and for frames of one width. It panics too where the values of a column
/// together are more than polars counts, and where it appends to a struct with
/// a field without values, which it does as soon as two frames have rows;
/// `requires` leaves both out.
#[verifier::external_body]
pub(crate) fn stack_frames(frames: Vec<DataFrame>) -> (table: DataFrame)
    requires
        stackable(frames_view(frames@)),
    ensures
        frame_columns(table) == stacked(frames_view(frames@)),
{
    accumulate_dataframes_vertical_unchecked(frames)
}

/// `PolarsError`'s `Display`: the text of the error.
#[verifier::external_body]
pub(crate) fn polars_error_text(error: &PolarsError) -> (text: String)
    ensures
        text@ == error_text(*error),
{
    format!("{}", error)
}

} // verus!
