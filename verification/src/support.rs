//! Which columns the conversion takes: those on which the calls into arrow2
//! and polars are known to return, with a series or with an error.

use arrow_schema::DataType;
use vstd::prelude::*;

use crate::model::ArrayShape;
use crate::model::Kind;
use crate::model::Place;
use crate::model::TypeShape;
use crate::outside::array_children;
use crate::outside::array_len;
use crate::outside::array_masked;
use crate::outside::array_numbers;
use crate::outside::array_offset;
use crate::outside::array_type;
use crate::outside::batch_columns;
use crate::outside::children_of;
use crate::outside::column_at;
use crate::outside::column_count;
use crate::outside::column_shape;
use crate::outside::composite_kind;
use crate::outside::fixed_size;
use crate::outside::measure_kind;
use crate::outside::number_kind;
use crate::outside::type_shape;
use crate::outside::union_ids;
use crate::outside::Batch;
use crate::outside::Column;

verus! {

/// The number of values that a series of polars must stay below: polars counts
/// them in 32 bits.
pub const LENGTH_LIMIT: usize = 4_294_967_295;

/// The largest number that polars can rescale by a thousand.
pub const RESCALED_MAX: i64 = 9_223_372_036_854_775;

/// Whether arrow2 takes an array of this type over without panicking, whatever
/// polars then makes of it. It does not take run-end encoded data, it divides
/// by the size of a fixed size list and of fixed size bytes, it indexes a
/// table of 127 entries by the type ids of a union, and it takes over what
/// stands below a type in the same way.
pub open spec fn shape_transferable(shape: TypeShape) -> bool
    decreases shape,
{
    &&& shape.kind != Kind::Other
    &&& shape.kind == Kind::FixedSizeList || shape.kind == Kind::FixedSizeBinary ==> shape.size
        > 0
    &&& forall|i: int| 0 <= i < shape.ids.len() ==> 0 <= #[trigger] shape.ids[i] < 127
    &&& forall|i: int|
        0 <= i < shape.children.len() ==> shape_transferable(#[trigger] shape.children[i])
}

/// Whether a column type is one that the conversion takes; `under_list` tells
/// whether the type stands somewhere below a list.
///
/// - Booleans, integers, 32 and 64 bit floats, dates, times, timestamps,
///   durations, texts, bytes and the type without values are taken wherever
///   they stand; fixed size bytes with a size above 0, by which arrow2 steps
///   through them.
/// - 16 bit floats, intervals and decimal numbers are taken unless they stand
///   below a list: polars has no list of them.
/// - A list is taken with an item type that is, a struct with at least one
///   field and field types that are, a map, unless below a list, with an entry
///   type that is.
/// - A fixed size list and a union are taken unless they stand below a list,
///   with any types below them that arrow2 takes over: polars has no series
///   for them and gives an error.
/// - Dictionaries are not taken: polars panics on them. Run-end encoded data is
///   not taken: arrow2 panics on it.
pub open spec fn shape_supported(shape: TypeShape, under_list: bool) -> bool
    decreases shape,
{
    match shape.kind {
        Kind::Other => false,
        Kind::FixedSizeBinary => shape.size > 0,
        Kind::Float16 | Kind::Interval | Kind::Decimal128 | Kind::Decimal256 => !under_list,
        Kind::FixedSizeList | Kind::Union => !under_list && shape_transferable(shape),
        Kind::List | Kind::LargeList => {
            &&& shape.children.len() == 1
            &&& shape_supported(shape.children[0], true)
        },
        Kind::Mapping => {
            &&& !under_list
            &&& shape.children.len() == 1
            &&& shape_supported(shape.children[0], true)
        },
        Kind::Struct => {
            &&& shape.children.len() >= 1
            &&& forall|i: int|
                0 <= i < shape.children.len() ==> shape_supported(
                    #[trigger] shape.children[i],
                    under_list,
                )
        },
        _ => true,
    }
}

/// Whether a number can be rescaled by a thousand within 64 bits.
pub open spec fn rescales(number: int) -> bool {
    -(RESCALED_MAX as int) <= number <= RESCALED_MAX as int
}

/// Whether `values` values are enough for `offset + len` lists of `size` items
/// each.
pub open spec fn values_suffice(offset: nat, len: nat, size: int, values: nat) -> bool {
    size <= 0 || offset + len <= (values as int) / size
}

/// The place of the fields of a struct that stands at `place`.
pub open spec fn below_struct(place: Place, masked: bool) -> Place {
    match place {
        Place::Top { masked: above } => Place::Top { masked: above || masked },
        other => other,
    }
}

/// The place of the values of a list or a map that stands at `place`.
pub open spec fn below_list(place: Place) -> Place {
    match place {
        Place::Loose => Place::Loose,
        _ => Place::Inside,
    }
}

/// Whether an array is such that arrow2 and polars take it without panicking,
/// as far as that lies in the array and not in its type.
///
/// - The numbers of timestamps and durations in seconds and of 64 bit times in
///   microseconds can be rescaled by a thousand, where the array is a column
///   or a field of a struct that is: elsewhere polars leaves them as they are.
/// - The field arrays of a struct are exactly as long as the struct, unless
///   the struct stands loosely below a union, where nothing looks at them.
///   arrow asks only that they be as long or longer.
/// - A struct that marks missing values, or stands below one that does, has no
///   union among its fields, where it is a column or a field of one: polars
///   marks the missing values on the fields, and arrow2 panics when that is
///   asked of a union.
/// - The values of a fixed size list are enough for the lists that the array
///   skips and holds. arrow asks only for enough for those that it holds.
/// - The same holds of the arrays below a struct, a list, a map, a fixed size
///   list and a union, each at its place.
pub open spec fn shape_consistent(array: ArrayShape, place: Place) -> bool
    decreases array,
{
    match array.data_type.kind {
        Kind::TimestampSecond | Kind::DurationSecond | Kind::Time64Microsecond => !(place is Top)
            || forall|i: int|
            0 <= i < array.numbers.len() ==> rescales(#[trigger] array.numbers[i]),
        Kind::Struct => forall|i: int|
            0 <= i < array.children.len() ==> field_consistent(
                array,
                #[trigger] array.children[i],
                place,
            ) && shape_consistent(array.children[i], below_struct(place, array.masked)),
        Kind::FixedSizeList => forall|i: int|
            0 <= i < array.children.len() ==> values_suffice(
                array.offset,
                array.len,
                array.data_type.size,
                (#[trigger] array.children[i]).len,
            ) && shape_consistent(array.children[i], Place::Inside),
        Kind::List | Kind::LargeList | Kind::Mapping => forall|i: int|
            0 <= i < array.children.len() ==> shape_consistent(
                #[trigger] array.children[i],
                below_list(place),
            ),
        Kind::Union => forall|i: int|
            0 <= i < array.children.len() ==> shape_consistent(
                #[trigger] array.children[i],
                Place::Loose,
            ),
        _ => true,
    }
}

/// Whether a field array fits the struct that it belongs to, at the struct's
/// place.
pub open spec fn field_consistent(array: ArrayShape, field: ArrayShape, place: Place) -> bool {
    &&& place != Place::Loose ==> field.len == array.len
    &&& marks_fields(place, array.masked) ==> field.data_type.kind != Kind::Union
}

/// Whether polars marks missing values on the fields of a struct that stands
/// at `place` and marks missing values or not.
pub open spec fn marks_fields(place: Place, masked: bool) -> bool {
    match place {
        Place::Top { masked: above } => above || masked,
        _ => false,
    }
}

/// Whether the conversion takes a column: its type is supported, the array is
/// such that the calls return, and it has fewer values than polars counts.
pub open spec fn column_supported(array: ArrayShape) -> bool {
    &&& shape_supported(array.data_type, false)
    &&& shape_consistent(array, Place::Top { masked: false })
    &&& array.len < LENGTH_LIMIT
}

/// Whether the conversion takes every column of a batch.
pub open spec fn batch_supported(batch: Batch) -> bool {
    forall|i: int|
        0 <= i < batch_columns(batch).len() ==> column_supported(
            #[trigger] batch_columns(batch)[i],
        )
}

/// Whether polars can append to a series of a column of this type: whether no
/// struct, the column itself or a field of one, has a field without values.
/// polars keeps a series without values in one piece, and panics when it
/// appends to a struct whose fields are not in equally many pieces.
pub open spec fn shape_appends(shape: TypeShape) -> bool
    decreases shape,
{
    match shape.kind {
        Kind::Struct => forall|i: int|
            0 <= i < shape.children.len() ==> (#[trigger] shape.children[i]).kind != Kind::Null
                && shape_appends(shape.children[i]),
        _ => true,
    }
}

/// Whether a data type of polars is one to whose series polars can append: the
/// data type that polars gives to an Arrow data type that appends.
pub open spec fn dtype_appends(dtype: Seq<char>) -> bool {
    exists|data_type: DataType|
        shape_appends(#[trigger] type_shape(data_type)) && type_shape(data_type).target == dtype
}

/// The kind of a data type.
pub fn kind_of(data_type: &DataType) -> (kind: Kind)
    ensures
        kind == type_shape(*data_type).kind,
{
    match number_kind(data_type) {
        Kind::Other => match measure_kind(data_type) {
            Kind::Other => composite_kind(data_type),
            kind => kind,
        },
        kind => kind,
    }
}

/// Decides whether arrow2 takes an array of a data type over without
/// panicking.
pub fn type_transferable(data_type: &DataType) -> (ok: bool)
    ensures
        ok == shape_transferable(type_shape(*data_type)),
    decreases type_shape(*data_type),
{
    match kind_of(data_type) {
        Kind::Other => {
            return false;
        },
        Kind::FixedSizeList | Kind::FixedSizeBinary => {
            if fixed_size(data_type) <= 0 {
                return false;
            }
        },
        _ => {},
    }
    let ghost shape = type_shape(*data_type);
    let ids = union_ids(data_type);
    let mut index: usize = 0;
    while index < ids.len()
        invariant
            index <= ids.len(),
            shape == type_shape(*data_type),
            ids@.len() == shape.ids.len(),
            forall|i: int| 0 <= i < ids@.len() ==> #[trigger] ids@[i] == shape.ids[i],
            forall|i: int| 0 <= i < index ==> 0 <= #[trigger] shape.ids[i] < 127,
        decreases ids.len() - index,
    {
        if ids[index] < 0 || ids[index] >= 127 {
            assert(!(0 <= shape.ids[index as int] < 127));
            return false;
        }
        index += 1;
    }
    let children = children_of(data_type);
    let mut index: usize = 0;
    while index < children.len()
        invariant
            index <= children.len(),
            shape == type_shape(*data_type),
            children@.len() == shape.children.len(),
            forall|i: int|
                0 <= i < children@.len() ==> type_shape(#[trigger] children@[i])
                    == shape.children[i],
            forall|i: int| 0 <= i < index ==> shape_transferable(#[trigger] shape.children[i]),
        decreases children.len() - index,
    {
        if !type_transferable(&children[index]) {
            assert(!shape_transferable(shape.children[index as int]));
            return false;
        }
        index += 1;
    }
    true
}

/// Decides whether a data type is one that the conversion takes, somewhere
/// below a list or not.
pub fn type_supported(data_type: &DataType, under_list: bool) -> (ok: bool)
    ensures
        ok == shape_supported(type_shape(*data_type), under_list),
    decreases type_shape(*data_type),
{
    match kind_of(data_type) {
        Kind::Other => false,
        Kind::FixedSizeBinary => fixed_size(data_type) > 0,
        Kind::Float16 | Kind::Interval | Kind::Decimal128 | Kind::Decimal256 => !under_list,
        Kind::FixedSizeList | Kind::Union => !under_list && type_transferable(data_type),
        Kind::List | Kind::LargeList => {
            let children = children_of(data_type);
            if children.len() != 1 {
                return false;
            }
            type_supported(&children[0], true)
        },
        Kind::Mapping => {
            let children = children_of(data_type);
            if under_list || children.len() != 1 {
                return false;
            }
            type_supported(&children[0], true)
        },
        Kind::Struct => {
            let ghost shape = type_shape(*data_type);
            let children = children_of(data_type);
            if children.len() == 0 {
                return false;
            }
            let mut index: usize = 0;
            while index < children.len()
                invariant
                    index <= children.len(),
                    shape == type_shape(*data_type),
                    shape.kind == Kind::Struct,
                    children@.len() == shape.children.len(),
                    forall|i: int|
                        0 <= i < children@.len() ==> type_shape(#[trigger] children@[i])
                            == shape.children[i],
                    forall|i: int|
                        0 <= i < index ==> shape_supported(
                            #[trigger] shape.children[i],
                            under_list,
                        ),
                decreases children.len() - index,
            {
                if !type_supported(&children[index], under_list) {
                    assert(!shape_supported(shape.children[index as int], under_list));
                    return false;
                }
                index += 1;
            }
            true
        },
        _ => true,
    }
}

/// Decides whether polars can append to a series of a column of a data type.
pub fn type_appends(data_type: &DataType) -> (ok: bool)
    ensures
        ok == shape_appends(type_shape(*data_type)),
    decreases type_shape(*data_type),
{
    match kind_of(data_type) {
        Kind::Struct => {
            let ghost shape = type_shape(*data_type);
            let children = children_of(data_type);
            let mut index: usize = 0;
            while index < children.len()
                invariant
                    index <= children.len(),
                    shape == type_shape(*data_type),
                    shape.kind == Kind::Struct,
                    children@.len() == shape.children.len(),
                    forall|i: int|
                        0 <= i < children@.len() ==> type_shape(#[trigger] children@[i])
                            == shape.children[i],
                    forall|i: int|
                        0 <= i < index ==> (#[trigger] shape.children[i]).kind != Kind::Null
                            && shape_appends(shape.children[i]),
                decreases children.len() - index,
            {
                let plain = match kind_of(&children[index]) {
                    Kind::Null => false,
                    _ => type_appends(&children[index]),
                };
                if !plain {
                    let ghost below = shape.children[index as int];
                    assert(!(below.kind != Kind::Null && shape_appends(below)));
                    return false;
                }
                index += 1;
            }
            true
        },
        _ => true,
    }
}

/// Decides whether `values` values are enough for `offset + len` lists of
/// `size` items each.
pub fn enough_values(offset: usize, len: usize, size: i32, values: usize) -> (ok: bool)
    ensures
        ok == values_suffice(offset as nat, len as nat, size as int, values as nat),
{
    if size <= 0 {
        true
    } else {
        let lists = values / (size as usize);
        offset <= lists && len <= lists - offset
    }
}

/// Decides whether every one of the numbers can be rescaled by a thousand.
pub fn numbers_rescale(numbers: &Vec<i64>) -> (ok: bool)
    ensures
        ok == forall|i: int| 0 <= i < numbers@.len() ==> rescales(#[trigger] numbers@[i] as int),
{
    let mut index: usize = 0;
    while index < numbers.len()
        invariant
            index <= numbers.len(),
            forall|i: int| 0 <= i < index ==> rescales(#[trigger] numbers@[i] as int),
        decreases numbers.len() - index,
    {
        if numbers[index] < -RESCALED_MAX || numbers[index] > RESCALED_MAX {
            assert(!rescales(numbers@[index as int] as int));
            return false;
        }
        index += 1;
    }
    true
}

/// The place of what stands directly below an array of a kind with arrays
/// below it.
fn place_below(kind: Kind, place: Place, masked: bool) -> (below: Place)
    ensures
        below == match kind {
            Kind::Struct => below_struct(place, masked),
            Kind::FixedSizeList => Place::Inside,
            Kind::Union => Place::Loose,
            _ => below_list(place),
        },
{
    match kind {
        Kind::Struct => match place {
            Place::Top { masked: above } => Place::Top { masked: above || masked },
            other => other,
        },
        Kind::FixedSizeList => Place::Inside,
        Kind::Union => Place::Loose,
        _ => match place {
            Place::Loose => Place::Loose,
            _ => Place::Inside,
        },
    }
}

/// Decides whether an array is such that arrow2 and polars take it without
/// panicking, as far as that lies in the array and not in its type.
pub fn column_consistent(column: &Column, place: Place) -> (ok: bool)
    ensures
        ok == shape_consistent(column_shape(*column), place),
    decreases column_shape(*column),
{
    let ghost array = column_shape(*column);
    let data_type = array_type(column);
    let kind = kind_of(&data_type);
    match kind {
        Kind::TimestampSecond | Kind::DurationSecond | Kind::Time64Microsecond => {
            match place {
                Place::Top { .. } => {},
                _ => {
                    return true;
                },
            }
            let numbers = array_numbers(column);
            let ok = numbers_rescale(&numbers);
            proof {
                if ok {
                    assert forall|i: int| 0 <= i < array.numbers.len() implies rescales(
                        #[trigger] array.numbers[i],
                    ) by {
                        assert(rescales(numbers@[i] as int));
                    }
                } else {
                    let i = choose|i: int|
                        0 <= i < numbers@.len() && !rescales(#[trigger] numbers@[i] as int);
                    assert(!rescales(array.numbers[i]));
                }
            }
            ok
        },
        Kind::Struct | Kind::List | Kind::LargeList | Kind::Mapping | Kind::FixedSizeList
        | Kind::Union => {
            let len = array_len(column);
            let offset = array_offset(column);
            let masked = array_masked(column);
            let size = fixed_size(&data_type);
            let below = place_below(kind, place, masked);
            let children = array_children(column);
            let mut index: usize = 0;
            while index < children.len()
                invariant
                    index <= children.len(),
                    array == column_shape(*column),
                    kind == array.data_type.kind,
                    kind == Kind::Struct || kind == Kind::List || kind == Kind::LargeList || kind
                        == Kind::Mapping || kind == Kind::FixedSizeList || kind == Kind::Union,
                    below == match kind {
                        Kind::Struct => below_struct(place, masked),
                        Kind::FixedSizeList => Place::Inside,
                        Kind::Union => Place::Loose,
                        _ => below_list(place),
                    },
                    len == array.len,
                    offset == array.offset,
                    masked == array.masked,
                    size == array.data_type.size,
                    children@.len() == array.children.len(),
                    forall|i: int|
                        0 <= i < children@.len() ==> column_shape(#[trigger] children@[i])
                            == array.children[i],
                    forall|i: int|
                        0 <= i < index ==> shape_consistent(#[trigger] array.children[i], below)
                            && (kind == Kind::Struct ==> field_consistent(
                            array,
                            array.children[i],
                            place,
                        )) && (kind == Kind::FixedSizeList ==> values_suffice(
                            offset as nat,
                            len as nat,
                            size as int,
                            array.children[i].len,
                        )),
                decreases children.len() - index,
            {
                let child = &children[index];
                assert(column_shape(*child) == array.children[index as int]);
                let fits = match kind {
                    Kind::Struct => field_fits(len, masked, child, place),
                    Kind::FixedSizeList => enough_values(offset, len, size, array_len(child)),
                    _ => true,
                };
                if !fits || !column_consistent(child, below) {
                    assert(!shape_consistent(array, place));
                    return false;
                }
                index += 1;
            }
            true
        },
        _ => true,
    }
}

/// Decides whether a field array fits a struct of `len` values that marks
/// missing values or not and stands at `place`.
fn field_fits(len: usize, masked: bool, field: &Column, place: Place) -> (ok: bool)
    ensures
        ok == ({
            &&& place != Place::Loose ==> column_shape(*field).len == len
            &&& marks_fields(place, masked) ==> column_shape(*field).data_type.kind
                != Kind::Union
        }),
{
    match place {
        Place::Loose => true,
        Place::Inside => array_len(field) == len,
        Place::Top { masked: above } => {
            if array_len(field) != len {
                return false;
            }
            if above || masked {
                let data_type = array_type(field);
                match kind_of(&data_type) {
                    Kind::Union => false,
                    _ => true,
                }
            } else {
                true
            }
        },
    }
}

/// Decides whether the conversion takes a column.
pub fn column_is_supported(column: &Column) -> (ok: bool)
    ensures
        ok == column_supported(column_shape(*column)),
{
    let data_type = array_type(column);
    array_len(column) < LENGTH_LIMIT && type_supported(&data_type, false) && column_consistent(
        column,
        Place::Top { masked: false },
    )
}

/// Decides whether the conversion takes every column of a batch.
pub fn batch_is_supported(batch: &Batch) -> (ok: bool)
    ensures
        ok == batch_supported(*batch),
{
    let width = column_count(batch);
    let mut index: usize = 0;
    while index < width
        invariant
            index <= width,
            width == batch_columns(*batch).len(),
            forall|i: int| 0 <= i < index ==> column_supported(#[trigger] batch_columns(*batch)[i]),
        decreases width - index,
    {
        let column = column_at(batch, index);
        if !column_is_supported(&column) {
            assert(!column_supported(batch_columns(*batch)[index as int]));
            return false;
        }
        index += 1;
    }
    true
}

} // verus!
