//! The mathematical picture of columns, segments and tables that the contracts
//! speak of.

use vstd::prelude::*;

verus! {

/// The kinds of Arrow data type that the library tells apart.
///
/// Timestamps and durations in seconds and 64 bit times in microseconds have
/// kinds of their own, apart from those in finer units: polars rescales them,
/// by a thousand, when it makes a series of them. `Other` stands for dictionaries, for
/// run-end encoded data, and for times in a unit that Arrow has no array for.
#[derive(Clone, Copy, Debug, PartialEq, Eq, Structural)]
pub enum Kind {
    Boolean,
    Int8,
    Int16,
    Int32,
    Int64,
    UInt8,
    UInt16,
    UInt32,
    UInt64,
    Float16,
    Float32,
    Float64,
    Date32,
    Date64,
    Time32,
    Time64Microsecond,
    Time64Nanosecond,
    TimestampSecond,
    Timestamp,
    DurationSecond,
    Duration,
    Interval,
    Decimal128,
    Decimal256,
    Null,
    Utf8,
    LargeUtf8,
    Binary,
    LargeBinary,
    FixedSizeBinary,
    List,
    LargeList,
    FixedSizeList,
    Struct,
    Mapping,
    Union,
    Other,
}

impl Kind {
    /// Whether the kind is that of booleans or of plain numbers.
    pub open spec fn is_number(self) -> bool {
        match self {
            Kind::Boolean
            | Kind::Int8
            | Kind::Int16
            | Kind::Int32
            | Kind::Int64
            | Kind::UInt8
            | Kind::UInt16
            | Kind::UInt32
            | Kind::UInt64
            | Kind::Float16
            | Kind::Float32
            | Kind::Float64 => true,
            _ => false,
        }
    }

    /// Whether polars rescales the numbers of a column of this kind when it
    /// makes a series of it.
    pub open spec fn is_rescaled(self) -> bool {
        match self {
            Kind::TimestampSecond | Kind::DurationSecond | Kind::Time64Microsecond => true,
            _ => false,
        }
    }

    /// Whether the kind is that of dates, times, spans of time or decimal
    /// numbers.
    pub open spec fn is_measure(self) -> bool {
        match self {
            Kind::Date32
            | Kind::Date64
            | Kind::Time32
            | Kind::Time64Microsecond
            | Kind::Time64Nanosecond
            | Kind::TimestampSecond
            | Kind::Timestamp
            | Kind::DurationSecond
            | Kind::Duration
            | Kind::Interval
            | Kind::Decimal128
            | Kind::Decimal256 => true,
            _ => false,
        }
    }
}

/// An Arrow data type as the library reads it.
///
/// `children` holds the item type of a list, the field types of a struct or a
/// union and the entry type of a map, in order; it is empty for every other
/// kind. `size` is the number of items in each list of a fixed size list and
/// the number of bytes in each value of fixed size bytes, as the data type
/// holds it; it is 0 for every other kind. `ids` are the type ids of a union.
/// `target` is the data type that polars gives to a series made of a column of
/// this type.
pub struct TypeShape {
    pub kind: Kind,
    pub children: Seq<TypeShape>,
    pub size: int,
    pub ids: Seq<int>,
    pub target: Seq<char>,
}

/// An Arrow array as the library reads it: its data type, the number of its
/// values, the number of values that it skips at its start, and the arrays
/// that stand directly below it (the field arrays of a struct, the values of a
/// list, the entries of a map, the field arrays of a union). `masked` tells
/// whether the array marks missing values at all. `numbers` are the 64 bit
/// numbers that an array of a kind that polars rescales holds in its slots,
/// missing values included; there are none for an array of another kind.
pub struct ArrayShape {
    pub data_type: TypeShape,
    pub len: nat,
    pub offset: nat,
    pub masked: bool,
    pub children: Seq<ArrayShape>,
    pub numbers: Seq<int>,
}

/// Where an array stands in a column, as far as it decides what arrow2 and
/// polars do with it.
#[derive(Clone, Copy, Debug, PartialEq, Eq, Structural)]
pub enum Place {
    /// The column itself, or a field of a struct that stands here. `masked`
    /// tells whether a struct above marks missing values.
    Top { masked: bool },
    /// Below a list, a map or a fixed size list.
    Inside,
    /// Below a union, and not below a fixed size list since.
    Loose,
}

/// A polars series: its name, its data type and its values from the first row
/// to the last. A value and a data type are each taken as text; the contracts
/// only ever compare them.
pub struct SeriesView {
    pub name: Seq<char>,
    pub dtype: Seq<char>,
    pub cells: Seq<Seq<char>>,
}

/// Why a conversion failed: the kind of the error and its message. For an error
/// of polars, `source` is the text of the error that polars gave.
pub enum Failure {
    Internal { msg: Seq<char> },
    Polars { msg: Seq<char>, source: Seq<char> },
    Engine { msg: Seq<char> },
}

/// The texts of a list of strings, in order.
pub open spec fn names_view(names: Seq<String>) -> Seq<Seq<char>> {
    names.map_values(|name: String| name@)
}

} // verus!
