//! The errors of a conversion.

use polars::prelude::PolarsError;
use vstd::prelude::*;
use vstd::string::to_string_from_display_ensures;
use vstd::string::StringExecFns;

use crate::model::Failure;
use crate::outside::error_text;
use crate::outside::polars_error_text;
use crate::text::decimal;
use crate::text::decimal_text;

verus! {

/// Why a conversion failed. `E` is the type of the errors of the query engine.
#[derive(Debug)]
#[allow(inconsistent_fields)]
pub enum DuckDBPolarsError<E> {
    /// The conversion itself could not go on: there was no batch, or a column
    /// stood at a position for which the schema has no name.
    Internal { msg: String },
    /// polars refused a column.
    Polars { msg: String, source: PolarsError },
    /// The query engine failed.
    DuckDB { msg: String, source: E },
}

/// Whether `text` is the text that `e` displays.
pub open spec fn shown<E: core::fmt::Display>(e: E, text: Seq<char>) -> bool {
    exists|s: String| #[trigger] to_string_from_display_ensures::<E>(&e, s) && s@ == text
}

/// Whether `error` is the error that wraps the error `e` of the query engine:
/// it keeps `e` as its source and carries its text behind `DuckDB error: `.
pub open spec fn wraps_engine<E: core::fmt::Display>(error: DuckDBPolarsError<E>, e: E) -> bool {
    &&& error matches DuckDBPolarsError::DuckDB { source, .. } && source == e
    &&& exists|text: Seq<char>| #[trigger]
        shown(e, text) && error@ == (Failure::Engine { msg: engine_message(text) })
}

/// The message for an empty sequence of batches.
pub open spec fn no_batches_message() -> Seq<char> {
    "No batches to convert"@
}

/// The message for a column at a position that the schema does not name.
pub open spec fn missing_name_message(index: nat) -> Seq<char> {
    "Column name not found for index "@ + decimal(index)
}

/// The message for a column that, as a series, has another number of values
/// than its batch has rows.
pub open spec fn row_mismatch_message(index: nat, found: nat, rows: nat) -> Seq<char> {
    "Column at index "@ + decimal(index) + " has "@ + decimal(found) + " values, the batch has "@
        + decimal(rows) + " rows"@
}

/// The message for a batch with a column on which the conversion cannot be
/// tried, because the calls that make it could panic.
pub open spec fn unsupported_message() -> Seq<char> {
    "Batch with a column that cannot be converted safely"@
}

/// The message for batches with more rows together than polars counts.
pub open spec fn too_many_rows_message() -> Seq<char> {
    "Batches with more rows than a table can hold"@
}

/// The message for batches that cannot be stacked because more than one of
/// them has rows and a struct among their columns has a field without values.
pub open spec fn unstackable_message() -> Seq<char> {
    "Batches with a struct that has a field without values cannot be stacked"@
}

/// The message for batches whose segments, all converted, cannot be stacked:
/// they differ in the number or in the data types of their columns.
pub open spec fn differing_message() -> Seq<char> {
    "Batches whose columns differ in number or data type"@
}

/// The message that wraps the text of a polars error.
pub open spec fn polars_message(text: Seq<char>) -> Seq<char> {
    "Polars error: "@ + text
}

/// The message that wraps the text of an error of the query engine.
pub open spec fn engine_message(text: Seq<char>) -> Seq<char> {
    "DuckDB error: "@ + text
}

impl<E> View for DuckDBPolarsError<E> {
    type V = Failure;

    open spec fn view(&self) -> Failure {
        match *self {
            DuckDBPolarsError::Internal { msg } => Failure::Internal { msg: msg@ },
            DuckDBPolarsError::Polars { msg, source } => Failure::Polars {
                msg: msg@,
                source: error_text(source),
            },
            DuckDBPolarsError::DuckDB { msg, .. } => Failure::Engine { msg: msg@ },
        }
    }
}

impl<E> DuckDBPolarsError<E> {
    /// The message of the error.
    pub open spec fn text(self) -> Seq<char> {
        match self {
            DuckDBPolarsError::Internal { msg } => msg@,
            DuckDBPolarsError::Polars { msg, .. } => msg@,
            DuckDBPolarsError::DuckDB { msg, .. } => msg@,
        }
    }

    /// The message of the error, as the error displays.
    pub fn message(&self) -> (text: String)
        ensures
            text@ == self.text(),
    {
        match self {
            DuckDBPolarsError::Internal { msg } => msg.clone(),
            DuckDBPolarsError::Polars { msg, .. } => msg.clone(),
            DuckDBPolarsError::DuckDB { msg, .. } => msg.clone(),
        }
    }

    /// The error for an empty sequence of batches.
    pub fn no_batches() -> (error: DuckDBPolarsError<E>)
        ensures
            error@ == (Failure::Internal { msg: no_batches_message() }),
    {
        DuckDBPolarsError::Internal { msg: String::from_str("No batches to convert") }
    }

    /// The error for a column at `index` where the schema has no name for it.
    pub fn missing_name(index: usize) -> (error: DuckDBPolarsError<E>)
        ensures
            error@ == (Failure::Internal { msg: missing_name_message(index as nat) }),
    {
        let number = decimal_text(index);
        let msg = String::from_str("Column name not found for index ").concat(number.as_str());
        DuckDBPolarsError::Internal { msg }
    }

    /// The error for a column at `index` that has `found` values as a series
    /// where its batch has `rows` rows.
    pub fn row_mismatch(index: usize, found: usize, rows: usize) -> (error: DuckDBPolarsError<E>)
        ensures
            error@ == (Failure::Internal {
                msg: row_mismatch_message(index as nat, found as nat, rows as nat),
            }),
    {
        let msg = String::from_str("Column at index ").concat(decimal_text(index).as_str()).concat(
            " has ",
        ).concat(decimal_text(found).as_str()).concat(" values, the batch has ").concat(
            decimal_text(rows).as_str(),
        ).concat(" rows");
        DuckDBPolarsError::Internal { msg }
    }

    /// The error for a batch with a column on which the conversion cannot be
    /// tried.
    pub fn unsupported() -> (error: DuckDBPolarsError<E>)
        ensures
            error@ == (Failure::Internal { msg: unsupported_message() }),
    {
        DuckDBPolarsError::Internal {
            msg: String::from_str("Batch with a column that cannot be converted safely"),
        }
    }

    /// The error for batches with more rows together than polars counts.
    pub fn too_many_rows() -> (error: DuckDBPolarsError<E>)
        ensures
            error@ == (Failure::Internal { msg: too_many_rows_message() }),
    {
        DuckDBPolarsError::Internal {
            msg: String::from_str("Batches with more rows than a table can hold"),
        }
    }

    /// The error for batches that cannot be stacked for a struct with a field
    /// without values.
    pub fn unstackable() -> (error: DuckDBPolarsError<E>)
        ensures
            error@ == (Failure::Internal { msg: unstackable_message() }),
    {
        DuckDBPolarsError::Internal {
            msg: String::from_str(
                "Batches with a struct that has a field without values cannot be stacked",
            ),
        }
    }

    /// The error for batches whose segments cannot be stacked.
    pub fn differing() -> (error: DuckDBPolarsError<E>)
        ensures
            error@ == (Failure::Internal { msg: differing_message() }),
    {
        DuckDBPolarsError::Internal {
            msg: String::from_str("Batches whose columns differ in number or data type"),
        }
    }
}

impl<E: core::fmt::Display> DuckDBPolarsError<E> {
    /// The error that wraps an error of the query engine: the message is the
    /// text of that error behind `DuckDB error: `, and the error itself is
    /// kept.
    pub fn from_engine(e: E) -> (error: DuckDBPolarsError<E>)
        ensures
            wraps_engine(error, e),
    {
        let text = e.to_string();
        assert(shown(e, text@));
        let msg = String::from_str("DuckDB error: ").concat(text.as_str());
        DuckDBPolarsError::DuckDB { msg, source: e }
    }
}

impl<E> From<PolarsError> for DuckDBPolarsError<E> {
    /// The error that wraps an error of polars: the message is the text of that
    /// error behind `Polars error: `, and the error itself is kept.
    fn from(e: PolarsError) -> (error: DuckDBPolarsError<E>)
        ensures
            error matches DuckDBPolarsError::Polars { source, .. } && source == e,
            error@ == (Failure::Polars {
                msg: polars_message(error_text(e)),
                source: error_text(e),
            }),
    {
        let text = polars_error_text(&e);
        let msg = String::from_str("Polars error: ").concat(text.as_str());
        DuckDBPolarsError::Polars { msg, source: e }
    }
}

/// What `from` gives is stated on `from` itself: a message is a `String`, and
/// no expression of a specification makes one.
impl<E> vstd::std_specs::convert::FromSpecImpl<PolarsError> for DuckDBPolarsError<E> {
    open spec fn obeys_from_spec() -> bool {
        false
    }

    open spec fn from_spec(e: PolarsError) -> DuckDBPolarsError<E> {
        arbitrary()
    }
}

} // verus!
