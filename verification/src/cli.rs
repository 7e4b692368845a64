//! The steps of a run of the command line tool.
//!
//! The tool itself opens the engine, runs the query and prints. What it does
//! next at each point is decided here.

use polars::prelude::DataFrame;
use vstd::prelude::*;

use crate::convert::answers;
use crate::convert::query_to_df_polars;
use crate::error::DuckDBPolarsError;
use crate::outside::Batch;

verus! {

/// The arguments of the tool.
#[derive(Debug)]
pub struct Args {
    /// SQL query to run
    pub sql: String,
}

/// How far a run has come. `E` is the type of the errors of the query engine.
pub enum Step<E> {
    /// Nothing has been done yet.
    Begin,
    /// The query has been run: its batches, or the error of the engine.
    Queried(Result<Vec<Batch>, E>),
}

/// What a run does next.
pub enum Action<E> {
    /// Run this query and come back with what the engine gave.
    Query(String),
    /// Report this table and end well.
    Report(DataFrame),
    /// End with this error.
    Fail(DuckDBPolarsError<E>),
}

impl<E> Action<E> {
    /// The table or the error with which a run ends, if it ends.
    pub open spec fn ending(self) -> Option<Result<DataFrame, DuckDBPolarsError<E>>> {
        match self {
            Action::Query(_) => None,
            Action::Report(table) => Some(Ok(table)),
            Action::Fail(error) => Some(Err(error)),
        }
    }
}

impl Args {
    /// The next action of a run.
    ///
    /// A run begins by asking for its query to be run. With what the engine
    /// gave, it ends: with the table of the query to report, or with the error
    /// that the engine or the conversion gave.
    pub fn run<E: core::fmt::Display>(&self, step: Step<E>) -> (action: Action<E>)
        ensures
            match step {
                Step::Begin => action matches Action::Query(sql) && sql@ == self.sql@,
                Step::Queried(queried) => action.ending() matches Some(result) && answers(
                    result,
                    queried,
                ),
            },
    {
        match step {
            Step::Begin => Action::Query(self.sql.clone()),
            Step::Queried(queried) => match query_to_df_polars(queried) {
                Ok(table) => Action::Report(table),
                Err(error) => Action::Fail(error),
            },
        }
    }
}

} // verus!
