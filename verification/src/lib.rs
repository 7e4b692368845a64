//! Turns the record batches of a query result into one polars table.
//!
//! A query engine hands its result over as a sequence of Arrow record batches.
//! Each batch becomes a table segment: every column is reinterpreted as a polars
//! series and receives the name that the first batch's schema gives to its
//! position. The segments are then stacked, in the order of the batches, into a
//! single `DataFrame`.
//!
//! - `convert` holds the conversion itself, `table` what its contracts say of
//!   the segments and the table, and `laws` what follows for every table.
//! - `support` decides which batches the conversion takes.
//! - `outside` holds the calls into arrow, arrow2 and polars with the contracts
//!   that the proofs rest on, and `model` the picture that those contracts draw
//!   of columns and data types.
//! - `error` holds the errors and their messages, `text` the numbers in them.
//! - `cli` decides the steps of the command line tool.

pub mod cli;
pub mod convert;
pub mod error;
pub mod laws;
pub mod model;
pub mod outside;
pub mod support;
pub mod table;
pub mod text;

pub use cli::Action;
pub use cli::Args;
pub use cli::Step;
pub use convert::arrowrs_record_batches_to_polars_df;
pub use convert::convert_batch;
pub use convert::query_to_df_polars;
pub use error::DuckDBPolarsError;
pub use outside::Batch;
