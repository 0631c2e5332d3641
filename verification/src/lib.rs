//! Planning of SQL statements.
//!
//! A statement is planned against a [`catalog::Catalog`]. What only others can
//! tell, such as the plan of a query, is asked of them step by step: see
//! [`engine`]. The entry points are [`statement::handle_statement`] and
//! [`describe::describe_statement`]. What holds of planning as a whole is
//! stated and proved in [`laws`]; what holds of each kind of statement, in the
//! modules that are named after it, and next to the functions that it is about.
pub mod alter;
pub mod answer_laws;
pub mod ast;
pub mod base_laws;
pub mod catalog;
pub mod change_laws;
pub mod columns;
pub mod complaint_laws;
pub mod contents_laws;
pub mod context;
pub mod create_laws;
pub mod database;
pub mod dataflow;
pub mod describe;
pub mod describe_laws;
pub mod drop;
pub mod engine;
pub mod error;
pub mod external;
pub mod index;
pub mod laws;
pub mod names;
pub mod normalize;
pub mod number;
pub mod plan;
pub mod query;
pub mod query_laws;
pub mod relation;
pub mod show;
pub mod show_laws;
pub mod sink;
pub mod source;
pub mod source_laws;
pub mod statement;
pub mod table;
pub mod text;
pub mod value;
pub mod variable;
pub mod view;
