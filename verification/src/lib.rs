//! dbview: the verified core of a read-only SQLite explorer.
//!
//! The library holds what the explorer computes: how identifiers are quoted
//! into SQL, which statements are sent, how cell values and counts are
//! rendered, how columns and tables are described in words, how the
//! overview of a database is summarised, and how a histogram's values are
//! counted into bins. Reading the database file, floating-point work and
//! drawing the terminal output are left to the program around it.

pub mod error;
pub mod text;
pub mod schema;
pub mod numbers;
pub mod db;
pub mod display;
pub mod stats;
pub mod viz;
