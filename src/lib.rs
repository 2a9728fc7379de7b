//! A personal todo list kept in one table: the records, the rules of the
//! five operations over that table, the text shown for each outcome, and
//! the same operations run against an SQLite file.

pub mod model;
pub mod table;
pub mod store;
pub mod laws;
pub mod text;
pub mod outcome;
pub mod sqlite;
