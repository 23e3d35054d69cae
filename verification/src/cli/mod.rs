//! Importing the records of the former spreadsheet database.
pub mod migration;
pub mod ordering;
