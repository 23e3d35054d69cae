//! The database tables and which records belong to them.
pub mod has_table;
