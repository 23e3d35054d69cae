//! Configuration records: clauses and signatures printed on invoices, note
//! templates, event types, seamstresses and the extra charges for large sizes.
use vstd::prelude::*;

verus! {

/// Database row of the `config` table.
#[derive(Debug)]
pub struct ConfigRow {
    pub id: i64,
    pub key: String,
    pub value: String,
    pub config_type: String,
    pub created_at: String,
    pub updated_at: String,
}

/// A configuration record to insert.
#[derive(Debug)]
pub struct ConfigInsert {
    pub key: String,
    pub value: String,
    pub config_type: String,
}

/// A configuration record as shown to users.
pub struct ConfigView {
    pub id: u64,
    pub key: String,
    pub value: String,
    pub config_type: String,
}

/// A template for the notes of an item.
#[derive(Debug, PartialEq)]
pub struct NoteTemplate {
    pub note_type: String,
    pub key: String,
    pub value: String,
}

/// The extra charge for large sizes, in cents: for wedding dresses and for the
/// other dresses.
#[derive(Debug, Clone, Copy, PartialEq, Eq)]
pub struct ExtraLargeAmounts {
    pub wedding: i64,
    pub others: i64,
}

} // verus!
