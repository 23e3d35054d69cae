//! Invoices (factures).
use vstd::prelude::*;

verus! {

/// Database row of the `factures` table. `facture_type` is "Product",
/// "Location" or "Alteration"; the fixed total is in cents.
#[derive(Debug)]
pub struct FactureRow {
    pub id: i64,
    pub client_id: i64,
    pub facture_type: Option<String>,
    pub date: Option<String>,
    pub event_id: Option<i64>,
    pub fixed_total: Option<i64>,
    pub cancelled: bool,
    pub paper_ref: Option<String>,
    pub created_at: String,
    pub updated_at: String,
}

/// An invoice to insert.
#[derive(Debug)]
pub struct FactureInsert {
    pub client_id: i64,
    pub facture_type: Option<String>,
    pub date: Option<String>,
    pub event_id: Option<i64>,
    pub fixed_total: Option<i64>,
    pub cancelled: bool,
    pub paper_ref: Option<String>,
}

/// An invoice as shown to users.
#[derive(Debug)]
pub struct FactureView {
    pub id: u64,
    pub client_id: u64,
    pub facture_type: Option<String>,
    pub date: Option<String>,
    pub event_id: Option<u64>,
    pub fixed_total: Option<i64>,
    pub cancelled: bool,
    pub paper_ref: Option<String>,
    pub created_at: String,
    pub updated_at: String,
}

/// An identifier read back as unsigned, as `as u64` does.
pub open spec fn id_bits(id: i64) -> u64 {
    id as u64
}

fn id_to_u64(id: i64) -> (r: u64)
    ensures
        r == id_bits(id),
{
    id as u64
}

impl From<FactureRow> for FactureView {
    fn from(value: FactureRow) -> (r: Self) {
        FactureView {
            id: id_to_u64(value.id),
            client_id: id_to_u64(value.client_id),
            facture_type: value.facture_type,
            date: value.date,
            event_id: match value.event_id {
                Some(id) => Some(id_to_u64(id)),
                None => None,
            },
            fixed_total: value.fixed_total,
            cancelled: value.cancelled,
            paper_ref: value.paper_ref,
            created_at: value.created_at,
            updated_at: value.updated_at,
        }
    }
}

impl vstd::std_specs::convert::FromSpecImpl<FactureRow> for FactureView {
    open spec fn obeys_from_spec() -> bool {
        true
    }

    open spec fn from_spec(value: FactureRow) -> FactureView {
        facture_view_of(value)
    }
}

/// The invoice that a database row shows, its identifiers read as unsigned.
pub open spec fn facture_view_of(value: FactureRow) -> FactureView {
    FactureView {
        id: id_bits(value.id),
        client_id: id_bits(value.client_id),
        facture_type: value.facture_type,
        date: value.date,
        event_id: match value.event_id {
            Some(id) => Some(id_bits(id)),
            None => None,
        },
        fixed_total: value.fixed_total,
        cancelled: value.cancelled,
        paper_ref: value.paper_ref,
        created_at: value.created_at,
        updated_at: value.updated_at,
    }
}

} // verus!
