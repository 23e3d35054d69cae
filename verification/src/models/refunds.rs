//! Refunds made on an invoice.
use vstd::prelude::*;

verus! {

/// Database row of the `refunds` table; the amount is in cents.
#[derive(Debug)]
pub struct RefundRow {
    pub id: i64,
    pub facture_id: i64,
    pub amount: i64,
    pub date: String,
    pub refund_type: String,
    pub cheque_number: Option<String>,
    pub created_at: String,
    pub updated_at: String,
}

/// A refund as shown to users.
#[derive(Debug)]
pub struct RefundView {
    pub id: i64,
    pub facture_id: i64,
    pub amount: i64,
    pub date: String,
    pub refund_type: String,
    pub cheque_number: Option<String>,
    pub created_at: String,
    pub updated_at: String,
}

/// A refund to insert.
#[derive(Debug)]
pub struct RefundInsert {
    pub facture_id: i64,
    pub amount: i64,
    pub date: String,
    pub refund_type: String,
    pub cheque_number: Option<String>,
}

impl From<RefundRow> for RefundView {
    fn from(value: RefundRow) -> (r: Self) {
        RefundView {
            id: value.id,
            facture_id: value.facture_id,
            amount: value.amount,
            date: value.date,
            refund_type: value.refund_type,
            cheque_number: value.cheque_number,
            created_at: value.created_at,
            updated_at: value.updated_at,
        }
    }
}

impl vstd::std_specs::convert::FromSpecImpl<RefundRow> for RefundView {
    open spec fn obeys_from_spec() -> bool {
        true
    }

    open spec fn from_spec(value: RefundRow) -> RefundView {
        refund_view_of(value)
    }
}

/// The refund that a database row shows.
pub open spec fn refund_view_of(value: RefundRow) -> RefundView {
    RefundView {
        id: value.id,
        facture_id: value.facture_id,
        amount: value.amount,
        date: value.date,
        refund_type: value.refund_type,
        cheque_number: value.cheque_number,
        created_at: value.created_at,
        updated_at: value.updated_at,
    }
}

/// A refund as submitted by the refund form.
#[derive(Debug)]
pub struct RefundForm {
    pub amount: i64,
    pub date: String,
    pub refund_type: String,
    pub cheque_number: Option<String>,
}

} // verus!
