//! Payments received for an invoice.
use vstd::prelude::*;
use crate::text::{push_signed_decimal, signed_decimal};
use vstd::string::StringExecFns;

verus! {

/// Database row of the `payments` table; the amount is in cents.
#[derive(Debug)]
pub struct PaymentRow {
    pub id: i64,
    pub facture_id: i64,
    pub amount: i64,
    pub date: String,
    pub payment_type: String,
    pub cheque_number: Option<String>,
    pub created_at: String,
    pub updated_at: String,
}

/// A payment as shown to users.
#[derive(Debug)]
pub struct PaymentView {
    pub id: i64,
    pub facture_id: i64,
    pub amount: i64,
    pub date: String,
    pub payment_type: String,
    pub cheque_number: Option<String>,
    pub created_at: String,
    pub updated_at: String,
}

/// A payment to insert.
#[derive(Debug)]
pub struct PaymentInsert {
    pub facture_id: i64,
    pub amount: i64,
    pub date: String,
    pub payment_type: String,
    pub cheque_number: Option<String>,
}

impl From<PaymentRow> for PaymentView {
    fn from(value: PaymentRow) -> (r: Self) {
        PaymentView {
            id: value.id,
            facture_id: value.facture_id,
            amount: value.amount,
            date: value.date,
            payment_type: value.payment_type,
            cheque_number: value.cheque_number,
            created_at: value.created_at,
            updated_at: value.updated_at,
        }
    }
}

impl vstd::std_specs::convert::FromSpecImpl<PaymentRow> for PaymentView {
    open spec fn obeys_from_spec() -> bool {
        true
    }

    open spec fn from_spec(value: PaymentRow) -> PaymentView {
        payment_view_of(value)
    }
}

/// The payment that a database row shows.
pub open spec fn payment_view_of(value: PaymentRow) -> PaymentView {
    PaymentView {
        id: value.id,
        facture_id: value.facture_id,
        amount: value.amount,
        date: value.date,
        payment_type: value.payment_type,
        cheque_number: value.cheque_number,
        created_at: value.created_at,
        updated_at: value.updated_at,
    }
}

/// The data to suggest the first payment of an invoice: the share of the total
/// asked (in percent), whether the invoice is for alterations, and the invoice's
/// total with taxes and balance, in cents.
pub struct PreCalculatedPayment {
    pub amount_ratio: i64,
    pub is_alteration: bool,
    pub tax_total: i64,
    pub balance: i64,
}

impl PreCalculatedPayment {
    /// `"<ratio>% de <amount>"`.
    pub fn label(&self, amount: i64) -> (r: String)
        ensures
            r@ == signed_decimal(self.amount_ratio as int) + "% de "@ + signed_decimal(
                amount as int,
            ),
    {
        let mut s = String::new();
        push_signed_decimal(&mut s, self.amount_ratio);
        let s = s.concat("% de ");
        let mut s = s;
        push_signed_decimal(&mut s, amount);
        assert(s@ =~= signed_decimal(self.amount_ratio as int) + "% de "@ + signed_decimal(
            amount as int,
        ));
        s
    }

    /// How the first payment is suggested: the whole balance for an
    /// alteration invoice of less than 50 cents, a share of the total
    /// otherwise, and nothing once a payment was made (the balance is no longer
    /// the total).
    pub fn suggestion(&self) -> (r: PaymentSuggestion)
        ensures
            r == (if self.tax_total != self.balance {
                PaymentSuggestion::NoSuggestion
            } else if self.is_alteration && self.balance < 50 {
                PaymentSuggestion::WholeBalance(self.balance)
            } else {
                PaymentSuggestion::ShareOfTotal
            }),
    {
        if self.tax_total == self.balance {
            if self.is_alteration && self.balance < 50 {
                PaymentSuggestion::WholeBalance(self.balance)
            } else {
                PaymentSuggestion::ShareOfTotal
            }
        } else {
            PaymentSuggestion::NoSuggestion
        }
    }
}

/// How the first payment of an invoice is suggested.
#[derive(Debug, Clone, Copy, PartialEq, Eq)]
pub enum PaymentSuggestion {
    /// The whole balance, in cents.
    WholeBalance(i64),
    /// `amount_ratio` percent of the total with taxes.
    ShareOfTotal,
    /// No suggestion.
    NoSuggestion,
}

/// A payment as submitted by the payment form.
#[derive(Debug)]
pub struct PaymentForm {
    pub amount: i64,
    pub date: String,
    pub payment_type: String,
    pub cheque_number: Option<String>,
}

} // verus!
