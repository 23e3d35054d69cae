//! The records of the shop: invoices (factures), their items, clients, events,
//! products, payments, refunds, configuration and item statuses.
pub mod clients;
pub mod config;
pub mod events;
pub mod facture_items;
pub mod factures;
pub mod payments;
pub mod product_types;
pub mod products;
pub mod refunds;
pub mod statuts;

use vstd::prelude::*;
use crate::models::statuts::{copy_state, state_value, State, StateView, StateViewModel};
use crate::text::str_equals;

verus! {

/// An invoice on the dashboard: the invoice, its client and the state of each
/// of its items.
pub struct FactureDashboardData {
    pub facture: factures::FactureView,
    pub client: clients::ClientView,
    pub state_per_item: Vec<(u64, statuts::StateView)>,
}

/// The seamstresses holding the items of a list of item states, in order.
pub open spec fn seamstresses_of(states: Seq<StateViewModel>) -> Seq<Seq<char>>
    decreases states.len(),
{
    if states.len() == 0 {
        Seq::empty()
    } else {
        let rest = seamstresses_of(states.drop_last());
        match states.last().current {
            State::GivenToSeamstress(_, s) => rest.push(s),
            _ => rest,
        }
    }
}

/// The item states of a dashboard line.
pub open spec fn item_states(v: Seq<(u64, StateView)>) -> Seq<StateViewModel> {
    v.map_values(|e: (u64, StateView)| e.1@)
}

impl FactureDashboardData {
    /// The seamstresses that currently hold items of the invoice, in item order.
    pub fn seamstresses(&self) -> (r: Vec<String>)
        ensures
            r@.map_values(|s: String| s@) == seamstresses_of(item_states(self.state_per_item@)),
    {
        let ghost all = item_states(self.state_per_item@);
        let mut r: Vec<String> = Vec::new();
        let mut i: usize = 0;
        assert(all.take(0) =~= Seq::<StateViewModel>::empty());
        while i < self.state_per_item.len()
            invariant
                i <= self.state_per_item@.len(),
                all == item_states(self.state_per_item@),
                r@.map_values(|s: String| s@) == seamstresses_of(all.take(i as int)),
            decreases self.state_per_item.len() - i,
        {
            assert(all.take(i + 1).drop_last() =~= all.take(i as int));
            assert(all.take(i + 1).last() == self.state_per_item@[i as int].1@);
            let ghost before = r@;
            match &self.state_per_item[i].1.current_state {
                State::GivenToSeamstress(_, seamstress) => {
                    r.push(seamstress.clone());
                    assert(r@.map_values(|s: String| s@) =~= before.map_values(|s: String| s@).push(
                        seamstress@,
                    ));
                },
                _ => {},
            }
            i = i + 1;
        }
        assert(all.take(self.state_per_item@.len() as int) =~= all);
        r
    }

    /// The state of the item with the smallest rank (the first such item when
    /// several share it); none when the invoice has no item.
    pub fn smallest_state(&self) -> (r: Option<StateView>)
        ensures
            match r {
                None => self.state_per_item@.len() == 0,
                Some(v) => exists|i: int|
                    0 <= i < self.state_per_item@.len() && v@ == self.state_per_item@[i].1@ && (
                    forall|j: int|
                        0 <= j < self.state_per_item@.len() ==> state_value(
                            self.state_per_item@[i].1@.current,
                        ) <= state_value(#[trigger] self.state_per_item@[j].1@.current)) && (
                    forall|j: int|
                        0 <= j < i ==> state_value(self.state_per_item@[i].1@.current)
                            < state_value(#[trigger] self.state_per_item@[j].1@.current)),
            },
    {
        let n = self.state_per_item.len();
        if n == 0 {
            return None;
        }
        let mut best: usize = 0;
        let mut best_value = self.state_per_item[0].1.current_state.value();
        let mut i: usize = 1;
        while i < n
            invariant
                n == self.state_per_item@.len(),
                1 <= i <= n,
                best < i,
                best_value == state_value(self.state_per_item@[best as int].1@.current),
                forall|j: int|
                    0 <= j < i ==> best_value <= state_value(
                        #[trigger] self.state_per_item@[j].1@.current,
                    ),
                forall|j: int|
                    0 <= j < best ==> best_value < state_value(
                        #[trigger] self.state_per_item@[j].1@.current,
                    ),
            decreases n - i,
        {
            let v = self.state_per_item[i].1.current_state.value();
            if v < best_value {
                best = i;
                best_value = v;
            }
            i = i + 1;
        }
        Some(self.state_per_item[best].1.copy())
    }
}

/// The text of an optional text.
pub open spec fn opt_text(o: Option<&str>) -> Option<Seq<char>> {
    match o {
        Some(s) => Some(s@),
        None => None,
    }
}

/// An invoice with its figures, items and state of each item.
pub struct FactureItemsData {
    pub facture_info: FactureInfo,
    pub items: Vec<FactureItemEntry<facture_items::FactureItemView>>,
}

/// Everything printed on an invoice.
pub struct PagePrintData {
    pub facture_info: FactureInfo,
    pub items: Vec<FactureItemInfo>,
    pub payments: Vec<payments::PaymentView>,
    pub refunds: Vec<refunds::RefundView>,
    pub print_config: PrintConfig,
}

/// The signatures and clauses printed on invoices.
pub struct PrintConfig {
    pub signatures: Vec<String>,
    pub clauses: Vec<String>,
}

/// A printed item: the item, its figures and its product.
pub struct FactureItemInfo {
    pub item: facture_items::FactureItemView,
    pub item_computed: facture_items::FactureItemComputed,
    pub product_info: products::ProductInfo,
}

/// An item with its product and state.
pub struct FactureItemEntry<Item> {
    pub item: Item,
    pub product: products::ProductView,
    pub state: statuts::StateView,
}

/// The page of an invoice's items, with the products used for alterations
/// and rentals.
pub struct PageFactureItemsData {
    pub facture_data: FactureItemsData,
    pub alteration_product: products::ProductView,
    pub location_product: products::ProductView,
}

/// The choices offered by the item form.
pub struct FactureItemFormConfig {
    pub note_templates: Vec<config::NoteTemplate>,
    pub extra_large_amount: config::ExtraLargeAmounts,
    pub seamstresses: Vec<String>,
}

/// The page to add one item to an invoice.
pub struct PageAddOneFactureItemData {
    pub facture_info: FactureInfo,
    pub item: FactureItemEntry<facture_items::FactureItemType>,
    pub product_type: product_types::ProductTypeView,
    pub form_config: FactureItemFormConfig,
}

/// The page to create a product while adding an item.
pub struct PageAddProduct {
    pub facture_info: FactureInfo,
    pub product_types: Vec<product_types::ProductTypeView>,
}

/// The page of one item of an invoice.
pub struct PageOneFactureItemData {
    pub facture: factures::FactureView,
    pub client: clients::ClientView,
    pub item: FactureItemEntry<facture_items::FactureItemView>,
    pub product_type: product_types::ProductTypeView,
    pub form_config: FactureItemFormConfig,
}

/// The page of an invoice's payments and refunds.
pub struct PageTransactionsData {
    pub facture_info: FactureInfo,
    pub payments: Vec<payments::PaymentView>,
    pub refunds: Vec<refunds::RefundView>,
}

/// An invoice with its figures, event and client.
pub struct FactureInfo {
    pub facture: factures::FactureView,
    pub facture_computed: facture_items::FactureComputed,
    pub event: Option<events::EventView>,
    pub client: clients::ClientView,
}

/// An invoice with its client.
pub struct FactureAndClient {
    pub facture: factures::FactureView,
    pub client: clients::ClientView,
}

/// The page of one event, with the invoices linked to it.
pub struct PageOneEvent {
    pub event: events::EventView,
    pub event_types: Vec<String>,
    pub related_factures: Vec<FactureAndClient>,
}

/// A payment or a refund.
pub enum TheTransaction<'a, P, R> {
    Payment(&'a P),
    Refund(&'a R),
}

/// A payment or a refund.
pub type Transaction<'a> = TheTransaction<'a, payments::PaymentView, refunds::RefundView>;

/// A payment or a refund, or the blank form for one of them.
pub type MaybeTransaction<'a> = TheTransaction<
    'a,
    Option<&'a payments::PaymentView>,
    Option<&'a refunds::RefundView>,
>;

impl<'a> TheTransaction<'a, payments::PaymentView, refunds::RefundView> {
    /// Whether this is a refund.
    pub fn is_refund(&self) -> (r: bool)
        ensures
            r == (self is Refund),
    {
        match self {
            TheTransaction::Payment(_) => false,
            TheTransaction::Refund(_) => true,
        }
    }

    /// Whether this is a payment.
    pub fn is_payment(&self) -> (r: bool)
        ensures
            r == (self is Payment),
    {
        match self {
            TheTransaction::Payment(_) => true,
            TheTransaction::Refund(_) => false,
        }
    }

    /// The record's identifier.
    pub fn id(&self) -> (r: i64)
        ensures
            r == match self {
                TheTransaction::Payment(p) => p.id,
                TheTransaction::Refund(x) => x.id,
            },
    {
        match self {
            TheTransaction::Payment(payment_view) => payment_view.id,
            TheTransaction::Refund(refund_view) => refund_view.id,
        }
    }

    /// The invoice of the record.
    pub fn facture_id(&self) -> (r: i64)
        ensures
            r == match self {
                TheTransaction::Payment(p) => p.facture_id,
                TheTransaction::Refund(x) => x.facture_id,
            },
    {
        match self {
            TheTransaction::Payment(payment_view) => payment_view.facture_id,
            TheTransaction::Refund(refund_view) => refund_view.facture_id,
        }
    }

    /// The amount, in cents.
    pub fn amount(&self) -> (r: i64)
        ensures
            r == match self {
                TheTransaction::Payment(p) => p.amount,
                TheTransaction::Refund(x) => x.amount,
            },
    {
        match self {
            TheTransaction::Payment(payment_view) => payment_view.amount,
            TheTransaction::Refund(refund_view) => refund_view.amount,
        }
    }

    /// The date of the record.
    pub fn date(&self) -> (r: &str)
        ensures
            r@ == match self {
                TheTransaction::Payment(p) => p.date@,
                TheTransaction::Refund(x) => x.date@,
            },
    {
        match self {
            TheTransaction::Payment(payment_view) => payment_view.date.as_str(),
            TheTransaction::Refund(refund_view) => refund_view.date.as_str(),
        }
    }

    /// The means of payment or refund.
    pub fn t_type(&self) -> (r: &str)
        ensures
            r@ == match self {
                TheTransaction::Payment(p) => p.payment_type@,
                TheTransaction::Refund(x) => x.refund_type@,
            },
    {
        match self {
            TheTransaction::Payment(payment_view) => payment_view.payment_type.as_str(),
            TheTransaction::Refund(refund_view) => refund_view.refund_type.as_str(),
        }
    }

    /// The cheque number, if any.
    pub fn cheque_number(&self) -> (r: Option<&str>)
        ensures
            opt_text(r) == match self {
                TheTransaction::Payment(p) => p.cheque_number.deep_view(),
                TheTransaction::Refund(x) => x.cheque_number.deep_view(),
            },
    {
        let c = match self {
            TheTransaction::Payment(payment_view) => &payment_view.cheque_number,
            TheTransaction::Refund(refund_view) => &refund_view.cheque_number,
        };
        match c {
            Some(s) => Some(s.as_str()),
            None => None,
        }
    }

    /// When the record was created.
    pub fn created_at(&self) -> (r: &str)
        ensures
            r@ == match self {
                TheTransaction::Payment(p) => p.created_at@,
                TheTransaction::Refund(x) => x.created_at@,
            },
    {
        match self {
            TheTransaction::Payment(payment_view) => payment_view.created_at.as_str(),
            TheTransaction::Refund(refund_view) => refund_view.created_at.as_str(),
        }
    }

    /// When the record was last changed.
    pub fn updated_at(&self) -> (r: &str)
        ensures
            r@ == match self {
                TheTransaction::Payment(p) => p.updated_at@,
                TheTransaction::Refund(x) => x.updated_at@,
            },
    {
        match self {
            TheTransaction::Payment(payment_view) => payment_view.updated_at.as_str(),
            TheTransaction::Refund(refund_view) => refund_view.updated_at.as_str(),
        }
    }
}

impl<'a> TheTransaction<'a, Option<&'a payments::PaymentView>, Option<&'a refunds::RefundView>> {
    /// Whether this is a blank form.
    pub fn is_none(&self) -> (r: bool)
        ensures
            r == match self {
                TheTransaction::Payment(p) => (**p) is None,
                TheTransaction::Refund(x) => (**x) is None,
            },
    {
        match self {
            TheTransaction::Payment(p) => p.is_none(),
            TheTransaction::Refund(x) => x.is_none(),
        }
    }

    /// Whether this is about a refund.
    pub fn is_refund(&self) -> (r: bool)
        ensures
            r == (self is Refund),
    {
        match self {
            TheTransaction::Payment(_) => false,
            TheTransaction::Refund(_) => true,
        }
    }

    /// Whether this is about a payment.
    pub fn is_payment(&self) -> (r: bool)
        ensures
            r == (self is Payment),
    {
        match self {
            TheTransaction::Payment(_) => true,
            TheTransaction::Refund(_) => false,
        }
    }

    /// The record's identifier, if there is a record.
    pub fn id(&self) -> (r: Option<i64>)
        ensures
            r == match self {
                TheTransaction::Payment(p) => match p { Some(v) => Some(v.id), None => None },
                TheTransaction::Refund(x) => match x { Some(v) => Some(v.id), None => None },
            },
    {
        match self {
            TheTransaction::Payment(p) => match p {
                Some(v) => Some(v.id),
                None => None,
            },
            TheTransaction::Refund(x) => match x {
                Some(v) => Some(v.id),
                None => None,
            },
        }
    }

    /// The invoice of the record, if there is a record.
    pub fn facture_id(&self) -> (r: Option<i64>)
        ensures
            r == match self {
                TheTransaction::Payment(p) => match p { Some(v) => Some(v.facture_id), None => None },
                TheTransaction::Refund(x) => match x { Some(v) => Some(v.facture_id), None => None },
            },
    {
        match self {
            TheTransaction::Payment(p) => match p {
                Some(v) => Some(v.facture_id),
                None => None,
            },
            TheTransaction::Refund(x) => match x {
                Some(v) => Some(v.facture_id),
                None => None,
            },
        }
    }

    /// The amount, if there is a record.
    pub fn amount(&self) -> (r: Option<i64>)
        ensures
            r == match self {
                TheTransaction::Payment(p) => match p { Some(v) => Some(v.amount), None => None },
                TheTransaction::Refund(x) => match x { Some(v) => Some(v.amount), None => None },
            },
    {
        match self {
            TheTransaction::Payment(p) => match p {
                Some(v) => Some(v.amount),
                None => None,
            },
            TheTransaction::Refund(x) => match x {
                Some(v) => Some(v.amount),
                None => None,
            },
        }
    }

    /// The date, if there is a record.
    pub fn date(&self) -> (r: Option<&str>)
        ensures
            opt_text(r) == match self {
                TheTransaction::Payment(p) => match p { Some(v) => Some(v.date@), None => None },
                TheTransaction::Refund(x) => match x { Some(v) => Some(v.date@), None => None },
            },
    {
        match self {
            TheTransaction::Payment(p) => match p {
                Some(v) => Some(v.date.as_str()),
                None => None,
            },
            TheTransaction::Refund(x) => match x {
                Some(v) => Some(v.date.as_str()),
                None => None,
            },
        }
    }

    /// The means of payment or refund, if there is a record.
    pub fn t_type(&self) -> (r: Option<&str>)
        ensures
            opt_text(r) == match self {
                TheTransaction::Payment(p) => match p { Some(v) => Some(v.payment_type@), None => None },
                TheTransaction::Refund(x) => match x { Some(v) => Some(v.refund_type@), None => None },
            },
    {
        match self {
            TheTransaction::Payment(p) => match p {
                Some(v) => Some(v.payment_type.as_str()),
                None => None,
            },
            TheTransaction::Refund(x) => match x {
                Some(v) => Some(v.refund_type.as_str()),
                None => None,
            },
        }
    }

    /// The cheque number, if there is a record with one.
    pub fn cheque_number(&self) -> (r: Option<&str>)
        ensures
            opt_text(r) == match self {
                TheTransaction::Payment(p) => match p {
                    Some(v) => v.cheque_number.deep_view(),
                    None => None,
                },
                TheTransaction::Refund(x) => match x {
                    Some(v) => v.cheque_number.deep_view(),
                    None => None,
                },
            },
    {
        let c = match self {
            TheTransaction::Payment(p) => match p {
                Some(v) => &v.cheque_number,
                None => {
                    return None;
                },
            },
            TheTransaction::Refund(x) => match x {
                Some(v) => &v.cheque_number,
                None => {
                    return None;
                },
            },
        };
        match c {
            Some(s) => Some(s.as_str()),
            None => None,
        }
    }

    /// When the record was created, if there is a record.
    pub fn created_at(&self) -> (r: Option<&str>)
        ensures
            opt_text(r) == match self {
                TheTransaction::Payment(p) => match p { Some(v) => Some(v.created_at@), None => None },
                TheTransaction::Refund(x) => match x { Some(v) => Some(v.created_at@), None => None },
            },
    {
        match self {
            TheTransaction::Payment(p) => match p {
                Some(v) => Some(v.created_at.as_str()),
                None => None,
            },
            TheTransaction::Refund(x) => match x {
                Some(v) => Some(v.created_at.as_str()),
                None => None,
            },
        }
    }

    /// When the record was last changed, if there is a record.
    pub fn updated_at(&self) -> (r: Option<&str>)
        ensures
            opt_text(r) == match self {
                TheTransaction::Payment(p) => match p { Some(v) => Some(v.updated_at@), None => None },
                TheTransaction::Refund(x) => match x { Some(v) => Some(v.updated_at@), None => None },
            },
    {
        match self {
            TheTransaction::Payment(p) => match p {
                Some(v) => Some(v.updated_at.as_str()),
                None => None,
            },
            TheTransaction::Refund(x) => match x {
                Some(v) => Some(v.updated_at.as_str()),
                None => None,
            },
        }
    }
}

/// The first payment suggested for an invoice: half of the total for
/// alterations, 60% otherwise.
pub fn initial_payment_amount(f: &FactureInfo) -> (r: payments::PreCalculatedPayment)
    ensures
        r.is_alteration == (f.facture.facture_type.deep_view() == Some("Altération"@)),
        r.amount_ratio == if r.is_alteration { 50i64 } else { 60i64 },
        r.tax_total == f.facture_computed.tax_total,
        r.balance == f.facture_computed.balance,
{
    let is_alteration = match &f.facture.facture_type {
        Some(t) => str_equals(t.as_str(), "Altération"),
        None => false,
    };
    if is_alteration {
        payments::PreCalculatedPayment {
            is_alteration: true,
            amount_ratio: 50,
            tax_total: f.facture_computed.tax_total,
            balance: f.facture_computed.balance,
        }
    } else {
        payments::PreCalculatedPayment {
            is_alteration: false,
            amount_ratio: 60,
            tax_total: f.facture_computed.tax_total,
            balance: f.facture_computed.balance,
        }
    }
}

} // verus!
