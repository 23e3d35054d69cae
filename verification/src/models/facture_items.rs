//! Invoice items: products sold, rentals and alterations, with the fields each
//! kind carries, and the figures computed from them.
use vstd::prelude::*;
use crate::text::str_equals;

verus! {

/// Database row of the `facture_items` table. The table holds the three kinds
/// of items; `item_type` says which ("Product", "Location" or "Alteration").
/// Amounts are in cents.
#[derive(Debug)]
pub struct FactureItemRow {
    pub id: i64,
    pub facture_id: i64,
    pub product_id: i64,
    pub item_type: String,
    pub price: Option<i64>,
    pub notes: Option<String>,
    pub quantity: i64,
    pub extra_large_size: Option<i64>,
    pub rebate_percent: Option<i64>,
    pub size: Option<String>,
    pub chest: Option<i64>,
    pub waist: Option<i64>,
    pub hips: Option<i64>,
    pub color: Option<String>,
    pub beneficiary: Option<String>,
    pub floor_item: bool,
    pub insurance: Option<i64>,
    pub other_costs: Option<i64>,
    pub rebate_dollar: Option<i64>,
    pub created_at: String,
    pub updated_at: String,
}

/// An invoice item to insert.
#[derive(Debug)]
pub struct FactureItemInsert {
    pub facture_id: i64,
    pub product_id: i64,
    pub item_type: String,
    pub price: Option<i64>,
    pub notes: Option<String>,
    pub quantity: i64,
    pub extra_large_size: Option<i64>,
    pub rebate_percent: Option<i64>,
    pub size: Option<String>,
    pub chest: Option<i64>,
    pub waist: Option<i64>,
    pub hips: Option<i64>,
    pub color: Option<String>,
    pub beneficiary: Option<String>,
    pub floor_item: bool,
    pub insurance: Option<i64>,
    pub other_costs: Option<i64>,
    pub rebate_dollar: Option<i64>,
}

/// An invoice item as submitted by the item form: integers and amounts are
/// typed as text; the large-size charge comes from the configuration and counts
/// only when its box is checked.
#[derive(Debug)]
pub struct FactureItemForm {
    pub product_id: i64,
    pub quantity: Option<String>,
    pub price: Option<String>,
    pub notes: Option<String>,
    pub size: Option<String>,
    pub chest: Option<String>,
    pub waist: Option<String>,
    pub hips: Option<String>,
    pub color: Option<String>,
    pub beneficiary: Option<String>,
    pub floor_item: Option<bool>,
    pub extra_large_size: Option<i64>,
    pub extra_large_size_checked: Option<bool>,
    pub rebate_percent: Option<String>,
    pub insurance: Option<String>,
    pub other_costs: Option<String>,
    pub rebate_dollar: Option<String>,
}

/// The fields of a sold product.
pub struct FactureItemProduct {
    pub price: Option<i64>,
    pub notes: Option<String>,
    pub quantity: i64,
    pub extra_large_size: Option<i64>,
    pub rebate_percent: Option<i64>,
    pub size: Option<String>,
    pub chest: Option<i64>,
    pub waist: Option<i64>,
    pub hips: Option<i64>,
    pub color: Option<String>,
    pub beneficiary: Option<String>,
    pub floor_item: bool,
}

/// The fields of a rental.
pub struct FactureItemLocation {
    pub price: Option<i64>,
    pub notes: Option<String>,
    pub quantity: i64,
    pub beneficiary: Option<String>,
    pub insurance: Option<i64>,
    pub other_costs: Option<i64>,
}

/// The fields of an alteration.
pub struct FactureItemAlteration {
    pub price: Option<i64>,
    pub notes: Option<String>,
    pub quantity: i64,
    pub rebate_dollar: Option<i64>,
}

/// One of the three kinds of items.
pub enum FactureItemValue<Location, Alteration, Product> {
    FactureItemProduct(Product),
    FactureItemLocation(Location),
    FactureItemAlteration(Alteration),
}

/// An item of one of the three kinds, with its fields.
pub type FactureItemType = FactureItemValue<
    FactureItemLocation,
    FactureItemAlteration,
    FactureItemProduct,
>;

/// An invoice item as shown to users.
pub struct FactureItemView {
    pub id: i64,
    pub facture_id: i64,
    pub product_id: i64,
    pub created_at: String,
    pub updated_at: String,
    pub value: FactureItemType,
}

/// The price of an item, whatever its kind.
pub open spec fn item_price(v: FactureItemType) -> Option<i64> {
    match v {
        FactureItemValue::FactureItemProduct(i) => i.price,
        FactureItemValue::FactureItemLocation(i) => i.price,
        FactureItemValue::FactureItemAlteration(i) => i.price,
    }
}

/// The kind of a blank item for a product: alterations and rentals have products
/// of their own, every other product is sold.
pub open spec fn blank_kind(product_name: Seq<char>) -> int {
    if product_name == "Alteration"@ {
        2
    } else if product_name == "Location"@ {
        1
    } else {
        0
    }
}

/// The item kind stored in a row, as a tag: 0 for a product, 1 for a rental,
/// 2 for an alteration, and -1 when `item_type` is none of them.
pub open spec fn row_kind(item_type: Seq<char>) -> int {
    if item_type == "Alteration"@ {
        2
    } else if item_type == "Location"@ {
        1
    } else if item_type == "Product"@ {
        0
    } else {
        -1
    }
}

/// The tag of an item's kind.
pub open spec fn value_kind(v: FactureItemType) -> int {
    match v {
        FactureItemValue::FactureItemProduct(_) => 0,
        FactureItemValue::FactureItemLocation(_) => 1,
        FactureItemValue::FactureItemAlteration(_) => 2,
    }
}

/// The item of `view` holds the fields of `row` that its kind keeps.
pub open spec fn view_matches_row(view: FactureItemView, row: FactureItemRow) -> bool {
    &&& view.id == row.id
    &&& view.facture_id == row.facture_id
    &&& view.product_id == row.product_id
    &&& view.created_at == row.created_at
    &&& view.updated_at == row.updated_at
    &&& value_kind(view.value) == row_kind(row.item_type@)
    &&& match view.value {
        FactureItemValue::FactureItemProduct(i) => {
            &&& i.price == row.price
            &&& i.notes == row.notes
            &&& i.quantity == row.quantity
            &&& i.extra_large_size == row.extra_large_size
            &&& i.rebate_percent == row.rebate_percent
            &&& i.size == row.size
            &&& i.chest == row.chest
            &&& i.waist == row.waist
            &&& i.hips == row.hips
            &&& i.color == row.color
            &&& i.beneficiary == row.beneficiary
            &&& i.floor_item == row.floor_item
        },
        FactureItemValue::FactureItemLocation(i) => {
            &&& i.price == row.price
            &&& i.notes == row.notes
            &&& i.quantity == row.quantity
            &&& i.beneficiary == row.beneficiary
            &&& i.insurance == row.insurance
            &&& i.other_costs == row.other_costs
        },
        FactureItemValue::FactureItemAlteration(i) => {
            &&& i.price == row.price
            &&& i.notes == row.notes
            &&& i.quantity == row.quantity
            &&& i.rebate_dollar == row.rebate_dollar
        },
    }
}

/// A row whose `item_type` is none of the three kinds.
#[derive(Debug, Clone, Copy, PartialEq, Eq)]
pub struct InvalidItemType;

impl FactureItemView {
    /// An empty item for a product: one unit, no price, no details.
    pub fn blank(product_name: &str) -> (r: FactureItemValue<
        FactureItemLocation,
        FactureItemAlteration,
        FactureItemProduct,
    >)
        ensures
            value_kind(r) == blank_kind(product_name@),
            match r {
                FactureItemValue::FactureItemProduct(i) => i.price is None && i.notes is None
                    && i.quantity == 1 && i.extra_large_size is None && i.rebate_percent is None
                    && i.size is None && i.chest is None && i.waist is None && i.hips is None
                    && i.color is None && i.beneficiary is None && !i.floor_item,
                FactureItemValue::FactureItemLocation(i) => i.price is None && i.notes is None
                    && i.quantity == 1 && i.beneficiary is None && i.insurance is None
                    && i.other_costs is None,
                FactureItemValue::FactureItemAlteration(i) => i.price is None && i.notes is None
                    && i.quantity == 1 && i.rebate_dollar is None,
            },
    {
        if str_equals(product_name, "Alteration") {
            FactureItemValue::FactureItemAlteration(
                FactureItemAlteration { price: None, notes: None, quantity: 1, rebate_dollar: None },
            )
        } else if str_equals(product_name, "Location") {
            FactureItemValue::FactureItemLocation(
                FactureItemLocation {
                    price: None,
                    notes: None,
                    quantity: 1,
                    beneficiary: None,
                    insurance: None,
                    other_costs: None,
                },
            )
        } else {
            FactureItemValue::FactureItemProduct(
                FactureItemProduct {
                    price: None,
                    notes: None,
                    quantity: 1,
                    extra_large_size: None,
                    rebate_percent: None,
                    size: None,
                    chest: None,
                    waist: None,
                    hips: None,
                    color: None,
                    beneficiary: None,
                    floor_item: false,
                },
            )
        }
    }

    /// The price of the item, whatever its kind.
    pub fn price(&self) -> (r: Option<i64>)
        ensures
            r == item_price(self.value),
    {
        match &self.value {
            FactureItemValue::FactureItemProduct(i) => i.price,
            FactureItemValue::FactureItemLocation(i) => i.price,
            FactureItemValue::FactureItemAlteration(i) => i.price,
        }
    }

    /// The item stored in a row, of the kind its `item_type` names; an error
    /// when `item_type` is not "Product", "Location" or "Alteration".
    pub fn try_from_row(value: FactureItemRow) -> (r: Result<FactureItemView, InvalidItemType>)
        ensures
            match r {
                Ok(v) => view_matches_row(v, value),
                Err(_) => row_kind(value.item_type@) == -1,
            },
    {
        if str_equals(value.item_type.as_str(), "Alteration") {
            Ok(
                FactureItemView {
                    id: value.id,
                    facture_id: value.facture_id,
                    product_id: value.product_id,
                    created_at: value.created_at,
                    updated_at: value.updated_at,
                    value: FactureItemValue::FactureItemAlteration(
                        FactureItemAlteration {
                            price: value.price,
                            notes: value.notes,
                            quantity: value.quantity,
                            rebate_dollar: value.rebate_dollar,
                        },
                    ),
                },
            )
        } else if str_equals(value.item_type.as_str(), "Location") {
            Ok(
                FactureItemView {
                    id: value.id,
                    facture_id: value.facture_id,
                    product_id: value.product_id,
                    created_at: value.created_at,
                    updated_at: value.updated_at,
                    value: FactureItemValue::FactureItemLocation(
                        FactureItemLocation {
                            price: value.price,
                            notes: value.notes,
                            quantity: value.quantity,
                            beneficiary: value.beneficiary,
                            insurance: value.insurance,
                            other_costs: value.other_costs,
                        },
                    ),
                },
            )
        } else if str_equals(value.item_type.as_str(), "Product") {
            Ok(
                FactureItemView {
                    id: value.id,
                    facture_id: value.facture_id,
                    product_id: value.product_id,
                    created_at: value.created_at,
                    updated_at: value.updated_at,
                    value: FactureItemValue::FactureItemProduct(
                        FactureItemProduct {
                            price: value.price,
                            notes: value.notes,
                            quantity: value.quantity,
                            extra_large_size: value.extra_large_size,
                            rebate_percent: value.rebate_percent,
                            size: value.size,
                            chest: value.chest,
                            waist: value.waist,
                            hips: value.hips,
                            color: value.color,
                            beneficiary: value.beneficiary,
                            floor_item: value.floor_item,
                        },
                    ),
                },
            )
        } else {
            Err(InvalidItemType)
        }
    }
}

/// The flow that an invoice item follows.
#[derive(Debug)]
pub struct ItemFactureFlowType {
    pub facture_id: i64,
    pub facture_item_id: i64,
    pub flow_type: String,
}

/// The figures of an invoice, in cents.
#[derive(Debug, Clone, Copy, PartialEq, Eq)]
pub struct FactureComputed {
    pub total: i64,
    pub tvq: i64,
    pub tps: i64,
    pub tax_total: i64,
    pub balance: i64,
    pub total_payments: i64,
    pub total_refunds: i64,
    pub total_refundable: i64,
}

/// The figures of one item: the rebate granted, the total, and the
/// measurements as text.
#[derive(Debug, PartialEq)]
pub struct FactureItemComputed {
    pub calculated_rebate: i64,
    pub total: i64,
    pub measurements: String,
}

} // verus!
