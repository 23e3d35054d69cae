//! Reading the invoice item form: the integers typed in its text fields, the
//! defaults of absent fields, and the values an item is recorded with.
use vstd::prelude::*;
use vstd::string::StringExecFns;
use crate::models::facture_items::{FactureItemForm, FactureItemInsert};
use crate::models::factures::id_bits;
use crate::models::statuts::{State, StateView, StateViewModel, StatutInsert};
use crate::text::{parse_i64, parsed_i64, str_equals};

verus! {

/// The amounts of the form, each already read by the money reader: `None` for
/// an absent field, `Err` for a text that is not an amount.
pub struct FormAmounts {
    pub price: Result<Option<i64>, ()>,
    pub insurance: Result<Option<i64>, ()>,
    pub other_costs: Result<Option<i64>, ()>,
    pub rebate_dollar: Result<Option<i64>, ()>,
}

/// A field of the item form that could not be read.
#[derive(Debug, Clone, Copy, PartialEq, Eq)]
pub enum ItemFormError {
    InvalidQuantity,
    InvalidPrice,
    InvalidInsurance,
    InvalidOtherCosts,
    InvalidRebateDollar,
    InvalidRebatePercent,
    InvalidChest,
    InvalidWaist,
    InvalidHips,
}

/// An optional text as a character sequence.
pub open spec fn opt_chars(o: Option<String>) -> Option<Seq<char>> {
    match o {
        Some(s) => Some(s@),
        None => None,
    }
}

/// The integer of an optional text field: none when absent (or, when
/// `skip_empty`, empty); an error when the text is not an integer.
pub open spec fn read_int(o: Option<Seq<char>>, skip_empty: bool) -> Result<Option<int>, ()> {
    match o {
        None => Ok(None),
        Some(s) => if skip_empty && s.len() == 0 {
            Ok(None)
        } else {
            match parsed_i64(s) {
                Some(v) => Ok(Some(v)),
                None => Err(()),
            }
        },
    }
}

/// The first field of the form that cannot be read, in the order the form is
/// read: quantity, price, insurance, other costs, dollar rebate, percent
/// rebate, chest, waist, hips.
pub open spec fn item_form_error(form: FactureItemForm, amounts: FormAmounts) -> Option<
    ItemFormError,
> {
    if read_int(opt_chars(form.quantity), false) is Err {
        Some(ItemFormError::InvalidQuantity)
    } else if amounts.price is Err {
        Some(ItemFormError::InvalidPrice)
    } else if amounts.insurance is Err {
        Some(ItemFormError::InvalidInsurance)
    } else if amounts.other_costs is Err {
        Some(ItemFormError::InvalidOtherCosts)
    } else if amounts.rebate_dollar is Err {
        Some(ItemFormError::InvalidRebateDollar)
    } else if read_int(opt_chars(form.rebate_percent), true) is Err {
        Some(ItemFormError::InvalidRebatePercent)
    } else if read_int(opt_chars(form.chest), true) is Err {
        Some(ItemFormError::InvalidChest)
    } else if read_int(opt_chars(form.waist), true) is Err {
        Some(ItemFormError::InvalidWaist)
    } else if read_int(opt_chars(form.hips), true) is Err {
        Some(ItemFormError::InvalidHips)
    } else {
        None
    }
}

/// The value read from a field, as an optional `i64`.
pub open spec fn read_value(o: Option<Seq<char>>, skip_empty: bool) -> Option<i64> {
    match read_int(o, skip_empty) {
        Ok(Some(v)) => Some(v as i64),
        _ => None,
    }
}

/// The large-size charge of the form: kept only when its box is checked.
pub open spec fn form_extra_large_size(form: FactureItemForm) -> Option<i64> {
    if form.extra_large_size_checked == Some(true) {
        form.extra_large_size
    } else {
        None
    }
}

/// The values an item takes from its form, once every field reads.
pub struct FactureItemValues {
    pub product_id: i64,
    pub quantity: i64,
    pub price: Option<i64>,
    pub notes: Option<String>,
    pub size: Option<String>,
    pub chest: Option<i64>,
    pub waist: Option<i64>,
    pub hips: Option<i64>,
    pub color: Option<String>,
    pub beneficiary: Option<String>,
    pub floor_item: bool,
    pub extra_large_size: Option<i64>,
    pub rebate_percent: Option<i64>,
    pub insurance: Option<i64>,
    pub other_costs: Option<i64>,
    pub rebate_dollar: Option<i64>,
}

/// The values read from a form that reads: the quantity defaults to one and
/// the floor-item flag to false; the large-size charge counts only when
/// checked.
pub open spec fn form_values_match(v: FactureItemValues, form: FactureItemForm, amounts: FormAmounts) -> bool {
    &&& v.product_id == form.product_id
    &&& v.quantity == (match read_value(opt_chars(form.quantity), false) {
        Some(q) => q,
        None => 1,
    })
    &&& v.price == amounts.price->Ok_0
    &&& v.notes == form.notes
    &&& v.size == form.size
    &&& v.chest == read_value(opt_chars(form.chest), true)
    &&& v.waist == read_value(opt_chars(form.waist), true)
    &&& v.hips == read_value(opt_chars(form.hips), true)
    &&& v.color == form.color
    &&& v.beneficiary == form.beneficiary
    &&& v.floor_item == (form.floor_item == Some(true))
    &&& v.extra_large_size == form_extra_large_size(form)
    &&& v.rebate_percent == read_value(opt_chars(form.rebate_percent), true)
    &&& v.insurance == amounts.insurance->Ok_0
    &&& v.other_costs == amounts.other_costs->Ok_0
    &&& v.rebate_dollar == amounts.rebate_dollar->Ok_0
}

fn read_int_field(o: &Option<String>, skip_empty: bool) -> (r: Result<Option<i64>, ()>)
    ensures
        match read_int(opt_chars(*o), skip_empty) {
            Ok(v) => r is Ok && r->Ok_0 == read_value(opt_chars(*o), skip_empty) && (v matches Some(
                x,
            ) ==> i64::MIN <= x <= i64::MAX),
            Err(_) => r is Err,
        },
{
    match o {
        None => Ok(None),
        Some(s) => {
            if skip_empty && s.unicode_len() == 0 {
                Ok(None)
            } else {
                match parse_i64(s.as_str()) {
                    Some(v) => Ok(Some(v)),
                    None => Err(()),
                }
            }
        },
    }
}

/// The values of an item from its form and its amounts, or the first field
/// that cannot be read.
pub fn facture_item_values(form: FactureItemForm, amounts: FormAmounts) -> (r: Result<
    FactureItemValues,
    ItemFormError,
>)
    ensures
        match item_form_error(form, amounts) {
            Some(e) => r == Err::<FactureItemValues, ItemFormError>(e),
            None => r matches Ok(v) && form_values_match(v, form, amounts),
        },
        r matches Ok(v) ==> {
            &&& v.price == amounts.price->Ok_0
            &&& v.insurance == amounts.insurance->Ok_0
            &&& v.other_costs == amounts.other_costs->Ok_0
            &&& v.rebate_dollar == amounts.rebate_dollar->Ok_0
            &&& v.product_id == form.product_id
            &&& v.notes == form.notes
            &&& v.beneficiary == form.beneficiary
            &&& v.size == form.size
            &&& v.color == form.color
            &&& v.chest == read_value(opt_chars(form.chest), true)
            &&& v.waist == read_value(opt_chars(form.waist), true)
            &&& v.hips == read_value(opt_chars(form.hips), true)
            &&& v.rebate_percent == read_value(opt_chars(form.rebate_percent), true)
        },
{
    let quantity = match read_int_field(&form.quantity, false) {
        Ok(q) => q,
        Err(()) => {
            return Err(ItemFormError::InvalidQuantity);
        },
    };
    let price = match amounts.price {
        Ok(p) => p,
        Err(()) => {
            return Err(ItemFormError::InvalidPrice);
        },
    };
    let insurance = match amounts.insurance {
        Ok(p) => p,
        Err(()) => {
            return Err(ItemFormError::InvalidInsurance);
        },
    };
    let other_costs = match amounts.other_costs {
        Ok(p) => p,
        Err(()) => {
            return Err(ItemFormError::InvalidOtherCosts);
        },
    };
    let rebate_dollar = match amounts.rebate_dollar {
        Ok(p) => p,
        Err(()) => {
            return Err(ItemFormError::InvalidRebateDollar);
        },
    };
    let rebate_percent = match read_int_field(&form.rebate_percent, true) {
        Ok(p) => p,
        Err(()) => {
            return Err(ItemFormError::InvalidRebatePercent);
        },
    };
    let chest = match read_int_field(&form.chest, true) {
        Ok(p) => p,
        Err(()) => {
            return Err(ItemFormError::InvalidChest);
        },
    };
    let waist = match read_int_field(&form.waist, true) {
        Ok(p) => p,
        Err(()) => {
            return Err(ItemFormError::InvalidWaist);
        },
    };
    let hips = match read_int_field(&form.hips, true) {
        Ok(p) => p,
        Err(()) => {
            return Err(ItemFormError::InvalidHips);
        },
    };
    let checked = match form.extra_large_size_checked {
        Some(c) => c,
        None => false,
    };
    let extra_large_size = if checked {
        form.extra_large_size
    } else {
        None
    };
    let floor_item = match form.floor_item {
        Some(f) => f,
        None => false,
    };
    Ok(
        FactureItemValues {
            product_id: form.product_id,
            quantity: match quantity {
                Some(q) => q,
                None => 1,
            },
            price,
            notes: form.notes,
            size: form.size,
            chest,
            waist,
            hips,
            color: form.color,
            beneficiary: form.beneficiary,
            floor_item,
            extra_large_size,
            rebate_percent,
            insurance,
            other_costs,
            rebate_dollar,
        },
    )
}

/// The item type of a new item: the type of its invoice, "Product" when the
/// invoice has none.
pub open spec fn new_item_type(facture_type: Option<Seq<char>>) -> Seq<char> {
    match facture_type {
        Some(t) => t,
        None => "Product"@,
    }
}

/// The row of a new item of invoice `facture_id` from its form, or the first
/// field that cannot be read. A floor item is recorded with its details.
pub fn facture_item_insert_from_form(
    facture_id: i64,
    facture_type: Option<String>,
    form: FactureItemForm,
    amounts: FormAmounts,
) -> (r: Result<FactureItemInsert, ItemFormError>)
    ensures
        match item_form_error(form, amounts) {
            Some(e) => r == Err::<FactureItemInsert, ItemFormError>(e),
            None => r matches Ok(ins) && exists|v: FactureItemValues|
                #![trigger form_values_match(v, form, amounts)]
                form_values_match(v, form, amounts) && ins.facture_id == facture_id
                    && ins.product_id == v.product_id && ins.item_type@ == new_item_type(
                    opt_chars(facture_type),
                ) && ins.price == v.price && ins.notes == v.notes && ins.quantity == v.quantity
                    && ins.extra_large_size == v.extra_large_size && ins.rebate_percent
                    == v.rebate_percent && ins.size == v.size && ins.chest == v.chest
                    && ins.waist == v.waist && ins.hips == v.hips && ins.color == v.color
                    && ins.beneficiary == v.beneficiary && ins.floor_item == v.floor_item
                    && ins.insurance == v.insurance && ins.other_costs == v.other_costs
                    && ins.rebate_dollar == v.rebate_dollar,
        },
        r matches Ok(ins) ==> {
            &&& ins.facture_id == facture_id
            &&& ins.price == amounts.price->Ok_0
            &&& ins.insurance == amounts.insurance->Ok_0
            &&& ins.other_costs == amounts.other_costs->Ok_0
            &&& ins.rebate_dollar == amounts.rebate_dollar->Ok_0
            &&& ins.product_id == form.product_id
            &&& ins.notes == form.notes
            &&& ins.beneficiary == form.beneficiary
            &&& ins.size == form.size
            &&& ins.color == form.color
            &&& ins.chest == read_value(opt_chars(form.chest), true)
            &&& ins.waist == read_value(opt_chars(form.waist), true)
            &&& ins.hips == read_value(opt_chars(form.hips), true)
            &&& ins.rebate_percent == read_value(opt_chars(form.rebate_percent), true)
        },
{
    let v = match facture_item_values(form, amounts) {
        Ok(v) => v,
        Err(e) => {
            return Err(e);
        },
    };
    let item_type = match facture_type {
        Some(t) => t,
        None => String::from_str("Product"),
    };
    Ok(
        FactureItemInsert {
            facture_id,
            product_id: v.product_id,
            item_type,
            price: v.price,
            notes: v.notes,
            quantity: v.quantity,
            extra_large_size: v.extra_large_size,
            rebate_percent: v.rebate_percent,
            size: v.size,
            chest: v.chest,
            waist: v.waist,
            hips: v.hips,
            color: v.color,
            beneficiary: v.beneficiary,
            floor_item: v.floor_item,
            insurance: v.insurance,
            other_costs: v.other_costs,
            rebate_dollar: v.rebate_dollar,
        },
    )
}

/// The values an item is updated with from its form, or the first field that
/// cannot be read. A floor item loses its size, measurements and color.
pub fn facture_item_update_from_form(form: FactureItemForm, amounts: FormAmounts) -> (r: Result<
    FactureItemValues,
    ItemFormError,
>)
    ensures
        match item_form_error(form, amounts) {
            Some(e) => r == Err::<FactureItemValues, ItemFormError>(e),
            None => r matches Ok(u) && exists|v: FactureItemValues|
                #![trigger form_values_match(v, form, amounts)]
                form_values_match(v, form, amounts) && u.product_id == v.product_id && u.quantity
                    == v.quantity && u.price == v.price && u.notes == v.notes && u.beneficiary
                    == v.beneficiary && u.floor_item == v.floor_item && u.extra_large_size
                    == v.extra_large_size && u.rebate_percent == v.rebate_percent && u.insurance
                    == v.insurance && u.other_costs == v.other_costs && u.rebate_dollar
                    == v.rebate_dollar && (if v.floor_item {
                    u.size is None && u.chest is None && u.waist is None && u.hips is None
                        && u.color is None
                } else {
                    u.size == v.size && u.chest == v.chest && u.waist == v.waist && u.hips
                        == v.hips && u.color == v.color
                }),
        },
        r matches Ok(u) ==> {
            &&& u.price == amounts.price->Ok_0
            &&& u.insurance == amounts.insurance->Ok_0
            &&& u.other_costs == amounts.other_costs->Ok_0
            &&& u.rebate_dollar == amounts.rebate_dollar->Ok_0
            &&& u.product_id == form.product_id
            &&& u.notes == form.notes
            &&& u.beneficiary == form.beneficiary
            &&& u.rebate_percent == read_value(opt_chars(form.rebate_percent), true)
            &&& form.floor_item != Some(true) ==> {
                &&& u.size == form.size
                &&& u.color == form.color
                &&& u.chest == read_value(opt_chars(form.chest), true)
                &&& u.waist == read_value(opt_chars(form.waist), true)
                &&& u.hips == read_value(opt_chars(form.hips), true)
            }
        },
{
    let v = match facture_item_values(form, amounts) {
        Ok(v) => v,
        Err(e) => {
            return Err(e);
        },
    };
    if v.floor_item {
        Ok(
            FactureItemValues {
                product_id: v.product_id,
                quantity: v.quantity,
                price: v.price,
                notes: v.notes,
                size: None,
                chest: None,
                waist: None,
                hips: None,
                color: None,
                beneficiary: v.beneficiary,
                floor_item: true,
                extra_large_size: v.extra_large_size,
                rebate_percent: v.rebate_percent,
                insurance: v.insurance,
                other_costs: v.other_costs,
                rebate_dollar: v.rebate_dollar,
            },
        )
    } else {
        Ok(v)
    }
}

/// The state of an item about to be added to an invoice of type
/// `facture_type`: an alteration waits to be altered, in the alteration flow;
/// anything else is to be ordered, in the flow of dresses to order.
pub open spec fn blank_item_state_model(facture_type: Option<Seq<char>>) -> StateViewModel {
    if facture_type == Some("Alteration"@) {
        StateViewModel { current: State::ToBeAltered, previous: Seq::empty(), flow: "AlterationFlow"@ }
    } else {
        StateViewModel { current: State::ToOrder, previous: Seq::empty(), flow: "DressToOrderFlow"@ }
    }
}

/// The state shown for an item about to be added to an invoice.
pub fn blank_item_state(facture_type: &Option<String>) -> (r: StateView)
    ensures
        r@ == blank_item_state_model(opt_chars(*facture_type)),
{
    let alteration = match facture_type {
        Some(t) => str_equals(t.as_str(), "Alteration"),
        None => false,
    };
    let r = if alteration {
        StateView {
            current_state: State::ToBeAltered,
            previous_states: Vec::new(),
            item_flow: String::from_str("AlterationFlow"),
        }
    } else {
        StateView {
            current_state: State::ToOrder,
            previous_states: Vec::new(),
            item_flow: String::from_str("DressToOrderFlow"),
        }
    };
    assert(r@.previous =~= Seq::<crate::models::statuts::StateModel>::empty());
    r
}

/// What a user picks from to add an item to an invoice.
#[derive(Debug, Clone, Copy, PartialEq, Eq)]
pub enum ProductsToAdd {
    /// The one product with this name (alterations and rentals).
    Named(&'static str),
    /// The catalogue of products with their types.
    Catalogue,
}

/// An invoice type that is none of the three kinds.
#[derive(Debug, Clone, Copy, PartialEq, Eq)]
pub struct UnknownFactureType;

/// What an invoice of type `facture_type` (a product invoice when absent)
/// adds items from.
pub open spec fn products_to_add_spec(facture_type: Option<Seq<char>>) -> Result<
    Option<Seq<char>>,
    UnknownFactureType,
> {
    let t = match facture_type {
        Some(t) => t,
        None => "Product"@,
    };
    if t == "Alteration"@ {
        Ok(Some("Altération"@))
    } else if t == "Location"@ {
        Ok(Some("Location"@))
    } else if t == "Product"@ {
        Ok(None)
    } else {
        Err(UnknownFactureType)
    }
}

/// What an invoice adds items from: alterations and rentals have a single
/// product, found by name; product invoices pick from the catalogue.
pub fn products_to_add(facture_type: &Option<String>) -> (r: Result<ProductsToAdd, UnknownFactureType>)
    ensures
        match products_to_add_spec(opt_chars(*facture_type)) {
            Ok(Some(name)) => r matches Ok(ProductsToAdd::Named(n)) && n@ == name,
            Ok(None) => r == Ok::<ProductsToAdd, UnknownFactureType>(ProductsToAdd::Catalogue),
            Err(e) => r == Err::<ProductsToAdd, UnknownFactureType>(e),
        },
{
    let t: &str = match facture_type {
        Some(t) => t.as_str(),
        None => "Product",
    };
    if str_equals(t, "Alteration") {
        Ok(ProductsToAdd::Named("Altération"))
    } else if str_equals(t, "Location") {
        Ok(ProductsToAdd::Named("Location"))
    } else if str_equals(t, "Product") {
        Ok(ProductsToAdd::Catalogue)
    } else {
        Err(UnknownFactureType)
    }
}

/// The first status of a new item of invoice `facture_id`: a floor item leaves
/// the shop with its sale, so it is recorded as out on `today`, with no
/// seamstress; any other item starts with no status. The ids are stored read as
/// unsigned.
pub fn initial_statut(facture_id: i64, facture_item_id: i64, floor_item: bool, today: String) -> (r:
    Option<StatutInsert>)
    ensures
        r is Some <==> floor_item,
        r matches Some(s) ==> s.facture_id == id_bits(facture_id) && s.facture_item_id == id_bits(
            facture_item_id,
        ) && s.statut_type@ == "RecordingOutDate"@ && s.date@ == today@ && s.seamstress is None,
{
    if floor_item {
        Some(
            StatutInsert {
                facture_id: facture_id as u64,
                facture_item_id: facture_item_id as u64,
                statut_type: String::from_str("RecordingOutDate"),
                date: today,
                seamstress: None,
            },
        )
    } else {
        None
    }
}

} // verus!
