//! What the invoice pages show of an invoice.
use vstd::prelude::*;
use vstd::string::StringExecFns;
use crate::models::config::ExtraLargeAmounts;
use crate::models::product_types::ProductTypeView;
use crate::text::{has_prefix, str_equals};

verus! {

/// The label shown for an invoice type: rentals and alterations by name, and
/// products for anything else, a missing type included.
pub open spec fn facture_type_label(t: Option<Seq<char>>) -> Seq<char> {
    match t {
        Some(s) => if s == "Location"@ {
            "Location"@
        } else if s == "Alteration"@ {
            "Altération"@
        } else {
            "Produits"@
        },
        None => "Produits"@,
    }
}

/// The label shown for an invoice type.
pub fn facture_type(t: &Option<String>) -> (r: String)
    ensures
        r@ == facture_type_label(t.deep_view()),
{
    match t {
        Some(s) => {
            if str_equals(s.as_str(), "Location") {
                String::from_str("Location")
            } else if str_equals(s.as_str(), "Alteration") {
                String::from_str("Altération")
            } else {
                String::from_str("Produits")
            }
        },
        None => String::from_str("Produits"),
    }
}

/// The large-size charge the item form proposes for a product type: the
/// wedding-dress charge for a dress ("Robe de ..."), the other charge for
/// anything else.
pub fn extra_large_amount(p: &ProductTypeView, ex: &ExtraLargeAmounts) -> (r: Option<i64>)
    ensures
        r == Some(
            if has_prefix(p.name@, "Robe de "@) {
                ex.wedding
            } else {
                ex.others
            },
        ),
{
    if p.is_dress() {
        Some(ex.wedding)
    } else {
        Some(ex.others)
    }
}

/// The shapewear sizes offered, in order.
pub open spec fn gaine_sizes() -> Seq<Seq<char>> {
    seq!["S"@, "M"@, "L"@, "XL"@, "2XL"@, "3XL"@, "4XL"@]
}

/// The shapewear sizes of the item form, each with whether it is selected: the
/// item's size when it has one, else the first size.
pub fn gaine_size_choices(size: &Option<String>) -> (r: Vec<(bool, &'static str)>)
    ensures
        r@.len() == gaine_sizes().len(),
        forall|i: int|
            0 <= i < r@.len() ==> (#[trigger] r@[i]).1@ == gaine_sizes()[i] && r@[i].0 == match size {
                Some(s) => s@ == gaine_sizes()[i],
                None => i == 0,
            },
{
    let names: [&'static str; 7] = ["S", "M", "L", "XL", "2XL", "3XL", "4XL"];
    let ghost sizes = gaine_sizes();
    assert(sizes[0] == "S"@ && sizes[1] == "M"@ && sizes[2] == "L"@ && sizes[3] == "XL"@ && sizes[4]
        == "2XL"@ && sizes[5] == "3XL"@ && sizes[6] == "4XL"@);
    let mut r: Vec<(bool, &'static str)> = Vec::new();
    let mut i: usize = 0;
    while i < 7
        invariant
            i <= 7,
            sizes == gaine_sizes(),
            names@.len() == 7,
            forall|j: int| 0 <= j < 7 ==> (#[trigger] names@[j])@ == sizes[j],
            r@.len() == i,
            forall|j: int|
                0 <= j < i ==> (#[trigger] r@[j]).1@ == sizes[j] && r@[j].0 == match size {
                    Some(s) => s@ == sizes[j],
                    None => j == 0,
                },
        decreases 7 - i,
    {
        let name = names[i];
        let selected = match size {
            Some(s) => str_equals(s.as_str(), name),
            None => i == 0,
        };
        r.push((selected, name));
        i = i + 1;
    }
    r
}

} // verus!
