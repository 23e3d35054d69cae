//! Product types (wedding dress, ball gown, shapewear, ...).
use vstd::prelude::*;
use crate::text::{has_prefix, starts_with, str_equals};

verus! {

/// Database row of the `product_types` table.
#[derive(Debug)]
pub struct ProductTypeRow {
    pub name: String,
}

/// A product type as shown to users.
#[derive(Debug, PartialEq)]
pub struct ProductTypeView {
    pub name: String,
}

impl From<ProductTypeRow> for ProductTypeView {
    fn from(value: ProductTypeRow) -> (r: Self) {
        ProductTypeView { name: value.name }
    }
}

impl vstd::std_specs::convert::FromSpecImpl<ProductTypeRow> for ProductTypeView {
    open spec fn obeys_from_spec() -> bool {
        true
    }

    open spec fn from_spec(value: ProductTypeRow) -> ProductTypeView {
        ProductTypeView { name: value.name }
    }
}

impl ProductTypeView {
    /// Every kind of dress is named "Robe de ...".
    pub fn is_dress(&self) -> (r: bool)
        ensures
            r == has_prefix(self.name@, "Robe de "@),
    {
        starts_with(self.name.as_str(), "Robe de ")
    }

    /// A wedding dress.
    pub fn is_wedding(&self) -> (r: bool)
        ensures
            r == (self.name@ == "Robe de mariée"@),
    {
        str_equals(self.name.as_str(), "Robe de mariée")
    }

    /// A dress for the mother of the bride.
    pub fn is_mom(&self) -> (r: bool)
        ensures
            r == (self.name@ == "Robe de mère de la mariée"@),
    {
        str_equals(self.name.as_str(), "Robe de mère de la mariée")
    }

    /// A ball gown.
    pub fn is_bal(&self) -> (r: bool)
        ensures
            r == (self.name@ == "Robe de bal"@),
    {
        str_equals(self.name.as_str(), "Robe de bal")
    }

    /// A flower girl dress.
    pub fn is_bouq(&self) -> (r: bool)
        ensures
            r == (self.name@ == "Robe de bouquetière"@),
    {
        str_equals(self.name.as_str(), "Robe de bouquetière")
    }

    /// Shapewear.
    pub fn is_gaine(&self) -> (r: bool)
        ensures
            r == (self.name@ == "Gaine"@),
    {
        str_equals(self.name.as_str(), "Gaine")
    }
}

} // verus!
