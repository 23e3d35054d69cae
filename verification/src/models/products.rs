//! Products for sale, with their prices in cents and their images.
use vstd::prelude::*;
use crate::models::product_types::ProductTypeView;

verus! {

/// Database row of the `products` table.
#[derive(Debug)]
pub struct ProductRow {
    pub id: i64,
    pub name: String,
    pub price: Option<i64>,
    pub liquidation: bool,
    pub visible_on_site: bool,
    pub created_at: String,
    pub updated_at: String,
}

/// A product to insert.
#[derive(Debug)]
pub struct ProductInsert {
    pub name: String,
    pub price: Option<i64>,
    pub liquidation: bool,
    pub visible_on_site: bool,
}

/// Database row of the `product_images` table; `position` is "front" or "back".
#[derive(Debug)]
pub struct ProductImageRow {
    pub id: i64,
    pub product_id: i64,
    pub url: String,
    pub filename: String,
    pub position: String,
    pub created_at: String,
}

/// A product image to insert.
#[derive(Debug)]
pub struct ProductImageInsert {
    pub product_id: i64,
    pub url: String,
    pub filename: String,
    pub position: String,
}

/// A product as shown to users.
#[derive(Debug, PartialEq)]
pub struct ProductView {
    pub id: i64,
    pub name: String,
    pub price: Option<i64>,
    pub liquidation: bool,
    pub visible_on_site: bool,
    pub created_at: String,
    pub updated_at: String,
}

impl From<ProductRow> for ProductView {
    fn from(value: ProductRow) -> (r: Self) {
        ProductView {
            id: value.id,
            name: value.name,
            price: value.price,
            liquidation: value.liquidation,
            visible_on_site: value.visible_on_site,
            created_at: value.created_at,
            updated_at: value.updated_at,
        }
    }
}

impl vstd::std_specs::convert::FromSpecImpl<ProductRow> for ProductView {
    open spec fn obeys_from_spec() -> bool {
        true
    }

    open spec fn from_spec(value: ProductRow) -> ProductView {
        product_view_of(value)
    }
}

/// The product that a database row shows.
pub open spec fn product_view_of(value: ProductRow) -> ProductView {
    ProductView {
        id: value.id,
        name: value.name,
        price: value.price,
        liquidation: value.liquidation,
        visible_on_site: value.visible_on_site,
        created_at: value.created_at,
        updated_at: value.updated_at,
    }
}

/// A product with its types.
#[derive(Debug, PartialEq)]
pub struct ProductInfo {
    pub product: ProductView,
    pub types: Vec<ProductTypeView>,
}

/// Some product type is the wedding dress.
pub open spec fn has_wedding_type(types: Seq<ProductTypeView>) -> bool {
    exists|j: int| 0 <= j < types.len() && #[trigger] types[j].name@ == "Robe de mariée"@
}

impl ProductInfo {
    /// The price of a product on liquidation and the percent of it that it
    /// sells for: 70 for a wedding dress, 50 for anything else. `None` for a
    /// product not on liquidation or without a price.
    pub fn liquidation_rate(&self) -> (r: Option<(i64, u8)>)
        ensures
            match r {
                Some((p, rate)) => self.product.liquidation && self.product.price == Some(p) && rate
                    == (if has_wedding_type(self.types@) {
                    70u8
                } else {
                    50u8
                }),
                None => !self.product.liquidation || self.product.price is None,
            },
    {
        if !self.product.liquidation {
            return None;
        }
        match self.product.price {
            None => None,
            Some(p) => {
                let mut wedding = false;
                let mut j: usize = 0;
                while j < self.types.len()
                    invariant
                        j <= self.types@.len(),
                        wedding == exists|k: int|
                            0 <= k < j && #[trigger] self.types@[k].name@ == "Robe de mariée"@,
                    decreases self.types.len() - j,
                {
                    if self.types[j].is_wedding() {
                        wedding = true;
                    }
                    j = j + 1;
                }
                Some((p, if wedding { 70u8 } else { 50u8 }))
            },
        }
    }
}

/// A product as submitted by the product form; the price is text in dollars.
#[derive(Debug)]
pub struct ProductForm {
    pub name: String,
    pub price: Option<String>,
    pub liquidation: Option<bool>,
    pub visible_on_site: Option<bool>,
}

} // verus!
