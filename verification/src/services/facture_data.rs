//! The items of one invoice, each with its product and its state, as the
//! invoice page lists them.
use vstd::prelude::*;
use std::collections::HashMap;
use crate::models::FactureItemEntry;
use crate::models::facture_items::FactureItemView;
use crate::models::products::{product_view_of, ProductRow, ProductView};
use crate::models::statuts::StateViewModel;
use crate::services::statuts::ItemStates;

verus! {

broadcast use vstd::std_specs::hash::group_hash_axioms;

/// Why an item of the invoice could not be listed.
#[derive(Debug, Clone, Copy, PartialEq, Eq)]
pub enum EntryError {
    /// The item's product is not among the loaded products, or an earlier item
    /// took it.
    ProductNotFound { facture_item_id: i64, product_id: i64 },
    /// The item has no state, or an earlier item with its id took it.
    StateNotFound { facture_item_id: i64 },
}

/// The products by id; a later product replaces an earlier one with its id.
pub open spec fn products_by_id(products: Seq<ProductRow>) -> Map<i64, ProductRow>
    decreases products.len(),
{
    if products.len() == 0 {
        Map::empty()
    } else {
        products_by_id(products.drop_last()).insert(products.last().id, products.last())
    }
}

/// Taking, for each item in order, its product and its state out of the
/// products and states left: the products and states taken, and those left; or
/// the error of the first item whose product or state is missing (the product
/// is looked at first).
pub open spec fn take_entries(
    items: Seq<FactureItemView>,
    products: Map<i64, ProductRow>,
    states: Map<(i64, i64), StateViewModel>,
    facture_id: i64,
) -> Result<
    (Seq<(ProductRow, StateViewModel)>, Map<i64, ProductRow>, Map<(i64, i64), StateViewModel>),
    EntryError,
>
    decreases items.len(),
{
    if items.len() == 0 {
        Ok((Seq::empty(), products, states))
    } else {
        match take_entries(items.drop_last(), products, states, facture_id) {
            Err(e) => Err(e),
            Ok(acc) => {
                let it = items.last();
                if !acc.1.contains_key(it.product_id) {
                    Err(EntryError::ProductNotFound { facture_item_id: it.id, product_id: it.product_id })
                } else if !acc.2.contains_key((facture_id, it.id)) {
                    Err(EntryError::StateNotFound { facture_item_id: it.id })
                } else {
                    Ok(
                        (
                            acc.0.push((acc.1[it.product_id], acc.2[(facture_id, it.id)])),
                            acc.1.remove(it.product_id),
                            acc.2.remove((facture_id, it.id)),
                        ),
                    )
                }
            },
        }
    }
}

proof fn lemma_take_entries_error_persists(
    items: Seq<FactureItemView>,
    products: Map<i64, ProductRow>,
    states: Map<(i64, i64), StateViewModel>,
    facture_id: i64,
    n: int,
)
    requires
        0 <= n <= items.len(),
        take_entries(items.take(n), products, states, facture_id) is Err,
    ensures
        take_entries(items, products, states, facture_id) == take_entries(
            items.take(n),
            products,
            states,
            facture_id,
        ),
    decreases items.len() - n,
{
    if n == items.len() {
        assert(items.take(n) =~= items);
    } else {
        assert(items.take(n + 1).drop_last() =~= items.take(n));
        lemma_take_entries_error_persists(items, products, states, facture_id, n + 1);
    }
}

/// The products keyed by id, a later product replacing an earlier one.
fn index_products(products: Vec<ProductRow>) -> (r: HashMap<i64, ProductRow>)
    ensures
        r@ == products_by_id(products@),
{
    let ghost all = products@;
    let len0 = products.len();
    let mut rev = crate::services::factures::reversed(products);
    let mut r: HashMap<i64, ProductRow> = HashMap::new();
    let mut i: usize = 0;
    assert(all.take(0) =~= Seq::<ProductRow>::empty());
    while rev.len() > 0
        invariant
            i + rev@.len() == all.len(),
            all.len() == len0,
            forall|j: int| 0 <= j < rev@.len() ==> rev@[j] == all[all.len() - 1 - j],
            r@ == products_by_id(all.take(i as int)),
        decreases rev.len(),
    {
        let p = rev.pop().unwrap();
        assert(p == all[i as int]);
        assert(all.take(i + 1).drop_last() =~= all.take(i as int));
        assert(all.take(i + 1).last() == p);
        r.insert(p.id, p);
        i = i + 1;
    }
    assert(all.take(all.len() as int) =~= all);
    r
}

/// The items of invoice `facture_id` in order, each with its product (the
/// products keyed by id, a later product replacing an earlier one) and its
/// state; each product and each state serves one item only. An error names the
/// first item whose product or state is missing.
#[verifier::loop_isolation(false)]
pub fn facture_item_entries(
    facture_id: i64,
    items: Vec<FactureItemView>,
    products: Vec<ProductRow>,
    states: ItemStates,
) -> (r: Result<Vec<FactureItemEntry<FactureItemView>>, EntryError>)
    ensures
        match take_entries(items@, products_by_id(products@), states.view(), facture_id) {
            Err(e) => r == Err::<Vec<FactureItemEntry<FactureItemView>>, EntryError>(e),
            Ok(acc) => (r matches Ok(v) && v@.len() == items@.len() && forall|i: int|
                0 <= i < v@.len() ==> #[trigger] v@[i].item == items@[i] && v@[i].product
                    == product_view_of(acc.0[i].0) && v@[i].state@ == acc.0[i].1),
        },
{
    let ghost its = items@;
    let ghost pmap0 = products_by_id(products@);
    let ghost smap0 = states.view();
    let mut by_id = index_products(products);
    let mut states = states;
    let mut rev = crate::services::factures::reversed(items);
    let mut out: Vec<FactureItemEntry<FactureItemView>> = Vec::new();
    assert(its.take(0) =~= Seq::<FactureItemView>::empty());
    while rev.len() > 0
        invariant
            out@.len() + rev@.len() == its.len(),
            forall|i: int| 0 <= i < rev@.len() ==> rev@[i] == its[its.len() - 1 - i],
            take_entries(its.take(out@.len() as int), pmap0, smap0, facture_id) matches Ok(acc)
                && acc.1 == by_id@ && acc.2 == states.view() && acc.0.len() == out@.len()
                && forall|i: int|
                0 <= i < out@.len() ==> #[trigger] out@[i].item == its[i] && out@[i].product
                    == product_view_of(acc.0[i].0) && out@[i].state@ == acc.0[i].1,
        decreases rev.len(),
    {
        let ghost n = out@.len() as int;
        let item = rev.pop().unwrap();
        assert(item == its[n]);
        assert(its.take(n + 1).drop_last() =~= its.take(n));
        assert(its.take(n + 1).last() == item);
        let product = by_id.remove(&item.product_id);
        let (rest, state) = states.remove(facture_id, item.id);
        states = rest;
        match product {
            None => {
                proof {
                    lemma_take_entries_error_persists(its, pmap0, smap0, facture_id, n + 1);
                }
                return Err(
                    EntryError::ProductNotFound {
                        facture_item_id: item.id,
                        product_id: item.product_id,
                    },
                );
            },
            Some(p) => match state {
                None => {
                    proof {
                        lemma_take_entries_error_persists(its, pmap0, smap0, facture_id, n + 1);
                    }
                    return Err(EntryError::StateNotFound { facture_item_id: item.id });
                },
                Some(s) => {
                    let product = ProductView::from(p);
                    out.push(FactureItemEntry { item, product, state: s });
                },
            },
        }
    }
    assert(its.take(its.len() as int) =~= its);
    Ok(out)
}

} // verus!
