//! Invoice computations: products with their types, item and invoice figures,
//! grouping item states by invoice, and matching printed items to products.
use vstd::prelude::*;
use crate::models::factures::FactureView;
use crate::models::FactureItemInfo;
use crate::models::payments::PaymentView;
use crate::models::refunds::RefundView;
use crate::models::facture_items::{
    FactureComputed, FactureItemComputed, FactureItemProduct, FactureItemType, FactureItemValue, FactureItemView,
};
use crate::models::product_types::ProductTypeView;
use crate::models::products::{ProductInfo, ProductView};
use crate::text::{push_char, push_signed_decimal, signed_decimal};
use vstd::string::StringExecFns;

verus! {

/// The next type of the list from position `j`, and the position after it.
pub open spec fn next_type(ts: Seq<(i64, String)>, j: int) -> (Option<(i64, String)>, int) {
    if 0 <= j < ts.len() {
        (Some(ts[j]), j + 1)
    } else {
        (None, j)
    }
}

/// Walking the types (ordered by product) for the product `pid`: from the
/// type in hand `cur` and the position `j` of the next one, the type names that
/// belong to `pid`, the type left in hand, and the position reached. A type of
/// a smaller product id is skipped; a type of a larger one stops the walk and
/// stays in hand.
pub open spec fn take_types(pid: i64, cur: Option<(i64, String)>, j: int, ts: Seq<(i64, String)>) -> (
    Seq<String>,
    Option<(i64, String)>,
    int,
)
    decreases (if j <= ts.len() { ts.len() - j } else { 0 }) * 2 + (if cur is Some {
        1int
    } else {
        0int
    }),
{
    if j > ts.len() || j < 0 {
        (Seq::empty(), cur, j)
    } else {
        match cur {
            Some(c) => {
                if c.0 == pid {
                    let n = next_type(ts, j);
                    let rest = take_types(pid, n.0, n.1, ts);
                    (seq![c.1] + rest.0, rest.1, rest.2)
                } else if c.0 < pid {
                    take_types(pid, None, j, ts)
                } else {
                    (Seq::empty(), cur, j)
                }
            },
            None => {
                if j < ts.len() {
                    take_types(pid, Some(ts[j]), j + 1, ts)
                } else {
                    (Seq::empty(), None, j)
                }
            },
        }
    }
}

/// The type names given to each of `ps`, in order, with the type left in hand
/// and the position reached in `ts`.
pub open spec fn assign_types(ps: Seq<ProductView>, ts: Seq<(i64, String)>) -> (
    Seq<Seq<String>>,
    Option<(i64, String)>,
    int,
)
    decreases ps.len(),
{
    if ps.len() == 0 {
        (Seq::empty(), None, 0)
    } else {
        let before = assign_types(ps.drop_last(), ts);
        let now = take_types(ps.last().id, before.1, before.2, ts);
        (before.0.push(now.0), now.1, now.2)
    }
}

/// The names of a list of product types.
pub open spec fn type_names(v: Seq<ProductTypeView>) -> Seq<String> {
    v.map_values(|t: ProductTypeView| t.name)
}

/// The elements of `v` in reverse order.
pub fn reversed<T>(v: Vec<T>) -> (r: Vec<T>)
    ensures
        r@ == v@.reverse(),
{
    let mut v = v;
    let ghost orig = v@;
    let mut r: Vec<T> = Vec::new();
    while v.len() > 0
        invariant
            v@.len() + r@.len() == orig.len(),
            forall|i: int| 0 <= i < v@.len() ==> v@[i] == orig[i],
            forall|i: int| 0 <= i < r@.len() ==> r@[i] == orig[orig.len() - 1 - i],
        decreases v.len(),
    {
        let x = v.pop().unwrap();
        r.push(x);
    }
    assert(r@ =~= orig.reverse());
    r
}

/// The products with their types, from products and `(product id, type name)`
/// pairs, both ordered by product id: a product receives the names of the run of
/// pairs with its id, in order.
pub fn build_product_info(products: Vec<ProductView>, types: Vec<(i64, String)>) -> (r: Vec<
    ProductInfo,
>)
    ensures
        r@.len() == products@.len(),
        forall|i: int|
            0 <= i < r@.len() ==> #[trigger] r@[i].product == products@[i] && type_names(
                r@[i].types@,
            ) == assign_types(products@, types@).0[i],
{
    let ghost ps = products@;
    let ghost ts = types@;
    let mut records: Vec<ProductInfo> = Vec::new();
    let mut p_rev = reversed(products);
    let mut t_rev = reversed(types);
    let mut current_type: Option<(i64, String)> = None;
    let ghost mut j: int = 0;
    assert(ps.subrange(0, 0) =~= Seq::<ProductView>::empty());
    while p_rev.len() > 0
        invariant
            ps.len() == records@.len() + p_rev@.len(),
            p_rev@ == ps.subrange(records@.len() as int, ps.len() as int).reverse(),
            0 <= j <= ts.len(),
            t_rev@ == ts.subrange(j, ts.len() as int).reverse(),
            assign_types(ps.subrange(0, records@.len() as int), ts).1 == current_type,
            assign_types(ps.subrange(0, records@.len() as int), ts).2 == j,
            assign_types(ps.subrange(0, records@.len() as int), ts).0.len() == records@.len(),
            forall|i: int|
                0 <= i < records@.len() ==> #[trigger] records@[i].product == ps[i] && type_names(
                    records@[i].types@,
                ) == assign_types(ps.subrange(0, records@.len() as int), ts).0[i],
        decreases p_rev@.len(),
    {
        let ghost k = records@.len() as int;
        let p = p_rev.pop().unwrap();
        assert(p == ps[k]);
        let pid = p.id;
        let mut names: Vec<ProductTypeView> = Vec::new();
        let ghost cur0 = current_type;
        let ghost j0 = j;
        loop
            invariant_except_break
                0 <= j <= ts.len(),
                t_rev@ == ts.subrange(j, ts.len() as int).reverse(),
                take_types(pid, cur0, j0, ts) == (
                    type_names(names@) + take_types(pid, current_type, j, ts).0,
                    take_types(pid, current_type, j, ts).1,
                    take_types(pid, current_type, j, ts).2,
                ),
            ensures
                0 <= j <= ts.len(),
                t_rev@ == ts.subrange(j, ts.len() as int).reverse(),
                take_types(pid, cur0, j0, ts) == (type_names(names@), current_type, j),
            decreases (ts.len() - j) * 2 + (if current_type is Some {
                1int
            } else {
                0int
            }),
        {
            match current_type {
                Some((p_id, p_type)) => {
                    if p_id == pid {
                        let ghost old_names = names@;
                        let ghost pt = p_type;
                        names.push(ProductTypeView { name: p_type });
                        assert(type_names(names@) =~= type_names(old_names).push(pt));
                        proof {
                            if j < ts.len() {
                                assert(t_rev@.last() == ts[j]);
                            }
                        }
                        current_type = t_rev.pop();
                        proof {
                            let ghost jn = if j < ts.len() { j + 1 } else { j };
                            assert(ts.subrange(jn, ts.len() as int).reverse() =~= t_rev@);
                            j = jn;
                            assert(type_names(old_names).push(pt) + take_types(
                                pid,
                                current_type,
                                j,
                                ts,
                            ).0 =~= type_names(old_names) + (seq![pt] + take_types(
                                pid,
                                current_type,
                                j,
                                ts,
                            ).0));
                        }
                    } else if p_id < pid {
                        current_type = None;
                    } else {
                        current_type = Some((p_id, p_type));
                        assert(type_names(names@) + Seq::<String>::empty() =~= type_names(names@));
                        break ;
                    }
                },
                None => {
                    let next = t_rev.pop();
                    match next {
                        Some(n) => {
                            proof {
                                assert(t_rev@.push(n) == ts.subrange(j, ts.len() as int).reverse());
                                assert(n == ts[j]);
                                j = j + 1;
                                assert(ts.subrange(j, ts.len() as int).reverse() =~= t_rev@);
                            }
                            current_type = Some(n);
                        },
                        None => {
                            assert(type_names(names@) + Seq::<String>::empty() =~= type_names(names@));
                            break ;
                        },
                    }
                },
            }
        }
        proof {
            assert(ps.subrange(0, k + 1).drop_last() =~= ps.subrange(0, k));
            assert(ps.subrange(0, k + 1).last() == ps[k]);
        }
        records.push(ProductInfo { product: p, types: names });
        proof {
            assert(p_rev@ =~= ps.subrange(records@.len() as int, ps.len() as int).reverse());
        }
    }
    assert(ps.subrange(0, ps.len() as int) =~= ps);
    records
}

} // verus!

verus! {

/// The names of the types of product `pid` in `s`, in order.
pub open spec fn names_with_id(s: Seq<(i64, String)>, pid: i64) -> Seq<String>
    decreases s.len(),
{
    if s.len() == 0 {
        Seq::empty()
    } else {
        (if s[0].0 == pid {
            seq![s[0].1]
        } else {
            Seq::empty()
        }) + names_with_id(s.drop_first(), pid)
    }
}

/// Pairs ordered by product id.
pub open spec fn types_sorted(ts: Seq<(i64, String)>) -> bool {
    forall|a: int, b: int| 0 <= a <= b < ts.len() ==> #[trigger] ts[a].0 <= #[trigger] ts[b].0
}

/// Products ordered by strictly increasing id.
pub open spec fn products_sorted(ps: Seq<ProductView>) -> bool {
    forall|a: int, b: int| 0 <= a < b < ps.len() ==> #[trigger] ps[a].id < #[trigger] ps[b].id
}

/// Where the walk over the types resumes: at the type in hand, else at `j`.
pub open spec fn resume_at(cur: Option<(i64, String)>, j: int) -> int {
    if cur is Some {
        j - 1
    } else {
        j
    }
}

/// The type in hand, if any, is the one just before `j`.
pub open spec fn walk_shape(cur: Option<(i64, String)>, j: int, ts: Seq<(i64, String)>) -> bool {
    &&& 0 <= j <= ts.len()
    &&& cur is Some ==> j >= 1 && cur == Some(ts[j - 1])
}

proof fn lemma_names_none(s: Seq<(i64, String)>, pid: i64)
    requires
        forall|m: int| 0 <= m < s.len() ==> #[trigger] s[m].0 != pid,
    ensures
        names_with_id(s, pid) == Seq::<String>::empty(),
    decreases s.len(),
{
    if s.len() > 0 {
        assert forall|m: int| 0 <= m < s.drop_first().len() implies #[trigger] s.drop_first()[m].0
            != pid by {
            assert(s.drop_first()[m] == s[m + 1]);
        }
        lemma_names_none(s.drop_first(), pid);
        assert(s[0].0 != pid);
        assert(names_with_id(s, pid) =~= Seq::<String>::empty());
    }
}

proof fn lemma_names_split(s: Seq<(i64, String)>, k: int, pid: i64)
    requires
        0 <= k <= s.len(),
    ensures
        names_with_id(s, pid) == names_with_id(s.subrange(0, k), pid) + names_with_id(
            s.subrange(k, s.len() as int),
            pid,
        ),
    decreases k,
{
    if k == 0 {
        assert(s.subrange(0, 0) =~= Seq::<(i64, String)>::empty());
        assert(s.subrange(0, s.len() as int) =~= s);
        assert(names_with_id(s.subrange(0, 0), pid) =~= Seq::<String>::empty());
        assert(Seq::<String>::empty() + names_with_id(s, pid) =~= names_with_id(s, pid));
    } else {
        let t = s.drop_first();
        lemma_names_split(t, k - 1, pid);
        assert(t.subrange(0, k - 1) =~= s.subrange(0, k).drop_first());
        assert(t.subrange(k - 1, t.len() as int) =~= s.subrange(k, s.len() as int));
        assert(s.subrange(0, k)[0] == s[0]);
        let head = if s[0].0 == pid {
            seq![s[0].1]
        } else {
            Seq::<String>::empty()
        };
        assert(names_with_id(s.subrange(0, k), pid) == head + names_with_id(t.subrange(0, k - 1), pid));
        assert(head + (names_with_id(t.subrange(0, k - 1), pid) + names_with_id(
            s.subrange(k, s.len() as int),
            pid,
        )) =~= (head + names_with_id(t.subrange(0, k - 1), pid)) + names_with_id(
            s.subrange(k, s.len() as int),
            pid,
        ));
    }
}

proof fn lemma_names_from(ts: Seq<(i64, String)>, st: int, pid: i64)
    requires
        0 <= st < ts.len(),
    ensures
        names_with_id(ts.subrange(st, ts.len() as int), pid) == (if ts[st].0 == pid {
            seq![ts[st].1]
        } else {
            Seq::<String>::empty()
        }) + names_with_id(ts.subrange(st + 1, ts.len() as int), pid),
{
    assert(ts.subrange(st, ts.len() as int).drop_first() =~= ts.subrange(st + 1, ts.len() as int));
    assert(ts.subrange(st, ts.len() as int)[0] == ts[st]);
}

proof fn lemma_take_types_sorted(
    pid: i64,
    cur: Option<(i64, String)>,
    j: int,
    ts: Seq<(i64, String)>,
)
    requires
        types_sorted(ts),
        walk_shape(cur, j, ts),
    ensures
        ({
            let r = take_types(pid, cur, j, ts);
            &&& r.0 == names_with_id(ts.subrange(resume_at(cur, j), ts.len() as int), pid)
            &&& walk_shape(r.1, r.2, ts)
            &&& resume_at(cur, j) <= resume_at(r.1, r.2)
            &&& forall|m: int|
                resume_at(cur, j) <= m < resume_at(r.1, r.2) ==> #[trigger] ts[m].0 <= pid
            &&& forall|m: int| resume_at(r.1, r.2) <= m < ts.len() ==> #[trigger] ts[m].0 > pid
        }),
    decreases (if j <= ts.len() { ts.len() - j } else { 0 }) * 2 + (if cur is Some {
        1int
    } else {
        0int
    }),
{
    let st = resume_at(cur, j);
    match cur {
        Some(c) => {
            lemma_names_from(ts, st, pid);
            if c.0 == pid {
                let n = next_type(ts, j);
                lemma_take_types_sorted(pid, n.0, n.1, ts);
            } else if c.0 < pid {
                lemma_take_types_sorted(pid, None, j, ts);
            } else {
                assert forall|m: int| st <= m < ts.len() implies #[trigger] ts[m].0 > pid by {
                    assert(ts[st].0 <= ts[m].0);
                }
                let rest = ts.subrange(st, ts.len() as int);
                assert forall|m: int| 0 <= m < rest.len() implies #[trigger] rest[m].0 != pid by {
                    assert(rest[m] == ts[st + m]);
                }
                lemma_names_none(rest, pid);
            }
        },
        None => {
            if j < ts.len() {
                lemma_take_types_sorted(pid, Some(ts[j]), j + 1, ts);
            } else {
                assert(ts.subrange(st, ts.len() as int) =~= Seq::<(i64, String)>::empty());
            }
        },
    }
}

proof fn lemma_assign_types_sorted(ps: Seq<ProductView>, ts: Seq<(i64, String)>)
    requires
        types_sorted(ts),
        products_sorted(ps),
    ensures
        ({
            let r = assign_types(ps, ts);
            &&& r.0.len() == ps.len()
            &&& forall|i: int| 0 <= i < ps.len() ==> #[trigger] r.0[i] == names_with_id(ts, ps[i].id)
            &&& walk_shape(r.1, r.2, ts)
            &&& ps.len() == 0 ==> r.1 is None && r.2 == 0
            &&& ps.len() > 0 ==> (forall|m: int|
                0 <= m < resume_at(r.1, r.2) ==> #[trigger] ts[m].0 <= ps.last().id)
            &&& ps.len() > 0 ==> (forall|m: int|
                resume_at(r.1, r.2) <= m < ts.len() ==> #[trigger] ts[m].0 > ps.last().id)
        }),
    decreases ps.len(),
{
    if ps.len() > 0 {
        let t = ps.drop_last();
        assert forall|a: int, b: int| 0 <= a < b < t.len() implies #[trigger] t[a].id < #[trigger] t[b].id by {
            assert(t[a] == ps[a] && t[b] == ps[b]);
        }
        lemma_assign_types_sorted(t, ts);
        let before = assign_types(t, ts);
        let p = ps.last();
        let st = resume_at(before.1, before.2);
        lemma_take_types_sorted(p.id, before.1, before.2, ts);
        let now = take_types(p.id, before.1, before.2, ts);
        lemma_names_split(ts, st, p.id);
        if t.len() > 0 {
            assert(t.last().id < p.id) by {
                assert(t.last() == ps[t.len() - 1]);
            }
        }
        let pre = ts.subrange(0, st);
        assert forall|m: int| 0 <= m < pre.len() implies #[trigger] pre[m].0 != p.id by {
            assert(pre[m] == ts[m]);
        }
        lemma_names_none(pre, p.id);
        assert(Seq::<String>::empty() + names_with_id(ts.subrange(st, ts.len() as int), p.id)
            =~= names_with_id(ts.subrange(st, ts.len() as int), p.id));
        let r = assign_types(ps, ts);
        assert forall|i: int| 0 <= i < ps.len() implies #[trigger] r.0[i] == names_with_id(
            ts,
            ps[i].id,
        ) by {
            if i < t.len() {
                assert(ps[i] == t[i]);
            }
        }
        assert forall|m: int| 0 <= m < resume_at(r.1, r.2) implies #[trigger] ts[m].0
            <= ps.last().id by {
            if m < st && t.len() > 0 {
                assert(ts[m].0 <= t.last().id);
            }
        }
    }
}

/// Products ordered by increasing id, with types ordered by product id, each
/// receive exactly the names of their own types, in order.
pub proof fn lemma_sorted_products_get_their_types(ps: Seq<ProductView>, ts: Seq<(i64, String)>, i: int)
    requires
        types_sorted(ts),
        products_sorted(ps),
        0 <= i < ps.len(),
    ensures
        assign_types(ps, ts).0[i] == names_with_id(ts, ps[i].id),
{
    lemma_assign_types_sorted(ps, ts);
}

} // verus!

verus! {

/// `a / b` rounded toward zero, as integer division does.
pub open spec fn div_toward_zero(a: int, b: int) -> int {
    if a >= 0 {
        a / b
    } else {
        -((-a) / b)
    }
}

/// An optional amount, zero when absent.
pub open spec fn or_zero(v: Option<i64>) -> int {
    match v {
        Some(x) => x as int,
        None => 0,
    }
}

/// The subtotal of a sold product: unit price plus the large-size charge, times
/// the quantity.
pub open spec fn product_subtotal(i: FactureItemProduct) -> int {
    (or_zero(i.price) + or_zero(i.extra_large_size)) * i.quantity
}

/// The rebate that a percent rebate grants on a sold product: that percent of
/// its subtotal, rounded toward zero.
pub open spec fn percent_rebate(i: FactureItemProduct) -> Option<int> {
    match i.rebate_percent {
        Some(p) => Some(div_toward_zero(product_subtotal(i) * p, 100)),
        None => None,
    }
}

/// The rebate granted on an item: the percent rebate of a product, nothing on
/// a rental, the dollar rebate of an alteration.
pub open spec fn item_rebate(v: FactureItemType) -> int {
    match v {
        FactureItemValue::FactureItemProduct(i) => match percent_rebate(i) {
            Some(r) => r,
            None => 0,
        },
        FactureItemValue::FactureItemLocation(_) => 0,
        FactureItemValue::FactureItemAlteration(i) => or_zero(i.rebate_dollar),
    }
}

/// The total of an item: a product's subtotal less its rebate; a rental's
/// price plus other costs and insurance; an alteration's price less its rebate.
pub open spec fn item_total(v: FactureItemType) -> int {
    match v {
        FactureItemValue::FactureItemProduct(i) => product_subtotal(i) - item_rebate(v),
        FactureItemValue::FactureItemLocation(i) => or_zero(i.price) + or_zero(i.other_costs)
            + or_zero(i.insurance),
        FactureItemValue::FactureItemAlteration(i) => or_zero(i.price) - or_zero(i.rebate_dollar),
    }
}

/// `x` is within the range of `i64`.
pub open spec fn fits(x: int) -> bool {
    i64::MIN <= x <= i64::MAX
}

/// Every amount computed for the item stays within the range of `i64`.
pub open spec fn item_amounts_fit(v: FactureItemType) -> bool {
    match v {
        FactureItemValue::FactureItemProduct(i) => {
            &&& fits(or_zero(i.price) + or_zero(i.extra_large_size))
            &&& fits(product_subtotal(i))
            &&& (i.rebate_percent matches Some(p) ==> fits(product_subtotal(i) * p))
            &&& fits(item_total(v))
        },
        FactureItemValue::FactureItemLocation(i) => {
            &&& fits(or_zero(i.price) + or_zero(i.other_costs))
            &&& fits(item_total(v))
        },
        FactureItemValue::FactureItemAlteration(i) => fits(item_total(v)),
    }
}

/// The measurements of an item as text: "B<chest> x T<waist> x H<hips>" for a
/// product whose three measurements are known, "-" otherwise.
pub open spec fn measurements_text(v: FactureItemType) -> Seq<char> {
    match v {
        FactureItemValue::FactureItemProduct(i) => match (i.chest, i.waist, i.hips) {
            (Some(c), Some(w), Some(h)) => "B"@ + signed_decimal(c as int) + " x T"@
                + signed_decimal(w as int) + " x H"@ + signed_decimal(h as int),
            _ => "-"@,
        },
        _ => "-"@,
    }
}

impl FactureItemProduct {
    /// The rebate that the item's percent rebate grants on its subtotal.
    pub fn rebate_percent_applied(&self) -> (r: Option<i64>)
        requires
            fits(or_zero(self.price) + or_zero(self.extra_large_size)),
            fits(product_subtotal(*self)),
            self.rebate_percent matches Some(p) ==> fits(product_subtotal(*self) * p),
        ensures
            match r {
                Some(x) => percent_rebate(*self) == Some(x as int),
                None => percent_rebate(*self) is None,
            },
    {
        match self.rebate_percent {
            Some(p) => {
                let price = match self.price {
                    Some(x) => x,
                    None => 0,
                };
                let xl = match self.extra_large_size {
                    Some(x) => x,
                    None => 0,
                };
                let sub_total = (price + xl) * self.quantity;
                let scaled = sub_total * p;
                let r = if scaled >= 0 {
                    scaled / 100
                } else {
                    -((-(scaled as i128)) / 100) as i64
                };
                Some(r)
            },
            None => None,
        }
    }
}

/// The figures of one item.
pub fn compute_item(item: &FactureItemView) -> (r: FactureItemComputed)
    requires
        item_amounts_fit(item.value),
    ensures
        r.calculated_rebate == item_rebate(item.value),
        r.total == item_total(item.value),
        r.measurements@ == measurements_text(item.value),
{
    let price = match item.price() {
        Some(p) => p,
        None => 0,
    };
    match &item.value {
        FactureItemValue::FactureItemProduct(i) => {
            let calculated_rebate = match i.rebate_percent_applied() {
                Some(x) => x,
                None => 0,
            };
            let xl = match i.extra_large_size {
                Some(x) => x,
                None => 0,
            };
            let sub_total = (price + xl) * i.quantity;
            let total = sub_total - calculated_rebate;
            let measurements = match (i.chest, i.waist, i.hips) {
                (Some(c), Some(w), Some(h)) => {
                    let mut s = String::new();
                    push_char(&mut s, 'B');
                    push_signed_decimal(&mut s, c);
                    let s = s.concat(" x T");
                    let mut s = s;
                    push_signed_decimal(&mut s, w);
                    let s = s.concat(" x H");
                    let mut s = s;
                    push_signed_decimal(&mut s, h);
                    assert(s@ =~= "B"@ + signed_decimal(c as int) + " x T"@ + signed_decimal(
                        w as int,
                    ) + " x H"@ + signed_decimal(h as int)) by {
                        reveal_strlit("B");
                    }
                    s
                },
                _ => String::from_str("-"),
            };
            FactureItemComputed { calculated_rebate, total, measurements }
        },
        FactureItemValue::FactureItemLocation(i) => {
            let other = match i.other_costs {
                Some(x) => x,
                None => 0,
            };
            let insurance = match i.insurance {
                Some(x) => x,
                None => 0,
            };
            FactureItemComputed {
                calculated_rebate: 0,
                total: price + other + insurance,
                measurements: String::from_str("-"),
            }
        },
        FactureItemValue::FactureItemAlteration(i) => {
            let rebate = match i.rebate_dollar {
                Some(x) => x,
                None => 0,
            };
            FactureItemComputed {
                calculated_rebate: rebate,
                total: price - rebate,
                measurements: String::from_str("-"),
            }
        },
    }
}

/// Whether every amount computed for the item fits (the condition of
/// `compute_item`).
pub fn item_amounts_fit_check(item: &FactureItemView) -> (r: bool)
    ensures
        r == item_amounts_fit(item.value),
{
    match &item.value {
        FactureItemValue::FactureItemProduct(i) => {
            let price = match i.price {
                Some(x) => x as i128,
                None => 0,
            };
            let xl = match i.extra_large_size {
                Some(x) => x as i128,
                None => 0,
            };
            let unit = price + xl;
            if unit < i64::MIN as i128 || unit > i64::MAX as i128 {
                return false;
            }
            let q = i.quantity as i128;
            assert(unit * q <= 0x4000_0000_0000_0000_0000_0000_0000_0000 && unit * q >= -0x4000_0000_0000_0000_0000_0000_0000_0000)
                by (nonlinear_arith)
                requires
                    i64::MIN <= unit <= i64::MAX,
                    i64::MIN <= q <= i64::MAX,
            ;
            let sub = unit * q;
            if sub < i64::MIN as i128 || sub > i64::MAX as i128 {
                return false;
            }
            let rebate: i128 = match i.rebate_percent {
                Some(p) => {
                    let pp = p as i128;
                    assert(sub * pp <= 0x4000_0000_0000_0000_0000_0000_0000_0000 && sub * pp >= -0x4000_0000_0000_0000_0000_0000_0000_0000)
                        by (nonlinear_arith)
                        requires
                            i64::MIN <= sub <= i64::MAX,
                            i64::MIN <= pp <= i64::MAX,
                    ;
                    let scaled = sub * pp;
                    if scaled < i64::MIN as i128 || scaled > i64::MAX as i128 {
                        return false;
                    }
                    if scaled >= 0 {
                        scaled / 100
                    } else {
                        -((-scaled) / 100)
                    }
                },
                None => 0,
            };
            let total = sub - rebate;
            total >= i64::MIN as i128 && total <= i64::MAX as i128
        },
        FactureItemValue::FactureItemLocation(i) => {
            let price = match i.price {
                Some(x) => x as i128,
                None => 0,
            };
            let other = match i.other_costs {
                Some(x) => x as i128,
                None => 0,
            };
            let insurance = match i.insurance {
                Some(x) => x as i128,
                None => 0,
            };
            let a = price + other;
            let t = a + insurance;
            a >= i64::MIN as i128 && a <= i64::MAX as i128 && t >= i64::MIN as i128 && t
                <= i64::MAX as i128
        },
        FactureItemValue::FactureItemAlteration(i) => {
            let price = match i.price {
                Some(x) => x as i128,
                None => 0,
            };
            let rebate = match i.rebate_dollar {
                Some(x) => x as i128,
                None => 0,
            };
            let t = price - rebate;
            t >= i64::MIN as i128 && t <= i64::MAX as i128
        },
    }
}

} // verus!

verus! {

broadcast use vstd::std_specs::hash::group_hash_axioms;

/// Item `i` is the last of `s` with its id.
pub open spec fn is_last_with_id(s: Seq<FactureItemView>, i: int) -> bool {
    forall|j: int| i < j < s.len() ==> #[trigger] s[j].id != s[i].id
}

/// The sum of the totals of the first `n` items of `s`, counting only the last
/// item with each id (an item replaced by a later one with the same id does not
/// count).
pub open spec fn items_total(s: Seq<FactureItemView>, n: int) -> int
    decreases n,
{
    if n <= 0 {
        0
    } else {
        items_total(s, n - 1) + if is_last_with_id(s, n - 1) {
            item_total(s[n - 1].value)
        } else {
            0
        }
    }
}

/// The figures of each item, keyed by item id; for a repeated id, the last
/// item with it.
pub fn compute_items(items: &[FactureItemView]) -> (r: std::collections::HashMap<
    i64,
    FactureItemComputed,
>)
    requires
        forall|i: int| 0 <= i < items@.len() ==> item_amounts_fit(#[trigger] items@[i].value),
    ensures
        forall|k: i64|
            r@.contains_key(k) <==> exists|i: int| 0 <= i < items@.len() && #[trigger] items@[i].id == k,
        forall|i: int|
            0 <= i < items@.len() && is_last_with_id(items@, i) ==> {
                let c = #[trigger] r@[items@[i].id];
                &&& c.total == item_total(items@[i].value)
                &&& c.calculated_rebate == item_rebate(items@[i].value)
                &&& c.measurements@ == measurements_text(items@[i].value)
            },
{
    let mut r: std::collections::HashMap<i64, FactureItemComputed> =
        std::collections::HashMap::new();
    let mut n: usize = 0;
    while n < items.len()
        invariant
            n <= items@.len(),
            forall|i: int| 0 <= i < items@.len() ==> item_amounts_fit(#[trigger] items@[i].value),
            forall|k: i64|
                r@.contains_key(k) <==> exists|i: int| 0 <= i < n && #[trigger] items@[i].id == k,
            forall|i: int|
                0 <= i < n && (forall|j: int| i < j < n ==> #[trigger] items@[j].id != items@[i].id)
                    ==> {
                    let c = #[trigger] r@[items@[i].id];
                    &&& c.total == item_total(items@[i].value)
                    &&& c.calculated_rebate == item_rebate(items@[i].value)
                    &&& c.measurements@ == measurements_text(items@[i].value)
                },
        decreases items.len() - n,
    {
        let c = compute_item(&items[n]);
        r.insert(items[n].id, c);
        proof {
            assert forall|k: i64| r@.contains_key(k) <==> exists|i: int|
                0 <= i < n + 1 && #[trigger] items@[i].id == k by {
                if k == items@[n as int].id {
                    assert(items@[n as int].id == k);
                }
            }
            assert forall|i: int|
                0 <= i < n + 1 && (forall|j: int| i < j < n + 1 ==> #[trigger] items@[j].id
                    != items@[i].id) implies {
                let c = #[trigger] r@[items@[i].id];
                &&& c.total == item_total(items@[i].value)
                &&& c.calculated_rebate == item_rebate(items@[i].value)
                &&& c.measurements@ == measurements_text(items@[i].value)
            } by {
                if i < n {
                    assert(items@[n as int].id != items@[i].id);
                }
            }
        }
        n = n + 1;
    }
    r
}

/// The sum of the totals of the items, each id counted once (its last item).
fn sum_item_totals(items: &[FactureItemView]) -> (r: i128)
    requires
        forall|i: int| 0 <= i < items@.len() ==> item_amounts_fit(#[trigger] items@[i].value),
    ensures
        r == items_total(items@, items@.len() as int),
{
    let mut sum: i128 = 0;
    let mut n: usize = 0;
    while n < items.len()
        invariant
            n <= items@.len(),
            forall|i: int| 0 <= i < items@.len() ==> item_amounts_fit(#[trigger] items@[i].value),
            sum == items_total(items@, n as int),
            -(n as int) * 0x8000_0000_0000_0000 <= sum <= (n as int) * 0x8000_0000_0000_0000,
        decreases items.len() - n,
    {
        let mut last = true;
        let mut m: usize = n + 1;
        while m < items.len()
            invariant
                n < m <= items@.len(),
                last == (forall|j: int| n < j < m ==> #[trigger] items@[j].id != items@[n as int].id),
            decreases items.len() - m,
        {
            if items[m].id == items[n].id {
                last = false;
            }
            m = m + 1;
        }
        if last {
            let c = compute_item(&items[n]);
            sum = sum + c.total as i128;
        }
        proof {
            assert((n as int + 1) * 0x8000_0000_0000_0000 == (n as int) * 0x8000_0000_0000_0000
                + 0x8000_0000_0000_0000) by (nonlinear_arith);
        }
        n = n + 1;
    }
    sum
}

/// The amount to tax: the fixed total of the invoice when it has one, else the
/// sum of its items' totals.
pub fn effective_total(facture: &FactureView, items: &[FactureItemView]) -> (r: i64)
    requires
        facture.fixed_total is None ==> (forall|i: int|
            0 <= i < items@.len() ==> item_amounts_fit(#[trigger] items@[i].value)) && fits(
            items_total(items@, items@.len() as int),
        ),
    ensures
        r == match facture.fixed_total {
            Some(t) => t as int,
            None => items_total(items@, items@.len() as int),
        },
{
    match facture.fixed_total {
        Some(t) => t,
        None => sum_item_totals(items) as i64,
    }
}

/// The amount to tax of `effective_total`, or `None` when an item's amounts or
/// the sum of the items' totals leave the range of `i64` (where
/// `effective_total` cannot be asked).
pub fn checked_effective_total(facture: &FactureView, items: &[FactureItemView]) -> (r: Option<i64>)
    ensures
        match facture.fixed_total {
            Some(t) => r == Some(t),
            None => if (forall|i: int|
                0 <= i < items@.len() ==> item_amounts_fit(#[trigger] items@[i].value)) && fits(
                items_total(items@, items@.len() as int),
            ) {
                r matches Some(x) && x == items_total(items@, items@.len() as int)
            } else {
                r is None
            },
        },
{
    match facture.fixed_total {
        Some(t) => Some(t),
        None => {
            let mut n: usize = 0;
            while n < items.len()
                invariant
                    facture.fixed_total is None,
                    n <= items@.len(),
                    forall|i: int| 0 <= i < n ==> item_amounts_fit(#[trigger] items@[i].value),
                decreases items.len() - n,
            {
                if !item_amounts_fit_check(&items[n]) {
                    return None;
                }
                n = n + 1;
            }
            let sum = sum_item_totals(items);
            if sum < i64::MIN as i128 || sum > i64::MAX as i128 {
                None
            } else {
                Some(sum as i64)
            }
        },
    }
}

/// The sum of the amounts of a list of payments.
pub open spec fn payments_sum(s: Seq<PaymentView>) -> int
    decreases s.len(),
{
    if s.len() == 0 {
        0
    } else {
        payments_sum(s.drop_last()) + s.last().amount
    }
}

/// The sum of the amounts of a list of refunds.
pub open spec fn refunds_sum(s: Seq<RefundView>) -> int
    decreases s.len(),
{
    if s.len() == 0 {
        0
    } else {
        refunds_sum(s.drop_last()) + s.last().amount
    }
}

fn sum_payments(s: &[PaymentView]) -> (r: i128)
    ensures
        r == payments_sum(s@),
{
    let mut sum: i128 = 0;
    let mut n: usize = 0;
    while n < s.len()
        invariant
            n <= s@.len(),
            sum == payments_sum(s@.take(n as int)),
            -(n as int) * 0x8000_0000_0000_0000 <= sum <= (n as int) * 0x8000_0000_0000_0000,
        decreases s.len() - n,
    {
        assert(s@.take(n + 1).drop_last() =~= s@.take(n as int));
        sum = sum + s[n].amount as i128;
        proof {
            assert((n as int + 1) * 0x8000_0000_0000_0000 == (n as int) * 0x8000_0000_0000_0000 + 0x8000_0000_0000_0000) by (nonlinear_arith);
        }
        n = n + 1;
    }
    assert(s@.take(s@.len() as int) =~= s@);
    sum
}

fn sum_refunds(s: &[RefundView]) -> (r: i128)
    ensures
        r == refunds_sum(s@),
{
    let mut sum: i128 = 0;
    let mut n: usize = 0;
    while n < s.len()
        invariant
            n <= s@.len(),
            sum == refunds_sum(s@.take(n as int)),
            -(n as int) * 0x8000_0000_0000_0000 <= sum <= (n as int) * 0x8000_0000_0000_0000,
        decreases s.len() - n,
    {
        assert(s@.take(n + 1).drop_last() =~= s@.take(n as int));
        sum = sum + s[n].amount as i128;
        proof {
            assert((n as int + 1) * 0x8000_0000_0000_0000 == (n as int) * 0x8000_0000_0000_0000 + 0x8000_0000_0000_0000) by (nonlinear_arith);
        }
        n = n + 1;
    }
    assert(s@.take(s@.len() as int) =~= s@);
    sum
}

/// The figures of an invoice, in cents.
pub struct FactureFigures {
    pub total: int,
    pub tps: int,
    pub tvq: int,
    pub tax_total: int,
    pub total_payments: int,
    pub total_refunds: int,
    pub total_refundable: int,
    pub balance: int,
}

/// The figures of an invoice from its amount to tax, its two taxes, and its
/// payments and refunds: the total with taxes, what was paid and refunded, what
/// could be refunded, and the balance left to pay.
pub open spec fn facture_figures_spec(
    total: int,
    tps: int,
    tvq: int,
    payments: Seq<PaymentView>,
    refunds: Seq<RefundView>,
) -> FactureFigures {
    let tax_total = total + tps + tvq;
    let paid = payments_sum(payments);
    let refunded = refunds_sum(refunds);
    FactureFigures {
        total,
        tps,
        tvq,
        tax_total,
        total_payments: paid,
        total_refunds: refunded,
        total_refundable: paid - refunded,
        balance: tax_total - paid + refunded,
    }
}

/// The figures of a computed invoice.
pub open spec fn figures_of(c: FactureComputed) -> FactureFigures {
    FactureFigures {
        total: c.total as int,
        tps: c.tps as int,
        tvq: c.tvq as int,
        tax_total: c.tax_total as int,
        total_payments: c.total_payments as int,
        total_refunds: c.total_refunds as int,
        total_refundable: c.total_refundable as int,
        balance: c.balance as int,
    }
}

/// All figures of an invoice fit in `i64`.
pub open spec fn figures_fit(f: FactureFigures) -> bool {
    &&& fits(f.total + f.tps)
    &&& fits(f.tax_total)
    &&& fits(f.total_payments)
    &&& fits(f.total_refunds)
    &&& fits(f.total_refundable)
    &&& fits(f.balance)
}

/// The figures of an invoice, given its amount to tax and the two taxes on it.
pub fn facture_figures(
    total: i64,
    tps: i64,
    tvq: i64,
    payments: &[PaymentView],
    refunds: &[RefundView],
) -> (r: FactureComputed)
    requires
        figures_fit(facture_figures_spec(total as int, tps as int, tvq as int, payments@, refunds@)),
    ensures
        figures_of(r) == facture_figures_spec(
            total as int,
            tps as int,
            tvq as int,
            payments@,
            refunds@,
        ),
{
    let tax_total = total + tps + tvq;
    let total_payments = sum_payments(payments);
    let total_refunds = sum_refunds(refunds);
    let total_refundable = total_payments - total_refunds;
    let balance = tax_total as i128 - total_payments + total_refunds;
    FactureComputed {
        total,
        tvq,
        tps,
        tax_total,
        balance: balance as i64,
        total_payments: total_payments as i64,
        total_refunds: total_refunds as i64,
        total_refundable: total_refundable as i64,
    }
}

/// What is left to pay is the total with taxes less what was paid and not
/// refunded; an invoice is settled exactly when what was paid and not refunded
/// equals its total with taxes.
pub proof fn lemma_balance_is_total_less_refundable(
    total: int,
    tps: int,
    tvq: int,
    payments: Seq<PaymentView>,
    refunds: Seq<RefundView>,
)
    ensures
        ({
            let f = facture_figures_spec(total, tps, tvq, payments, refunds);
            &&& f.balance == f.tax_total - f.total_refundable
            &&& (f.balance == 0) == (f.total_refundable == f.tax_total)
        }),
{
}

/// A new payment lowers the balance by its amount; a new refund raises it by
/// its amount.
pub proof fn lemma_transactions_move_balance(
    total: int,
    tps: int,
    tvq: int,
    payments: Seq<PaymentView>,
    refunds: Seq<RefundView>,
    p: PaymentView,
    x: RefundView,
)
    ensures
        facture_figures_spec(total, tps, tvq, payments.push(p), refunds).balance
            == facture_figures_spec(total, tps, tvq, payments, refunds).balance - p.amount,
        facture_figures_spec(total, tps, tvq, payments, refunds.push(x)).balance
            == facture_figures_spec(total, tps, tvq, payments, refunds).balance + x.amount,
{
    assert(payments.push(p).drop_last() =~= payments);
    assert(refunds.push(x).drop_last() =~= refunds);
}

} // verus!

verus! {

/// The `(second id, value)` pairs of `s` whose first id is `k`, in order.
pub open spec fn grouped<V>(s: Seq<((i64, i64), V)>, k: i64) -> Seq<(i64, V)>
    decreases s.len(),
{
    if s.len() == 0 {
        Seq::empty()
    } else {
        let rest = grouped(s.drop_last(), k);
        if s.last().0.0 == k {
            rest.push((s.last().0.1, s.last().1))
        } else {
            rest
        }
    }
}

/// Groups `(first id, second id), value` entries by their first id, keeping
/// the second id with each value; within a group the entries keep their order.
pub fn group_by_map<V>(v: Vec<((i64, i64), V)>) -> (r: std::collections::HashMap<
    i64,
    Vec<(i64, V)>,
>)
    ensures
        forall|k: i64|
            r@.contains_key(k) <==> exists|i: int| 0 <= i < v@.len() && #[trigger] v@[i].0.0 == k,
        forall|k: i64| #[trigger] r@.contains_key(k) ==> r@[k]@ == grouped(v@, k),
{
    let ghost s = v@;
    let len0 = v.len();
    let mut rev = reversed(v);
    let mut r: std::collections::HashMap<i64, Vec<(i64, V)>> = std::collections::HashMap::new();
    let mut n: usize = 0;
    while rev.len() > 0
        invariant
            n + rev@.len() == s.len(),
            s.len() == len0,
            forall|i: int| 0 <= i < rev@.len() ==> rev@[i] == s[s.len() - 1 - i],
            forall|k: i64|
                r@.contains_key(k) <==> exists|i: int| 0 <= i < n && #[trigger] s[i].0.0 == k,
            forall|k: i64| #[trigger]
                r@.contains_key(k) ==> r@[k]@ == grouped(s.take(n as int), k),
        decreases rev.len(),
    {
        let e = rev.pop().unwrap();
        assert(e == s[n as int]);
        let ((k, second), value) = e;
        let ghost before = r@;
        let group = match r.remove(&k) {
            Some(mut g) => {
                g.push((second, value));
                g
            },
            None => {
                let mut g = Vec::new();
                g.push((second, value));
                g
            },
        };
        r.insert(k, group);
        proof {
            let t = s.take(n + 1);
            assert(t.drop_last() =~= s.take(n as int));
            assert(t.last() == s[n as int]);
            assert forall|kk: i64| r@.contains_key(kk) <==> exists|i: int|
                0 <= i < n + 1 && #[trigger] s[i].0.0 == kk by {
                if kk == k {
                    assert(s[n as int].0.0 == kk);
                }
            }
            assert forall|kk: i64| #[trigger] r@.contains_key(kk) implies r@[kk]@ == grouped(t, kk) by {
                if kk == k {
                    if !before.contains_key(k) {
                        assert(!exists|i: int| 0 <= i < n && #[trigger] s[i].0.0 == k);
                        lemma_grouped_empty(s.take(n as int), k);
                    }
                }
            }
        }
        n = n + 1;
    }
    assert(s.take(s.len() as int) =~= s);
    r
}

proof fn lemma_grouped_empty<V>(s: Seq<((i64, i64), V)>, k: i64)
    requires
        forall|i: int| 0 <= i < s.len() ==> #[trigger] s[i].0.0 != k,
    ensures
        grouped(s, k) == Seq::<(i64, V)>::empty(),
    decreases s.len(),
{
    if s.len() > 0 {
        assert forall|i: int| 0 <= i < s.drop_last().len() implies #[trigger] s.drop_last()[i].0.0 != k by {
            assert(s.drop_last()[i] == s[i]);
        }
        lemma_grouped_empty(s.drop_last(), k);
    }
}

/// The position of the first product with id `pid`, or -1.
pub open spec fn first_product_index(prods: Seq<ProductInfo>, pid: i64) -> int
    decreases prods.len(),
{
    if prods.len() == 0 {
        -1
    } else if prods[0].product.id == pid {
        0
    } else {
        let r = first_product_index(prods.drop_first(), pid);
        if r < 0 {
            -1
        } else {
            r + 1
        }
    }
}

/// The list without position `i`, its last element moved there (`swap_remove`).
pub open spec fn swap_removed<T>(s: Seq<T>, i: int) -> Seq<T> {
    s.update(i, s.last()).drop_last()
}

/// Taking, for each product id of `pids` in order, the first remaining product
/// with that id out of `prods`: the products taken and those left; or the
/// position of the first id with no product left.
pub open spec fn take_products(pids: Seq<i64>, prods: Seq<ProductInfo>) -> Result<
    (Seq<ProductInfo>, Seq<ProductInfo>),
    int,
>
    decreases pids.len(),
{
    if pids.len() == 0 {
        Ok((Seq::empty(), prods))
    } else {
        match take_products(pids.drop_last(), prods) {
            Ok(state) => {
                let idx = first_product_index(state.1, pids.last());
                if idx < 0 {
                    Err(pids.len() - 1)
                } else {
                    Ok((state.0.push(state.1[idx]), swap_removed(state.1, idx)))
                }
            },
            Err(e) => Err(e),
        }
    }
}

/// The product ids of printed items.
pub open spec fn item_product_ids(items: Seq<(FactureItemView, FactureItemComputed)>) -> Seq<i64> {
    items.map_values(|e: (FactureItemView, FactureItemComputed)| e.0.product_id)
}

/// An item whose product is not among the invoice's products.
#[derive(Debug, Clone, Copy, PartialEq, Eq)]
pub struct ProductNotFound {
    pub product_id: i64,
    pub facture_id: i64,
}

fn find_product(prods: &Vec<ProductInfo>, pid: i64) -> (r: Option<usize>)
    ensures
        match r {
            Some(i) => first_product_index(prods@, pid) == i && i < prods@.len(),
            None => first_product_index(prods@, pid) < 0,
        },
{
    let mut i: usize = 0;
    while i < prods.len()
        invariant
            i <= prods@.len(),
            forall|j: int| 0 <= j < i ==> #[trigger] prods@[j].product.id != pid,
        decreases prods.len() - i,
    {
        if prods[i].product.id == pid {
            proof {
                lemma_first_index_at(prods@, pid, i as int);
            }
            return Some(i);
        }
        i = i + 1;
    }
    proof {
        lemma_first_index_none(prods@, pid);
    }
    None
}

proof fn lemma_first_index_at(s: Seq<ProductInfo>, pid: i64, i: int)
    requires
        0 <= i < s.len(),
        s[i].product.id == pid,
        forall|j: int| 0 <= j < i ==> #[trigger] s[j].product.id != pid,
    ensures
        first_product_index(s, pid) == i,
    decreases i,
{
    if i > 0 {
        assert forall|j: int| 0 <= j < i - 1 implies #[trigger] s.drop_first()[j].product.id != pid by {
            assert(s.drop_first()[j] == s[j + 1]);
        }
        assert(s[0].product.id != pid);
        lemma_first_index_at(s.drop_first(), pid, i - 1);
    }
}

proof fn lemma_first_index_none(s: Seq<ProductInfo>, pid: i64)
    requires
        forall|j: int| 0 <= j < s.len() ==> #[trigger] s[j].product.id != pid,
    ensures
        first_product_index(s, pid) < 0,
    decreases s.len(),
{
    if s.len() > 0 {
        assert forall|j: int| 0 <= j < s.len() - 1 implies #[trigger] s.drop_first()[j].product.id != pid by {
            assert(s.drop_first()[j] == s[j + 1]);
        }
        lemma_first_index_none(s.drop_first(), pid);
    }
}

proof fn lemma_take_products_error_persists(pids: Seq<i64>, prods: Seq<ProductInfo>, n: int)
    requires
        0 <= n <= pids.len(),
        take_products(pids.take(n), prods) is Err,
    ensures
        take_products(pids, prods) == take_products(pids.take(n), prods),
    decreases pids.len() - n,
{
    if n == pids.len() {
        assert(pids.take(n) =~= pids);
    } else {
        assert(pids.take(n + 1).drop_last() =~= pids.take(n));
        lemma_take_products_error_persists(pids, prods, n + 1);
    }
}

/// Each printed item with its product: the first remaining product with the
/// item's product id is taken out of `products` (the last remaining product
/// takes its place). An error names the first item whose product is missing.
#[verifier::loop_isolation(false)]
pub fn attach_products(
    items: Vec<(FactureItemView, FactureItemComputed)>,
    products: Vec<ProductInfo>,
) -> (r: Result<Vec<FactureItemInfo>, ProductNotFound>)
    ensures
        match r {
            Ok(v) => take_products(item_product_ids(items@), products@) matches Ok(state) && v@.len()
                == items@.len() && forall|i: int|
                0 <= i < v@.len() ==> #[trigger] v@[i].item == items@[i].0 && v@[i].item_computed
                    == items@[i].1 && v@[i].product_info == state.0[i],
            Err(e) => take_products(item_product_ids(items@), products@) matches Err(i) && 0 <= i
                < items@.len() && e.product_id == items@[i].0.product_id && e.facture_id
                == items@[i].0.facture_id,
        },
{
    let ghost its = items@;
    let ghost pids = item_product_ids(items@);
    let ghost prods0 = products@;
    let mut products = products;
    let mut rev = reversed(items);
    let mut out: Vec<FactureItemInfo> = Vec::new();
    assert(pids.take(0) =~= Seq::<i64>::empty());
    while rev.len() > 0
        invariant
            out@.len() + rev@.len() == its.len(),
            pids == item_product_ids(its),
            forall|i: int| 0 <= i < rev@.len() ==> rev@[i] == its[its.len() - 1 - i],
            take_products(pids.take(out@.len() as int), prods0) matches Ok(state) && state.1
                == products@ && state.0.len() == out@.len() && forall|i: int|
                0 <= i < out@.len() ==> #[trigger] out@[i].item == its[i].0 && out@[i].item_computed
                    == its[i].1 && out@[i].product_info == state.0[i],
        decreases rev.len(),
    {
        let ghost n = out@.len() as int;
        let e = rev.pop().unwrap();
        assert(e == its[n]);
        let (item, item_computed) = e;
        assert(pids.take(n + 1).drop_last() =~= pids.take(n));
        assert(pids.take(n + 1).last() == item.product_id);
        match find_product(&products, item.product_id) {
            Some(idx) => {
                let ghost before = products@;
                let product_info = products.swap_remove(idx);
                assert(products@ =~= swap_removed(before, idx as int));
                out.push(FactureItemInfo { item, item_computed, product_info });
            },
            None => {
                proof {
                    lemma_take_products_error_persists(pids, prods0, n + 1);
                }
                return Err(ProductNotFound { product_id: item.product_id, facture_id: item.facture_id });
            },
        }
    }
    assert(pids.take(its.len() as int) =~= pids);
    Ok(out)
}

} // verus!
