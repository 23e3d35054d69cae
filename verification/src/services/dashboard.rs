//! The invoice dashboard: every invoice with its client and the state of each
//! of its items.
use vstd::prelude::*;
use crate::models::FactureDashboardData;
use crate::models::clients::ClientView;
use crate::models::facture_items::ItemFactureFlowType;
use crate::models::factures::{facture_view_of, id_bits, FactureRow, FactureView};
use crate::models::statuts::{StateView, StateViewModel, StatutError, StatutRow};
use crate::services::admin::{facture_client_ids, find_client, take_clients, ClientNotFound};
use crate::services::factures::{reversed, swap_removed};
use crate::services::statuts::{
    entries_map, entry_key, flows_view, keys_unique, lemma_entries_map_at, lemma_entries_map_push,
    load_statuts_flow, replay_items, statuts_view, ItemState,
};

verus! {

/// Why the dashboard could not be built.
#[derive(Debug)]
pub enum DashboardError {
    /// The recorded statuses do not replay.
    Statut(StatutError),
    /// An invoice's client is missing.
    ClientNotFound(ClientNotFound),
}

/// The invoices that database rows show.
pub open spec fn facture_views(rows: Seq<FactureRow>) -> Seq<FactureView> {
    rows.map_values(|r: FactureRow| facture_view_of(r))
}

/// The states of the items of invoice `f`, in the order of `entries`, each with
/// its item id read as unsigned.
pub open spec fn facture_item_states(entries: Seq<ItemState>, f: i64) -> Seq<(u64, StateViewModel)>
    decreases entries.len(),
{
    if entries.len() == 0 {
        Seq::empty()
    } else {
        let rest = facture_item_states(entries.drop_last(), f);
        let e = entries.last();
        if e.facture_id == f {
            rest.push((id_bits(e.facture_item_id), e.state@))
        } else {
            rest
        }
    }
}

/// The entries that belong to none of the invoices `ids`, in order.
pub open spec fn without_factures(entries: Seq<ItemState>, ids: Seq<i64>) -> Seq<ItemState>
    decreases entries.len(),
{
    if entries.len() == 0 {
        Seq::empty()
    } else {
        let rest = without_factures(entries.drop_last(), ids);
        if ids.contains(entries.last().facture_id) {
            rest
        } else {
            rest.push(entries.last())
        }
    }
}

/// The item states paired with their item ids, by their views.
pub open spec fn item_states_view(v: Seq<(u64, StateView)>) -> Seq<(u64, StateViewModel)> {
    v.map_values(|p: (u64, StateView)| (p.0, p.1@))
}

/// The item states shown for row `i`: those of its invoice the first time the
/// invoice id occurs among the rows, none after that.
pub open spec fn dashboard_item_states(entries: Seq<ItemState>, rows: Seq<FactureRow>, i: int) -> Seq<
    (u64, StateViewModel),
> {
    if exists|j: int| 0 <= j < i && #[trigger] rows[j].id == rows[i].id {
        Seq::empty()
    } else {
        facture_item_states(entries, rows[i].id)
    }
}

proof fn lemma_without_push(entries: Seq<ItemState>, ids: Seq<i64>, f: i64)
    ensures
        without_factures(entries, ids.push(f)) == without_factures(
            without_factures(entries, ids),
            seq![f],
        ),
    decreases entries.len(),
{
    if entries.len() > 0 {
        lemma_without_push(entries.drop_last(), ids, f);
        let e = entries.last();
        let w = without_factures(entries.drop_last(), ids);
        assert(ids.push(f).contains(e.facture_id) == (ids.contains(e.facture_id) || e.facture_id
            == f)) by {
            if ids.push(f).contains(e.facture_id) {
                let k = choose|k: int| 0 <= k < ids.push(f).len() && ids.push(f)[k] == e.facture_id;
                if k < ids.len() {
                    assert(ids[k] == e.facture_id);
                }
            }
            if ids.contains(e.facture_id) {
                let k = choose|k: int| 0 <= k < ids.len() && ids[k] == e.facture_id;
                assert(ids.push(f)[k] == e.facture_id);
            }
            if e.facture_id == f {
                assert(ids.push(f)[ids.len() as int] == f);
            }
        }
        assert(seq![f].contains(e.facture_id) == (e.facture_id == f)) by {
            if e.facture_id == f {
                assert(seq![f][0] == f);
            }
        }
        if !ids.contains(e.facture_id) {
            assert(w.push(e).drop_last() =~= w);
            assert(w.push(e).last() == e);
        }
    }
}

proof fn lemma_states_without(entries: Seq<ItemState>, ids: Seq<i64>, f: i64)
    ensures
        facture_item_states(without_factures(entries, ids), f) == (if ids.contains(f) {
            Seq::<(u64, StateViewModel)>::empty()
        } else {
            facture_item_states(entries, f)
        }),
    decreases entries.len(),
{
    if entries.len() > 0 {
        lemma_states_without(entries.drop_last(), ids, f);
        let e = entries.last();
        let w = without_factures(entries.drop_last(), ids);
        if !ids.contains(e.facture_id) {
            assert(w.push(e).drop_last() =~= w);
            assert(w.push(e).last() == e);
        }
    }
}

proof fn lemma_without_none(entries: Seq<ItemState>)
    ensures
        without_factures(entries, Seq::empty()) == entries,
    decreases entries.len(),
{
    if entries.len() > 0 {
        lemma_without_none(entries.drop_last());
        assert(entries.drop_last().push(entries.last()) =~= entries);
    }
}

/// The entries of invoice `f` as (item id, state) pairs, and the other entries.
fn split_states(entries: Vec<ItemState>, f: i64) -> (r: (Vec<(u64, StateView)>, Vec<ItemState>))
    ensures
        item_states_view(r.0@) == facture_item_states(entries@, f),
        r.1@ == without_factures(entries@, seq![f]),
{
    let ghost all = entries@;
    let len0 = entries.len();
    let mut rev = reversed(entries);
    let mut mine: Vec<(u64, StateView)> = Vec::new();
    let mut others: Vec<ItemState> = Vec::new();
    let mut i: usize = 0;
    assert(all.take(0) =~= Seq::<ItemState>::empty());
    while rev.len() > 0
        invariant
            i + rev@.len() == all.len(),
            all.len() == len0,
            forall|j: int| 0 <= j < rev@.len() ==> rev@[j] == all[all.len() - 1 - j],
            item_states_view(mine@) == facture_item_states(all.take(i as int), f),
            others@ == without_factures(all.take(i as int), seq![f]),
        decreases rev.len(),
    {
        let e = rev.pop().unwrap();
        assert(e == all[i as int]);
        assert(all.take(i + 1).drop_last() =~= all.take(i as int));
        assert(all.take(i + 1).last() == e);
        assert(seq![f].contains(e.facture_id) == (e.facture_id == f)) by {
            if e.facture_id == f {
                assert(seq![f][0] == f);
            }
        }
        if e.facture_id == f {
            let ghost before = mine@;
            let item_id = e.facture_item_id as u64;
            mine.push((item_id, e.state));
            assert(item_states_view(mine@) =~= item_states_view(before).push(
                (id_bits(e.facture_item_id), e.state@),
            ));
        } else {
            others.push(e);
        }
        i = i + 1;
    }
    assert(all.take(all.len() as int) =~= all);
    (mine, others)
}

/// The dashboard: each invoice with its client (the first remaining client
/// with the invoice's client id, taken out of `clients`) and the state of each
/// of its items, from replaying the recorded statuses in the flows of the
/// items. An invoice id met again gets no item. Errors: the statuses do not
/// replay, or an invoice's client is missing (the first such invoice).
#[verifier::loop_isolation(false)]
pub fn build_facture_dashboard_data(
    factures: Vec<FactureRow>,
    clients: Vec<ClientView>,
    facture_item_flows: Vec<ItemFactureFlowType>,
    statuts: Vec<StatutRow>,
) -> (r: Result<Vec<FactureDashboardData>, DashboardError>)
    ensures
        match replay_items(flows_view(facture_item_flows@), statuts_view(statuts@)) {
            Err(e) => r matches Err(DashboardError::Statut(x)) && x == e,
            Ok(m) => match take_clients(facture_client_ids(facture_views(factures@)), clients@) {
                Err(i) => 0 <= i < factures@.len() && (r matches Err(
                    DashboardError::ClientNotFound(c),
                ) && c.facture_id == id_bits(factures@[i].id) && c.client_id == id_bits(
                    factures@[i].client_id,
                )),
                Ok(state) => (r matches Ok(v) && v@.len() == factures@.len() && exists|
                    entries: Seq<ItemState>,
                |
                    #![trigger entries_map(entries)]
                    keys_unique(entries) && entries_map(entries) == m && forall|i: int|
                        0 <= i < v@.len() ==> #[trigger] v@[i].facture == facture_view_of(
                            factures@[i],
                        ) && v@[i].client == state.0[i] && item_states_view(v@[i].state_per_item@)
                            == dashboard_item_states(entries, factures@, i)),
            },
        },
{
    let ghost rows = factures@;
    let ghost views = facture_views(factures@);
    let ghost ids = facture_client_ids(views);
    let ghost clients0 = clients@;
    let states = match load_statuts_flow(facture_item_flows, statuts) {
        Ok(s) => s,
        Err(e) => {
            return Err(DashboardError::Statut(e));
        },
    };
    let rest0 = states.into_entries();
    let ghost e0 = rest0@;
    let mut rest = rest0;
    let mut clients = clients;
    let mut rev = reversed(factures);
    let mut out: Vec<FactureDashboardData> = Vec::new();
    let ghost mut taken: Seq<i64> = Seq::empty();
    proof {
        lemma_without_none(e0);
    }
    assert(ids.take(0) =~= Seq::<u64>::empty());
    while rev.len() > 0
        invariant
            out@.len() + rev@.len() == rows.len(),
            views == facture_views(rows),
            ids == facture_client_ids(views),
            forall|i: int| 0 <= i < rev@.len() ==> rev@[i] == rows[rows.len() - 1 - i],
            taken.len() == out@.len(),
            forall|j: int| 0 <= j < taken.len() ==> taken[j] == rows[j].id,
            rest@ == without_factures(e0, taken),
            take_clients(ids.take(out@.len() as int), clients0) matches Ok(state) && state.1
                == clients@ && state.0.len() == out@.len() && forall|i: int|
                0 <= i < out@.len() ==> #[trigger] out@[i].facture == facture_view_of(rows[i])
                    && out@[i].client == state.0[i] && item_states_view(out@[i].state_per_item@)
                    == dashboard_item_states(e0, rows, i),
        decreases rev.len(),
    {
        let ghost n = out@.len() as int;
        let row = rev.pop().unwrap();
        assert(row == rows[n]);
        let fid = row.id;
        let facture = FactureView::from(row);
        assert(facture == views[n]);
        assert(ids.take(n + 1).drop_last() =~= ids.take(n));
        assert(ids.take(n + 1).last() == facture.client_id);
        let client = match find_client(&clients, facture.client_id) {
            Some(idx) => {
                let ghost before = clients@;
                let c = clients.swap_remove(idx);
                assert(clients@ =~= swap_removed(before, idx as int));
                c
            },
            None => {
                proof {
                    lemma_take_clients_error_persists(ids, clients0, n + 1);
                }
                return Err(
                    DashboardError::ClientNotFound(
                        ClientNotFound { facture_id: facture.id, client_id: facture.client_id },
                    ),
                );
            },
        };
        let (mine, others) = split_states(rest, fid);
        proof {
            lemma_states_without(e0, taken, fid);
            lemma_without_push(e0, taken, fid);
            assert(taken.contains(fid) == (exists|j: int| 0 <= j < n && #[trigger] rows[j].id
                == rows[n].id)) by {
                if taken.contains(fid) {
                    let k = choose|k: int| 0 <= k < taken.len() && taken[k] == fid;
                    assert(rows[k].id == rows[n].id);
                }
                if exists|j: int| 0 <= j < n && #[trigger] rows[j].id == rows[n].id {
                    let j = choose|j: int| 0 <= j < n && #[trigger] rows[j].id == rows[n].id;
                    assert(taken[j] == fid);
                }
            }
            taken = taken.push(fid);
        }
        rest = others;
        out.push(FactureDashboardData { facture, client, state_per_item: mine });
    }
    assert(ids.take(rows.len() as int) =~= ids);
    Ok(out)
}

/// The pair is an item of invoice `f` with its state.
pub open spec fn is_item_of(p: (u64, StateViewModel), m: Map<(i64, i64), StateViewModel>, f: i64) -> bool {
    exists|it: i64| #![trigger m[(f, it)]] m.contains_key((f, it)) && p == (id_bits(it), m[(f, it)])
}

/// Every pair listed for invoice `f` is an item of `f` with its state.
pub open spec fn listed_are_items(
    listed: Seq<(u64, StateViewModel)>,
    m: Map<(i64, i64), StateViewModel>,
    f: i64,
) -> bool {
    forall|j: int| 0 <= j < listed.len() ==> is_item_of(#[trigger] listed[j], m, f)
}

/// Every item of invoice `f` is listed with its state.
pub open spec fn items_are_listed(
    listed: Seq<(u64, StateViewModel)>,
    m: Map<(i64, i64), StateViewModel>,
    f: i64,
) -> bool {
    forall|it: i64|
        #![trigger m[(f, it)]]
        m.contains_key((f, it)) ==> exists|j: int|
            0 <= j < listed.len() && listed[j] == (id_bits(it), m[(f, it)])
}

/// No item id is listed twice.
pub open spec fn listed_once(listed: Seq<(u64, StateViewModel)>) -> bool {
    forall|j: int, k: int|
        0 <= j < listed.len() && 0 <= k < listed.len() && j != k ==> #[trigger] listed[j].0
            != #[trigger] listed[k].0
}

proof fn lemma_step_listed_are_items(
    l0: Seq<(u64, StateViewModel)>,
    m0: Map<(i64, i64), StateViewModel>,
    e: ItemState,
    f: i64,
)
    requires
        listed_are_items(l0, m0, f),
        !m0.contains_key(entry_key(e)),
    ensures
        listed_are_items(
            if e.facture_id == f {
                l0.push((id_bits(e.facture_item_id), e.state@))
            } else {
                l0
            },
            m0.insert(entry_key(e), e.state@),
            f,
        ),
{
    let m = m0.insert(entry_key(e), e.state@);
    assert forall|j: int| 0 <= j < l0.len() implies is_item_of(#[trigger] l0[j], m, f) by {
        assert(is_item_of(l0[j], m0, f));
        let it = choose|it: i64|
            #![trigger m0[(f, it)]]
            m0.contains_key((f, it)) && l0[j] == (id_bits(it), m0[(f, it)]);
        assert(m[(f, it)] == m0[(f, it)]);
        assert(m.contains_key((f, it)));
    }
    if e.facture_id == f {
        let listed = l0.push((id_bits(e.facture_item_id), e.state@));
        let it = e.facture_item_id;
        assert(m.contains_key((f, it)));
        assert(m[(f, it)] == e.state@);
        assert forall|j: int| 0 <= j < listed.len() implies is_item_of(#[trigger] listed[j], m, f) by {
            if j < l0.len() {
                assert(listed[j] == l0[j]);
            } else {
                assert(listed[j] == (id_bits(it), m[(f, it)]));
            }
        }
    }
}

proof fn lemma_step_items_are_listed(
    l0: Seq<(u64, StateViewModel)>,
    m0: Map<(i64, i64), StateViewModel>,
    e: ItemState,
    f: i64,
)
    requires
        items_are_listed(l0, m0, f),
        !m0.contains_key(entry_key(e)),
    ensures
        items_are_listed(
            if e.facture_id == f {
                l0.push((id_bits(e.facture_item_id), e.state@))
            } else {
                l0
            },
            m0.insert(entry_key(e), e.state@),
            f,
        ),
{
    let m = m0.insert(entry_key(e), e.state@);
    let listed = if e.facture_id == f {
        l0.push((id_bits(e.facture_item_id), e.state@))
    } else {
        l0
    };
    assert forall|it: i64| #[trigger] m.contains_key((f, it)) implies exists|j: int|
        0 <= j < listed.len() && listed[j] == (id_bits(it), m[(f, it)]) by {
        if e.facture_id == f && it == e.facture_item_id {
            assert(listed[l0.len() as int] == (id_bits(it), m[(f, it)]));
        } else {
            assert(m0.contains_key((f, it)));
            assert(m[(f, it)] == m0[(f, it)]);
            let j = choose|j: int| 0 <= j < l0.len() && l0[j] == (id_bits(it), m0[(f, it)]);
            assert(listed[j] == l0[j]);
        }
    }
}

proof fn lemma_step_listed_once(
    l0: Seq<(u64, StateViewModel)>,
    m0: Map<(i64, i64), StateViewModel>,
    e: ItemState,
    f: i64,
)
    requires
        listed_are_items(l0, m0, f),
        listed_once(l0),
        !m0.contains_key(entry_key(e)),
    ensures
        listed_once(
            if e.facture_id == f {
                l0.push((id_bits(e.facture_item_id), e.state@))
            } else {
                l0
            },
        ),
{
    if e.facture_id == f {
        let listed = l0.push((id_bits(e.facture_item_id), e.state@));
        assert forall|j: int, k: int|
            0 <= j < listed.len() && 0 <= k < listed.len() && j != k implies #[trigger] listed[j].0
            != #[trigger] listed[k].0 by {
            if j < l0.len() && k < l0.len() {
                assert(listed[j] == l0[j] && listed[k] == l0[k]);
            } else {
                let other = if j < l0.len() {
                    j
                } else {
                    k
                };
                assert(listed[other] == l0[other]);
                assert(is_item_of(l0[other], m0, f));
                let it = choose|it: i64|
                    #![trigger m0[(f, it)]]
                    m0.contains_key((f, it)) && l0[other] == (id_bits(it), m0[(f, it)]);
                let x = e.facture_item_id;
                assert(it != x);
                assert(id_bits(it) != id_bits(x)) by (bit_vector)
                    requires
                        it != x,
                ;
            }
        }
    }
}

proof fn lemma_entries_last(entries: Seq<ItemState>)
    requires
        keys_unique(entries),
        entries.len() > 0,
    ensures
        keys_unique(entries.drop_last()),
        !entries_map(entries.drop_last()).contains_key(entry_key(entries.last())),
        entries_map(entries) == entries_map(entries.drop_last()).insert(
            entry_key(entries.last()),
            entries.last().state@,
        ),
{
    let s = entries.drop_last();
    let e = entries.last();
    assert forall|a: int, b: int|
        0 <= a < s.len() && 0 <= b < s.len() && a != b implies entry_key(#[trigger] s[a])
        != entry_key(#[trigger] s[b]) by {
        assert(s[a] == entries[a] && s[b] == entries[b]);
    }
    if entries_map(s).contains_key(entry_key(e)) {
        let j = choose|j: int| 0 <= j < s.len() && entry_key(s[j]) == entry_key(e);
        assert(entries[j] == s[j]);
        assert(entries[entries.len() - 1] == e);
    }
    lemma_entries_map_push(s, e);
    assert(s.push(e) =~= entries);
}

/// The items the dashboard shows for an invoice are exactly its items among
/// the replayed states, each once and with its state: for entries that hold
/// each item once, every pair listed for invoice `f` is an item of `f` with its
/// state, every item of `f` is listed, and no item id is listed twice.
pub proof fn lemma_dashboard_items_are_the_invoice_items(entries: Seq<ItemState>, f: i64)
    requires
        keys_unique(entries),
    ensures
        listed_are_items(facture_item_states(entries, f), entries_map(entries), f),
        items_are_listed(facture_item_states(entries, f), entries_map(entries), f),
        listed_once(facture_item_states(entries, f)),
    decreases entries.len(),
{
    if entries.len() == 0 {
        assert(entries_map(entries) =~= Map::<(i64, i64), StateViewModel>::empty());
    } else {
        let s = entries.drop_last();
        let e = entries.last();
        lemma_entries_last(entries);
        lemma_dashboard_items_are_the_invoice_items(s, f);
        let m0 = entries_map(s);
        let l0 = facture_item_states(s, f);
        assert(facture_item_states(entries, f) == if e.facture_id == f {
            l0.push((id_bits(e.facture_item_id), e.state@))
        } else {
            l0
        });
        lemma_step_listed_are_items(l0, m0, e, f);
        lemma_step_items_are_listed(l0, m0, e, f);
        lemma_step_listed_once(l0, m0, e, f);
    }
}

proof fn lemma_take_clients_error_persists(ids: Seq<u64>, clients: Seq<ClientView>, n: int)
    requires
        0 <= n <= ids.len(),
        take_clients(ids.take(n), clients) is Err,
    ensures
        take_clients(ids, clients) == take_clients(ids.take(n), clients),
    decreases ids.len() - n,
{
    if n == ids.len() {
        assert(ids.take(n) =~= ids);
    } else {
        assert(ids.take(n + 1).drop_last() =~= ids.take(n));
        lemma_take_clients_error_persists(ids, clients, n + 1);
    }
}

} // verus!
