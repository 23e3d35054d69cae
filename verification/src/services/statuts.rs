//! Replaying the recorded status changes of invoice items through their flows.
use vstd::prelude::*;
use crate::models::facture_items::ItemFactureFlowType;
use crate::models::statuts::{
    ask_text, is_known_flow, state_date, transitions_for,
    copy_state, State, StateModel, StateView, StateViewModel, StatutError, StatutRow,
};
use crate::text::str_equals;

verus! {

/// The first state of each known flow.
pub open spec fn initial_state_model(flow: Seq<char>) -> Option<StateModel> {
    if flow == "AlterationFlow"@ {
        Some(State::ToBeAltered)
    } else if flow == "LocationFlow"@ {
        Some(State::ToOrder)
    } else if flow == "AccessoryItemFlow"@ {
        Some(State::FloorItem)
    } else if flow == "DressFloorItemFlow"@ {
        Some(State::FloorItem)
    } else if flow == "DressToOrderFlow"@ {
        Some(State::ToOrder)
    } else {
        None
    }
}

/// The state a recorded status of type `t` leads to in `flow`, whatever the
/// state before it.
pub open spec fn next_state(
    flow: Seq<char>,
    t: Seq<char>,
    date: Seq<char>,
    seamstress: Option<Seq<char>>,
) -> Result<StateModel, StatutError> {
    if flow == "AlterationFlow"@ {
        if t == "RecordingTransfertToSeamstressDate"@ {
            match seamstress {
                Some(s) => Ok(State::GivenToSeamstress(date, s)),
                None => Err(StatutError::SeamstressRequired),
            }
        } else if t == "RecordingBackFromSeamstressDate"@ {
            Ok(State::BackFromSeamstress(date))
        } else if t == "RecordingOutDate"@ {
            Ok(State::ItemOut(date))
        } else {
            Err(StatutError::InvalidTransition)
        }
    } else if flow == "LocationFlow"@ {
        if t == "PlaceOrder"@ {
            Ok(State::Ordered(date))
        } else if t == "RecordExpectedDeliveryDate"@ {
            Ok(State::ExpectingDelivery(date))
        } else if t == "RecordReceptionDate"@ {
            Ok(State::Received(date))
        } else if t == "RecordAdjustDate"@ {
            Ok(State::WaitingAdjustment(date))
        } else if t == "RecordingTransfertToSeamstressDate"@ {
            Ok(State::WaitingForSeamstress(date))
        } else if t == "RecordingBackFromSeamstressDate"@ {
            Ok(State::BackFromSeamstress(date))
        } else if t == "RecordingOutForLocationDate"@ {
            Ok(State::OutForLocation(date))
        } else if t == "RecordingClientReturnDate"@ {
            Ok(State::BackFromLocation(date))
        } else if t == "RecordingOutDate"@ {
            Ok(State::LocationOut(date))
        } else {
            Err(StatutError::InvalidTransition)
        }
    } else if flow == "AccessoryItemFlow"@ || flow == "DressFloorItemFlow"@ {
        if t == "TransfertToAlteration"@ {
            Ok(State::TransferredToAlteration(date))
        } else if t == "RecordingOutDate"@ {
            Ok(State::ItemOut(date))
        } else {
            Err(StatutError::InvalidTransition)
        }
    } else if flow == "DressToOrderFlow"@ {
        if t == "RecordingBackOrderDate"@ {
            Ok(State::BackOrder(date))
        } else if t == "PlaceOrder"@ {
            Ok(State::Ordered(date))
        } else if t == "RecordExpectedDeliveryDate"@ {
            Ok(State::ExpectingDelivery(date))
        } else if t == "RecordReceptionDate"@ {
            Ok(State::Received(date))
        } else if t == "RecordingOutDate"@ {
            Ok(State::ItemOut(date))
        } else if t == "RecordingCancelDate"@ {
            Ok(State::Cancelled(date))
        } else if t == "TransfertToAlteration"@ {
            Ok(State::TransferredToAlteration(date))
        } else {
            Err(StatutError::InvalidTransition)
        }
    } else {
        Err(StatutError::UnsupportedFlowType)
    }
}

/// The view of an item state with no history yet.
pub open spec fn fresh_view(flow: Seq<char>, s: StateModel) -> StateViewModel {
    StateViewModel { current: s, previous: Seq::empty(), flow }
}

/// The view after moving to `next`: the current state joins the history.
pub open spec fn advance(v: StateViewModel, next: StateModel) -> StateViewModel {
    StateViewModel { current: next, previous: v.previous.push(v.current), flow: v.flow }
}

/// A recorded status as values.
pub struct StatutModel {
    pub facture_id: i64,
    pub facture_item_id: i64,
    pub statut_type: Seq<char>,
    pub date: Seq<char>,
    pub seamstress: Option<Seq<char>>,
}

impl View for StatutRow {
    type V = StatutModel;

    open spec fn view(&self) -> StatutModel {
        StatutModel {
            facture_id: self.facture_id,
            facture_item_id: self.facture_item_id,
            statut_type: self.statut_type@,
            date: self.date@,
            seamstress: self.seamstress.deep_view(),
        }
    }
}

/// The item that a recorded status belongs to.
pub open spec fn item_key(s: StatutModel) -> (i64, i64) {
    (s.facture_id, s.facture_item_id)
}

/// One recorded status applied to an item state (the flow is the item's).
pub open spec fn step(v: StateViewModel, s: StatutModel) -> Result<StateViewModel, StatutError> {
    match next_state(v.flow, s.statut_type, s.date, s.seamstress) {
        Ok(n) => Ok(advance(v, n)),
        Err(e) => Err(e),
    }
}

/// The views of a list of recorded statuses.
pub open spec fn statuts_view(v: Seq<StatutRow>) -> Seq<StatutModel> {
    v.map_values(|r: StatutRow| r@)
}

/// Replays `statuts`, in order, from the first state of `flow`.
pub open spec fn replay(flow: Seq<char>, statuts: Seq<StatutModel>) -> Result<
    StateViewModel,
    StatutError,
>
    decreases statuts.len(),
{
    if statuts.len() == 0 {
        match initial_state_model(flow) {
            Some(s) => Ok(fresh_view(flow, s)),
            None => Err(StatutError::UnsupportedFlowType),
        }
    } else {
        match replay(flow, statuts.drop_last()) {
            Ok(v) => step(v, statuts.last()),
            Err(e) => Err(e),
        }
    }
}

/// The first state of every item of `flows`, keyed by (invoice, item); a later
/// flow for the same item replaces an earlier one.
pub open spec fn initial_states(flows: Seq<(i64, i64, Seq<char>)>) -> Result<
    Map<(i64, i64), StateViewModel>,
    StatutError,
>
    decreases flows.len(),
{
    if flows.len() == 0 {
        Ok(Map::empty())
    } else {
        let f = flows.last();
        match initial_states(flows.drop_last()) {
            Ok(m) => match initial_state_model(f.2) {
                Some(s) => Ok(m.insert((f.0, f.1), fresh_view(f.2, s))),
                None => Err(StatutError::UnsupportedFlowType),
            },
            Err(e) => Err(e),
        }
    }
}

/// One recorded status applied to the item it belongs to.
pub open spec fn step_all(m: Map<(i64, i64), StateViewModel>, s: StatutModel) -> Result<
    Map<(i64, i64), StateViewModel>,
    StatutError,
> {
    let k = item_key(s);
    if m.contains_key(k) {
        match step(m[k], s) {
            Ok(v) => Ok(m.insert(k, v)),
            Err(e) => Err(e),
        }
    } else {
        Err(StatutError::NoStateRecorded(s.facture_id, s.facture_item_id))
    }
}

/// Replays all `statuts`, in order, over the states in `m`.
pub open spec fn replay_all(m: Map<(i64, i64), StateViewModel>, statuts: Seq<StatutModel>) -> Result<
    Map<(i64, i64), StateViewModel>,
    StatutError,
>
    decreases statuts.len(),
{
    if statuts.len() == 0 {
        Ok(m)
    } else {
        match replay_all(m, statuts.drop_last()) {
            Ok(m2) => step_all(m2, statuts.last()),
            Err(e) => Err(e),
        }
    }
}

/// The views of a list of item flows.
pub open spec fn flows_view(v: Seq<ItemFactureFlowType>) -> Seq<(i64, i64, Seq<char>)> {
    v.map_values(|f: ItemFactureFlowType| (f.facture_id, f.facture_item_id, f.flow_type@))
}

/// The states of all items after replaying their statuses.
pub open spec fn replay_items(flows: Seq<(i64, i64, Seq<char>)>, statuts: Seq<StatutModel>) -> Result<
    Map<(i64, i64), StateViewModel>,
    StatutError,
> {
    match initial_states(flows) {
        Ok(m) => replay_all(m, statuts),
        Err(e) => Err(e),
    }
}

/// The first state of a flow, as an item state with no history.
pub fn initial_state(flow_type: &str) -> (r: Result<StateView, StatutError>)
    ensures
        match r {
            Ok(v) => initial_state_model(flow_type@) matches Some(s) && v@ == fresh_view(
                flow_type@,
                s,
            ),
            Err(e) => initial_state_model(flow_type@) is None && e
                == StatutError::UnsupportedFlowType,
        },
{
    let state: State<String, String> = if str_equals(flow_type, "AlterationFlow") {
        State::ToBeAltered
    } else if str_equals(flow_type, "LocationFlow") {
        State::ToOrder
    } else if str_equals(flow_type, "AccessoryItemFlow") {
        State::FloorItem
    } else if str_equals(flow_type, "DressFloorItemFlow") {
        State::FloorItem
    } else if str_equals(flow_type, "DressToOrderFlow") {
        State::ToOrder
    } else {
        return Err(StatutError::UnsupportedFlowType);
    };
    let v = StateView {
        current_state: state,
        previous_states: Vec::new(),
        item_flow: flow_type.to_string(),
    };
    assert(v@.previous =~= Seq::<StateModel>::empty());
    Ok(v)
}

/// The state that a status of type `t`, recorded on `date`, leads to in `flow`.
pub fn compute_next_state(flow: &str, t: &str, date: String, seamstress: Option<String>) -> (r:
    Result<State<String, String>, StatutError>)
    ensures
        match r {
            Ok(s) => next_state(flow@, t@, date@, seamstress.deep_view()) == Ok::<
                StateModel,
                StatutError,
            >(s@),
            Err(e) => next_state(flow@, t@, date@, seamstress.deep_view()) == Err::<
                StateModel,
                StatutError,
            >(e),
        },
{
    if str_equals(flow, "AlterationFlow") {
        if str_equals(t, "RecordingTransfertToSeamstressDate") {
            match seamstress {
                Some(s) => Ok(State::GivenToSeamstress(date, s)),
                None => Err(StatutError::SeamstressRequired),
            }
        } else if str_equals(t, "RecordingBackFromSeamstressDate") {
            Ok(State::BackFromSeamstress(date))
        } else if str_equals(t, "RecordingOutDate") {
            Ok(State::ItemOut(date))
        } else {
            Err(StatutError::InvalidTransition)
        }
    } else if str_equals(flow, "LocationFlow") {
        if str_equals(t, "PlaceOrder") {
            Ok(State::Ordered(date))
        } else if str_equals(t, "RecordExpectedDeliveryDate") {
            Ok(State::ExpectingDelivery(date))
        } else if str_equals(t, "RecordReceptionDate") {
            Ok(State::Received(date))
        } else if str_equals(t, "RecordAdjustDate") {
            Ok(State::WaitingAdjustment(date))
        } else if str_equals(t, "RecordingTransfertToSeamstressDate") {
            Ok(State::WaitingForSeamstress(date))
        } else if str_equals(t, "RecordingBackFromSeamstressDate") {
            Ok(State::BackFromSeamstress(date))
        } else if str_equals(t, "RecordingOutForLocationDate") {
            Ok(State::OutForLocation(date))
        } else if str_equals(t, "RecordingClientReturnDate") {
            Ok(State::BackFromLocation(date))
        } else if str_equals(t, "RecordingOutDate") {
            Ok(State::LocationOut(date))
        } else {
            Err(StatutError::InvalidTransition)
        }
    } else if str_equals(flow, "AccessoryItemFlow") || str_equals(flow, "DressFloorItemFlow") {
        if str_equals(t, "TransfertToAlteration") {
            Ok(State::TransferredToAlteration(date))
        } else if str_equals(t, "RecordingOutDate") {
            Ok(State::ItemOut(date))
        } else {
            Err(StatutError::InvalidTransition)
        }
    } else if str_equals(flow, "DressToOrderFlow") {
        if str_equals(t, "RecordingBackOrderDate") {
            Ok(State::BackOrder(date))
        } else if str_equals(t, "PlaceOrder") {
            Ok(State::Ordered(date))
        } else if str_equals(t, "RecordExpectedDeliveryDate") {
            Ok(State::ExpectingDelivery(date))
        } else if str_equals(t, "RecordReceptionDate") {
            Ok(State::Received(date))
        } else if str_equals(t, "RecordingOutDate") {
            Ok(State::ItemOut(date))
        } else if str_equals(t, "RecordingCancelDate") {
            Ok(State::Cancelled(date))
        } else if str_equals(t, "TransfertToAlteration") {
            Ok(State::TransferredToAlteration(date))
        } else {
            Err(StatutError::InvalidTransition)
        }
    } else {
        Err(StatutError::UnsupportedFlowType)
    }
}

/// Moves an item state to `next`, keeping the current state in its history.
pub fn advance_view(state: &StateView, next: State<String, String>) -> (r: StateView)
    ensures
        r@ == advance(state@, next@),
{
    let copied = state.copy();
    let mut previous = copied.previous_states;
    previous.push(copy_state(&state.current_state));
    let r = StateView { current_state: next, previous_states: previous, item_flow: copied.item_flow };
    assert(r@.previous =~= state@.previous.push(state@.current));
    r
}

/// Applies one recorded status to the state of its item, following `flow_type`.
fn apply_statut(flow_type: &str, statut: &StatutRow, state: &StateView) -> (r: Result<
    StateView,
    StatutError,
>)
    requires
        state@.flow == flow_type@,
    ensures
        match r {
            Ok(v) => step(state@, statut@) == Ok::<StateViewModel, StatutError>(v@),
            Err(e) => step(state@, statut@) == Err::<StateViewModel, StatutError>(e),
        },
{
    let next = compute_next_state(
        flow_type,
        statut.statut_type.as_str(),
        statut.date.clone(),
        statut.seamstress.clone(),
    );
    match next {
        Ok(n) => Ok(advance_view(state, n)),
        Err(e) => Err(e),
    }
}

/// The state of one item after replaying its recorded statuses in order.
pub fn load_one_item_statuts_flow(facture_item_flow_type: ItemFactureFlowType, data: Vec<
    StatutRow,
>) -> (r: Result<StateView, StatutError>)
    ensures
        match r {
            Ok(v) => replay(facture_item_flow_type.flow_type@, statuts_view(data@)) == Ok::<
                StateViewModel,
                StatutError,
            >(v@),
            Err(e) => replay(facture_item_flow_type.flow_type@, statuts_view(data@)) == Err::<
                StateViewModel,
                StatutError,
            >(e),
        },
{
    let flow = facture_item_flow_type.flow_type.as_str();
    let ghost fv = flow@;
    let ghost sv = statuts_view(data@);
    let mut state = match initial_state(flow) {
        Ok(s) => s,
        Err(e) => {
            proof {
                lemma_replay_fails_on_unknown_flow(fv, sv);
            }
            return Err(e);
        },
    };
    assert(sv.take(0) =~= Seq::<StatutModel>::empty());
    let mut i: usize = 0;
    while i < data.len()
        invariant
            0 <= i <= data.len(),
            fv == flow@,
            fv == facture_item_flow_type.flow_type@,
            sv == statuts_view(data@),
            state@.flow == fv,
            replay(fv, sv.take(i as int)) == Ok::<StateViewModel, StatutError>(state@),
        decreases data.len() - i,
    {
        assert(sv.take(i + 1).drop_last() =~= sv.take(i as int));
        assert(sv.take(i + 1).last() == data@[i as int]@);
        let next = apply_statut(flow, &data[i], &state);
        match next {
            Ok(n) => {
                state = n;
            },
            Err(e) => {
                proof {
                    lemma_replay_error_persists(fv, sv, i as int + 1);
                }
                return Err(e);
            },
        }
        i = i + 1;
    }
    assert(sv.take(data.len() as int) =~= sv);
    Ok(state)
}

proof fn lemma_replay_fails_on_unknown_flow(flow: Seq<char>, statuts: Seq<StatutModel>)
    requires
        initial_state_model(flow) is None,
    ensures
        replay(flow, statuts) == Err::<StateViewModel, StatutError>(
            StatutError::UnsupportedFlowType,
        ),
    decreases statuts.len(),
{
    if statuts.len() > 0 {
        lemma_replay_fails_on_unknown_flow(flow, statuts.drop_last());
    }
}

/// Once replaying a prefix fails, replaying the whole list fails the same way.
proof fn lemma_replay_error_persists(flow: Seq<char>, statuts: Seq<StatutModel>, n: int)
    requires
        0 <= n <= statuts.len(),
        replay(flow, statuts.take(n)) is Err,
    ensures
        replay(flow, statuts) == replay(flow, statuts.take(n)),
    decreases statuts.len() - n,
{
    if n == statuts.len() {
        assert(statuts.take(n) =~= statuts);
    } else {
        assert(statuts.take(n + 1).drop_last() =~= statuts.take(n));
        lemma_replay_error_persists(flow, statuts, n + 1);
    }
}

} // verus!

verus! {

/// The state of one item, with the item it belongs to.
pub struct ItemState {
    pub facture_id: i64,
    pub facture_item_id: i64,
    pub state: StateView,
}

/// The states of many items, each item once.
pub struct ItemStates {
    entries: Vec<ItemState>,
}

/// The item of an entry.
pub open spec fn entry_key(e: ItemState) -> (i64, i64) {
    (e.facture_id, e.facture_item_id)
}

/// No two entries are for the same item.
pub open spec fn keys_unique(s: Seq<ItemState>) -> bool {
    forall|i: int, j: int|
        0 <= i < s.len() && 0 <= j < s.len() && i != j ==> entry_key(#[trigger] s[i]) != entry_key(
            #[trigger] s[j],
        )
}

/// The states of a list of entries, keyed by item.
pub open spec fn entries_map(s: Seq<ItemState>) -> Map<(i64, i64), StateViewModel> {
    Map::new(
        |k: (i64, i64)| exists|i: int| 0 <= i < s.len() && entry_key(s[i]) == k,
        |k: (i64, i64)| s[choose|i: int| 0 <= i < s.len() && entry_key(s[i]) == k].state@,
    )
}

pub(crate) proof fn lemma_entries_map_at(s: Seq<ItemState>, i: int)
    requires
        keys_unique(s),
        0 <= i < s.len(),
    ensures
        entries_map(s).contains_key(entry_key(s[i])),
        entries_map(s)[entry_key(s[i])] == s[i].state@,
{
    let k = entry_key(s[i]);
    assert(exists|j: int| 0 <= j < s.len() && entry_key(s[j]) == k);
    let j = choose|j: int| 0 <= j < s.len() && entry_key(s[j]) == k;
    assert(j == i);
}

proof fn lemma_entries_map_update(s: Seq<ItemState>, i: int, e: ItemState)
    requires
        keys_unique(s),
        0 <= i < s.len(),
        entry_key(e) == entry_key(s[i]),
    ensures
        keys_unique(s.update(i, e)),
        entries_map(s.update(i, e)) == entries_map(s).insert(entry_key(e), e.state@),
{
    let t = s.update(i, e);
    assert forall|a: int, b: int|
        0 <= a < t.len() && 0 <= b < t.len() && a != b implies entry_key(#[trigger] t[a])
        != entry_key(#[trigger] t[b]) by {
        assert(entry_key(t[a]) == entry_key(s[a]));
        assert(entry_key(t[b]) == entry_key(s[b]));
    }
    let m1 = entries_map(t);
    let m2 = entries_map(s).insert(entry_key(e), e.state@);
    assert forall|k: (i64, i64)| m1.contains_key(k) == m2.contains_key(k) by {
        if m1.contains_key(k) {
            let j = choose|j: int| 0 <= j < t.len() && entry_key(t[j]) == k;
            assert(entry_key(s[j]) == k);
        }
        if entries_map(s).contains_key(k) {
            let j = choose|j: int| 0 <= j < s.len() && entry_key(s[j]) == k;
            assert(entry_key(t[j]) == k);
        }
        if k == entry_key(e) {
            assert(entry_key(t[i]) == k);
        }
    }
    assert forall|k: (i64, i64)| m1.contains_key(k) implies m1[k] == m2[k] by {
        let j = choose|j: int| 0 <= j < t.len() && entry_key(t[j]) == k;
        lemma_entries_map_at(t, j);
        if j == i {
            assert(t[j] == e);
        } else {
            assert(t[j] == s[j]);
            lemma_entries_map_at(s, j);
        }
    }
    assert(m1 =~= m2);
}

proof fn lemma_entries_map_swap_remove(s: Seq<ItemState>, i: int)
    requires
        keys_unique(s),
        0 <= i < s.len(),
    ensures
        keys_unique(s.update(i, s.last()).drop_last()),
        entries_map(s.update(i, s.last()).drop_last()) == entries_map(s).remove(entry_key(s[i])),
{
    let t = s.update(i, s.last()).drop_last();
    let last = s.len() - 1;
    // Position in `s` of each entry of `t`.
    assert forall|a: int| 0 <= a < t.len() implies #[trigger] t[a] == s[if a == i {
        last
    } else {
        a
    }] by {}
    assert forall|a: int, b: int|
        0 <= a < t.len() && 0 <= b < t.len() && a != b implies entry_key(#[trigger] t[a])
        != entry_key(#[trigger] t[b]) by {
        let pa = if a == i { last } else { a };
        let pb = if b == i { last } else { b };
        assert(t[a] == s[pa]);
        assert(t[b] == s[pb]);
    }
    let m1 = entries_map(t);
    let m2 = entries_map(s).remove(entry_key(s[i]));
    assert forall|k: (i64, i64)| m1.contains_key(k) == m2.contains_key(k) by {
        if m1.contains_key(k) {
            let j = choose|j: int| 0 <= j < t.len() && entry_key(t[j]) == k;
            let pj = if j == i { last } else { j };
            assert(t[j] == s[pj]);
            assert(pj != i);
            assert(entries_map(s).contains_key(k));
        }
        if m2.contains_key(k) {
            let j = choose|j: int| 0 <= j < s.len() && entry_key(s[j]) == k;
            assert(j != i);
            if j == last {
                assert(t[i] == s[last]);
                assert(entry_key(t[i]) == k);
            } else {
                assert(t[j] == s[j]);
                assert(entry_key(t[j]) == k);
            }
        }
    }
    assert forall|k: (i64, i64)| m1.contains_key(k) implies m1[k] == m2[k] by {
        let j = choose|j: int| 0 <= j < t.len() && entry_key(t[j]) == k;
        let pj = if j == i { last } else { j };
        assert(t[j] == s[pj]);
        lemma_entries_map_at(t, j);
        lemma_entries_map_at(s, pj);
    }
    assert(m1 =~= m2);
}

pub(crate) proof fn lemma_entries_map_push(s: Seq<ItemState>, e: ItemState)
    requires
        keys_unique(s),
        !entries_map(s).contains_key(entry_key(e)),
    ensures
        keys_unique(s.push(e)),
        entries_map(s.push(e)) == entries_map(s).insert(entry_key(e), e.state@),
{
    let t = s.push(e);
    assert forall|a: int, b: int|
        0 <= a < t.len() && 0 <= b < t.len() && a != b implies entry_key(#[trigger] t[a])
        != entry_key(#[trigger] t[b]) by {
        if a == s.len() {
            assert(entry_key(s[b]) == entry_key(t[b]));
            if entry_key(s[b]) == entry_key(e) {
                assert(entries_map(s).contains_key(entry_key(e)));
            }
        } else if b == s.len() {
            assert(entry_key(s[a]) == entry_key(t[a]));
            if entry_key(s[a]) == entry_key(e) {
                assert(entries_map(s).contains_key(entry_key(e)));
            }
        } else {
            assert(t[a] == s[a] && t[b] == s[b]);
        }
    }
    let m1 = entries_map(t);
    let m2 = entries_map(s).insert(entry_key(e), e.state@);
    assert forall|k: (i64, i64)| m1.contains_key(k) == m2.contains_key(k) by {
        if m1.contains_key(k) {
            let j = choose|j: int| 0 <= j < t.len() && entry_key(t[j]) == k;
            if j < s.len() {
                assert(entry_key(s[j]) == k);
            }
        }
        if entries_map(s).contains_key(k) {
            let j = choose|j: int| 0 <= j < s.len() && entry_key(s[j]) == k;
            assert(entry_key(t[j]) == k);
        }
        if k == entry_key(e) {
            assert(entry_key(t[s.len() as int]) == k);
        }
    }
    assert forall|k: (i64, i64)| m1.contains_key(k) implies m1[k] == m2[k] by {
        let j = choose|j: int| 0 <= j < t.len() && entry_key(t[j]) == k;
        lemma_entries_map_at(t, j);
        if j < s.len() {
            assert(t[j] == s[j]);
            lemma_entries_map_at(s, j);
        }
    }
    assert(m1 =~= m2);
}

impl ItemStates {
    #[verifier::type_invariant]
    spec fn inv(self) -> bool {
        keys_unique(self.entries@)
    }

    /// The state of each item, keyed by (invoice, item).
    pub closed spec fn view(&self) -> Map<(i64, i64), StateViewModel> {
        entries_map(self.entries@)
    }

    /// No item yet.
    pub fn new() -> (r: ItemStates)
        ensures
            r.view() == Map::<(i64, i64), StateViewModel>::empty(),
    {
        let r = ItemStates { entries: Vec::new() };
        assert(entries_map(r.entries@) =~= Map::<(i64, i64), StateViewModel>::empty());
        r
    }

    /// The number of items.
    pub fn len(&self) -> (r: usize)
        ensures
            r == self.view().len(),
    {
        proof {
            use_type_invariant(self);
            self.lemma_len();
        }
        self.entries.len()
    }

    proof fn lemma_len(&self)
        requires
            keys_unique(self.entries@),
        ensures
            self.view().len() == self.entries@.len(),
            self.view().dom().finite(),
    {
        let s = self.entries@;
        let keys = s.map_values(|e: ItemState| entry_key(e));
        assert(keys.no_duplicates()) by {
            assert forall|i: int, j: int| 0 <= i < keys.len() && 0 <= j < keys.len() && i != j implies keys[i] != keys[j] by {
                assert(keys[i] == entry_key(s[i]));
                assert(keys[j] == entry_key(s[j]));
            }
        }
        keys.unique_seq_to_set();
        assert(self.view().dom() =~= keys.to_set()) by {
            assert forall|k: (i64, i64)| self.view().dom().contains(k) <==> keys.to_set().contains(k) by {
                if self.view().dom().contains(k) {
                    let j = choose|j: int| 0 <= j < s.len() && entry_key(s[j]) == k;
                    assert(keys[j] == k);
                }
                if keys.to_set().contains(k) {
                    let j = choose|j: int| 0 <= j < keys.len() && keys[j] == k;
                    assert(entry_key(s[j]) == k);
                }
            }
        }
    }

    fn find(&self, facture_id: i64, facture_item_id: i64) -> (r: Option<usize>)
        ensures
            match r {
                Some(i) => i < self.entries@.len() && entry_key(self.entries@[i as int]) == (
                    facture_id,
                    facture_item_id,
                ),
                None => !self.view().contains_key((facture_id, facture_item_id)),
            },
    {
        let mut i: usize = 0;
        while i < self.entries.len()
            invariant
                i <= self.entries@.len(),
                forall|j: int|
                    0 <= j < i ==> entry_key(#[trigger] self.entries@[j]) != (
                        facture_id,
                        facture_item_id,
                    ),
            decreases self.entries.len() - i,
        {
            let e = &self.entries[i];
            if e.facture_id == facture_id && e.facture_item_id == facture_item_id {
                return Some(i);
            }
            i = i + 1;
        }
        None
    }

    /// The state of an item, if it is known.
    pub fn get(&self, key: &(i64, i64)) -> (r: Option<&StateView>)
        ensures
            match r {
                Some(v) => self.view().contains_key(*key) && v@ == self.view()[*key],
                None => !self.view().contains_key(*key),
            },
    {
        proof {
            use_type_invariant(self);
        }
        match self.find(key.0, key.1) {
            Some(i) => {
                proof {
                    lemma_entries_map_at(self.entries@, i as int);
                }
                Some(&self.entries[i].state)
            },
            None => None,
        }
    }

    /// These states with the state of one item set, replacing the one it had.
    pub fn with_state(self, facture_id: i64, facture_item_id: i64, state: StateView) -> (r:
        ItemStates)
        ensures
            r.view() == self.view().insert((facture_id, facture_item_id), state@),
    {
        proof {
            use_type_invariant(&self);
        }
        let e = ItemState { facture_id, facture_item_id, state };
        let found = self.find(facture_id, facture_item_id);
        let ItemStates { mut entries } = self;
        match found {
            Some(i) => {
                proof {
                    lemma_entries_map_update(entries@, i as int, e);
                }
                entries.set(i, e);
            },
            None => {
                proof {
                    lemma_entries_map_push(entries@, e);
                }
                entries.push(e);
            },
        }
        ItemStates { entries }
    }

    /// These states without the state of one item, and that state if the item
    /// had one.
    pub fn remove(self, facture_id: i64, facture_item_id: i64) -> (r: (ItemStates, Option<
        StateView,
    >))
        ensures
            r.0.view() == self.view().remove((facture_id, facture_item_id)),
            match r.1 {
                Some(v) => self.view().contains_key((facture_id, facture_item_id)) && v@
                    == self.view()[(facture_id, facture_item_id)],
                None => !self.view().contains_key((facture_id, facture_item_id)),
            },
    {
        proof {
            use_type_invariant(&self);
        }
        let found = self.find(facture_id, facture_item_id);
        let ItemStates { mut entries } = self;
        match found {
            Some(i) => {
                let ghost before = entries@;
                proof {
                    lemma_entries_map_at(before, i as int);
                    lemma_entries_map_swap_remove(before, i as int);
                }
                let e = entries.swap_remove(i);
                assert(entries@ =~= before.update(i as int, before.last()).drop_last());
                (ItemStates { entries }, Some(e.state))
            },
            None => {
                let ghost before = entries@;
                assert(entries_map(before).remove((facture_id, facture_item_id)) =~= entries_map(
                    before,
                ));
                (ItemStates { entries }, None)
            },
        }
    }

    /// The states with the items they belong to, each item once.
    pub fn into_entries(self) -> (r: Vec<ItemState>)
        ensures
            keys_unique(r@),
            entries_map(r@) == self.view(),
    {
        proof {
            use_type_invariant(&self);
        }
        self.entries
    }
}

/// The state of every item after replaying all recorded statuses, each in the
/// flow of its item. An error when a flow is unknown, when a status belongs to
/// an item with no flow, or when a flow refuses a status.
pub fn load_statuts_flow(facture_item_flows: Vec<ItemFactureFlowType>, data: Vec<StatutRow>) -> (r:
    Result<ItemStates, StatutError>)
    ensures
        match r {
            Ok(m) => replay_items(flows_view(facture_item_flows@), statuts_view(data@)) == Ok::<
                Map<(i64, i64), StateViewModel>,
                StatutError,
            >(m.view()),
            Err(e) => replay_items(flows_view(facture_item_flows@), statuts_view(data@)) == Err::<
                Map<(i64, i64), StateViewModel>,
                StatutError,
            >(e),
        },
{
    let ghost fl = flows_view(facture_item_flows@);
    let ghost sv = statuts_view(data@);
    let mut states = ItemStates::new();
    let mut i: usize = 0;
    assert(fl.take(0) =~= Seq::<(i64, i64, Seq<char>)>::empty());
    while i < facture_item_flows.len()
        invariant
            i <= facture_item_flows.len(),
            fl == flows_view(facture_item_flows@),
            initial_states(fl.take(i as int)) == Ok::<
                Map<(i64, i64), StateViewModel>,
                StatutError,
            >(states.view()),
        decreases facture_item_flows.len() - i,
    {
        let f = &facture_item_flows[i];
        assert(fl.take(i + 1).drop_last() =~= fl.take(i as int));
        assert(fl.take(i + 1).last() == (f.facture_id, f.facture_item_id, f.flow_type@));
        match initial_state(f.flow_type.as_str()) {
            Ok(s) => {
                states = states.with_state(f.facture_id, f.facture_item_id, s);
            },
            Err(e) => {
                proof {
                    lemma_initial_states_error_persists(fl, i as int + 1);
                }
                return Err(e);
            },
        }
        i = i + 1;
    }
    assert(fl.take(facture_item_flows.len() as int) =~= fl);
    let ghost m0 = states.view();
    let mut j: usize = 0;
    assert(sv.take(0) =~= Seq::<StatutModel>::empty());
    while j < data.len()
        invariant
            j <= data.len(),
            sv == statuts_view(data@),
            fl == flows_view(facture_item_flows@),
            initial_states(fl) == Ok::<Map<(i64, i64), StateViewModel>, StatutError>(m0),
            replay_all(m0, sv.take(j as int)) == Ok::<Map<(i64, i64), StateViewModel>, StatutError>(
                states.view(),
            ),
        decreases data.len() - j,
    {
        let statut = &data[j];
        assert(sv.take(j + 1).drop_last() =~= sv.take(j as int));
        assert(sv.take(j + 1).last() == statut@);
        let found = states.get(&(statut.facture_id, statut.facture_item_id));
        match found {
            Some(current) => {
                let next = apply_statut(current.item_flow.as_str(), statut, current);
                match next {
                    Ok(n) => {
                        states = states.with_state(statut.facture_id, statut.facture_item_id, n);
                    },
                    Err(e) => {
                        proof {
                            lemma_replay_all_error_persists(m0, sv, j as int + 1);
                        }
                        return Err(e);
                    },
                }
            },
            None => {
                proof {
                    lemma_replay_all_error_persists(m0, sv, j as int + 1);
                }
                return Err(StatutError::NoStateRecorded(statut.facture_id, statut.facture_item_id));
            },
        }
        j = j + 1;
    }
    assert(sv.take(data.len() as int) =~= sv);
    Ok(states)
}

proof fn lemma_initial_states_error_persists(flows: Seq<(i64, i64, Seq<char>)>, n: int)
    requires
        0 <= n <= flows.len(),
        initial_states(flows.take(n)) is Err,
    ensures
        initial_states(flows) == initial_states(flows.take(n)),
    decreases flows.len() - n,
{
    if n == flows.len() {
        assert(flows.take(n) =~= flows);
    } else {
        assert(flows.take(n + 1).drop_last() =~= flows.take(n));
        lemma_initial_states_error_persists(flows, n + 1);
    }
}

proof fn lemma_replay_all_error_persists(
    m: Map<(i64, i64), StateViewModel>,
    statuts: Seq<StatutModel>,
    n: int,
)
    requires
        0 <= n <= statuts.len(),
        replay_all(m, statuts.take(n)) is Err,
    ensures
        replay_all(m, statuts) == replay_all(m, statuts.take(n)),
    decreases statuts.len() - n,
{
    if n == statuts.len() {
        assert(statuts.take(n) =~= statuts);
    } else {
        assert(statuts.take(n + 1).drop_last() =~= statuts.take(n));
        lemma_replay_all_error_persists(m, statuts, n + 1);
    }
}

} // verus!

verus! {

/// An item state with no history, in the first state of its flow.
pub open spec fn is_fresh(v: StateViewModel) -> bool {
    &&& initial_state_model(v.flow) == Some(v.current)
    &&& v.previous == Seq::<StateModel>::empty()
}

/// The statuses recorded for item `k`.
pub open spec fn for_item(k: (i64, i64)) -> spec_fn(StatutModel) -> bool {
    |s: StatutModel| item_key(s) == k
}

proof fn lemma_initial_states_fresh(flows: Seq<(i64, i64, Seq<char>)>)
    requires
        initial_states(flows) is Ok,
    ensures
        forall|k: (i64, i64)| #[trigger]
            initial_states(flows)->Ok_0.contains_key(k) ==> is_fresh(initial_states(flows)->Ok_0[k]),
    decreases flows.len(),
{
    if flows.len() > 0 {
        lemma_initial_states_fresh(flows.drop_last());
    }
}

proof fn lemma_replay_all_per_item(m0: Map<(i64, i64), StateViewModel>, statuts: Seq<StatutModel>)
    requires
        forall|k: (i64, i64)| #[trigger]
            m0.contains_key(k) ==> is_fresh(m0[k]),
        replay_all(m0, statuts) is Ok,
    ensures
        replay_all(m0, statuts)->Ok_0.dom() == m0.dom(),
        forall|k: (i64, i64)| #[trigger]
            replay_all(m0, statuts)->Ok_0.contains_key(k) ==> replay_all(m0, statuts)->Ok_0[k].flow
                == m0[k].flow && replay(m0[k].flow, statuts.filter(for_item(k))) == Ok::<
                StateViewModel,
                StatutError,
            >(replay_all(m0, statuts)->Ok_0[k]),
    decreases statuts.len(),
{
    reveal(Seq::filter);
    let m = replay_all(m0, statuts)->Ok_0;
    if statuts.len() == 0 {
        assert forall|k: (i64, i64)| #[trigger] m.contains_key(k) implies m[k].flow == m0[k].flow
            && replay(m0[k].flow, statuts.filter(for_item(k))) == Ok::<
            StateViewModel,
            StatutError,
        >(m[k]) by {
            assert(statuts.filter(for_item(k)) =~= Seq::<StatutModel>::empty());
        }
    } else {
        let t = statuts.drop_last();
        let x = statuts.last();
        lemma_replay_all_per_item(m0, t);
        let m1 = replay_all(m0, t)->Ok_0;
        let kx = item_key(x);
        assert(m1.contains_key(kx));
        assert(m.dom() =~= m0.dom()) by {
            assert(m.dom() =~= m1.dom().insert(kx));
        }
        assert forall|k: (i64, i64)| #[trigger] m.contains_key(k) implies m[k].flow == m0[k].flow
            && replay(m0[k].flow, statuts.filter(for_item(k))) == Ok::<
            StateViewModel,
            StatutError,
        >(m[k]) by {
            assert(statuts.filter(for_item(k)) == if for_item(k)(x) {
                t.filter(for_item(k)).push(x)
            } else {
                t.filter(for_item(k))
            });
            if k == kx {
                let f = m0[k].flow;
                let u = t.filter(for_item(k)).push(x);
                assert(u.drop_last() =~= t.filter(for_item(k)));
                assert(u.last() == x);
            }
        }
    }
}

/// Replaying the statuses of all items at once gives each item the state that
/// replaying its own statuses, in the same order, gives from the first state of
/// its flow; and it knows exactly the items that have a flow.
pub proof fn lemma_all_items_agree_with_each_item(
    flows: Seq<(i64, i64, Seq<char>)>,
    statuts: Seq<StatutModel>,
    k: (i64, i64),
)
    requires
        replay_items(flows, statuts) is Ok,
    ensures
        replay_items(flows, statuts)->Ok_0.contains_key(k) <==> exists|i: int|
            0 <= i < flows.len() && (flows[i].0, flows[i].1) == k,
        replay_items(flows, statuts)->Ok_0.contains_key(k) ==> replay(
            replay_items(flows, statuts)->Ok_0[k].flow,
            statuts.filter(for_item(k)),
        ) == Ok::<StateViewModel, StatutError>(replay_items(flows, statuts)->Ok_0[k]),
{
    lemma_initial_states_fresh(flows);
    let m0 = initial_states(flows)->Ok_0;
    lemma_replay_all_per_item(m0, statuts);
    lemma_initial_states_keys(flows, k);
}

/// The states of a single item replayed from the first state of its flow, the
/// outcome lifted to a map holding that item alone.
pub open spec fn single_item_outcome(
    k: (i64, i64),
    r: Result<StateViewModel, StatutError>,
) -> Result<Map<(i64, i64), StateViewModel>, StatutError> {
    match r {
        Ok(v) => Ok(Map::empty().insert(k, v)),
        Err(e) => Err(e),
    }
}

/// Loading a list that holds one item and only statuses of that item fails
/// exactly when loading that item alone fails, with the same error; when it
/// succeeds it knows that item alone, with the state loading it alone gives.
pub proof fn lemma_one_item_list_agrees_with_item(
    f: (i64, i64, Seq<char>),
    statuts: Seq<StatutModel>,
)
    requires
        forall|i: int| 0 <= i < statuts.len() ==> #[trigger] item_key(statuts[i]) == (f.0, f.1),
    ensures
        replay_items(seq![f], statuts) == single_item_outcome((f.0, f.1), replay(f.2, statuts)),
{
    let fl = seq![f];
    assert(fl.drop_last() =~= Seq::<(i64, i64, Seq<char>)>::empty());
    assert(fl.last() == f);
    assert(initial_states(fl.drop_last()) == Ok::<Map<(i64, i64), StateViewModel>, StatutError>(
        Map::empty(),
    ));
    match initial_state_model(f.2) {
        Some(s0) => {
            let m0 = Map::<(i64, i64), StateViewModel>::empty().insert((f.0, f.1), fresh_view(f.2, s0));
            assert(initial_states(fl) == Ok::<Map<(i64, i64), StateViewModel>, StatutError>(m0));
            lemma_replay_all_single(f, s0, statuts);
        },
        None => {
            lemma_replay_unsupported(f.2, statuts);
        },
    }
}

proof fn lemma_replay_unsupported(flow: Seq<char>, statuts: Seq<StatutModel>)
    requires
        initial_state_model(flow) is None,
    ensures
        replay(flow, statuts) == Err::<StateViewModel, StatutError>(StatutError::UnsupportedFlowType),
    decreases statuts.len(),
{
    if statuts.len() > 0 {
        lemma_replay_unsupported(flow, statuts.drop_last());
    }
}

proof fn lemma_replay_all_single(f: (i64, i64, Seq<char>), s0: StateModel, statuts: Seq<StatutModel>)
    requires
        initial_state_model(f.2) == Some(s0),
        forall|i: int| 0 <= i < statuts.len() ==> #[trigger] item_key(statuts[i]) == (f.0, f.1),
    ensures
        replay_all(
            Map::empty().insert((f.0, f.1), fresh_view(f.2, s0)),
            statuts,
        ) == single_item_outcome((f.0, f.1), replay(f.2, statuts)),
    decreases statuts.len(),
{
    let k = (f.0, f.1);
    if statuts.len() > 0 {
        let t = statuts.drop_last();
        assert forall|i: int| 0 <= i < t.len() implies #[trigger] item_key(t[i]) == k by {
            assert(t[i] == statuts[i]);
        }
        lemma_replay_all_single(f, s0, t);
        let last = statuts.last();
        assert(item_key(statuts[statuts.len() - 1]) == k);
        match replay(f.2, t) {
            Ok(v) => {
                let m = Map::<(i64, i64), StateViewModel>::empty().insert(k, v);
                assert(m.contains_key(k));
                assert(m[k] == v);
                match step(v, last) {
                    Ok(v2) => {
                        assert(m.insert(k, v2) =~= Map::<(i64, i64), StateViewModel>::empty().insert(
                            k,
                            v2,
                        ));
                    },
                    Err(_) => {},
                }
            },
            Err(_) => {},
        }
    }
}

proof fn lemma_initial_states_keys(flows: Seq<(i64, i64, Seq<char>)>, k: (i64, i64))
    requires
        initial_states(flows) is Ok,
    ensures
        initial_states(flows)->Ok_0.contains_key(k) <==> exists|i: int|
            0 <= i < flows.len() && (flows[i].0, flows[i].1) == k,
    decreases flows.len(),
{
    if flows.len() > 0 {
        let t = flows.drop_last();
        lemma_initial_states_keys(t, k);
        if exists|i: int| 0 <= i < t.len() && (t[i].0, t[i].1) == k {
            let i = choose|i: int| 0 <= i < t.len() && (t[i].0, t[i].1) == k;
            assert(flows[i] == t[i]);
        }
        if exists|i: int| 0 <= i < flows.len() && (flows[i].0, flows[i].1) == k {
            let i = choose|i: int| 0 <= i < flows.len() && (flows[i].0, flows[i].1) == k;
            if i < t.len() {
                assert(flows[i] == t[i]);
            }
        }
    }
}

} // verus!

verus! {

/// The lengths of the flow and status names, and the two pairs of status names
/// of one length that differ: enough to tell every two of them apart.
pub(crate) proof fn lemma_flow_and_status_names()
    ensures
        "DressToOrderFlow"@.len() == 16,
        "DressFloorItemFlow"@.len() == 18,
        "AccessoryItemFlow"@.len() == 17,
        "AlterationFlow"@.len() == 14,
        "LocationFlow"@.len() == 12,
        "PlaceOrder"@.len() == 10,
        "RecordReceptionDate"@.len() == 19,
        "RecordingCancelDate"@.len() == 19,
        "RecordExpectedDeliveryDate"@.len() == 26,
        "RecordingBackOrderDate"@.len() == 22,
        "RecordingOutDate"@.len() == 16,
        "TransfertToAlteration"@.len() == 21,
        "RecordingTransfertToSeamstressDate"@.len() == 34,
        "RecordingBackFromSeamstressDate"@.len() == 31,
        "RecordAdjustDate"@.len() == 16,
        "RecordingOutForLocationDate"@.len() == 27,
        "RecordingClientReturnDate"@.len() == 25,
        "RecordReceptionDate"@ != "RecordingCancelDate"@,
        "RecordingOutDate"@ != "RecordAdjustDate"@,
{
    reveal_strlit("DressToOrderFlow");
    assert("DressToOrderFlow"@.len() == 16);
    reveal_strlit("DressFloorItemFlow");
    assert("DressFloorItemFlow"@.len() == 18);
    reveal_strlit("AccessoryItemFlow");
    assert("AccessoryItemFlow"@.len() == 17);
    reveal_strlit("AlterationFlow");
    assert("AlterationFlow"@.len() == 14);
    reveal_strlit("LocationFlow");
    assert("LocationFlow"@.len() == 12);
    reveal_strlit("PlaceOrder");
    assert("PlaceOrder"@.len() == 10);
    reveal_strlit("RecordReceptionDate");
    assert("RecordReceptionDate"@.len() == 19);
    reveal_strlit("RecordingCancelDate");
    assert("RecordingCancelDate"@.len() == 19);
    reveal_strlit("RecordExpectedDeliveryDate");
    assert("RecordExpectedDeliveryDate"@.len() == 26);
    reveal_strlit("RecordingBackOrderDate");
    assert("RecordingBackOrderDate"@.len() == 22);
    reveal_strlit("RecordingOutDate");
    assert("RecordingOutDate"@.len() == 16);
    reveal_strlit("TransfertToAlteration");
    assert("TransfertToAlteration"@.len() == 21);
    reveal_strlit("RecordingTransfertToSeamstressDate");
    assert("RecordingTransfertToSeamstressDate"@.len() == 34);
    reveal_strlit("RecordingBackFromSeamstressDate");
    assert("RecordingBackFromSeamstressDate"@.len() == 31);
    reveal_strlit("RecordAdjustDate");
    assert("RecordAdjustDate"@.len() == 16);
    reveal_strlit("RecordingOutForLocationDate");
    assert("RecordingOutForLocationDate"@.len() == 27);
    reveal_strlit("RecordingClientReturnDate");
    assert("RecordingClientReturnDate"@.len() == 25);
    assert("RecordReceptionDate"@ != "RecordingCancelDate"@) by {
        assert("RecordReceptionDate"@[6] != "RecordingCancelDate"@[6]);
    }
    assert("RecordingOutDate"@ != "RecordAdjustDate"@) by {
        assert("RecordingOutDate"@[6] != "RecordAdjustDate"@[6]);
    }
}

/// Each recorded status type leads, in whichever flow accepts it, to the state
/// it names, entered on the status's date: an order to `Ordered`, an expected
/// delivery to `ExpectingDelivery`, a reception to `Received`, a back order to
/// `BackOrder`, a cancellation to `Cancelled`, a transfer to alteration to
/// `TransferredToAlteration`, an adjustment to `WaitingAdjustment`, a return
/// from the seamstress to `BackFromSeamstress`, a rental's departure to
/// `OutForLocation` and its return to `BackFromLocation`; an exit is
/// `LocationOut` for a rental and `ItemOut` otherwise, and a handover to the
/// seamstress names her, except for a rental, which waits for her.
pub proof fn lemma_each_status_leads_to_its_state(
    flow: Seq<char>,
    t: Seq<char>,
    d: Seq<char>,
    seamstress: Option<Seq<char>>,
)
    requires
        next_state(flow, t, d, seamstress) is Ok,
    ensures
        ({
            let st = next_state(flow, t, d, seamstress)->Ok_0;
            &&& state_date(st) == Some(d)
            &&& t == "PlaceOrder"@ ==> st == State::<Seq<char>, Seq<char>>::Ordered(d)
            &&& t == "RecordExpectedDeliveryDate"@ ==> st == State::<Seq<char>, Seq<char>>::ExpectingDelivery(d)
            &&& t == "RecordReceptionDate"@ ==> st == State::<Seq<char>, Seq<char>>::Received(d)
            &&& t == "RecordingBackOrderDate"@ ==> st == State::<Seq<char>, Seq<char>>::BackOrder(d)
            &&& t == "RecordingCancelDate"@ ==> st == State::<Seq<char>, Seq<char>>::Cancelled(d)
            &&& t == "TransfertToAlteration"@ ==> st == State::<Seq<char>, Seq<char>>::TransferredToAlteration(d)
            &&& t == "RecordAdjustDate"@ ==> st == State::<Seq<char>, Seq<char>>::WaitingAdjustment(d)
            &&& t == "RecordingBackFromSeamstressDate"@ ==> st == State::<Seq<char>, Seq<char>>::BackFromSeamstress(d)
            &&& t == "RecordingOutForLocationDate"@ ==> st == State::<Seq<char>, Seq<char>>::OutForLocation(d)
            &&& t == "RecordingClientReturnDate"@ ==> st == State::<Seq<char>, Seq<char>>::BackFromLocation(d)
            &&& t == "RecordingOutDate"@ ==> st == (if flow == "LocationFlow"@ {
                State::<Seq<char>, Seq<char>>::LocationOut(d)
            } else {
                State::<Seq<char>, Seq<char>>::ItemOut(d)
            })
            &&& t == "RecordingTransfertToSeamstressDate"@ ==> st == (if flow == "LocationFlow"@ {
                State::<Seq<char>, Seq<char>>::WaitingForSeamstress(d)
            } else {
                State::<Seq<char>, Seq<char>>::GivenToSeamstress(d, seamstress->Some_0)
            })
        }),
{
    lemma_flow_and_status_names();
}

/// Following `path` from state `v` of `flow`, the statuses dated by `dates`:
/// each status is among those the state reached offers and leads to a state,
/// and the state reached at the end offers nothing more.
pub open spec fn follows_offered(
    flow: Seq<char>,
    v: StateModel,
    path: Seq<Seq<char>>,
    dates: Seq<Seq<char>>,
    seamstress: Seq<char>,
) -> bool
    decreases path.len(),
{
    if path.len() == 0 {
        transitions_for(flow, v) == Some(Seq::<Seq<char>>::empty())
    } else {
        &&& dates.len() > 0
        &&& transitions_for(flow, v) matches Some(ts) && ts.contains(path[0])
        &&& next_state(flow, path[0], dates[0], Some(seamstress)) matches Ok(n) && follows_offered(
            flow,
            n,
            path.drop_first(),
            dates.drop_first(),
            seamstress,
        )
    }
}

proof fn lemma_follow_step(
    f: Seq<char>,
    v: StateModel,
    t: Seq<char>,
    rest: Seq<Seq<char>>,
    dates: Seq<Seq<char>>,
    k: int,
    seamstress: Seq<char>,
)
    requires
        0 <= k < dates.len(),
        transitions_for(f, v) matches Some(ts) && ts.contains(t),
        next_state(f, t, dates[k], Some(seamstress)) matches Ok(n) && follows_offered(
            f,
            n,
            rest,
            dates.skip(k + 1),
            seamstress,
        ),
    ensures
        follows_offered(f, v, seq![t] + rest, dates.skip(k), seamstress),
{
    let p = seq![t] + rest;
    assert(p[0] == t);
    assert(p.drop_first() =~= rest);
    assert(dates.skip(k)[0] == dates[k]);
    assert(dates.skip(k).drop_first() =~= dates.skip(k + 1));
}

/// A dress ordered for a client can be followed, with the transitions offered at
/// each step, from order to exit, to alteration or to cancellation, directly or
/// through a back order; each way ends in a state that offers nothing more.
pub proof fn lemma_dress_to_order_paths_are_offered(dates: Seq<Seq<char>>, seamstress: Seq<char>)
    requires
        dates.len() >= 5,
    ensures
        ({
            let f = "DressToOrderFlow"@;
            let s0 = State::<Seq<char>, Seq<char>>::ToOrder;
            &&& initial_state_model(f) == Some(s0)
            &&& follows_offered(f, s0, seq!["PlaceOrder"@, "RecordExpectedDeliveryDate"@, "RecordReceptionDate"@, "RecordingOutDate"@], dates, seamstress)
            &&& follows_offered(f, s0, seq!["PlaceOrder"@, "RecordExpectedDeliveryDate"@, "RecordReceptionDate"@, "TransfertToAlteration"@], dates, seamstress)
            &&& follows_offered(f, s0, seq!["PlaceOrder"@, "RecordExpectedDeliveryDate"@, "RecordReceptionDate"@, "RecordingCancelDate"@], dates, seamstress)
            &&& follows_offered(f, s0, seq!["PlaceOrder"@, "RecordExpectedDeliveryDate"@, "RecordingBackOrderDate"@, "RecordReceptionDate"@, "RecordingOutDate"@], dates, seamstress)
            &&& follows_offered(f, s0, seq!["PlaceOrder"@, "RecordExpectedDeliveryDate"@, "RecordingBackOrderDate"@, "RecordingCancelDate"@], dates, seamstress)
        }),
{
    lemma_flow_and_status_names();
    let f = "DressToOrderFlow"@;
    assert(dates.skip(0) =~= dates);
    // path 0
    assert(transitions_for(f, State::<Seq<char>, Seq<char>>::ItemOut(dates[3])) =~= Some(Seq::<Seq<char>>::empty()));
    assert(follows_offered(f, State::<Seq<char>, Seq<char>>::ItemOut(dates[3]), Seq::<Seq<char>>::empty(), dates.skip(4), seamstress));
    assert(transitions_for(f, State::<Seq<char>, Seq<char>>::Received(dates[2]))->Some_0[0] == "RecordingOutDate"@);
    assert(next_state(f, "RecordingOutDate"@, dates[3], Some(seamstress)) == Ok::<StateModel, StatutError>(State::<Seq<char>, Seq<char>>::ItemOut(dates[3])));
    lemma_follow_step(f, State::<Seq<char>, Seq<char>>::Received(dates[2]), "RecordingOutDate"@, Seq::<Seq<char>>::empty(), dates, 3, seamstress);
    assert(transitions_for(f, State::<Seq<char>, Seq<char>>::ExpectingDelivery(dates[1]))->Some_0[0] == "RecordReceptionDate"@);
    assert(next_state(f, "RecordReceptionDate"@, dates[2], Some(seamstress)) == Ok::<StateModel, StatutError>(State::<Seq<char>, Seq<char>>::Received(dates[2])));
    lemma_follow_step(f, State::<Seq<char>, Seq<char>>::ExpectingDelivery(dates[1]), "RecordReceptionDate"@, seq!["RecordingOutDate"@], dates, 2, seamstress);
    assert(transitions_for(f, State::<Seq<char>, Seq<char>>::Ordered(dates[0]))->Some_0[0] == "RecordExpectedDeliveryDate"@);
    assert(next_state(f, "RecordExpectedDeliveryDate"@, dates[1], Some(seamstress)) == Ok::<StateModel, StatutError>(State::<Seq<char>, Seq<char>>::ExpectingDelivery(dates[1])));
    lemma_follow_step(f, State::<Seq<char>, Seq<char>>::Ordered(dates[0]), "RecordExpectedDeliveryDate"@, (seq!["RecordReceptionDate"@] + seq!["RecordingOutDate"@]), dates, 1, seamstress);
    assert(transitions_for(f, State::<Seq<char>, Seq<char>>::ToOrder)->Some_0[0] == "PlaceOrder"@);
    assert(next_state(f, "PlaceOrder"@, dates[0], Some(seamstress)) == Ok::<StateModel, StatutError>(State::<Seq<char>, Seq<char>>::Ordered(dates[0])));
    lemma_follow_step(f, State::<Seq<char>, Seq<char>>::ToOrder, "PlaceOrder"@, (seq!["RecordExpectedDeliveryDate"@] + (seq!["RecordReceptionDate"@] + seq!["RecordingOutDate"@])), dates, 0, seamstress);
    assert(seq!["PlaceOrder"@, "RecordExpectedDeliveryDate"@, "RecordReceptionDate"@, "RecordingOutDate"@] =~= (seq!["PlaceOrder"@] + (seq!["RecordExpectedDeliveryDate"@] + (seq!["RecordReceptionDate"@] + seq!["RecordingOutDate"@]))));
    // path 1
    assert(transitions_for(f, State::<Seq<char>, Seq<char>>::TransferredToAlteration(dates[3])) =~= Some(Seq::<Seq<char>>::empty()));
    assert(follows_offered(f, State::<Seq<char>, Seq<char>>::TransferredToAlteration(dates[3]), Seq::<Seq<char>>::empty(), dates.skip(4), seamstress));
    assert(transitions_for(f, State::<Seq<char>, Seq<char>>::Received(dates[2]))->Some_0[1] == "TransfertToAlteration"@);
    assert(next_state(f, "TransfertToAlteration"@, dates[3], Some(seamstress)) == Ok::<StateModel, StatutError>(State::<Seq<char>, Seq<char>>::TransferredToAlteration(dates[3])));
    lemma_follow_step(f, State::<Seq<char>, Seq<char>>::Received(dates[2]), "TransfertToAlteration"@, Seq::<Seq<char>>::empty(), dates, 3, seamstress);
    assert(transitions_for(f, State::<Seq<char>, Seq<char>>::ExpectingDelivery(dates[1]))->Some_0[0] == "RecordReceptionDate"@);
    assert(next_state(f, "RecordReceptionDate"@, dates[2], Some(seamstress)) == Ok::<StateModel, StatutError>(State::<Seq<char>, Seq<char>>::Received(dates[2])));
    lemma_follow_step(f, State::<Seq<char>, Seq<char>>::ExpectingDelivery(dates[1]), "RecordReceptionDate"@, seq!["TransfertToAlteration"@], dates, 2, seamstress);
    assert(transitions_for(f, State::<Seq<char>, Seq<char>>::Ordered(dates[0]))->Some_0[0] == "RecordExpectedDeliveryDate"@);
    assert(next_state(f, "RecordExpectedDeliveryDate"@, dates[1], Some(seamstress)) == Ok::<StateModel, StatutError>(State::<Seq<char>, Seq<char>>::ExpectingDelivery(dates[1])));
    lemma_follow_step(f, State::<Seq<char>, Seq<char>>::Ordered(dates[0]), "RecordExpectedDeliveryDate"@, (seq!["RecordReceptionDate"@] + seq!["TransfertToAlteration"@]), dates, 1, seamstress);
    assert(transitions_for(f, State::<Seq<char>, Seq<char>>::ToOrder)->Some_0[0] == "PlaceOrder"@);
    assert(next_state(f, "PlaceOrder"@, dates[0], Some(seamstress)) == Ok::<StateModel, StatutError>(State::<Seq<char>, Seq<char>>::Ordered(dates[0])));
    lemma_follow_step(f, State::<Seq<char>, Seq<char>>::ToOrder, "PlaceOrder"@, (seq!["RecordExpectedDeliveryDate"@] + (seq!["RecordReceptionDate"@] + seq!["TransfertToAlteration"@])), dates, 0, seamstress);
    assert(seq!["PlaceOrder"@, "RecordExpectedDeliveryDate"@, "RecordReceptionDate"@, "TransfertToAlteration"@] =~= (seq!["PlaceOrder"@] + (seq!["RecordExpectedDeliveryDate"@] + (seq!["RecordReceptionDate"@] + seq!["TransfertToAlteration"@]))));
    // path 2
    assert(transitions_for(f, State::<Seq<char>, Seq<char>>::Cancelled(dates[3])) =~= Some(Seq::<Seq<char>>::empty()));
    assert(follows_offered(f, State::<Seq<char>, Seq<char>>::Cancelled(dates[3]), Seq::<Seq<char>>::empty(), dates.skip(4), seamstress));
    assert(transitions_for(f, State::<Seq<char>, Seq<char>>::Received(dates[2]))->Some_0[2] == "RecordingCancelDate"@);
    assert(next_state(f, "RecordingCancelDate"@, dates[3], Some(seamstress)) == Ok::<StateModel, StatutError>(State::<Seq<char>, Seq<char>>::Cancelled(dates[3])));
    lemma_follow_step(f, State::<Seq<char>, Seq<char>>::Received(dates[2]), "RecordingCancelDate"@, Seq::<Seq<char>>::empty(), dates, 3, seamstress);
    assert(transitions_for(f, State::<Seq<char>, Seq<char>>::ExpectingDelivery(dates[1]))->Some_0[0] == "RecordReceptionDate"@);
    assert(next_state(f, "RecordReceptionDate"@, dates[2], Some(seamstress)) == Ok::<StateModel, StatutError>(State::<Seq<char>, Seq<char>>::Received(dates[2])));
    lemma_follow_step(f, State::<Seq<char>, Seq<char>>::ExpectingDelivery(dates[1]), "RecordReceptionDate"@, seq!["RecordingCancelDate"@], dates, 2, seamstress);
    assert(transitions_for(f, State::<Seq<char>, Seq<char>>::Ordered(dates[0]))->Some_0[0] == "RecordExpectedDeliveryDate"@);
    assert(next_state(f, "RecordExpectedDeliveryDate"@, dates[1], Some(seamstress)) == Ok::<StateModel, StatutError>(State::<Seq<char>, Seq<char>>::ExpectingDelivery(dates[1])));
    lemma_follow_step(f, State::<Seq<char>, Seq<char>>::Ordered(dates[0]), "RecordExpectedDeliveryDate"@, (seq!["RecordReceptionDate"@] + seq!["RecordingCancelDate"@]), dates, 1, seamstress);
    assert(transitions_for(f, State::<Seq<char>, Seq<char>>::ToOrder)->Some_0[0] == "PlaceOrder"@);
    assert(next_state(f, "PlaceOrder"@, dates[0], Some(seamstress)) == Ok::<StateModel, StatutError>(State::<Seq<char>, Seq<char>>::Ordered(dates[0])));
    lemma_follow_step(f, State::<Seq<char>, Seq<char>>::ToOrder, "PlaceOrder"@, (seq!["RecordExpectedDeliveryDate"@] + (seq!["RecordReceptionDate"@] + seq!["RecordingCancelDate"@])), dates, 0, seamstress);
    assert(seq!["PlaceOrder"@, "RecordExpectedDeliveryDate"@, "RecordReceptionDate"@, "RecordingCancelDate"@] =~= (seq!["PlaceOrder"@] + (seq!["RecordExpectedDeliveryDate"@] + (seq!["RecordReceptionDate"@] + seq!["RecordingCancelDate"@]))));
    // path 3
    assert(transitions_for(f, State::<Seq<char>, Seq<char>>::ItemOut(dates[4])) =~= Some(Seq::<Seq<char>>::empty()));
    assert(follows_offered(f, State::<Seq<char>, Seq<char>>::ItemOut(dates[4]), Seq::<Seq<char>>::empty(), dates.skip(5), seamstress));
    assert(transitions_for(f, State::<Seq<char>, Seq<char>>::Received(dates[3]))->Some_0[0] == "RecordingOutDate"@);
    assert(next_state(f, "RecordingOutDate"@, dates[4], Some(seamstress)) == Ok::<StateModel, StatutError>(State::<Seq<char>, Seq<char>>::ItemOut(dates[4])));
    lemma_follow_step(f, State::<Seq<char>, Seq<char>>::Received(dates[3]), "RecordingOutDate"@, Seq::<Seq<char>>::empty(), dates, 4, seamstress);
    assert(transitions_for(f, State::<Seq<char>, Seq<char>>::BackOrder(dates[2]))->Some_0[0] == "RecordReceptionDate"@);
    assert(next_state(f, "RecordReceptionDate"@, dates[3], Some(seamstress)) == Ok::<StateModel, StatutError>(State::<Seq<char>, Seq<char>>::Received(dates[3])));
    lemma_follow_step(f, State::<Seq<char>, Seq<char>>::BackOrder(dates[2]), "RecordReceptionDate"@, seq!["RecordingOutDate"@], dates, 3, seamstress);
    assert(transitions_for(f, State::<Seq<char>, Seq<char>>::ExpectingDelivery(dates[1]))->Some_0[1] == "RecordingBackOrderDate"@);
    assert(next_state(f, "RecordingBackOrderDate"@, dates[2], Some(seamstress)) == Ok::<StateModel, StatutError>(State::<Seq<char>, Seq<char>>::BackOrder(dates[2])));
    lemma_follow_step(f, State::<Seq<char>, Seq<char>>::ExpectingDelivery(dates[1]), "RecordingBackOrderDate"@, (seq!["RecordReceptionDate"@] + seq!["RecordingOutDate"@]), dates, 2, seamstress);
    assert(transitions_for(f, State::<Seq<char>, Seq<char>>::Ordered(dates[0]))->Some_0[0] == "RecordExpectedDeliveryDate"@);
    assert(next_state(f, "RecordExpectedDeliveryDate"@, dates[1], Some(seamstress)) == Ok::<StateModel, StatutError>(State::<Seq<char>, Seq<char>>::ExpectingDelivery(dates[1])));
    lemma_follow_step(f, State::<Seq<char>, Seq<char>>::Ordered(dates[0]), "RecordExpectedDeliveryDate"@, (seq!["RecordingBackOrderDate"@] + (seq!["RecordReceptionDate"@] + seq!["RecordingOutDate"@])), dates, 1, seamstress);
    assert(transitions_for(f, State::<Seq<char>, Seq<char>>::ToOrder)->Some_0[0] == "PlaceOrder"@);
    assert(next_state(f, "PlaceOrder"@, dates[0], Some(seamstress)) == Ok::<StateModel, StatutError>(State::<Seq<char>, Seq<char>>::Ordered(dates[0])));
    lemma_follow_step(f, State::<Seq<char>, Seq<char>>::ToOrder, "PlaceOrder"@, (seq!["RecordExpectedDeliveryDate"@] + (seq!["RecordingBackOrderDate"@] + (seq!["RecordReceptionDate"@] + seq!["RecordingOutDate"@]))), dates, 0, seamstress);
    assert(seq!["PlaceOrder"@, "RecordExpectedDeliveryDate"@, "RecordingBackOrderDate"@, "RecordReceptionDate"@, "RecordingOutDate"@] =~= (seq!["PlaceOrder"@] + (seq!["RecordExpectedDeliveryDate"@] + (seq!["RecordingBackOrderDate"@] + (seq!["RecordReceptionDate"@] + seq!["RecordingOutDate"@])))));
    // path 4
    assert(transitions_for(f, State::<Seq<char>, Seq<char>>::Cancelled(dates[3])) =~= Some(Seq::<Seq<char>>::empty()));
    assert(follows_offered(f, State::<Seq<char>, Seq<char>>::Cancelled(dates[3]), Seq::<Seq<char>>::empty(), dates.skip(4), seamstress));
    assert(transitions_for(f, State::<Seq<char>, Seq<char>>::BackOrder(dates[2]))->Some_0[1] == "RecordingCancelDate"@);
    assert(next_state(f, "RecordingCancelDate"@, dates[3], Some(seamstress)) == Ok::<StateModel, StatutError>(State::<Seq<char>, Seq<char>>::Cancelled(dates[3])));
    lemma_follow_step(f, State::<Seq<char>, Seq<char>>::BackOrder(dates[2]), "RecordingCancelDate"@, Seq::<Seq<char>>::empty(), dates, 3, seamstress);
    assert(transitions_for(f, State::<Seq<char>, Seq<char>>::ExpectingDelivery(dates[1]))->Some_0[1] == "RecordingBackOrderDate"@);
    assert(next_state(f, "RecordingBackOrderDate"@, dates[2], Some(seamstress)) == Ok::<StateModel, StatutError>(State::<Seq<char>, Seq<char>>::BackOrder(dates[2])));
    lemma_follow_step(f, State::<Seq<char>, Seq<char>>::ExpectingDelivery(dates[1]), "RecordingBackOrderDate"@, seq!["RecordingCancelDate"@], dates, 2, seamstress);
    assert(transitions_for(f, State::<Seq<char>, Seq<char>>::Ordered(dates[0]))->Some_0[0] == "RecordExpectedDeliveryDate"@);
    assert(next_state(f, "RecordExpectedDeliveryDate"@, dates[1], Some(seamstress)) == Ok::<StateModel, StatutError>(State::<Seq<char>, Seq<char>>::ExpectingDelivery(dates[1])));
    lemma_follow_step(f, State::<Seq<char>, Seq<char>>::Ordered(dates[0]), "RecordExpectedDeliveryDate"@, (seq!["RecordingBackOrderDate"@] + seq!["RecordingCancelDate"@]), dates, 1, seamstress);
    assert(transitions_for(f, State::<Seq<char>, Seq<char>>::ToOrder)->Some_0[0] == "PlaceOrder"@);
    assert(next_state(f, "PlaceOrder"@, dates[0], Some(seamstress)) == Ok::<StateModel, StatutError>(State::<Seq<char>, Seq<char>>::Ordered(dates[0])));
    lemma_follow_step(f, State::<Seq<char>, Seq<char>>::ToOrder, "PlaceOrder"@, (seq!["RecordExpectedDeliveryDate"@] + (seq!["RecordingBackOrderDate"@] + seq!["RecordingCancelDate"@])), dates, 0, seamstress);
    assert(seq!["PlaceOrder"@, "RecordExpectedDeliveryDate"@, "RecordingBackOrderDate"@, "RecordingCancelDate"@] =~= (seq!["PlaceOrder"@] + (seq!["RecordExpectedDeliveryDate"@] + (seq!["RecordingBackOrderDate"@] + seq!["RecordingCancelDate"@]))));
}

/// A dress taken from the floor can be followed, with the transitions offered,
/// out of the shop or to alteration; each way ends in a state that offers
/// nothing more.
pub proof fn lemma_dress_floor_item_paths_are_offered(dates: Seq<Seq<char>>, seamstress: Seq<char>)
    requires
        dates.len() >= 1,
    ensures
        ({
            let f = "DressFloorItemFlow"@;
            let s0 = State::<Seq<char>, Seq<char>>::FloorItem;
            &&& initial_state_model(f) == Some(s0)
            &&& follows_offered(f, s0, seq!["RecordingOutDate"@], dates, seamstress)
            &&& follows_offered(f, s0, seq!["TransfertToAlteration"@], dates, seamstress)
        }),
{
    lemma_flow_and_status_names();
    let f = "DressFloorItemFlow"@;
    assert(dates.skip(0) =~= dates);
    // path 0
    assert(transitions_for(f, State::<Seq<char>, Seq<char>>::ItemOut(dates[0])) =~= Some(Seq::<Seq<char>>::empty()));
    assert(follows_offered(f, State::<Seq<char>, Seq<char>>::ItemOut(dates[0]), Seq::<Seq<char>>::empty(), dates.skip(1), seamstress));
    assert(transitions_for(f, State::<Seq<char>, Seq<char>>::FloorItem)->Some_0[0] == "RecordingOutDate"@);
    assert(next_state(f, "RecordingOutDate"@, dates[0], Some(seamstress)) == Ok::<StateModel, StatutError>(State::<Seq<char>, Seq<char>>::ItemOut(dates[0])));
    lemma_follow_step(f, State::<Seq<char>, Seq<char>>::FloorItem, "RecordingOutDate"@, Seq::<Seq<char>>::empty(), dates, 0, seamstress);
    assert(seq!["RecordingOutDate"@] =~= seq!["RecordingOutDate"@]);
    // path 1
    assert(transitions_for(f, State::<Seq<char>, Seq<char>>::TransferredToAlteration(dates[0])) =~= Some(Seq::<Seq<char>>::empty()));
    assert(follows_offered(f, State::<Seq<char>, Seq<char>>::TransferredToAlteration(dates[0]), Seq::<Seq<char>>::empty(), dates.skip(1), seamstress));
    assert(transitions_for(f, State::<Seq<char>, Seq<char>>::FloorItem)->Some_0[1] == "TransfertToAlteration"@);
    assert(next_state(f, "TransfertToAlteration"@, dates[0], Some(seamstress)) == Ok::<StateModel, StatutError>(State::<Seq<char>, Seq<char>>::TransferredToAlteration(dates[0])));
    lemma_follow_step(f, State::<Seq<char>, Seq<char>>::FloorItem, "TransfertToAlteration"@, Seq::<Seq<char>>::empty(), dates, 0, seamstress);
    assert(seq!["TransfertToAlteration"@] =~= seq!["TransfertToAlteration"@]);
}

/// An alteration can be followed, with the transitions offered at each step,
/// to the seamstress, back from her and out; it ends in a state that offers
/// nothing more.
pub proof fn lemma_alteration_paths_are_offered(dates: Seq<Seq<char>>, seamstress: Seq<char>)
    requires
        dates.len() >= 3,
    ensures
        ({
            let f = "AlterationFlow"@;
            let s0 = State::<Seq<char>, Seq<char>>::ToBeAltered;
            &&& initial_state_model(f) == Some(s0)
            &&& follows_offered(f, s0, seq!["RecordingTransfertToSeamstressDate"@, "RecordingBackFromSeamstressDate"@, "RecordingOutDate"@], dates, seamstress)
        }),
{
    lemma_flow_and_status_names();
    let f = "AlterationFlow"@;
    assert(dates.skip(0) =~= dates);
    // path 0
    assert(transitions_for(f, State::<Seq<char>, Seq<char>>::ItemOut(dates[2])) =~= Some(Seq::<Seq<char>>::empty()));
    assert(follows_offered(f, State::<Seq<char>, Seq<char>>::ItemOut(dates[2]), Seq::<Seq<char>>::empty(), dates.skip(3), seamstress));
    assert(transitions_for(f, State::<Seq<char>, Seq<char>>::BackFromSeamstress(dates[1]))->Some_0[0] == "RecordingOutDate"@);
    assert(next_state(f, "RecordingOutDate"@, dates[2], Some(seamstress)) == Ok::<StateModel, StatutError>(State::<Seq<char>, Seq<char>>::ItemOut(dates[2])));
    lemma_follow_step(f, State::<Seq<char>, Seq<char>>::BackFromSeamstress(dates[1]), "RecordingOutDate"@, Seq::<Seq<char>>::empty(), dates, 2, seamstress);
    assert(transitions_for(f, State::<Seq<char>, Seq<char>>::GivenToSeamstress(dates[0], seamstress))->Some_0[0] == "RecordingBackFromSeamstressDate"@);
    assert(next_state(f, "RecordingBackFromSeamstressDate"@, dates[1], Some(seamstress)) == Ok::<StateModel, StatutError>(State::<Seq<char>, Seq<char>>::BackFromSeamstress(dates[1])));
    lemma_follow_step(f, State::<Seq<char>, Seq<char>>::GivenToSeamstress(dates[0], seamstress), "RecordingBackFromSeamstressDate"@, seq!["RecordingOutDate"@], dates, 1, seamstress);
    assert(transitions_for(f, State::<Seq<char>, Seq<char>>::ToBeAltered)->Some_0[0] == "RecordingTransfertToSeamstressDate"@);
    assert(next_state(f, "RecordingTransfertToSeamstressDate"@, dates[0], Some(seamstress)) == Ok::<StateModel, StatutError>(State::<Seq<char>, Seq<char>>::GivenToSeamstress(dates[0], seamstress)));
    lemma_follow_step(f, State::<Seq<char>, Seq<char>>::ToBeAltered, "RecordingTransfertToSeamstressDate"@, (seq!["RecordingBackFromSeamstressDate"@] + seq!["RecordingOutDate"@]), dates, 0, seamstress);
    assert(seq!["RecordingTransfertToSeamstressDate"@, "RecordingBackFromSeamstressDate"@, "RecordingOutDate"@] =~= (seq!["RecordingTransfertToSeamstressDate"@] + (seq!["RecordingBackFromSeamstressDate"@] + seq!["RecordingOutDate"@])));
}

/// A rental can be followed, with the transitions offered at each step, from
/// order to reception, then through adjustment and the seamstress or directly,
/// out for the rental, back and out; each way ends in a state that offers
/// nothing more.
pub proof fn lemma_location_paths_are_offered(dates: Seq<Seq<char>>, seamstress: Seq<char>)
    requires
        dates.len() >= 9,
    ensures
        ({
            let f = "LocationFlow"@;
            let s0 = State::<Seq<char>, Seq<char>>::ToOrder;
            &&& initial_state_model(f) == Some(s0)
            &&& follows_offered(f, s0, seq!["PlaceOrder"@, "RecordExpectedDeliveryDate"@, "RecordReceptionDate"@, "RecordAdjustDate"@, "RecordingTransfertToSeamstressDate"@, "RecordingBackFromSeamstressDate"@, "RecordingOutForLocationDate"@, "RecordingClientReturnDate"@, "RecordingOutDate"@], dates, seamstress)
            &&& follows_offered(f, s0, seq!["PlaceOrder"@, "RecordExpectedDeliveryDate"@, "RecordReceptionDate"@, "RecordingOutForLocationDate"@, "RecordingClientReturnDate"@, "RecordingOutDate"@], dates, seamstress)
        }),
{
    lemma_flow_and_status_names();
    let f = "LocationFlow"@;
    assert(dates.skip(0) =~= dates);
    // path 0
    assert(transitions_for(f, State::<Seq<char>, Seq<char>>::LocationOut(dates[8])) =~= Some(Seq::<Seq<char>>::empty()));
    assert(follows_offered(f, State::<Seq<char>, Seq<char>>::LocationOut(dates[8]), Seq::<Seq<char>>::empty(), dates.skip(9), seamstress));
    assert(transitions_for(f, State::<Seq<char>, Seq<char>>::BackFromLocation(dates[7]))->Some_0[0] == "RecordingOutDate"@);
    assert(next_state(f, "RecordingOutDate"@, dates[8], Some(seamstress)) == Ok::<StateModel, StatutError>(State::<Seq<char>, Seq<char>>::LocationOut(dates[8])));
    lemma_follow_step(f, State::<Seq<char>, Seq<char>>::BackFromLocation(dates[7]), "RecordingOutDate"@, Seq::<Seq<char>>::empty(), dates, 8, seamstress);
    assert(transitions_for(f, State::<Seq<char>, Seq<char>>::OutForLocation(dates[6]))->Some_0[0] == "RecordingClientReturnDate"@);
    assert(next_state(f, "RecordingClientReturnDate"@, dates[7], Some(seamstress)) == Ok::<StateModel, StatutError>(State::<Seq<char>, Seq<char>>::BackFromLocation(dates[7])));
    lemma_follow_step(f, State::<Seq<char>, Seq<char>>::OutForLocation(dates[6]), "RecordingClientReturnDate"@, seq!["RecordingOutDate"@], dates, 7, seamstress);
    assert(transitions_for(f, State::<Seq<char>, Seq<char>>::BackFromSeamstress(dates[5]))->Some_0[0] == "RecordingOutForLocationDate"@);
    assert(next_state(f, "RecordingOutForLocationDate"@, dates[6], Some(seamstress)) == Ok::<StateModel, StatutError>(State::<Seq<char>, Seq<char>>::OutForLocation(dates[6])));
    lemma_follow_step(f, State::<Seq<char>, Seq<char>>::BackFromSeamstress(dates[5]), "RecordingOutForLocationDate"@, (seq!["RecordingClientReturnDate"@] + seq!["RecordingOutDate"@]), dates, 6, seamstress);
    assert(transitions_for(f, State::<Seq<char>, Seq<char>>::WaitingForSeamstress(dates[4]))->Some_0[0] == "RecordingBackFromSeamstressDate"@);
    assert(next_state(f, "RecordingBackFromSeamstressDate"@, dates[5], Some(seamstress)) == Ok::<StateModel, StatutError>(State::<Seq<char>, Seq<char>>::BackFromSeamstress(dates[5])));
    lemma_follow_step(f, State::<Seq<char>, Seq<char>>::WaitingForSeamstress(dates[4]), "RecordingBackFromSeamstressDate"@, (seq!["RecordingOutForLocationDate"@] + (seq!["RecordingClientReturnDate"@] + seq!["RecordingOutDate"@])), dates, 5, seamstress);
    assert(transitions_for(f, State::<Seq<char>, Seq<char>>::WaitingAdjustment(dates[3]))->Some_0[0] == "RecordingTransfertToSeamstressDate"@);
    assert(next_state(f, "RecordingTransfertToSeamstressDate"@, dates[4], Some(seamstress)) == Ok::<StateModel, StatutError>(State::<Seq<char>, Seq<char>>::WaitingForSeamstress(dates[4])));
    lemma_follow_step(f, State::<Seq<char>, Seq<char>>::WaitingAdjustment(dates[3]), "RecordingTransfertToSeamstressDate"@, (seq!["RecordingBackFromSeamstressDate"@] + (seq!["RecordingOutForLocationDate"@] + (seq!["RecordingClientReturnDate"@] + seq!["RecordingOutDate"@]))), dates, 4, seamstress);
    assert(transitions_for(f, State::<Seq<char>, Seq<char>>::Received(dates[2]))->Some_0[0] == "RecordAdjustDate"@);
    assert(next_state(f, "RecordAdjustDate"@, dates[3], Some(seamstress)) == Ok::<StateModel, StatutError>(State::<Seq<char>, Seq<char>>::WaitingAdjustment(dates[3])));
    lemma_follow_step(f, State::<Seq<char>, Seq<char>>::Received(dates[2]), "RecordAdjustDate"@, (seq!["RecordingTransfertToSeamstressDate"@] + (seq!["RecordingBackFromSeamstressDate"@] + (seq!["RecordingOutForLocationDate"@] + (seq!["RecordingClientReturnDate"@] + seq!["RecordingOutDate"@])))), dates, 3, seamstress);
    assert(transitions_for(f, State::<Seq<char>, Seq<char>>::ExpectingDelivery(dates[1]))->Some_0[0] == "RecordReceptionDate"@);
    assert(next_state(f, "RecordReceptionDate"@, dates[2], Some(seamstress)) == Ok::<StateModel, StatutError>(State::<Seq<char>, Seq<char>>::Received(dates[2])));
    lemma_follow_step(f, State::<Seq<char>, Seq<char>>::ExpectingDelivery(dates[1]), "RecordReceptionDate"@, (seq!["RecordAdjustDate"@] + (seq!["RecordingTransfertToSeamstressDate"@] + (seq!["RecordingBackFromSeamstressDate"@] + (seq!["RecordingOutForLocationDate"@] + (seq!["RecordingClientReturnDate"@] + seq!["RecordingOutDate"@]))))), dates, 2, seamstress);
    assert(transitions_for(f, State::<Seq<char>, Seq<char>>::Ordered(dates[0]))->Some_0[0] == "RecordExpectedDeliveryDate"@);
    assert(next_state(f, "RecordExpectedDeliveryDate"@, dates[1], Some(seamstress)) == Ok::<StateModel, StatutError>(State::<Seq<char>, Seq<char>>::ExpectingDelivery(dates[1])));
    lemma_follow_step(f, State::<Seq<char>, Seq<char>>::Ordered(dates[0]), "RecordExpectedDeliveryDate"@, (seq!["RecordReceptionDate"@] + (seq!["RecordAdjustDate"@] + (seq!["RecordingTransfertToSeamstressDate"@] + (seq!["RecordingBackFromSeamstressDate"@] + (seq!["RecordingOutForLocationDate"@] + (seq!["RecordingClientReturnDate"@] + seq!["RecordingOutDate"@])))))), dates, 1, seamstress);
    assert(transitions_for(f, State::<Seq<char>, Seq<char>>::ToOrder)->Some_0[0] == "PlaceOrder"@);
    assert(next_state(f, "PlaceOrder"@, dates[0], Some(seamstress)) == Ok::<StateModel, StatutError>(State::<Seq<char>, Seq<char>>::Ordered(dates[0])));
    lemma_follow_step(f, State::<Seq<char>, Seq<char>>::ToOrder, "PlaceOrder"@, (seq!["RecordExpectedDeliveryDate"@] + (seq!["RecordReceptionDate"@] + (seq!["RecordAdjustDate"@] + (seq!["RecordingTransfertToSeamstressDate"@] + (seq!["RecordingBackFromSeamstressDate"@] + (seq!["RecordingOutForLocationDate"@] + (seq!["RecordingClientReturnDate"@] + seq!["RecordingOutDate"@]))))))), dates, 0, seamstress);
    assert(seq!["PlaceOrder"@, "RecordExpectedDeliveryDate"@, "RecordReceptionDate"@, "RecordAdjustDate"@, "RecordingTransfertToSeamstressDate"@, "RecordingBackFromSeamstressDate"@, "RecordingOutForLocationDate"@, "RecordingClientReturnDate"@, "RecordingOutDate"@] =~= (seq!["PlaceOrder"@] + (seq!["RecordExpectedDeliveryDate"@] + (seq!["RecordReceptionDate"@] + (seq!["RecordAdjustDate"@] + (seq!["RecordingTransfertToSeamstressDate"@] + (seq!["RecordingBackFromSeamstressDate"@] + (seq!["RecordingOutForLocationDate"@] + (seq!["RecordingClientReturnDate"@] + seq!["RecordingOutDate"@])))))))));
    // path 1
    assert(transitions_for(f, State::<Seq<char>, Seq<char>>::LocationOut(dates[5])) =~= Some(Seq::<Seq<char>>::empty()));
    assert(follows_offered(f, State::<Seq<char>, Seq<char>>::LocationOut(dates[5]), Seq::<Seq<char>>::empty(), dates.skip(6), seamstress));
    assert(transitions_for(f, State::<Seq<char>, Seq<char>>::BackFromLocation(dates[4]))->Some_0[0] == "RecordingOutDate"@);
    assert(next_state(f, "RecordingOutDate"@, dates[5], Some(seamstress)) == Ok::<StateModel, StatutError>(State::<Seq<char>, Seq<char>>::LocationOut(dates[5])));
    lemma_follow_step(f, State::<Seq<char>, Seq<char>>::BackFromLocation(dates[4]), "RecordingOutDate"@, Seq::<Seq<char>>::empty(), dates, 5, seamstress);
    assert(transitions_for(f, State::<Seq<char>, Seq<char>>::OutForLocation(dates[3]))->Some_0[0] == "RecordingClientReturnDate"@);
    assert(next_state(f, "RecordingClientReturnDate"@, dates[4], Some(seamstress)) == Ok::<StateModel, StatutError>(State::<Seq<char>, Seq<char>>::BackFromLocation(dates[4])));
    lemma_follow_step(f, State::<Seq<char>, Seq<char>>::OutForLocation(dates[3]), "RecordingClientReturnDate"@, seq!["RecordingOutDate"@], dates, 4, seamstress);
    assert(transitions_for(f, State::<Seq<char>, Seq<char>>::Received(dates[2]))->Some_0[1] == "RecordingOutForLocationDate"@);
    assert(next_state(f, "RecordingOutForLocationDate"@, dates[3], Some(seamstress)) == Ok::<StateModel, StatutError>(State::<Seq<char>, Seq<char>>::OutForLocation(dates[3])));
    lemma_follow_step(f, State::<Seq<char>, Seq<char>>::Received(dates[2]), "RecordingOutForLocationDate"@, (seq!["RecordingClientReturnDate"@] + seq!["RecordingOutDate"@]), dates, 3, seamstress);
    assert(transitions_for(f, State::<Seq<char>, Seq<char>>::ExpectingDelivery(dates[1]))->Some_0[0] == "RecordReceptionDate"@);
    assert(next_state(f, "RecordReceptionDate"@, dates[2], Some(seamstress)) == Ok::<StateModel, StatutError>(State::<Seq<char>, Seq<char>>::Received(dates[2])));
    lemma_follow_step(f, State::<Seq<char>, Seq<char>>::ExpectingDelivery(dates[1]), "RecordReceptionDate"@, (seq!["RecordingOutForLocationDate"@] + (seq!["RecordingClientReturnDate"@] + seq!["RecordingOutDate"@])), dates, 2, seamstress);
    assert(transitions_for(f, State::<Seq<char>, Seq<char>>::Ordered(dates[0]))->Some_0[0] == "RecordExpectedDeliveryDate"@);
    assert(next_state(f, "RecordExpectedDeliveryDate"@, dates[1], Some(seamstress)) == Ok::<StateModel, StatutError>(State::<Seq<char>, Seq<char>>::ExpectingDelivery(dates[1])));
    lemma_follow_step(f, State::<Seq<char>, Seq<char>>::Ordered(dates[0]), "RecordExpectedDeliveryDate"@, (seq!["RecordReceptionDate"@] + (seq!["RecordingOutForLocationDate"@] + (seq!["RecordingClientReturnDate"@] + seq!["RecordingOutDate"@]))), dates, 1, seamstress);
    assert(transitions_for(f, State::<Seq<char>, Seq<char>>::ToOrder)->Some_0[0] == "PlaceOrder"@);
    assert(next_state(f, "PlaceOrder"@, dates[0], Some(seamstress)) == Ok::<StateModel, StatutError>(State::<Seq<char>, Seq<char>>::Ordered(dates[0])));
    lemma_follow_step(f, State::<Seq<char>, Seq<char>>::ToOrder, "PlaceOrder"@, (seq!["RecordExpectedDeliveryDate"@] + (seq!["RecordReceptionDate"@] + (seq!["RecordingOutForLocationDate"@] + (seq!["RecordingClientReturnDate"@] + seq!["RecordingOutDate"@])))), dates, 0, seamstress);
    assert(seq!["PlaceOrder"@, "RecordExpectedDeliveryDate"@, "RecordReceptionDate"@, "RecordingOutForLocationDate"@, "RecordingClientReturnDate"@, "RecordingOutDate"@] =~= (seq!["PlaceOrder"@] + (seq!["RecordExpectedDeliveryDate"@] + (seq!["RecordReceptionDate"@] + (seq!["RecordingOutForLocationDate"@] + (seq!["RecordingClientReturnDate"@] + seq!["RecordingOutDate"@]))))));
}

proof fn lemma_dress_to_order_flow_accepts(t: Seq<char>, date: Seq<char>, seamstress: Seq<char>)
    requires
        t == "PlaceOrder"@ || t == "RecordExpectedDeliveryDate"@ || t == "RecordReceptionDate"@ || t == "RecordingBackOrderDate"@ || t == "RecordingCancelDate"@ || t == "RecordingOutDate"@ || t == "TransfertToAlteration"@,
    ensures
        next_state("DressToOrderFlow"@, t, date, Some(seamstress)) is Ok,
{
    lemma_flow_and_status_names();
}

proof fn lemma_dress_floor_item_flow_accepts(t: Seq<char>, date: Seq<char>, seamstress: Seq<char>)
    requires
        t == "RecordingOutDate"@ || t == "TransfertToAlteration"@,
    ensures
        next_state("DressFloorItemFlow"@, t, date, Some(seamstress)) is Ok,
{
    lemma_flow_and_status_names();
}

proof fn lemma_alteration_flow_accepts(t: Seq<char>, date: Seq<char>, seamstress: Seq<char>)
    requires
        t == "RecordingBackFromSeamstressDate"@ || t == "RecordingOutDate"@ || t == "RecordingTransfertToSeamstressDate"@,
    ensures
        next_state("AlterationFlow"@, t, date, Some(seamstress)) is Ok,
{
    lemma_flow_and_status_names();
}

proof fn lemma_location_flow_accepts(t: Seq<char>, date: Seq<char>, seamstress: Seq<char>)
    requires
        t == "PlaceOrder"@ || t == "RecordAdjustDate"@ || t == "RecordExpectedDeliveryDate"@ || t == "RecordReceptionDate"@ || t == "RecordingBackFromSeamstressDate"@ || t == "RecordingClientReturnDate"@ || t == "RecordingOutDate"@ || t == "RecordingOutForLocationDate"@ || t == "RecordingTransfertToSeamstressDate"@,
    ensures
        next_state("LocationFlow"@, t, date, Some(seamstress)) is Ok,
{
    lemma_flow_and_status_names();
}

proof fn lemma_known_transition_asked(t: Seq<char>)
    requires
        t == "PlaceOrder"@ || t == "RecordReceptionDate"@ || t == "RecordingCancelDate"@ || t == "RecordExpectedDeliveryDate"@ || t == "RecordingBackOrderDate"@ || t == "RecordingOutDate"@ || t == "TransfertToAlteration"@ || t == "RecordingTransfertToSeamstressDate"@ || t == "RecordingBackFromSeamstressDate"@ || t == "RecordAdjustDate"@ || t == "RecordingOutForLocationDate"@ || t == "RecordingClientReturnDate"@,
    ensures
        ask_text(t) != "Inconnue"@,
{
    reveal_strlit("Inconnue");
    assert("Inconnue"@.len() == 8);
    reveal_strlit("Enregistrer une date de sortie");
    assert("Enregistrer une date de sortie"@.len() == 30);
    reveal_strlit("Enregistrer une date de remise à la couturière");
    assert("Enregistrer une date de remise à la couturière"@.len() == 46);
    reveal_strlit("Enregister une date de commande");
    assert("Enregister une date de commande"@.len() == 31);
    reveal_strlit("Enregistrer une date attendue de livraison");
    assert("Enregistrer une date attendue de livraison"@.len() == 42);
    reveal_strlit("Enregister une date de réception");
    assert("Enregister une date de réception"@.len() == 32);
    reveal_strlit("Enregistrer une date de prise d'ajustements");
    assert("Enregistrer une date de prise d'ajustements"@.len() == 43);
    reveal_strlit("Enregister une date de sortie pour location");
    assert("Enregister une date de sortie pour location"@.len() == 43);
    reveal_strlit("Enregistrer une date retour de location");
    assert("Enregistrer une date retour de location"@.len() == 39);
    reveal_strlit("Enregistrer une date de transfert en altération");
    assert("Enregistrer une date de transfert en altération"@.len() == 47);
    reveal_strlit("Enregistrer une date de couture terminé");
    assert("Enregistrer une date de couture terminé"@.len() == 39);
    reveal_strlit("Enregistrer un avis Back Order");
    assert("Enregistrer un avis Back Order"@.len() == 30);
    reveal_strlit("Enregistrer une date d'abandon");
    assert("Enregistrer une date d'abandon"@.len() == 30);
}

/// Every transition that a flow offers from a state is one the flow accepts
/// when it is recorded (with a seamstress named, for the flows that ask for
/// one), and one the user is asked about in words rather than with "Inconnue".
pub proof fn lemma_offered_transitions_are_accepted(
    flow: Seq<char>,
    s: StateModel,
    date: Seq<char>,
    seamstress: Seq<char>,
    i: int,
)
    requires
        transitions_for(flow, s) is Some,
        0 <= i < transitions_for(flow, s)->Some_0.len(),
    ensures
        next_state(flow, transitions_for(flow, s)->Some_0[i], date, Some(seamstress)) is Ok,
        ask_text(transitions_for(flow, s)->Some_0[i]) != "Inconnue"@,
{
    let ts = transitions_for(flow, s)->Some_0;
    if flow == "DressToOrderFlow"@ {
        match s {
            State::ToOrder => {
                assert(ts =~= seq!["PlaceOrder"@]);
                lemma_dress_to_order_flow_accepts(ts[i], date, seamstress);
                lemma_known_transition_asked(ts[i]);
            },
            State::BackOrder(_) => {
                assert(ts =~= seq!["RecordReceptionDate"@, "RecordingCancelDate"@]);
                lemma_dress_to_order_flow_accepts(ts[i], date, seamstress);
                lemma_known_transition_asked(ts[i]);
            },
            State::Ordered(_) => {
                assert(ts =~= seq!["RecordExpectedDeliveryDate"@]);
                lemma_dress_to_order_flow_accepts(ts[i], date, seamstress);
                lemma_known_transition_asked(ts[i]);
            },
            State::ExpectingDelivery(_) => {
                assert(ts =~= seq!["RecordReceptionDate"@, "RecordingBackOrderDate"@]);
                lemma_dress_to_order_flow_accepts(ts[i], date, seamstress);
                lemma_known_transition_asked(ts[i]);
            },
            State::Received(_) => {
                assert(ts =~= seq!["RecordingOutDate"@, "TransfertToAlteration"@, "RecordingCancelDate"@]);
                lemma_dress_to_order_flow_accepts(ts[i], date, seamstress);
                lemma_known_transition_asked(ts[i]);
            },
            _ => {},
        }
    } else if flow == "DressFloorItemFlow"@ {
        match s {
            State::FloorItem => {
                assert(ts =~= seq!["RecordingOutDate"@, "TransfertToAlteration"@]);
                lemma_dress_floor_item_flow_accepts(ts[i], date, seamstress);
                lemma_known_transition_asked(ts[i]);
            },
            State::BackFromSeamstress(_) => {
                assert(ts =~= seq!["RecordingOutDate"@]);
                lemma_dress_floor_item_flow_accepts(ts[i], date, seamstress);
                lemma_known_transition_asked(ts[i]);
            },
            _ => {},
        }
    } else if flow == "AlterationFlow"@ {
        match s {
            State::ToBeAltered => {
                assert(ts =~= seq!["RecordingTransfertToSeamstressDate"@]);
                lemma_alteration_flow_accepts(ts[i], date, seamstress);
                lemma_known_transition_asked(ts[i]);
            },
            State::GivenToSeamstress(_, _) => {
                assert(ts =~= seq!["RecordingBackFromSeamstressDate"@]);
                lemma_alteration_flow_accepts(ts[i], date, seamstress);
                lemma_known_transition_asked(ts[i]);
            },
            State::BackFromSeamstress(_) => {
                assert(ts =~= seq!["RecordingOutDate"@]);
                lemma_alteration_flow_accepts(ts[i], date, seamstress);
                lemma_known_transition_asked(ts[i]);
            },
            _ => {},
        }
    } else if flow == "LocationFlow"@ {
        match s {
            State::ToOrder => {
                assert(ts =~= seq!["PlaceOrder"@]);
                lemma_location_flow_accepts(ts[i], date, seamstress);
                lemma_known_transition_asked(ts[i]);
            },
            State::Ordered(_) => {
                assert(ts =~= seq!["RecordExpectedDeliveryDate"@]);
                lemma_location_flow_accepts(ts[i], date, seamstress);
                lemma_known_transition_asked(ts[i]);
            },
            State::ExpectingDelivery(_) => {
                assert(ts =~= seq!["RecordReceptionDate"@]);
                lemma_location_flow_accepts(ts[i], date, seamstress);
                lemma_known_transition_asked(ts[i]);
            },
            State::Received(_) => {
                assert(ts =~= seq!["RecordAdjustDate"@, "RecordingOutForLocationDate"@]);
                lemma_location_flow_accepts(ts[i], date, seamstress);
                lemma_known_transition_asked(ts[i]);
            },
            State::WaitingAdjustment(_) => {
                assert(ts =~= seq!["RecordingTransfertToSeamstressDate"@]);
                lemma_location_flow_accepts(ts[i], date, seamstress);
                lemma_known_transition_asked(ts[i]);
            },
            State::WaitingForSeamstress(_) => {
                assert(ts =~= seq!["RecordingBackFromSeamstressDate"@]);
                lemma_location_flow_accepts(ts[i], date, seamstress);
                lemma_known_transition_asked(ts[i]);
            },
            State::BackFromSeamstress(_) => {
                assert(ts =~= seq!["RecordingOutForLocationDate"@]);
                lemma_location_flow_accepts(ts[i], date, seamstress);
                lemma_known_transition_asked(ts[i]);
            },
            State::OutForLocation(_) => {
                assert(ts =~= seq!["RecordingClientReturnDate"@]);
                lemma_location_flow_accepts(ts[i], date, seamstress);
                lemma_known_transition_asked(ts[i]);
            },
            State::BackFromLocation(_) => {
                assert(ts =~= seq!["RecordingOutDate"@]);
                lemma_location_flow_accepts(ts[i], date, seamstress);
                lemma_known_transition_asked(ts[i]);
            },
            _ => {},
        }
    }
}

/// The flows that offer transitions are exactly the flows that have a first
/// state.
pub proof fn lemma_known_flows_agree(flow: Seq<char>, s: StateModel)
    ensures
        (transitions_for(flow, s) is Some) <==> (initial_state_model(flow) is Some),
        (initial_state_model(flow) is Some) <==> is_known_flow(flow),
{
}

} // verus!
