//! The flow of an item on the invoice dashboard, and the tolerant replay of its
//! statuses: a status that a dress flow does not know marks the item invalid
//! instead of failing the whole dashboard.
use vstd::prelude::*;
use crate::models::statuts::{
    is_known_flow, State, StateModel, StateView, StateViewModel, StatutError, StatutsView,
};
use crate::services::statuts::{
    lemma_flow_and_status_names,
    advance, advance_view, compute_next_state, fresh_view, initial_state_model, next_state, replay,
    StatutModel,
};
use crate::text::str_equals;

verus! {

/// The product types that make an item a dress.
pub open spec fn is_dress_type(name: Seq<char>) -> bool {
    ||| name == "Robe de mariée"@
    ||| name == "Robe de mère de la mariée"@
    ||| name == "Robe de bal"@
    ||| name == "Robe de bouquetière"@
}

/// The flow of an item: alterations and rentals have their own; a sold product
/// follows the accessory flow unless one of its types is a dress, and a dress
/// is either taken from the floor or ordered.
pub open spec fn flow_type_for(item_type: Seq<char>, type_names: Seq<Seq<char>>, floor_item: bool) -> Seq<
    char,
> {
    if item_type == "Alteration"@ {
        "AlterationFlow"@
    } else if item_type == "Location"@ {
        "LocationFlow"@
    } else if !(exists|i: int| 0 <= i < type_names.len() && is_dress_type(#[trigger] type_names[i])) {
        "AccessoryItemFlow"@
    } else if floor_item {
        "DressFloorItemFlow"@
    } else {
        "DressToOrderFlow"@
    }
}

/// The state a status leads to on the dashboard: as recorded in the item's flow,
/// except that a status the two dress flows do not know makes the item invalid.
pub open spec fn tolerant_next_state(
    flow: Seq<char>,
    t: Seq<char>,
    date: Seq<char>,
    seamstress: Option<Seq<char>>,
) -> Result<StateModel, StatutError> {
    if (flow == "DressFloorItemFlow"@ || flow == "DressToOrderFlow"@) && next_state(
        flow,
        t,
        date,
        seamstress,
    ) == Err::<StateModel, StatutError>(StatutError::InvalidTransition) {
        Ok(State::Invalid(date))
    } else {
        next_state(flow, t, date, seamstress)
    }
}

/// A status as values: its type, date and seamstress.
pub open spec fn status_values(s: StatutsView) -> (Seq<char>, Seq<char>, Option<Seq<char>>) {
    (s.statut_type@, s.date@, s.seamstress.deep_view())
}

/// The views of a list of statuses.
pub open spec fn status_list(v: Seq<&StatutsView>) -> Seq<(Seq<char>, Seq<char>, Option<Seq<char>>)> {
    v.map_values(|s: &StatutsView| status_values(*s))
}

/// One status applied to an item state, tolerating unknown dress statuses.
pub open spec fn tolerant_step(v: StateViewModel, s: (Seq<char>, Seq<char>, Option<Seq<char>>)) -> Result<
    StateViewModel,
    StatutError,
> {
    match tolerant_next_state(v.flow, s.0, s.1, s.2) {
        Ok(n) => Ok(advance(v, n)),
        Err(e) => Err(e),
    }
}

/// Replays `statuts`, in order, from the first state of `flow`, tolerating
/// unknown dress statuses.
pub open spec fn tolerant_replay(
    flow: Seq<char>,
    statuts: Seq<(Seq<char>, Seq<char>, Option<Seq<char>>)>,
) -> Result<StateViewModel, StatutError>
    decreases statuts.len(),
{
    if statuts.len() == 0 {
        match initial_state_model(flow) {
            Some(s) => Ok(fresh_view(flow, s)),
            None => Err(StatutError::UnsupportedFlowType),
        }
    } else {
        match tolerant_replay(flow, statuts.drop_last()) {
            Ok(v) => tolerant_step(v, statuts.last()),
            Err(e) => Err(e),
        }
    }
}

/// Whether a product type makes an item a dress.
pub fn is_dress_type_name(name: &str) -> (r: bool)
    ensures
        r == is_dress_type(name@),
{
    str_equals(name, "Robe de mariée") || str_equals(name, "Robe de mère de la mariée")
        || str_equals(name, "Robe de bal") || str_equals(name, "Robe de bouquetière")
}

/// The flow of an item from its kind, the names of its product's types, and
/// whether it was taken from the floor.
pub fn calculate_flow_type(item_type: &str, product_type_names: &[String], floor_item: bool) -> (r:
    String)
    ensures
        r@ == flow_type_for(
            item_type@,
            product_type_names@.map_values(|n: String| n@),
            floor_item,
        ),
{
    let ghost names = product_type_names@.map_values(|n: String| n@);
    if str_equals(item_type, "Alteration") {
        "AlterationFlow".to_string()
    } else if str_equals(item_type, "Location") {
        "LocationFlow".to_string()
    } else {
        let mut is_dress = false;
        let mut i: usize = 0;
        while i < product_type_names.len()
            invariant
                i <= product_type_names@.len(),
                names == product_type_names@.map_values(|n: String| n@),
                is_dress == exists|j: int| 0 <= j < i && is_dress_type(#[trigger] names[j]),
            decreases product_type_names.len() - i,
        {
            if is_dress_type_name(product_type_names[i].as_str()) {
                is_dress = true;
            }
            assert(names[i as int] == product_type_names@[i as int]@);
            i = i + 1;
        }
        if !is_dress {
            "AccessoryItemFlow".to_string()
        } else if floor_item {
            "DressFloorItemFlow".to_string()
        } else {
            "DressToOrderFlow".to_string()
        }
    }
}

/// A sold product none of whose types is a dress follows the accessory flow,
/// whether or not it was taken from the floor; the two dress flows are reached
/// only by a sold product with a dress among its types, the floor flag then
/// choosing between them; alterations and rentals have their own flows.
pub proof fn lemma_dress_flows_need_a_dress(
    item_type: Seq<char>,
    type_names: Seq<Seq<char>>,
    floor_item: bool,
)
    ensures
        item_type == "Alteration"@ ==> flow_type_for(item_type, type_names, floor_item)
            == "AlterationFlow"@,
        item_type == "Location"@ ==> flow_type_for(item_type, type_names, floor_item)
            == "LocationFlow"@,
        item_type != "Alteration"@ && item_type != "Location"@ && (forall|i: int|
            0 <= i < type_names.len() ==> !is_dress_type(#[trigger] type_names[i]))
            ==> flow_type_for(item_type, type_names, floor_item) == "AccessoryItemFlow"@,
        (flow_type_for(item_type, type_names, floor_item) == "DressFloorItemFlow"@ || flow_type_for(
            item_type,
            type_names,
            floor_item,
        ) == "DressToOrderFlow"@) ==> exists|i: int|
            0 <= i < type_names.len() && is_dress_type(#[trigger] type_names[i]),
        item_type != "Alteration"@ && item_type != "Location"@ && (exists|i: int|
            0 <= i < type_names.len() && is_dress_type(#[trigger] type_names[i]))
            ==> flow_type_for(item_type, type_names, floor_item) == (if floor_item {
            "DressFloorItemFlow"@
        } else {
            "DressToOrderFlow"@
        }),
{
    lemma_flow_and_status_names();
    reveal_strlit("Location");
    reveal_strlit("Alteration");
    assert("Location"@.len() == 8 && "Alteration"@.len() == 10);
}

/// Every item gets one of the known flows.
pub proof fn lemma_every_item_has_a_known_flow(
    item_type: Seq<char>,
    type_names: Seq<Seq<char>>,
    floor_item: bool,
)
    ensures
        is_known_flow(flow_type_for(item_type, type_names, floor_item)),
        initial_state_model(flow_type_for(item_type, type_names, floor_item)) is Some,
{
}

/// The first state of a flow.
pub fn initial_state(flow_type: &str) -> (r: Result<State<String, String>, StatutError>)
    ensures
        match r {
            Ok(s) => initial_state_model(flow_type@) == Some(s@),
            Err(e) => initial_state_model(flow_type@) is None && e
                == StatutError::UnsupportedFlowType,
        },
{
    if str_equals(flow_type, "AlterationFlow") {
        Ok(State::ToBeAltered)
    } else if str_equals(flow_type, "LocationFlow") {
        Ok(State::ToOrder)
    } else if str_equals(flow_type, "AccessoryItemFlow") {
        Ok(State::FloorItem)
    } else if str_equals(flow_type, "DressFloorItemFlow") {
        Ok(State::FloorItem)
    } else if str_equals(flow_type, "DressToOrderFlow") {
        Ok(State::ToOrder)
    } else {
        Err(StatutError::UnsupportedFlowType)
    }
}

/// Applies one status to an item state in the item's flow; a status that a
/// dress flow does not know makes the item invalid.
pub fn apply_statut(
    old_state: &StateView,
    statut_type: &str,
    date: String,
    seamstress: Option<String>,
) -> (r: Result<StateView, StatutError>)
    ensures
        match r {
            Ok(v) => tolerant_step(old_state@, (statut_type@, date@, seamstress.deep_view()))
                == Ok::<StateViewModel, StatutError>(v@),
            Err(e) => tolerant_step(old_state@, (statut_type@, date@, seamstress.deep_view()))
                == Err::<StateViewModel, StatutError>(e),
        },
{
    let flow = old_state.item_flow.as_str();
    let is_dress_flow = str_equals(flow, "DressFloorItemFlow") || str_equals(
        flow,
        "DressToOrderFlow",
    );
    let kept_date = date.clone();
    let next = match compute_next_state(flow, statut_type, date, seamstress) {
        Ok(n) => n,
        Err(StatutError::InvalidTransition) => {
            if is_dress_flow {
                State::Invalid(kept_date)
            } else {
                return Err(StatutError::InvalidTransition);
            }
        },
        Err(e) => {
            return Err(e);
        },
    };
    Ok(advance_view(old_state, next))
}

/// The state of an item of flow `flow_type` after its statuses, in order.
pub fn build_state_view(flow_type: String, statuts: Vec<&StatutsView>) -> (r: Result<
    StateView,
    StatutError,
>)
    ensures
        match r {
            Ok(v) => tolerant_replay(flow_type@, status_list(statuts@)) == Ok::<
                StateViewModel,
                StatutError,
            >(v@),
            Err(e) => tolerant_replay(flow_type@, status_list(statuts@)) == Err::<
                StateViewModel,
                StatutError,
            >(e),
        },
{
    let ghost sl = status_list(statuts@);
    let first = match initial_state(flow_type.as_str()) {
        Ok(s) => s,
        Err(e) => {
            proof {
                lemma_tolerant_replay_unknown_flow(flow_type@, sl);
            }
            return Err(e);
        },
    };
    let mut state = StateView {
        current_state: first,
        previous_states: Vec::new(),
        item_flow: flow_type.clone(),
    };
    assert(state@.previous =~= Seq::<StateModel>::empty());
    assert(sl.take(0) =~= Seq::<(Seq<char>, Seq<char>, Option<Seq<char>>)>::empty());
    let mut i: usize = 0;
    while i < statuts.len()
        invariant
            i <= statuts.len(),
            sl == status_list(statuts@),
            tolerant_replay(flow_type@, sl.take(i as int)) == Ok::<StateViewModel, StatutError>(
                state@,
            ),
        decreases statuts.len() - i,
    {
        let statut = statuts[i];
        assert(sl.take(i + 1).drop_last() =~= sl.take(i as int));
        assert(sl.take(i + 1).last() == status_values(*statut));
        match apply_statut(&state, statut.statut_type.as_str(), statut.date.clone(), statut.seamstress.clone()) {
            Ok(n) => {
                state = n;
            },
            Err(e) => {
                proof {
                    lemma_tolerant_replay_error_persists(flow_type@, sl, i as int + 1);
                }
                return Err(e);
            },
        }
        i = i + 1;
    }
    assert(sl.take(statuts.len() as int) =~= sl);
    Ok(state)
}

proof fn lemma_tolerant_replay_unknown_flow(
    flow: Seq<char>,
    statuts: Seq<(Seq<char>, Seq<char>, Option<Seq<char>>)>,
)
    requires
        initial_state_model(flow) is None,
    ensures
        tolerant_replay(flow, statuts) == Err::<StateViewModel, StatutError>(
            StatutError::UnsupportedFlowType,
        ),
    decreases statuts.len(),
{
    if statuts.len() > 0 {
        lemma_tolerant_replay_unknown_flow(flow, statuts.drop_last());
    }
}

proof fn lemma_tolerant_replay_error_persists(
    flow: Seq<char>,
    statuts: Seq<(Seq<char>, Seq<char>, Option<Seq<char>>)>,
    n: int,
)
    requires
        0 <= n <= statuts.len(),
        tolerant_replay(flow, statuts.take(n)) is Err,
    ensures
        tolerant_replay(flow, statuts) == tolerant_replay(flow, statuts.take(n)),
    decreases statuts.len() - n,
{
    if n == statuts.len() {
        assert(statuts.take(n) =~= statuts);
    } else {
        assert(statuts.take(n + 1).drop_last() =~= statuts.take(n));
        lemma_tolerant_replay_error_persists(flow, statuts, n + 1);
    }
}

} // verus!

verus! {

/// A recorded status as the values the dashboard replays.
pub open spec fn as_status_values(s: StatutModel) -> (Seq<char>, Seq<char>, Option<Seq<char>>) {
    (s.statut_type, s.date, s.seamstress)
}

/// Where the strict replay of an item's statuses succeeds, the dashboard's
/// tolerant replay gives the same state.
pub proof fn lemma_tolerant_replay_extends_strict(flow: Seq<char>, statuts: Seq<StatutModel>)
    requires
        replay(flow, statuts) is Ok,
    ensures
        tolerant_replay(flow, statuts.map_values(|s: StatutModel| as_status_values(s))) == replay(
            flow,
            statuts,
        ),
    decreases statuts.len(),
{
    let tl = statuts.map_values(|s: StatutModel| as_status_values(s));
    if statuts.len() > 0 {
        let t = statuts.drop_last();
        lemma_tolerant_replay_extends_strict(flow, t);
        assert(tl.drop_last() =~= t.map_values(|s: StatutModel| as_status_values(s)));
        assert(tl.last() == as_status_values(statuts.last()));
        lemma_replay_keeps_flow(flow, t);
    }
}

/// Replaying keeps the item's flow.
pub proof fn lemma_replay_keeps_flow(flow: Seq<char>, statuts: Seq<StatutModel>)
    requires
        replay(flow, statuts) is Ok,
    ensures
        replay(flow, statuts)->Ok_0.flow == flow,
    decreases statuts.len(),
{
    if statuts.len() > 0 {
        lemma_replay_keeps_flow(flow, statuts.drop_last());
    }
}

proof fn lemma_tolerant_replay_keeps_flow(
    flow: Seq<char>,
    statuts: Seq<(Seq<char>, Seq<char>, Option<Seq<char>>)>,
)
    requires
        tolerant_replay(flow, statuts) is Ok,
    ensures
        tolerant_replay(flow, statuts)->Ok_0.flow == flow,
    decreases statuts.len(),
{
    if statuts.len() > 0 {
        lemma_tolerant_replay_keeps_flow(flow, statuts.drop_last());
    }
}

/// The dashboard never fails on a dress item: whatever statuses were recorded,
/// the tolerant replay of a dress flow gives a state.
pub proof fn lemma_dress_items_always_have_a_state(
    flow: Seq<char>,
    statuts: Seq<(Seq<char>, Seq<char>, Option<Seq<char>>)>,
)
    requires
        flow == "DressFloorItemFlow"@ || flow == "DressToOrderFlow"@,
    ensures
        tolerant_replay(flow, statuts) is Ok,
    decreases statuts.len(),
{
    lemma_flow_and_status_names();
    if statuts.len() > 0 {
        lemma_dress_items_always_have_a_state(flow, statuts.drop_last());
        lemma_tolerant_replay_keeps_flow(flow, statuts.drop_last());
    }
}

} // verus!
