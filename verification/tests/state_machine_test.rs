use lmah_inventory_rs::models::facture_items::ItemFactureFlowType;
use lmah_inventory_rs::models::statuts::{State, StateView, StatutError, StatutRow, StatutsView};
use lmah_inventory_rs::services::item_flow::{build_state_view, calculate_flow_type};
use lmah_inventory_rs::services::statuts::{
    compute_next_state, initial_state, load_one_item_statuts_flow, load_statuts_flow,
};
use lmah_inventory_rs::templates::utils::ask_transition;

fn row(id: i64, facture_id: i64, item_id: i64, t: &str, date: &str, seamstress: Option<&str>) -> StatutRow {
    StatutRow {
        id,
        facture_id,
        facture_item_id: item_id,
        statut_type: t.to_string(),
        date: date.to_string(),
        seamstress: seamstress.map(|s| s.to_string()),
        created_at: "".to_string(),
        updated_at: "".to_string(),
    }
}

fn flow(facture_id: i64, item_id: i64, f: &str) -> ItemFactureFlowType {
    ItemFactureFlowType { facture_id, facture_item_id: item_id, flow_type: f.to_string() }
}

#[test]
fn each_flow_starts_in_its_first_state() {
    assert_eq!(initial_state("AlterationFlow").unwrap().current_state, State::ToBeAltered);
    assert_eq!(initial_state("LocationFlow").unwrap().current_state, State::ToOrder);
    assert_eq!(initial_state("AccessoryItemFlow").unwrap().current_state, State::FloorItem);
    assert_eq!(initial_state("DressFloorItemFlow").unwrap().current_state, State::FloorItem);
    assert_eq!(initial_state("DressToOrderFlow").unwrap().current_state, State::ToOrder);
    assert!(matches!(initial_state("Other"), Err(StatutError::UnsupportedFlowType)));
}

#[test]
fn transfer_to_seamstress_needs_a_seamstress() {
    let s = compute_next_state("AlterationFlow", "RecordingTransfertToSeamstressDate", "2024-01-02".to_string(), Some("Anne".to_string()));
    assert_eq!(s.unwrap(), State::GivenToSeamstress("2024-01-02".to_string(), "Anne".to_string()));
    let e = compute_next_state("AlterationFlow", "RecordingTransfertToSeamstressDate", "2024-01-02".to_string(), None);
    assert_eq!(e.unwrap_err(), StatutError::SeamstressRequired);
    let e = compute_next_state("AlterationFlow", "PlaceOrder", "2024-01-02".to_string(), None);
    assert_eq!(e.unwrap_err(), StatutError::InvalidTransition);
}

#[test]
fn offered_transitions_are_accepted_on_concrete_states() {
    let view = initial_state("DressToOrderFlow").unwrap();
    let offered = view.available_transitions().unwrap();
    assert_eq!(offered, vec!["PlaceOrder"]);
    for t in offered {
        assert!(compute_next_state("DressToOrderFlow", t, "2024-03-01".to_string(), None).is_ok());
    }
    let view = initial_state("AlterationFlow").unwrap();
    let offered = view.available_transitions().unwrap();
    assert_eq!(offered, vec!["RecordingTransfertToSeamstressDate"]);
    assert!(compute_next_state("AlterationFlow", offered[0], "2024-03-01".to_string(), Some("Anne".to_string())).is_ok());
}

#[test]
fn one_item_history_is_replayed_in_order() {
    let data = vec![
        row(1, 10, 20, "PlaceOrder", "2024-01-01", None),
        row(2, 10, 20, "RecordExpectedDeliveryDate", "2024-02-01", None),
        row(3, 10, 20, "RecordReceptionDate", "2024-03-01", None),
    ];
    let v = load_one_item_statuts_flow(flow(10, 20, "DressToOrderFlow"), data).unwrap();
    assert_eq!(v.current_state, State::Received("2024-03-01".to_string()));
    assert_eq!(
        v.previous_states,
        vec![State::ToOrder, State::Ordered("2024-01-01".to_string()), State::ExpectingDelivery("2024-02-01".to_string())]
    );
    assert_eq!(v.item_flow, "DressToOrderFlow");
    assert_eq!(v.current_state.label(), "Reçu");
    assert_eq!(v.current_state.value(), 4);
    assert_eq!(v.current_state.label_with_date(), "Date de réception: 2024-03-01");
    assert_eq!(v.current_state.date(), Some("2024-03-01"));
}

#[test]
fn a_refused_status_fails_the_strict_replay() {
    let data = vec![row(1, 10, 20, "RecordingCancelDate", "2024-01-01", None)];
    let e = load_one_item_statuts_flow(flow(10, 20, "AlterationFlow"), data);
    assert!(matches!(e, Err(StatutError::InvalidTransition)));
}

#[test]
fn all_items_agree_with_each_item() {
    let flows = vec![flow(1, 1, "DressFloorItemFlow"), flow(1, 2, "AlterationFlow")];
    let data = vec![
        row(1, 1, 2, "RecordingTransfertToSeamstressDate", "2024-01-05", Some("Lise")),
        row(2, 1, 1, "RecordingOutDate", "2024-01-06", None),
    ];
    let all = load_statuts_flow(flows, data).unwrap();
    assert_eq!(all.len(), 2);
    let one = load_one_item_statuts_flow(flow(1, 2, "AlterationFlow"), vec![row(1, 1, 2, "RecordingTransfertToSeamstressDate", "2024-01-05", Some("Lise"))]).unwrap();
    assert_eq!(all.get(&(1, 2)).unwrap().current_state, one.current_state);
    assert_eq!(all.get(&(1, 1)).unwrap().current_state, State::ItemOut("2024-01-06".to_string()));
    assert!(all.get(&(1, 3)).is_none());
}

#[test]
fn a_status_of_an_item_without_flow_is_an_error() {
    let e = load_statuts_flow(vec![flow(1, 1, "AlterationFlow")], vec![row(1, 2, 2, "RecordingOutDate", "2024-01-01", None)]);
    assert!(e.is_err());
}

#[test]
fn flow_type_of_an_item() {
    let dress = vec!["Robe de bal".to_string()];
    let other = vec!["Voile".to_string()];
    assert_eq!(calculate_flow_type("Alteration", &dress, false), "AlterationFlow");
    assert_eq!(calculate_flow_type("Location", &dress, false), "LocationFlow");
    assert_eq!(calculate_flow_type("Product", &other, true), "AccessoryItemFlow");
    assert_eq!(calculate_flow_type("Product", &dress, true), "DressFloorItemFlow");
    assert_eq!(calculate_flow_type("Product", &dress, false), "DressToOrderFlow");
}

fn sview(t: &str, date: &str) -> StatutsView {
    StatutsView {
        id: 1,
        facture_id: 1,
        facture_item_id: 1,
        statut_type: t.to_string(),
        date: date.to_string(),
        seamstress: None,
        created_at: "".to_string(),
        updated_at: "".to_string(),
    }
}

#[test]
fn dashboard_marks_unknown_dress_statuses_invalid() {
    let s1 = sview("RecordAdjustDate", "2024-05-01");
    let v: StateView = build_state_view("DressToOrderFlow".to_string(), vec![&s1]).unwrap();
    assert_eq!(v.current_state, State::Invalid("2024-05-01".to_string()));
    assert_eq!(v.current_state.label(), "État invalide");
    let s2 = sview("RecordingOutDate", "2024-05-02");
    let v = build_state_view("DressFloorItemFlow".to_string(), vec![&s2]).unwrap();
    assert_eq!(v.current_state, State::ItemOut("2024-05-02".to_string()));
    assert!(build_state_view("AlterationFlow".to_string(), vec![&s1]).is_err());
}

#[test]
fn questions_for_transitions() {
    assert_eq!(ask_transition("PlaceOrder"), "Enregister une date de commande");
    assert_eq!(ask_transition("Nothing"), "Inconnue");
}

#[test]
fn one_item_list_fails_like_the_item_alone() {
    let data = || vec![row(1, 10, 20, "PlaceOrder", "2024-01-01", None), row(2, 10, 20, "RecordAdjustDate", "2024-01-02", None)];
    let one = load_one_item_statuts_flow(flow(10, 20, "DressToOrderFlow"), data());
    let all = load_statuts_flow(vec![flow(10, 20, "DressToOrderFlow")], data());
    assert!(matches!(one, Err(StatutError::InvalidTransition)));
    assert!(matches!(all, Err(StatutError::InvalidTransition)));
    let ok = || vec![row(1, 10, 20, "PlaceOrder", "2024-01-01", None)];
    let one = load_one_item_statuts_flow(flow(10, 20, "DressToOrderFlow"), ok()).unwrap();
    let all = load_statuts_flow(vec![flow(10, 20, "DressToOrderFlow")], ok()).unwrap();
    assert_eq!(all.len(), 1);
    assert_eq!(all.get(&(10, 20)).unwrap().current_state, one.current_state);
}
