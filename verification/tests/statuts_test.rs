use lmah_inventory_rs::models::facture_items::ItemFactureFlowType;
use lmah_inventory_rs::models::statuts::{State, StatutRow};
use lmah_inventory_rs::services::statuts::load_statuts_flow;

#[test]
fn test_load_statuts_flow() {
    let facture_item_flows = vec![ItemFactureFlowType {
        facture_id: 159,
        facture_item_id: 2430,
        flow_type: "DressFloorItemFlow".to_string(),
    }];
    let statuts = vec![StatutRow {
        id: 1351,
        facture_id: 159,
        facture_item_id: 2430,
        statut_type: "RecordingOutDate".to_string(),
        date: "2020-07-28".to_string(),
        seamstress: None,
        created_at: "2026-03-30 15:51:52".to_string(),
        updated_at: "2026-03-30 15:51:52".to_string(),
    }];
    let result = load_statuts_flow(facture_item_flows, statuts).unwrap();
    let result = result.get(&(159, 2430)).unwrap();
    assert_eq!(result.current_state, State::ItemOut("2020-07-28".to_string()));
}

#[test]
fn test_load_statuts_flow_dress_to_order() {
    let facture_item_flows = vec![ItemFactureFlowType {
        facture_id: 2573,
        facture_item_id: 1226,
        flow_type: "DressToOrderFlow".to_string(),
    }];
    let statuts = vec![
        StatutRow {
            id: 4810,
            facture_id: 2573,
            facture_item_id: 1226,
            statut_type: "PlaceOrder".to_string(),
            date: "2026-02-06".to_string(),
            seamstress: None,
            created_at: "2026-04-06 14:31:40".to_string(),
            updated_at: "2026-04-06 14:31:40".to_string(),
        },
        StatutRow {
            id: 3934,
            facture_id: 2573,
            facture_item_id: 1226,
            statut_type: "RecordExpectedDeliveryDate".to_string(),
            date: "2026-02-06".to_string(),
            seamstress: None,
            created_at: "2026-04-06 14:31:43".to_string(),
            updated_at: "2026-04-06 14:31:43".to_string(),
        },
    ];
    let result = load_statuts_flow(facture_item_flows, statuts).unwrap();
    let result = result.get(&(2573, 1226)).unwrap();
    assert_eq!(
        result.current_state,
        State::ExpectingDelivery("2026-02-06".to_string())
    );
}
