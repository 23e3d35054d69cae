use lmah_inventory_rs::models::clients::ClientView;
use lmah_inventory_rs::models::facture_items::{
    FactureItemAlteration, FactureItemForm, FactureItemLocation, FactureItemProduct,
    FactureItemValue, FactureItemView, ItemFactureFlowType,
};
use lmah_inventory_rs::models::factures::{FactureRow, FactureView};
use lmah_inventory_rs::models::payments::{PaymentRow, PaymentSuggestion, PaymentView, PreCalculatedPayment};
use lmah_inventory_rs::models::product_types::ProductTypeView;
use lmah_inventory_rs::models::products::{ProductInfo, ProductRow, ProductView};
use lmah_inventory_rs::models::refunds::{RefundRow, RefundView};
use lmah_inventory_rs::models::statuts::{State, StatutError, StatutRow};
use lmah_inventory_rs::services::admin::{pair_factures_with_clients, transaction_url};
use lmah_inventory_rs::services::dashboard::{build_facture_dashboard_data, DashboardError};
use lmah_inventory_rs::services::facture_data::{facture_item_entries, EntryError};
use lmah_inventory_rs::services::facture_form::{
    blank_item_state, facture_item_insert_from_form, facture_item_update_from_form, initial_statut,
    products_to_add,
    FormAmounts, ItemFormError, ProductsToAdd, UnknownFactureType,
};
use lmah_inventory_rs::services::factures::{
    attach_products, checked_effective_total, compute_item, compute_items, effective_total,
    facture_figures,
};
use lmah_inventory_rs::services::statuts::load_statuts_flow;
use lmah_inventory_rs::services::transactions::{check_payment_amount, check_refund_amount, AmountError};

fn product_item(id: i64, price: i64, quantity: i64, rebate_percent: Option<i64>) -> FactureItemView {
    FactureItemView {
        id,
        facture_id: 1,
        product_id: 100 + id,
        created_at: "".to_string(),
        updated_at: "".to_string(),
        value: FactureItemValue::FactureItemProduct(FactureItemProduct {
            price: Some(price),
            notes: None,
            quantity,
            extra_large_size: Some(2000),
            rebate_percent,
            size: None,
            chest: Some(90),
            waist: Some(70),
            hips: Some(95),
            color: None,
            beneficiary: None,
            floor_item: false,
        }),
    }
}

fn facture_row(id: i64, client_id: i64, fixed_total: Option<i64>) -> FactureRow {
    FactureRow {
        id,
        client_id,
        facture_type: Some("Product".to_string()),
        date: None,
        event_id: None,
        fixed_total,
        cancelled: false,
        paper_ref: None,
        created_at: "".to_string(),
        updated_at: "".to_string(),
    }
}

fn client(id: u64, first: &str) -> ClientView {
    ClientView {
        id,
        first_name: first.to_string(),
        last_name: "Tremblay".to_string(),
        street: None,
        city: None,
        phone1: "555".to_string(),
        phone2: None,
        created_at: "".to_string(),
        updated_at: "".to_string(),
    }
}

fn payment(id: i64, amount: i64) -> PaymentView {
    PaymentView { id, facture_id: 1, amount, date: "".to_string(), payment_type: "cash".to_string(), cheque_number: None, created_at: "".to_string(), updated_at: "".to_string() }
}

fn refund(id: i64, amount: i64) -> RefundView {
    RefundView { id, facture_id: 1, amount, date: "".to_string(), refund_type: "cash".to_string(), cheque_number: None, created_at: "".to_string(), updated_at: "".to_string() }
}

#[test]
fn product_item_total_takes_the_percent_rebate() {
    // (10000 + 2000) * 2 = 24000, 15 % of it is 3600.
    let c = compute_item(&product_item(1, 10000, 2, Some(15)));
    assert_eq!(c.calculated_rebate, 3600);
    assert_eq!(c.total, 20400);
    assert_eq!(c.measurements, "B90 x T70 x H95");
}

#[test]
fn percent_rebate_rounds_toward_zero() {
    // (333 + 2000) * 1 = 2333, 10 % is 233.3.
    let c = compute_item(&product_item(1, 333, 1, Some(10)));
    assert_eq!(c.calculated_rebate, 233);
    assert_eq!(c.total, 2100);
    // A negative subtotal: (-3000 + 2000) * 1 = -1000... with 33 % gives -330.
    let c = compute_item(&product_item(1, -3000, 1, Some(33)));
    assert_eq!(c.calculated_rebate, -330);
}

#[test]
fn rental_and_alteration_totals() {
    let rental = FactureItemView {
        id: 2,
        facture_id: 1,
        product_id: 5,
        created_at: "".to_string(),
        updated_at: "".to_string(),
        value: FactureItemValue::FactureItemLocation(FactureItemLocation {
            price: Some(5000),
            notes: None,
            quantity: 1,
            beneficiary: None,
            insurance: Some(300),
            other_costs: Some(200),
        }),
    };
    let c = compute_item(&rental);
    assert_eq!((c.calculated_rebate, c.total, c.measurements.as_str()), (0, 5500, "-"));
    let alteration = FactureItemView {
        id: 3,
        facture_id: 1,
        product_id: 6,
        created_at: "".to_string(),
        updated_at: "".to_string(),
        value: FactureItemValue::FactureItemAlteration(FactureItemAlteration {
            price: Some(4000),
            notes: None,
            quantity: 1,
            rebate_dollar: Some(500),
        }),
    };
    let c = compute_item(&alteration);
    assert_eq!((c.calculated_rebate, c.total), (500, 3500));
}

#[test]
fn effective_total_is_the_fixed_total_or_the_sum_of_items() {
    let items = vec![product_item(1, 10000, 1, None), product_item(2, 1000, 2, None)];
    let computed = compute_items(&items);
    assert_eq!(computed.get(&1).unwrap().total, 12000);
    assert_eq!(computed.get(&2).unwrap().total, 6000);
    let f = FactureView::from(facture_row(1, 1, None));
    assert_eq!(effective_total(&f, &items), 18000);
    let f = FactureView::from(facture_row(1, 1, Some(777)));
    assert_eq!(effective_total(&f, &items), 777);
}

#[test]
fn figures_of_an_invoice() {
    let payments = vec![payment(1, 5000), payment(2, 2000)];
    let refunds = vec![refund(1, 1000)];
    let c = facture_figures(10000, 500, 998, &payments, &refunds);
    assert_eq!(c.tax_total, 11498);
    assert_eq!(c.total_payments, 7000);
    assert_eq!(c.total_refunds, 1000);
    assert_eq!(c.total_refundable, 6000);
    assert_eq!(c.balance, 11498 - 7000 + 1000);
    // The balance is the total with taxes less what was paid and not refunded.
    assert_eq!(c.balance, c.tax_total - c.total_refundable);
}

#[test]
fn a_payment_lowers_the_balance_by_its_amount() {
    let before = facture_figures(10000, 500, 998, &[payment(1, 5000)], &[]);
    let after = facture_figures(10000, 500, 998, &[payment(1, 5000), payment(2, 1234)], &[]);
    assert_eq!(after.balance, before.balance - 1234);
    let refunded = facture_figures(10000, 500, 998, &[payment(1, 5000), payment(2, 1234)], &[refund(1, 34)]);
    assert_eq!(refunded.balance, after.balance + 34);
}

fn product_info(id: i64) -> ProductInfo {
    ProductInfo {
        product: ProductView {
            id,
            name: format!("p{}", id),
            price: Some(1000),
            liquidation: false,
            visible_on_site: false,
            created_at: "".to_string(),
            updated_at: "".to_string(),
        },
        types: vec![],
    }
}

#[test]
fn printed_items_get_their_products() {
    let items = vec![
        (product_item(1, 100, 1, None), compute_item(&product_item(1, 100, 1, None))),
        (product_item(2, 100, 1, None), compute_item(&product_item(2, 100, 1, None))),
    ];
    let products = vec![product_info(102), product_info(101)];
    let infos = attach_products(items, products).unwrap();
    assert_eq!(infos[0].product_info.product.id, 101);
    assert_eq!(infos[1].product_info.product.id, 102);
    let items = vec![(product_item(1, 100, 1, None), compute_item(&product_item(1, 100, 1, None)))];
    let e = attach_products(items, vec![product_info(7)]).err().unwrap();
    assert_eq!((e.product_id, e.facture_id), (101, 1));
}

#[test]
fn administration_pairs_invoices_with_clients() {
    let factures = vec![FactureView::from(facture_row(1, 7, None)), FactureView::from(facture_row(2, 8, None))];
    let pairs = pair_factures_with_clients(factures, vec![client(8, "Bea"), client(7, "Ann")]).unwrap();
    assert_eq!(pairs[0].client.first_name, "Ann");
    assert_eq!(pairs[1].client.first_name, "Bea");
    let factures = vec![FactureView::from(facture_row(3, 9, None))];
    let e = pair_factures_with_clients(factures, vec![client(8, "Bea")]).err().unwrap();
    assert_eq!((e.facture_id, e.client_id), (3, 9));
}

#[test]
fn payments_report_links_the_transactions_page() {
    assert_eq!(transaction_url("https://shop.example", 42), "https://shop.example/factures/42/transactions");
}

fn statut(id: i64, facture_id: i64, item_id: i64, t: &str, date: &str) -> StatutRow {
    StatutRow { id, facture_id, facture_item_id: item_id, statut_type: t.to_string(), date: date.to_string(), seamstress: None, created_at: "".to_string(), updated_at: "".to_string() }
}

#[test]
fn dashboard_lists_each_invoice_with_its_client_and_items() {
    let flows = vec![
        ItemFactureFlowType { facture_id: 1, facture_item_id: 10, flow_type: "DressFloorItemFlow".to_string() },
        ItemFactureFlowType { facture_id: 2, facture_item_id: 20, flow_type: "DressToOrderFlow".to_string() },
    ];
    let statuts = vec![statut(1, 2, 20, "PlaceOrder", "2024-04-01")];
    let data = build_facture_dashboard_data(
        vec![facture_row(1, 7, None), facture_row(2, 8, None)],
        vec![client(8, "Bea"), client(7, "Ann")],
        flows,
        statuts,
    )
    .unwrap();
    assert_eq!(data.len(), 2);
    assert_eq!(data[0].client.first_name, "Ann");
    assert_eq!(data[0].state_per_item.len(), 1);
    assert_eq!(data[0].state_per_item[0].0, 10);
    assert_eq!(data[0].state_per_item[0].1.current_state, State::FloorItem);
    assert_eq!(data[1].state_per_item[0].1.current_state, State::Ordered("2024-04-01".to_string()));
    assert_eq!(data[1].smallest_state().unwrap().current_state, State::Ordered("2024-04-01".to_string()));
}

#[test]
fn dashboard_errors() {
    let flows = vec![ItemFactureFlowType { facture_id: 1, facture_item_id: 10, flow_type: "Unknown".to_string() }];
    let r = build_facture_dashboard_data(vec![facture_row(1, 7, None)], vec![client(7, "Ann")], flows, vec![]);
    assert!(matches!(r, Err(DashboardError::Statut(StatutError::UnsupportedFlowType))));
    let r = build_facture_dashboard_data(vec![facture_row(1, 7, None)], vec![client(8, "Bea")], vec![], vec![]);
    match r {
        Err(DashboardError::ClientNotFound(c)) => assert_eq!((c.facture_id, c.client_id), (1, 7)),
        _ => panic!("expected a missing client"),
    }
}

fn product_row(id: i64, name: &str) -> ProductRow {
    ProductRow { id, name: name.to_string(), price: Some(1000), liquidation: false, visible_on_site: true, created_at: "".to_string(), updated_at: "".to_string() }
}

#[test]
fn invoice_page_items_get_their_product_and_state() {
    let flows = vec![
        ItemFactureFlowType { facture_id: 1, facture_item_id: 1, flow_type: "DressFloorItemFlow".to_string() },
        ItemFactureFlowType { facture_id: 1, facture_item_id: 2, flow_type: "DressFloorItemFlow".to_string() },
    ];
    let states = load_statuts_flow(flows, vec![]).unwrap();
    let entries = facture_item_entries(
        1,
        vec![product_item(1, 100, 1, None), product_item(2, 100, 1, None)],
        vec![product_row(101, "old"), product_row(102, "b"), product_row(101, "a")],
        states,
    )
    .unwrap();
    assert_eq!(entries[0].product.name, "a");
    assert_eq!(entries[1].product.name, "b");
    assert_eq!(entries[1].state.current_state, State::FloorItem);

    let flows = vec![ItemFactureFlowType { facture_id: 1, facture_item_id: 1, flow_type: "DressFloorItemFlow".to_string() }];
    let states = load_statuts_flow(flows, vec![]).unwrap();
    let e = facture_item_entries(1, vec![product_item(1, 100, 1, None), product_item(2, 100, 1, None)], vec![product_row(101, "a"), product_row(102, "b")], states);
    assert!(matches!(e, Err(EntryError::StateNotFound { facture_item_id: 2 })));
}

fn prow(id: i64, amount: i64) -> PaymentRow {
    PaymentRow { id, facture_id: 1, amount, date: "".to_string(), payment_type: "cash".to_string(), cheque_number: None, created_at: "".to_string(), updated_at: "".to_string() }
}

fn rrow(id: i64, amount: i64) -> RefundRow {
    RefundRow { id, facture_id: 1, amount, date: "".to_string(), refund_type: "cash".to_string(), cheque_number: None, created_at: "".to_string(), updated_at: "".to_string() }
}

#[test]
fn amount_checks_use_the_invoice_total() {
    // Large-size charges and rebates count: (10000 + 2000) * 2 - 15 % = 20400.
    let items = vec![product_item(1, 10000, 2, Some(15)), product_item(2, 1000, 1, None)];
    let f = FactureView::from(facture_row(1, 1, None));
    assert_eq!(checked_effective_total(&f, &items), Some(20400 + 3000));
    let f = FactureView::from(facture_row(1, 1, Some(5)));
    assert_eq!(checked_effective_total(&f, &items), Some(5));
    let f = FactureView::from(facture_row(1, 1, None));
    assert_eq!(checked_effective_total(&f, &[product_item(1, i64::MAX, 2, None)]), None);
}

#[test]
fn a_payment_may_not_exceed_the_balance() {
    let payments = vec![prow(1, 3000), prow(2, 1000)];
    let refunds = vec![rrow(1, 500)];
    // Balance: 8700 + 435 + 865 - 4000 + 500 = 6500.
    assert_eq!(check_payment_amount(6500, 8700, 435, 865, &payments, &refunds, None), Ok(()));
    assert_eq!(
        check_payment_amount(6501, 8700, 435, 865, &payments, &refunds, None),
        Err(AmountError::PaymentExceedsBalance { amount: 6501, balance: 6500 })
    );
    // Changing payment 2 leaves it out of the balance.
    assert_eq!(check_payment_amount(7500, 8700, 435, 865, &payments, &refunds, Some(2)), Ok(()));
    assert_eq!(
        check_payment_amount(7501, 8700, 435, 865, &payments, &refunds, Some(2)),
        Err(AmountError::PaymentExceedsBalance { amount: 7501, balance: 7500 })
    );
}

#[test]
fn a_refund_may_not_exceed_what_is_refundable() {
    let payments = vec![prow(1, 3000)];
    let refunds = vec![rrow(1, 500), rrow(2, 700)];
    assert_eq!(check_refund_amount(1800, &payments, &refunds, None), Ok(()));
    assert_eq!(
        check_refund_amount(1801, &payments, &refunds, None),
        Err(AmountError::RefundExceedsRefundable { amount: 1801, refundable: 1800 })
    );
    assert_eq!(check_refund_amount(2500, &payments, &refunds, Some(2)), Ok(()));
}

fn form() -> FactureItemForm {
    FactureItemForm {
        product_id: 12,
        quantity: None,
        price: Some("10.00".to_string()),
        notes: Some("n".to_string()),
        size: Some("M".to_string()),
        chest: Some("".to_string()),
        waist: Some("70".to_string()),
        hips: None,
        color: Some("blanc".to_string()),
        beneficiary: None,
        floor_item: None,
        extra_large_size: Some(2500),
        extra_large_size_checked: None,
        rebate_percent: Some("10".to_string()),
        insurance: None,
        other_costs: None,
        rebate_dollar: None,
    }
}

fn amounts() -> FormAmounts {
    FormAmounts { price: Ok(Some(1000)), insurance: Ok(None), other_costs: Ok(None), rebate_dollar: Ok(None) }
}

#[test]
fn item_form_becomes_a_row() {
    let ins = facture_item_insert_from_form(5, None, form(), amounts()).unwrap();
    assert_eq!(ins.facture_id, 5);
    assert_eq!(ins.item_type, "Product");
    assert_eq!(ins.quantity, 1);
    assert_eq!(ins.price, Some(1000));
    assert_eq!(ins.chest, None);
    assert_eq!(ins.waist, Some(70));
    assert_eq!(ins.extra_large_size, None);
    assert_eq!(ins.rebate_percent, Some(10));
    assert!(!ins.floor_item);
    let mut f = form();
    f.extra_large_size_checked = Some(true);
    f.quantity = Some("3".to_string());
    let ins = facture_item_insert_from_form(5, Some("Location".to_string()), f, amounts()).unwrap();
    assert_eq!((ins.extra_large_size, ins.quantity, ins.item_type.as_str()), (Some(2500), 3, "Location"));
}

#[test]
fn item_form_errors_come_in_order() {
    let mut f = form();
    f.quantity = Some("".to_string());
    f.waist = Some("x".to_string());
    assert!(matches!(facture_item_insert_from_form(5, None, f, amounts()), Err(ItemFormError::InvalidQuantity)));
    let mut f = form();
    f.waist = Some("x".to_string());
    assert!(matches!(facture_item_insert_from_form(5, None, f, amounts()), Err(ItemFormError::InvalidWaist)));
    let mut a = amounts();
    a.insurance = Err(());
    assert!(matches!(facture_item_insert_from_form(5, None, form(), a), Err(ItemFormError::InvalidInsurance)));
}

#[test]
fn floor_item_update_drops_its_details() {
    let mut f = form();
    f.floor_item = Some(true);
    let u = facture_item_update_from_form(f, amounts()).unwrap();
    assert!(u.floor_item);
    assert_eq!((u.size, u.waist, u.color), (None, None, None));
    let u = facture_item_update_from_form(form(), amounts()).unwrap();
    assert_eq!((u.size.as_deref(), u.waist), (Some("M"), Some(70)));
}

#[test]
fn new_items_start_in_the_flow_of_their_invoice() {
    let s = blank_item_state(&Some("Alteration".to_string()));
    assert_eq!((s.current_state, s.item_flow.as_str()), (State::ToBeAltered, "AlterationFlow"));
    let s = blank_item_state(&None);
    assert_eq!((s.current_state, s.item_flow.as_str()), (State::ToOrder, "DressToOrderFlow"));
}

#[test]
fn first_payment_suggestion() {
    let p = PreCalculatedPayment { amount_ratio: 50, is_alteration: true, tax_total: 40, balance: 40 };
    assert_eq!(p.suggestion(), PaymentSuggestion::WholeBalance(40));
    let p = PreCalculatedPayment { amount_ratio: 50, is_alteration: false, tax_total: 40, balance: 40 };
    assert_eq!(p.suggestion(), PaymentSuggestion::ShareOfTotal);
    let p = PreCalculatedPayment { amount_ratio: 50, is_alteration: true, tax_total: 40, balance: 10 };
    assert_eq!(p.suggestion(), PaymentSuggestion::NoSuggestion);
    assert_eq!(p.label(2000), "50% de 2000");
}

#[test]
fn liquidation_rate_of_a_product() {
    let mut info = product_info(1);
    assert_eq!(info.liquidation_rate(), None);
    info.product.liquidation = true;
    assert_eq!(info.liquidation_rate(), Some((1000, 50)));
    info.types.push(ProductTypeView { name: "Robe de mariée".to_string() });
    assert_eq!(info.liquidation_rate(), Some((1000, 70)));
}

#[test]
fn items_are_added_from_the_products_of_the_invoice_type() {
    assert_eq!(products_to_add(&Some("Alteration".to_string())), Ok(ProductsToAdd::Named("Altération")));
    assert_eq!(products_to_add(&Some("Location".to_string())), Ok(ProductsToAdd::Named("Location")));
    assert_eq!(products_to_add(&None), Ok(ProductsToAdd::Catalogue));
    assert_eq!(products_to_add(&Some("Product".to_string())), Ok(ProductsToAdd::Catalogue));
    assert_eq!(products_to_add(&Some("Autre".to_string())), Err(UnknownFactureType));
}

#[test]
fn a_new_floor_item_is_recorded_out() {
    let s = initial_statut(5, 42, true, "2024-06-01".to_string()).unwrap();
    assert_eq!((s.facture_id, s.facture_item_id), (5, 42));
    assert_eq!((s.statut_type.as_str(), s.date.as_str()), ("RecordingOutDate", "2024-06-01"));
    assert_eq!(s.seamstress, None);
    assert!(initial_statut(5, 42, false, "2024-06-01".to_string()).is_none());
}
