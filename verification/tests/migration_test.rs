use lmah_inventory_rs::cli::migration::{
    config_row_from_record, extract_date_from_timestamp, facture_type_from_export,
    item_type_from_export, product_type_row_from_record, validate_client_fields,
    validate_config_type, validate_event_fields, validate_facture_fields,
    validate_facture_item_fields, validate_product_fields, validate_product_type_fields,
    validate_statut_fields, validate_transaction_fields, AirtableRecord, AirtableRecords,
    ClientFields, ConfigFields, EventFields, ProductTypeFields, StatutFields, StatutRowWithFKs,
    ValidationError,
};
use lmah_inventory_rs::cli::ordering::{sort_by_created_time, sort_table_by_created_time, text_less};

fn client(first: &str, last: &str, phone: &str) -> ClientFields {
    ClientFields {
        first_name: first.to_string(),
        last_name: last.to_string(),
        street: None,
        city: None,
        phone1: phone.to_string(),
        phone2: None,
    }
}

#[test]
fn config_types_are_checked() {
    assert_eq!(validate_config_type("couturiere"), Ok(()));
    assert_eq!(validate_config_type("formule-type-autres"), Ok(()));
    assert_eq!(validate_config_type("autre"), Err(ValidationError::InvalidConfigType));
}

#[test]
fn client_records_need_names() {
    assert_eq!(validate_client_fields(&client("Ann", "Roy", "555")), Ok(()));
    assert_eq!(validate_client_fields(&client("  ", "Roy", "555")), Err(ValidationError::EmptyFirstName));
    assert_eq!(validate_client_fields(&client("Ann", "", "555")), Err(ValidationError::EmptyLastName));
}

#[test]
fn other_records_are_checked() {
    assert_eq!(validate_product_type_fields(&ProductTypeFields { name: " ".to_string() }), Err(ValidationError::EmptyProductTypeName));
    let e = EventFields { name: "Gala".to_string(), date: "".to_string(), event_type: "Bal".to_string() };
    assert_eq!(validate_event_fields(&e), Err(ValidationError::EmptyEventDate));
    let s = StatutFields { facture: vec![], facture_item: vec!["i".to_string()], statut_type: "PlaceOrder".to_string(), date: "2024-01-01".to_string(), seamstress: None };
    assert_eq!(validate_statut_fields(&s), Err(ValidationError::MissingFacture));
    let ids = vec!["rec1".to_string()];
    assert_eq!(validate_facture_fields(&vec![], &None, false), Err(ValidationError::MissingClient));
    assert_eq!(validate_facture_fields(&ids, &Some("Autre".to_string()), false), Err(ValidationError::InvalidFactureType));
    assert_eq!(validate_facture_fields(&ids, &Some("Location".to_string()), true), Err(ValidationError::NegativeFixedTotal));
    assert_eq!(validate_facture_fields(&ids, &None, false), Ok(()));
    assert_eq!(validate_facture_item_fields(&ids, &vec![], "Products", Some(1)), Err(ValidationError::MissingProduct));
    assert_eq!(validate_facture_item_fields(&ids, &ids, "Autre", Some(1)), Err(ValidationError::InvalidItemType));
    assert_eq!(validate_facture_item_fields(&ids, &ids, "Location", Some(-1)), Err(ValidationError::NegativeQuantity));
    assert_eq!(validate_transaction_fields(&ids, true, "2024-01-01", "cash"), Err(ValidationError::NegativeAmount));
    assert_eq!(validate_transaction_fields(&ids, false, " ", "cash"), Err(ValidationError::EmptyDate));
    assert_eq!(validate_transaction_fields(&ids, false, "2024-01-01", ""), Err(ValidationError::EmptyPaymentType));
    assert_eq!(validate_product_fields("", false), Err(ValidationError::EmptyProductName));
    assert_eq!(validate_product_fields("Robe", true), Err(ValidationError::NegativePrice));
}

#[test]
fn export_types_become_database_types() {
    assert_eq!(facture_type_from_export(&Some("Altération".to_string())), "Alteration");
    assert_eq!(facture_type_from_export(&Some("Location".to_string())), "Location");
    assert_eq!(facture_type_from_export(&Some("Produits".to_string())), "Product");
    assert_eq!(facture_type_from_export(&None), "Product");
    assert_eq!(item_type_from_export("Products"), "Product");
    assert_eq!(item_type_from_export("Alteration"), "Alteration");
    assert_eq!(extract_date_from_timestamp("2024-05-06T10:11:12.000Z"), "2024-05-06");
}

#[test]
fn records_become_rows() {
    let r = config_row_from_record(AirtableRecord {
        id: "rec1".to_string(),
        created_time: "2024".to_string(),
        fields: ConfigFields { key: "k".to_string(), value: "v".to_string(), config_type: "couturiere".to_string() },
    });
    assert_eq!(r.airtable_id, "_N/A_");
    assert_eq!((r.row.key.as_str(), r.row.value.as_str(), r.row.config_type.as_str()), ("k", "v", "couturiere"));
    let r = product_type_row_from_record(AirtableRecord { id: "rec2".to_string(), created_time: "".to_string(), fields: ProductTypeFields { name: "Voile".to_string() } });
    assert_eq!((r.airtable_id.as_str(), r.row.name.as_str()), ("_N/A_", "Voile"));
    let s = StatutRowWithFKs::from_record(AirtableRecord {
        id: "rec3".to_string(),
        created_time: "".to_string(),
        fields: StatutFields {
            facture: vec!["recF".to_string(), "recG".to_string()],
            facture_item: vec!["recI".to_string()],
            statut_type: "PlaceOrder".to_string(),
            date: "2024-02-03T04:05:06.000Z".to_string(),
            seamstress: Some("Anne".to_string()),
        },
    });
    assert_eq!((s.airtable_id.as_str(), s.facture_airtable_id.as_str(), s.facture_item_airtable_id.as_str()), ("rec3", "recF", "recI"));
    assert_eq!((s.row.date.as_str(), s.row.statut_type.as_str()), ("2024-02-03", "PlaceOrder"));
}

fn rec(id: &str, t: &str) -> AirtableRecord<u32> {
    AirtableRecord { id: id.to_string(), created_time: t.to_string(), fields: 0 }
}

#[test]
fn records_sorted_by_creation_time_keep_ties_in_order() {
    let sorted = sort_by_created_time(vec![
        rec("c", "2024-03-01T00:00:00.000Z"),
        rec("a", "2024-01-01T00:00:00.000Z"),
        rec("b1", "2024-02-01T00:00:00.000Z"),
        rec("b2", "2024-02-01T00:00:00.000Z"),
        rec("z", "2023-12-31T23:59:59.000Z"),
    ]);
    let ids: Vec<&str> = sorted.iter().map(|r| r.id.as_str()).collect();
    assert_eq!(ids, vec!["z", "a", "b1", "b2", "c"]);
    let table = sort_table_by_created_time(AirtableRecords { records: vec![rec("y", "b"), rec("x", "a")] });
    assert_eq!(table.records[0].id, "x");
    assert!(sort_by_created_time(Vec::<AirtableRecord<u32>>::new()).is_empty());
}

#[test]
fn text_order_is_string_order() {
    for (a, b) in [("a", "b"), ("a", "a"), ("ab", "a"), ("", "a"), ("é", "z"), ("2024-01", "2024-01-01")] {
        assert_eq!(text_less(a, b), a < b, "{} {}", a, b);
    }
}
