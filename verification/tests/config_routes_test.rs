use lmah_inventory_rs::database::has_table::{HasTable, Table, TableName};
use lmah_inventory_rs::models::config::{ConfigRow, ExtraLargeAmounts};
use lmah_inventory_rs::models::statuts::StatutRow;
use lmah_inventory_rs::routes::auth::{
    check_callback, check_user, check_userinfo, login_url, oauth_redirect_url, return_address, userinfo_url, SignInRefusal,
};
use lmah_inventory_rs::routes::{parse_authorized_users, GoogleConfig, PdfRocketConfig, RouterConfig, WebConfig};
use lmah_inventory_rs::services::config::{
    clauses_from, event_types_from, extra_large_amounts_from, note_templates_from, seamstresses_from,
    signatures_from, ConfigError,
};
use lmah_inventory_rs::services::filename::{pdf_name_for, Timestamp};
use lmah_inventory_rs::models::product_types::ProductTypeView;
use lmah_inventory_rs::templates::factures::{extra_large_amount, facture_type, gaine_size_choices};
use lmah_inventory_rs::templates::utils::state_tile_class;
use time::{Date, Month, OffsetDateTime, Time};

fn conf(t: &str, key: &str, value: &str) -> ConfigRow {
    ConfigRow {
        id: 0,
        key: key.to_string(),
        value: value.to_string(),
        config_type: t.to_string(),
        created_at: "".to_string(),
        updated_at: "".to_string(),
    }
}

fn rows() -> Vec<ConfigRow> {
    vec![
        conf("couturiere", "a", "Anne"),
        conf("event-type", "m", "Mariage"),
        conf("couturiere", "b", "Lise"),
        conf("clause-facture", "c", "Aucun remboursement"),
        conf("signature-facture", "s", "Signature"),
        conf("formule-type-robes", "r", "Robe ajustée"),
        conf("extra-taille-forte", "robes-de-mariées", "5000"),
        conf("extra-taille-forte", "autres-robes", "2500"),
    ]
}

#[test]
fn configuration_values_by_type_in_order() {
    assert_eq!(seamstresses_from(rows()), vec!["Anne", "Lise"]);
    assert_eq!(event_types_from(rows()), vec!["Mariage"]);
    assert_eq!(clauses_from(rows()), vec!["Aucun remboursement"]);
    assert_eq!(signatures_from(rows()), vec!["Signature"]);
    let notes = note_templates_from(rows());
    assert_eq!(notes.len(), 1);
    assert_eq!((notes[0].note_type.as_str(), notes[0].key.as_str(), notes[0].value.as_str()), ("formule-type-robes", "r", "Robe ajustée"));
}

#[test]
fn large_size_charges() {
    assert_eq!(extra_large_amounts_from(&rows()), Ok(ExtraLargeAmounts { wedding: 5000, others: 2500 }));
    let only_wedding = vec![conf("extra-taille-forte", "robes-de-mariées", "5000")];
    assert_eq!(extra_large_amounts_from(&only_wedding), Err(ConfigError::MissingOthersAmount));
    assert_eq!(extra_large_amounts_from(&vec![]), Err(ConfigError::MissingWeddingAmount));
    let bad = vec![conf("extra-taille-forte", "autres-robes", "25.00")];
    assert_eq!(extra_large_amounts_from(&bad), Err(ConfigError::InvalidAmount));
}

#[test]
fn authorized_users_list() {
    assert_eq!(parse_authorized_users("email1@test.com,email2@test.com"), vec!["email1@test.com", "email2@test.com"]);
    assert_eq!(parse_authorized_users("a@b.c"), vec!["a@b.c"]);
    assert_eq!(parse_authorized_users(""), vec![""]);
    assert_eq!(parse_authorized_users("a,,b"), vec!["a", "", "b"]);
}

fn router() -> RouterConfig {
    let web = WebConfig::new(
        "https://shop.example".to_string(),
        "cookie".to_string(),
        parse_authorized_users("ann@shop.example,bea@shop.example"),
    );
    let google = GoogleConfig::new("key".to_string(), "secret".to_string(), None, "bucket".to_string());
    RouterConfig::new(web, google, PdfRocketConfig::new("pdf".to_string()))
}

#[test]
fn router_configuration_hands_out_its_values() {
    let c = router();
    assert_eq!(c.external_url().as_str(), "https://shop.example");
    assert_eq!(c.cookie_key().as_str(), "cookie");
    assert_eq!(c.google_oauth_client_key().as_str(), "key");
    assert_eq!(c.google_oauth_client_secret().as_str(), "secret");
    assert!(c.google_service_account_json_key().is_none());
    assert_eq!(c.google_bucket_name().as_str(), "bucket");
    assert_eq!(c.pdf_rocket_api_key().as_str(), "pdf");
    assert!(c.check_if_users_is_authorized("ann@shop.example").is_ok());
    assert!(c.check_if_users_is_authorized("eve@shop.example").is_err());
}

#[test]
fn sign_in_callback_checks() {
    let ok = check_callback(Some("st".to_string()), Some("ver".to_string()), Some("st".to_string()), Some("code".to_string())).ok().unwrap();
    assert_eq!((ok.code.as_str(), ok.pkce_verifier.as_str()), ("code", "ver"));
    let e = check_callback(None, Some("ver".to_string()), Some("st".to_string()), Some("code".to_string())).err().unwrap();
    assert_eq!(e, SignInRefusal::MissingStateOrVerifier);
    let e = check_callback(Some("st".to_string()), Some("ver".to_string()), None, Some("code".to_string())).err().unwrap();
    assert_eq!(e, SignInRefusal::NoState);
    let e = check_callback(Some("st".to_string()), Some("ver".to_string()), Some("st".to_string()), None).err().unwrap();
    assert_eq!(e, SignInRefusal::NoCode);
    let e = check_callback(Some("st".to_string()), Some("ver".to_string()), Some("other".to_string()), Some("code".to_string())).err().unwrap();
    assert_eq!(e, SignInRefusal::MissingStateOrVerifier);
}

#[test]
fn sign_in_user_checks() {
    let c = router();
    assert_eq!(check_user(&c, Some("bea@shop.example".to_string()), Some(true)), Ok("bea@shop.example".to_string()));
    assert_eq!(check_user(&c, Some("bea@shop.example".to_string()), Some(false)), Err(SignInRefusal::EmailNotVerified));
    assert_eq!(check_user(&c, Some("eve@shop.example".to_string()), Some(true)), Err(SignInRefusal::NotAuthorized));
    assert_eq!(check_user(&c, None, Some(true)), Err(SignInRefusal::NoEmail));
    assert_eq!(check_user(&c, Some("bea@shop.example".to_string()), None), Err(SignInRefusal::NoVerifiedFlag));
    assert_eq!(return_address(None), "/");
    assert_eq!(return_address(Some("/factures".to_string())), "/factures");
    assert_eq!(oauth_redirect_url("https://shop.example"), "https://shop.example/signin/complete");
    assert_eq!(userinfo_url("tok"), "https://www.googleapis.com/oauth2/v2/userinfo?oauth_token=tok");
}

#[test]
fn test_pdf_name_for() {
    let now = OffsetDateTime::new_utc(
        Date::from_calendar_date(2024, Month::January, 1).unwrap(),
        Time::from_hms_nano(12, 59, 59, 500_000_000).unwrap(),
    );
    let now = Timestamp {
        year: now.year(),
        month: u8::from(now.month()),
        day: now.day(),
        hour: now.hour(),
        minute: now.minute(),
        second: now.second(),
    };
    assert_eq!(pdf_name_for(1, &now), "facture_1-2024-01-01_12-59-59.pdf")
}

#[test]
fn pdf_names_pad_every_field() {
    let t = Timestamp { year: 987, month: 3, day: 4, hour: 5, minute: 6, second: 7 };
    assert_eq!(pdf_name_for(-12, &t), "facture_-12-0987-03-04_05-06-07.pdf");
}

#[test]
fn table_names() {
    assert_eq!(Table::FactureItems.table_name(), "facture_items");
    assert_eq!(Table::Statuts.display_text(), "statuts");
    assert_eq!(StatutRow::table(), Table::Statuts);
    assert_eq!(ConfigRow::table().table_name(), "config");
}

#[test]
fn labels_shown_on_pages() {
    assert_eq!(facture_type(&Some("Alteration".to_string())), "Altération");
    assert_eq!(facture_type(&Some("Location".to_string())), "Location");
    assert_eq!(facture_type(&None), "Produits");
    assert_eq!(state_tile_class(7, true), "state-tile state-color-darkgreen text-white mr-1");
    assert_eq!(state_tile_class(2, false), "state-tile state-color-orange text-black ");
}

#[test]
fn visitors_are_sent_to_sign_in() {
    assert_eq!(login_url("/factures/3/items"), "/signin?return_url=/factures/3/items");
}

#[test]
fn user_information_from_the_provider() {
    let c = router();
    assert_eq!(
        check_userinfo(&c, r#"{"email":"ann@shop.example","verified_email":true,"picture":"x"}"#),
        Ok("ann@shop.example".to_string())
    );
    assert_eq!(check_userinfo(&c, r#"{"email":"ann@shop.example","verified_email":false}"#), Err(SignInRefusal::EmailNotVerified));
    assert_eq!(check_userinfo(&c, r#"{"email":"ann@shop.example"}"#), Err(SignInRefusal::NoVerifiedFlag));
    assert_eq!(check_userinfo(&c, r#"{"email":7,"verified_email":true}"#), Err(SignInRefusal::NoEmail));
    assert_eq!(check_userinfo(&c, r#"{"email":"eve@shop.example","verified_email":true}"#), Err(SignInRefusal::NotAuthorized));
    assert_eq!(check_userinfo(&c, "not json"), Err(SignInRefusal::UnreadableUserInfo));
    assert_eq!(check_userinfo(&c, "[1, 2]"), Err(SignInRefusal::NoEmail));
}

#[test]
fn item_form_choices() {
    let ex = ExtraLargeAmounts { wedding: 5000, others: 2500 };
    assert_eq!(extra_large_amount(&ProductTypeView { name: "Robe de bal".to_string() }, &ex), Some(5000));
    assert_eq!(extra_large_amount(&ProductTypeView { name: "Gaine".to_string() }, &ex), Some(2500));
    let none = gaine_size_choices(&None);
    assert_eq!(none, vec![(true, "S"), (false, "M"), (false, "L"), (false, "XL"), (false, "2XL"), (false, "3XL"), (false, "4XL")]);
    let xl = gaine_size_choices(&Some("XL".to_string()));
    assert_eq!(xl.iter().filter(|c| c.0).map(|c| c.1).collect::<Vec<_>>(), vec!["XL"]);
}
