//! The records of a spreadsheet export: their fields, the checks each record
//! must pass before import, and the rows they become.
use vstd::prelude::*;
use vstd::string::StringExecFns;
use crate::models::clients::ClientInsert;
use crate::models::config::ConfigInsert;
use crate::models::events::EventInsert;
use crate::models::facture_items::FactureItemInsert;
use crate::models::payments::PaymentInsert;
use crate::models::product_types::ProductTypeRow;
use crate::models::products::ProductInsert;
use crate::models::refunds::RefundInsert;
use crate::models::statuts::StatutInsert;
use crate::text::{before_first, is_blank, is_blank_text, str_equals, text_before};

verus! {

/// An image of a product, taken from a record's attachments.
#[derive(Debug)]
pub struct ProductImage {
    pub url: String,
    pub filename: String,
}

/// An invoice to import, with the number it had.
#[derive(Debug)]
pub struct MigrationFactureInsert {
    pub id: i64,
    pub client_id: i64,
    pub facture_type: Option<String>,
    pub date: Option<String>,
    pub event_id: Option<i64>,
    pub fixed_total: Option<i64>,
    pub cancelled: bool,
    pub paper_ref: Option<String>,
}

/// A product to import with its types and images.
#[derive(Debug)]
pub struct ProductRowWithRelated {
    pub row: ProductInsert,
    pub airtable_id: String,
    pub product_types: Vec<String>,
    pub image_front: Option<ProductImage>,
    pub image_back: Option<ProductImage>,
}

/// The records of one table of the export.
#[derive(Debug)]
pub struct AirtableRecords<T> {
    pub records: Vec<AirtableRecord<T>>,
}

/// One record of the export: its identifier, creation time and fields.
#[derive(Debug)]
pub struct AirtableRecord<T> {
    pub id: String,
    pub created_time: String,
    pub fields: T,
}

/// The fields of a configuration record.
#[derive(Debug)]
pub struct ConfigFields {
    pub key: String,
    pub value: String,
    pub config_type: String,
}

/// A row to insert with the identifier of the record it comes from.
#[derive(Debug)]
pub struct WithId<T> {
    pub row: T,
    pub airtable_id: String,
}

/// The rows of the first tables to import.
pub struct ToInsert {
    pub config: Vec<ConfigInsert>,
    pub clients: Vec<WithId<ClientInsert>>,
    pub product_types: Vec<ProductTypeRow>,
    pub events: Vec<WithId<EventInsert>>,
}

/// The fields of a client record.
#[derive(Debug)]
pub struct ClientFields {
    pub first_name: String,
    pub last_name: String,
    pub street: Option<String>,
    pub city: Option<String>,
    pub phone1: String,
    pub phone2: Option<String>,
}

/// The fields of a product type record.
#[derive(Debug)]
pub struct ProductTypeFields {
    pub name: String,
}

/// The fields of an event record.
#[derive(Debug)]
pub struct EventFields {
    pub name: String,
    pub date: String,
    pub event_type: String,
}

/// A file attached to a record.
#[derive(Debug)]
pub struct AirtableAttachment {
    pub id: String,
    pub url: String,
    pub filename: String,
}

/// An invoice whose client and event are still record identifiers.
#[derive(Debug)]
pub struct MigrationFactureInsertWithFKs {
    pub row: MigrationFactureInsert,
    pub airtable_id: String,
    pub client_airtable_id: String,
    pub event_airtable_id: Option<String>,
}

/// An item whose invoice and product are still record identifiers.
#[derive(Debug)]
pub struct FactureItemRowWithFKs {
    pub row: FactureItemInsert,
    pub airtable_id: String,
    pub facture_airtable_id: String,
    pub product_airtable_id: String,
}

/// A payment whose invoice is still a record identifier.
#[derive(Debug)]
pub struct PaymentRowWithFKs {
    pub row: PaymentInsert,
    pub airtable_id: String,
    pub facture_airtable_id: String,
}

/// A refund whose invoice is still a record identifier.
#[derive(Debug)]
pub struct RefundRowWithFKs {
    pub row: RefundInsert,
    pub airtable_id: String,
    pub facture_airtable_id: String,
}

/// The fields of a status record; the date is a timestamp.
#[derive(Debug)]
pub struct StatutFields {
    pub facture: Vec<String>,
    pub facture_item: Vec<String>,
    pub statut_type: String,
    pub date: String,
    pub seamstress: Option<String>,
}

/// A status whose invoice and item are still record identifiers.
#[derive(Debug)]
pub struct StatutRowWithFKs {
    pub row: StatutInsert,
    pub airtable_id: String,
    pub facture_airtable_id: String,
    pub facture_item_airtable_id: String,
}

/// Why a record of the export cannot be imported.
#[derive(Debug, Clone, Copy, PartialEq, Eq)]
pub enum ValidationError {
    InvalidConfigType,
    EmptyFirstName,
    EmptyLastName,
    EmptyPhone1,
    EmptyProductTypeName,
    EmptyEventName,
    EmptyEventDate,
    EmptyEventType,
    MissingFacture,
    MissingFactureItem,
    EmptyStatutType,
    EmptyStatutDate,
    MissingClient,
    InvalidFactureType,
    NegativeFixedTotal,
    MissingProduct,
    InvalidItemType,
    NegativeQuantity,
    NegativeAmount,
    EmptyDate,
    EmptyPaymentType,
    EmptyProductName,
    NegativePrice,
}

/// The types a configuration record can have.
pub open spec fn is_valid_config_type(t: Seq<char>) -> bool {
    ||| t == "clause-facture"@
    ||| t == "signature-facture"@
    ||| t == "formule-type-location"@
    ||| t == "formule-type-alteration"@
    ||| t == "formule-type-robes"@
    ||| t == "formule-type-autres"@
    ||| t == "event-type"@
    ||| t == "extra-taille-forte"@
    ||| t == "couturiere"@
}

/// A configuration record must have one of the known types.
pub fn validate_config_type(config_type: &str) -> (r: Result<(), ValidationError>)
    ensures
        r is Ok <==> is_valid_config_type(config_type@),
        r is Err ==> r == Err::<(), ValidationError>(ValidationError::InvalidConfigType),
{
    if str_equals(config_type, "clause-facture") || str_equals(config_type, "signature-facture")
        || str_equals(config_type, "formule-type-location") || str_equals(
        config_type,
        "formule-type-alteration",
    ) || str_equals(config_type, "formule-type-robes") || str_equals(
        config_type,
        "formule-type-autres",
    ) || str_equals(config_type, "event-type") || str_equals(config_type, "extra-taille-forte")
        || str_equals(config_type, "couturiere") {
        Ok(())
    } else {
        Err(ValidationError::InvalidConfigType)
    }
}

/// A client needs a first name, a last name and a phone number.
pub fn validate_client_fields(fields: &ClientFields) -> (r: Result<(), ValidationError>)
    ensures
        r == if is_blank_text(fields.first_name@) {
            Err::<(), ValidationError>(ValidationError::EmptyFirstName)
        } else if is_blank_text(fields.last_name@) {
            Err(ValidationError::EmptyLastName)
        } else if is_blank_text(fields.phone1@) {
            Err(ValidationError::EmptyPhone1)
        } else {
            Ok(())
        },
{
    if is_blank(fields.first_name.as_str()) {
        return Err(ValidationError::EmptyFirstName);
    }
    if is_blank(fields.last_name.as_str()) {
        return Err(ValidationError::EmptyLastName);
    }
    if is_blank(fields.phone1.as_str()) {
        return Err(ValidationError::EmptyPhone1);
    }
    Ok(())
}

/// A product type needs a name.
pub fn validate_product_type_fields(fields: &ProductTypeFields) -> (r: Result<(), ValidationError>)
    ensures
        r == if is_blank_text(fields.name@) {
            Err::<(), ValidationError>(ValidationError::EmptyProductTypeName)
        } else {
            Ok(())
        },
{
    if is_blank(fields.name.as_str()) {
        return Err(ValidationError::EmptyProductTypeName);
    }
    Ok(())
}

/// An event needs a name, a date and a type.
pub fn validate_event_fields(fields: &EventFields) -> (r: Result<(), ValidationError>)
    ensures
        r == if is_blank_text(fields.name@) {
            Err::<(), ValidationError>(ValidationError::EmptyEventName)
        } else if is_blank_text(fields.date@) {
            Err(ValidationError::EmptyEventDate)
        } else if is_blank_text(fields.event_type@) {
            Err(ValidationError::EmptyEventType)
        } else {
            Ok(())
        },
{
    if is_blank(fields.name.as_str()) {
        return Err(ValidationError::EmptyEventName);
    }
    if is_blank(fields.date.as_str()) {
        return Err(ValidationError::EmptyEventDate);
    }
    if is_blank(fields.event_type.as_str()) {
        return Err(ValidationError::EmptyEventType);
    }
    Ok(())
}

/// A status needs an invoice, an item, a type and a date.
pub fn validate_statut_fields(fields: &StatutFields) -> (r: Result<(), ValidationError>)
    ensures
        r == if fields.facture@.len() == 0 {
            Err::<(), ValidationError>(ValidationError::MissingFacture)
        } else if fields.facture_item@.len() == 0 {
            Err(ValidationError::MissingFactureItem)
        } else if is_blank_text(fields.statut_type@) {
            Err(ValidationError::EmptyStatutType)
        } else if is_blank_text(fields.date@) {
            Err(ValidationError::EmptyStatutDate)
        } else {
            Ok(())
        },
{
    if fields.facture.len() == 0 {
        return Err(ValidationError::MissingFacture);
    }
    if fields.facture_item.len() == 0 {
        return Err(ValidationError::MissingFactureItem);
    }
    if is_blank(fields.statut_type.as_str()) {
        return Err(ValidationError::EmptyStatutType);
    }
    if is_blank(fields.date.as_str()) {
        return Err(ValidationError::EmptyStatutDate);
    }
    Ok(())
}

/// The date part of a timestamp: what comes before the first 'T'
/// ("2024-09-03T00:00:00Z" gives "2024-09-03"); all of it without a 'T'.
pub fn extract_date_from_timestamp(timestamp: &str) -> (r: String)
    ensures
        r@ == before_first(timestamp@, 'T'),
{
    text_before(timestamp, 'T')
}

/// The invoice types of the export.
pub open spec fn is_valid_facture_type(t: Seq<char>) -> bool {
    t == "Produits"@ || t == "Location"@ || t == "Altération"@
}

/// An invoice needs a client, a known type when it has one, and a total that is
/// not negative (`fixed_total_negative` says whether its fixed total is below
/// zero).
pub fn validate_facture_fields(
    client: &Vec<String>,
    facture_type: &Option<String>,
    fixed_total_negative: bool,
) -> (r: Result<(), ValidationError>)
    ensures
        r == if client@.len() == 0 {
            Err::<(), ValidationError>(ValidationError::MissingClient)
        } else if facture_type.deep_view() matches Some(t) && !is_valid_facture_type(t) {
            Err(ValidationError::InvalidFactureType)
        } else if fixed_total_negative {
            Err(ValidationError::NegativeFixedTotal)
        } else {
            Ok(())
        },
        client@.len() > 0 && !fixed_total_negative && (facture_type.deep_view() matches Some(
            t,
        ) ==> (t == "Produits"@ || t == "Location"@ || t == "Altération"@)) ==> r is Ok,
{
    if client.len() == 0 {
        return Err(ValidationError::MissingClient);
    }
    match facture_type {
        Some(t) => {
            let s = t.as_str();
            if !(str_equals(s, "Produits") || str_equals(s, "Location") || str_equals(
                s,
                "Altération",
            )) {
                return Err(ValidationError::InvalidFactureType);
            }
        },
        None => {},
    }
    if fixed_total_negative {
        return Err(ValidationError::NegativeFixedTotal);
    }
    Ok(())
}

/// The item types of the export.
pub open spec fn is_valid_item_type(t: Seq<char>) -> bool {
    t == "Products"@ || t == "Location"@ || t == "Alteration"@ || t == "Produit"@
}

/// An item needs an invoice, a product, a known type and a quantity that is not
/// negative.
pub fn validate_facture_item_fields(
    facture: &Vec<String>,
    product: &Vec<String>,
    item_type: &str,
    quantity: Option<i64>,
) -> (r: Result<(), ValidationError>)
    ensures
        r == if facture@.len() == 0 {
            Err::<(), ValidationError>(ValidationError::MissingFacture)
        } else if product@.len() == 0 {
            Err(ValidationError::MissingProduct)
        } else if !is_valid_item_type(item_type@) {
            Err(ValidationError::InvalidItemType)
        } else if quantity matches Some(q) && q < 0 {
            Err(ValidationError::NegativeQuantity)
        } else {
            Ok(())
        },
{
    if facture.len() == 0 {
        return Err(ValidationError::MissingFacture);
    }
    if product.len() == 0 {
        return Err(ValidationError::MissingProduct);
    }
    if !(str_equals(item_type, "Products") || str_equals(item_type, "Location") || str_equals(
        item_type,
        "Alteration",
    ) || str_equals(item_type, "Produit")) {
        return Err(ValidationError::InvalidItemType);
    }
    match quantity {
        Some(q) => {
            if q < 0 {
                return Err(ValidationError::NegativeQuantity);
            }
        },
        None => {},
    }
    Ok(())
}

/// A payment or refund needs an invoice, an amount that is not negative
/// (`amount_negative` says whether it is below zero), a date and a type.
pub fn validate_transaction_fields(
    facture: &Vec<String>,
    amount_negative: bool,
    date: &str,
    transaction_type: &str,
) -> (r: Result<(), ValidationError>)
    ensures
        r == if facture@.len() == 0 {
            Err::<(), ValidationError>(ValidationError::MissingFacture)
        } else if amount_negative {
            Err(ValidationError::NegativeAmount)
        } else if is_blank_text(date@) {
            Err(ValidationError::EmptyDate)
        } else if is_blank_text(transaction_type@) {
            Err(ValidationError::EmptyPaymentType)
        } else {
            Ok(())
        },
{
    if facture.len() == 0 {
        return Err(ValidationError::MissingFacture);
    }
    if amount_negative {
        return Err(ValidationError::NegativeAmount);
    }
    if is_blank(date) {
        return Err(ValidationError::EmptyDate);
    }
    if is_blank(transaction_type) {
        return Err(ValidationError::EmptyPaymentType);
    }
    Ok(())
}

/// A product needs a name and a price that is not negative (`price_negative`
/// says whether it is below zero).
pub fn validate_product_fields(name: &str, price_negative: bool) -> (r: Result<(), ValidationError>)
    ensures
        r == if is_blank_text(name@) {
            Err::<(), ValidationError>(ValidationError::EmptyProductName)
        } else if price_negative {
            Err(ValidationError::NegativePrice)
        } else {
            Ok(())
        },
{
    if is_blank(name) {
        return Err(ValidationError::EmptyProductName);
    }
    if price_negative {
        return Err(ValidationError::NegativePrice);
    }
    Ok(())
}

/// The database's invoice type for an export's invoice type: "Produits" and
/// anything unknown or missing are products.
pub open spec fn facture_type_text(t: Option<Seq<char>>) -> Seq<char> {
    match t {
        Some(s) => if s == "Altération"@ {
            "Alteration"@
        } else if s == "Location"@ {
            "Location"@
        } else {
            "Product"@
        },
        None => "Product"@,
    }
}

/// The invoice types that invoice validation accepts are exactly "Produits" and
/// those that the import turns into another type than a product ("Location"
/// into a rental, "Altération" into an alteration); every export type that the
/// import converts to a rental or an alteration passes validation.
pub proof fn lemma_converted_facture_types_are_accepted(t: Seq<char>)
    ensures
        is_valid_facture_type(t) <==> (t == "Produits"@ || facture_type_text(Some(t))
            != "Product"@),
        facture_type_text(Some(t)) == "Alteration"@ ==> t == "Altération"@ && is_valid_facture_type(t),
        facture_type_text(Some(t)) == "Location"@ ==> t == "Location"@ && is_valid_facture_type(t),
        is_valid_facture_type("Produits"@) && is_valid_facture_type("Location"@)
            && is_valid_facture_type("Altération"@),
{
    reveal_strlit("Product");
    reveal_strlit("Alteration");
    reveal_strlit("Location");
    reveal_strlit("Produits");
    reveal_strlit("Altération");
    assert("Product"@.len() == 7);
    assert("Alteration"@.len() == 10);
    assert("Location"@.len() == 8);
}

/// The database's invoice type for an export's invoice type.
pub fn facture_type_from_export(t: &Option<String>) -> (r: &'static str)
    ensures
        r@ == facture_type_text(t.deep_view()),
{
    match t {
        Some(s) => {
            if str_equals(s.as_str(), "Altération") {
                "Alteration"
            } else if str_equals(s.as_str(), "Location") {
                "Location"
            } else {
                "Product"
            }
        },
        None => "Product",
    }
}

/// The database's item type for an export's item type: "Products" becomes
/// "Product"; other types are kept.
pub open spec fn item_type_text(t: Seq<char>) -> Seq<char> {
    if t == "Products"@ {
        "Product"@
    } else {
        t
    }
}

/// The database's item type for an export's item type.
pub fn item_type_from_export(t: &str) -> (r: String)
    ensures
        r@ == item_type_text(t@),
{
    if str_equals(t, "Products") {
        String::from_str("Product")
    } else {
        t.to_string()
    }
}

impl From<AirtableRecord<ClientFields>> for WithId<ClientInsert> {
    fn from(record: AirtableRecord<ClientFields>) -> (r: Self) {
        WithId {
            airtable_id: record.id,
            row: ClientInsert {
                first_name: record.fields.first_name,
                last_name: record.fields.last_name,
                street: record.fields.street,
                city: record.fields.city,
                phone1: record.fields.phone1,
                phone2: record.fields.phone2,
            },
        }
    }
}

impl vstd::std_specs::convert::FromSpecImpl<AirtableRecord<ClientFields>> for WithId<ClientInsert> {
    open spec fn obeys_from_spec() -> bool {
        true
    }

    open spec fn from_spec(record: AirtableRecord<ClientFields>) -> WithId<ClientInsert> {
        WithId {
            airtable_id: record.id,
            row: ClientInsert {
                first_name: record.fields.first_name,
                last_name: record.fields.last_name,
                street: record.fields.street,
                city: record.fields.city,
                phone1: record.fields.phone1,
                phone2: record.fields.phone2,
            },
        }
    }
}

impl From<AirtableRecord<EventFields>> for WithId<EventInsert> {
    fn from(record: AirtableRecord<EventFields>) -> (r: Self) {
        WithId {
            airtable_id: record.id,
            row: EventInsert {
                name: record.fields.name,
                event_type: record.fields.event_type,
                date: record.fields.date,
            },
        }
    }
}

impl vstd::std_specs::convert::FromSpecImpl<AirtableRecord<EventFields>> for WithId<EventInsert> {
    open spec fn obeys_from_spec() -> bool {
        true
    }

    open spec fn from_spec(record: AirtableRecord<EventFields>) -> WithId<EventInsert> {
        WithId {
            airtable_id: record.id,
            row: EventInsert {
                name: record.fields.name,
                event_type: record.fields.event_type,
                date: record.fields.date,
            },
        }
    }
}

/// The configuration row of a record; it keeps no record identifier.
pub fn config_row_from_record(record: AirtableRecord<ConfigFields>) -> (r: WithId<ConfigInsert>)
    ensures
        r.airtable_id@ == "_N/A_"@,
        r.row.key == record.fields.key,
        r.row.value == record.fields.value,
        r.row.config_type == record.fields.config_type,
{
    WithId {
        airtable_id: String::from_str("_N/A_"),
        row: ConfigInsert {
            key: record.fields.key,
            value: record.fields.value,
            config_type: record.fields.config_type,
        },
    }
}

/// The product type row of a record; it keeps no record identifier.
pub fn product_type_row_from_record(record: AirtableRecord<ProductTypeFields>) -> (r: WithId<
    ProductTypeRow,
>)
    ensures
        r.airtable_id@ == "_N/A_"@,
        r.row.name == record.fields.name,
{
    WithId { airtable_id: String::from_str("_N/A_"), row: ProductTypeRow { name: record.fields.name } }
}

impl StatutRowWithFKs {
    /// The status of a record, with its invoice and item still record
    /// identifiers (the first of each list) and its date taken from the
    /// timestamp.
    pub fn from_record(record: AirtableRecord<StatutFields>) -> (r: Self)
        requires
            record.fields.facture@.len() > 0,
            record.fields.facture_item@.len() > 0,
        ensures
            r.airtable_id == record.id,
            r.facture_airtable_id == record.fields.facture@[0],
            r.facture_item_airtable_id == record.fields.facture_item@[0],
            r.row.facture_id == 0,
            r.row.facture_item_id == 0,
            r.row.statut_type == record.fields.statut_type,
            r.row.date@ == before_first(record.fields.date@, 'T'),
            r.row.seamstress == record.fields.seamstress,
    {
        let facture_airtable_id = record.fields.facture[0].clone();
        let facture_item_airtable_id = record.fields.facture_item[0].clone();
        let date = extract_date_from_timestamp(record.fields.date.as_str());
        StatutRowWithFKs {
            airtable_id: record.id,
            facture_airtable_id,
            facture_item_airtable_id,
            row: StatutInsert {
                facture_id: 0,
                facture_item_id: 0,
                statut_type: record.fields.statut_type,
                date,
                seamstress: record.fields.seamstress,
            },
        }
    }
}

} // verus!
