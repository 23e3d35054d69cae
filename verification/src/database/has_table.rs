//! The tables of the database, their names, and the table of each kind of record.
use vstd::prelude::*;
use vstd::string::StringExecFns;
use crate::models::clients::ClientInsert;
use crate::models::config::ConfigRow;
use crate::models::facture_items::FactureItemRow;
use crate::models::factures::FactureRow;
use crate::models::payments::PaymentRow;
use crate::models::product_types::ProductTypeRow;
use crate::models::products::ProductRow;
use crate::models::refunds::RefundRow;
use crate::models::statuts::StatutRow;

verus! {

/// The tables of the database.
#[derive(Debug, Clone, Copy, PartialEq, Eq, Structural)]
pub enum Table {
    Clients,
    Config,
    Events,
    ProductTypes,
    Products,
    Factures,
    FactureItems,
    Payments,
    Refunds,
    Statuts,
}

/// The name of a table in the database.
pub open spec fn table_name_text(t: Table) -> Seq<char> {
    match t {
        Table::Clients => "clients"@,
        Table::Config => "config"@,
        Table::Events => "events"@,
        Table::ProductTypes => "product_types"@,
        Table::Products => "products"@,
        Table::Factures => "factures"@,
        Table::FactureItems => "facture_items"@,
        Table::Payments => "payments"@,
        Table::Refunds => "refunds"@,
        Table::Statuts => "statuts"@,
    }
}

/// Things that name a table.
pub trait TableName {
    fn table_name(&self) -> &'static str;
}

impl TableName for Table {
    fn table_name(&self) -> (r: &'static str)
        ensures
            r@ == table_name_text(*self),
    {
        match self {
            Table::Clients => "clients",
            Table::Config => "config",
            Table::Events => "events",
            Table::ProductTypes => "product_types",
            Table::Products => "products",
            Table::Factures => "factures",
            Table::FactureItems => "facture_items",
            Table::Payments => "payments",
            Table::Refunds => "refunds",
            Table::Statuts => "statuts",
        }
    }
}

impl Table {
    /// The table's name as text (what displaying a table prints).
    pub fn display_text(&self) -> (r: String)
        ensures
            r@ == table_name_text(*self),
    {
        String::from_str(self.table_name())
    }
}

/// Records stored in a table.
pub trait HasTable {
    fn table() -> Table;
}

impl HasTable for ConfigRow {
    fn table() -> (r: Table)
        ensures
            r == Table::Config,
    {
        Table::Config
    }
}

impl HasTable for ClientInsert {
    fn table() -> (r: Table)
        ensures
            r == Table::Clients,
    {
        Table::Clients
    }
}

impl HasTable for ProductTypeRow {
    fn table() -> (r: Table)
        ensures
            r == Table::ProductTypes,
    {
        Table::ProductTypes
    }
}

impl HasTable for ProductRow {
    fn table() -> (r: Table)
        ensures
            r == Table::Products,
    {
        Table::Products
    }
}

impl HasTable for FactureRow {
    fn table() -> (r: Table)
        ensures
            r == Table::Factures,
    {
        Table::Factures
    }
}

impl HasTable for FactureItemRow {
    fn table() -> (r: Table)
        ensures
            r == Table::FactureItems,
    {
        Table::FactureItems
    }
}

impl HasTable for PaymentRow {
    fn table() -> (r: Table)
        ensures
            r == Table::Payments,
    {
        Table::Payments
    }
}

impl HasTable for RefundRow {
    fn table() -> (r: Table)
        ensures
            r == Table::Refunds,
    {
        Table::Refunds
    }
}

impl HasTable for StatutRow {
    fn table() -> (r: Table)
        ensures
            r == Table::Statuts,
    {
        Table::Statuts
    }
}

/// Distinct tables have distinct names.
pub proof fn lemma_table_names_distinct(a: Table, b: Table)
    requires
        a != b,
    ensures
        table_name_text(a) != table_name_text(b),
{
    reveal_strlit("clients");
    reveal_strlit("config");
    reveal_strlit("events");
    reveal_strlit("product_types");
    reveal_strlit("products");
    reveal_strlit("factures");
    reveal_strlit("facture_items");
    reveal_strlit("payments");
    reveal_strlit("refunds");
    reveal_strlit("statuts");
    assert("clients"@.len() == 7);
    assert("config"@.len() == 6);
    assert("events"@.len() == 6);
    assert("product_types"@.len() == 13);
    assert("products"@.len() == 8);
    assert("factures"@.len() == 8);
    assert("facture_items"@.len() == 13);
    assert("payments"@.len() == 8);
    assert("refunds"@.len() == 7);
    assert("statuts"@.len() == 7);
    assert("config"@[1] != "events"@[1]);
    assert("product_types"@[0] != "facture_items"@[0]);
    assert("products"@[0] != "factures"@[0]);
    assert("products"@[0] != "payments"@[0] || "products"@[1] != "payments"@[1]);
    assert("factures"@[0] != "payments"@[0]);
    assert("clients"@[0] != "refunds"@[0]);
    assert("clients"@[0] != "statuts"@[0]);
    assert("refunds"@[0] != "statuts"@[0]);
}

} // verus!
