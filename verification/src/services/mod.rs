//! What the server computes from the records it loads.
pub mod statuts;
pub mod item_flow;
pub mod factures;
pub mod config;
pub mod admin;
pub mod filename;
pub mod dashboard;
pub mod facture_data;
pub mod transactions;
pub mod facture_form;
