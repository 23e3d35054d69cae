//! Verified core of the bridal-shop inventory and invoicing server: the item
//! status state machines, invoice arithmetic, record validation for data import,
//! money and text formatting, and the configuration objects of the web layer.
use vstd::prelude::*;

pub mod text;
pub mod cli;
pub mod database;
pub mod money;
pub mod models;
pub mod routes;
pub mod services;
pub mod templates;

verus! {

} // verus!
