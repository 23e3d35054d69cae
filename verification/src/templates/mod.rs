//! What the pages compute before rendering.
pub mod utils;
pub mod factures;
