# lmah_inventory_rs

Inventory and invoicing for a bridal shop: invoices (factures) with their
items, payments and refunds; the state machine each invoice item goes through
(ordered, received, altered, out, ...); the configuration records of the shop;
and the import of a former spreadsheet export.

## Layout

- `src/` — the library, verified with Verus.
  - `models/` — the records and what is shown of them, the item states and the
    transitions each flow offers.
  - `services/statuts.rs`, `services/item_flow.rs` — replaying the recorded
    statuses of items through their flows, strictly or tolerantly.
  - `services/factures.rs`, `services/transactions.rs` — item and invoice
    figures, balances, and the checks on payment and refund amounts.
  - `services/dashboard.rs`, `services/facture_data.rs`, `services/admin.rs` —
    the dashboard, the items of one invoice and the administration page.
  - `services/facture_form.rs`, `services/config.rs`, `services/filename.rs` —
    reading the item form and the configuration records, naming printed
    invoices.
  - `routes/` — the server configuration and the sign-in decisions.
  - `cli/` — checking, converting and ordering the records of an export.
  - `text.rs`, `money.rs` — text helpers and the rendering of amounts.
- `tests/` — tests of the library.
- `app/` — the programs around the library: a web server start-up that serves
  the invoice dashboard and the sign-in page (axum, maud, sqlx), the database
  steps that check a payment against an invoice's balance and insert a new
  item with its first status, the export loader, and the figures that use
  floating point (taxes, liquidation prices, suggested payments). The other
  pages of the shop's server are not part of it.
