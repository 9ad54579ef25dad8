//! A verified layout engine that renders market-price records as a styled
//! terminal table: filtering by record identity, currency-aware value
//! conversion, per-cell styling, and assembly of the final table.

pub mod cell;
pub mod currency;
pub mod layout;
pub mod ptable;
pub mod record;
pub mod text;
