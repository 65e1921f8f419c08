//! Verified core of a small studio's administrative backend.
//!
//! - `ident`: six-character identifiers shared by every kind of record.
//! - `money`: exact decimal amounts and invoice subtotals.
//! - `gate`: the human-verification check on public forms and the staff
//!   session check.
//! - `search`: the staff search forms, planned as optional predicates.
//! - `booking`, `clientele`, `invoicing`: the workflows, each deciding what to
//!   write from what was read.
//! - `store`: the tables held in memory and the meaning of each write.
//! - `photos`, `printing`: the gallery listing and the printed due date.

pub mod api;
pub mod booking;
pub mod clientele;
pub mod clock;
pub mod gate;
pub mod ident;
pub mod invoicing;
pub mod money;
pub mod photos;
pub mod printing;
pub mod search;
pub mod store;
