//! Shiny-hunt tracking: rolling encounter counters that mirror their effect
//! onto a bound hunt, and a keyed store of hunt and shiny records with
//! parent/child grouping and insert-or-update semantics.

pub mod counter;
pub mod error;
pub mod hunt;
pub mod models;
pub mod screens;
pub mod shiny;
pub mod state;
pub mod store;
