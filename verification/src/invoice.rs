//! The invoice ledger.

pub mod authority;
pub mod balances;
pub mod closing;
pub mod constants;
pub mod creation;
pub mod creation_effects;
pub mod debtors;
pub mod decimal;
pub mod disputes;
pub mod effects;
pub mod error;
pub mod extension;
pub mod frames;
pub mod funding;
pub mod governance;
pub mod laws;
pub mod precedence;
pub mod refusals;
pub mod requests;
pub mod rule_effects;
pub mod rules;
pub mod settings;
pub mod state;
pub mod types;
pub mod validity;
pub mod verification;
pub mod version;
pub mod views;
