//! The oracle registry: who vouches for invoices, with what stake, and how
//! their votes decide.
//!
//! Oracles put up a stake and vote on invoices with the weight of it. A round
//! ends as soon as enough oracles have voted and one side holds the quorum's
//! share of the stake; the verdict goes to the invoice ledger. A round that runs
//! out of time is left to the administrator, so that an invoice never hangs on
//! oracles that do not answer.

pub mod contract;
pub mod effects;
pub mod error;
pub mod laws;
pub mod requests;
pub mod state;
pub mod types;
