//! The compliance register: who has been screened, with what outcome and until
//! when.
//!
//! The administrator registers screeners; screeners decide on addresses; anyone
//! can ask for a review of an address, which suspends a clearance until a
//! screener decides again.

pub mod contract;
pub mod effects;
pub mod error;
pub mod laws;
pub mod requests;
pub mod state;
pub mod types;
