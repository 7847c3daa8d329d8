//! Invoice financing ledger: a compliance register, an invoice ledger and an
//! oracle registry, each a state machine whose every step is verified.

pub mod address;
pub mod arith;
pub mod collections;
pub mod compliance;
pub mod interplay;
pub mod invoice;
pub mod oracle_registry;
pub mod outcome;
pub mod series;
pub mod table;
pub mod text;
