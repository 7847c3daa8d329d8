//! What the oracle registry keeps.

use vstd::prelude::*;
use crate::address::Address;
use crate::collections::VoteMap;
use crate::oracle_registry::error::OracleRegistryError;
use crate::outcome::Trap;
use crate::text::Text;

verus! {

/// Why a request to the registry came to nothing.
#[derive(Clone, Copy, Debug, PartialEq, Eq, Structural)]
pub enum RegistryFailure {
    Error(OracleRegistryError),
    Trap(Trap),
}

/// An oracle and its stake.
#[derive(Clone, Copy, Debug, PartialEq)]
pub struct OracleInfo {
    pub address: Address,
    pub stake_amount: i128,
    pub stake_token: Address,
    pub is_active: bool,
    pub total_verifications: u32,
    pub total_slashes: u32,
    pub registered_at: u64,
    /// When the oracle asked to leave. Once the cooldown has passed it can ask
    /// again, gets its stake back and is forgotten.
    pub deregister_requested_at: Option<u64>,
}

impl View for OracleInfo {
    type V = OracleInfo;

    open spec fn view(&self) -> OracleInfo {
        *self
    }
}

/// How a round of votes stands.
#[derive(Clone, Copy, Debug, PartialEq, Eq, Structural)]
pub enum RoundStatus {
    Open,
    ConsensusApproved,
    ConsensusRejected,
    Expired,
}

/// A round of votes on an invoice.
pub struct VerificationRound<S = Text, M = VoteMap> {
    pub invoice_id: u64,
    pub required_votes: u32,
    pub total_registered_oracles: u32,
    pub votes: M,
    pub weight_for: i128,
    pub weight_against: i128,
    /// The stake of all active oracles when the round was opened. The quorum is
    /// a share of this number, so later changes of stakes do not move it.
    pub total_stake_snapshot: i128,
    pub quorum_bps: u32,
    pub status: RoundStatus,
    pub opened_at: u64,
    pub deadline: u64,
    pub oracle_hash: S,
}

impl View for VerificationRound<Text, VoteMap> {
    type V = VerificationRound<Seq<u8>, Map<Address, bool>>;

    open spec fn view(&self) -> VerificationRound<Seq<u8>, Map<Address, bool>> {
        VerificationRound {
            invoice_id: self.invoice_id,
            required_votes: self.required_votes,
            total_registered_oracles: self.total_registered_oracles,
            votes: self.votes@,
            weight_for: self.weight_for,
            weight_against: self.weight_against,
            total_stake_snapshot: self.total_stake_snapshot,
            quorum_bps: self.quorum_bps,
            status: self.status,
            opened_at: self.opened_at,
            deadline: self.deadline,
            oracle_hash: self.oracle_hash@,
        }
    }
}

/// The rules of the registry.
#[derive(Clone, Copy, Debug, PartialEq)]
pub struct RegistryConfig {
    pub min_stake: i128,
    pub stake_token: Address,
    pub required_votes: u32,
    pub quorum_bps: u32,
    pub round_duration_secs: u64,
    pub deregister_cooldown_secs: u64,
    pub treasury: Option<Address>,
}

/// The quorum of invoices of at least a given amount. Tiers are kept in
/// ascending order; the highest that an amount reaches counts.
#[derive(Clone, Copy, Debug, PartialEq, Eq, Structural)]
pub struct QuorumTier {
    pub min_invoice_amount: i128,
    pub quorum_bps: u32,
}

/// Tokens that have to change hands.
#[derive(Clone, Copy, Debug, PartialEq, Eq, Structural)]
pub struct Transfer {
    pub token: Address,
    pub from: Address,
    pub to: Address,
    pub amount: i128,
}

impl View for Transfer {
    type V = Transfer;

    open spec fn view(&self) -> Transfer {
        *self
    }
}

/// What the registry announces.
#[derive(Debug)]
pub enum RegistryEvent<S = Text> {
    InvoiceContractSet { invoice_contract: Address },
    ConfigUpdated { admin: Address },
    TiersUpdated { admin: Address },
    Paused { admin: Address },
    Unpaused { admin: Address },
    Registered { operator: Address, stake_amount: i128 },
    DeregistrationRequested { operator: Address },
    Deregistered { operator: Address },
    Slashed {
        operator: Address,
        bps: u32,
        slash_amount: i128,
        admin: Address,
        round_id: u64,
        evidence: S,
    },
    RoundOpened { invoice_id: u64, active_count: u32, total_stake: i128 },
    Voted { invoice_id: u64, oracle: Address, approved: bool, weight: i128, evidence_hash: S },
    Consensus { invoice_id: u64, approved: bool },
    RoundExpired { invoice_id: u64 },
    Fallback { invoice_id: u64, approved: bool, admin: Address, reason: S },
}

impl View for RegistryEvent<Text> {
    type V = RegistryEvent<Seq<u8>>;

    open spec fn view(&self) -> RegistryEvent<Seq<u8>> {
        match *self {
            RegistryEvent::InvoiceContractSet { invoice_contract } => {
                RegistryEvent::InvoiceContractSet { invoice_contract }
            },
            RegistryEvent::ConfigUpdated { admin } => RegistryEvent::ConfigUpdated { admin },
            RegistryEvent::TiersUpdated { admin } => RegistryEvent::TiersUpdated { admin },
            RegistryEvent::Paused { admin } => RegistryEvent::Paused { admin },
            RegistryEvent::Unpaused { admin } => RegistryEvent::Unpaused { admin },
            RegistryEvent::Registered { operator, stake_amount } => RegistryEvent::Registered {
                operator,
                stake_amount,
            },
            RegistryEvent::DeregistrationRequested { operator } => {
                RegistryEvent::DeregistrationRequested { operator }
            },
            RegistryEvent::Deregistered { operator } => RegistryEvent::Deregistered { operator },
            RegistryEvent::Slashed { operator, bps, slash_amount, admin, round_id, evidence } => {
                RegistryEvent::Slashed {
                    operator,
                    bps,
                    slash_amount,
                    admin,
                    round_id,
                    evidence: evidence@,
                }
            },
            RegistryEvent::RoundOpened { invoice_id, active_count, total_stake } => {
                RegistryEvent::RoundOpened { invoice_id, active_count, total_stake }
            },
            RegistryEvent::Voted { invoice_id, oracle, approved, weight, evidence_hash } => {
                RegistryEvent::Voted {
                    invoice_id,
                    oracle,
                    approved,
                    weight,
                    evidence_hash: evidence_hash@,
                }
            },
            RegistryEvent::Consensus { invoice_id, approved } => RegistryEvent::Consensus {
                invoice_id,
                approved,
            },
            RegistryEvent::RoundExpired { invoice_id } => RegistryEvent::RoundExpired {
                invoice_id,
            },
            RegistryEvent::Fallback { invoice_id, approved, admin, reason } => {
                RegistryEvent::Fallback { invoice_id, approved, admin, reason: reason@ }
            },
        }
    }
}

/// The call that tells the invoice ledger of a verdict.
#[derive(Debug)]
pub struct ConsensusCall<S = Text> {
    pub invoice_contract: Address,
    pub invoice_id: u64,
    pub registry: Address,
    pub approved: bool,
    pub reason: S,
    pub oracle_hash: S,
}

impl View for ConsensusCall<Text> {
    type V = ConsensusCall<Seq<u8>>;

    open spec fn view(&self) -> ConsensusCall<Seq<u8>> {
        ConsensusCall {
            invoice_contract: self.invoice_contract,
            invoice_id: self.invoice_id,
            registry: self.registry,
            approved: self.approved,
            reason: self.reason@,
            oracle_hash: self.oracle_hash@,
        }
    }
}

} // verus!
