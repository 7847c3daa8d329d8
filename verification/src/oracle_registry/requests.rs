//! The requests that can change the oracle registry.

use vstd::prelude::*;
use crate::address::Address;
use crate::oracle_registry::state::RegistryState;
use crate::oracle_registry::types::{QuorumTier, RegistryFailure};

verus! {

/// A request to the oracle registry.
pub enum Request {
    Initialize { admin: Address, stake_token: Address, min_stake: i128 },
    SetInvoiceContract { admin: Address, invoice_contract: Address },
    SetTreasury { admin: Address, treasury: Option<Address> },
    SetRegistryConfig {
        admin: Address,
        min_stake: i128,
        required_votes: u32,
        quorum_bps: u32,
        round_duration_secs: u64,
        deregister_cooldown_secs: u64,
    },
    SetQuorumTiers { admin: Address, tiers: Seq<QuorumTier> },
    Pause { admin: Address },
    Unpause { admin: Address },
    RegisterOracle { now: u64, operator: Address, stake_amount: i128 },
    DeregisterOracle { now: u64, operator: Address },
    SlashOracle { admin: Address, operator: Address, bps: u32, round_id: u64, evidence: Seq<u8> },
    OpenVerificationRound {
        now: u64,
        invoice_id: u64,
        oracle_hash: Seq<u8>,
        reply: Option<(bool, i128)>,
    },
    SubmitVote {
        now: u64,
        oracle: Address,
        invoice_id: u64,
        approved: bool,
        evidence_hash: Seq<u8>,
        accepted: bool,
    },
    ExpireRound { now: u64, invoice_id: u64 },
    AdminResolveRound {
        now: u64,
        admin: Address,
        invoice_id: u64,
        approved: bool,
        reason: Seq<u8>,
        accepted: bool,
    },
}

impl RegistryState {
    /// What a request makes of the state, or why it fails.
    pub open spec fn apply(self, request: Request) -> Result<RegistryState, RegistryFailure> {
        match request {
            Request::Initialize { admin, stake_token, min_stake } => {
                self.initialize(admin, stake_token, min_stake)
            },
            Request::SetInvoiceContract { admin, invoice_contract } => {
                self.set_invoice_contract(admin, invoice_contract)
            },
            Request::SetTreasury { admin, treasury } => self.set_treasury(admin, treasury),
            Request::SetRegistryConfig {
                admin,
                min_stake,
                required_votes,
                quorum_bps,
                round_duration_secs,
                deregister_cooldown_secs,
            } => {
                self.set_registry_config(
                    admin,
                    min_stake,
                    required_votes,
                    quorum_bps,
                    round_duration_secs,
                    deregister_cooldown_secs,
                )
            },
            Request::SetQuorumTiers { admin, tiers } => self.set_quorum_tiers(admin, tiers),
            Request::Pause { admin } => self.pause(admin),
            Request::Unpause { admin } => self.unpause(admin),
            Request::RegisterOracle { now, operator, stake_amount } => {
                self.register_oracle(now, operator, stake_amount)
            },
            Request::DeregisterOracle { now, operator } => self.deregister_oracle(now, operator),
            Request::SlashOracle { admin, operator, bps, round_id, evidence } => {
                self.slash_oracle(admin, operator, bps, round_id, evidence)
            },
            Request::OpenVerificationRound { now, invoice_id, oracle_hash, reply } => {
                self.open_verification_round(now, invoice_id, oracle_hash, reply)
            },
            Request::SubmitVote { now, oracle, invoice_id, approved, evidence_hash, accepted } => {
                self.submit_vote(now, oracle, invoice_id, approved, evidence_hash, accepted)
            },
            Request::ExpireRound { now, invoice_id } => self.expire_round(now, invoice_id),
            Request::AdminResolveRound { now, admin, invoice_id, approved, reason, accepted } => {
                self.admin_resolve_round(now, admin, invoice_id, approved, reason, accepted)
            },
        }
    }
}

} // verus!
