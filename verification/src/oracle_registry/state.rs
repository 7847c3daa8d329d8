//! The oracle registry as a state machine: what each request makes of the
//! state, or why it comes to nothing.

use vstd::prelude::*;
use crate::address::Address;
use crate::oracle_registry::error::OracleRegistryError;
use crate::oracle_registry::types::{
    ConsensusCall, OracleInfo, QuorumTier, RegistryConfig, RegistryEvent, RegistryFailure,
    RoundStatus, Transfer, VerificationRound,
};
use crate::outcome::Trap;

verus! {

/// Votes that a round needs, by default.
pub const DEFAULT_REQUIRED_VOTES: u32 = 3;

/// Share of the stake that decides a round, in ten-thousandths, by default.
pub const DEFAULT_QUORUM_BPS: u32 = 6_600;

/// How long a round is open, by default: 3 days.
pub const DEFAULT_ROUND_DURATION_SECS: u64 = 3 * 24 * 60 * 60;

/// How long an oracle that leaves waits for its stake, by default: 7 days.
pub const DEFAULT_DEREGISTER_COOLDOWN_SECS: u64 = 7 * 24 * 60 * 60;

/// What the registry knows.
#[verifier::ext_equal]
pub struct RegistryState {
    /// The registry's own address.
    pub me: Address,
    pub initialized: bool,
    pub admin: Option<Address>,
    pub paused: bool,
    pub config: Option<RegistryConfig>,
    pub invoice_contract: Option<Address>,
    pub oracles: Map<Address, OracleInfo>,
    pub oracle_ids: Seq<Address>,
    pub rounds: Map<u64, VerificationRound<Seq<u8>, Map<Address, bool>>>,
    pub open_rounds: Seq<u64>,
    pub quorum_tiers: Seq<QuorumTier>,
    pub transfers: Seq<Transfer>,
    pub events: Seq<RegistryEvent<Seq<u8>>>,
}

/// A failure with one of the registry's errors.
pub open spec fn failed<T>(e: OracleRegistryError) -> Result<T, RegistryFailure> {
    Err(RegistryFailure::Error(e))
}

/// Whether tiers are in strictly ascending order, with amounts that are not
/// negative and quorums between one and ten thousand ten-thousandths.
pub open spec fn valid_tiers(tiers: Seq<QuorumTier>) -> bool {
    &&& forall|i: int|
        0 <= i < tiers.len() ==> (#[trigger] tiers[i]).min_invoice_amount >= 0 && 0
            < tiers[i].quorum_bps <= 10_000
    &&& forall|i: int, j: int|
        0 <= i < j < tiers.len() ==> (#[trigger] tiers[i]).min_invoice_amount < (
        #[trigger] tiers[j]).min_invoice_amount
}

/// How many tiers, from the first on, an amount reaches without a gap.
pub open spec fn reached_tiers(tiers: Seq<QuorumTier>, amount: i128) -> nat
    decreases tiers.len(),
{
    if tiers.len() == 0 || amount < tiers[0].min_invoice_amount {
        0
    } else {
        1 + reached_tiers(tiers.skip(1), amount)
    }
}

/// The quorum for an invoice of a given amount.
pub open spec fn quorum_for(tiers: Seq<QuorumTier>, default_bps: u32, amount: i128) -> u32 {
    let reached = reached_tiers(tiers, amount);
    if reached == 0 {
        default_bps
    } else {
        tiers[reached - 1].quorum_bps
    }
}

/// The stake that decides a round: the quorum's share of the stake, rounded up.
/// There is none if it cannot be computed in the range of the type.
pub open spec fn threshold(total_stake: i128, quorum_bps: u32) -> Option<i128> {
    match total_stake.checked_mul(quorum_bps as i128) {
        None => None,
        Some(product) => match product.checked_add(9_999) {
            None => None,
            Some(sum) => sum.checked_div(10_000),
        },
    }
}

/// Whether `list` holds exactly the given votes, in the order of the voters'
/// addresses.
pub open spec fn tallies(list: Seq<(Address, bool)>, votes: Map<Address, bool>) -> bool {
    &&& forall|i: int, j: int|
        0 <= i < j < list.len() ==> (#[trigger] list[i]).0.precedes((#[trigger] list[j]).0)
    &&& forall|i: int|
        0 <= i < list.len() ==> votes.dom().contains((#[trigger] list[i]).0) && votes[list[i].0]
            == list[i].1
    &&& forall|a: Address| #[trigger]
        votes.dom().contains(a) ==> exists|i: int|
            0 <= i < list.len() && #[trigger] list[i] == (a, votes[a])
}

/// The words that go with a verdict to the invoice ledger.
pub open spec fn verdict_reason(approved: bool) -> Seq<u8> {
    if approved {
        // "consensus approved"
        seq![
            99u8, 111u8, 110u8, 115u8, 101u8, 110u8, 115u8, 117u8, 115u8, 32u8, 97u8, 112u8, 112u8,
            114u8, 111u8, 118u8, 101u8, 100u8,
        ]
    } else {
        // "consensus rejected"
        seq![
            99u8, 111u8, 110u8, 115u8, 101u8, 110u8, 115u8, 117u8, 115u8, 32u8, 114u8, 101u8, 106u8,
            101u8, 99u8, 116u8, 101u8, 100u8,
        ]
    }
}

impl<S> VerificationRound<S, Map<Address, bool>> {
    /// The round with one more vote, of the given weight, unless a sum leaves
    /// its range.
    pub open spec fn with_vote(self, oracle: Address, approved: bool, weight: i128) -> Option<
        VerificationRound<S, Map<Address, bool>>,
    > {
        let votes = self.votes.insert(oracle, approved);
        if approved {
            match self.weight_for.checked_add(weight) {
                None => None,
                Some(weight_for) => Some(VerificationRound { votes, weight_for, ..self }),
            }
        } else {
            match self.weight_against.checked_add(weight) {
                None => None,
                Some(weight_against) => Some(VerificationRound { votes, weight_against, ..self }),
            }
        }
    }

    /// What the votes decide when the decisive stake is `needed`: nothing while
    /// fewer oracles than required have voted or no side has enough stake.
    pub open spec fn verdict(self, needed: i128) -> Option<bool> {
        if self.votes.dom().len() < self.required_votes {
            None
        } else if self.weight_for >= needed {
            Some(true)
        } else if self.weight_against >= needed {
            Some(false)
        } else {
            None
        }
    }

    /// The round after a verdict.
    pub open spec fn decided(self, approved: bool) -> VerificationRound<S, Map<Address, bool>> {
        VerificationRound {
            status: if approved {
                RoundStatus::ConsensusApproved
            } else {
                RoundStatus::ConsensusRejected
            },
            ..self
        }
    }
}

impl RegistryState {
    /// The registry at the address `me` before anybody has set it up.
    pub open spec fn blank(me: Address) -> RegistryState {
        RegistryState {
            me,
            initialized: false,
            admin: None,
            paused: false,
            config: None,
            invoice_contract: None,
            oracles: Map::empty(),
            oracle_ids: Seq::empty(),
            rounds: Map::empty(),
            open_rounds: Seq::empty(),
            quorum_tiers: Seq::empty(),
            transfers: Seq::empty(),
            events: Seq::empty(),
        }
    }

    /// The state in which `event` was announced as well.
    pub open spec fn emit(self, event: RegistryEvent<Seq<u8>>) -> RegistryState {
        RegistryState { events: self.events.push(event), ..self }
    }

    /// The state in which tokens have to change hands as well.
    pub open spec fn pay(
        self,
        token: Address,
        from: Address,
        to: Address,
        amount: i128,
    ) -> RegistryState {
        RegistryState {
            transfers: self.transfers.push(Transfer { token, from, to, amount }),
            ..self
        }
    }

    /// Why `caller` is not the administrator, if so.
    pub open spec fn admin_refusal(self, caller: Address) -> Option<OracleRegistryError> {
        match self.admin {
            None => Some(OracleRegistryError::NotInitialized),
            Some(admin) => if caller != admin {
                Some(OracleRegistryError::Unauthorized)
            } else {
                None
            },
        }
    }

    pub open spec fn initialize(
        self,
        admin: Address,
        stake_token: Address,
        min_stake: i128,
    ) -> Result<RegistryState, RegistryFailure> {
        if self.initialized {
            failed(OracleRegistryError::AlreadyInitialized)
        } else if min_stake <= 0 {
            failed(OracleRegistryError::InvalidAmount)
        } else {
            Ok(
                RegistryState {
                    initialized: true,
                    admin: Some(admin),
                    paused: false,
                    config: Some(
                        RegistryConfig {
                            min_stake,
                            stake_token,
                            required_votes: DEFAULT_REQUIRED_VOTES,
                            quorum_bps: DEFAULT_QUORUM_BPS,
                            round_duration_secs: DEFAULT_ROUND_DURATION_SECS,
                            deregister_cooldown_secs: DEFAULT_DEREGISTER_COOLDOWN_SECS,
                            treasury: None,
                        },
                    ),
                    oracle_ids: Seq::empty(),
                    open_rounds: Seq::empty(),
                    ..self
                },
            )
        }
    }

    pub open spec fn set_invoice_contract(
        self,
        admin: Address,
        invoice_contract: Address,
    ) -> Result<RegistryState, RegistryFailure> {
        match self.admin_refusal(admin) {
            Some(e) => failed(e),
            None => Ok(
                RegistryState { invoice_contract: Some(invoice_contract), ..self }.emit(
                    RegistryEvent::InvoiceContractSet { invoice_contract },
                ),
            ),
        }
    }

    pub open spec fn set_treasury(self, admin: Address, treasury: Option<Address>) -> Result<
        RegistryState,
        RegistryFailure,
    > {
        match self.admin_refusal(admin) {
            Some(e) => failed(e),
            None => match self.config {
                None => failed(OracleRegistryError::NotInitialized),
                Some(config) => Ok(
                    RegistryState { config: Some(RegistryConfig { treasury, ..config }), ..self },
                ),
            },
        }
    }

    pub open spec fn set_registry_config(
        self,
        admin: Address,
        min_stake: i128,
        required_votes: u32,
        quorum_bps: u32,
        round_duration_secs: u64,
        deregister_cooldown_secs: u64,
    ) -> Result<RegistryState, RegistryFailure> {
        match self.admin_refusal(admin) {
            Some(e) => failed(e),
            None => if min_stake <= 0 || required_votes == 0 || quorum_bps == 0 || quorum_bps
                > 10_000 || round_duration_secs == 0 {
                failed(OracleRegistryError::InvalidConfig)
            } else {
                match self.config {
                    None => failed(OracleRegistryError::NotInitialized),
                    Some(config) => Ok(
                        RegistryState {
                            config: Some(
                                RegistryConfig {
                                    min_stake,
                                    required_votes,
                                    quorum_bps,
                                    round_duration_secs,
                                    deregister_cooldown_secs,
                                    ..config
                                },
                            ),
                            ..self
                        }.emit(RegistryEvent::ConfigUpdated { admin }),
                    ),
                }
            },
        }
    }

    pub open spec fn set_quorum_tiers(self, admin: Address, tiers: Seq<QuorumTier>) -> Result<
        RegistryState,
        RegistryFailure,
    > {
        match self.admin_refusal(admin) {
            Some(e) => failed(e),
            None => if !valid_tiers(tiers) {
                failed(OracleRegistryError::InvalidQuorumTiers)
            } else {
                Ok(
                    RegistryState { quorum_tiers: tiers, ..self }.emit(
                        RegistryEvent::TiersUpdated { admin },
                    ),
                )
            },
        }
    }

    pub open spec fn pause(self, admin: Address) -> Result<RegistryState, RegistryFailure> {
        match self.admin_refusal(admin) {
            Some(e) => failed(e),
            None => Ok(RegistryState { paused: true, ..self }.emit(RegistryEvent::Paused { admin })),
        }
    }

    pub open spec fn unpause(self, admin: Address) -> Result<RegistryState, RegistryFailure> {
        match self.admin_refusal(admin) {
            Some(e) => failed(e),
            None => Ok(
                RegistryState { paused: false, ..self }.emit(RegistryEvent::Unpaused { admin }),
            ),
        }
    }

    pub open spec fn register_oracle(
        self,
        now: u64,
        operator: Address,
        stake_amount: i128,
    ) -> Result<RegistryState, RegistryFailure> {
        if self.paused {
            failed(OracleRegistryError::ContractPaused)
        } else {
            match self.config {
                None => failed(OracleRegistryError::NotInitialized),
                Some(config) => if stake_amount < config.min_stake {
                    failed(OracleRegistryError::InsufficientStake)
                } else if self.oracles.dom().contains(operator) {
                    failed(OracleRegistryError::AlreadyRegistered)
                } else if !self.oracle_ids.contains(operator) && self.oracle_ids.len() >= u32::MAX {
                    Err(RegistryFailure::Trap(Trap::CollectionFull))
                } else {
                    let info = OracleInfo {
                        address: operator,
                        stake_amount,
                        stake_token: config.stake_token,
                        is_active: true,
                        total_verifications: 0,
                        total_slashes: 0,
                        registered_at: now,
                        deregister_requested_at: None,
                    };
                    Ok(
                        RegistryState {
                            oracles: self.oracles.insert(operator, info),
                            oracle_ids: if self.oracle_ids.contains(operator) {
                                self.oracle_ids
                            } else {
                                self.oracle_ids.push(operator)
                            },
                            ..self.pay(config.stake_token, operator, self.me, stake_amount)
                        }.emit(RegistryEvent::Registered { operator, stake_amount }),
                    )
                },
            }
        }
    }

    /// Whether some open round still lacks the vote of `operator`.
    pub open spec fn owes_vote(self, operator: Address) -> bool {
        exists|i: int|
            0 <= i < self.open_rounds.len() && self.lacks_vote(#[trigger] self.open_rounds[i], operator)
    }

    /// Whether the round on an invoice is open and lacks the vote of `operator`.
    pub open spec fn lacks_vote(self, invoice_id: u64, operator: Address) -> bool {
        &&& self.rounds.dom().contains(invoice_id)
        &&& self.rounds[invoice_id].status is Open
        &&& !self.rounds[invoice_id].votes.dom().contains(operator)
    }

    pub open spec fn deregister_oracle(self, now: u64, operator: Address) -> Result<
        RegistryState,
        RegistryFailure,
    > {
        if self.paused {
            failed(OracleRegistryError::ContractPaused)
        } else if !self.oracles.dom().contains(operator) {
            failed(OracleRegistryError::NotRegistered)
        } else {
            let info = self.oracles[operator];
            match self.config {
                None => failed(OracleRegistryError::NotInitialized),
                Some(config) => match info.deregister_requested_at {
                    None => if !info.is_active {
                        failed(OracleRegistryError::NotRegistered)
                    } else if self.owes_vote(operator) {
                        failed(OracleRegistryError::DeregisterHasPendingVotes)
                    } else {
                        let leaving = OracleInfo {
                            is_active: false,
                            deregister_requested_at: Some(now),
                            ..info
                        };
                        Ok(
                            RegistryState {
                                oracles: self.oracles.insert(operator, leaving),
                                ..self
                            }.emit(RegistryEvent::DeregistrationRequested { operator }),
                        )
                    },
                    Some(requested_at) => if now < requested_at.saturating_add(
                        config.deregister_cooldown_secs,
                    ) {
                        failed(OracleRegistryError::DeregisterCooldownActive)
                    } else {
                        Ok(
                            RegistryState {
                                oracles: self.oracles.remove(operator),
                                oracle_ids: self.oracle_ids.remove_value(operator),
                                ..self.pay(config.stake_token, self.me, operator, info.stake_amount)
                            }.emit(RegistryEvent::Deregistered { operator }),
                        )
                    },
                },
            }
        }
    }

    /// What a slash of `bps` ten-thousandths takes from a stake and what it
    /// leaves, unless a number leaves its range.
    pub open spec fn slash_split(stake: i128, bps: u32) -> Option<(i128, i128)> {
        match stake.checked_mul(bps as i128) {
            None => None,
            Some(product) => match product.checked_div(10_000) {
                None => None,
                Some(taken) => match stake.checked_sub(taken) {
                    None => None,
                    Some(left) => Some((taken, left)),
                },
            },
        }
    }

    pub open spec fn slash_oracle(
        self,
        admin: Address,
        operator: Address,
        bps: u32,
        round_id: u64,
        evidence: Seq<u8>,
    ) -> Result<RegistryState, RegistryFailure> {
        match self.admin_refusal(admin) {
            Some(e) => failed(e),
            None => if bps == 0 || bps > 10_000 {
                failed(OracleRegistryError::InvalidBps)
            } else if evidence.len() == 0 {
                failed(OracleRegistryError::InvalidEvidence)
            } else if !self.rounds.dom().contains(round_id) {
                failed(OracleRegistryError::SlashRoundNotFound)
            } else if !self.oracles.dom().contains(operator) {
                failed(OracleRegistryError::NotRegistered)
            } else {
                let info = self.oracles[operator];
                match Self::slash_split(info.stake_amount, bps) {
                    None => Err(RegistryFailure::Trap(Trap::Overflow)),
                    Some((taken, left)) => if info.total_slashes == u32::MAX {
                        Err(RegistryFailure::Trap(Trap::Overflow))
                    } else {
                        match self.config {
                            None => failed(OracleRegistryError::NotInitialized),
                            Some(config) => {
                                let slashed = OracleInfo {
                                    stake_amount: left,
                                    total_slashes: (info.total_slashes + 1) as u32,
                                    ..info
                                };
                                let next = RegistryState {
                                    oracles: self.oracles.insert(operator, slashed),
                                    ..self
                                };
                                let paid = match config.treasury {
                                    None => next,
                                    Some(treasury) => next.pay(
                                        config.stake_token,
                                        self.me,
                                        treasury,
                                        taken,
                                    ),
                                };
                                Ok(
                                    paid.emit(
                                        RegistryEvent::Slashed {
                                            operator,
                                            bps,
                                            slash_amount: taken,
                                            admin,
                                            round_id,
                                            evidence,
                                        },
                                    ),
                                )
                            },
                        }
                    },
                }
            },
        }
    }

    /// Whether an address is that of an active oracle.
    pub open spec fn is_active(self, oracle: Address) -> bool {
        self.oracles.dom().contains(oracle) && self.oracles[oracle].is_active
    }

    /// The active oracles among `ids`, in their order.
    pub open spec fn active_among(self, ids: Seq<Address>) -> Seq<Address> {
        ids.filter(|a: Address| self.is_active(a))
    }

    /// The stake of the given oracles taken together, unless a sum on the way
    /// leaves its range.
    pub open spec fn stake_of(self, ids: Seq<Address>) -> Option<i128>
        decreases ids.len(),
    {
        if ids.len() == 0 {
            Some(0)
        } else {
            match self.stake_of(ids.drop_last()) {
                None => None,
                Some(sum) => sum.checked_add(self.oracles[ids.last()].stake_amount),
            }
        }
    }

    /// The round that opens on an invoice of the given amount.
    pub open spec fn new_round(
        self,
        now: u64,
        config: RegistryConfig,
        invoice_id: u64,
        amount: i128,
        total_stake: i128,
        oracle_hash: Seq<u8>,
    ) -> VerificationRound<Seq<u8>, Map<Address, bool>> {
        VerificationRound {
            invoice_id,
            required_votes: config.required_votes,
            total_registered_oracles: self.active_among(self.oracle_ids).len() as u32,
            votes: Map::empty(),
            weight_for: 0,
            weight_against: 0,
            total_stake_snapshot: total_stake,
            quorum_bps: quorum_for(self.quorum_tiers, config.quorum_bps, amount),
            status: RoundStatus::Open,
            opened_at: now,
            deadline: now.saturating_add(config.round_duration_secs),
            oracle_hash,
        }
    }

    /// Why no round can be opened on an invoice whatever its ledger says, if so.
    pub open spec fn opening_refusal(self, invoice_id: u64) -> Option<OracleRegistryError> {
        if self.paused {
            Some(OracleRegistryError::ContractPaused)
        } else if self.rounds.dom().contains(invoice_id) && self.rounds[invoice_id].status is Open {
            Some(OracleRegistryError::RoundAlreadyOpen)
        } else if self.invoice_contract is None {
            Some(OracleRegistryError::InvoiceContractNotSet)
        } else {
            None
        }
    }

    /// `reply` is what the invoice ledger says of the invoice: whether it awaits
    /// verification, and its amount; or that the ledger could not be asked.
    pub open spec fn open_verification_round(
        self,
        now: u64,
        invoice_id: u64,
        oracle_hash: Seq<u8>,
        reply: Option<(bool, i128)>,
    ) -> Result<RegistryState, RegistryFailure> {
        let active = self.active_among(self.oracle_ids);
        match self.opening_refusal(invoice_id) {
            Some(e) => failed(e),
            None => match reply {
                None => failed(OracleRegistryError::InvoiceCallFailed),
                Some((awaiting, amount)) => if !awaiting {
                    failed(OracleRegistryError::InvoiceNotAwaitingVerification)
                } else {
                    match self.config {
                        None => failed(OracleRegistryError::NotInitialized),
                        Some(config) => match self.stake_of(active) {
                            None => Err(RegistryFailure::Trap(Trap::Overflow)),
                            Some(total_stake) => if active.len() == 0 {
                                failed(OracleRegistryError::NoActiveOracles)
                            } else if self.open_rounds.len() >= u32::MAX {
                                Err(RegistryFailure::Trap(Trap::CollectionFull))
                            } else {
                                let round = self.new_round(
                                    now,
                                    config,
                                    invoice_id,
                                    amount,
                                    total_stake,
                                    oracle_hash,
                                );
                                Ok(
                                    RegistryState {
                                        rounds: self.rounds.insert(invoice_id, round),
                                        open_rounds: self.open_rounds.push(invoice_id),
                                        ..self
                                    }.emit(
                                        RegistryEvent::RoundOpened {
                                            invoice_id,
                                            active_count: active.len() as u32,
                                            total_stake,
                                        },
                                    ),
                                )
                            },
                        },
                    }
                },
            },
        }
    }

    /// Why `oracle` cannot vote on an invoice now, if so.
    pub open spec fn vote_refusal(self, now: u64, oracle: Address, invoice_id: u64) -> Option<
        OracleRegistryError,
    > {
        if self.paused {
            Some(OracleRegistryError::ContractPaused)
        } else if !self.is_active(oracle) {
            Some(OracleRegistryError::NotRegistered)
        } else if self.oracles[oracle].deregister_requested_at is Some {
            Some(OracleRegistryError::DeregisterCooldownActive)
        } else if !self.rounds.dom().contains(invoice_id) {
            Some(OracleRegistryError::RoundNotFound)
        } else if !(self.rounds[invoice_id].status is Open) {
            Some(OracleRegistryError::RoundNotOpen)
        } else if now > self.rounds[invoice_id].deadline {
            Some(OracleRegistryError::RoundExpired)
        } else if self.rounds[invoice_id].votes.dom().contains(oracle) {
            Some(OracleRegistryError::AlreadyVoted)
        } else {
            None
        }
    }

    /// The round on an invoice after the vote of `oracle`, and what it decides.
    pub open spec fn count_vote(
        self,
        now: u64,
        oracle: Address,
        invoice_id: u64,
        approved: bool,
    ) -> Result<(VerificationRound<Seq<u8>, Map<Address, bool>>, Option<bool>), RegistryFailure> {
        match self.vote_refusal(now, oracle, invoice_id) {
            Some(e) => failed(e),
            None => {
                let round = self.rounds[invoice_id];
                let info = self.oracles[oracle];
                if round.votes.dom().len() >= u32::MAX {
                    Err(RegistryFailure::Trap(Trap::CollectionFull))
                } else {
                    match round.with_vote(oracle, approved, info.stake_amount) {
                        None => Err(RegistryFailure::Trap(Trap::Overflow)),
                        Some(next) => if info.total_verifications == u32::MAX {
                            Err(RegistryFailure::Trap(Trap::Overflow))
                        } else {
                            match threshold(round.total_stake_snapshot, round.quorum_bps) {
                                None => Err(RegistryFailure::Trap(Trap::Overflow)),
                                Some(needed) => Ok((next, next.verdict(needed))),
                            }
                        },
                    }
                }
            },
        }
    }

    /// Why a verdict cannot be passed on to the invoice ledger, if so. `accepted`
    /// is whether the ledger took it.
    pub open spec fn verdict_refusal(self, accepted: bool) -> Option<OracleRegistryError> {
        if self.invoice_contract is None {
            Some(OracleRegistryError::InvoiceContractNotSet)
        } else if !accepted {
            Some(OracleRegistryError::InvoiceCallFailed)
        } else {
            None
        }
    }

    /// The call that passes a verdict on to the invoice ledger.
    pub open spec fn verdict_call(
        self,
        round: VerificationRound<Seq<u8>, Map<Address, bool>>,
        invoice_id: u64,
        approved: bool,
    ) -> Result<ConsensusCall<Seq<u8>>, RegistryFailure> {
        match self.invoice_contract {
            None => failed(OracleRegistryError::InvoiceContractNotSet),
            Some(invoice_contract) => Ok(
                ConsensusCall {
                    invoice_contract,
                    invoice_id,
                    registry: self.me,
                    approved,
                    reason: verdict_reason(approved),
                    oracle_hash: round.oracle_hash,
                },
            ),
        }
    }

    /// The call that a vote gives rise to, if it decides the round.
    pub open spec fn vote_call(
        self,
        now: u64,
        oracle: Address,
        invoice_id: u64,
        approved: bool,
    ) -> Result<Option<ConsensusCall<Seq<u8>>>, RegistryFailure> {
        match self.count_vote(now, oracle, invoice_id, approved) {
            Err(e) => Err(e),
            Ok((round, verdict)) => match verdict {
                None => Ok(None),
                Some(v) => match self.verdict_call(round, invoice_id, v) {
                    Err(e) => Err(e),
                    Ok(call) => Ok(Some(call)),
                },
            },
        }
    }

    /// `accepted` is whether the invoice ledger took the verdict, if the vote
    /// brings one about.
    pub open spec fn submit_vote(
        self,
        now: u64,
        oracle: Address,
        invoice_id: u64,
        approved: bool,
        evidence_hash: Seq<u8>,
        accepted: bool,
    ) -> Result<RegistryState, RegistryFailure> {
        match self.count_vote(now, oracle, invoice_id, approved) {
            Err(e) => Err(e),
            Ok((round, verdict)) => {
                let info = self.oracles[oracle];
                let counted = RegistryState {
                    oracles: self.oracles.insert(
                        oracle,
                        OracleInfo {
                            total_verifications: (info.total_verifications + 1) as u32,
                            ..info
                        },
                    ),
                    ..self
                }.emit(
                    RegistryEvent::Voted {
                        invoice_id,
                        oracle,
                        approved,
                        weight: info.stake_amount,
                        evidence_hash,
                    },
                );
                match verdict {
                    None => Ok(
                        RegistryState {
                            rounds: self.rounds.insert(invoice_id, round),
                            ..counted
                        },
                    ),
                    Some(v) => match self.verdict_refusal(accepted) {
                        Some(e) => failed(e),
                        None => Ok(
                            RegistryState {
                                rounds: self.rounds.insert(invoice_id, round.decided(v)),
                                open_rounds: self.open_rounds.remove_value(invoice_id),
                                ..counted
                            }.emit(RegistryEvent::Consensus { invoice_id, approved: v }),
                        ),
                    },
                }
            },
        }
    }

    pub open spec fn expire_round(self, now: u64, invoice_id: u64) -> Result<
        RegistryState,
        RegistryFailure,
    > {
        if !self.rounds.dom().contains(invoice_id) {
            failed(OracleRegistryError::RoundNotFound)
        } else {
            let round = self.rounds[invoice_id];
            if !(round.status is Open) {
                failed(OracleRegistryError::RoundNotOpen)
            } else if now <= round.deadline {
                failed(OracleRegistryError::RoundNotExpired)
            } else {
                Ok(
                    RegistryState {
                        rounds: self.rounds.insert(
                            invoice_id,
                            VerificationRound { status: RoundStatus::Expired, ..round },
                        ),
                        open_rounds: self.open_rounds.remove_value(invoice_id),
                        ..self
                    }.emit(RegistryEvent::RoundExpired { invoice_id }),
                )
            }
        }
    }

    /// Why the administrator cannot decide the round on an invoice, if so.
    pub open spec fn resolve_refusal(self, now: u64, admin: Address, invoice_id: u64) -> Option<
        OracleRegistryError,
    > {
        match self.admin_refusal(admin) {
            Some(e) => Some(e),
            None => if !self.rounds.dom().contains(invoice_id) {
                Some(OracleRegistryError::RoundNotFound)
            } else if !(self.rounds[invoice_id].status is Expired) || now
                <= self.rounds[invoice_id].deadline {
                Some(OracleRegistryError::RoundNotExpired)
            } else {
                None
            },
        }
    }

    /// The call that the administrator's decision gives rise to.
    pub open spec fn resolve_call(
        self,
        now: u64,
        admin: Address,
        invoice_id: u64,
        approved: bool,
    ) -> Result<ConsensusCall<Seq<u8>>, RegistryFailure> {
        match self.resolve_refusal(now, admin, invoice_id) {
            Some(e) => failed(e),
            None => self.verdict_call(self.rounds[invoice_id], invoice_id, approved),
        }
    }

    /// `accepted` is whether the invoice ledger took the decision.
    pub open spec fn admin_resolve_round(
        self,
        now: u64,
        admin: Address,
        invoice_id: u64,
        approved: bool,
        reason: Seq<u8>,
        accepted: bool,
    ) -> Result<RegistryState, RegistryFailure> {
        match self.resolve_refusal(now, admin, invoice_id) {
            Some(e) => failed(e),
            None => match self.verdict_refusal(accepted) {
                Some(e) => failed(e),
                None => Ok(
                    RegistryState {
                        rounds: self.rounds.insert(
                            invoice_id,
                            self.rounds[invoice_id].decided(approved),
                        ),
                        ..self
                    }.emit(RegistryEvent::Fallback { invoice_id, approved, admin, reason }),
                ),
            },
        }
    }
}

} // verus!
