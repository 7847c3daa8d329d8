//! The oracle registry that runs.
//!
//! Each request takes the time at which it is made, where that matters, and the
//! address that makes it. Whoever calls has checked that this address has agreed
//! to the request, and makes the transfers and the calls to the invoice ledger
//! that the registry asks for.

use soroban_sdk::Env;
use vstd::prelude::*;
use crate::address::Address;
use crate::collections::{AddressList, NumberList, VoteMap};
use crate::oracle_registry::error::OracleRegistryError;
use crate::oracle_registry::state::{
    RegistryState, DEFAULT_DEREGISTER_COOLDOWN_SECS, DEFAULT_QUORUM_BPS, DEFAULT_REQUIRED_VOTES,
    DEFAULT_ROUND_DURATION_SECS,
};
use crate::oracle_registry::types::{
    ConsensusCall, OracleInfo, QuorumTier, RegistryConfig, RegistryEvent, RegistryFailure,
    RoundStatus, Transfer, VerificationRound,
};
use crate::outcome::Trap;
use crate::series::Series;
use crate::table::Table;
use crate::text::Text;

verus! {

/// The oracle registry.
pub struct OracleRegistryContract {
    pub env: Env,
    pub me: Address,
    pub initialized: bool,
    pub admin: Option<Address>,
    pub paused: bool,
    pub config: Option<RegistryConfig>,
    pub invoice_contract: Option<Address>,
    pub oracles: Table<Address, OracleInfo>,
    pub oracle_ids: AddressList,
    pub rounds: Table<u64, VerificationRound>,
    pub open_rounds: NumberList,
    pub quorum_tiers: Vec<QuorumTier>,
    pub transfers: Series<Transfer>,
    pub events: Series<RegistryEvent>,
}

impl View for OracleRegistryContract {
    type V = RegistryState;

    open spec fn view(&self) -> RegistryState {
        RegistryState {
            me: self.me,
            initialized: self.initialized,
            admin: self.admin,
            paused: self.paused,
            config: self.config,
            invoice_contract: self.invoice_contract,
            oracles: self.oracles@,
            oracle_ids: self.oracle_ids@,
            rounds: self.rounds@,
            open_rounds: self.open_rounds@,
            quorum_tiers: self.quorum_tiers@,
            transfers: self.transfers@,
            events: self.events@,
        }
    }
}

fn refuse<T>(e: OracleRegistryError) -> (r: Result<T, RegistryFailure>)
    ensures
        r == crate::oracle_registry::state::failed::<T>(e),
{
    Err(RegistryFailure::Error(e))
}

/// The stake that decides a round.
fn decisive_stake(total_stake: i128, quorum_bps: u32) -> (r: Option<i128>)
    ensures
        r == crate::oracle_registry::state::threshold(total_stake, quorum_bps),
{
    match total_stake.checked_mul(quorum_bps as i128) {
        None => None,
        Some(product) => match product.checked_add(9_999) {
            None => None,
            Some(sum) => sum.checked_div(10_000),
        },
    }
}

/// What a slash takes from a stake and what it leaves.
fn split_stake(stake: i128, bps: u32) -> (r: Option<(i128, i128)>)
    ensures
        r == RegistryState::slash_split(stake, bps),
{
    match stake.checked_mul(bps as i128) {
        None => None,
        Some(product) => match product.checked_div(10_000) {
            None => None,
            Some(taken) => match stake.checked_sub(taken) {
                None => None,
                Some(left) => Some((taken, left)),
            },
        },
    }
}

/// The words that go with a verdict to the invoice ledger.
fn verdict_words(approved: bool) -> (r: Text)
    ensures
        r@ == crate::oracle_registry::state::verdict_reason(approved),
{
    let words: Vec<u8> = if approved {
        vec![
            99u8, 111u8, 110u8, 115u8, 101u8, 110u8, 115u8, 117u8, 115u8, 32u8, 97u8, 112u8, 112u8,
            114u8, 111u8, 118u8, 101u8, 100u8,
        ]
    } else {
        vec![
            99u8, 111u8, 110u8, 115u8, 101u8, 110u8, 115u8, 117u8, 115u8, 32u8, 114u8, 101u8, 106u8,
            101u8, 99u8, 116u8, 101u8, 100u8,
        ]
    };
    assert(words@ =~= crate::oracle_registry::state::verdict_reason(approved));
    Text::new(words)
}

impl OracleRegistryContract {
    /// The registry at the address `me` before anybody has set it up.
    pub fn new(env: Env, me: Address) -> (r: OracleRegistryContract)
        ensures
            r@ == RegistryState::blank(me),
    {
        OracleRegistryContract {
            me,
            initialized: false,
            admin: None,
            paused: false,
            config: None,
            invoice_contract: None,
            oracles: Table::new(),
            oracle_ids: AddressList::new(&env),
            rounds: Table::new(),
            open_rounds: NumberList::new(&env),
            quorum_tiers: Vec::new(),
            transfers: Series::new(),
            events: Series::new(),
            env,
        }
    }

    fn require_admin(&self, admin: Address) -> (r: Result<(), RegistryFailure>)
        ensures
            r == match self@.admin_refusal(admin) {
                Some(e) => Err::<(), RegistryFailure>(RegistryFailure::Error(e)),
                None => Ok(()),
            },
    {
        match self.admin {
            None => refuse(OracleRegistryError::NotInitialized),
            Some(stored) => if admin != stored {
                refuse(OracleRegistryError::Unauthorized)
            } else {
                Ok(())
            },
        }
    }

    fn load_config(&self) -> (r: Result<RegistryConfig, RegistryFailure>)
        ensures
            r == match self@.config {
                Some(config) => Ok::<RegistryConfig, RegistryFailure>(config),
                None => Err(RegistryFailure::Error(OracleRegistryError::NotInitialized)),
            },
    {
        match self.config {
            Some(config) => Ok(config),
            None => refuse(OracleRegistryError::NotInitialized),
        }
    }

    /// The oracles that are active and the stake they hold together, unless a
    /// sum leaves its range.
    fn active_oracles(&self) -> (r: (AddressList, Option<i128>))
        ensures
            r.0@ == self@.active_among(self@.oracle_ids),
            r.1 == self@.stake_of(r.0@),
    {
        let mut active = AddressList::new(&self.env);
        let mut stake: Option<i128> = Some(0);
        let len: u32 = self.oracle_ids.len();
        let mut i: u32 = 0;
        let ghost ids = self@.oracle_ids;
        proof {
            reveal(Seq::filter);
            assert(ids.take(0) =~= Seq::<Address>::empty());
        }
        while i < len
            invariant
                i <= len,
                len == ids.len(),
                ids == self@.oracle_ids,
                active@ == self@.active_among(ids.take(i as int)),
                stake == self@.stake_of(active@),
            decreases len - i,
        {
            proof {
                reveal(Seq::filter);
                assert(ids.take(i + 1).drop_last() =~= ids.take(i as int));
                ids.take(i as int).lemma_filter_len(|a: Address| self@.is_active(a));
            }
            if let Some(id) = self.oracle_ids.get(i) {
                if let Some(info) = self.oracles.get(&id) {
                    if info.is_active {
                        let ghost before = active@;
                        active.push(id);
                        assert(active@.drop_last() =~= before);
                        stake = match stake {
                            None => None,
                            Some(sum) => sum.checked_add(info.stake_amount),
                        };
                    }
                }
            }
            i = i + 1;
        }
        assert(ids.take(len as int) =~= ids);
        (active, stake)
    }

    /// The quorum for an invoice of a given amount.
    fn resolve_quorum_bps(&self, default_bps: u32, invoice_amount: i128) -> (r: u32)
        ensures
            r == crate::oracle_registry::state::quorum_for(
                self@.quorum_tiers,
                default_bps,
                invoice_amount,
            ),
    {
        let mut resolved: u32 = default_bps;
        let mut i: usize = 0;
        let ghost tiers = self@.quorum_tiers;
        assert(tiers.skip(0) =~= tiers);
        while i < self.quorum_tiers.len() && invoice_amount
            >= self.quorum_tiers[i].min_invoice_amount
            invariant
                i <= tiers.len(),
                tiers == self.quorum_tiers@,
                crate::oracle_registry::state::reached_tiers(tiers, invoice_amount) == i
                    + crate::oracle_registry::state::reached_tiers(
                    tiers.skip(i as int),
                    invoice_amount,
                ),
                resolved == (if i == 0 {
                    default_bps
                } else {
                    tiers[i - 1].quorum_bps
                }),
            decreases tiers.len() - i,
        {
            resolved = self.quorum_tiers[i].quorum_bps;
            assert(tiers.skip(i as int).skip(1) =~= tiers.skip(i + 1));
            i = i + 1;
        }
        resolved
    }

    /// Opens a round of votes on an invoice. Anyone can, once the invoice awaits
    /// verification. `reply` is what the invoice ledger says of the invoice:
    /// whether it awaits verification, and its amount; `None` if it could not be
    /// asked.
    pub fn open_verification_round(
        &mut self,
        now: u64,
        invoice_id: u64,
        oracle_hash: Text,
        reply: Option<(bool, i128)>,
    ) -> (r: Result<(), RegistryFailure>)
        ensures
            crate::outcome::stepped(
                r,
                old(self)@,
                final(self)@,
                old(self)@.open_verification_round(now, invoice_id, oracle_hash@, reply),
            ),
    {
        if let Some(e) = self.round_opening_refusal(invoice_id) {
            return refuse(e);
        }
        let (awaiting_verification, invoice_amount) = match reply {
            None => {
                return refuse(OracleRegistryError::InvoiceCallFailed);
            },
            Some(state) => state,
        };
        if !awaiting_verification {
            return refuse(OracleRegistryError::InvoiceNotAwaitingVerification);
        }
        let config = self.load_config()?;
        let (active, stake) = self.active_oracles();
        let total_stake: i128 = match stake {
            None => {
                return Err(RegistryFailure::Trap(Trap::Overflow));
            },
            Some(sum) => sum,
        };
        let active_count: u32 = active.len();
        if active_count == 0 {
            return refuse(OracleRegistryError::NoActiveOracles);
        }
        if self.open_rounds.len() == u32::MAX {
            return Err(RegistryFailure::Trap(Trap::CollectionFull));
        }
        let quorum_bps: u32 = self.resolve_quorum_bps(config.quorum_bps, invoice_amount);
        let round = VerificationRound {
            invoice_id,
            required_votes: config.required_votes,
            total_registered_oracles: active_count,
            votes: VoteMap::new(&self.env),
            weight_for: 0,
            weight_against: 0,
            total_stake_snapshot: total_stake,
            quorum_bps,
            status: RoundStatus::Open,
            opened_at: now,
            deadline: now.saturating_add(config.round_duration_secs),
            oracle_hash,
        };
        self.rounds.insert(invoice_id, round);
        self.open_rounds.push(invoice_id);
        self.events.push(RegistryEvent::RoundOpened { invoice_id, active_count, total_stake });
        Ok(())
    }

    /// Why no round can be opened on an invoice whatever its ledger says, if so.
    /// If there is no reason, the ledger has to be asked.
    pub fn round_opening_refusal(&self, invoice_id: u64) -> (r: Option<OracleRegistryError>)
        ensures
            r == self@.opening_refusal(invoice_id),
    {
        if self.paused {
            return Some(OracleRegistryError::ContractPaused);
        }
        if let Some(existing) = self.rounds.get(&invoice_id) {
            if existing.status == RoundStatus::Open {
                return Some(OracleRegistryError::RoundAlreadyOpen);
            }
        }
        if self.invoice_contract.is_none() {
            return Some(OracleRegistryError::InvoiceContractNotSet);
        }
        None
    }

    /// Checks a vote and works out the sums and the verdict it leads to.
    fn count_vote(&self, now: u64, oracle: Address, invoice_id: u64, approved: bool) -> (r: Result<
        (i128, i128, Option<bool>),
        RegistryFailure,
    >)
        ensures
            match self@.count_vote(now, oracle, invoice_id, approved) {
                Err(e) => r == Err::<(i128, i128, Option<bool>), RegistryFailure>(e),
                Ok((round, verdict)) => r == Ok::<(i128, i128, Option<bool>), RegistryFailure>(
                    (round.weight_for, round.weight_against, verdict),
                ),
            },
    {
        if self.paused {
            return refuse(OracleRegistryError::ContractPaused);
        }
        let info: &OracleInfo = match self.oracles.get(&oracle) {
            None => {
                return refuse(OracleRegistryError::NotRegistered);
            },
            Some(info) => info,
        };
        if !info.is_active {
            return refuse(OracleRegistryError::NotRegistered);
        }
        if info.deregister_requested_at.is_some() {
            return refuse(OracleRegistryError::DeregisterCooldownActive);
        }
        let round = match self.rounds.get(&invoice_id) {
            None => {
                return refuse(OracleRegistryError::RoundNotFound);
            },
            Some(round) => round,
        };
        if round.status != RoundStatus::Open {
            return refuse(OracleRegistryError::RoundNotOpen);
        }
        if now > round.deadline {
            return refuse(OracleRegistryError::RoundExpired);
        }
        if round.votes.contains_key(oracle) {
            return refuse(OracleRegistryError::AlreadyVoted);
        }
        let votes: u32 = round.votes.len();
        if votes == u32::MAX {
            return Err(RegistryFailure::Trap(Trap::CollectionFull));
        }
        let mut weight_for: i128 = round.weight_for;
        let mut weight_against: i128 = round.weight_against;
        let sum: Option<i128> = if approved {
            weight_for.checked_add(info.stake_amount)
        } else {
            weight_against.checked_add(info.stake_amount)
        };
        match sum {
            None => {
                return Err(RegistryFailure::Trap(Trap::Overflow));
            },
            Some(weight) => {
                if approved {
                    weight_for = weight;
                } else {
                    weight_against = weight;
                }
            },
        }
        if info.total_verifications == u32::MAX {
            return Err(RegistryFailure::Trap(Trap::Overflow));
        }
        let needed: i128 = match decisive_stake(round.total_stake_snapshot, round.quorum_bps) {
            None => {
                return Err(RegistryFailure::Trap(Trap::Overflow));
            },
            Some(needed) => needed,
        };
        let has_min_votes = votes + 1 >= round.required_votes;
        let verdict = if has_min_votes && weight_for >= needed {
            Some(true)
        } else if has_min_votes && weight_against >= needed {
            Some(false)
        } else {
            None
        };
        Ok((weight_for, weight_against, verdict))
    }

    /// The call to the invoice ledger that a vote gives rise to: one if the vote
    /// decides the round, none if it does not.
    pub fn vote_call(
        &self,
        now: u64,
        oracle: Address,
        invoice_id: u64,
        approved: bool,
    ) -> (r: Result<Option<ConsensusCall>, RegistryFailure>)
        ensures
            match self@.vote_call(now, oracle, invoice_id, approved) {
                Err(e) => r matches Err(f) && f == e,
                Ok(None) => r matches Ok(None),
                Ok(Some(call)) => r matches Ok(Some(c)) && c@ == call,
            },
    {
        let (_, _, verdict) = self.count_vote(now, oracle, invoice_id, approved)?;
        match verdict {
            None => Ok(None),
            Some(v) => match self.verdict_call(invoice_id, v) {
                Err(e) => Err(e),
                Ok(call) => Ok(Some(call)),
            },
        }
    }

    fn verdict_call(&self, invoice_id: u64, approved: bool) -> (r: Result<
        ConsensusCall,
        RegistryFailure,
    >)
        requires
            self@.rounds.dom().contains(invoice_id),
        ensures
            match self@.verdict_call(self@.rounds[invoice_id], invoice_id, approved) {
                Err(e) => r matches Err(f) && f == e,
                Ok(call) => r matches Ok(c) && c@ == call,
            },
    {
        let invoice_contract = match self.invoice_contract {
            None => {
                return refuse(OracleRegistryError::InvoiceContractNotSet);
            },
            Some(invoice_contract) => invoice_contract,
        };
        match self.rounds.get(&invoice_id) {
            None => refuse(OracleRegistryError::RoundNotFound),
            Some(round) => Ok(
                ConsensusCall {
                    invoice_contract,
                    invoice_id,
                    registry: self.me,
                    approved,
                    reason: verdict_words(approved),
                    oracle_hash: round.oracle_hash.clone(),
                },
            ),
        }
    }

    /// Counts the vote of an oracle, with the weight of its stake. The round ends
    /// as soon as enough oracles have voted and one side holds the quorum's share
    /// of the stake. The verdict is then for the invoice ledger: [`vote_call`]
    /// says which call to make, and `accepted` is whether the ledger took it.
    ///
    /// [`vote_call`]: OracleRegistryContract::vote_call
    pub fn submit_vote(
        &mut self,
        now: u64,
        oracle: Address,
        invoice_id: u64,
        approved: bool,
        evidence_hash: Text,
        accepted: bool,
    ) -> (r: Result<(), RegistryFailure>)
        ensures
            crate::outcome::stepped(
                r,
                old(self)@,
                final(self)@,
                old(self)@.submit_vote(
                    now,
                    oracle,
                    invoice_id,
                    approved,
                    evidence_hash@,
                    accepted,
                ),
            ),
    {
        let (weight_for, weight_against, verdict) = self.count_vote(
            now,
            oracle,
            invoice_id,
            approved,
        )?;
        if verdict.is_some() {
            self.require_accepted(accepted)?;
        }
        let mut info: OracleInfo = match self.oracles.get(&oracle) {
            None => {
                return refuse(OracleRegistryError::NotRegistered);
            },
            Some(info) => *info,
        };
        let weight: i128 = info.stake_amount;
        let round = self.rounds.remove(&invoice_id);
        match round {
            None => {
                return refuse(OracleRegistryError::RoundNotFound);
            },
            Some(mut round) => {
                round.votes.set(oracle, approved);
                round.weight_for = weight_for;
                round.weight_against = weight_against;
                if let Some(v) = verdict {
                    round.status =
                    if v {
                        RoundStatus::ConsensusApproved
                    } else {
                        RoundStatus::ConsensusRejected
                    };
                }
                let ghost next = round@;
                self.rounds.insert(invoice_id, round);
                assert(self@.rounds =~= old(self)@.rounds.insert(invoice_id, next));
            },
        }
        info.total_verifications = info.total_verifications + 1;
        self.oracles.insert(oracle, info);
        self.events.push(
            RegistryEvent::Voted { invoice_id, oracle, approved, weight, evidence_hash },
        );
        if let Some(v) = verdict {
            self.open_rounds.remove_first(invoice_id);
            self.events.push(RegistryEvent::Consensus { invoice_id, approved: v });
        }
        Ok(())
    }

    fn require_accepted(&self, accepted: bool) -> (r: Result<(), RegistryFailure>)
        ensures
            r == match self@.verdict_refusal(accepted) {
                Some(e) => Err::<(), RegistryFailure>(RegistryFailure::Error(e)),
                None => Ok(()),
            },
    {
        if self.invoice_contract.is_none() {
            return refuse(OracleRegistryError::InvoiceContractNotSet);
        }
        if !accepted {
            return refuse(OracleRegistryError::InvoiceCallFailed);
        }
        Ok(())
    }

    /// Whether some open round still lacks the vote of an oracle.
    fn owes_vote(&self, operator: Address) -> (r: bool)
        ensures
            r == self@.owes_vote(operator),
    {
        let len: u32 = self.open_rounds.len();
        let mut i: u32 = 0;
        while i < len
            invariant
                i <= len,
                len == self@.open_rounds.len(),
                forall|j: int|
                    0 <= j < i ==> !self@.lacks_vote(#[trigger] self@.open_rounds[j], operator),
            decreases len - i,
        {
            if let Some(invoice_id) = self.open_rounds.get(i) {
                if let Some(round) = self.rounds.get(&invoice_id) {
                    if round.status == RoundStatus::Open && !round.votes.contains_key(operator) {
                        assert(self@.lacks_vote(self@.open_rounds[i as int], operator));
                        return true;
                    }
                }
            }
            i = i + 1;
        }
        false
    }

    /// Lets an oracle leave, in two steps. The first request, which an oracle
    /// that owes a vote to an open round cannot make, starts the cooldown. A
    /// second request after the cooldown gives the stake back and forgets the
    /// oracle.
    pub fn deregister_oracle(&mut self, now: u64, operator: Address) -> (r: Result<
        (),
        RegistryFailure,
    >)
        ensures
            crate::outcome::stepped(
                r,
                old(self)@,
                final(self)@,
                old(self)@.deregister_oracle(now, operator),
            ),
    {
        if self.paused {
            return refuse(OracleRegistryError::ContractPaused);
        }
        let mut info: OracleInfo = match self.oracles.get(&operator) {
            None => {
                return refuse(OracleRegistryError::NotRegistered);
            },
            Some(info) => *info,
        };
        let config = self.load_config()?;
        match info.deregister_requested_at {
            None => {
                if !info.is_active {
                    return refuse(OracleRegistryError::NotRegistered);
                }
                if self.owes_vote(operator) {
                    return refuse(OracleRegistryError::DeregisterHasPendingVotes);
                }
                info.is_active = false;
                info.deregister_requested_at = Some(now);
                self.oracles.insert(operator, info);
                self.events.push(RegistryEvent::DeregistrationRequested { operator });
                Ok(())
            },
            Some(requested_at) => {
                if now < requested_at.saturating_add(config.deregister_cooldown_secs) {
                    return refuse(OracleRegistryError::DeregisterCooldownActive);
                }
                self.transfers.push(
                    Transfer {
                        token: config.stake_token,
                        from: self.me,
                        to: operator,
                        amount: info.stake_amount,
                    },
                );
                let _ = self.oracles.remove(&operator);
                self.oracle_ids.remove_first(operator);
                self.events.push(RegistryEvent::Deregistered { operator });
                Ok(())
            },
        }
    }

    /// Takes a share of an oracle's stake for misconduct in a round. What is
    /// taken goes to the treasury, if there is one, and stays with the registry
    /// if there is none.
    pub fn slash_oracle(
        &mut self,
        admin: Address,
        operator: Address,
        bps: u32,
        round_id: u64,
        evidence: Text,
    ) -> (r: Result<(), RegistryFailure>)
        ensures
            crate::outcome::stepped(
                r,
                old(self)@,
                final(self)@,
                old(self)@.slash_oracle(admin, operator, bps, round_id, evidence@),
            ),
    {
        self.require_admin(admin)?;
        if bps == 0 || bps > 10_000 {
            return refuse(OracleRegistryError::InvalidBps);
        }
        if evidence.is_empty() {
            return refuse(OracleRegistryError::InvalidEvidence);
        }
        if !self.rounds.contains(&round_id) {
            return refuse(OracleRegistryError::SlashRoundNotFound);
        }
        let mut info: OracleInfo = match self.oracles.get(&operator) {
            None => {
                return refuse(OracleRegistryError::NotRegistered);
            },
            Some(info) => *info,
        };
        let (slash_amount, left): (i128, i128) = match split_stake(info.stake_amount, bps) {
            None => {
                return Err(RegistryFailure::Trap(Trap::Overflow));
            },
            Some(split) => split,
        };
        if info.total_slashes == u32::MAX {
            return Err(RegistryFailure::Trap(Trap::Overflow));
        }
        let config = self.load_config()?;
        info.stake_amount = left;
        info.total_slashes = info.total_slashes + 1;
        self.oracles.insert(operator, info);
        if let Some(treasury) = config.treasury {
            self.transfers.push(
                Transfer {
                    token: config.stake_token,
                    from: self.me,
                    to: treasury,
                    amount: slash_amount,
                },
            );
        }
        self.events.push(
            RegistryEvent::Slashed { operator, bps, slash_amount, admin, round_id, evidence },
        );
        Ok(())
    }

    /// Registers an oracle, which hands its stake to the registry.
    pub fn register_oracle(
        &mut self,
        now: u64,
        operator: Address,
        stake_amount: i128,
    ) -> (r: Result<(), RegistryFailure>)
        ensures
            crate::outcome::stepped(
                r,
                old(self)@,
                final(self)@,
                old(self)@.register_oracle(now, operator, stake_amount),
            ),
    {
        if self.paused {
            return refuse(OracleRegistryError::ContractPaused);
        }
        let config = self.load_config()?;
        if stake_amount < config.min_stake {
            return refuse(OracleRegistryError::InsufficientStake);
        }
        if self.oracles.contains(&operator) {
            return refuse(OracleRegistryError::AlreadyRegistered);
        }
        if !self.oracle_ids.contains(operator) {
            if self.oracle_ids.len() == u32::MAX {
                return Err(RegistryFailure::Trap(Trap::CollectionFull));
            }
            self.oracle_ids.push(operator);
        }
        self.transfers.push(
            Transfer {
                token: config.stake_token,
                from: operator,
                to: self.me,
                amount: stake_amount,
            },
        );
        self.oracles.insert(
            operator,
            OracleInfo {
                address: operator,
                stake_amount,
                stake_token: config.stake_token,
                is_active: true,
                total_verifications: 0,
                total_slashes: 0,
                registered_at: now,
                deregister_requested_at: None,
            },
        );
        self.events.push(RegistryEvent::Registered { operator, stake_amount });
        Ok(())
    }

    /// Ends a round whose time has run out without a verdict, so that the
    /// administrator can decide or another round can be opened. Anyone can.
    pub fn expire_round(&mut self, now: u64, invoice_id: u64) -> (r: Result<(), RegistryFailure>)
        ensures
            crate::outcome::stepped(
                r,
                old(self)@,
                final(self)@,
                old(self)@.expire_round(now, invoice_id),
            ),
    {
        match self.rounds.get(&invoice_id) {
            None => {
                return refuse(OracleRegistryError::RoundNotFound);
            },
            Some(round) => {
                if round.status != RoundStatus::Open {
                    return refuse(OracleRegistryError::RoundNotOpen);
                }
                if now <= round.deadline {
                    return refuse(OracleRegistryError::RoundNotExpired);
                }
            },
        }
        self.set_round_status(invoice_id, RoundStatus::Expired);
        self.open_rounds.remove_first(invoice_id);
        self.events.push(RegistryEvent::RoundExpired { invoice_id });
        Ok(())
    }

    fn set_round_status(&mut self, invoice_id: u64, status: RoundStatus)
        requires
            old(self)@.rounds.dom().contains(invoice_id),
        ensures
            final(self)@ == (RegistryState {
                rounds: old(self)@.rounds.insert(
                    invoice_id,
                    VerificationRound { status, ..old(self)@.rounds[invoice_id] },
                ),
                ..old(self)@
            }),
    {
        if let Some(mut round) = self.rounds.remove(&invoice_id) {
            round.status = status;
            let ghost next = round@;
            self.rounds.insert(invoice_id, round);
            assert(self@.rounds =~= old(self)@.rounds.insert(invoice_id, next));
        }
    }

    fn check_resolution(&self, now: u64, admin: Address, invoice_id: u64) -> (r: Result<
        (),
        RegistryFailure,
    >)
        ensures
            r == match self@.resolve_refusal(now, admin, invoice_id) {
                Some(e) => Err::<(), RegistryFailure>(RegistryFailure::Error(e)),
                None => Ok(()),
            },
    {
        self.require_admin(admin)?;
        match self.rounds.get(&invoice_id) {
            None => refuse(OracleRegistryError::RoundNotFound),
            Some(round) => if round.status != RoundStatus::Expired || now <= round.deadline {
                refuse(OracleRegistryError::RoundNotExpired)
            } else {
                Ok(())
            },
        }
    }

    /// The call to the invoice ledger that the administrator's decision on an
    /// expired round gives rise to.
    pub fn resolve_call(&self, now: u64, admin: Address, invoice_id: u64, approved: bool) -> (r:
        Result<ConsensusCall, RegistryFailure>)
        ensures
            match self@.resolve_call(now, admin, invoice_id, approved) {
                Err(e) => r matches Err(f) && f == e,
                Ok(call) => r matches Ok(c) && c@ == call,
            },
    {
        self.check_resolution(now, admin, invoice_id)?;
        self.verdict_call(invoice_id, approved)
    }

    /// Lets the administrator decide a round that has expired without a verdict.
    /// The decision is for the invoice ledger: [`resolve_call`] says which call
    /// to make, and `accepted` is whether the ledger took it.
    ///
    /// [`resolve_call`]: OracleRegistryContract::resolve_call
    pub fn admin_resolve_round(
        &mut self,
        now: u64,
        admin: Address,
        invoice_id: u64,
        approved: bool,
        reason: Text,
        accepted: bool,
    ) -> (r: Result<(), RegistryFailure>)
        ensures
            crate::outcome::stepped(
                r,
                old(self)@,
                final(self)@,
                old(self)@.admin_resolve_round(
                    now,
                    admin,
                    invoice_id,
                    approved,
                    reason@,
                    accepted,
                ),
            ),
    {
        self.check_resolution(now, admin, invoice_id)?;
        self.require_accepted(accepted)?;
        self.set_round_status(
            invoice_id,
            if approved {
                RoundStatus::ConsensusApproved
            } else {
                RoundStatus::ConsensusRejected
            },
        );
        self.events.push(RegistryEvent::Fallback { invoice_id, approved, admin, reason });
        Ok(())
    }

    /// Sets the registry up under its administrator. This can be done once.
    pub fn initialize(
        &mut self,
        admin: Address,
        stake_token: Address,
        min_stake: i128,
    ) -> (r: Result<(), RegistryFailure>)
        ensures
            crate::outcome::stepped(
                r,
                old(self)@,
                final(self)@,
                old(self)@.initialize(admin, stake_token, min_stake),
            ),
    {
        if self.initialized {
            return refuse(OracleRegistryError::AlreadyInitialized);
        }
        if min_stake <= 0 {
            return refuse(OracleRegistryError::InvalidAmount);
        }
        self.admin = Some(admin);
        self.initialized = true;
        self.paused = false;
        self.config =
        Some(
            RegistryConfig {
                min_stake,
                stake_token,
                required_votes: DEFAULT_REQUIRED_VOTES,
                quorum_bps: DEFAULT_QUORUM_BPS,
                round_duration_secs: DEFAULT_ROUND_DURATION_SECS,
                deregister_cooldown_secs: DEFAULT_DEREGISTER_COOLDOWN_SECS,
                treasury: None,
            },
        );
        self.oracle_ids = AddressList::new(&self.env);
        self.open_rounds = NumberList::new(&self.env);
        Ok(())
    }

    /// Names the invoice ledger.
    pub fn set_invoice_contract(&mut self, admin: Address, invoice_contract: Address) -> (r: Result<
        (),
        RegistryFailure,
    >)
        ensures
            crate::outcome::stepped(
                r,
                old(self)@,
                final(self)@,
                old(self)@.set_invoice_contract(admin, invoice_contract),
            ),
    {
        self.require_admin(admin)?;
        self.invoice_contract = Some(invoice_contract);
        self.events.push(RegistryEvent::InvoiceContractSet { invoice_contract });
        Ok(())
    }

    /// The invoice ledger, if it was named.
    pub fn get_invoice_contract(&self) -> (r: Option<Address>)
        ensures
            r == self@.invoice_contract,
    {
        self.invoice_contract
    }

    /// Names the treasury that slashed stakes go to, or that there is none.
    pub fn set_treasury(&mut self, admin: Address, treasury: Option<Address>) -> (r: Result<
        (),
        RegistryFailure,
    >)
        ensures
            crate::outcome::stepped(
                r,
                old(self)@,
                final(self)@,
                old(self)@.set_treasury(admin, treasury),
            ),
    {
        self.require_admin(admin)?;
        let mut config = self.load_config()?;
        config.treasury = treasury;
        self.config = Some(config);
        Ok(())
    }

    /// Sets the rules of the registry.
    pub fn set_registry_config(
        &mut self,
        admin: Address,
        min_stake: i128,
        required_votes: u32,
        quorum_bps: u32,
        round_duration_secs: u64,
        deregister_cooldown_secs: u64,
    ) -> (r: Result<(), RegistryFailure>)
        ensures
            crate::outcome::stepped(
                r,
                old(self)@,
                final(self)@,
                old(self)@.set_registry_config(
                    admin,
                    min_stake,
                    required_votes,
                    quorum_bps,
                    round_duration_secs,
                    deregister_cooldown_secs,
                ),
            ),
    {
        self.require_admin(admin)?;
        if min_stake <= 0 || required_votes == 0 || quorum_bps == 0 || quorum_bps > 10_000
            || round_duration_secs == 0 {
            return refuse(OracleRegistryError::InvalidConfig);
        }
        let mut config = self.load_config()?;
        config.min_stake = min_stake;
        config.required_votes = required_votes;
        config.quorum_bps = quorum_bps;
        config.round_duration_secs = round_duration_secs;
        config.deregister_cooldown_secs = deregister_cooldown_secs;
        self.config = Some(config);
        self.events.push(RegistryEvent::ConfigUpdated { admin });
        Ok(())
    }

    /// The rules of the registry.
    pub fn get_registry_config(&self) -> (r: Result<RegistryConfig, RegistryFailure>)
        ensures
            r == match self@.config {
                Some(config) => Ok::<RegistryConfig, RegistryFailure>(config),
                None => Err(RegistryFailure::Error(OracleRegistryError::NotInitialized)),
            },
    {
        self.load_config()
    }

    /// Replaces the tiers of quorums. They have to be in strictly ascending
    /// order of amounts that are not negative, with quorums between one and ten
    /// thousand ten-thousandths. No tiers mean one quorum for every invoice.
    pub fn set_quorum_tiers(&mut self, admin: Address, tiers: Vec<QuorumTier>) -> (r: Result<
        (),
        RegistryFailure,
    >)
        ensures
            crate::outcome::stepped(
                r,
                old(self)@,
                final(self)@,
                old(self)@.set_quorum_tiers(admin, tiers@),
            ),
    {
        self.require_admin(admin)?;
        if !are_valid_tiers(&tiers) {
            return refuse(OracleRegistryError::InvalidQuorumTiers);
        }
        self.quorum_tiers = tiers;
        self.events.push(RegistryEvent::TiersUpdated { admin });
        Ok(())
    }

    /// The tiers of quorums, in ascending order of amounts.
    pub fn get_quorum_tiers(&self) -> (r: &Vec<QuorumTier>)
        ensures
            r@ == self@.quorum_tiers,
    {
        &self.quorum_tiers
    }

    /// Suspends the registry.
    pub fn pause(&mut self, admin: Address) -> (r: Result<(), RegistryFailure>)
        ensures
            crate::outcome::stepped(r, old(self)@, final(self)@, old(self)@.pause(admin)),
    {
        self.require_admin(admin)?;
        self.paused = true;
        self.events.push(RegistryEvent::Paused { admin });
        Ok(())
    }

    /// Takes the registry up again.
    pub fn unpause(&mut self, admin: Address) -> (r: Result<(), RegistryFailure>)
        ensures
            crate::outcome::stepped(r, old(self)@, final(self)@, old(self)@.unpause(admin)),
    {
        self.require_admin(admin)?;
        self.paused = false;
        self.events.push(RegistryEvent::Unpaused { admin });
        Ok(())
    }

    /// Whether the registry is suspended.
    pub fn is_paused(&self) -> (r: bool)
        ensures
            r == self@.paused,
    {
        self.paused
    }

    /// What is known of an oracle.
    pub fn get_oracle_info(&self, operator: Address) -> (r: Option<OracleInfo>)
        ensures
            r == (if self@.oracles.dom().contains(operator) {
                Some(self@.oracles[operator])
            } else {
                None
            }),
    {
        match self.oracles.get(&operator) {
            Some(info) => Some(*info),
            None => None,
        }
    }

    /// The active oracles, in the order in which they registered.
    pub fn list_active_oracles(&self) -> (r: AddressList)
        ensures
            r@ == self@.active_among(self@.oracle_ids),
    {
        let (active, _) = self.active_oracles();
        active
    }

    /// The last round on an invoice.
    pub fn get_verification_round(&self, invoice_id: u64) -> (r: Option<&VerificationRound>)
        ensures
            match r {
                Some(round) => self@.rounds.dom().contains(invoice_id) && round@
                    == self@.rounds[invoice_id],
                None => !self@.rounds.dom().contains(invoice_id),
            },
    {
        self.rounds.get(&invoice_id)
    }

    /// The votes of the last round on an invoice, in the order of the voters'
    /// addresses.
    pub fn get_round_votes(&self, invoice_id: u64) -> (r: Vec<(Address, bool)>)
        ensures
            self@.rounds.dom().contains(invoice_id) ==> crate::oracle_registry::state::tallies(
                r@,
                self@.rounds[invoice_id].votes,
            ),
            !self@.rounds.dom().contains(invoice_id) ==> r@.len() == 0,
    {
        let mut out: Vec<(Address, bool)> = Vec::new();
        if let Some(round) = self.rounds.get(&invoice_id) {
            let voters = round.votes.voters();
            let ghost votes = round@.votes;
            let len: u32 = voters.len();
            let mut i: u32 = 0;
            while i < len
                invariant
                    i <= len,
                    len == voters@.len(),
                    votes == round.votes@,
                    forall|a: Address| #[trigger]
                        voters@.contains(a) <==> votes.dom().contains(a),
                    out@.len() == i,
                    forall|j: int|
                        0 <= j < i ==> (#[trigger] out@[j]).0 == voters@[j] && out@[j].1
                            == votes[voters@[j]],
                decreases len - i,
            {
                if let Some(voter) = voters.get(i) {
                    assert(voters@.contains(voters@[i as int]));
                    if let Some(vote) = round.votes.get(voter) {
                        out.push((voter, vote));
                    }
                }
                i = i + 1;
            }
            assert forall|a: Address| #[trigger] votes.dom().contains(a) implies exists|j: int|
                0 <= j < out@.len() && #[trigger] out@[j] == (a, votes[a]) by {
                assert(voters@.contains(a));
                let j = choose|j: int| 0 <= j < voters@.len() && voters@[j] == a;
                assert(out@[j] == (a, votes[a]));
            }
            assert forall|j: int| 0 <= j < out@.len() implies votes.dom().contains(
                (#[trigger] out@[j]).0,
            ) && votes[out@[j].0] == out@[j].1 by {
                assert(voters@.contains(voters@[j]));
            }
        }
        out
    }
}

/// Whether tiers are in order and within bounds.
fn are_valid_tiers(tiers: &Vec<QuorumTier>) -> (r: bool)
    ensures
        r == crate::oracle_registry::state::valid_tiers(tiers@),
{
    let mut i: usize = 0;
    while i < tiers.len()
        invariant
            i <= tiers@.len(),
            crate::oracle_registry::state::valid_tiers(tiers@.take(i as int)),
        decreases tiers@.len() - i,
    {
        let tier = tiers[i];
        assert(tiers@[i as int] == tier);
        if tier.min_invoice_amount < 0 || tier.quorum_bps == 0 || tier.quorum_bps > 10_000 {
            return false;
        }
        if i > 0 && tier.min_invoice_amount <= tiers[i - 1].min_invoice_amount {
            assert(tiers@[i - 1].min_invoice_amount >= tiers@[i as int].min_invoice_amount);
            return false;
        }
        let ghost shorter = tiers@.take(i as int);
        let ghost longer = tiers@.take(i + 1);
        assert forall|a: int, b: int| 0 <= a < b < longer.len() implies (
        #[trigger] longer[a]).min_invoice_amount < (#[trigger] longer[b]).min_invoice_amount by {
            assert(longer[a] == shorter[a]);
            if b < i {
                assert(longer[b] == shorter[b]);
            } else if a < i - 1 {
                assert(shorter[a].min_invoice_amount < shorter[i - 1].min_invoice_amount);
            }
        }
        assert forall|a: int| 0 <= a < longer.len() implies (
        #[trigger] longer[a]).min_invoice_amount >= 0 && 0 < longer[a].quorum_bps <= 10_000 by {
            if a < i {
                assert(longer[a] == shorter[a]);
            }
        }
        i = i + 1;
    }
    assert(tiers@.take(i as int) =~= tiers@);
    true
}

} // verus!
