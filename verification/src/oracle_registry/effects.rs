//! What the requests to the oracle registry bring about, and when they succeed.

use vstd::prelude::*;
use crate::address::Address;
use crate::oracle_registry::error::OracleRegistryError;
use crate::oracle_registry::requests::Request;
use crate::oracle_registry::state::RegistryState;
use crate::oracle_registry::types::{
    OracleInfo, QuorumTier, RegistryConfig, RegistryEvent, RegistryFailure, RoundStatus, Transfer,
    VerificationRound,
};
use crate::outcome::Trap;

verus! {

/// Whether a number can be held in 128 bits with a sign.
pub open spec fn fits(n: int) -> bool {
    i128::MIN <= n <= i128::MAX
}

/// A point in time that lies a span behind another, or the end of time.
pub open spec fn later(at: u64, span: u64) -> int {
    if at + span > u64::MAX {
        u64::MAX as int
    } else {
        at + span
    }
}

/// Whether a stake makes up the share of the stake at the opening that a round
/// asks for.
pub open spec fn makes_quorum<S, M>(round: VerificationRound<S, M>, stake: int) -> bool {
    stake * 10_000 >= round.total_stake_snapshot * round.quorum_bps
}

/// What one side and the other have in a round behind one more vote.
pub open spec fn weights_behind<S, M>(
    round: VerificationRound<S, M>,
    approved: bool,
    stake: i128,
) -> (int, int) {
    if approved {
        (round.weight_for + stake, round.weight_against as int)
    } else {
        (round.weight_for as int, round.weight_against + stake)
    }
}

/// Whether one more vote decides a round.
pub open spec fn decides<S>(
    round: VerificationRound<S, Map<Address, bool>>,
    approved: bool,
    stake: i128,
) -> bool {
    let (weight_for, weight_against) = weights_behind(round, approved, stake);
    &&& round.votes.dom().len() + 1 >= round.required_votes
    &&& makes_quorum(round, weight_for) || makes_quorum(round, weight_against)
}

proof fn lemma_threshold(round: VerificationRound<Seq<u8>, Map<Address, bool>>, stake: int)
    requires
        round.total_stake_snapshot >= 0,
        0 < round.quorum_bps <= 10_000,
    ensures
        match crate::oracle_registry::state::threshold(
            round.total_stake_snapshot,
            round.quorum_bps,
        ) {
            Some(needed) => {
                &&& makes_quorum(round, stake) <==> stake >= needed
                &&& fits(round.total_stake_snapshot * round.quorum_bps + 9_999)
            },
            None => !fits(round.total_stake_snapshot * round.quorum_bps + 9_999),
        },
{
    crate::oracle_registry::laws::the_threshold_is_the_share_rounded_up(
        round.total_stake_snapshot,
        round.quorum_bps,
    );
    let product = round.total_stake_snapshot * round.quorum_bps;
    assert(product >= 0) by (nonlinear_arith)
        requires
            product == round.total_stake_snapshot * round.quorum_bps,
            round.total_stake_snapshot >= 0,
            round.quorum_bps > 0,
    ;
}

/// A vote weighs as much as the stake of its oracle at the time: the side that it
/// is for gains exactly that, the other side nothing, and it is on record as it
/// was cast.
pub proof fn a_vote_weighs_its_stake(
    state: RegistryState,
    now: u64,
    oracle: Address,
    invoice_id: u64,
    approved: bool,
    evidence_hash: Seq<u8>,
    accepted: bool,
    next: RegistryState,
)
    requires
        state.submit_vote(now, oracle, invoice_id, approved, evidence_hash, accepted) == Ok::<
            RegistryState,
            RegistryFailure,
        >(next),
    ensures
        ({
            let stake = state.oracles[oracle].stake_amount;
            let before = state.rounds[invoice_id];
            let after = next.rounds[invoice_id];
            &&& after.weight_for == before.weight_for + (if approved {
                stake as int
            } else {
                0
            })
            &&& after.weight_against == before.weight_against + (if approved {
                0
            } else {
                stake as int
            })
            &&& !before.votes.dom().contains(oracle)
            &&& after.votes.dom() == before.votes.dom().insert(oracle)
            &&& after.votes[oracle] == approved
            &&& forall|a: Address| #[trigger]
                before.votes.dom().contains(a) ==> after.votes[a] == before.votes[a]
        }),
{
}

/// Whether a list lost an item, and nothing else: the others stand as they stood.
pub open spec fn lost<A>(before: Seq<A>, after: Seq<A>, item: A) -> bool {
    forall|i: int| 0 <= i < before.len() && #[trigger] before[i] == item ==> after == before.take(i)
        + before.skip(i + 1)
}

proof fn lemma_lost<A>(items: Seq<A>, item: A)
    requires
        items.no_duplicates(),
    ensures
        lost(items, items.remove_value(item), item),
{
    items.index_of_first_ensures(item);
    assert forall|i: int| 0 <= i < items.len() && #[trigger] items[i] == item implies
        items.remove_value(item) == items.take(i) + items.skip(i + 1) by {
        assert(items.index_of_first(item) == Some(i));
        assert(items.remove(i) =~= items.take(i) + items.skip(i + 1));
    }
}

/// A round closes with the vote after which enough oracles have voted and one side
/// makes up the quorum, and with no earlier one; if both do, approval counts.
pub proof fn a_round_closes_with_its_quorum(
    state: RegistryState,
    now: u64,
    oracle: Address,
    invoice_id: u64,
    approved: bool,
    evidence_hash: Seq<u8>,
    accepted: bool,
    next: RegistryState,
)
    requires
        state.valid(),
        state.submit_vote(now, oracle, invoice_id, approved, evidence_hash, accepted) == Ok::<
            RegistryState,
            RegistryFailure,
        >(next),
    ensures
        ({
            let after = next.rounds[invoice_id];
            let enough = after.votes.dom().len() >= after.required_votes;
            &&& after.votes.dom().len() == state.rounds[invoice_id].votes.dom().len() + 1
            &&& after.status is ConsensusApproved <==> enough && makes_quorum(
                after,
                after.weight_for as int,
            )
            &&& after.status is ConsensusRejected <==> enough && !makes_quorum(
                after,
                after.weight_for as int,
            ) && makes_quorum(after, after.weight_against as int)
            &&& !(after.status is Expired)
            &&& after.status is Open <==> next.open_rounds.contains(invoice_id)
            &&& !(after.status is Open) ==> lost(state.open_rounds, next.open_rounds, invoice_id)
            &&& forall|id: u64| id != invoice_id ==> (#[trigger] next.open_rounds.contains(id)
                <==> state.open_rounds.contains(id))
        }),
{
    assert(crate::oracle_registry::laws::valid_round(invoice_id, state.rounds[invoice_id]));
    let round = next.rounds[invoice_id];
    lemma_threshold(round, round.weight_for as int);
    lemma_threshold(round, round.weight_against as int);
    assert(state.open_rounds.contains(invoice_id));
    lemma_lost(state.open_rounds, invoice_id);
    crate::oracle_registry::laws::requests_keep_the_registry_valid(
        state,
        Request::SubmitVote { now, oracle, invoice_id, approved, evidence_hash, accepted },
        next,
    );
    assert forall|id: u64| id != invoice_id implies (#[trigger] next.open_rounds.contains(id)
        <==> state.open_rounds.contains(id)) by {
        assert(next.rounds.dom().contains(id) == state.rounds.dom().contains(id));
        assert(next.rounds[id] == state.rounds[id]);
    }
}

/// A vote counts once for its oracle and is announced with its weight, and so is
/// the end of the round; nothing else changes.
pub proof fn a_vote_touches_its_round_alone(
    state: RegistryState,
    now: u64,
    oracle: Address,
    invoice_id: u64,
    approved: bool,
    evidence_hash: Seq<u8>,
    accepted: bool,
    next: RegistryState,
)
    requires
        state.submit_vote(now, oracle, invoice_id, approved, evidence_hash, accepted) == Ok::<
            RegistryState,
            RegistryFailure,
        >(next),
    ensures
        ({
            let info = state.oracles[oracle];
            let voted = RegistryEvent::Voted {
                invoice_id,
                oracle,
                approved,
                weight: info.stake_amount,
                evidence_hash,
            };
            let status = next.rounds[invoice_id].status;
            &&& next.oracles.dom() == state.oracles.dom()
            &&& next.oracles[oracle].total_verifications == info.total_verifications + 1
            &&& next.oracles[oracle] == (OracleInfo {
                total_verifications: next.oracles[oracle].total_verifications,
                ..info
            })
            &&& forall|a: Address| a != oracle && #[trigger]
                state.oracles.dom().contains(a) ==> next.oracles[a] == state.oracles[a]
            &&& next.rounds.dom() == state.rounds.dom()
            &&& forall|id: u64| id != invoice_id && #[trigger]
                state.rounds.dom().contains(id) ==> next.rounds[id] == state.rounds[id]
            &&& status is Open ==> next.events == state.events.push(voted) && next.open_rounds
                == state.open_rounds
            &&& !(status is Open) ==> next.events == state.events.push(voted).push(
                RegistryEvent::Consensus { invoice_id, approved: status is ConsensusApproved },
            )
            &&& same_setup(state, next)
            &&& next.transfers == state.transfers
            &&& next.oracle_ids == state.oracle_ids
        }),
{
    assert(next.oracles.dom() =~= state.oracles.dom());
    assert(next.rounds.dom() =~= state.rounds.dom());
}

/// Whether the parties and the rules are the same.
pub open spec fn same_setup(state: RegistryState, next: RegistryState) -> bool {
    &&& next.me == state.me
    &&& next.initialized == state.initialized
    &&& next.admin == state.admin
    &&& next.paused == state.paused
    &&& next.config == state.config
    &&& next.invoice_contract == state.invoice_contract
    &&& next.quorum_tiers == state.quorum_tiers
}

/// Whether the oracles and what they are owed are the same.
pub open spec fn same_oracles(state: RegistryState, next: RegistryState) -> bool {
    &&& next.oracles == state.oracles
    &&& next.oracle_ids == state.oracle_ids
    &&& next.transfers == state.transfers
}

/// Whether the rounds are the same.
pub open spec fn same_rounds(state: RegistryState, next: RegistryState) -> bool {
    &&& next.rounds == state.rounds
    &&& next.open_rounds == state.open_rounds
}

/// A vote is taken exactly when the registry runs, its oracle is active and has
/// not voted, the round is open and in time, the numbers stay in range, and the
/// ledger takes the verdict, if there is one.
pub proof fn votes_are_owed_a_hearing(
    state: RegistryState,
    now: u64,
    oracle: Address,
    invoice_id: u64,
    approved: bool,
    evidence_hash: Seq<u8>,
    accepted: bool,
)
    requires
        state.valid(),
    ensures
        ({
            let info = state.oracles[oracle];
            let round = state.rounds[invoice_id];
            let (weight_for, weight_against) = weights_behind(round, approved, info.stake_amount);
            state.submit_vote(now, oracle, invoice_id, approved, evidence_hash, accepted) is Ok
                <==> {
                &&& !state.paused
                &&& state.oracles.dom().contains(oracle)
                &&& info.is_active
                &&& state.rounds.dom().contains(invoice_id)
                &&& round.status is Open
                &&& now <= round.deadline
                &&& !round.votes.dom().contains(oracle)
                &&& round.votes.dom().len() < u32::MAX
                &&& info.total_verifications < u32::MAX
                &&& fits(weight_for)
                &&& fits(weight_against)
                &&& fits(round.total_stake_snapshot * round.quorum_bps + 9_999)
                &&& decides(round, approved, info.stake_amount) ==> state.invoice_contract is Some
                    && accepted
            }
        }),
{
    if state.rounds.dom().contains(invoice_id) && state.oracles.dom().contains(oracle) {
        let info = state.oracles[oracle];
        let round = state.rounds[invoice_id];
        assert(crate::oracle_registry::laws::valid_round(invoice_id, round));
        let (weight_for, weight_against) = weights_behind(round, approved, info.stake_amount);
        lemma_threshold(round, weight_for);
        lemma_threshold(round, weight_against);
        if round.with_vote(oracle, approved, info.stake_amount) is Some {
            let behind = round.with_vote(oracle, approved, info.stake_amount)->0;
            lemma_threshold(behind, weight_for);
            lemma_threshold(behind, weight_against);
            if !round.votes.dom().contains(oracle) {
                assert(behind.votes.dom().len() == round.votes.dom().len() + 1);
            }
        }
    }
}

/// The stake of the active ones among given oracles.
pub open spec fn active_stake(oracles: Map<Address, OracleInfo>, ids: Seq<Address>) -> int
    decreases ids.len(),
{
    if ids.len() == 0 {
        0
    } else {
        active_stake(oracles, ids.drop_last()) + (if oracles.dom().contains(ids.last())
            && oracles[ids.last()].is_active {
            oracles[ids.last()].stake_amount as int
        } else {
            0
        })
    }
}

/// How many of given oracles are active.
pub open spec fn active_count(oracles: Map<Address, OracleInfo>, ids: Seq<Address>) -> nat
    decreases ids.len(),
{
    if ids.len() == 0 {
        0
    } else {
        active_count(oracles, ids.drop_last()) + (if oracles.dom().contains(ids.last())
            && oracles[ids.last()].is_active {
            1nat
        } else {
            0nat
        })
    }
}

proof fn lemma_active(state: RegistryState, ids: Seq<Address>)
    requires
        state.valid_oracles(),
    ensures
        state.active_among(ids).len() == active_count(state.oracles, ids),
        active_stake(state.oracles, ids) >= 0,
        active_count(state.oracles, ids) <= ids.len(),
        match state.stake_of(state.active_among(ids)) {
            Some(sum) => sum == active_stake(state.oracles, ids),
            None => active_stake(state.oracles, ids) > i128::MAX,
        },
    decreases ids.len(),
{
    reveal(Seq::filter);
    if ids.len() > 0 {
        let rest = state.active_among(ids.drop_last());
        lemma_active(state, ids.drop_last());
        if state.is_active(ids.last()) {
            assert(state.active_among(ids) == rest.push(ids.last()));
            assert(rest.push(ids.last()).drop_last() =~= rest);
        }
    }
}

/// The list of active oracles shows, in the order of their registration, exactly
/// those of the registered oracles that are active.
pub proof fn the_active_are_listed(state: RegistryState, ids: Seq<Address>)
    ensures
        state.active_among(ids) == ids.filter(
            |a: Address| state.oracles.dom().contains(a) && state.oracles[a].is_active,
        ),
        forall|a: Address| #[trigger]
            state.active_among(ids).contains(a) <==> ids.contains(a)
                && state.oracles.dom().contains(a) && state.oracles[a].is_active,
{
    let active = |a: Address| state.oracles.dom().contains(a) && state.oracles[a].is_active;
    let named = |a: Address| state.is_active(a);
    assert(active =~= named);
    assert forall|a: Address| #[trigger] state.active_among(ids).contains(a) <==> ids.contains(a)
        && state.oracles.dom().contains(a) && state.oracles[a].is_active by {
        let list = state.active_among(ids);
        if list.contains(a) {
            ids.lemma_filter_contains_rev(named, a);
            let i = choose|i: int| 0 <= i < list.len() && list[i] == a;
            ids.lemma_filter_pred(named, i);
        }
        if ids.contains(a) && state.is_active(a) {
            let i = choose|i: int| 0 <= i < ids.len() && ids[i] == a;
            ids.lemma_filter_contains(named, i);
        }
    }
}

/// A round opens with the stake and the number of all oracles that are active at
/// the time, the rules of the time and the quorum for the amount of the invoice, on
/// which see [`quorums_follow_the_tiers`]; without votes, and for as long as the
/// rules say.
///
/// [`quorums_follow_the_tiers`]: quorums_follow_the_tiers
pub proof fn rounds_open_with_the_active_stake(
    state: RegistryState,
    now: u64,
    invoice_id: u64,
    oracle_hash: Seq<u8>,
    reply: Option<(bool, i128)>,
)
    requires
        state.valid(),
    ensures
        match state.open_verification_round(now, invoice_id, oracle_hash, reply) {
            Ok(next) => {
                let round = next.rounds[invoice_id];
                let config = state.config->0;
                let (_, amount) = reply->0;
                &&& round.invoice_id == invoice_id
                &&& round.required_votes == config.required_votes
                &&& round.total_registered_oracles == active_count(
                    state.oracles,
                    state.oracle_ids,
                )
                &&& round.total_stake_snapshot == active_stake(state.oracles, state.oracle_ids)
                &&& round.quorum_bps == crate::oracle_registry::state::quorum_for(
                    state.quorum_tiers,
                    config.quorum_bps,
                    amount,
                )
                &&& forall|a: Address| !(#[trigger] round.votes.dom().contains(a))
                &&& round.weight_for == 0
                &&& round.weight_against == 0
                &&& round.status is Open
                &&& round.opened_at == now
                &&& round.deadline == later(now, config.round_duration_secs)
                &&& round.oracle_hash == oracle_hash
                &&& next.rounds == state.rounds.insert(invoice_id, round)
                &&& next.open_rounds == state.open_rounds.push(invoice_id)
                &&& next.events == state.events.push(
                    RegistryEvent::RoundOpened {
                        invoice_id,
                        active_count: round.total_registered_oracles,
                        total_stake: round.total_stake_snapshot,
                    },
                )
                &&& same_setup(state, next)
                &&& same_oracles(state, next)
            },
            Err(_) => true,
        },
        state.open_verification_round(now, invoice_id, oracle_hash, reply) is Ok <==> {
            &&& !state.paused
            &&& !(state.rounds.dom().contains(invoice_id) && state.rounds[invoice_id].status
                is Open)
            &&& state.invoice_contract is Some
            &&& reply matches Some((awaiting, _)) && awaiting
            &&& state.config is Some
            &&& active_count(state.oracles, state.oracle_ids) > 0
            &&& active_stake(state.oracles, state.oracle_ids) <= i128::MAX
            &&& state.open_rounds.len() < u32::MAX
        },
{
    lemma_active(state, state.oracle_ids);
}

/// The quorum for an amount is that of the tier with the highest amount that it
/// reaches, whichever that is, and the default if it reaches none.
pub proof fn quorums_follow_the_tiers(
    state: RegistryState,
    default_bps: u32,
    amount: i128,
    i: int,
)
    requires
        state.valid(),
    ensures
        ({
            let tiers = state.quorum_tiers;
            let bps = crate::oracle_registry::state::quorum_for(tiers, default_bps, amount);
            &&& 0 <= i < tiers.len() && tiers[i].min_invoice_amount <= amount && (forall|j: int|
                0 <= j < tiers.len() && (#[trigger] tiers[j]).min_invoice_amount <= amount
                    ==> tiers[j].min_invoice_amount <= tiers[i].min_invoice_amount) ==> bps
                == tiers[i].quorum_bps
            &&& (forall|j: int|
                0 <= j < tiers.len() ==> (#[trigger] tiers[j]).min_invoice_amount > amount)
                ==> bps == default_bps
        }),
{
    let tiers = state.quorum_tiers;
    crate::oracle_registry::laws::the_highest_tier_counts(tiers, default_bps, amount);
    if 0 <= i < tiers.len() && tiers[i].min_invoice_amount <= amount && (forall|j: int|
        0 <= j < tiers.len() && (#[trigger] tiers[j]).min_invoice_amount <= amount
            ==> tiers[j].min_invoice_amount <= tiers[i].min_invoice_amount) {
        if i + 1 < tiers.len() {
            assert(tiers[i].min_invoice_amount < tiers[i + 1].min_invoice_amount);
        }
    }
}

/// An oracle registers with its stake, which it has to pay in, and which is at
/// least what the rules ask for; it is active at once and last on the list.
pub proof fn oracles_pay_their_stake(
    state: RegistryState,
    now: u64,
    operator: Address,
    stake_amount: i128,
)
    requires
        state.valid(),
    ensures
        match state.register_oracle(now, operator, stake_amount) {
            Ok(next) => {
                let info = next.oracles[operator];
                let token = state.config->0.stake_token;
                &&& info.address == operator
                &&& info.stake_amount == stake_amount
                &&& info.stake_token == token
                &&& info.is_active
                &&& info.total_verifications == 0
                &&& info.total_slashes == 0
                &&& info.registered_at == now
                &&& info.deregister_requested_at is None
                &&& next.oracles == state.oracles.insert(operator, info)
                &&& next.oracle_ids == state.oracle_ids.push(operator)
                &&& next.transfers == state.transfers.push(
                    Transfer { token, from: operator, to: state.me, amount: stake_amount },
                )
                &&& next.events == state.events.push(
                    RegistryEvent::Registered { operator, stake_amount },
                )
                &&& same_setup(state, next)
                &&& same_rounds(state, next)
            },
            Err(_) => true,
        },
        state.register_oracle(now, operator, stake_amount) is Ok <==> {
            &&& !state.paused
            &&& state.config is Some
            &&& stake_amount >= state.config->0.min_stake
            &&& !state.oracles.dom().contains(operator)
            &&& state.oracle_ids.len() < u32::MAX
        },
{
}

/// Whether an oracle has not voted in a round that is open.
pub open spec fn owes(state: RegistryState, operator: Address, id: u64) -> bool {
    &&& state.rounds.dom().contains(id)
    &&& state.rounds[id].status is Open
    &&& !state.rounds[id].votes.dom().contains(operator)
}

/// An oracle leaves in two steps. With the first, for which it must have voted in
/// every open round, it stops being active. With the second, once the cooldown has
/// passed, it gets back its stake and is forgotten.
pub proof fn oracles_leave_in_two_steps(state: RegistryState, now: u64, operator: Address)
    requires
        state.valid(),
    ensures
        match state.deregister_oracle(now, operator) {
            Ok(next) => {
                let info = state.oracles[operator];
                &&& same_setup(state, next)
                &&& same_rounds(state, next)
                &&& info.is_active ==> {
                    &&& !next.oracles[operator].is_active
                    &&& next.oracles[operator].deregister_requested_at == Some(now)
                    &&& next.oracles[operator] == (OracleInfo {
                        is_active: false,
                        deregister_requested_at: Some(now),
                        ..info
                    })
                    &&& next.oracles == state.oracles.insert(operator, next.oracles[operator])
                    &&& next.oracle_ids == state.oracle_ids
                    &&& next.transfers == state.transfers
                    &&& next.events == state.events.push(
                        RegistryEvent::DeregistrationRequested { operator },
                    )
                }
                &&& !info.is_active ==> {
                    &&& next.oracles == state.oracles.remove(operator)
                    &&& next.oracle_ids.no_duplicates()
                    &&& lost(state.oracle_ids, next.oracle_ids, operator)
                    &&& forall|a: Address| #[trigger]
                        next.oracle_ids.contains(a) <==> state.oracle_ids.contains(a) && a
                            != operator
                    &&& next.transfers == state.transfers.push(
                        Transfer {
                            token: state.config->0.stake_token,
                            from: state.me,
                            to: operator,
                            amount: info.stake_amount,
                        },
                    )
                    &&& next.events == state.events.push(RegistryEvent::Deregistered { operator })
                }
            },
            Err(_) => true,
        },
        state.deregister_oracle(now, operator) is Ok <==> {
            let info = state.oracles[operator];
            &&& !state.paused
            &&& state.oracles.dom().contains(operator)
            &&& info.is_active ==> forall|id: u64| !(#[trigger] owes(state, operator, id))
            &&& !info.is_active ==> now >= later(
                info.deregister_requested_at->0,
                state.config->0.deregister_cooldown_secs,
            )
        },
{
    if state.oracles.dom().contains(operator) {
        if state.owes_vote(operator) {
            let i = choose|i: int|
                0 <= i < state.open_rounds.len() && state.lacks_vote(
                    #[trigger] state.open_rounds[i],
                    operator,
                );
            assert(owes(state, operator, state.open_rounds[i]));
        } else {
            assert forall|id: u64| !(#[trigger] owes(state, operator, id)) by {
                if owes(state, operator, id) {
                    assert(state.open_rounds.contains(id));
                    let i = choose|i: int|
                        0 <= i < state.open_rounds.len() && state.open_rounds[i] == id;
                    assert(state.lacks_vote(state.open_rounds[i], operator));
                }
            }
        }
        if state.deregister_oracle(now, operator) is Ok {
            let next = state.deregister_oracle(now, operator)->Ok_0;
            lemma_lost(state.oracle_ids, operator);
            crate::oracle_registry::laws::requests_keep_the_registry_valid(
                state,
                Request::DeregisterOracle { now, operator },
                next,
            );
            if !state.oracles[operator].is_active {
                assert forall|a: Address| #[trigger] next.oracle_ids.contains(a)
                    <==> state.oracle_ids.contains(a) && a != operator by {
                    assert(next.oracles.dom().contains(a) <==> state.oracles.dom().contains(a) && a
                        != operator);
                }
            }
        }
    }
}

/// A slash takes the share of the stake that the administrator names, rounded
/// down, for what the oracle did in a round that is named and with evidence. It
/// goes to the treasury, if there is one.
pub proof fn slashes_cost_the_share(
    state: RegistryState,
    admin: Address,
    operator: Address,
    bps: u32,
    round_id: u64,
    evidence: Seq<u8>,
)
    requires
        state.valid(),
    ensures
        match state.slash_oracle(admin, operator, bps, round_id, evidence) {
            Ok(next) => {
                let before = state.oracles[operator];
                let after = next.oracles[operator];
                let taken = before.stake_amount - after.stake_amount;
                &&& 0 <= taken <= before.stake_amount
                &&& taken * 10_000 <= before.stake_amount * bps < (taken + 1) * 10_000
                &&& after.total_slashes == before.total_slashes + 1
                &&& after == (OracleInfo {
                    stake_amount: after.stake_amount,
                    total_slashes: after.total_slashes,
                    ..before
                })
                &&& next.oracles == state.oracles.insert(operator, after)
                &&& next.oracle_ids == state.oracle_ids
                &&& match state.config->0.treasury {
                    Some(treasury) => next.transfers == state.transfers.push(
                        Transfer {
                            token: state.config->0.stake_token,
                            from: state.me,
                            to: treasury,
                            amount: taken as i128,
                        },
                    ),
                    None => next.transfers == state.transfers,
                }
                &&& next.events == state.events.push(
                    RegistryEvent::Slashed {
                        operator,
                        bps,
                        slash_amount: taken as i128,
                        admin,
                        round_id,
                        evidence,
                    },
                )
                &&& same_setup(state, next)
                &&& same_rounds(state, next)
            },
            Err(_) => true,
        },
        state.slash_oracle(admin, operator, bps, round_id, evidence) is Ok <==> {
            &&& state.admin == Some(admin)
            &&& 0 < bps <= 10_000
            &&& evidence.len() > 0
            &&& state.rounds.dom().contains(round_id)
            &&& state.oracles.dom().contains(operator)
            &&& fits(state.oracles[operator].stake_amount * bps)
            &&& state.oracles[operator].total_slashes < u32::MAX
        },
{
    if state.oracles.dom().contains(operator) && 0 < bps <= 10_000 {
        crate::oracle_registry::laws::slashes_take_a_share(
            state.oracles[operator].stake_amount,
            bps,
        );
        let stake = state.oracles[operator].stake_amount;
        assert(stake * bps >= 0) by (nonlinear_arith)
            requires
                stake >= 0,
                bps > 0,
        ;
    }
}

/// A round runs out once its deadline has passed, and no sooner; its votes stay
/// on record.
pub proof fn rounds_run_out(state: RegistryState, now: u64, invoice_id: u64)
    requires
        state.valid(),
    ensures
        match state.expire_round(now, invoice_id) {
            Ok(next) => {
                let after = next.rounds[invoice_id];
                &&& after.status is Expired
                &&& after == (VerificationRound {
                    status: RoundStatus::Expired,
                    ..state.rounds[invoice_id]
                })
                &&& next.rounds == state.rounds.insert(invoice_id, after)
                &&& next.open_rounds.no_duplicates()
                &&& lost(state.open_rounds, next.open_rounds, invoice_id)
                &&& forall|id: u64| #[trigger]
                    next.open_rounds.contains(id) <==> state.open_rounds.contains(id) && id
                        != invoice_id
                &&& next.events == state.events.push(RegistryEvent::RoundExpired { invoice_id })
                &&& same_setup(state, next)
                &&& same_oracles(state, next)
            },
            Err(_) => true,
        },
        state.expire_round(now, invoice_id) is Ok <==> {
            &&& state.rounds.dom().contains(invoice_id)
            &&& state.rounds[invoice_id].status is Open
            &&& now > state.rounds[invoice_id].deadline
        },
{
    if state.expire_round(now, invoice_id) is Ok {
        let next = state.expire_round(now, invoice_id)->Ok_0;
        lemma_lost(state.open_rounds, invoice_id);
        crate::oracle_registry::laws::requests_keep_the_registry_valid(
            state,
            Request::ExpireRound { now, invoice_id },
            next,
        );
        assert forall|id: u64| #[trigger] next.open_rounds.contains(id)
            <==> state.open_rounds.contains(id) && id != invoice_id by {
            assert(id != invoice_id ==> next.rounds.dom().contains(id)
                == state.rounds.dom().contains(id));
        }
    }
}

/// The administrator decides a round that ran out, either way, if the ledger
/// takes the decision; its votes stay on record.
pub proof fn the_administrator_decides_what_ran_out(
    state: RegistryState,
    now: u64,
    admin: Address,
    invoice_id: u64,
    approved: bool,
    reason: Seq<u8>,
    accepted: bool,
)
    ensures
        match state.admin_resolve_round(now, admin, invoice_id, approved, reason, accepted) {
            Ok(next) => {
                let after = next.rounds[invoice_id];
                &&& approved ==> after.status is ConsensusApproved
                &&& !approved ==> after.status is ConsensusRejected
                &&& after == (VerificationRound {
                    status: after.status,
                    ..state.rounds[invoice_id]
                })
                &&& next.rounds == state.rounds.insert(invoice_id, after)
                &&& next.open_rounds == state.open_rounds
                &&& next.events == state.events.push(
                    RegistryEvent::Fallback { invoice_id, approved, admin, reason },
                )
                &&& same_setup(state, next)
                &&& same_oracles(state, next)
            },
            Err(_) => true,
        },
        state.admin_resolve_round(now, admin, invoice_id, approved, reason, accepted) is Ok <==> {
            &&& state.admin == Some(admin)
            &&& state.rounds.dom().contains(invoice_id)
            &&& state.rounds[invoice_id].status is Expired
            &&& now > state.rounds[invoice_id].deadline
            &&& state.invoice_contract is Some
            &&& accepted
        },
{
}

/// `consensus `, then `approved` or `rejected`.
pub open spec fn words_of_the_verdict(approved: bool) -> Seq<u8> {
    let consensus = seq![99u8, 111u8, 110u8, 115u8, 101u8, 110u8, 115u8, 117u8, 115u8, 32u8];
    if approved {
        consensus + seq![97u8, 112u8, 112u8, 114u8, 111u8, 118u8, 101u8, 100u8]
    } else {
        consensus + seq![114u8, 101u8, 106u8, 101u8, 99u8, 116u8, 101u8, 100u8]
    }
}

/// A decision of the administrator on a round that ran out leads to a call to the
/// ledger with that decision, the hash of the round and words that say how it was
/// decided; the call is due exactly when the decision can stand.
pub proof fn decisions_lead_to_calls(
    state: RegistryState,
    now: u64,
    admin: Address,
    invoice_id: u64,
    approved: bool,
    reason: Seq<u8>,
)
    ensures
        match state.resolve_call(now, admin, invoice_id, approved) {
            Ok(call) => {
                &&& Some(call.invoice_contract) == state.invoice_contract
                &&& call.invoice_id == invoice_id
                &&& call.registry == state.me
                &&& call.approved == approved
                &&& call.reason == words_of_the_verdict(approved)
                &&& call.oracle_hash == state.rounds[invoice_id].oracle_hash
            },
            Err(_) => true,
        },
        state.resolve_call(now, admin, invoice_id, approved) is Ok <==> state.admin_resolve_round(
            now,
            admin,
            invoice_id,
            approved,
            reason,
            true,
        ) is Ok,
{
    assert(crate::oracle_registry::state::verdict_reason(true) =~= words_of_the_verdict(true));
    assert(crate::oracle_registry::state::verdict_reason(false) =~= words_of_the_verdict(false));
}

/// A vote leads to a call to the ledger exactly when it decides the round, with
/// the verdict of the side that makes up the quorum, approval going first.
pub proof fn decisive_votes_lead_to_calls(
    state: RegistryState,
    now: u64,
    oracle: Address,
    invoice_id: u64,
    approved: bool,
    evidence_hash: Seq<u8>,
)
    requires
        state.valid(),
    ensures
        state.vote_call(now, oracle, invoice_id, approved) is Ok <==> state.submit_vote(
            now,
            oracle,
            invoice_id,
            approved,
            evidence_hash,
            true,
        ) is Ok,
        match state.vote_call(now, oracle, invoice_id, approved) {
            Ok(due) => {
                let round = state.rounds[invoice_id];
                let stake = state.oracles[oracle].stake_amount;
                &&& due is Some <==> decides(round, approved, stake)
                &&& due matches Some(call) ==> {
                    &&& Some(call.invoice_contract) == state.invoice_contract
                    &&& call.invoice_id == invoice_id
                    &&& call.registry == state.me
                    &&& call.approved == makes_quorum(
                        round,
                        weights_behind(round, approved, stake).0,
                    )
                    &&& call.reason == words_of_the_verdict(call.approved)
                    &&& call.oracle_hash == round.oracle_hash
                }
            },
            Err(_) => true,
        },
{
    assert(crate::oracle_registry::state::verdict_reason(true) =~= words_of_the_verdict(true));
    assert(crate::oracle_registry::state::verdict_reason(false) =~= words_of_the_verdict(false));
    if state.vote_refusal(now, oracle, invoice_id) is None {
        let stake = state.oracles[oracle].stake_amount;
        let round = state.rounds[invoice_id];
        assert(crate::oracle_registry::laws::valid_round(invoice_id, round));
        let (weight_for, weight_against) = weights_behind(round, approved, stake);
        lemma_threshold(round, weight_for);
        lemma_threshold(round, weight_against);
        if round.with_vote(oracle, approved, stake) is Some {
            let behind = round.with_vote(oracle, approved, stake)->0;
            assert(behind.votes.dom().len() == round.votes.dom().len() + 1);
        }
    }
}

/// A registry is set up once, with the token and the least stake that are named,
/// three votes and two thirds of the stake for a verdict, rounds of three days, a
/// cooldown of seven days and no treasury.
pub proof fn registries_are_set_up(
    state: RegistryState,
    admin: Address,
    stake_token: Address,
    min_stake: i128,
)
    ensures
        match state.initialize(admin, stake_token, min_stake) {
            Ok(next) => {
                &&& next.me == state.me
                &&& next.initialized
                &&& next.admin == Some(admin)
                &&& !next.paused
                &&& next.config == Some(
                    RegistryConfig {
                        min_stake,
                        stake_token,
                        required_votes: 3,
                        quorum_bps: 6_600,
                        round_duration_secs: 259_200,
                        deregister_cooldown_secs: 604_800,
                        treasury: None,
                    },
                )
                &&& next.oracle_ids.len() == 0
                &&& next.open_rounds.len() == 0
                &&& next.invoice_contract == state.invoice_contract
                &&& next.quorum_tiers == state.quorum_tiers
                &&& next.oracles == state.oracles
                &&& next.rounds == state.rounds
                &&& next.transfers == state.transfers
                &&& next.events == state.events
            },
            Err(_) => true,
        },
        state.initialize(admin, stake_token, min_stake) is Ok <==> !state.initialized && min_stake
            > 0,
        ({
            let blank = RegistryState::blank(state.me);
            &&& blank.me == state.me
            &&& !blank.initialized
            &&& blank.admin is None
            &&& !blank.paused
            &&& blank.config is None
            &&& blank.invoice_contract is None
            &&& forall|a: Address| !blank.oracles.dom().contains(a)
            &&& forall|id: u64| !blank.rounds.dom().contains(id)
            &&& blank.quorum_tiers.len() == 0
            &&& blank.transfers.len() == 0
            &&& blank.events.len() == 0
        }),
{
}

/// Whether tiers can be set: they go up in amounts that are not negative, and each
/// asks for some of the stake and for no more than all of it.
pub open spec fn orderly_tiers(tiers: Seq<QuorumTier>) -> bool {
    &&& forall|i: int|
        0 <= i < tiers.len() ==> 0 <= (#[trigger] tiers[i]).min_invoice_amount && 1
            <= tiers[i].quorum_bps <= 10_000
    &&& forall|i: int, j: int|
        0 <= i < j < tiers.len() ==> (#[trigger] tiers[i]).min_invoice_amount < (
        #[trigger] tiers[j]).min_invoice_amount
}

/// Each request of the administrator that sets a rule or names a party changes
/// that rule or party, as it says, and nothing else; rules have to make sense.
pub proof fn the_administrator_sets_what_is_named(
    state: RegistryState,
    request: Request,
)
    requires
        state.valid(),
        match request {
            Request::SetInvoiceContract { .. } => true,
            Request::SetTreasury { .. } => true,
            Request::SetRegistryConfig { .. } => true,
            Request::SetQuorumTiers { .. } => true,
            Request::Pause { .. } => true,
            Request::Unpause { .. } => true,
            _ => false,
        },
    ensures
        match state.apply(request) {
            Ok(next) => {
                &&& next.me == state.me
                &&& next.initialized == state.initialized
                &&& next.admin == state.admin
                &&& same_oracles(state, next)
                &&& same_rounds(state, next)
                &&& next.paused == match request {
                    Request::Pause { .. } => true,
                    Request::Unpause { .. } => false,
                    _ => state.paused,
                }
                &&& next.invoice_contract == match request {
                    Request::SetInvoiceContract { invoice_contract, .. } => Some(invoice_contract),
                    _ => state.invoice_contract,
                }
                &&& next.quorum_tiers == match request {
                    Request::SetQuorumTiers { tiers, .. } => tiers,
                    _ => state.quorum_tiers,
                }
                &&& match request {
                    Request::SetTreasury { treasury, .. } => {
                        &&& next.config->0.treasury == treasury
                        &&& next.config == Some(RegistryConfig { treasury, ..state.config->0 })
                    },
                    Request::SetRegistryConfig {
                        min_stake,
                        required_votes,
                        quorum_bps,
                        round_duration_secs,
                        deregister_cooldown_secs,
                        ..
                    } => {
                        &&& next.config is Some
                        &&& next.config->0.min_stake == min_stake
                        &&& next.config->0.required_votes == required_votes
                        &&& next.config->0.quorum_bps == quorum_bps
                        &&& next.config->0.round_duration_secs == round_duration_secs
                        &&& next.config->0.deregister_cooldown_secs == deregister_cooldown_secs
                        &&& next.config->0.stake_token == state.config->0.stake_token
                        &&& next.config->0.treasury == state.config->0.treasury
                    },
                    _ => next.config == state.config,
                }
                &&& match request {
                    Request::SetInvoiceContract { invoice_contract, .. } => next.events
                        == state.events.push(
                        RegistryEvent::InvoiceContractSet { invoice_contract },
                    ),
                    Request::SetRegistryConfig { admin, .. } => next.events == state.events.push(
                        RegistryEvent::ConfigUpdated { admin },
                    ),
                    Request::SetQuorumTiers { admin, .. } => next.events == state.events.push(
                        RegistryEvent::TiersUpdated { admin },
                    ),
                    Request::Pause { admin } => next.events == state.events.push(
                        RegistryEvent::Paused { admin },
                    ),
                    Request::Unpause { admin } => next.events == state.events.push(
                        RegistryEvent::Unpaused { admin },
                    ),
                    _ => next.events == state.events,
                }
            },
            Err(_) => true,
        },
        state.apply(request) is Ok <==> {
            &&& state.admin is Some
            &&& crate::oracle_registry::laws::administrator_of(request) == state.admin
            &&& match request {
                Request::SetRegistryConfig {
                    min_stake,
                    required_votes,
                    quorum_bps,
                    round_duration_secs,
                    ..
                } => min_stake > 0 && required_votes > 0 && 1 <= quorum_bps <= 10_000
                    && round_duration_secs > 0,
                Request::SetQuorumTiers { tiers, .. } => orderly_tiers(tiers),
                _ => true,
            }
        },
{
}

/// The list of the votes in a round shows each vote once, as it was cast, in the
/// order of the voters' addresses: accounts before contracts, then by key.
pub proof fn tallies_show_every_vote(list: Seq<(Address, bool)>, votes: Map<Address, bool>)
    requires
        crate::oracle_registry::state::tallies(list, votes),
    ensures
        forall|a: Address, approved: bool| #[trigger]
            list.contains((a, approved)) <==> votes.dom().contains(a) && votes[a] == approved,
        list.no_duplicates(),
        forall|i: int, j: int|
            0 <= i < j < list.len() ==> {
                let (a, _) = #[trigger] list[i];
                let (b, _) = #[trigger] list[j];
                a.kind < b.kind || (a.kind == b.kind && (a.hi < b.hi || (a.hi == b.hi && a.lo
                    < b.lo)))
            },
{
    assert forall|a: Address, approved: bool| #[trigger]
        list.contains((a, approved)) <==> votes.dom().contains(a) && votes[a] == approved by {
        if votes.dom().contains(a) && votes[a] == approved {
            let i = choose|i: int| 0 <= i < list.len() && #[trigger] list[i] == (a, votes[a]);
            assert(list[i] == (a, approved));
        }
    }
}

/// The errors, in the order of their numbers.
pub open spec fn numbered() -> Seq<OracleRegistryError> {
    seq![
        OracleRegistryError::AlreadyInitialized,
        OracleRegistryError::NotInitialized,
        OracleRegistryError::Unauthorized,
        OracleRegistryError::ContractPaused,
        OracleRegistryError::InvalidAmount,
        OracleRegistryError::InsufficientStake,
        OracleRegistryError::AlreadyRegistered,
        OracleRegistryError::NotRegistered,
        OracleRegistryError::DeregisterHasPendingVotes,
        OracleRegistryError::DeregisterCooldownActive,
        OracleRegistryError::InvalidBps,
        OracleRegistryError::NoActiveOracles,
        OracleRegistryError::RoundAlreadyOpen,
        OracleRegistryError::RoundNotFound,
        OracleRegistryError::RoundNotOpen,
        OracleRegistryError::RoundExpired,
        OracleRegistryError::RoundNotExpired,
        OracleRegistryError::AlreadyVoted,
        OracleRegistryError::InvoiceContractNotSet,
        OracleRegistryError::InvoiceCallFailed,
        OracleRegistryError::InvalidConfig,
        OracleRegistryError::InvoiceNotAwaitingVerification,
        OracleRegistryError::InvalidQuorumTiers,
        OracleRegistryError::InvalidEvidence,
        OracleRegistryError::SlashRoundNotFound,
    ]
}

/// An error is reported under its place in the order of the numbers.
pub proof fn errors_are_numbered_in_order(e: OracleRegistryError)
    ensures
        numbered().len() == 25,
        e.spec_code() < 25,
        numbered()[e.spec_code() as int] == e,
{
}

/// Different errors are reported under different numbers.
pub proof fn errors_are_told_apart(a: OracleRegistryError, b: OracleRegistryError)
    requires
        a != b,
    ensures
        a.spec_code() != b.spec_code(),
        a.spec_code() <= 24,
{
}

/// A request that is refused is refused for a reason that holds.
pub proof fn refusals_give_true_reasons(state: RegistryState, request: Request)
    requires
        state.valid(),
    ensures
        match state.apply(request) {
            Err(RegistryFailure::Error(e)) => true_reason(state, request, e),
            Err(RegistryFailure::Trap(trap)) => true_trap(state, request, trap),
            Ok(_) => true,
        },
{
    match request {
        Request::RegisterOracle { .. } => {},
        Request::DeregisterOracle { operator, .. } => {
            if state.owes_vote(operator) {
                let i = choose|i: int|
                    0 <= i < state.open_rounds.len() && state.lacks_vote(
                        #[trigger] state.open_rounds[i],
                        operator,
                    );
                assert(owes(state, operator, state.open_rounds[i]));
            }
        },
        Request::SlashOracle { operator, bps, .. } => {
            if state.oracles.dom().contains(operator) && 0 < bps <= 10_000 {
                crate::oracle_registry::laws::slashes_take_a_share(
                    state.oracles[operator].stake_amount,
                    bps,
                );
            }
        },
        Request::OpenVerificationRound { .. } => {
            lemma_active(state, state.oracle_ids);
        },
        Request::SubmitVote { invoice_id, .. } => {
            if state.rounds.dom().contains(invoice_id) {
                let round = state.rounds[invoice_id];
                assert(crate::oracle_registry::laws::valid_round(invoice_id, round));
                lemma_threshold(round, 0);
            }
        },
        Request::ExpireRound { .. } => {},
        Request::AdminResolveRound { .. } => {},
        _ => {},
    }
}

/// Whether a request runs into the end of a range or of a list.
pub open spec fn true_trap(state: RegistryState, request: Request, trap: Trap) -> bool {
    match trap {
        Trap::Overflow => match request {
            Request::SlashOracle { operator, bps, .. } => !fits(
                state.oracles[operator].stake_amount * bps,
            ) || state.oracles[operator].total_slashes == u32::MAX,
            Request::OpenVerificationRound { .. } => active_stake(state.oracles, state.oracle_ids)
                > i128::MAX,
            Request::SubmitVote { oracle, invoice_id, approved, .. } => {
                let info = state.oracles[oracle];
                let round = state.rounds[invoice_id];
                let (weight_for, weight_against) = weights_behind(
                    round,
                    approved,
                    info.stake_amount,
                );
                ||| !fits(weight_for)
                ||| !fits(weight_against)
                ||| info.total_verifications == u32::MAX
                ||| !fits(round.total_stake_snapshot * round.quorum_bps + 9_999)
            },
            _ => false,
        },
        Trap::CollectionFull => match request {
            Request::RegisterOracle { .. } => state.oracle_ids.len() >= u32::MAX,
            Request::OpenVerificationRound { .. } => state.open_rounds.len() >= u32::MAX,
            Request::SubmitVote { invoice_id, .. } => {
                state.rounds[invoice_id].votes.dom().len() >= u32::MAX
            },
            _ => false,
        },
    }
}

/// Whether an error is a reason to refuse a request.
pub open spec fn true_reason(
    state: RegistryState,
    request: Request,
    e: OracleRegistryError,
) -> bool {
    match e {
        OracleRegistryError::AlreadyInitialized => request is Initialize && state.initialized,
        OracleRegistryError::NotInitialized => !state.initialized,
        OracleRegistryError::Unauthorized => {
            &&& crate::oracle_registry::laws::administrator_of(request) is Some
            &&& crate::oracle_registry::laws::administrator_of(request) != state.admin
        },
        OracleRegistryError::ContractPaused => state.paused,
        OracleRegistryError::InvalidAmount => request matches Request::Initialize {
            min_stake,
            ..
        } && min_stake <= 0,
        OracleRegistryError::InsufficientStake => request matches Request::RegisterOracle {
            stake_amount,
            ..
        } && stake_amount < state.config->0.min_stake,
        OracleRegistryError::AlreadyRegistered => request matches Request::RegisterOracle {
            operator,
            ..
        } && state.oracles.dom().contains(operator),
        OracleRegistryError::NotRegistered => match request {
            Request::DeregisterOracle { operator, .. } => !state.oracles.dom().contains(operator),
            Request::SlashOracle { operator, .. } => !state.oracles.dom().contains(operator),
            Request::SubmitVote { oracle, .. } => !state.oracles.dom().contains(oracle)
                || !state.oracles[oracle].is_active,
            _ => false,
        },
        OracleRegistryError::DeregisterHasPendingVotes => request
            matches Request::DeregisterOracle { operator, .. }
            && state.oracles[operator].deregister_requested_at is None && exists|id: u64| #[trigger]
        owes(state, operator, id),
        OracleRegistryError::DeregisterCooldownActive => match request {
            Request::DeregisterOracle { now, operator } => {
                &&& state.oracles[operator].deregister_requested_at is Some
                &&& now < later(
                    state.oracles[operator].deregister_requested_at->0,
                    state.config->0.deregister_cooldown_secs,
                )
            },
            _ => false,
        },
        OracleRegistryError::InvalidBps => request matches Request::SlashOracle { bps, .. } && !(1
            <= bps <= 10_000),
        OracleRegistryError::NoActiveOracles => request is OpenVerificationRound && active_count(
            state.oracles,
            state.oracle_ids,
        ) == 0,
        OracleRegistryError::RoundAlreadyOpen => request matches Request::OpenVerificationRound {
            invoice_id,
            ..
        } && state.rounds.dom().contains(invoice_id) && state.rounds[invoice_id].status is Open,
        OracleRegistryError::RoundNotFound => match request {
            Request::SubmitVote { invoice_id, .. } => !state.rounds.dom().contains(invoice_id),
            Request::ExpireRound { invoice_id, .. } => !state.rounds.dom().contains(invoice_id),
            Request::AdminResolveRound { invoice_id, .. } => !state.rounds.dom().contains(
                invoice_id,
            ),
            _ => false,
        },
        OracleRegistryError::RoundNotOpen => match request {
            Request::SubmitVote { invoice_id, .. } => !(state.rounds[invoice_id].status is Open),
            Request::ExpireRound { invoice_id, .. } => !(state.rounds[invoice_id].status is Open),
            _ => false,
        },
        OracleRegistryError::RoundExpired => request matches Request::SubmitVote {
            now,
            invoice_id,
            ..
        } && now > state.rounds[invoice_id].deadline,
        OracleRegistryError::RoundNotExpired => match request {
            Request::ExpireRound { now, invoice_id } => now <= state.rounds[invoice_id].deadline,
            Request::AdminResolveRound { now, invoice_id, .. } => !(state.rounds[invoice_id].status
                is Expired) || now <= state.rounds[invoice_id].deadline,
            _ => false,
        },
        OracleRegistryError::AlreadyVoted => request matches Request::SubmitVote {
            oracle,
            invoice_id,
            ..
        } && state.rounds[invoice_id].votes.dom().contains(oracle),
        OracleRegistryError::InvoiceContractNotSet => state.invoice_contract is None && (
        request is OpenVerificationRound || request is SubmitVote || request is AdminResolveRound),
        OracleRegistryError::InvoiceCallFailed => match request {
            Request::OpenVerificationRound { reply, .. } => reply is None,
            Request::SubmitVote { accepted, .. } => !accepted,
            Request::AdminResolveRound { accepted, .. } => !accepted,
            _ => false,
        },
        OracleRegistryError::InvalidConfig => request matches Request::SetRegistryConfig {
            min_stake,
            required_votes,
            quorum_bps,
            round_duration_secs,
            ..
        } && !(min_stake > 0 && required_votes > 0 && 1 <= quorum_bps <= 10_000
            && round_duration_secs > 0),
        OracleRegistryError::InvoiceNotAwaitingVerification => request
            matches Request::OpenVerificationRound { reply, .. } && (reply matches Some(
            (awaiting, _),
        ) && !awaiting),
        OracleRegistryError::InvalidQuorumTiers => request matches Request::SetQuorumTiers {
            tiers,
            ..
        } && !orderly_tiers(tiers),
        OracleRegistryError::InvalidEvidence => request matches Request::SlashOracle {
            evidence,
            ..
        } && evidence.len() == 0,
        OracleRegistryError::SlashRoundNotFound => request matches Request::SlashOracle {
            round_id,
            ..
        } && !state.rounds.dom().contains(round_id),
    }
}

/// Whether a failure is a reason to refuse a request.
pub open spec fn true_failure(state: RegistryState, request: Request, f: RegistryFailure) -> bool {
    match f {
        RegistryFailure::Error(e) => true_reason(state, request, e),
        RegistryFailure::Trap(trap) => true_trap(state, request, trap),
    }
}

/// The place of a failure among those that a request can meet with: the lower, the
/// sooner it is told.
pub open spec fn turn(request: Request, f: RegistryFailure) -> int {
    match f {
        RegistryFailure::Error(e) => match request {
            Request::Initialize { .. } => if e is AlreadyInitialized {
                0
            } else {
                1
            },
            Request::RegisterOracle { .. } => match e {
                OracleRegistryError::ContractPaused => 0,
                OracleRegistryError::NotInitialized => 1,
                OracleRegistryError::InsufficientStake => 2,
                _ => 3,
            },
            Request::DeregisterOracle { .. } => match e {
                OracleRegistryError::ContractPaused => 0,
                OracleRegistryError::NotRegistered => 1,
                _ => 2,
            },
            Request::OpenVerificationRound { .. } => match e {
                OracleRegistryError::ContractPaused => 0,
                OracleRegistryError::RoundAlreadyOpen => 1,
                OracleRegistryError::InvoiceContractNotSet => 2,
                OracleRegistryError::InvoiceCallFailed => 3,
                OracleRegistryError::InvoiceNotAwaitingVerification => 4,
                OracleRegistryError::NotInitialized => 5,
                _ => 7,
            },
            Request::SubmitVote { .. } => match e {
                OracleRegistryError::ContractPaused => 0,
                OracleRegistryError::NotRegistered => 1,
                OracleRegistryError::RoundNotFound => 2,
                OracleRegistryError::RoundNotOpen => 3,
                OracleRegistryError::RoundExpired => 4,
                OracleRegistryError::AlreadyVoted => 5,
                OracleRegistryError::InvoiceContractNotSet => 8,
                _ => 9,
            },
            Request::ExpireRound { .. } => match e {
                OracleRegistryError::RoundNotFound => 0,
                OracleRegistryError::RoundNotOpen => 1,
                _ => 2,
            },
            _ => match e {
                OracleRegistryError::NotInitialized => 0,
                OracleRegistryError::Unauthorized => 1,
                OracleRegistryError::InvalidBps => 2,
                OracleRegistryError::InvalidEvidence => 3,
                OracleRegistryError::SlashRoundNotFound => 4,
                OracleRegistryError::RoundNotFound => 5,
                OracleRegistryError::RoundNotExpired => 6,
                OracleRegistryError::InvoiceContractNotSet => 7,
                OracleRegistryError::NotRegistered => 7,
                _ => 8,
            },
        },
        RegistryFailure::Trap(trap) => match request {
            Request::OpenVerificationRound { .. } => if trap is Overflow {
                6
            } else {
                8
            },
            Request::SubmitVote { .. } => if trap is CollectionFull {
                6
            } else {
                7
            },
            _ => 8,
        },
    }
}

/// Of several reasons to refuse a request the first in turn is told.
pub proof fn the_first_reason_is_told(
    state: RegistryState,
    request: Request,
    other: RegistryFailure,
)
    requires
        state.valid(),
    ensures
        match state.apply(request) {
            Ok(_) => true,
            Err(f) => turn(request, other) < turn(request, f) ==> !true_failure(
                state,
                request,
                other,
            ),
        },
{
    match request {
        Request::OpenVerificationRound { .. } => {
            lemma_active(state, state.oracle_ids);
        },
        Request::SubmitVote { invoice_id, .. } => {
            if state.rounds.dom().contains(invoice_id) {
                let round = state.rounds[invoice_id];
                assert(crate::oracle_registry::laws::valid_round(invoice_id, round));
                lemma_threshold(round, 0);
            }
        },
        _ => {},
    }
}

} // verus!
