//! What holds of the oracle registry whatever is asked of it.

use vstd::prelude::*;
use crate::address::Address;
use crate::oracle_registry::error::OracleRegistryError;
use crate::oracle_registry::requests::Request;
use crate::oracle_registry::state::RegistryState;
use crate::oracle_registry::types::{
    OracleInfo, QuorumTier, RegistryConfig, RegistryFailure, RoundStatus, Transfer,
    VerificationRound,
};

verus! {

/// Whether a request succeeded and left `next` behind it.
pub open spec fn leads_to(state: RegistryState, request: Request, next: RegistryState) -> bool {
    state.apply(request) == Ok::<RegistryState, RegistryFailure>(next)
}

/// Whether a quorum is a share of the stake.
pub open spec fn valid_bps(bps: u32) -> bool {
    0 < bps <= 10_000
}

/// Whether rules make sense.
pub open spec fn valid_config(config: RegistryConfig) -> bool {
    &&& config.min_stake > 0
    &&& config.required_votes > 0
    &&& valid_bps(config.quorum_bps)
    &&& config.round_duration_secs > 0
}

/// What holds of every round: its numbers are in range, and while it is open its
/// votes decide nothing.
pub open spec fn valid_round(
    invoice_id: u64,
    round: VerificationRound<Seq<u8>, Map<Address, bool>>,
) -> bool {
    &&& round.invoice_id == invoice_id
    &&& round.required_votes > 0
    &&& valid_bps(round.quorum_bps)
    &&& round.weight_for >= 0
    &&& round.weight_against >= 0
    &&& round.total_stake_snapshot >= 0
    &&& round.total_registered_oracles > 0
    &&& round.opened_at <= round.deadline
    &&& round.votes.dom().finite()
    &&& round.status is Open ==> match crate::oracle_registry::state::threshold(
        round.total_stake_snapshot,
        round.quorum_bps,
    ) {
        Some(needed) => round.verdict(needed) is None,
        None => true,
    }
}

impl RegistryState {
    /// Whether the oracles stand under their addresses, with stakes in the
    /// registry's token, and the list of oracles shows each of them once.
    pub open spec fn valid_oracles(self) -> bool {
        &&& self.oracle_ids.no_duplicates()
        &&& self.oracle_ids.len() <= u32::MAX
        &&& forall|a: Address| #[trigger]
            self.oracle_ids.contains(a) <==> self.oracles.dom().contains(a)
        &&& forall|a: Address| #[trigger]
            self.oracles.dom().contains(a) ==> {
                &&& self.oracles[a].address == a
                &&& self.oracles[a].stake_amount >= 0
                &&& self.oracles[a].is_active == (self.oracles[a].deregister_requested_at is None)
                &&& self.config is Some
                &&& self.oracles[a].stake_token == self.config->0.stake_token
            }
    }

    /// Whether the rounds are in order, and the list of open rounds shows each
    /// open one once.
    pub open spec fn valid_rounds(self) -> bool {
        &&& self.open_rounds.no_duplicates()
        &&& self.open_rounds.len() <= u32::MAX
        &&& forall|id: u64| #[trigger]
            self.open_rounds.contains(id) <==> self.rounds.dom().contains(id)
                && self.rounds[id].status is Open
        &&& forall|id: u64| #[trigger]
            self.rounds.dom().contains(id) ==> valid_round(id, self.rounds[id])
    }

    /// What holds of every state that the registry can be in.
    pub open spec fn valid(self) -> bool {
        &&& self.initialized == (self.admin is Some)
        &&& self.initialized == (self.config is Some)
        &&& self.config is Some ==> valid_config(self.config->0)
        &&& self.config is None ==> self.open_rounds.len() == 0
        &&& crate::oracle_registry::state::valid_tiers(self.quorum_tiers)
        &&& self.valid_oracles()
        &&& self.valid_rounds()
    }
}

/// A registry that nobody has set up is in order.
pub proof fn blank_is_valid(me: Address)
    ensures
        RegistryState::blank(me).valid(),
{
}

/// Taking one item out of a list without duplicates takes out that item alone.
proof fn lemma_remove_value<A>(items: Seq<A>, item: A)
    requires
        items.no_duplicates(),
    ensures
        items.remove_value(item).no_duplicates(),
        items.remove_value(item).len() <= items.len(),
        forall|x: A| #[trigger]
            items.remove_value(item).contains(x) <==> items.contains(x) && x != item,
        items.contains(item) ==> exists|i: int|
            0 <= i < items.len() && items[i] == item && items.remove_value(item) == #[trigger]
            items.remove(i),
{
    items.index_of_first_ensures(item);
    match items.index_of_first(item) {
        None => {},
        Some(i) => {
            let rest = items.remove(i);
            assert forall|x: A| #[trigger] rest.contains(x) implies items.contains(x) && x
                != item by {
                let j = choose|j: int| 0 <= j < rest.len() && rest[j] == x;
                if j < i {
                    assert(items[j] == x);
                } else {
                    assert(items[j + 1] == x);
                }
            }
            assert forall|x: A| items.contains(x) && x != item implies #[trigger] rest.contains(
                x,
            ) by {
                let j = choose|j: int| 0 <= j < items.len() && items[j] == x;
                if j < i {
                    assert(rest[j] == x);
                } else {
                    assert(rest[j - 1] == x);
                }
            }
        },
    }
}

/// The quorum of an amount is that of the highest tier that it reaches, and the
/// default if it reaches none.
pub proof fn the_highest_tier_counts(tiers: Seq<QuorumTier>, default_bps: u32, amount: i128)
    requires
        crate::oracle_registry::state::valid_tiers(tiers),
    ensures
        ({
            let bps = crate::oracle_registry::state::quorum_for(tiers, default_bps, amount);
            &&& (forall|i: int|
                0 <= i < tiers.len() ==> (#[trigger] tiers[i]).min_invoice_amount > amount) ==> bps
                == default_bps
            &&& forall|i: int|
                0 <= i < tiers.len() && (#[trigger] tiers[i]).min_invoice_amount <= amount && (i + 1
                    == tiers.len() || tiers[i + 1].min_invoice_amount > amount) ==> bps
                    == tiers[i].quorum_bps
            &&& valid_bps(default_bps) ==> valid_bps(bps)
        }),
{
    lemma_reached(tiers, amount);
}

proof fn lemma_reached(tiers: Seq<QuorumTier>, amount: i128)
    requires
        crate::oracle_registry::state::valid_tiers(tiers),
    ensures
        ({
            let n = crate::oracle_registry::state::reached_tiers(tiers, amount);
            &&& n <= tiers.len()
            &&& forall|i: int|
                0 <= i < n ==> (#[trigger] tiers[i]).min_invoice_amount <= amount
            &&& forall|i: int|
                n <= i < tiers.len() ==> (#[trigger] tiers[i]).min_invoice_amount > amount
        }),
    decreases tiers.len(),
{
    if tiers.len() == 0 || amount < tiers[0].min_invoice_amount {
    } else {
        let rest = tiers.skip(1);
        assert forall|i: int, j: int| 0 <= i < j < rest.len() implies (
        #[trigger] rest[i]).min_invoice_amount < (#[trigger] rest[j]).min_invoice_amount by {
            assert(tiers[i + 1].min_invoice_amount < tiers[j + 1].min_invoice_amount);
        }
        assert forall|i: int| 0 <= i < rest.len() implies (
        #[trigger] rest[i]).min_invoice_amount >= 0 && 0 < rest[i].quorum_bps <= 10_000 by {
            assert(tiers[i + 1].min_invoice_amount >= 0);
        }
        lemma_reached(rest, amount);
        let n = crate::oracle_registry::state::reached_tiers(tiers, amount);
        assert forall|i: int| 0 <= i < n implies (#[trigger] tiers[i]).min_invoice_amount
            <= amount by {
            if i > 0 {
                assert(rest[i - 1] == tiers[i]);
            }
        }
        assert forall|i: int| n <= i < tiers.len() implies (
        #[trigger] tiers[i]).min_invoice_amount > amount by {
            assert(rest[i - 1] == tiers[i]);
        }
    }
}

/// The decisive stake is the least that makes up the quorum's share: it is at
/// least one if there is any stake, and never more than there is.
pub proof fn the_threshold_is_the_share_rounded_up(total_stake: i128, quorum_bps: u32)
    requires
        total_stake >= 0,
        valid_bps(quorum_bps),
    ensures
        match crate::oracle_registry::state::threshold(total_stake, quorum_bps) {
            Some(needed) => {
                &&& needed * 10_000 >= total_stake * quorum_bps
                &&& (needed - 1) * 10_000 < total_stake * quorum_bps
                &&& total_stake > 0 ==> needed >= 1
                &&& needed <= total_stake
            },
            None => total_stake * quorum_bps + 9_999 > i128::MAX,
        },
{
    let product = total_stake * quorum_bps;
    assert(0 <= product <= total_stake * 10_000) by (nonlinear_arith)
        requires
            product == total_stake * quorum_bps,
            total_stake >= 0,
            0 < quorum_bps <= 10_000,
    ;
    if total_stake > 0 {
        assert(product >= 1) by (nonlinear_arith)
            requires
                product == total_stake * quorum_bps,
                total_stake > 0,
                0 < quorum_bps,
        ;
    }
}

/// A slash takes the share rounded down, never more than the stake, and leaves
/// the rest.
pub proof fn slashes_take_a_share(stake: i128, bps: u32)
    requires
        stake >= 0,
        valid_bps(bps),
    ensures
        match RegistryState::slash_split(stake, bps) {
            Some((taken, left)) => {
                &&& 0 <= taken <= stake
                &&& taken + left == stake
                &&& taken * 10_000 <= stake * bps
                &&& (taken + 1) * 10_000 > stake * bps
                &&& bps == 10_000 ==> left == 0
            },
            None => stake * bps > i128::MAX,
        },
{
    let product = stake * bps;
    assert(0 <= product <= stake * 10_000) by (nonlinear_arith)
        requires
            product == stake * bps,
            stake >= 0,
            0 < bps <= 10_000,
    ;
}

proof fn lemma_active_stake(state: RegistryState, ids: Seq<Address>)
    requires
        state.valid_oracles(),
        forall|i: int| 0 <= i < ids.len() ==> state.oracles.dom().contains(#[trigger] ids[i]),
        state.stake_of(ids) is Some,
    ensures
        state.stake_of(ids)->0 >= 0,
    decreases ids.len(),
{
    if ids.len() > 0 {
        let rest = ids.drop_last();
        assert forall|i: int| 0 <= i < rest.len() implies state.oracles.dom().contains(
            #[trigger] rest[i],
        ) by {
            assert(rest[i] == ids[i]);
        }
        lemma_active_stake(state, rest);
        assert(state.oracles.dom().contains(ids[ids.len() - 1]));
    }
}

proof fn lemma_active_among(state: RegistryState)
    ensures
        state.active_among(state.oracle_ids).len() <= state.oracle_ids.len(),
        forall|i: int|
            0 <= i < state.active_among(state.oracle_ids).len() ==> state.is_active(
                #[trigger] state.active_among(state.oracle_ids)[i],
            ),
{
    let active = |a: Address| state.is_active(a);
    state.oracle_ids.lemma_filter_len(active);
    assert forall|i: int| 0 <= i < state.oracle_ids.filter(active).len() implies state.is_active(
        #[trigger] state.oracle_ids.filter(active)[i],
    ) by {
        state.oracle_ids.lemma_filter_pred(active, i);
    }
}

proof fn lemma_open(
    state: RegistryState,
    now: u64,
    invoice_id: u64,
    oracle_hash: Seq<u8>,
    reply: Option<(bool, i128)>,
    next: RegistryState,
)
    requires
        state.valid(),
        state.open_verification_round(now, invoice_id, oracle_hash, reply) == Ok::<
            RegistryState,
            RegistryFailure,
        >(next),
    ensures
        next.valid(),
{
    let active = state.active_among(state.oracle_ids);
    lemma_active_among(state);
    assert forall|i: int| 0 <= i < active.len() implies state.oracles.dom().contains(
        #[trigger] active[i],
    ) by {
        assert(state.is_active(active[i]));
    }
    lemma_active_stake(state, active);
    let (_, amount) = reply->0;
    the_highest_tier_counts(state.quorum_tiers, state.config->0.quorum_bps, amount);
    crate::collections::putting_an_item_last(state.open_rounds, invoice_id);
    let round = next.rounds[invoice_id];
    assert(round.votes.dom().len() == 0);
    assert(valid_round(invoice_id, round));
}

proof fn lemma_vote(
    state: RegistryState,
    now: u64,
    oracle: Address,
    invoice_id: u64,
    approved: bool,
    evidence_hash: Seq<u8>,
    accepted: bool,
    next: RegistryState,
)
    requires
        state.valid(),
        state.submit_vote(now, oracle, invoice_id, approved, evidence_hash, accepted) == Ok::<
            RegistryState,
            RegistryFailure,
        >(next),
    ensures
        next.valid(),
{
    assert(valid_round(invoice_id, state.rounds[invoice_id]));
    lemma_remove_value(state.open_rounds, invoice_id);
    assert(valid_round(invoice_id, next.rounds[invoice_id]));
    assert(forall|a: Address|
        next.oracles.dom().contains(a) <==> #[trigger] state.oracles.dom().contains(a));
}

/// Every request leaves a registry in order that it found in order.
pub proof fn requests_keep_the_registry_valid(
    state: RegistryState,
    request: Request,
    next: RegistryState,
)
    requires
        state.valid(),
        leads_to(state, request, next),
    ensures
        next.valid(),
{
    match request {
        Request::Initialize { .. } => {
            assert(next.open_rounds == state.open_rounds);
            assert forall|a: Address| !state.oracles.dom().contains(a) by {}
            assert forall|a: Address| !state.oracle_ids.contains(a) by {
                assert(!state.oracles.dom().contains(a));
            }
            assert forall|a: Address| #[trigger] next.oracle_ids.contains(
                a,
            ) <==> next.oracles.dom().contains(a) by {}
        },
        Request::RegisterOracle { operator, .. } => {
            crate::collections::putting_an_item_last(state.oracle_ids, operator);
        },
        Request::DeregisterOracle { operator, .. } => {
            lemma_remove_value(state.oracle_ids, operator);
        },
        Request::SlashOracle { operator, bps, .. } => {
            slashes_take_a_share(state.oracles[operator].stake_amount, bps);
        },
        Request::OpenVerificationRound { now, invoice_id, oracle_hash, reply } => {
            lemma_open(state, now, invoice_id, oracle_hash, reply, next);
        },
        Request::SubmitVote { now, oracle, invoice_id, approved, evidence_hash, accepted } => {
            lemma_vote(
                state,
                now,
                oracle,
                invoice_id,
                approved,
                evidence_hash,
                accepted,
                next,
            );
        },
        Request::ExpireRound { invoice_id, .. } => {
            assert(valid_round(invoice_id, state.rounds[invoice_id]));
            lemma_remove_value(state.open_rounds, invoice_id);
        },
        Request::AdminResolveRound { invoice_id, .. } => {
            assert(valid_round(invoice_id, state.rounds[invoice_id]));
        },
        _ => {},
    }
}

/// A round that is open is closed by votes or by time alone: by votes, if enough
/// oracles have voted and the winning side has the decisive stake, approval going
/// first; by time, once its deadline has passed.
pub proof fn votes_or_time_close_a_round(
    state: RegistryState,
    request: Request,
    next: RegistryState,
    invoice_id: u64,
)
    requires
        leads_to(state, request, next),
        state.rounds.dom().contains(invoice_id),
        state.rounds[invoice_id].status is Open,
    ensures
        next.rounds.dom().contains(invoice_id),
        ({
            let round = next.rounds[invoice_id];
            let needed = crate::oracle_registry::state::threshold(
                round.total_stake_snapshot,
                round.quorum_bps,
            );
            match round.status {
                RoundStatus::Open => true,
                RoundStatus::ConsensusApproved => {
                    &&& request is SubmitVote
                    &&& round.votes.dom().len() >= round.required_votes
                    &&& needed is Some
                    &&& round.weight_for >= needed->0
                },
                RoundStatus::ConsensusRejected => {
                    &&& request is SubmitVote
                    &&& round.votes.dom().len() >= round.required_votes
                    &&& needed is Some
                    &&& round.weight_for < needed->0 <= round.weight_against
                },
                RoundStatus::Expired => request matches Request::ExpireRound { now, .. } && now
                    > round.deadline,
            }
        }),
{
}

/// A round that ran out is decided by the administrator alone, after its deadline;
/// a round that was decided stays as it was. Only a new round takes the place of
/// either.
pub proof fn closed_rounds_stay_closed(
    state: RegistryState,
    request: Request,
    next: RegistryState,
    invoice_id: u64,
)
    requires
        leads_to(state, request, next),
        state.rounds.dom().contains(invoice_id),
        !(state.rounds[invoice_id].status is Open),
        !(request matches Request::OpenVerificationRound { invoice_id: id, .. } && id
            == invoice_id),
    ensures
        next.rounds.dom().contains(invoice_id),
        next.rounds[invoice_id] == state.rounds[invoice_id] || {
            &&& state.rounds[invoice_id].status is Expired
            &&& request matches Request::AdminResolveRound { now, admin, invoice_id: id, .. } && id
                == invoice_id && state.admin == Some(admin) && now
                > state.rounds[invoice_id].deadline
        },
{
    match request {
        Request::RegisterOracle { .. } => {},
        Request::DeregisterOracle { .. } => {},
        Request::SlashOracle { .. } => {},
        Request::OpenVerificationRound { .. } => {},
        Request::SubmitVote { .. } => {},
        Request::ExpireRound { .. } => {},
        Request::AdminResolveRound { .. } => {},
        _ => {},
    }
}

/// What a round was opened with stays as it is until a new round takes its place:
/// later changes of stakes, rules or tiers do not move it. Votes that were cast
/// stay cast.
pub proof fn the_terms_of_a_round_are_fixed(
    state: RegistryState,
    request: Request,
    next: RegistryState,
    invoice_id: u64,
)
    requires
        leads_to(state, request, next),
        state.rounds.dom().contains(invoice_id),
        !(request matches Request::OpenVerificationRound { invoice_id: id, .. } && id
            == invoice_id),
    ensures
        next.rounds.dom().contains(invoice_id),
        ({
            let before = state.rounds[invoice_id];
            let after = next.rounds[invoice_id];
            &&& after.invoice_id == before.invoice_id
            &&& after.required_votes == before.required_votes
            &&& after.total_registered_oracles == before.total_registered_oracles
            &&& after.total_stake_snapshot == before.total_stake_snapshot
            &&& after.quorum_bps == before.quorum_bps
            &&& after.opened_at == before.opened_at
            &&& after.deadline == before.deadline
            &&& after.oracle_hash == before.oracle_hash
            &&& before.votes.submap_of(after.votes)
        }),
{
    match request {
        Request::RegisterOracle { .. } => {},
        Request::DeregisterOracle { .. } => {},
        Request::SlashOracle { .. } => {},
        Request::OpenVerificationRound { .. } => {},
        Request::SubmitVote { .. } => {},
        Request::ExpireRound { .. } => {},
        Request::AdminResolveRound { .. } => {},
        _ => {},
    }
}

/// Nobody votes twice in a round, and nobody but an active oracle votes: a vote
/// of anybody else is refused.
pub proof fn oracles_vote_once(
    state: RegistryState,
    now: u64,
    oracle: Address,
    invoice_id: u64,
    approved: bool,
    evidence_hash: Seq<u8>,
    accepted: bool,
)
    requires
        state.submit_vote(now, oracle, invoice_id, approved, evidence_hash, accepted) is Ok,
    ensures
        ({
            let next = state.submit_vote(
                now,
                oracle,
                invoice_id,
                approved,
                evidence_hash,
                accepted,
            )->Ok_0;
            &&& state.is_active(oracle)
            &&& state.oracles[oracle].deregister_requested_at is None
            &&& now <= state.rounds[invoice_id].deadline
            &&& !state.rounds[invoice_id].votes.dom().contains(oracle)
            &&& next.rounds[invoice_id].votes == state.rounds[invoice_id].votes.insert(
                oracle,
                approved,
            )
        }),
        forall|t: u64, again: bool, evidence: Seq<u8>, taken: bool| #[trigger]
            state.submit_vote(
                now,
                oracle,
                invoice_id,
                approved,
                evidence_hash,
                accepted,
            )->Ok_0.submit_vote(t, oracle, invoice_id, again, evidence, taken) is Err,
{
}

/// Where there was any stake when a round was opened, no side wins without stake
/// of its own.
pub proof fn nothing_wins_without_stake(
    state: RegistryState,
    request: Request,
    next: RegistryState,
    invoice_id: u64,
)
    requires
        state.valid(),
        leads_to(state, request, next),
        state.rounds.dom().contains(invoice_id),
        state.rounds[invoice_id].status is Open,
        state.rounds[invoice_id].total_stake_snapshot > 0,
    ensures
        next.rounds[invoice_id].status is ConsensusApproved ==> next.rounds[invoice_id].weight_for
            > 0,
        next.rounds[invoice_id].status is ConsensusRejected
            ==> next.rounds[invoice_id].weight_against > 0,
{
    let round = state.rounds[invoice_id];
    assert(valid_round(invoice_id, round));
    the_threshold_is_the_share_rounded_up(round.total_stake_snapshot, round.quorum_bps);
    votes_or_time_close_a_round(state, request, next, invoice_id);
    the_terms_of_a_round_are_fixed(state, request, next, invoice_id);
}

/// A vote that decides a round is passed on to the invoice ledger, with the hash
/// that the round was opened with; if the ledger refuses it, the vote comes to
/// nothing.
pub proof fn verdicts_are_passed_on(
    state: RegistryState,
    now: u64,
    oracle: Address,
    invoice_id: u64,
    approved: bool,
    evidence_hash: Seq<u8>,
    accepted: bool,
)
    requires
        state.submit_vote(now, oracle, invoice_id, approved, evidence_hash, accepted) is Ok,
    ensures
        ({
            let next = state.submit_vote(
                now,
                oracle,
                invoice_id,
                approved,
                evidence_hash,
                accepted,
            )->Ok_0;
            let call = state.vote_call(now, oracle, invoice_id, approved);
            &&& call is Ok
            &&& call->Ok_0 is None <==> next.rounds[invoice_id].status is Open
            &&& call->Ok_0 matches Some(c) ==> {
                &&& accepted
                &&& state.invoice_contract == Some(c.invoice_contract)
                &&& c.invoice_id == invoice_id
                &&& c.registry == state.me
                &&& c.oracle_hash == state.rounds[invoice_id].oracle_hash
                &&& next.rounds[invoice_id].status == if c.approved {
                    RoundStatus::ConsensusApproved
                } else {
                    RoundStatus::ConsensusRejected
                }
            }
        }),
{
}

/// A verdict that the invoice ledger refuses leaves no trace in the registry.
pub proof fn refused_verdicts_come_to_nothing(
    state: RegistryState,
    now: u64,
    oracle: Address,
    invoice_id: u64,
    approved: bool,
    evidence_hash: Seq<u8>,
)
    requires
        state.vote_call(now, oracle, invoice_id, approved) matches Ok(call) && call is Some,
    ensures
        state.submit_vote(now, oracle, invoice_id, approved, evidence_hash, false) == Err::<
            RegistryState,
            RegistryFailure,
        >(RegistryFailure::Error(OracleRegistryError::InvoiceCallFailed)),
        state.submit_vote(now, oracle, invoice_id, approved, evidence_hash, true) is Ok,
{
}

/// Oracles that do not vote cannot hold an invoice for ever: once the deadline of a
/// round has passed, anybody can let it run out, and from then on the
/// administrator can decide in the place of the oracles.
pub proof fn rounds_do_not_stay_open(
    state: RegistryState,
    now: u64,
    invoice_id: u64,
    later: u64,
    approved: bool,
    reason: Seq<u8>,
)
    requires
        state.valid(),
        state.rounds.dom().contains(invoice_id),
        state.rounds[invoice_id].status is Open,
        now > state.rounds[invoice_id].deadline,
        later >= now,
        state.admin is Some,
        state.invoice_contract is Some,
    ensures
        ({
            let expired = state.expire_round(now, invoice_id);
            let admin = state.admin->0;
            &&& expired is Ok
            &&& expired->Ok_0.rounds[invoice_id].status is Expired
            &&& !expired->Ok_0.open_rounds.contains(invoice_id)
            &&& expired->Ok_0.resolve_call(later, admin, invoice_id, approved) is Ok
            &&& expired->Ok_0.admin_resolve_round(
                later,
                admin,
                invoice_id,
                approved,
                reason,
                true,
            ) is Ok
        }),
{
    lemma_remove_value(state.open_rounds, invoice_id);
}

/// A round opens only while no other round on the invoice is open, on an invoice
/// that awaits verification, and with an oracle at hand; it starts without votes.
pub proof fn rounds_open_on_waiting_invoices(
    state: RegistryState,
    now: u64,
    invoice_id: u64,
    oracle_hash: Seq<u8>,
    reply: Option<(bool, i128)>,
)
    requires
        state.valid(),
        state.open_verification_round(now, invoice_id, oracle_hash, reply) is Ok,
    ensures
        reply matches Some((awaiting, _)) && awaiting,
        !state.open_rounds.contains(invoice_id),
        ({
            let next = state.open_verification_round(now, invoice_id, oracle_hash, reply)->Ok_0;
            let round = next.rounds[invoice_id];
            &&& next.open_rounds.contains(invoice_id)
            &&& round.votes == Map::<Address, bool>::empty()
            &&& round.weight_for == 0
            &&& round.weight_against == 0
            &&& round.total_registered_oracles > 0
            &&& round.oracle_hash == oracle_hash
            &&& round.deadline >= now
        }),
{
    let next = state.open_verification_round(now, invoice_id, oracle_hash, reply)->Ok_0;
    lemma_active_among(state);
    crate::collections::putting_an_item_last(state.open_rounds, invoice_id);
}

/// An oracle that has asked to leave does not vote, cannot register again, and
/// counts in no new round, until it is gone. It gets back all of its stake that is
/// left, and no sooner than the cooldown allows.
pub proof fn leaving_oracles_wait(
    state: RegistryState,
    operator: Address,
    now: u64,
    invoice_id: u64,
    approved: bool,
    evidence_hash: Seq<u8>,
    accepted: bool,
    stake: i128,
)
    requires
        state.valid(),
        state.oracles.dom().contains(operator),
        state.oracles[operator].deregister_requested_at is Some,
    ensures
        state.submit_vote(now, operator, invoice_id, approved, evidence_hash, accepted) is Err,
        state.register_oracle(now, operator, stake) is Err,
        !state.active_among(state.oracle_ids).contains(operator),
        state.deregister_oracle(now, operator) matches Ok(next) ==> {
            let info = state.oracles[operator];
            &&& now >= info.deregister_requested_at->0.saturating_add(
                state.config->0.deregister_cooldown_secs,
            )
            &&& !next.oracles.dom().contains(operator)
            &&& next.transfers == state.transfers.push(
                Transfer {
                    token: info.stake_token,
                    from: state.me,
                    to: operator,
                    amount: info.stake_amount,
                },
            )
        },
{
    lemma_active_among(state);
    let active = state.active_among(state.oracle_ids);
    if active.contains(operator) {
        let i = choose|i: int| 0 <= i < active.len() && active[i] == operator;
        assert(state.is_active(active[i]));
    }
}

/// An oracle that owes a vote in an open round cannot ask to leave.
pub proof fn oracles_vote_before_they_leave(
    state: RegistryState,
    now: u64,
    operator: Address,
    invoice_id: u64,
)
    requires
        state.valid(),
        state.is_active(operator),
        state.lacks_vote(invoice_id, operator),
    ensures
        state.deregister_oracle(now, operator) is Err,
{
    assert(state.open_rounds.contains(invoice_id));
    let i = choose|i: int| 0 <= i < state.open_rounds.len() && state.open_rounds[i] == invoice_id;
    assert(state.lacks_vote(state.open_rounds[i], operator));
}

/// What an account holds of the tokens after the given transfers, beyond what it
/// held before.
pub open spec fn received(me: Address, transfers: Seq<Transfer>) -> int
    decreases transfers.len(),
{
    if transfers.len() == 0 {
        0
    } else {
        let last = transfers.last();
        received(me, transfers.drop_last()) + (if last.to == me {
            last.amount as int
        } else {
            0
        }) - (if last.from == me {
            last.amount as int
        } else {
            0
        })
    }
}

/// The stake of the given oracles taken together.
pub open spec fn staked(oracles: Map<Address, OracleInfo>, ids: Seq<Address>) -> int
    decreases ids.len(),
{
    if ids.len() == 0 {
        0
    } else {
        staked(oracles, ids.drop_last()) + oracles[ids.last()].stake_amount
    }
}

proof fn lemma_staked_insert(
    oracles: Map<Address, OracleInfo>,
    ids: Seq<Address>,
    a: Address,
    info: OracleInfo,
)
    requires
        ids.no_duplicates(),
    ensures
        staked(oracles.insert(a, info), ids) == staked(oracles, ids) + (if ids.contains(a) {
            info.stake_amount - oracles[a].stake_amount
        } else {
            0
        }),
    decreases ids.len(),
{
    if ids.len() > 0 {
        let rest = ids.drop_last();
        lemma_staked_insert(oracles, rest, a, info);
        assert(ids == rest.push(ids.last()));
        crate::collections::putting_an_item_last(rest, ids.last());
        if rest.contains(ids.last()) {
            let i = choose|i: int| 0 <= i < rest.len() && rest[i] == ids.last();
            assert(ids[i] == ids[ids.len() - 1]);
        }
    }
}

proof fn lemma_staked_remove_index(
    oracles: Map<Address, OracleInfo>,
    ids: Seq<Address>,
    i: int,
)
    requires
        0 <= i < ids.len(),
    ensures
        staked(oracles, ids.remove(i)) == staked(oracles, ids) - oracles[ids[i]].stake_amount,
    decreases ids.len(),
{
    let rest = ids.drop_last();
    if i == ids.len() - 1 {
        assert(ids.remove(i) == rest);
    } else {
        lemma_staked_remove_index(oracles, rest, i);
        assert(ids.remove(i).drop_last() == rest.remove(i));
        assert(ids.remove(i).last() == ids.last());
    }
}

proof fn lemma_staked_forget(oracles: Map<Address, OracleInfo>, ids: Seq<Address>, a: Address)
    requires
        !ids.contains(a),
    ensures
        staked(oracles.remove(a), ids) == staked(oracles, ids),
    decreases ids.len(),
{
    if ids.len() > 0 {
        let rest = ids.drop_last();
        assert(ids.contains(ids[ids.len() - 1]));
        assert forall|x: Address| #[trigger] rest.contains(x) implies ids.contains(x) by {
            let i = choose|i: int| 0 <= i < rest.len() && rest[i] == x;
            assert(ids[i] == x);
        }
        lemma_staked_forget(oracles, rest, a);
    }
}

/// The registry always holds the stakes of its oracles: what a request has it
/// receive, less what it pays out, is never less than what the stakes grow by. The
/// two are equal but for a slash, whose proceeds stay in the registry where there
/// is no treasury. A registry that would register itself is left out.
pub proof fn stakes_are_covered(state: RegistryState, request: Request, next: RegistryState)
    requires
        state.valid(),
        leads_to(state, request, next),
        request matches Request::RegisterOracle { operator, .. } ==> operator != state.me,
        request matches Request::DeregisterOracle { operator, .. } ==> operator != state.me,
    ensures
        ({
            let gain = received(next.me, next.transfers) - received(state.me, state.transfers);
            let growth = staked(next.oracles, next.oracle_ids) - staked(
                state.oracles,
                state.oracle_ids,
            );
            &&& next.me == state.me
            &&& gain >= growth
            &&& !(request is SlashOracle) ==> gain == growth
            &&& request is SlashOracle ==> growth <= 0
        }),
{
    match request {
        Request::Initialize { .. } => {
            if state.oracle_ids.len() > 0 {
                assert(state.oracle_ids.contains(state.oracle_ids[0]));
                assert(state.oracles.dom().contains(state.oracle_ids[0]));
            }
        },
        Request::RegisterOracle { operator, .. } => {
            let ids = state.oracle_ids;
            let info = next.oracles[operator];
            assert(!ids.contains(operator));
            lemma_staked_insert(state.oracles, ids, operator, info);
            assert(ids.push(operator).drop_last() == ids);
            assert(next.transfers.drop_last() == state.transfers);
        },
        Request::DeregisterOracle { operator, .. } => {
            let info = state.oracles[operator];
            match info.deregister_requested_at {
                None => {
                    lemma_staked_insert(
                        state.oracles,
                        state.oracle_ids,
                        operator,
                        next.oracles[operator],
                    );
                },
                Some(_) => {
                    assert(state.oracle_ids.contains(operator));
                    lemma_remove_value(state.oracle_ids, operator);
                    let i = choose|i: int|
                        0 <= i < state.oracle_ids.len() && state.oracle_ids[i] == operator
                            && state.oracle_ids.remove_value(operator) == #[trigger]
                        state.oracle_ids.remove(i);
                    lemma_staked_remove_index(state.oracles, state.oracle_ids, i);
                    lemma_staked_forget(state.oracles, next.oracle_ids, operator);
                    assert(next.transfers.drop_last() == state.transfers);
                },
            }
        },
        Request::SlashOracle { operator, bps, .. } => {
            assert(state.oracle_ids.contains(operator));
            slashes_take_a_share(state.oracles[operator].stake_amount, bps);
            lemma_staked_insert(
                state.oracles,
                state.oracle_ids,
                operator,
                next.oracles[operator],
            );
            if state.config->0.treasury is Some {
                assert(next.transfers.drop_last() == state.transfers);
            }
        },
        Request::SubmitVote { oracle, .. } => {
            lemma_staked_insert(state.oracles, state.oracle_ids, oracle, next.oracles[oracle]);
        },
        _ => {},
    }
}

/// The account that a request needs as the administrator, if any.
pub open spec fn administrator_of(request: Request) -> Option<Address> {
    match request {
        Request::SetInvoiceContract { admin, .. } => Some(admin),
        Request::SetTreasury { admin, .. } => Some(admin),
        Request::SetRegistryConfig { admin, .. } => Some(admin),
        Request::SetQuorumTiers { admin, .. } => Some(admin),
        Request::Pause { admin } => Some(admin),
        Request::Unpause { admin } => Some(admin),
        Request::SlashOracle { admin, .. } => Some(admin),
        Request::AdminResolveRound { admin, .. } => Some(admin),
        _ => None,
    }
}

/// What is the administrator's business nobody else can ask for. Rules, tiers,
/// the ledger and the administrator change by no other request, once the registry
/// is set up.
pub proof fn only_the_administrator_rules(
    state: RegistryState,
    request: Request,
    next: RegistryState,
)
    requires
        state.valid(),
        state.initialized,
        leads_to(state, request, next),
    ensures
        next.admin == state.admin,
        administrator_of(request) matches Some(admin) ==> state.admin == Some(admin),
        administrator_of(request) is None ==> {
            &&& next.config == state.config
            &&& next.quorum_tiers == state.quorum_tiers
            &&& next.invoice_contract == state.invoice_contract
            &&& next.paused == state.paused
        },
{
}

/// A suspended registry takes no oracles, no votes and no rounds, and lets no
/// oracle go.
pub proof fn a_paused_registry_refuses(state: RegistryState, request: Request)
    requires
        state.paused,
        match request {
            Request::RegisterOracle { .. } => true,
            Request::DeregisterOracle { .. } => true,
            Request::OpenVerificationRound { .. } => true,
            Request::SubmitVote { .. } => true,
            _ => false,
        },
    ensures
        state.apply(request) == Err::<RegistryState, RegistryFailure>(
            RegistryFailure::Error(OracleRegistryError::ContractPaused),
        ),
{
}

} // verus!
