//! What holds of the compliance register whatever is asked of it.

use vstd::prelude::*;
use crate::address::Address;
use crate::compliance::error::ComplianceError;
use crate::compliance::requests::Request;
use crate::compliance::state::{
    ComplianceState, MAX_FLAGGED_LIST, MAX_HISTORY_ENTRIES, MAX_PENDING_LIST, MAX_SCREENER_LIST,
    REVIEW_REQUEST_COOLDOWN_SECS,
};
use crate::compliance::types::{ComplianceRecord, ComplianceStatus, ReviewKey, RiskTier};

verus! {

/// Whether a request succeeded and left `next` behind it.
pub open spec fn leads_to(state: ComplianceState, request: Request, next: ComplianceState) -> bool {
    state.apply(request) == Ok::<ComplianceState, ComplianceError>(next)
}

impl ComplianceState {
    /// Whether the list of screeners shows who is registered, each once.
    pub open spec fn valid_screeners(self) -> bool {
        &&& self.screener_ids.no_duplicates()
        &&& self.screener_ids.len() <= MAX_SCREENER_LIST
        &&& forall|a: Address| #[trigger]
            self.screener_ids.contains(a) <==> self.screeners.dom().contains(a)
    }

    /// Whether the lists show addresses of their kind alone, each once, and hold
    /// no more than they can.
    pub open spec fn valid_lists(self) -> bool {
        &&& self.flagged.no_duplicates()
        &&& self.flagged.len() <= MAX_FLAGGED_LIST
        &&& self.pending_review.no_duplicates()
        &&& self.pending_review.len() <= MAX_PENDING_LIST
        &&& forall|a: Address| #[trigger]
            self.flagged.contains(a) ==> self.records.dom().contains(a) && (
            self.records[a].status is Flagged || self.records[a].status is Blocked)
        &&& forall|a: Address| #[trigger]
            self.pending_review.contains(a) ==> self.records.dom().contains(a)
                && self.records[a].status is PendingReview
    }

    /// Whether every decision stands under its address and ends a history that
    /// holds no more than it can.
    pub open spec fn valid_records(self) -> bool {
        &&& forall|a: Address| (#[trigger] self.history_of(a)).len() <= MAX_HISTORY_ENTRIES
        &&& forall|a: Address| #[trigger]
            self.records.dom().contains(a) ==> {
                &&& self.records[a].address == a
                &&& !(self.records[a].status is Unscreened)
                &&& self.history_of(a).len() > 0
                &&& self.history_of(a).last() == self.records[a].entry()
            }
    }

    /// What holds of every state that the register can be in.
    pub open spec fn valid(self) -> bool {
        &&& self.initialized == (self.admin is Some)
        &&& self.admin is None ==> self.screener_ids.len() == 0
        &&& self.rescreening_interval > 0
        &&& self.valid_screeners()
        &&& self.valid_lists()
        &&& self.valid_records()
    }
}

/// A register that nobody has set up is in order.
pub proof fn blank_is_valid()
    ensures
        ComplianceState::blank().valid(),
{
}

proof fn lemma_with_address(list: Seq<Address>, address: Address, max: u32)
    requires
        list.no_duplicates(),
        list.len() <= max,
        max > 0,
    ensures
        ({
            let next = crate::compliance::state::with_address(list, address, max);
            &&& next.no_duplicates()
            &&& next.len() <= max
            &&& next.contains(address)
            &&& forall|a: Address| #[trigger]
                next.contains(a) ==> list.contains(a) || a == address
        }),
{
    let next = crate::compliance::state::with_address(list, address, max);
    let kept = if list.len() >= max {
        list.skip(1)
    } else {
        list
    };
    if !list.contains(address) {
        assert(kept.no_duplicates());
        assert forall|a: Address| kept.contains(a) implies list.contains(a) by {
            let i = choose|i: int| 0 <= i < kept.len() && kept[i] == a;
            if list.len() >= max {
                assert(list[i + 1] == a);
            } else {
                assert(list[i] == a);
            }
        }
        crate::collections::putting_an_item_last(kept, address);
    }
}

proof fn lemma_decide(state: ComplianceState, record: ComplianceRecord<Seq<u8>>)
    requires
        state.valid(),
        !(record.status is Unscreened),
    ensures
        state.decide(record).valid(),
{
    let a = record.address;
    let next = state.decide(record);
    crate::collections::taking_an_item_away(state.flagged, a);
    crate::collections::taking_an_item_away(state.pending_review, a);
    lemma_with_address(state.flagged, a, MAX_FLAGGED_LIST);
    lemma_with_address(state.pending_review, a, MAX_PENDING_LIST);
    assert(next.valid_records()) by {
        assert forall|x: Address| (#[trigger] next.history_of(x)).len()
            <= MAX_HISTORY_ENTRIES by {
            assert(state.history_of(x).len() <= MAX_HISTORY_ENTRIES);
        }
        assert forall|x: Address| #[trigger] next.records.dom().contains(x) implies {
            &&& next.records[x].address == x
            &&& !(next.records[x].status is Unscreened)
            &&& next.history_of(x).len() > 0
            &&& next.history_of(x).last() == next.records[x].entry()
        } by {
            if x != a {
                assert(state.records.dom().contains(x));
                assert(next.history_of(x) == state.history_of(x));
            }
        }
    }
}

proof fn lemma_activate(state: ComplianceState, screener: Address)
    requires
        state.valid(),
        state.admin is Some,
        state.activate_screener(screener) is Ok,
    ensures
        state.activate_screener(screener)->Ok_0.valid(),
{
    let next = state.activate_screener(screener)->Ok_0;
    crate::collections::putting_an_item_last(state.screener_ids, screener);
    assert(forall|a: Address| next.history_of(a) == state.history_of(a));
}

/// Every request leaves a register in order that it found in order.
pub proof fn requests_keep_the_register_valid(
    state: ComplianceState,
    request: Request,
    next: ComplianceState,
)
    requires
        state.valid(),
        leads_to(state, request, next),
    ensures
        next.valid(),
{
    match request {
        Request::Initialize { .. } => {
            assert(state.screener_ids == next.screener_ids);
            assert(forall|a: Address| next.history_of(a) == state.history_of(a));
        },
        Request::RegisterScreener { screener, .. } => {
            if state.screener_timelock == 0 {
                lemma_activate(state, screener);
            } else {
                assert(forall|a: Address| next.history_of(a) == state.history_of(a));
            }
        },
        Request::ConfirmScreenerRegistration { screener, .. } => {
            lemma_activate(state, screener);
            let active = state.activate_screener(screener)->Ok_0;
            assert(forall|a: Address| next.history_of(a) == active.history_of(a));
        },
        Request::DeregisterScreener { screener, .. } => {
            crate::collections::taking_an_item_away(state.screener_ids, screener);
            assert(forall|a: Address| next.history_of(a) == state.history_of(a));
        },
        Request::SubmitScreeningResult {
            now,
            screener,
            address,
            status,
            reason_code,
            risk_tier,
            expires_at,
            notes_hash,
        } => {
            let record = next.records[address];
            lemma_decide(state, record);
            let decided = state.decide(record);
            assert(forall|a: Address| next.history_of(a) == decided.history_of(a));
        },
        Request::RequestReview { address, .. } => {
            let record = next.records[address];
            lemma_decide(state, record);
            let decided = state.decide(record);
            assert(forall|a: Address| next.history_of(a) == decided.history_of(a));
        },
        _ => {
            assert(forall|a: Address| next.history_of(a) == state.history_of(a));
        },
    }
}

/// An address is cleared exactly when its effective status says so.
pub proof fn cleared_means_the_status_says_so(state: ComplianceState, now: u64, address: Address)
    ensures
        state.is_cleared(now, address) <==> state.effective_status(now, address) is Cleared,
{
}

/// Time alone clears nobody: who is cleared later is cleared now, if nothing is
/// asked of the register in between.
pub proof fn time_only_takes_clearances_away(
    state: ComplianceState,
    now: u64,
    later: u64,
    address: Address,
)
    requires
        now <= later,
        state.is_cleared(later, address),
    ensures
        state.is_cleared(now, address),
{
}

/// A clearance holds from the decision on until it runs out, and no longer.
pub proof fn a_clearance_clears_until_it_runs_out(
    state: ComplianceState,
    now: u64,
    screener: Address,
    address: Address,
    reason_code: u32,
    risk_tier: RiskTier,
    expires_at: u64,
    notes_hash: Seq<u8>,
    later: u64,
)
    requires
        state.valid(),
        state.submit_screening_result(
            now,
            screener,
            address,
            ComplianceStatus::Cleared,
            reason_code,
            risk_tier,
            expires_at,
            notes_hash,
        ) is Ok,
    ensures
        ({
            let next = state.submit_screening_result(
                now,
                screener,
                address,
                ComplianceStatus::Cleared,
                reason_code,
                risk_tier,
                expires_at,
                notes_hash,
            )->Ok_0;
            let expiry = if expires_at == 0 {
                now.saturating_add(state.rescreening_interval)
            } else {
                expires_at
            };
            &&& next.is_cleared(later, address) <==> later < expiry
            &&& !next.flagged.contains(address)
            &&& !next.pending_review.contains(address)
        }),
{
    crate::collections::taking_an_item_away(state.flagged, address);
    crate::collections::taking_an_item_away(state.pending_review, address);
}

/// A request for a review suspends a clearance: from then on the address is not
/// cleared at any time, and it is on the list of addresses under review.
pub proof fn a_review_suspends_a_clearance(
    state: ComplianceState,
    now: u64,
    caller: Address,
    address: Address,
    reason: Seq<u8>,
    later: u64,
)
    requires
        state.valid(),
        state.request_review(now, caller, address, reason) is Ok,
    ensures
        ({
            let next = state.request_review(now, caller, address, reason)->Ok_0;
            &&& !next.is_cleared(later, address)
            &&& next.effective_status(later, address) is PendingReview
            &&& next.pending_review.contains(address)
            &&& !next.flagged.contains(address)
        }),
{
    crate::collections::taking_an_item_away(state.flagged, address);
    lemma_with_address(state.pending_review, address, MAX_PENDING_LIST);
}

/// An address that is not cleared becomes cleared only by the decision of the
/// administrator or of a registered screener.
pub proof fn only_screeners_clear(
    state: ComplianceState,
    request: Request,
    next: ComplianceState,
    at: u64,
    address: Address,
)
    requires
        leads_to(state, request, next),
        !state.is_cleared(at, address),
        next.is_cleared(at, address),
    ensures
        request matches Request::SubmitScreeningResult { screener, address: a, status, .. } && a
            == address && status is Cleared && (state.admin == Some(screener)
            || state.screeners.dom().contains(screener)) && !state.paused,
{
}

/// A screener is registered only by the administrator: at once if there is no
/// timelock, or once the timelock of its proposal has passed.
pub proof fn screeners_wait_for_the_timelock(
    state: ComplianceState,
    request: Request,
    next: ComplianceState,
    screener: Address,
)
    requires
        leads_to(state, request, next),
        !state.screeners.dom().contains(screener),
        next.screeners.dom().contains(screener),
    ensures
        match request {
            Request::RegisterScreener { admin, screener: s, .. } => s == screener && state.admin
                == Some(admin) && state.screener_timelock == 0,
            Request::ConfirmScreenerRegistration { now, admin, screener: s } => s == screener
                && state.admin == Some(admin) && state.pending_screeners.dom().contains(screener)
                && now >= state.pending_screeners[screener].effective_at,
            _ => false,
        },
{
}

/// A history is never rewritten: a request leaves it as it is, or adds one
/// decision at its end and lets the oldest go if there is no room.
pub proof fn histories_only_grow(
    state: ComplianceState,
    request: Request,
    next: ComplianceState,
    address: Address,
)
    requires
        leads_to(state, request, next),
    ensures
        ({
            let before = state.history_of(address);
            let after = next.history_of(address);
            ||| after == before
            ||| after.len() > 0 && before.len() < MAX_HISTORY_ENTRIES && after.drop_last() == before
            ||| after.len() > 0 && before.len() >= MAX_HISTORY_ENTRIES && after.drop_last()
                == before.skip(1)
        }),
{
    let before = state.history_of(address);
    let after = next.history_of(address);
    match request {
        Request::SubmitScreeningResult { address: a, .. } => {
            if a == address {
                assert(after.drop_last() =~= if before.len() >= MAX_HISTORY_ENTRIES {
                    before.skip(1)
                } else {
                    before
                });
            }
        },
        Request::RequestReview { address: a, .. } => {
            if a == address {
                assert(after.drop_last() =~= if before.len() >= MAX_HISTORY_ENTRIES {
                    before.skip(1)
                } else {
                    before
                });
            }
        },
        _ => {},
    }
}

/// Nobody gets two reviews of one address within a day: what was asked for is
/// remembered whatever else is asked of the register, and a second request of the
/// same caller is refused until the day has passed.
pub proof fn reviews_are_rationed(
    state: ComplianceState,
    request: Request,
    next: ComplianceState,
    key: ReviewKey,
    now: u64,
    reason: Seq<u8>,
)
    requires
        leads_to(state, request, next),
        state.review_requested_at.dom().contains(key),
        !(request matches Request::RequestReview { caller, address, .. } && caller == key.caller
            && address == key.address),
    ensures
        next.review_requested_at.dom().contains(key),
        next.review_requested_at[key] == state.review_requested_at[key],
        now < state.review_requested_at[key].saturating_add(REVIEW_REQUEST_COOLDOWN_SECS)
            ==> next.request_review(now, key.caller, key.address, reason) is Err,
{
}

/// A suspended register takes no decisions, no requests for reviews and no
/// screeners.
pub proof fn a_paused_register_decides_nothing(
    state: ComplianceState,
    request: Request,
    next: ComplianceState,
)
    requires
        state.paused,
        state.initialized,
        leads_to(state, request, next),
    ensures
        next.records == state.records,
        next.history == state.history,
        next.screeners == state.screeners,
        next.pending_screeners == state.pending_screeners,
        next.flagged == state.flagged,
        next.pending_review == state.pending_review,
{
}

/// No address is on both lists.
pub proof fn lists_do_not_overlap(state: ComplianceState, address: Address)
    requires
        state.valid(),
    ensures
        !(state.flagged.contains(address) && state.pending_review.contains(address)),
{
}

} // verus!
