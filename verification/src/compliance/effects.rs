//! What the requests to the compliance register bring about, and when they
//! succeed.

use vstd::prelude::*;
use crate::address::Address;
use crate::compliance::error::ComplianceError;
use crate::compliance::requests::Request;
use crate::compliance::state::ComplianceState;
use crate::compliance::types::{
    ComplianceEvent, ComplianceRecord, ComplianceStatus, ReviewKey, RiskTier,
    ScreeningHistoryEntry,
};

verus! {

/// A point in time that lies a span behind another, or the end of time.
pub open spec fn later(at: u64, span: int) -> int {
    if at + span > u64::MAX {
        u64::MAX as int
    } else {
        at + span
    }
}

/// Only a clearance runs out: any other decision has its status at every time,
/// until there is another decision. An address without a decision is unscreened.
pub proof fn only_clearances_run_out(state: ComplianceState, now: u64, address: Address)
    ensures
        !state.records.dom().contains(address) ==> state.effective_status(now, address)
            is Unscreened && !state.is_cleared(now, address),
        state.records.dom().contains(address) ==> {
            let record = state.records[address];
            let runs = record.expires_at == 0 || now < record.expires_at;
            &&& !(record.status is Cleared) ==> state.effective_status(now, address)
                == record.status
            &&& record.status is Cleared && runs ==> state.effective_status(now, address)
                is Cleared
            &&& record.status is Cleared && !runs ==> state.effective_status(now, address)
                is Unscreened
            &&& state.is_cleared(now, address) <==> record.status is Cleared && runs
        },
{
}

/// Every address on the list of flagged addresses is flagged or blocked in effect,
/// at every time, and every address on the list of reviews is under review.
pub proof fn lists_tell_the_status(state: ComplianceState, now: u64, address: Address)
    requires
        state.valid(),
    ensures
        state.flagged.contains(address) ==> state.effective_status(now, address) is Flagged
            || state.effective_status(now, address) is Blocked,
        state.pending_review.contains(address) ==> state.effective_status(now, address)
            is PendingReview,
{
}

/// Whether the administrator, the rules and the screeners are the same.
pub open spec fn same_setup(state: ComplianceState, next: ComplianceState) -> bool {
    &&& next.initialized == state.initialized
    &&& next.admin == state.admin
    &&& next.paused == state.paused
    &&& next.rescreening_interval == state.rescreening_interval
    &&& next.screener_timelock == state.screener_timelock
}

/// Whether the screeners and their proposals are the same.
pub open spec fn same_screeners(state: ComplianceState, next: ComplianceState) -> bool {
    &&& next.screeners == state.screeners
    &&& next.screener_ids == state.screener_ids
    &&& next.pending_screeners == state.pending_screeners
}

/// Whether the decisions and what is kept beside them are the same.
pub open spec fn same_decisions(state: ComplianceState, next: ComplianceState) -> bool {
    &&& next.records == state.records
    &&& next.history == state.history
    &&& next.flagged == state.flagged
    &&& next.pending_review == state.pending_review
    &&& next.review_requested_at == state.review_requested_at
}

/// Whether a list gained an address at its end, at the cost of the oldest if it
/// held 256; one that held it stays.
pub open spec fn gained(before: Seq<Address>, after: Seq<Address>, address: Address) -> bool {
    &&& after.contains(address)
    &&& before.contains(address) ==> after == before
    &&& !before.contains(address) ==> {
        &&& after.last() == address
        &&& before.len() < 256 ==> after.drop_last() == before
        &&& before.len() >= 256 ==> after.drop_last() == before.skip(1)
    }
}

/// Whether a list lost an address wherever it stood, and nothing else.
pub open spec fn lost(before: Seq<Address>, after: Seq<Address>, address: Address) -> bool {
    &&& after == before.filter(|a: Address| a != address)
    &&& !after.contains(address)
    &&& !before.contains(address) ==> after == before
    &&& forall|a: Address| a != address ==> (#[trigger] after.contains(a) <==> before.contains(a))
}

/// What is known of the decisions on an address, oldest first.
pub open spec fn decisions(state: ComplianceState, address: Address) -> Seq<
    ScreeningHistoryEntry<Seq<u8>>,
> {
    if state.history.dom().contains(address) {
        state.history[address]
    } else {
        Seq::empty()
    }
}

/// Whether a decision on an address was entered: it is the last one on record,
/// ends the history, of which 64 decisions are kept, and moves the address to the
/// list that its status belongs to. Nobody else is concerned.
pub open spec fn entered(state: ComplianceState, next: ComplianceState, address: Address) -> bool {
    let record = next.records[address];
    let before = decisions(state, address);
    let after = decisions(next, address);
    &&& next.records.dom() == state.records.dom().insert(address)
    &&& forall|a: Address| a != address && #[trigger]
        state.records.dom().contains(a) ==> next.records[a] == state.records[a]
    &&& record.address == address
    &&& after.len() > 0
    &&& after.last().status == record.status
    &&& after.last().reason_code == record.reason_code
    &&& after.last().risk_tier == record.risk_tier
    &&& after.last().screened_at == record.screened_at
    &&& after.last().screened_by == record.screened_by
    &&& after.last().expires_at == record.expires_at
    &&& after.last().notes_hash == record.notes_hash
    &&& before.len() < 64 ==> after.drop_last() == before
    &&& before.len() >= 64 ==> after.drop_last() == before.skip(1)
    &&& next.history.dom() == state.history.dom().insert(address)
    &&& forall|a: Address| a != address && #[trigger]
        state.history.dom().contains(a) ==> next.history[a] == state.history[a]
    &&& match record.status {
        ComplianceStatus::Flagged | ComplianceStatus::Blocked => {
            &&& gained(state.flagged, next.flagged, address)
            &&& lost(state.pending_review, next.pending_review, address)
        },
        ComplianceStatus::PendingReview => {
            &&& lost(state.flagged, next.flagged, address)
            &&& gained(state.pending_review, next.pending_review, address)
        },
        _ => {
            &&& lost(state.flagged, next.flagged, address)
            &&& lost(state.pending_review, next.pending_review, address)
        },
    }
}

proof fn lemma_gained(before: Seq<Address>, address: Address)
    ensures
        gained(
            before,
            crate::compliance::state::with_address(before, address, 256),
            address,
        ),
{
    let after = crate::compliance::state::with_address(before, address, 256);
    if !before.contains(address) {
        assert(after[after.len() - 1] == address);
        if before.len() < 256 {
            assert(after.drop_last() =~= before);
        } else {
            assert(after.drop_last() =~= before.skip(1));
        }
    }
}

proof fn lemma_lost(before: Seq<Address>, address: Address)
    ensures
        lost(before, crate::collections::without_item(before, address), address),
{
    crate::collections::taking_an_item_away(before, address);
    lemma_filtered(before, address);
    if !before.contains(address) {
        lemma_filter_all(before, address);
    }
}

proof fn lemma_filtered(items: Seq<Address>, address: Address)
    ensures
        crate::collections::without_item(items, address) == items.filter(
            |a: Address| a != address,
        ),
    decreases items.len(),
{
    reveal(Seq::filter);
    if items.len() > 0 {
        lemma_filtered(items.drop_last(), address);
    }
}

proof fn lemma_filter_all(items: Seq<Address>, address: Address)
    requires
        !items.contains(address),
    ensures
        crate::collections::without_item(items, address) == items,
    decreases items.len(),
{
    reveal(Seq::filter);
    if items.len() > 0 {
        let shorter = items.drop_last();
        assert forall|i: int| 0 <= i < shorter.len() implies shorter[i] != address by {
            assert(items[i] == shorter[i]);
            assert(items.contains(items[i]));
        }
        lemma_filter_all(shorter, address);
        assert(items.contains(items[items.len() - 1]));
        assert(shorter.push(items.last()) =~= items);
    }
}

proof fn lemma_entered(
    state: ComplianceState,
    record: ComplianceRecord<Seq<u8>>,
    next: ComplianceState,
)
    requires
        next.records == state.decide(record).records,
        next.history == state.decide(record).history,
        next.flagged == state.decide(record).flagged,
        next.pending_review == state.decide(record).pending_review,
    ensures
        entered(state, next, record.address),
        next.records[record.address] == record,
{
    let a = record.address;
    lemma_gained(state.flagged, a);
    lemma_gained(state.pending_review, a);
    lemma_lost(state.flagged, a);
    lemma_lost(state.pending_review, a);
    assert(next.records.dom() =~= state.records.dom().insert(a));
    assert(next.history.dom() =~= state.history.dom().insert(a));
    let before = decisions(state, a);
    let after = decisions(next, a);
    assert(after.drop_last() =~= if before.len() >= 64 {
        before.skip(1)
    } else {
        before
    });
}

/// A screener's decision is entered as it was given, with the time, and holds
/// until the time that the screener names, or for the default lifetime if it names
/// none.
pub proof fn decisions_are_entered(
    state: ComplianceState,
    now: u64,
    screener: Address,
    address: Address,
    status: ComplianceStatus,
    reason_code: u32,
    risk_tier: RiskTier,
    expires_at: u64,
    notes_hash: Seq<u8>,
)
    ensures
        match state.submit_screening_result(
            now,
            screener,
            address,
            status,
            reason_code,
            risk_tier,
            expires_at,
            notes_hash,
        ) {
            Ok(next) => {
                let record = next.records[address];
                &&& entered(state, next, address)
                &&& record.status == status
                &&& record.reason_code == reason_code
                &&& record.risk_tier == risk_tier
                &&& record.screened_at == now
                &&& record.screened_by == screener
                &&& record.notes_hash == notes_hash
                &&& expires_at != 0 ==> record.expires_at == expires_at
                &&& expires_at == 0 ==> record.expires_at == later(
                    now,
                    state.rescreening_interval as int,
                )
                &&& next.events == state.events.push(
                    ComplianceEvent::Screened {
                        address,
                        status,
                        reason_code,
                        screener,
                        expires_at: record.expires_at,
                    },
                )
                &&& same_setup(state, next)
                &&& same_screeners(state, next)
                &&& next.review_requested_at == state.review_requested_at
            },
            Err(_) => true,
        },
        state.submit_screening_result(
            now,
            screener,
            address,
            status,
            reason_code,
            risk_tier,
            expires_at,
            notes_hash,
        ) is Ok <==> {
            &&& !state.paused
            &&& state.admin is Some
            &&& state.admin == Some(screener) || state.screeners.dom().contains(screener)
            &&& !(status is Unscreened)
            &&& status is Cleared ==> expires_at == 0 || expires_at > now
        },
{
    let result = state.submit_screening_result(
        now,
        screener,
        address,
        status,
        reason_code,
        risk_tier,
        expires_at,
        notes_hash,
    );
    if result is Ok {
        lemma_entered(state, result->Ok_0.records[address], result->Ok_0);
    }
}

/// A request for a review puts an address under review, whatever its status was,
/// until there is another decision. The risk of an address is kept, and is medium
/// if it is not known. It says whether a clearance was interrupted.
pub proof fn reviews_are_entered(
    state: ComplianceState,
    now: u64,
    caller: Address,
    address: Address,
    reason: Seq<u8>,
)
    ensures
        match state.request_review(now, caller, address, reason) {
            Ok(next) => {
                let record = next.records[address];
                let known = state.records.dom().contains(address);
                let key = ReviewKey { caller, address };
                &&& entered(state, next, address)
                &&& record.status is PendingReview
                &&& record.reason_code == 0
                &&& known ==> record.risk_tier == state.records[address].risk_tier
                &&& !known ==> record.risk_tier is Medium
                &&& record.screened_at == now
                &&& record.screened_by == caller
                &&& record.expires_at == 0
                &&& record.notes_hash == reason
                &&& next.review_requested_at == state.review_requested_at.insert(key, now)
                &&& next.events == state.events.push(
                    ComplianceEvent::ReviewRequested {
                        address,
                        caller,
                        was_cleared: known && state.records[address].status is Cleared && (
                        state.records[address].expires_at == 0 || now
                            < state.records[address].expires_at),
                    },
                )
                &&& same_setup(state, next)
                &&& same_screeners(state, next)
            },
            Err(_) => true,
        },
        state.request_review(now, caller, address, reason) is Ok <==> {
            let key = ReviewKey { caller, address };
            &&& !state.paused
            &&& state.review_requested_at.dom().contains(key) ==> now >= later(
                state.review_requested_at[key],
                86_400,
            )
        },
{
    let result = state.request_review(now, caller, address, reason);
    if result is Ok {
        lemma_entered(state, result->Ok_0.records[address], result->Ok_0);
    }
}

/// Whether a screener was registered, last on the list, and announced.
pub open spec fn screener_entered(
    state: ComplianceState,
    next: ComplianceState,
    screener: Address,
) -> bool {
    &&& next.screeners == state.screeners.insert(screener, true)
    &&& next.screener_ids == state.screener_ids.push(screener)
    &&& next.events == state.events.push(ComplianceEvent::ScreenerRegistered { screener })
}

/// The administrator registers a screener that is not registered: at once where
/// there is no timelock and room for it among 64, else as a proposal that can be
/// confirmed once the timelock has passed.
pub proof fn screeners_are_proposed(
    state: ComplianceState,
    now: u64,
    admin: Address,
    screener: Address,
)
    ensures
        match state.register_screener(now, admin, screener) {
            Ok(next) => {
                &&& same_setup(state, next)
                &&& same_decisions(state, next)
                &&& state.screener_timelock == 0 ==> screener_entered(state, next, screener)
                    && next.pending_screeners == state.pending_screeners
                &&& state.screener_timelock > 0 ==> {
                    let pending = next.pending_screeners[screener];
                    &&& pending.address == screener
                    &&& pending.proposed_at == now
                    &&& pending.effective_at == later(now, state.screener_timelock as int)
                    &&& next.pending_screeners == state.pending_screeners.insert(screener, pending)
                    &&& next.screeners == state.screeners
                    &&& next.screener_ids == state.screener_ids
                    &&& next.events == state.events.push(
                        ComplianceEvent::ScreenerProposed {
                            admin,
                            screener,
                            effective_at: pending.effective_at,
                        },
                    )
                }
            },
            Err(_) => true,
        },
        state.register_screener(now, admin, screener) is Ok <==> {
            &&& state.admin == Some(admin)
            &&& !state.paused
            &&& !state.screeners.dom().contains(screener)
            &&& state.screener_timelock == 0 ==> state.screener_ids.len() < 64
        },
{
}

/// The administrator confirms a proposed screener once its timelock has passed,
/// where there is room for it; the proposal is then gone.
pub proof fn screeners_are_confirmed(
    state: ComplianceState,
    now: u64,
    admin: Address,
    screener: Address,
)
    ensures
        match state.confirm_screener_registration(now, admin, screener) {
            Ok(next) => {
                &&& same_setup(state, next)
                &&& same_decisions(state, next)
                &&& screener_entered(state, next, screener)
                &&& next.pending_screeners == state.pending_screeners.remove(screener)
            },
            Err(_) => true,
        },
        state.confirm_screener_registration(now, admin, screener) is Ok <==> {
            &&& state.admin == Some(admin)
            &&& !state.paused
            &&& state.pending_screeners.dom().contains(screener)
            &&& now >= state.pending_screeners[screener].effective_at
            &&& !state.screeners.dom().contains(screener)
            &&& state.screener_ids.len() < 64
        },
{
}

/// The administrator removes a screener, or the proposal of one that is not
/// registered.
pub proof fn screeners_are_removed(state: ComplianceState, admin: Address, screener: Address)
    ensures
        match state.deregister_screener(admin, screener) {
            Ok(next) => {
                &&& same_setup(state, next)
                &&& same_decisions(state, next)
                &&& !next.screeners.dom().contains(screener)
                &&& state.screeners.dom().contains(screener) ==> {
                    &&& next.screeners == state.screeners.remove(screener)
                    &&& lost(state.screener_ids, next.screener_ids, screener)
                    &&& next.pending_screeners == state.pending_screeners
                    &&& next.events == state.events.push(
                        ComplianceEvent::ScreenerRemoved { admin, screener },
                    )
                }
                &&& !state.screeners.dom().contains(screener) ==> {
                    &&& next.screeners == state.screeners
                    &&& next.screener_ids == state.screener_ids
                    &&& next.pending_screeners == state.pending_screeners.remove(screener)
                    &&& next.events == state.events.push(
                        ComplianceEvent::ScreenerProposalCancelled { admin, screener },
                    )
                }
            },
            Err(_) => true,
        },
        state.deregister_screener(admin, screener) is Ok <==> {
            &&& state.admin == Some(admin)
            &&& !state.paused
            &&& state.screeners.dom().contains(screener)
                || state.pending_screeners.dom().contains(screener)
        },
{
    lemma_lost(state.screener_ids, screener);
}

/// A register is set up once, with lists that are empty, clearances of 180 days
/// and a timelock of 24 hours.
pub proof fn registers_are_set_up(state: ComplianceState, admin: Address)
    ensures
        match state.initialize(admin) {
            Ok(next) => {
                &&& next.initialized
                &&& next.admin == Some(admin)
                &&& !next.paused
                &&& next.rescreening_interval == 15_552_000
                &&& next.screener_timelock == 86_400
                &&& next.screener_ids.len() == 0
                &&& next.flagged.len() == 0
                &&& next.pending_review.len() == 0
                &&& next.records == state.records
                &&& next.history == state.history
                &&& next.screeners == state.screeners
                &&& next.pending_screeners == state.pending_screeners
                &&& next.review_requested_at == state.review_requested_at
                &&& next.events == state.events
            },
            Err(_) => true,
        },
        state.initialize(admin) is Ok <==> !state.initialized,
        ({
            let blank = ComplianceState::blank();
            &&& !blank.initialized
            &&& blank.admin is None
            &&& !blank.paused
            &&& blank.rescreening_interval == 15_552_000
            &&& blank.screener_timelock == 86_400
            &&& forall|a: Address| !blank.records.dom().contains(a)
            &&& forall|a: Address| !blank.screeners.dom().contains(a)
            &&& blank.events.len() == 0
        }),
{
}

/// The administrator suspends the register and takes it up again, and sets the
/// lifetime of clearances, which is never 0, and the timelock; each of these
/// changes what it names alone.
pub proof fn the_administrator_sets_the_rules(
    state: ComplianceState,
    request: Request,
    admin: Address,
    secs: u64,
)
    requires
        request == (Request::Pause { admin }) || request == (Request::Unpause { admin }) || request
            == (Request::SetRescreeningInterval { admin, secs }) || request == (
        Request::SetScreenerTimelock { admin, secs }),
    ensures
        match state.apply(request) {
            Ok(next) => {
                &&& next.initialized == state.initialized
                &&& next.admin == state.admin
                &&& next.paused == match request {
                    Request::Pause { .. } => true,
                    Request::Unpause { .. } => false,
                    _ => state.paused,
                }
                &&& next.rescreening_interval == if request is SetRescreeningInterval {
                    secs
                } else {
                    state.rescreening_interval
                }
                &&& next.screener_timelock == if request is SetScreenerTimelock {
                    secs
                } else {
                    state.screener_timelock
                }
                &&& same_screeners(state, next)
                &&& same_decisions(state, next)
                &&& next.events == state.events.push(
                    match request {
                        Request::Pause { .. } => ComplianceEvent::Paused { admin },
                        Request::Unpause { .. } => ComplianceEvent::Unpaused { admin },
                        Request::SetRescreeningInterval { .. } => {
                            ComplianceEvent::RescreeningIntervalSet { admin, secs }
                        },
                        _ => ComplianceEvent::ScreenerTimelockSet { admin, secs },
                    },
                )
            },
            Err(_) => true,
        },
        state.apply(request) is Ok <==> state.admin == Some(admin) && (
        request is SetRescreeningInterval ==> secs > 0),
{
}

/// Who makes a request in the administrator's name.
pub open spec fn administrator_of(request: Request) -> Option<Address> {
    match request {
        Request::Pause { admin } => Some(admin),
        Request::Unpause { admin } => Some(admin),
        Request::RegisterScreener { admin, .. } => Some(admin),
        Request::ConfirmScreenerRegistration { admin, .. } => Some(admin),
        Request::DeregisterScreener { admin, .. } => Some(admin),
        Request::SetRescreeningInterval { admin, .. } => Some(admin),
        Request::SetScreenerTimelock { admin, .. } => Some(admin),
        _ => None,
    }
}

/// The errors, in the order of their numbers.
pub open spec fn numbered() -> Seq<ComplianceError> {
    seq![
        ComplianceError::AlreadyInitialized,
        ComplianceError::NotInitialized,
        ComplianceError::Unauthorized,
        ComplianceError::ContractPaused,
        ComplianceError::InvalidConfig,
        ComplianceError::ScreenerAlreadyRegistered,
        ComplianceError::ScreenerNotRegistered,
        ComplianceError::ScreenerTimelockActive,
        ComplianceError::NoPendingScreener,
        ComplianceError::InvalidStatus,
        ComplianceError::AddressNotFound,
        ComplianceError::ListFull,
        ComplianceError::InvalidReason,
        ComplianceError::ReviewRequestTooSoon,
    ]
}

/// An error is reported under its place in the order of the numbers.
pub proof fn errors_are_numbered_in_order(e: ComplianceError)
    ensures
        numbered().len() == 14,
        e.spec_code() < 14,
        numbered()[e.spec_code() as int] == e,
{
}

/// Different errors are reported under different numbers.
pub proof fn errors_are_told_apart(a: ComplianceError, b: ComplianceError)
    requires
        a != b,
    ensures
        a.spec_code() != b.spec_code(),
        a.spec_code() <= 13,
{
}

/// Whether an error is a reason to refuse a request.
pub open spec fn true_reason(state: ComplianceState, request: Request, e: ComplianceError) -> bool {
    match e {
        ComplianceError::AlreadyInitialized => request is Initialize && state.initialized,
        ComplianceError::NotInitialized => state.admin is None,
        ComplianceError::Unauthorized => match request {
            Request::SubmitScreeningResult { screener, .. } => state.admin != Some(screener)
                && !state.screeners.dom().contains(screener),
            _ => administrator_of(request) is Some && state.admin != administrator_of(
                request,
            ),
        },
        ComplianceError::ContractPaused => state.paused,
        ComplianceError::InvalidConfig => match request {
            Request::SetRescreeningInterval { secs, .. } => secs == 0,
            Request::SubmitScreeningResult { now, status, expires_at, .. } => status
                is Cleared && 0 < expires_at <= now,
            _ => false,
        },
        ComplianceError::ScreenerAlreadyRegistered => match request {
            Request::RegisterScreener { screener, .. } => {
                state.screeners.dom().contains(screener)
            },
            Request::ConfirmScreenerRegistration { screener, .. } => {
                state.screeners.dom().contains(screener)
            },
            _ => false,
        },
        ComplianceError::ScreenerNotRegistered => match request {
            Request::DeregisterScreener { screener, .. } => {
                !state.screeners.dom().contains(screener)
                    && !state.pending_screeners.dom().contains(screener)
            },
            _ => false,
        },
        ComplianceError::ScreenerTimelockActive => match request {
            Request::ConfirmScreenerRegistration { now, screener, .. } => now
                < state.pending_screeners[screener].effective_at,
            _ => false,
        },
        ComplianceError::NoPendingScreener => match request {
            Request::ConfirmScreenerRegistration { screener, .. } => {
                !state.pending_screeners.dom().contains(screener)
            },
            _ => false,
        },
        ComplianceError::InvalidStatus => match request {
            Request::SubmitScreeningResult { status, .. } => status is Unscreened,
            _ => false,
        },
        ComplianceError::ListFull => (request is RegisterScreener
            || request is ConfirmScreenerRegistration) && state.screener_ids.len() >= 64,
        ComplianceError::ReviewRequestTooSoon => match request {
            Request::RequestReview { now, caller, address, .. } => {
                let key = ReviewKey { caller, address };
                state.review_requested_at.dom().contains(key) && now < later(
                    state.review_requested_at[key],
                    86_400,
                )
            },
            _ => false,
        },
        ComplianceError::AddressNotFound => false,
        ComplianceError::InvalidReason => false,
    }
}

/// A request that is refused is refused for a reason that holds.
pub proof fn refusals_give_true_reasons(state: ComplianceState, request: Request)
    ensures
        match state.apply(request) {
            Ok(_) => true,
            Err(e) => true_reason(state, request, e),
        },
{
}

/// The place of an error among those that a request can meet with: the lower, the
/// sooner it is told.
pub open spec fn turn(request: Request, e: ComplianceError) -> int {
    match request {
        Request::Initialize { .. } => 0,
        Request::SubmitScreeningResult { .. } => match e {
            ComplianceError::ContractPaused => 0,
            ComplianceError::NotInitialized => 1,
            ComplianceError::Unauthorized => 2,
            ComplianceError::InvalidStatus => 3,
            _ => 4,
        },
        Request::RequestReview { .. } => match e {
            ComplianceError::ContractPaused => 0,
            _ => 1,
        },
        _ => match e {
            ComplianceError::NotInitialized => 0,
            ComplianceError::Unauthorized => 1,
            ComplianceError::ContractPaused => if request is RegisterScreener
                || request is ConfirmScreenerRegistration || request is DeregisterScreener {
                2
            } else {
                6
            },
            ComplianceError::NoPendingScreener => 3,
            ComplianceError::ScreenerTimelockActive => 4,
            ComplianceError::ScreenerAlreadyRegistered => 5,
            _ => 6,
        },
    }
}

/// Of several reasons to refuse a request the first in turn is told.
pub proof fn the_first_reason_is_told(
    state: ComplianceState,
    request: Request,
    other: ComplianceError,
)
    ensures
        match state.apply(request) {
            Ok(_) => true,
            Err(e) => turn(request, other) < turn(request, e) ==> !true_reason(
                state,
                request,
                other,
            ),
        },
{
}

} // verus!
