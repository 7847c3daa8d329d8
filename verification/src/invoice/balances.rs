//! What holds of amounts, limits and dates in the invoice ledger.

use vstd::prelude::*;
use crate::address::Address;
use crate::invoice::constants::{ACTIVE_INVOICE_TTL, SECS_PER_DAY, VERIFICATION_TIMEOUT_SECS};
use crate::invoice::creation::InvoiceRequest;
use crate::invoice::error::{InvoiceError, InvoiceFailure};
use crate::invoice::requests::{ClosingRequest, FundingRequest, Request};
use crate::invoice::state::InvoiceState;
use crate::invoice::types::{Clearance, DisputeResolution, Invoice};

verus! {

/// An invoice becomes a funded one only at the hands of the pool, within the
/// owner's limit and, where verification is asked for, verified; or when the
/// administrator decides that its default was wrong.
pub proof fn funding_needs_the_pool(
    state: InvoiceState,
    request: Request,
    next: InvoiceState,
    id: u64,
)
    requires
        crate::invoice::frames::leads_to(state.apply(request), next),
        state.invoices.dom().contains(id),
        next.invoices.dom().contains(id),
        !(state.invoices[id].status is Funded),
        next.invoices[id].status is Funded,
    ensures
        request is Funding || request is Dispute,
        request is Funding ==> {
            &&& crate::invoice::authority::pool_of(request) is Some
            &&& crate::invoice::authority::pool_of(request) == state.settings.pool
            &&& next.invoices[id].pool_contract == state.settings.pool->0
            &&& state.settings.require_oracle_verification ==> state.invoices[id].oracle_verified
            &&& next.outstanding(state.invoices[id].owner) == state.outstanding(
                state.invoices[id].owner,
            ) + state.invoices[id].amount
            &&& next.outstanding(state.invoices[id].owner)
                <= state.settings.max_outstanding_per_sme
        },
        request is Dispute ==> state.invoices[id].status is Disputed
            && crate::invoice::authority::administrator_of(request) == state.settings.admin,
{
    if crate::invoice::frames::is_plain(request) {
        crate::invoice::frames::rules_leave_the_books_alone(state, request, next);
    } else {
        match request {
            Request::Setup(r) => {
                reveal(InvoiceState::apply_setup);
            },
            Request::Exception(r) => {
                reveal(InvoiceState::apply_exception);
            },
            Request::Debtor(r) => {
                reveal(InvoiceState::apply_debtor);
            },
            Request::Creation(r) => {
                reveal(InvoiceState::apply_creation);
            },
            Request::Verification(r) => {
                reveal(InvoiceState::apply_verification);
            },
            Request::Funding(r) => {
                reveal(InvoiceState::apply_funding);
            },
            Request::Extension(r) => {
                reveal(InvoiceState::apply_extension);
            },
            Request::Dispute(r) => {
                reveal(InvoiceState::apply_dispute);
            },
            Request::Closing(r) => {
                reveal(InvoiceState::apply_closing);
                if let ClosingRequest::BatchCheckExpiration { now, ids } = r {
                    crate::invoice::laws::expiring_is_all_that_a_check_does(state, now, ids, id);
                }
            },
            _ => {},
        }
    }
}

/// An invoice becomes a paid one only when the pool says that it was repaid.
pub proof fn payment_needs_the_pool(
    state: InvoiceState,
    request: Request,
    next: InvoiceState,
    id: u64,
)
    requires
        crate::invoice::frames::leads_to(state.apply(request), next),
        state.invoices.dom().contains(id),
        next.invoices.dom().contains(id),
        !(state.invoices[id].status is Paid),
        next.invoices[id].status is Paid,
    ensures
        state.invoices[id].status is Funded,
        request matches Request::Funding(r) && (r matches FundingRequest::MarkPaid {
            now,
            id: i,
            pool,
            repaid,
        } && i == id && Some(pool) == state.settings.pool && repaid == Some(true)
            && next.invoices[id].paid_at == now),
{
    crate::invoice::laws::invoices_change_in_order(state, request, next, id);
    if crate::invoice::frames::is_plain(request) {
        crate::invoice::frames::rules_leave_the_books_alone(state, request, next);
    } else {
        match request {
            Request::Setup(r) => {
                reveal(InvoiceState::apply_setup);
            },
            Request::Exception(r) => {
                reveal(InvoiceState::apply_exception);
            },
            Request::Debtor(r) => {
                reveal(InvoiceState::apply_debtor);
            },
            Request::Creation(r) => {
                reveal(InvoiceState::apply_creation);
            },
            Request::Verification(r) => {
                reveal(InvoiceState::apply_verification);
            },
            Request::Funding(r) => {
                reveal(InvoiceState::apply_funding);
            },
            Request::Extension(r) => {
                reveal(InvoiceState::apply_extension);
            },
            Request::Dispute(r) => {
                reveal(InvoiceState::apply_dispute);
            },
            Request::Closing(r) => {
                reveal(InvoiceState::apply_closing);
                if let ClosingRequest::BatchCheckExpiration { now, ids } = r {
                    crate::invoice::laws::expiring_is_all_that_a_check_does(state, now, ids, id);
                }
            },
            _ => {},
        }
    }
}

/// A funded invoice is put into default only by the pool or a keeper, and not
/// before its grace period has passed.
pub proof fn defaults_wait_for_the_grace_period(
    state: InvoiceState,
    request: Request,
    next: InvoiceState,
    id: u64,
)
    requires
        crate::invoice::frames::leads_to(state.apply(request), next),
        state.invoices.dom().contains(id),
        next.invoices.dom().contains(id),
        state.invoices[id].status is Funded,
        next.invoices[id].status is Defaulted,
    ensures
        request matches Request::Funding(r) && (r matches FundingRequest::MarkDefaulted {
            now,
            id: i,
            caller,
        } && i == id && (Some(caller) == state.settings.pool || state.keepers.contains(caller))
            && now >= state.invoices[id].due_date + state.grace_days(state.invoices[id])
            * SECS_PER_DAY),
{
    if crate::invoice::frames::is_plain(request) {
        crate::invoice::frames::rules_leave_the_books_alone(state, request, next);
    } else {
        match request {
            Request::Setup(r) => {
                reveal(InvoiceState::apply_setup);
            },
            Request::Exception(r) => {
                reveal(InvoiceState::apply_exception);
            },
            Request::Debtor(r) => {
                reveal(InvoiceState::apply_debtor);
            },
            Request::Creation(r) => {
                reveal(InvoiceState::apply_creation);
            },
            Request::Verification(r) => {
                reveal(InvoiceState::apply_verification);
            },
            Request::Funding(r) => {
                reveal(InvoiceState::apply_funding);
            },
            Request::Extension(r) => {
                reveal(InvoiceState::apply_extension);
            },
            Request::Dispute(r) => {
                reveal(InvoiceState::apply_dispute);
            },
            Request::Closing(r) => {
                reveal(InvoiceState::apply_closing);
                if let ClosingRequest::BatchCheckExpiration { now, ids } = r {
                    crate::invoice::laws::expiring_is_all_that_a_check_does(state, now, ids, id);
                }
            },
            _ => {},
        }
    }
}

/// What an invoice adds to its owner's outstanding amount when it is funded goes
/// when it is paid.
pub proof fn payment_clears_what_funding_added(
    state: InvoiceState,
    now: u64,
    later: u64,
    id: u64,
    pool: Address,
)
    requires
        state.mark_funded(now, id, pool) is Ok,
    ensures
        ({
            let funded = state.mark_funded(now, id, pool)->Ok_0;
            let owner = state.invoices[id].owner;
            let paid = funded.mark_paid(later, id, pool, Some(true));
            &&& funded.outstanding(owner) == state.outstanding(owner) + state.invoices[id].amount
            &&& paid is Ok
            &&& paid->Ok_0.outstanding(owner) == state.outstanding(owner)
            &&& paid->Ok_0.invoices[id].status is Paid
        }),
{
}

/// What an invoice adds when it is created goes when its owner cancels it at
/// once: the exposure of its debtor, where debtors have to be registered, the
/// owner's index and the count of open invoices are what they were.
pub proof fn cancelling_undoes_a_creation(
    state: InvoiceState,
    now: u64,
    request: InvoiceRequest<Seq<u8>>,
    clearance: Clearance,
)
    requires
        state.valid(),
        state.create_invoice_with_metadata(now, request, clearance) is Ok,
    ensures
        ({
            let (created, id) = state.create_invoice_with_metadata(now, request, clearance)->Ok_0;
            let cancelled = created.cancel_invoice(now, id, request.owner);
            &&& cancelled is Ok
            &&& cancelled->Ok_0.invoices[id].status is Cancelled
            &&& cancelled->Ok_0.owned(request.owner) == state.owned(request.owner)
            &&& cancelled->Ok_0.stats.active_invoices == state.stats.active_invoices
            &&& state.settings.require_registered_debtor ==> cancelled->Ok_0.debtors
                == state.debtors
        }),
{
    let (created, id) = state.create_invoice_with_metadata(now, request, clearance)->Ok_0;
    let owner = request.owner;
    crate::invoice::validity::created_ledger_is_valid(state, now, request, clearance);
    assert(state.settings.admin is Some);
    assert(!created.is_stale(created.invoices[id], now));
    let cancelled = created.cancel_invoice(now, id, owner)->Ok_0;
    assert(created.owned(owner) == state.owned(owner).push(id));
    assert(!state.owned(owner).contains(id));
    lemma_without_pushed(state.owned(owner), id);
    crate::invoice::validity::index_without_an_invoice(created, owner, id);
    assert(cancelled.owned(owner) == created.without_owned(owner, id).owned(owner));
    if state.settings.require_registered_debtor {
        let d = request.debtor;
        assert(cancelled.debtors =~= state.debtors) by {
            assert(cancelled.debtors[d] == state.debtors[d]);
        }
    }
}

proof fn lemma_without_pushed<A>(items: Seq<A>, item: A)
    requires
        !items.contains(item),
    ensures
        crate::collections::without_item(items.push(item), item) == items,
{
    reveal(Seq::filter);
    lemma_without_absent(items, item);
    assert(items.push(item).drop_last() =~= items);
}

proof fn lemma_without_absent<A>(items: Seq<A>, item: A)
    requires
        !items.contains(item),
    ensures
        crate::collections::without_item(items, item) == items,
    decreases items.len(),
{
    reveal(Seq::filter);
    if items.len() > 0 {
        let shorter = items.drop_last();
        assert(!shorter.contains(item)) by {
            if shorter.contains(item) {
                let i = choose|i: int| 0 <= i < shorter.len() && shorter[i] == item;
                assert(items[i] == item);
            }
        }
        lemma_without_absent(shorter, item);
        assert(items.last() == items[items.len() - 1]);
        assert(shorter.push(items.last()) =~= items);
    }
}

/// Where debtors have to be registered, a new invoice never takes one beyond what
/// can be owed by it.
pub proof fn debtors_stay_within_their_limit(
    state: InvoiceState,
    now: u64,
    request: InvoiceRequest<Seq<u8>>,
    clearance: Clearance,
)
    requires
        state.settings.require_registered_debtor,
        state.create_invoice_with_metadata(now, request, clearance) is Ok,
    ensures
        ({
            let next = state.create_invoice_with_metadata(now, request, clearance)->Ok_0.0;
            &&& state.debtors.dom().contains(request.debtor)
            &&& state.debtors[request.debtor].is_active
            &&& next.debtors[request.debtor].current_exposure
                == state.debtors[request.debtor].current_exposure + request.amount
            &&& next.debtors[request.debtor].current_exposure
                <= next.debtors[request.debtor].max_exposure
        }),
{
}

/// Where owners have to be cleared, an invoice comes into being only for an owner
/// that the compliance register clears.
pub proof fn owners_have_to_be_cleared(
    state: InvoiceState,
    now: u64,
    request: InvoiceRequest<Seq<u8>>,
    clearance: Clearance,
)
    requires
        state.settings.require_compliance,
        state.create_invoice_with_metadata(now, request, clearance) is Ok,
    ensures
        clearance is Cleared,
        state.settings.compliance_registry is Some,
{
}

/// In a ledger that is in order, a new invoice gets a number that no invoice ever
/// had, and no number stands in its way.
pub proof fn numbers_are_never_reused(
    state: InvoiceState,
    now: u64,
    request: InvoiceRequest<Seq<u8>>,
    clearance: Clearance,
)
    requires
        state.valid(),
    ensures
        state.creation_refusal(now, request, clearance) != Some(
            InvoiceFailure::Error(InvoiceError::IDCollision),
        ),
        match state.create_invoice_with_metadata(now, request, clearance) {
            Ok((next, id)) => {
                &&& id == state.invoice_count + 1
                &&& next.invoice_count == id
                &&& !state.invoices.dom().contains(id)
                &&& !state.disputes.dom().contains(id)
                &&& !state.private.dom().contains(id)
                &&& !state.funding.dom().contains(id)
                &&& next.invoices == state.invoices.insert(id, next.invoices[id])
            },
            Err(_) => true,
        },
{
}

/// However often an owner tries, it creates no more invoices within 24 hours than
/// the limit allows: a creation succeeds only while fewer were created in the 24
/// hours before, and counts from then on. This leaves out the first moment of
/// time, which the count of 24 hours does not reach back to.
pub proof fn creations_are_rationed(
    state: InvoiceState,
    now: u64,
    request: InvoiceRequest<Seq<u8>>,
    clearance: Clearance,
)
    requires
        now > 0,
        state.create_invoice_with_metadata(now, request, clearance) is Ok,
    ensures
        ({
            let next = state.create_invoice_with_metadata(now, request, clearance)->Ok_0.0;
            let before = state.recent_creations(now, request.owner);
            &&& before.len() < state.settings.daily_limit
            &&& next.recent_creations(now, request.owner) == before.push(now)
            &&& next.recent_creations(now, request.owner).len() <= state.settings.daily_limit
        }),
{
    let next = state.create_invoice_with_metadata(now, request, clearance)->Ok_0.0;
    let start = now.saturating_sub(SECS_PER_DAY);
    let before = state.recent_creations(now, request.owner);
    let all = if state.timestamps.dom().contains(request.owner) {
        state.timestamps[request.owner]
    } else {
        Seq::empty()
    };
    lemma_above_twice(all, start);
    reveal(Seq::filter);
    assert(before.push(now).drop_last() =~= before);
}

proof fn lemma_above_twice(items: Seq<u64>, bound: u64)
    ensures
        crate::collections::items_above(crate::collections::items_above(items, bound), bound)
            == crate::collections::items_above(items, bound),
    decreases items.len(),
{
    reveal(Seq::filter);
    if items.len() > 0 {
        let rest = crate::collections::items_above(items.drop_last(), bound);
        lemma_above_twice(items.drop_last(), bound);
        if items.last() > bound {
            assert(rest.push(items.last()).drop_last() =~= rest);
        }
    }
}

/// Piece by piece, no invoice is funded beyond its amount.
pub proof fn pieces_never_exceed_the_amount(
    state: InvoiceState,
    id: u64,
    amount: i128,
    pool: Address,
)
    requires
        state.add_funding(id, amount, pool) is Ok,
    ensures
        ({
            let (next, sum) = state.add_funding(id, amount, pool)->Ok_0;
            &&& sum == state.funded_so_far(id) + amount
            &&& sum <= state.invoices[id].amount
            &&& next.funded_so_far(id) == sum
        }),
{
}

/// An extension moves a due date forward, and not beyond 90 days behind the first
/// one.
pub proof fn extensions_stay_within_bounds(
    state: InvoiceState,
    now: u64,
    id: u64,
    approver: Address,
)
    requires
        state.approve_extension(now, id, approver) is Ok,
    ensures
        ({
            let (next, call) = state.approve_extension(now, id, approver)->Ok_0;
            &&& state.invoices[id].due_date < next.invoices[id].due_date
            &&& now < next.invoices[id].due_date
            &&& next.invoices[id].due_date <= state.invoices[id].original_due_date
                + crate::invoice::constants::MAX_DUE_DATE_EXTENSION_SECS
            &&& call.new_due_date == next.invoices[id].due_date
            &&& call.pool == state.invoices[id].pool_contract
        }),
{
}

/// A pending invoice expires once its time has run out, and not before.
pub proof fn invoices_expire_in_time(state: InvoiceState, now: u64, id: u64)
    requires
        state.invoices.dom().contains(id),
        state.invoices[id].status is Pending,
    ensures
        match state.check_expiration(now, id) {
            Ok((next, gone)) => {
                &&& gone == (now > state.invoices[id].created_at
                    + state.settings.expiration_duration_secs)
                &&& gone ==> next.invoices[id].status is Expired
                &&& !gone ==> next == state
            },
            Err(_) => false,
        },
{
}

/// A cleanup removes no open invoice, and the same cleanup again removes nothing
/// and changes nothing.
pub proof fn cleanups_spare_open_invoices(
    state: InvoiceState,
    caller: Address,
    ids: Seq<u64>,
    id: u64,
)
    requires
        state.cleanup_expired_storage(caller, ids) is Ok,
    ensures
        ({
            let next = state.cleanup_expired_storage(caller, ids)->Ok_0.0;
            &&& state.invoices.dom().contains(id) && !state.invoices[id].status.is_terminal()
                ==> next.invoices.dom().contains(id) && next.invoices[id] == state.invoices[id]
            &&& state.is_closed(id) && ids.contains(id) ==> !next.invoices.dom().contains(id)
            &&& next.cleanup_expired_storage(caller, ids) == Ok::<
                (InvoiceState, u32),
                InvoiceFailure,
            >((next, 0))
        }),
{
    let next = state.cleanup_expired_storage(caller, ids)->Ok_0.0;
    let gone = state.closed_among(ids);
    if gone.len() == 0 {
        lemma_closed_among_is_finite(state, ids);
        assert(gone =~= Set::<u64>::empty());
        assert(state.invoices.remove_keys(gone) =~= state.invoices);
    }
    assert(next.invoices =~= state.invoices.remove_keys(gone));
    if state.is_closed(id) && ids.contains(id) {
        assert(ids.to_set().contains(id));
        assert(gone.contains(id));
    }
    assert(next.closed_among(ids) =~= Set::<u64>::empty()) by {
        assert forall|x: u64| !next.closed_among(ids).contains(x) by {
            if next.closed_among(ids).contains(x) {
                assert(state.is_closed(x));
                assert(gone.contains(x));
            }
        }
    }
}

proof fn lemma_closed_among_is_finite(state: InvoiceState, ids: Seq<u64>)
    ensures
        state.closed_among(ids).finite(),
{
    vstd::seq_lib::seq_to_set_is_finite(ids);
}

/// The entry of a closed invoice is kept at least as long as that of an open one.
pub proof fn closed_invoices_outlive_open_ones(state: InvoiceState, id: u64)
    requires
        state.valid(),
    ensures
        state.renew_closed(id).renewals.last().ledgers >= state.renew_open(
            id,
        ).renewals.last().ledgers,
        state.renew_open(id).renewals.last().ledgers == ACTIVE_INVOICE_TTL,
{
}

/// Different invoices have different names and symbols.
pub proof fn names_tell_invoices_apart(
    state: InvoiceState,
    a: Invoice<Seq<u8>>,
    b: Invoice<Seq<u8>>,
)
    requires
        a.id != b.id,
    ensures
        state.metadata_of(a).name != state.metadata_of(b).name,
        state.metadata_of(a).symbol != state.metadata_of(b).symbol,
{
    let da = crate::invoice::decimal::digits(a.id as nat);
    let db = crate::invoice::decimal::digits(b.id as nat);
    crate::invoice::decimal::numeral_denotes_its_number(a.id as nat);
    crate::invoice::decimal::numeral_denotes_its_number(b.id as nat);
    assert(da != db);
    let name = crate::invoice::views::name_prefix();
    let symbol = crate::invoice::views::symbol_prefix();
    if name + da == name + db {
        assert((name + da).skip(name.len() as int) =~= da);
        assert((name + db).skip(name.len() as int) =~= db);
    }
    if symbol + da == symbol + db {
        assert((symbol + da).skip(symbol.len() as int) =~= da);
        assert((symbol + db).skip(symbol.len() as int) =~= db);
    }
}

/// A dispute over a default that is decided in favor of the debtor leaves the
/// invoice a funded one that is not due yet; one that is decided in favor of the
/// owner leaves the default as it was. It is decided once.
pub proof fn disputes_end_in_funding_or_default(
    state: InvoiceState,
    now: u64,
    id: u64,
    admin: Address,
    outcome: DisputeResolution,
)
    requires
        state.resolve_default_dispute(now, id, admin, outcome) is Ok,
    ensures
        ({
            let next = state.resolve_default_dispute(now, id, admin, outcome)->Ok_0;
            &&& outcome is InFavorOfDebtor ==> next.invoices[id].status is Funded
                && next.invoices[id].due_date >= now
            &&& outcome is InFavorOfSME ==> next.invoices[id].status is Defaulted
                && next.invoices[id].due_date == state.invoices[id].due_date
            &&& next.disputes[id].outcome == outcome
            &&& next.disputes[id].resolved_at == now
            &&& next.resolve_default_dispute(now, id, admin, outcome) is Err
        }),
{
}

/// An invoice that was created is on record as it was asked for, the last among
/// those of its owner, and no other invoice changes. It waits for the oracles if
/// there are any, and for its funding if not.
pub proof fn new_invoices_are_on_record(
    state: InvoiceState,
    now: u64,
    request: InvoiceRequest<Seq<u8>>,
    clearance: Clearance,
)
    requires
        state.create_invoice_with_metadata(now, request, clearance) is Ok,
    ensures
        ({
            let (next, id) = state.create_invoice_with_metadata(now, request, clearance)->Ok_0;
            let invoice = next.invoices[id];
            &&& next.invoices == state.invoices.insert(id, invoice)
            &&& invoice.id == id
            &&& invoice.owner == request.owner
            &&& invoice.debtor == request.debtor
            &&& invoice.amount == request.amount
            &&& invoice.due_date == request.due_date
            &&& invoice.original_due_date == request.due_date
            &&& invoice.description == request.description
            &&& invoice.verification_hash == request.verification_hash
            &&& invoice.metadata_uri == request.metadata_uri
            &&& invoice.created_at == now
            &&& invoice.funded_amount == 0
            &&& state.settings.oracle is Some ==> invoice.status is AwaitingVerification
            &&& state.settings.oracle is None ==> invoice.status is Pending
            &&& next.owned(request.owner) == state.owned(request.owner).push(id)
        }),
{
}

/// Oracles that do not answer cannot hold an invoice for ever: once 72 hours have
/// passed since its creation, its owner and the administrator can end the wait.
pub proof fn verification_ends(state: InvoiceState, now: u64, caller: Address, id: u64)
    requires
        state.valid(),
        !state.settings.paused,
        state.invoices.dom().contains(id),
        state.invoices[id].status is AwaitingVerification,
        caller == state.invoices[id].owner || state.settings.admin == Some(caller),
        now >= state.invoices[id].created_at + VERIFICATION_TIMEOUT_SECS,
    ensures
        state.timeout_verification(now, caller, id) is Ok,
        state.timeout_verification(now, caller, id)->Ok_0.invoices[id].status is Cancelled,
{
}

} // verus!
