//! What holds of the invoice ledger whatever is asked of it.

use vstd::prelude::*;
use crate::invoice::requests::{
    ClosingRequest, CreationRequest, DebtorRequest, DisputeRequest, ExceptionRequest,
    ExtensionRequest, FundingRequest, Request, SetupRequest, VerificationRequest,
};
use crate::invoice::state::InvoiceState;
use crate::invoice::types::{Invoice, InvoiceStatus};

verus! {

/// Whether an invoice of one status can get the other in one step.
pub open spec fn can_become(from: InvoiceStatus, to: InvoiceStatus) -> bool {
    ||| from == to
    ||| match from {
        InvoiceStatus::Pending => to is Funded || to is Cancelled || to is Expired,
        InvoiceStatus::AwaitingVerification => to is Verified || to is Disputed || to is Cancelled,
        InvoiceStatus::Verified => to is Funded || to is Cancelled,
        InvoiceStatus::Disputed => to is Verified || to is Cancelled || to is Funded
            || to is Defaulted,
        InvoiceStatus::Funded => to is Paid || to is Defaulted,
        InvoiceStatus::Defaulted => to is Disputed,
        InvoiceStatus::Paid => false,
        InvoiceStatus::Cancelled => false,
        InvoiceStatus::Expired => false,
    }
}

/// How far a status lies on the way of an invoice.
pub open spec fn stage(status: InvoiceStatus) -> int {
    match status {
        InvoiceStatus::Pending => 0,
        InvoiceStatus::AwaitingVerification => 1,
        InvoiceStatus::Verified => 2,
        InvoiceStatus::Disputed => 2,
        InvoiceStatus::Funded => 3,
        InvoiceStatus::Paid => 4,
        InvoiceStatus::Defaulted => 4,
        InvoiceStatus::Cancelled => 4,
        InvoiceStatus::Expired => 4,
    }
}

/// Whether a change of an invoice goes one allowed step and leaves alone what
/// the invoice was created with.
pub open spec fn modest_change(before: Invoice<Seq<u8>>, after: Invoice<Seq<u8>>) -> bool {
    &&& can_become(before.status, after.status)
    &&& after.id == before.id
    &&& after.owner == before.owner
    &&& after.debtor == before.debtor
    &&& after.amount == before.amount
    &&& after.original_due_date == before.original_due_date
    &&& after.description == before.description
    &&& after.created_at == before.created_at
    &&& after.verification_hash == before.verification_hash
    &&& after.metadata_uri == before.metadata_uri
    &&& after.verification_deadline == before.verification_deadline
}

/// Whether an invoice that was there is there unchanged, has changed modestly
/// without being settled before, or was closed and is removed.
pub open spec fn orderly(state: InvoiceState, next: InvoiceState, id: u64) -> bool {
    if next.invoices.dom().contains(id) {
        let before = state.invoices[id];
        let after = next.invoices[id];
        after == before || (modest_change(before, after) && !(before.status is Paid) && !(
        before.status is Cancelled) && !(before.status is Expired))
    } else {
        state.invoices[id].status.is_terminal()
    }
}

/// Checking invoices for expiration leaves each invoice as it is or lets a
/// pending one expire whose time has run out.
pub proof fn expiring_is_all_that_a_check_does(
    state: InvoiceState,
    now: u64,
    ids: Seq<u64>,
    id: u64,
)
    requires
        state.expire_each(now, ids) is Ok,
        state.invoices.dom().contains(id),
    ensures
        ({
            let next = state.expire_each(now, ids)->Ok_0.0;
            let invoice = state.invoices[id];
            &&& next.invoices.dom() == state.invoices.dom()
            &&& next.settings == state.settings
            &&& next.keepers == state.keepers
            &&& next.invoices[id] == invoice || (state.is_stale(invoice, now)
                && next.invoices[id] == (Invoice { status: InvoiceStatus::Expired, ..invoice }))
        }),
    decreases ids.len(),
{
    state.lemma_expire_each(now, ids);
    if ids.len() > 0 {
        expiring_is_all_that_a_check_does(state, now, ids.drop_last(), id);
    }
}

proof fn lemma_setup_orderly(
    state: InvoiceState,
    request: SetupRequest,
    next: InvoiceState,
    id: u64,
)
    requires
        crate::invoice::frames::leads_to(state.apply_setup(request), next),
        state.invoices.dom().contains(id),
    ensures
        orderly(state, next, id),
{
    reveal(InvoiceState::apply_setup);
}

proof fn lemma_exception_orderly(
    state: InvoiceState,
    request: ExceptionRequest,
    next: InvoiceState,
    id: u64,
)
    requires
        crate::invoice::frames::leads_to(state.apply_exception(request), next),
        state.invoices.dom().contains(id),
    ensures
        orderly(state, next, id),
        next.invoices.dom().contains(id),
        next.invoices[id].status == state.invoices[id].status,
{
    reveal(InvoiceState::apply_exception);
}

proof fn lemma_debtor_orderly(
    state: InvoiceState,
    request: DebtorRequest,
    next: InvoiceState,
    id: u64,
)
    requires
        crate::invoice::frames::leads_to(state.apply_debtor(request), next),
        state.invoices.dom().contains(id),
    ensures
        next.invoices == state.invoices,
        next.settings == state.settings,
{
    reveal(InvoiceState::apply_debtor);
}

proof fn lemma_creation_orderly(
    state: InvoiceState,
    request: CreationRequest,
    next: InvoiceState,
    id: u64,
)
    requires
        crate::invoice::frames::leads_to(state.apply_creation(request), next),
        state.invoices.dom().contains(id),
    ensures
        next.invoices.dom().contains(id),
        next.invoices[id] == state.invoices[id],
        next.settings == state.settings,
{
    reveal(InvoiceState::apply_creation);
}

proof fn lemma_verification_orderly(
    state: InvoiceState,
    request: VerificationRequest,
    next: InvoiceState,
    id: u64,
)
    requires
        crate::invoice::frames::leads_to(state.apply_verification(request), next),
        state.invoices.dom().contains(id),
    ensures
        orderly(state, next, id),
        next.invoices.dom().contains(id),
        next.settings == state.settings,
        next.invoices[id].status is Funded ==> state.invoices[id].status is Funded,
        next.invoices[id].status is Paid ==> state.invoices[id].status is Paid,
        next.invoices[id].status is Defaulted ==> state.invoices[id].status is Defaulted,
{
    reveal(InvoiceState::apply_verification);
}

proof fn lemma_funding_orderly(
    state: InvoiceState,
    request: FundingRequest,
    next: InvoiceState,
    id: u64,
)
    requires
        crate::invoice::frames::leads_to(state.apply_funding(request), next),
        state.invoices.dom().contains(id),
    ensures
        orderly(state, next, id),
        next.invoices.dom().contains(id),
        next.settings == state.settings,
{
    reveal(InvoiceState::apply_funding);
}

proof fn lemma_extension_orderly(
    state: InvoiceState,
    request: ExtensionRequest,
    next: InvoiceState,
    id: u64,
)
    requires
        crate::invoice::frames::leads_to(state.apply_extension(request), next),
        state.invoices.dom().contains(id),
    ensures
        orderly(state, next, id),
        next.invoices.dom().contains(id),
        next.settings == state.settings,
        next.invoices[id].status == state.invoices[id].status,
{
    reveal(InvoiceState::apply_extension);
}

proof fn lemma_dispute_orderly(
    state: InvoiceState,
    request: DisputeRequest,
    next: InvoiceState,
    id: u64,
)
    requires
        crate::invoice::frames::leads_to(state.apply_dispute(request), next),
        state.invoices.dom().contains(id),
    ensures
        orderly(state, next, id),
        next.invoices.dom().contains(id),
        next.settings == state.settings,
        next.invoices[id].status is Paid ==> state.invoices[id].status is Paid,
        state.invoices[id].status is Defaulted && !(next.invoices[id].status is Defaulted)
            ==> request is RaiseDispute,
{
    reveal(InvoiceState::apply_dispute);
}

proof fn lemma_closing_orderly(
    state: InvoiceState,
    request: ClosingRequest,
    next: InvoiceState,
    id: u64,
)
    requires
        crate::invoice::frames::leads_to(state.apply_closing(request), next),
        state.invoices.dom().contains(id),
    ensures
        orderly(state, next, id),
        next.settings == state.settings,
        !next.invoices.dom().contains(id) ==> request is CleanupInvoice
            || request is CleanupExpiredStorage,
        next.invoices.dom().contains(id) ==> {
            &&& next.invoices[id].status is Funded ==> state.invoices[id].status is Funded
            &&& next.invoices[id].status is Paid ==> state.invoices[id].status is Paid
            &&& next.invoices[id].status is Defaulted ==> state.invoices[id].status is Defaulted
            &&& state.invoices[id].status is Defaulted ==> next.invoices[id].status is Defaulted
            &&& state.invoices[id].status is Funded ==> next.invoices[id].status is Funded
        },
{
    reveal(InvoiceState::apply_closing);
    if let ClosingRequest::BatchCheckExpiration { now, ids } = request {
        expiring_is_all_that_a_check_does(state, now, ids, id);
    }
}

/// The status of an invoice goes only the ways that [`can_become`] allows, what
/// an invoice was created with never changes, an invoice that is paid, cancelled
/// or expired never changes at all, and only closed invoices are removed.
pub proof fn invoices_change_in_order(
    state: InvoiceState,
    request: Request,
    next: InvoiceState,
    id: u64,
)
    requires
        crate::invoice::frames::leads_to(state.apply(request), next),
        state.invoices.dom().contains(id),
    ensures
        orderly(state, next, id),
{
    if crate::invoice::frames::is_plain(request) {
        crate::invoice::frames::rules_leave_the_books_alone(state, request, next);
    } else {
        match request {
            Request::Setup(r) => lemma_setup_orderly(state, r, next, id),
            Request::Exception(r) => lemma_exception_orderly(state, r, next, id),
            Request::Debtor(r) => lemma_debtor_orderly(state, r, next, id),
            Request::Creation(r) => lemma_creation_orderly(state, r, next, id),
            Request::Verification(r) => lemma_verification_orderly(state, r, next, id),
            Request::Funding(r) => lemma_funding_orderly(state, r, next, id),
            Request::Extension(r) => lemma_extension_orderly(state, r, next, id),
            Request::Dispute(r) => lemma_dispute_orderly(state, r, next, id),
            Request::Closing(r) => lemma_closing_orderly(state, r, next, id),
            _ => {},
        }
    }
}

/// Whether a request disputes a default.
pub open spec fn disputes_a_default(request: Request) -> bool {
    request matches Request::Dispute(r) && r is RaiseDispute
}

/// An invoice never goes back to an earlier stage, unless its owner disputes its
/// default.
pub proof fn stages_never_go_back(
    state: InvoiceState,
    request: Request,
    next: InvoiceState,
    id: u64,
)
    requires
        crate::invoice::frames::leads_to(state.apply(request), next),
        !disputes_a_default(request),
        state.invoices.dom().contains(id),
        next.invoices.dom().contains(id),
    ensures
        stage(state.invoices[id].status) <= stage(next.invoices[id].status),
{
    invoices_change_in_order(state, request, next, id);
    closed_invoices_stay_closed(state, request, next, id);
}

/// A closed invoice keeps its status until it is removed, unless it is in default
/// and its owner disputes that.
pub proof fn closed_invoices_stay_closed(
    state: InvoiceState,
    request: Request,
    next: InvoiceState,
    id: u64,
)
    requires
        crate::invoice::frames::leads_to(state.apply(request), next),
        !disputes_a_default(request),
        state.invoices.dom().contains(id),
        next.invoices.dom().contains(id),
    ensures
        state.invoices[id].status.is_terminal() ==> next.invoices[id].status
            == state.invoices[id].status,
{
    invoices_change_in_order(state, request, next, id);
    if state.invoices[id].status is Defaulted && next.invoices[id].status is Disputed {
        if crate::invoice::frames::is_plain(request) {
            crate::invoice::frames::rules_leave_the_books_alone(state, request, next);
        } else {
            match request {
                Request::Setup(r) => {
                    reveal(InvoiceState::apply_setup);
                },
                Request::Exception(r) => lemma_exception_orderly(state, r, next, id),
                Request::Debtor(r) => lemma_debtor_orderly(state, r, next, id),
                Request::Creation(r) => lemma_creation_orderly(state, r, next, id),
                Request::Verification(r) => {
                    reveal(InvoiceState::apply_verification);
                },
                Request::Funding(r) => {
                    reveal(InvoiceState::apply_funding);
                },
                Request::Extension(r) => lemma_extension_orderly(state, r, next, id),
                Request::Dispute(r) => lemma_dispute_orderly(state, r, next, id),
                Request::Closing(r) => lemma_closing_orderly(state, r, next, id),
                _ => {},
            }
        }
    }
}

/// From a funded invoice the next status is paid or in default, and nothing else.
pub proof fn funded_invoices_are_paid_or_default(
    state: InvoiceState,
    request: Request,
    next: InvoiceState,
    id: u64,
)
    requires
        crate::invoice::frames::leads_to(state.apply(request), next),
        state.invoices.dom().contains(id),
        state.invoices[id].status is Funded,
    ensures
        next.invoices.dom().contains(id),
        next.invoices[id].status is Funded || next.invoices[id].status is Paid
            || next.invoices[id].status is Defaulted,
{
    invoices_change_in_order(state, request, next, id);
}

} // verus!
