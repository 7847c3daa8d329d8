//! What the several kinds of requests to the invoice ledger leave alone.

use vstd::prelude::*;
use crate::invoice::error::InvoiceFailure;
use crate::invoice::requests::{
    AdminChangeRequest, KeeperRequest, LimitRequest, OracleRequest, Outcome, PausingRequest,
    Request, RequirementRequest, UpgradeRequest, WarningRequest, WindowRequest,
};
use crate::invoice::state::InvoiceState;

verus! {

/// Whether a request succeeded and left `next` behind it.
pub open spec fn leads_to(outcome: Outcome, next: InvoiceState) -> bool {
    outcome == Ok::<InvoiceState, InvoiceFailure>(next)
}

/// Whether two states have the same books: the same debtors, invoices and what
/// is kept beside them.
pub open spec fn same_books(state: InvoiceState, next: InvoiceState) -> bool {
    &&& next.debtor_ids == state.debtor_ids
    &&& next.debtors == state.debtors
    &&& next.invoice_count == state.invoice_count
    &&& next.stats == state.stats
    &&& next.invoices == state.invoices
    &&& next.disputes == state.disputes
    &&& next.private == state.private
    &&& next.funding == state.funding
    &&& next.sme_outstanding == state.sme_outstanding
    &&& next.sme_invoices == state.sme_invoices
    &&& next.timestamps == state.timestamps
    &&& next.renewals == state.renewals
}

/// Whether a request concerns the rules and the parties alone.
pub open spec fn is_plain(request: Request) -> bool {
    ||| request is Limit
    ||| request is Window
    ||| request is Requirement
    ||| request is Oracle
    ||| request is Pausing
    ||| request is Keeper
    ||| request is Upgrade
    ||| request is AdminChange
    ||| request is Warning
}

proof fn lemma_limit(state: InvoiceState, request: LimitRequest, next: InvoiceState)
    requires
        leads_to(state.apply_limit(request), next),
    ensures
        same_books(state, next),
{
    reveal(InvoiceState::apply_limit);
}

proof fn lemma_window(state: InvoiceState, request: WindowRequest, next: InvoiceState)
    requires
        leads_to(state.apply_window(request), next),
    ensures
        same_books(state, next),
{
    reveal(InvoiceState::apply_window);
}

proof fn lemma_requirement(state: InvoiceState, request: RequirementRequest, next: InvoiceState)
    requires
        leads_to(state.apply_requirement(request), next),
    ensures
        same_books(state, next),
{
    reveal(InvoiceState::apply_requirement);
}

proof fn lemma_oracle(state: InvoiceState, request: OracleRequest, next: InvoiceState)
    requires
        leads_to(state.apply_oracle(request), next),
    ensures
        same_books(state, next),
{
    reveal(InvoiceState::apply_oracle);
}

proof fn lemma_pausing(state: InvoiceState, request: PausingRequest, next: InvoiceState)
    requires
        leads_to(state.apply_pausing(request), next),
    ensures
        same_books(state, next),
{
    reveal(InvoiceState::apply_pausing);
}

proof fn lemma_keeper(state: InvoiceState, request: KeeperRequest, next: InvoiceState)
    requires
        leads_to(state.apply_keeper(request), next),
    ensures
        same_books(state, next),
{
    reveal(InvoiceState::apply_keeper);
}

proof fn lemma_upgrade(state: InvoiceState, request: UpgradeRequest, next: InvoiceState)
    requires
        leads_to(state.apply_upgrade(request), next),
    ensures
        same_books(state, next),
{
    reveal(InvoiceState::apply_upgrade);
}

proof fn lemma_admin_change(state: InvoiceState, request: AdminChangeRequest, next: InvoiceState)
    requires
        leads_to(state.apply_admin_change(request), next),
    ensures
        same_books(state, next),
{
    reveal(InvoiceState::apply_admin_change);
}

proof fn lemma_warning(state: InvoiceState, request: WarningRequest, next: InvoiceState)
    requires
        leads_to(state.apply_warning(request), next),
    ensures
        same_books(state, next),
        next.settings == state.settings,
{
    reveal(InvoiceState::apply_warning);
}

/// Requests that concern the rules and the parties leave the books alone.
pub proof fn rules_leave_the_books_alone(state: InvoiceState, request: Request, next: InvoiceState)
    requires
        leads_to(state.apply(request), next),
        is_plain(request),
    ensures
        same_books(state, next),
{
    match request {
        Request::Limit(r) => lemma_limit(state, r, next),
        Request::Window(r) => lemma_window(state, r, next),
        Request::Requirement(r) => lemma_requirement(state, r, next),
        Request::Oracle(r) => lemma_oracle(state, r, next),
        Request::Pausing(r) => lemma_pausing(state, r, next),
        Request::Keeper(r) => lemma_keeper(state, r, next),
        Request::Upgrade(r) => lemma_upgrade(state, r, next),
        Request::AdminChange(r) => lemma_admin_change(state, r, next),
        Request::Warning(r) => lemma_warning(state, r, next),
        _ => {},
    }
}

} // verus!
