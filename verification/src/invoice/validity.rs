//! What holds of every state that the invoice ledger can be in.

use vstd::prelude::*;
use crate::address::Address;
use crate::invoice::constants::{
    ACTIVE_INVOICE_TTL, MAX_DAILY_INVOICE_LIMIT, MAX_EXPIRATION_DURATION_SECS,
    MAX_GRACE_PERIOD_OVERRIDE_DAYS, MIN_UPGRADE_TIMELOCK_SECS, VERIFICATION_TIMEOUT_SECS,
};
use crate::invoice::requests::{
    AdminChangeRequest, ClosingRequest, CreationRequest, DebtorRequest, DisputeRequest,
    ExceptionRequest, ExtensionRequest, FundingRequest, KeeperRequest, LimitRequest, OracleRequest,
    PausingRequest, Request, RequirementRequest, SetupRequest, UpgradeRequest, VerificationRequest,
    WarningRequest, WindowRequest,
};
use crate::invoice::state::{InvoiceState, Settings};
use crate::invoice::types::Invoice;
use crate::invoice::version::ContractVersion;

verus! {

impl Settings {
    /// Whether the rules are within their bounds and fit together.
    pub open spec fn valid(self) -> bool {
        &&& self.initialized == (self.admin is Some)
        &&& self.admin is None ==> self.pool is None && self.access_control is None
        &&& self.completed_ttl >= ACTIVE_INVOICE_TTL
        &&& self.grace_period_days <= MAX_GRACE_PERIOD_OVERRIDE_DAYS
        &&& 0 < self.expiration_duration_secs <= MAX_EXPIRATION_DURATION_SECS
        &&& 0 < self.daily_limit <= MAX_DAILY_INVOICE_LIMIT
        &&& self.upgrade_timelock >= MIN_UPGRADE_TIMELOCK_SECS
        &&& self.max_outstanding_per_sme > 0
        &&& self.max_invoice_amount is Some ==> self.max_invoice_amount->0 > 0
        &&& self.pending_admin is Some == (self.admin_change_scheduled_at is Some)
    }
}

/// Whether an invoice can stand under the number `id`.
pub open spec fn valid_invoice(id: u64, invoice: Invoice<Seq<u8>>) -> bool {
    &&& invoice.id == id
    &&& invoice.amount > 0
    &&& invoice.status is Verified ==> invoice.oracle_verified
    &&& invoice.verification_deadline == invoice.created_at + VERIFICATION_TIMEOUT_SECS
    &&& invoice.original_due_date > invoice.created_at
    &&& invoice.grace_period_override is Some ==> invoice.grace_period_override->0
        <= MAX_GRACE_PERIOD_OVERRIDE_DAYS
    &&& invoice.pending_due_date is Some ==> invoice.pending_due_date->0
        <= crate::invoice::extension::latest_due_date(invoice)
    &&& crate::invoice::rules::text_error(
        invoice.debtor,
        invoice.description,
        invoice.verification_hash,
    ) is None
    &&& invoice.metadata_uri is Some ==> crate::invoice::rules::valid_metadata_uri(
        invoice.metadata_uri->0,
    )
}

impl InvoiceState {
    /// Whether the proposal of an upgrade is complete and names code that exists.
    pub open spec fn valid_upgrade(self) -> bool {
        &&& self.proposed_wasm is Some == (self.settings.upgrade_scheduled_at is Some)
        &&& self.proposed_wasm is Some ==> !InvoiceState::is_zero_hash(self.proposed_wasm->0)
    }

    /// Whether every registered debtor is listed once, under its own name.
    pub open spec fn valid_debtors(self) -> bool {
        &&& self.debtor_ids.no_duplicates()
        &&& forall|d: Seq<u8>| #[trigger]
            self.debtor_ids.contains(d) <==> self.debtors.dom().contains(d)
        &&& forall|d: Seq<u8>| #[trigger]
            self.debtors.dom().contains(d) ==> self.debtors[d].debtor_id == d
                && self.debtors[d].max_exposure > 0
    }

    /// Whether invoices carry the numbers from 1 up to the count and are in order.
    pub open spec fn valid_invoices(self) -> bool {
        &&& self.stats.total_invoices == self.invoice_count
        &&& forall|id: u64| #[trigger]
            self.invoices.dom().contains(id) ==> 1 <= id <= self.invoice_count && valid_invoice(
                id,
                self.invoices[id],
            )
    }

    /// Whether what is kept beside invoices belongs to invoices that were
    /// created, and no invoice was funded beyond its amount piece by piece.
    pub open spec fn valid_companions(self) -> bool {
        &&& forall|id: u64| #[trigger]
            self.funding.dom().contains(id) ==> 1 <= id <= self.invoice_count
        &&& forall|id: u64| #[trigger]
            self.disputes.dom().contains(id) ==> 1 <= id <= self.invoice_count
        &&& forall|id: u64| #[trigger]
            self.private.dom().contains(id) ==> 1 <= id <= self.invoice_count
        &&& forall|id: u64| #[trigger]
            self.funding.dom().contains(id) && self.invoices.dom().contains(id)
                ==> self.funding[id] <= self.invoices[id].amount
    }

    /// Whether the index of owners lists every invoice that is neither cancelled
    /// nor expired, and nothing twice or under a wrong owner.
    pub open spec fn valid_index(self) -> bool {
        &&& forall|owner: Address| #[trigger]
            self.sme_invoices.dom().contains(owner) ==> self.sme_invoices[owner].len() > 0
        &&& forall|owner: Address| (#[trigger] self.owned(owner)).no_duplicates()
        &&& forall|owner: Address, id: u64| #[trigger]
            self.owned(owner).contains(id) ==> 1 <= id <= self.invoice_count && (
            self.invoices.dom().contains(id) ==> self.invoices[id].owner == owner)
        &&& forall|id: u64| #[trigger]
            self.invoices.dom().contains(id) && !(self.invoices[id].status is Cancelled)
                && !(self.invoices[id].status is Expired) ==> self.owned(
                self.invoices[id].owner,
            ).contains(id)
    }

    /// What holds of every state that the ledger can be in.
    pub open spec fn valid(self) -> bool {
        &&& self.settings.valid()
        &&& self.settings.admin is None ==> self.invoice_count == 0 && self.debtor_ids.len() == 0
        &&& self.keepers.no_duplicates()
        &&& self.valid_upgrade()
        &&& self.valid_debtors()
        &&& self.valid_invoices()
        &&& self.valid_companions()
        &&& self.valid_index()
    }
}

/// A ledger that nobody has set up is in order.
pub proof fn blank_is_valid(me: Address, release: ContractVersion)
    ensures
        InvoiceState::blank(me, release).valid(),
{
}

/// Whether the parties fit together behind a request.
spec fn valid_parties(state: InvoiceState, next: InvoiceState) -> bool {
    &&& next.settings.valid()
    &&& next.settings.admin is None ==> state.settings.admin is None
    &&& next.keepers.no_duplicates()
    &&& next.valid_upgrade()
}

proof fn lemma_same_books(state: InvoiceState, next: InvoiceState)
    requires
        state.valid(),
        crate::invoice::frames::same_books(state, next),
        valid_parties(state, next),
    ensures
        next.valid(),
{
    assert(forall|o: Address| next.owned(o) == state.owned(o));
}

proof fn lemma_limit(state: InvoiceState, request: LimitRequest, next: InvoiceState)
    requires
        state.valid(),
        crate::invoice::frames::leads_to(state.apply_limit(request), next),
    ensures
        valid_parties(state, next),
{
    reveal(InvoiceState::apply_limit);
}

proof fn lemma_window(state: InvoiceState, request: WindowRequest, next: InvoiceState)
    requires
        state.valid(),
        crate::invoice::frames::leads_to(state.apply_window(request), next),
    ensures
        valid_parties(state, next),
{
    reveal(InvoiceState::apply_window);
}

proof fn lemma_requirement(state: InvoiceState, request: RequirementRequest, next: InvoiceState)
    requires
        state.valid(),
        crate::invoice::frames::leads_to(state.apply_requirement(request), next),
    ensures
        valid_parties(state, next),
{
    reveal(InvoiceState::apply_requirement);
}

proof fn lemma_oracle(state: InvoiceState, request: OracleRequest, next: InvoiceState)
    requires
        state.valid(),
        crate::invoice::frames::leads_to(state.apply_oracle(request), next),
    ensures
        valid_parties(state, next),
{
    reveal(InvoiceState::apply_oracle);
}

proof fn lemma_pausing(state: InvoiceState, request: PausingRequest, next: InvoiceState)
    requires
        state.valid(),
        crate::invoice::frames::leads_to(state.apply_pausing(request), next),
    ensures
        valid_parties(state, next),
{
    reveal(InvoiceState::apply_pausing);
}

proof fn lemma_warning(state: InvoiceState, request: WarningRequest, next: InvoiceState)
    requires
        state.valid(),
        crate::invoice::frames::leads_to(state.apply_warning(request), next),
    ensures
        valid_parties(state, next),
{
    reveal(InvoiceState::apply_warning);
}

proof fn lemma_upgrade(state: InvoiceState, request: UpgradeRequest, next: InvoiceState)
    requires
        state.valid(),
        crate::invoice::frames::leads_to(state.apply_upgrade(request), next),
    ensures
        valid_parties(state, next),
{
    reveal(InvoiceState::apply_upgrade);
}

proof fn lemma_admin_change(state: InvoiceState, request: AdminChangeRequest, next: InvoiceState)
    requires
        state.valid(),
        crate::invoice::frames::leads_to(state.apply_admin_change(request), next),
    ensures
        valid_parties(state, next),
{
    reveal(InvoiceState::apply_admin_change);
}

proof fn lemma_keeper(state: InvoiceState, request: KeeperRequest, next: InvoiceState)
    requires
        state.valid(),
        crate::invoice::frames::leads_to(state.apply_keeper(request), next),
    ensures
        valid_parties(state, next),
{
    reveal(InvoiceState::apply_keeper);
    if let KeeperRequest::RemoveKeeper { keeper, .. } = request {
        crate::collections::taking_an_item_away(state.keepers, keeper);
    }
}

proof fn lemma_setup(state: InvoiceState, request: SetupRequest, next: InvoiceState)
    requires
        state.valid(),
        crate::invoice::frames::leads_to(state.apply_setup(request), next),
    ensures
        next.valid(),
{
    reveal(InvoiceState::apply_setup);
    assert(next.debtor_ids =~= state.debtor_ids);
    assert(forall|o: Address| next.owned(o) == state.owned(o));
}

proof fn lemma_exception(state: InvoiceState, request: ExceptionRequest, next: InvoiceState)
    requires
        state.valid(),
        crate::invoice::frames::leads_to(state.apply_exception(request), next),
    ensures
        next.valid(),
{
    reveal(InvoiceState::apply_exception);
    assert(forall|o: Address| next.owned(o) == state.owned(o));
}

proof fn lemma_debtor(state: InvoiceState, request: DebtorRequest, next: InvoiceState)
    requires
        state.valid(),
        crate::invoice::frames::leads_to(state.apply_debtor(request), next),
    ensures
        next.valid(),
{
    reveal(InvoiceState::apply_debtor);
    assert(forall|o: Address| next.owned(o) == state.owned(o));
    let debtor_id = match request {
        DebtorRequest::RegisterDebtor { debtor_id, .. } => debtor_id,
        DebtorRequest::RegisterDebtorViaAc { debtor_id, .. } => debtor_id,
        DebtorRequest::DeactivateDebtor { debtor_id, .. } => debtor_id,
        DebtorRequest::DeactivateDebtorViaAc { debtor_id, .. } => debtor_id,
    };
    if next.debtor_ids != state.debtor_ids {
        let list = state.debtor_ids.push(debtor_id);
        assert(next.debtor_ids == list);
        assert forall|d: Seq<u8>| #[trigger] list.contains(d) <==> state.debtor_ids.contains(d) || d
            == debtor_id by {
            if state.debtor_ids.contains(d) {
                let i = choose|i: int|
                    0 <= i < state.debtor_ids.len() && state.debtor_ids[i] == d;
                assert(list[i] == d);
            }
            if d == debtor_id {
                assert(list[list.len() - 1] == d);
            }
        }
    }
}

proof fn lemma_less_exposure(state: InvoiceState, debtor: Seq<u8>, amount: i128)
    requires
        state.valid_debtors(),
    ensures
        state.less_exposure(debtor, amount).valid_debtors(),
{
}

/// What owners have when an invoice is taken out of the index.
pub proof fn index_without_an_invoice(state: InvoiceState, owner: Address, id: u64)
    requires
        state.valid_index(),
    ensures
        ({
            let next = state.without_owned(owner, id);
            &&& next.owned(owner) == crate::collections::without_item(state.owned(owner), id)
            &&& forall|o: Address| o != owner ==> #[trigger] next.owned(o) == state.owned(o)
            &&& forall|o: Address| #[trigger]
                next.sme_invoices.dom().contains(o) ==> next.sme_invoices[o].len() > 0
            &&& forall|o: Address| (#[trigger] next.owned(o)).no_duplicates()
            &&& forall|o: Address, x: u64| #[trigger]
                next.owned(o).contains(x) <==> state.owned(o).contains(x) && !(o == owner && x
                    == id)
        }),
{
    let next = state.without_owned(owner, id);
    let rest = crate::collections::without_item(state.owned(owner), id);
    crate::collections::taking_an_item_away(state.owned(owner), id);
    if rest.len() == 0 {
        assert(next.owned(owner) =~= rest);
    }
    assert forall|o: Address| (#[trigger] next.owned(o)).no_duplicates() by {
        if o != owner {
            assert(next.owned(o) == state.owned(o));
        }
    }
    assert forall|o: Address, x: u64| #[trigger] next.owned(o).contains(x) <==> state.owned(
        o,
    ).contains(x) && !(o == owner && x == id) by {
        if o != owner {
            assert(next.owned(o) == state.owned(o));
        } else {
            assert(rest.contains(x) <==> state.owned(owner).contains(x) && x != id);
        }
    }
}

/// Whether nothing changes but one invoice, its index and what is kept beside it.
spec fn only_invoice_changes(state: InvoiceState, next: InvoiceState, id: u64) -> bool {
    &&& next.settings == state.settings
    &&& next.keepers == state.keepers
    &&& next.proposed_wasm == state.proposed_wasm
    &&& next.debtor_ids == state.debtor_ids
    &&& next.valid_debtors()
    &&& next.invoice_count == state.invoice_count
    &&& next.stats.total_invoices == state.stats.total_invoices
    &&& state.invoices.dom().contains(id)
    &&& next.invoices == state.invoices.insert(id, next.invoices[id])
    &&& valid_invoice(id, next.invoices[id])
    &&& next.invoices[id].owner == state.invoices[id].owner
    &&& next.invoices[id].amount == state.invoices[id].amount
    &&& next.funding == state.funding
    &&& next.private == state.private
    &&& forall|x: u64| #[trigger]
        next.disputes.dom().contains(x) ==> x == id || state.disputes.dom().contains(x)
}

proof fn lemma_kept_invoice(state: InvoiceState, next: InvoiceState, id: u64)
    requires
        state.valid(),
        only_invoice_changes(state, next, id),
        next.sme_invoices == state.sme_invoices,
        !(state.invoices[id].status is Cancelled),
        !(state.invoices[id].status is Expired),
    ensures
        next.valid(),
{
    assert(forall|o: Address| next.owned(o) == state.owned(o));
    assert(state.owned(state.invoices[id].owner).contains(id));
}

proof fn lemma_dropped_invoice(state: InvoiceState, next: InvoiceState, id: u64)
    requires
        state.valid(),
        only_invoice_changes(state, next, id),
        next.sme_invoices == state.without_owned(state.invoices[id].owner, id).sme_invoices,
        next.invoices[id].status is Cancelled || next.invoices[id].status is Expired,
    ensures
        next.valid(),
{
    let owner = state.invoices[id].owner;
    let mid = state.without_owned(owner, id);
    index_without_an_invoice(state, owner, id);
    assert(forall|o: Address| next.owned(o) == mid.owned(o));
    assert forall|x: u64| #[trigger]
        next.invoices.dom().contains(x) && !(next.invoices[x].status is Cancelled) && !(
        next.invoices[x].status is Expired) implies next.owned(next.invoices[x].owner).contains(
        x,
    ) by {
        assert(x != id);
        assert(state.invoices.dom().contains(x));
        assert(mid.owned(state.invoices[x].owner).contains(x));
    }
    assert forall|o: Address, x: u64| #[trigger] next.owned(o).contains(x) implies 1 <= x
        <= next.invoice_count && (next.invoices.dom().contains(x) ==> next.invoices[x].owner
        == o) by {
        assert(mid.owned(o).contains(x));
        assert(state.owned(o).contains(x));
    }
}

proof fn lemma_verification(state: InvoiceState, request: VerificationRequest, next: InvoiceState)
    requires
        state.valid(),
        crate::invoice::frames::leads_to(state.apply_verification(request), next),
    ensures
        next.valid(),
{
    reveal(InvoiceState::apply_verification);
    match request {
        VerificationRequest::VerifyInvoice { id, .. } => {
            lemma_kept_invoice(state, next, id);
        },
        VerificationRequest::ConsensusVerify { id, .. } => {
            lemma_kept_invoice(state, next, id);
        },
        VerificationRequest::TimeoutVerification { id, .. } => {
            let invoice = state.invoices[id];
            lemma_less_exposure(
                state.without_owned(invoice.owner, id),
                invoice.debtor,
                invoice.amount,
            );
            lemma_dropped_invoice(state, next, id);
        },
        VerificationRequest::ResolveDispute { id, .. } => {
            let invoice = state.invoices[id];
            lemma_less_exposure(
                state.less_outstanding(invoice.owner, invoice.amount),
                invoice.debtor,
                invoice.amount,
            );
            lemma_kept_invoice(state, next, id);
        },
    }
}

proof fn lemma_funding(state: InvoiceState, request: FundingRequest, next: InvoiceState)
    requires
        state.valid(),
        crate::invoice::frames::leads_to(state.apply_funding(request), next),
    ensures
        next.valid(),
{
    reveal(InvoiceState::apply_funding);
    match request {
        FundingRequest::MarkFunded { id, .. } => {
            lemma_kept_invoice(state, next, id);
        },
        FundingRequest::RecordFunding { id, .. } => {
            lemma_kept_invoice(state, next, id);
        },
        FundingRequest::MarkPaid { id, .. } => {
            let invoice = state.invoices[id];
            lemma_less_exposure(
                state.less_outstanding(invoice.owner, invoice.amount),
                invoice.debtor,
                invoice.amount,
            );
            lemma_kept_invoice(state, next, id);
        },
        FundingRequest::AddFunding { id, .. } => {
            assert(forall|o: Address| next.owned(o) == state.owned(o));
        },
        FundingRequest::MarkDefaulted { id, .. } => {
            let invoice = state.invoices[id];
            lemma_less_exposure(
                state.less_outstanding(invoice.owner, invoice.amount),
                invoice.debtor,
                invoice.amount,
            );
            lemma_kept_invoice(state, next, id);
        },
    }
}

proof fn lemma_extension(state: InvoiceState, request: ExtensionRequest, next: InvoiceState)
    requires
        state.valid(),
        crate::invoice::frames::leads_to(state.apply_extension(request), next),
    ensures
        next.valid(),
{
    reveal(InvoiceState::apply_extension);
    match request {
        ExtensionRequest::RequestExtension { id, .. } => {
            lemma_kept_invoice(state, next, id);
        },
        ExtensionRequest::ApproveExtension { id, .. } => {
            lemma_kept_invoice(state, next, id);
        },
    }
}

proof fn lemma_dispute(state: InvoiceState, request: DisputeRequest, next: InvoiceState)
    requires
        state.valid(),
        crate::invoice::frames::leads_to(state.apply_dispute(request), next),
    ensures
        next.valid(),
{
    reveal(InvoiceState::apply_dispute);
    match request {
        DisputeRequest::RaiseDispute { id, .. } => {
            lemma_kept_invoice(state, next, id);
        },
        DisputeRequest::ResolveDefaultDispute { id, .. } => {
            lemma_kept_invoice(state, next, id);
        },
    }
}

/// Invoices that are taken away leave a ledger in order.
proof fn lemma_removed_invoices(state: InvoiceState, next: InvoiceState)
    requires
        state.valid(),
        next.settings == state.settings,
        next.keepers == state.keepers,
        next.proposed_wasm == state.proposed_wasm,
        next.debtor_ids == state.debtor_ids,
        next.debtors == state.debtors,
        next.invoice_count == state.invoice_count,
        next.stats.total_invoices == state.stats.total_invoices,
        next.funding == state.funding,
        next.private == state.private,
        next.disputes == state.disputes,
        next.sme_invoices == state.sme_invoices,
        forall|x: u64| #[trigger]
            next.invoices.dom().contains(x) ==> state.invoices.dom().contains(x)
                && next.invoices[x] == state.invoices[x],
    ensures
        next.valid(),
{
    assert(forall|o: Address| next.owned(o) == state.owned(o));
    assert forall|x: u64| #[trigger]
        next.invoices.dom().contains(x) && !(next.invoices[x].status is Cancelled) && !(
        next.invoices[x].status is Expired) implies next.owned(next.invoices[x].owner).contains(
        x,
    ) by {
        assert(state.invoices.dom().contains(x));
    }
}

proof fn lemma_expired(state: InvoiceState, now: u64, id: u64)
    requires
        state.valid(),
        state.invoices.dom().contains(id),
        state.is_stale(state.invoices[id], now),
    ensures
        state.expired(id).valid(),
{
    let invoice = state.invoices[id];
    lemma_less_exposure(state.without_owned(invoice.owner, id), invoice.debtor, invoice.amount);
    lemma_dropped_invoice(state, state.expired(id), id);
}

proof fn lemma_expire_each(state: InvoiceState, now: u64, ids: Seq<u64>)
    requires
        state.valid(),
        state.expire_each(now, ids) is Ok,
    ensures
        state.expire_each(now, ids)->Ok_0.0.valid(),
    decreases ids.len(),
{
    if ids.len() > 0 {
        lemma_expire_each(state, now, ids.drop_last());
        let mid = state.expire_each(now, ids.drop_last())->Ok_0.0;
        if mid.is_stale(mid.invoices[ids.last()], now) {
            lemma_expired(mid, now, ids.last());
        }
    }
}

proof fn lemma_closing(state: InvoiceState, request: ClosingRequest, next: InvoiceState)
    requires
        state.valid(),
        crate::invoice::frames::leads_to(state.apply_closing(request), next),
    ensures
        next.valid(),
{
    reveal(InvoiceState::apply_closing);
    match request {
        ClosingRequest::CancelInvoice { id, .. } => {
            let invoice = state.invoices[id];
            lemma_less_exposure(
                state.without_owned(invoice.owner, id).less_outstanding(
                    invoice.owner,
                    invoice.amount,
                ),
                invoice.debtor,
                invoice.amount,
            );
            lemma_dropped_invoice(state, next, id);
        },
        ClosingRequest::CheckExpiration { now, id } => {
            if state.is_stale(state.invoices[id], now) {
                lemma_expired(state, now, id);
            }
        },
        ClosingRequest::BatchCheckExpiration { now, ids } => {
            lemma_expire_each(state, now, ids);
        },
        ClosingRequest::CleanupInvoice { .. } => {
            lemma_removed_invoices(state, next);
        },
        ClosingRequest::CleanupExpiredStorage { .. } => {
            lemma_removed_invoices(state, next);
        },
    }
}

/// A new invoice leaves a ledger in order.
pub proof fn created_ledger_is_valid(
    state: InvoiceState,
    now: u64,
    request: crate::invoice::creation::InvoiceRequest<Seq<u8>>,
    clearance: crate::invoice::types::Clearance,
)
    requires
        state.valid(),
        state.creation_refusal(now, request, clearance) is None,
    ensures
        state.with_new_invoice(now, request).valid(),
{
    let next = state.with_new_invoice(now, request);
    let id = (state.invoice_count + 1) as u64;
    let owner = request.owner;
    let list = state.owned(owner).push(id);
    assert(next.owned(owner) == list);
    assert forall|o: Address| o != owner implies #[trigger] next.owned(o) == state.owned(o) by {}
    assert forall|x: u64| #[trigger] list.contains(x) <==> state.owned(owner).contains(x) || x
        == id by {
        if state.owned(owner).contains(x) {
            let i = choose|i: int|
                0 <= i < state.owned(owner).len() && state.owned(owner)[i] == x;
            assert(list[i] == x);
        }
        if x == id {
            assert(list[list.len() - 1] == x);
        }
    }
    assert(!state.owned(owner).contains(id));
    assert(list.no_duplicates()) by {
        assert forall|i: int, j: int| 0 <= i < list.len() && 0 <= j < list.len() && i
            != j implies list[i] != list[j] by {
            let n = state.owned(owner).len() as int;
            if i == n {
                assert(state.owned(owner).contains(state.owned(owner)[j]));
            } else if j == n {
                assert(state.owned(owner).contains(state.owned(owner)[i]));
            }
        }
    }
    assert(next.valid_index()) by {
        assert forall|o: Address| (#[trigger] next.owned(o)).no_duplicates() by {
            if o != owner {
                assert(next.owned(o) == state.owned(o));
            }
        }
        assert forall|o: Address, x: u64| #[trigger] next.owned(o).contains(x) implies 1 <= x
            <= next.invoice_count && (next.invoices.dom().contains(x) ==> next.invoices[x].owner
            == o) by {
            if o != owner {
                assert(next.owned(o) == state.owned(o));
            }
            if x != id {
                assert(state.owned(o).contains(x));
            }
        }
        assert forall|x: u64| #[trigger]
            next.invoices.dom().contains(x) && !(next.invoices[x].status is Cancelled) && !(
            next.invoices[x].status is Expired) implies next.owned(next.invoices[x].owner).contains(
            x,
        ) by {
            if x != id {
                assert(state.invoices.dom().contains(x));
                assert(state.owned(state.invoices[x].owner).contains(x));
                if state.invoices[x].owner != owner {
                    assert(next.owned(state.invoices[x].owner) == state.owned(
                        state.invoices[x].owner,
                    ));
                }
            }
        }
    }
    assert(next.valid_invoices());
    assert(next.valid_companions());
    assert(next.valid_debtors());
}

proof fn lemma_creation(state: InvoiceState, request: CreationRequest, next: InvoiceState)
    requires
        state.valid(),
        crate::invoice::frames::leads_to(state.apply_creation(request), next),
    ensures
        next.valid(),
{
    reveal(InvoiceState::apply_creation);
    match request {
        CreationRequest::CreateInvoiceWithMetadata { now, request, clearance } => {
            created_ledger_is_valid(state, now, request, clearance);
        },
        CreationRequest::CreateInvoice { now, request, clearance } => {
            created_ledger_is_valid(state, now, request, clearance);
        },
    }
}

/// Every request leaves a ledger in order that it found in order.
pub proof fn requests_keep_the_ledger_valid(
    state: InvoiceState,
    request: Request,
    next: InvoiceState,
)
    requires
        state.valid(),
        crate::invoice::frames::leads_to(state.apply(request), next),
    ensures
        next.valid(),
{
    if crate::invoice::frames::is_plain(request) {
        crate::invoice::frames::rules_leave_the_books_alone(state, request, next);
        match request {
            Request::Limit(r) => lemma_limit(state, r, next),
            Request::Window(r) => lemma_window(state, r, next),
            Request::Requirement(r) => lemma_requirement(state, r, next),
            Request::Oracle(r) => lemma_oracle(state, r, next),
            Request::Pausing(r) => lemma_pausing(state, r, next),
            Request::Keeper(r) => lemma_keeper(state, r, next),
            Request::Upgrade(r) => lemma_upgrade(state, r, next),
            Request::AdminChange(r) => lemma_admin_change(state, r, next),
            Request::Warning(r) => lemma_warning(state, r, next),
            _ => {},
        }
        lemma_same_books(state, next);
    } else {
        match request {
            Request::Setup(r) => lemma_setup(state, r, next),
            Request::Exception(r) => lemma_exception(state, r, next),
            Request::Debtor(r) => lemma_debtor(state, r, next),
            Request::Creation(r) => lemma_creation(state, r, next),
            Request::Verification(r) => lemma_verification(state, r, next),
            Request::Funding(r) => lemma_funding(state, r, next),
            Request::Extension(r) => lemma_extension(state, r, next),
            Request::Dispute(r) => lemma_dispute(state, r, next),
            Request::Closing(r) => lemma_closing(state, r, next),
            _ => {},
        }
    }
}

} // verus!
