//! What the requests that concern invoices bring about, and when they succeed.

use vstd::prelude::*;
use crate::address::Address;
use crate::invoice::error::InvoiceFailure;
use crate::invoice::requests::{FundingRequest, Request};
use crate::invoice::state::InvoiceState;
use crate::invoice::types::{
    DebtorRecord, DisputeRecord, DisputeResolution, Invoice, InvoiceEvent, InvoiceStatus, Notice,
    Renewal, StorageStats,
};

verus! {

/// Whether a number can be held in 128 bits with a sign.
pub open spec fn fits(n: int) -> bool {
    i128::MIN <= n <= i128::MAX
}

/// A number less another, or the end of the range that the difference lies behind.
pub open spec fn reduced(a: int, b: int) -> int {
    if a - b < i128::MIN {
        i128::MIN as int
    } else if a - b > i128::MAX {
        i128::MAX as int
    } else {
        a - b
    }
}

/// A point in time that lies a span behind another, or the end of time.
pub open spec fn later(at: int, span: int) -> int {
    if at + span > u64::MAX {
        u64::MAX as int
    } else {
        at + span
    }
}

/// What an owner has on its account: 0 unless something was entered.
pub open spec fn owed_by(state: InvoiceState, owner: Address) -> int {
    if state.sme_outstanding.dom().contains(owner) {
        state.sme_outstanding[owner] as int
    } else {
        0
    }
}

/// The numbers that the index shows for an owner: none unless there is an entry.
pub open spec fn listed(state: InvoiceState, owner: Address) -> Seq<u64> {
    if state.sme_invoices.dom().contains(owner) {
        state.sme_invoices[owner]
    } else {
        Seq::empty()
    }
}

/// From when on an invoice can be in default: its due date and the days of grace
/// that it has of its own, or that all have, each of 86 400 seconds.
pub open spec fn in_default_from(state: InvoiceState, invoice: Invoice<Seq<u8>>) -> int {
    invoice.due_date + (match invoice.grace_period_override {
        Some(days) => days as int,
        None => state.settings.grace_period_days as int,
    }) * 86_400
}

/// Whether a pending invoice has waited for longer than the rules allow.
pub open spec fn waited_too_long(
    state: InvoiceState,
    invoice: Invoice<Seq<u8>>,
    now: u64,
) -> bool {
    invoice.status is Pending && now - invoice.created_at > state.settings.expiration_duration_secs
}

/// Whether the parties, the rules and what no invoice touches are the same.
pub open spec fn same_elsewhere(state: InvoiceState, next: InvoiceState) -> bool {
    &&& next.me == state.me
    &&& next.release == state.release
    &&& next.settings == state.settings
    &&& next.proposed_wasm == state.proposed_wasm
    &&& next.image_uri == state.image_uri
    &&& next.keepers == state.keepers
    &&& next.debtor_ids == state.debtor_ids
    &&& next.invoice_count == state.invoice_count
    &&& next.timestamps == state.timestamps
    &&& next.private == state.private
}

/// Whether no account, debtor, count or index entry has changed.
pub open spec fn same_accounts(state: InvoiceState, next: InvoiceState) -> bool {
    &&& next.sme_outstanding == state.sme_outstanding
    &&& next.debtors == state.debtors
    &&& next.stats == state.stats
    &&& next.sme_invoices == state.sme_invoices
}

/// Whether one invoice that exists may have changed and no other has.
pub open spec fn touched(state: InvoiceState, next: InvoiceState, id: u64) -> bool {
    &&& state.invoices.dom().contains(id)
    &&& next.invoices.dom() == state.invoices.dom()
    &&& forall|i: u64| i != id && #[trigger]
        state.invoices.dom().contains(i) ==> next.invoices[i] == state.invoices[i]
}

/// Whether an owner's account stands at `to` and every other account stands as
/// before.
pub open spec fn account_moved(
    state: InvoiceState,
    next: InvoiceState,
    owner: Address,
    to: int,
) -> bool {
    &&& owed_by(next, owner) == to
    &&& forall|o: Address| o != owner ==> #[trigger] owed_by(next, o) == owed_by(state, o)
}

/// Whether a debtor, if it is registered, owes less by an amount, and every other
/// debtor owes what it owed.
pub open spec fn exposure_fell(
    state: InvoiceState,
    next: InvoiceState,
    debtor: Seq<u8>,
    amount: int,
) -> bool {
    &&& next.debtors.dom() == state.debtors.dom()
    &&& state.debtors.dom().contains(debtor) ==> {
        let before = state.debtors[debtor];
        let after = next.debtors[debtor];
        &&& after.current_exposure == reduced(before.current_exposure as int, amount)
        &&& after == (DebtorRecord { current_exposure: after.current_exposure, ..before })
    }
    &&& forall|d: Seq<u8>| d != debtor && #[trigger]
        state.debtors.dom().contains(d) ==> next.debtors[d] == state.debtors[d]
}

/// Whether one invoice less counts as open.
pub open spec fn one_closed(before: StorageStats, after: StorageStats) -> bool {
    &&& before.active_invoices > 0 ==> after.active_invoices == before.active_invoices - 1
    &&& before.active_invoices == 0 ==> after.active_invoices == 0
    &&& after.total_invoices == before.total_invoices
    &&& after.cleaned_invoices == before.cleaned_invoices
}

/// Whether the entry of an invoice is kept on for the year of an open one.
pub open spec fn kept_on_open(state: InvoiceState, next: InvoiceState, id: u64) -> bool {
    next.renewals == state.renewals.push(Renewal { id, ledgers: 6_307_200 })
}

/// Whether the entry of an invoice is kept on for as long as a closed one is.
pub open spec fn kept_on_closed(state: InvoiceState, next: InvoiceState, id: u64) -> bool {
    next.renewals == state.renewals.push(Renewal { id, ledgers: state.settings.completed_ttl })
}

/// Whether a notice was given, and no other.
pub open spec fn told(state: InvoiceState, next: InvoiceState, notice: Notice) -> bool {
    next.events == state.events.push(InvoiceEvent::Notice(notice))
}

/// Whether the index of an owner has lost an invoice wherever it stood, and
/// nothing else has changed in the index.
pub open spec fn unlisted(
    state: InvoiceState,
    next: InvoiceState,
    owner: Address,
    id: u64,
) -> bool {
    &&& listed(next, owner) == listed(state, owner).filter(|i: u64| i != id)
    &&& !listed(next, owner).contains(id)
    &&& forall|i: u64| i != id ==> (#[trigger] listed(next, owner).contains(i) <==> listed(
        state,
        owner,
    ).contains(i))
    &&& forall|o: Address| o != owner ==> #[trigger] listed(next, o) == listed(state, o)
}

proof fn lemma_filtered(items: Seq<u64>, id: u64)
    ensures
        crate::collections::without_item(items, id) == items.filter(|i: u64| i != id),
    decreases items.len(),
{
    reveal(Seq::filter);
    if items.len() > 0 {
        lemma_filtered(items.drop_last(), id);
    }
}

proof fn lemma_unlisted(state: InvoiceState, owner: Address, id: u64)
    ensures
        unlisted(state, state.without_owned(owner, id), owner, id),
{
    let next = state.without_owned(owner, id);
    lemma_filtered(listed(state, owner), id);
    crate::collections::taking_an_item_away(listed(state, owner), id);
    let rest = crate::collections::without_item(listed(state, owner), id);
    assert(state.owned(owner) == listed(state, owner));
    assert(listed(next, owner) =~= rest);
}

/// Funding in one piece: the invoice is funded in full from now on, by the pool
/// that asks, and its owner owes its amount more, within the limit.
pub proof fn funding_enters_the_whole_amount(
    state: InvoiceState,
    now: u64,
    id: u64,
    pool: Address,
)
    ensures
        match state.mark_funded(now, id, pool) {
            Ok(next) => {
                let before = state.invoices[id];
                let after = next.invoices[id];
                &&& touched(state, next, id)
                &&& after.status is Funded
                &&& after.funded_at == now
                &&& after.pool_contract == pool
                &&& after.funded_amount == before.funded_amount + before.amount
                &&& after == (Invoice {
                    status: after.status,
                    funded_at: after.funded_at,
                    pool_contract: after.pool_contract,
                    funded_amount: after.funded_amount,
                    ..before
                })
                &&& account_moved(
                    state,
                    next,
                    before.owner,
                    owed_by(state, before.owner) + before.amount,
                )
                &&& next.debtors == state.debtors
                &&& next.stats == state.stats
                &&& next.sme_invoices == state.sme_invoices
                &&& next.disputes == state.disputes
                &&& next.funding == state.funding
                &&& kept_on_open(state, next, id)
                &&& told(
                    state,
                    next,
                    Notice::Funded { id, pool, owner: before.owner, at: now },
                )
                &&& same_elsewhere(state, next)
            },
            Err(_) => true,
        },
        state.mark_funded(now, id, pool) is Ok <==> {
            let invoice = state.invoices[id];
            &&& !state.settings.paused
            &&& state.settings.pool == Some(pool)
            &&& state.invoices.dom().contains(id)
            &&& invoice.status is Verified || invoice.status is Pending
            &&& !waited_too_long(state, invoice, now)
            &&& state.settings.require_oracle_verification ==> invoice.oracle_verified
            &&& fits(invoice.funded_amount + invoice.amount)
            &&& fits(owed_by(state, invoice.owner) + invoice.amount)
            &&& owed_by(state, invoice.owner) + invoice.amount
                <= state.settings.max_outstanding_per_sme
        },
{
    if state.mark_funded(now, id, pool) is Ok {
        assert(state.mark_funded(now, id, pool)->Ok_0.invoices.dom() =~= state.invoices.dom());
    }
}

/// Funding in pieces: what is on record as funded grows by exactly the piece. With
/// the first piece the invoice is funded from now on and its owner owes its whole
/// amount more, within the limit; later pieces change nothing else.
pub proof fn funding_enters_the_piece(
    state: InvoiceState,
    now: u64,
    id: u64,
    amount: i128,
    pool: Address,
)
    ensures
        match state.record_funding(now, id, amount, pool) {
            Ok(next) => {
                let before = state.invoices[id];
                let after = next.invoices[id];
                let first = !(before.status is Funded);
                &&& touched(state, next, id)
                &&& after.status is Funded
                &&& after.funded_amount == before.funded_amount + amount
                &&& first ==> after.funded_at == now && after.pool_contract == pool
                &&& !first ==> after.funded_at == before.funded_at && after.pool_contract
                    == before.pool_contract
                &&& after == (Invoice {
                    status: after.status,
                    funded_at: after.funded_at,
                    pool_contract: after.pool_contract,
                    funded_amount: after.funded_amount,
                    ..before
                })
                &&& account_moved(
                    state,
                    next,
                    before.owner,
                    owed_by(state, before.owner) + (if first {
                        before.amount as int
                    } else {
                        0
                    }),
                )
                &&& next.debtors == state.debtors
                &&& next.stats == state.stats
                &&& next.sme_invoices == state.sme_invoices
                &&& next.disputes == state.disputes
                &&& next.funding == state.funding
                &&& kept_on_open(state, next, id)
                &&& told(
                    state,
                    next,
                    Notice::FundingRecorded { id, owner: before.owner, at: now },
                )
                &&& same_elsewhere(state, next)
            },
            Err(_) => true,
        },
        state.record_funding(now, id, amount, pool) is Ok <==> {
            let invoice = state.invoices[id];
            &&& !state.settings.paused
            &&& state.settings.pool == Some(pool)
            &&& amount > 0
            &&& state.invoices.dom().contains(id)
            &&& invoice.status is Verified || invoice.status is Pending || invoice.status is Funded
            &&& fits(invoice.funded_amount + amount)
            &&& !(invoice.status is Funded) ==> {
                &&& state.settings.require_oracle_verification ==> invoice.oracle_verified
                &&& fits(owed_by(state, invoice.owner) + invoice.amount)
                &&& owed_by(state, invoice.owner) + invoice.amount
                    <= state.settings.max_outstanding_per_sme
            }
        },
{
    if state.record_funding(now, id, amount, pool) is Ok {
        assert(state.record_funding(now, id, amount, pool)->Ok_0.invoices.dom()
            =~= state.invoices.dom());
    }
}

/// What was added up of an invoice before its funding: 0 unless something was.
pub open spec fn added_up(state: InvoiceState, id: u64) -> int {
    if state.funding.dom().contains(id) {
        state.funding[id] as int
    } else {
        0
    }
}

/// Pieces that are added up before an invoice is funded make a sum that is given
/// back, kept, and never beyond the amount; nothing else changes.
pub proof fn pieces_add_up(state: InvoiceState, id: u64, amount: i128, pool: Address)
    ensures
        match state.add_funding(id, amount, pool) {
            Ok((next, sum)) => {
                &&& sum == added_up(state, id) + amount
                &&& added_up(next, id) == sum
                &&& sum <= state.invoices[id].amount
                &&& forall|i: u64| i != id ==> #[trigger] added_up(next, i) == added_up(state, i)
                &&& next.invoices == state.invoices
                &&& same_accounts(state, next)
                &&& next.disputes == state.disputes
                &&& next.renewals == state.renewals
                &&& next.events == state.events
                &&& same_elsewhere(state, next)
            },
            Err(_) => true,
        },
        state.add_funding(id, amount, pool) is Ok <==> {
            &&& !state.settings.paused
            &&& state.settings.pool == Some(pool)
            &&& state.invoices.dom().contains(id)
            &&& state.invoices[id].status is Verified || state.invoices[id].status is Pending
            &&& fits(added_up(state, id) + amount)
            &&& added_up(state, id) + amount <= state.invoices[id].amount
        },
        state.funded_so_far(id) == added_up(state, id),
{
}

/// Whether an invoice was closed with a status: its owner's account and the
/// exposure of its debtor fell by its amount, one invoice less counts as open, and
/// nothing else but the index may have changed.
pub open spec fn settled_as(
    state: InvoiceState,
    next: InvoiceState,
    id: u64,
    status: InvoiceStatus,
) -> bool {
    let before = state.invoices[id];
    let after = next.invoices[id];
    &&& touched(state, next, id)
    &&& after.status == status
    &&& after == (Invoice { status, paid_at: after.paid_at, ..before })
    &&& account_moved(
        state,
        next,
        before.owner,
        reduced(owed_by(state, before.owner), before.amount as int),
    )
    &&& exposure_fell(state, next, before.debtor, before.amount as int)
    &&& one_closed(state.stats, next.stats)
    &&& kept_on_closed(state, next, id)
    &&& next.disputes == state.disputes
    &&& next.funding == state.funding
    &&& same_elsewhere(state, next)
}

/// Whether an invoice that was never funded was closed with a status: the exposure
/// of its debtor fell by its amount, no account moved, it is off the index, and one
/// invoice less counts as open.
pub open spec fn dropped_as(
    state: InvoiceState,
    next: InvoiceState,
    id: u64,
    status: InvoiceStatus,
) -> bool {
    let before = state.invoices[id];
    let after = next.invoices[id];
    &&& touched(state, next, id)
    &&& after.status == status
    &&& after == (Invoice { status, ..before })
    &&& next.sme_outstanding == state.sme_outstanding
    &&& exposure_fell(state, next, before.debtor, before.amount as int)
    &&& unlisted(state, next, before.owner, id)
    &&& one_closed(state.stats, next.stats)
    &&& kept_on_closed(state, next, id)
    &&& next.disputes == state.disputes
    &&& next.funding == state.funding
    &&& same_elsewhere(state, next)
}

/// A payment closes a funded invoice that the pool says was repaid: it is paid from
/// now on, and neither its owner nor its debtor owes its amount any more.
pub proof fn payments_settle_the_books(
    state: InvoiceState,
    now: u64,
    id: u64,
    pool: Address,
    repaid: Option<bool>,
)
    ensures
        match state.mark_paid(now, id, pool, repaid) {
            Ok(next) => {
                &&& settled_as(state, next, id, InvoiceStatus::Paid)
                &&& next.invoices[id].paid_at == now
                &&& next.sme_invoices == state.sme_invoices
                &&& told(
                    state,
                    next,
                    Notice::Paid { id, pool, owner: state.invoices[id].owner, at: now },
                )
            },
            Err(_) => true,
        },
        state.mark_paid(now, id, pool, repaid) is Ok <==> {
            &&& !state.settings.paused
            &&& state.settings.pool == Some(pool)
            &&& state.invoices.dom().contains(id)
            &&& state.invoices[id].status is Funded
            &&& repaid == Some(true)
        },
{
    if state.mark_paid(now, id, pool, repaid) is Ok {
        let next = state.mark_paid(now, id, pool, repaid)->Ok_0;
        assert(next.invoices.dom() =~= state.invoices.dom());
        assert(next.debtors.dom() =~= state.debtors.dom());
    }
}

/// A default closes a funded invoice whose grace period has passed: neither its
/// owner nor its debtor owes its amount any more. The pool and every keeper can
/// bring it about.
pub proof fn defaults_settle_the_books(state: InvoiceState, now: u64, id: u64, caller: Address)
    ensures
        match state.mark_defaulted(now, id, caller) {
            Ok(next) => {
                &&& settled_as(state, next, id, InvoiceStatus::Defaulted)
                &&& next.invoices[id].paid_at == state.invoices[id].paid_at
                &&& next.sme_invoices == state.sme_invoices
                &&& told(
                    state,
                    next,
                    Notice::Defaulted { id, owner: state.invoices[id].owner, at: now },
                )
            },
            Err(_) => true,
        },
        state.mark_defaulted(now, id, caller) is Ok <==> {
            &&& !state.settings.paused
            &&& state.settings.pool is Some
            &&& state.settings.pool == Some(caller) || state.keepers.contains(caller)
            &&& state.invoices.dom().contains(id)
            &&& state.invoices[id].status is Funded
            &&& now >= in_default_from(state, state.invoices[id])
        },
{
    if state.mark_defaulted(now, id, caller) is Ok {
        let next = state.mark_defaulted(now, id, caller)->Ok_0;
        assert(next.invoices.dom() =~= state.invoices.dom());
        assert(next.debtors.dom() =~= state.debtors.dom());
    }
}

/// Whatever request takes an invoice from funded to default takes its amount out of
/// its owner's account and out of the exposure of its debtor, and moves nobody
/// else's.
pub proof fn whoever_defaults_owes_no_more(
    state: InvoiceState,
    request: Request,
    next: InvoiceState,
    id: u64,
)
    requires
        crate::invoice::frames::leads_to(state.apply(request), next),
        state.invoices.dom().contains(id),
        next.invoices.dom().contains(id),
        state.invoices[id].status is Funded,
        next.invoices[id].status is Defaulted,
    ensures
        settled_as(state, next, id, InvoiceStatus::Defaulted),
{
    crate::invoice::balances::defaults_wait_for_the_grace_period(state, request, next, id);
    if let Request::Funding(FundingRequest::MarkDefaulted { now, id: i, caller }) = request {
        reveal(InvoiceState::apply_funding);
        defaults_settle_the_books(state, now, id, caller);
    }
}

/// Whatever request takes an invoice from funded to paid takes its amount out of
/// its owner's account and out of the exposure of its debtor, and moves nobody
/// else's.
pub proof fn whoever_pays_owes_no_more(
    state: InvoiceState,
    request: Request,
    next: InvoiceState,
    id: u64,
)
    requires
        crate::invoice::frames::leads_to(state.apply(request), next),
        state.invoices.dom().contains(id),
        next.invoices.dom().contains(id),
        state.invoices[id].status is Funded,
        next.invoices[id].status is Paid,
    ensures
        settled_as(state, next, id, InvoiceStatus::Paid),
{
    crate::invoice::balances::payment_needs_the_pool(state, request, next, id);
    if let Request::Funding(FundingRequest::MarkPaid { now, id: i, pool, repaid }) = request {
        reveal(InvoiceState::apply_funding);
        payments_settle_the_books(state, now, id, pool, repaid);
    }
}

/// Funding and then default leave an owner with what it owed before, as funding
/// and then payment do.
pub proof fn defaults_clear_what_funding_added(
    state: InvoiceState,
    now: u64,
    id: u64,
    pool: Address,
    at: u64,
    owner: Address,
)
    requires
        state.mark_funded(now, id, pool) is Ok,
        state.mark_funded(now, id, pool)->Ok_0.mark_defaulted(at, id, pool) is Ok,
    ensures
        owed_by(
            state.mark_funded(now, id, pool)->Ok_0.mark_defaulted(at, id, pool)->Ok_0,
            owner,
        ) == owed_by(state, owner),
{
    let funded = state.mark_funded(now, id, pool)->Ok_0;
    funding_enters_the_whole_amount(state, now, id, pool);
    defaults_settle_the_books(funded, at, id, pool);
    assert(owed_by(funded, owner) == owed_by(funded, owner));
}

/// Whether a verdict on an invoice was carried out: approved, it is verified;
/// rejected, it is disputed from now on for the reason that was given. Nothing else
/// changes.
pub open spec fn carried_out(
    state: InvoiceState,
    next: InvoiceState,
    now: u64,
    id: u64,
    approved: bool,
    reason: Seq<u8>,
    oracle_hash: Seq<u8>,
) -> bool {
    let before = state.invoices[id];
    let after = next.invoices[id];
    &&& touched(state, next, id)
    &&& approved ==> {
        &&& after.status is Verified
        &&& after.oracle_verified
        &&& after == (Invoice { status: after.status, oracle_verified: true, ..before })
        &&& next.events == state.events.push(InvoiceEvent::Verified { id, oracle_hash })
    }
    &&& !approved ==> {
        &&& after.status is Disputed
        &&& after.dispute_reason == reason
        &&& after.disputed_at == now
        &&& after.oracle_verified == before.oracle_verified
        &&& after == (Invoice {
            status: after.status,
            dispute_reason: reason,
            disputed_at: now,
            ..before
        })
        &&& told(state, next, Notice::Disputed { id, at: now })
    }
    &&& same_accounts(state, next)
    &&& next.disputes == state.disputes
    &&& next.funding == state.funding
    &&& kept_on_open(state, next, id)
    &&& same_elsewhere(state, next)
}

/// A verdict counts as it was given, whichever of the two oracles gives it, as long
/// as it names the hash of an invoice that waits for one and the oracles count.
pub proof fn either_oracle_is_heard(
    state: InvoiceState,
    now: u64,
    id: u64,
    oracle: Address,
    approved: bool,
    reason: Seq<u8>,
    oracle_hash: Seq<u8>,
)
    ensures
        match state.verify_invoice(now, id, oracle, approved, reason, oracle_hash) {
            Ok(next) => carried_out(state, next, now, id, approved, reason, oracle_hash),
            Err(_) => true,
        },
        state.verify_invoice(now, id, oracle, approved, reason, oracle_hash) is Ok <==> {
            &&& !state.settings.paused
            &&& !state.settings.require_consensus
            &&& state.settings.oracle is Some
            &&& state.settings.oracle == Some(oracle) || state.settings.oracle_secondary == Some(
                oracle,
            )
            &&& state.invoices.dom().contains(id)
            &&& state.invoices[id].status is AwaitingVerification
            &&& state.invoices[id].verification_hash == oracle_hash
        },
{
    let result = state.verify_invoice(now, id, oracle, approved, reason, oracle_hash);
    if result is Ok {
        assert(result->Ok_0.invoices.dom() =~= state.invoices.dom());
    }
}

/// A verdict of the registry that was named counts as it was given, as long as it
/// names the hash of an invoice that waits for one.
pub proof fn the_registry_is_heard(
    state: InvoiceState,
    now: u64,
    id: u64,
    registry: Address,
    approved: bool,
    reason: Seq<u8>,
    oracle_hash: Seq<u8>,
)
    ensures
        match state.consensus_verify(now, id, registry, approved, reason, oracle_hash) {
            Ok(next) => carried_out(state, next, now, id, approved, reason, oracle_hash),
            Err(_) => true,
        },
        state.consensus_verify(now, id, registry, approved, reason, oracle_hash) is Ok <==> {
            &&& !state.settings.paused
            &&& state.settings.oracle_registry == Some(registry)
            &&& state.invoices.dom().contains(id)
            &&& state.invoices[id].status is AwaitingVerification
            &&& state.invoices[id].verification_hash == oracle_hash
        },
{
    let result = state.consensus_verify(now, id, registry, approved, reason, oracle_hash);
    if result is Ok {
        assert(result->Ok_0.invoices.dom() =~= state.invoices.dom());
    }
}

/// A dispute over an invoice is resolved for its owner, who gets it verified, or
/// for its debtor, and then the invoice is cancelled. The oracle can at any time,
/// the administrator once the window has passed.
pub proof fn disputes_are_resolved(
    state: InvoiceState,
    now: u64,
    id: u64,
    caller: Address,
    resolution: DisputeResolution,
)
    ensures
        match state.resolve_dispute(now, id, caller, resolution) {
            Ok(next) => {
                let before = state.invoices[id];
                let after = next.invoices[id];
                &&& resolution is InFavorOfSME ==> {
                    &&& touched(state, next, id)
                    &&& after.status is Verified
                    &&& after.oracle_verified
                    &&& after.dispute_reason.len() == 0
                    &&& after == (Invoice {
                        status: after.status,
                        oracle_verified: true,
                        dispute_reason: after.dispute_reason,
                        ..before
                    })
                    &&& same_accounts(state, next)
                    &&& next.disputes == state.disputes
                    &&& next.funding == state.funding
                    &&& next.renewals == state.renewals
                    &&& same_elsewhere(state, next)
                }
                &&& resolution is InFavorOfDebtor ==> {
                    &&& settled_as(state, next, id, InvoiceStatus::Cancelled)
                    &&& after.paid_at == before.paid_at
                    &&& next.sme_invoices == state.sme_invoices
                }
                &&& told(state, next, Notice::DisputeResolved { id, resolution, caller })
            },
            Err(_) => true,
        },
        state.resolve_dispute(now, id, caller, resolution) is Ok <==> {
            &&& !state.settings.paused
            &&& state.invoices.dom().contains(id)
            &&& state.invoices[id].status is Disputed
            &&& state.settings.admin is Some
            &&& state.settings.oracle is Some
            &&& state.settings.oracle == Some(caller) || (state.settings.admin == Some(caller)
                && now >= later(
                state.invoices[id].disputed_at as int,
                state.settings.dispute_window as int,
            ))
            &&& !(resolution is Pending)
        },
{
    let result = state.resolve_dispute(now, id, caller, resolution);
    if result is Ok {
        assert(result->Ok_0.invoices.dom() =~= state.invoices.dom());
        assert(result->Ok_0.debtors.dom() =~= state.debtors.dom());
    }
}

/// An invoice whose verdict is overdue is cancelled by its owner or the
/// administrator; it was never funded, so no account moves.
pub proof fn overdue_verdicts_cancel(state: InvoiceState, now: u64, caller: Address, id: u64)
    ensures
        match state.timeout_verification(now, caller, id) {
            Ok(next) => {
                &&& dropped_as(state, next, id, InvoiceStatus::Cancelled)
                &&& told(
                    state,
                    next,
                    Notice::VerificationTimedOut {
                        id,
                        deadline: state.invoices[id].verification_deadline,
                        at: now,
                    },
                )
            },
            Err(_) => true,
        },
        state.timeout_verification(now, caller, id) is Ok <==> {
            &&& !state.settings.paused
            &&& state.invoices.dom().contains(id)
            &&& state.settings.admin is Some
            &&& caller == state.invoices[id].owner || state.settings.admin == Some(caller)
            &&& state.invoices[id].status is AwaitingVerification
            &&& now >= state.invoices[id].verification_deadline
        },
{
    let result = state.timeout_verification(now, caller, id);
    if result is Ok {
        let next = result->Ok_0;
        lemma_unlisted(state, state.invoices[id].owner, id);
        let off = state.without_owned(state.invoices[id].owner, id);
        assert(next.sme_invoices == off.sme_invoices);
        assert(forall|o: Address| #[trigger] listed(next, o) == listed(off, o));
        assert(next.invoices.dom() =~= state.invoices.dom());
        assert(next.debtors.dom() =~= state.debtors.dom());
    }
}

/// An invoice that is neither funded nor closed nor stale is cancelled by its
/// owner, and by the administrator, who can also cancel one that is disputed; it is
/// then off the index.
pub proof fn cancellations_settle_the_books(state: InvoiceState, now: u64, id: u64, caller: Address)
    ensures
        match state.cancel_invoice(now, id, caller) {
            Ok(next) => {
                &&& settled_as(state, next, id, InvoiceStatus::Cancelled)
                &&& next.invoices[id].paid_at == state.invoices[id].paid_at
                &&& unlisted(state, next, state.invoices[id].owner, id)
                &&& told(state, next, Notice::Cancelled { id, caller })
            },
            Err(_) => true,
        },
        state.cancel_invoice(now, id, caller) is Ok <==> {
            let invoice = state.invoices[id];
            &&& !state.settings.paused
            &&& state.invoices.dom().contains(id)
            &&& state.settings.admin is Some
            &&& caller == invoice.owner || state.settings.admin == Some(caller)
            &&& invoice.status is Pending || invoice.status is AwaitingVerification
                || invoice.status is Verified || (invoice.status is Disputed && caller
                != invoice.owner)
            &&& !waited_too_long(state, invoice, now)
        },
{
    let result = state.cancel_invoice(now, id, caller);
    if result is Ok {
        let next = result->Ok_0;
        lemma_unlisted(state, state.invoices[id].owner, id);
        let off = state.without_owned(state.invoices[id].owner, id);
        assert(next.sme_invoices == off.sme_invoices);
        assert(forall|o: Address| #[trigger] listed(next, o) == listed(off, o));
        assert(next.invoices.dom() =~= state.invoices.dom());
        assert(next.debtors.dom() =~= state.debtors.dom());
    }
}

/// A check lets an invoice expire exactly if it is pending and has waited for
/// longer than the rules allow; it was never funded, so no account moves. It says
/// whether it did, and changes nothing if not.
pub proof fn checks_let_the_stale_expire(state: InvoiceState, now: u64, id: u64)
    ensures
        match state.check_expiration(now, id) {
            Ok((next, gone)) => {
                &&& gone == waited_too_long(state, state.invoices[id], now)
                &&& gone ==> dropped_as(state, next, id, InvoiceStatus::Expired) && told(
                    state,
                    next,
                    Notice::Expired { id },
                )
                &&& !gone ==> next == state
            },
            Err(_) => true,
        },
        state.check_expiration(now, id) is Ok <==> state.invoices.dom().contains(id),
{
    let result = state.check_expiration(now, id);
    if result is Ok {
        let (next, gone) = result->Ok_0;
        if gone {
            lemma_unlisted(state, state.invoices[id].owner, id);
            let off = state.without_owned(state.invoices[id].owner, id);
            assert(next.sme_invoices == off.sme_invoices);
            assert(forall|o: Address| #[trigger] listed(next, o) == listed(off, o));
            assert(next.invoices.dom() =~= state.invoices.dom());
            assert(next.debtors.dom() =~= state.debtors.dom());
        }
    }
}

/// A batch checks up to 20 invoices, all of which have to exist, one after the
/// other, and counts those that expire: a batch with one more invoice is the batch
/// and then a check of that invoice.
pub proof fn batches_check_one_by_one(state: InvoiceState, now: u64, ids: Seq<u64>, id: u64)
    ensures
        state.batch_check_expiration(now, Seq::empty()) == Ok::<
            (InvoiceState, u32),
            InvoiceFailure,
        >((state, 0)),
        state.batch_check_expiration(now, ids) is Ok <==> ids.len() <= 20 && forall|i: int|
            0 <= i < ids.len() ==> state.invoices.dom().contains(#[trigger] ids[i]),
        match (
            state.batch_check_expiration(now, ids),
            state.batch_check_expiration(now, ids.push(id)),
        ) {
            (Ok((mid, count)), Ok((next, more))) => match mid.check_expiration(now, id) {
                Ok((one, gone)) => next == one && more == count + (if gone {
                    1int
                } else {
                    0
                }),
                Err(_) => false,
            },
            _ => true,
        },
{
    state.lemma_expire_each(now, ids);
    assert(ids.push(id).drop_last() =~= ids);
    assert(ids.push(id).last() == id);
    state.lemma_expire_each(now, ids.push(id));
}

/// A batch lets exactly those of its invoices expire that are pending and have
/// waited for longer than the rules allow; every other invoice stays as it is, and
/// no account moves.
pub proof fn batches_let_the_stale_expire(
    state: InvoiceState,
    now: u64,
    ids: Seq<u64>,
    id: u64,
)
    requires
        state.batch_check_expiration(now, ids) is Ok,
        state.invoices.dom().contains(id),
    ensures
        ({
            let (next, count) = state.batch_check_expiration(now, ids)->Ok_0;
            let before = state.invoices[id];
            &&& next.invoices.dom() == state.invoices.dom()
            &&& ids.contains(id) && waited_too_long(state, before, now) ==> next.invoices[id] == (
            Invoice { status: InvoiceStatus::Expired, ..before })
            &&& !(ids.contains(id) && waited_too_long(state, before, now)) ==> next.invoices[id]
                == before
            &&& next.sme_outstanding == state.sme_outstanding
            &&& next.settings == state.settings
            &&& count <= ids.len()
        }),
{
    lemma_batch(state, now, ids, id);
    state.lemma_expire_each(now, ids);
}

proof fn lemma_batch(state: InvoiceState, now: u64, ids: Seq<u64>, id: u64)
    requires
        state.expire_each(now, ids) is Ok,
        state.invoices.dom().contains(id),
    ensures
        ({
            let next = state.expire_each(now, ids)->Ok_0.0;
            let before = state.invoices[id];
            &&& next.invoices.dom() == state.invoices.dom()
            &&& next.settings == state.settings
            &&& next.sme_outstanding == state.sme_outstanding
            &&& next.invoices[id] == if ids.contains(id) && waited_too_long(state, before, now) {
                Invoice { status: InvoiceStatus::Expired, ..before }
            } else {
                before
            }
        }),
    decreases ids.len(),
{
    if ids.len() > 0 {
        let shorter = ids.drop_last();
        lemma_batch(state, now, shorter, id);
        let mid = state.expire_each(now, shorter)->Ok_0.0;
        let next = state.expire_each(now, ids)->Ok_0.0;
        assert(ids.contains(id) <==> shorter.contains(id) || ids.last() == id) by {
            if shorter.contains(id) {
                let i = choose|i: int| 0 <= i < shorter.len() && shorter[i] == id;
                assert(ids[i] == id);
            }
            if ids.contains(id) {
                let i = choose|i: int| 0 <= i < ids.len() && ids[i] == id;
                if i < shorter.len() {
                    assert(shorter[i] == id);
                }
            }
            assert(ids[ids.len() - 1] == ids.last());
        }
        checks_let_the_stale_expire(mid, now, ids.last());
    }
}

/// Whether an invoice is over: paid, in default, cancelled or expired.
pub open spec fn is_over(status: InvoiceStatus) -> bool {
    match status {
        InvoiceStatus::Paid => true,
        InvoiceStatus::Defaulted => true,
        InvoiceStatus::Cancelled => true,
        InvoiceStatus::Expired => true,
        InvoiceStatus::Pending => false,
        InvoiceStatus::AwaitingVerification => false,
        InvoiceStatus::Verified => false,
        InvoiceStatus::Disputed => false,
        InvoiceStatus::Funded => false,
    }
}

/// The administrator removes an invoice that is over; it is counted, and nothing
/// else changes.
pub proof fn the_administrator_removes_what_is_over(
    state: InvoiceState,
    id: u64,
    caller: Address,
)
    ensures
        match state.cleanup_invoice(id, caller) {
            Ok(next) => {
                &&& next.invoices == state.invoices.remove(id)
                &&& next.stats.cleaned_invoices == state.stats.cleaned_invoices + 1
                &&& next.stats.active_invoices == state.stats.active_invoices
                &&& next.stats.total_invoices == state.stats.total_invoices
                &&& next.sme_outstanding == state.sme_outstanding
                &&& next.debtors == state.debtors
                &&& next.sme_invoices == state.sme_invoices
                &&& next.disputes == state.disputes
                &&& next.funding == state.funding
                &&& next.renewals == state.renewals
                &&& told(state, next, Notice::Removed { id })
                &&& same_elsewhere(state, next)
            },
            Err(_) => true,
        },
        state.cleanup_invoice(id, caller) is Ok <==> {
            &&& !state.settings.paused
            &&& state.settings.admin == Some(caller)
            &&& state.invoices.dom().contains(id)
            &&& is_over(state.invoices[id].status)
            &&& state.stats.cleaned_invoices < u64::MAX
        },
        forall|status: InvoiceStatus| #[trigger] status.is_terminal() == is_over(status),
{
}

/// Anyone removes up to 50 invoices at a time that are over: exactly those of the
/// numbers that are, which `gone` holds, are removed and counted, once each. Nothing
/// else changes, and nothing is announced if nothing goes.
pub proof fn anyone_removes_what_is_over(
    state: InvoiceState,
    caller: Address,
    ids: Seq<u64>,
    gone: Set<u64>,
)
    requires
        gone.finite(),
        forall|id: u64| #[trigger]
            gone.contains(id) <==> ids.contains(id) && state.invoices.dom().contains(id)
                && is_over(state.invoices[id].status),
    ensures
        match state.cleanup_expired_storage(caller, ids) {
            Ok((next, removed)) => {
                &&& removed == gone.len()
                &&& forall|id: u64| #[trigger]
                    next.invoices.dom().contains(id) <==> state.invoices.dom().contains(id)
                        && !gone.contains(id)
                &&& forall|id: u64| #[trigger]
                    next.invoices.dom().contains(id) ==> next.invoices[id] == state.invoices[id]
                &&& next.stats.cleaned_invoices == later(
                    state.stats.cleaned_invoices as int,
                    removed as int,
                )
                &&& next.stats.active_invoices == state.stats.active_invoices
                &&& next.stats.total_invoices == state.stats.total_invoices
                &&& next.sme_outstanding == state.sme_outstanding
                &&& next.debtors == state.debtors
                &&& next.sme_invoices == state.sme_invoices
                &&& next.disputes == state.disputes
                &&& next.funding == state.funding
                &&& next.renewals == state.renewals
                &&& removed > 0 ==> told(state, next, Notice::StorageCleaned { removed, caller })
                &&& removed == 0 ==> next == state
                &&& same_elsewhere(state, next)
            },
            Err(_) => true,
        },
        state.cleanup_expired_storage(caller, ids) is Ok <==> !state.settings.paused && ids.len()
            <= 50,
{
    assert(state.closed_among(ids) =~= gone) by {
        assert forall|id: u64| state.closed_among(ids).contains(id) <==> gone.contains(id) by {
            assert(ids.to_set().contains(id) <==> ids.contains(id));
        }
    }
    assert(gone.len() <= ids.len()) by {
        vstd::seq_lib::seq_to_set_is_finite(ids);
        ids.lemma_cardinality_of_set();
        assert(gone.subset_of(ids.to_set()));
        vstd::set_lib::lemma_len_subset(gone, ids.to_set());
    }
    if gone.len() == 0 {
        assert(gone =~= Set::<u64>::empty());
    }
}

/// The owner of a funded invoice asks for a later due date, no more than 90 days
/// behind the first one; it is on record until it is approved, and nothing else
/// changes.
pub proof fn owners_ask_for_time(
    state: InvoiceState,
    now: u64,
    id: u64,
    owner: Address,
    new_due_date: u64,
)
    ensures
        match state.request_extension(now, id, owner, new_due_date) {
            Ok(next) => {
                let before = state.invoices[id];
                let after = next.invoices[id];
                &&& touched(state, next, id)
                &&& after.pending_due_date == Some(new_due_date)
                &&& after == (Invoice { pending_due_date: after.pending_due_date, ..before })
                &&& same_accounts(state, next)
                &&& next.disputes == state.disputes
                &&& next.funding == state.funding
                &&& kept_on_open(state, next, id)
                &&& told(
                    state,
                    next,
                    Notice::ExtensionRequested {
                        id,
                        current: before.due_date,
                        new: new_due_date,
                        owner,
                        at: now,
                    },
                )
                &&& same_elsewhere(state, next)
            },
            Err(_) => true,
        },
        state.request_extension(now, id, owner, new_due_date) is Ok <==> {
            let invoice = state.invoices[id];
            &&& !state.settings.paused
            &&& state.invoices.dom().contains(id)
            &&& owner == invoice.owner
            &&& invoice.status is Funded
            &&& invoice.pending_due_date is None
            &&& new_due_date > now
            &&& new_due_date > invoice.due_date
            &&& new_due_date <= invoice.original_due_date + 7_776_000
        },
{
    let result = state.request_extension(now, id, owner, new_due_date);
    if result is Ok {
        assert(result->Ok_0.invoices.dom() =~= state.invoices.dom());
    }
}

/// The administrator or the oracle approves the due date that was asked for, if it
/// still lies ahead: it is then the due date, there is nothing to approve any more,
/// and the pool of the invoice has to be told. Nothing else changes.
pub proof fn time_is_granted_as_asked(state: InvoiceState, now: u64, id: u64, approver: Address)
    ensures
        match state.approve_extension(now, id, approver) {
            Ok((next, call)) => {
                let before = state.invoices[id];
                let after = next.invoices[id];
                &&& touched(state, next, id)
                &&& Some(after.due_date) == before.pending_due_date
                &&& after.pending_due_date is None
                &&& after == (Invoice {
                    due_date: after.due_date,
                    pending_due_date: None,
                    ..before
                })
                &&& call.pool == before.pool_contract
                &&& call.invoice_contract == state.me
                &&& call.invoice_id == id
                &&& call.new_due_date == after.due_date
                &&& same_accounts(state, next)
                &&& next.disputes == state.disputes
                &&& next.funding == state.funding
                &&& kept_on_open(state, next, id)
                &&& told(
                    state,
                    next,
                    Notice::ExtensionApproved {
                        id,
                        old: before.due_date,
                        new: after.due_date,
                        approver,
                        at: now,
                    },
                )
                &&& same_elsewhere(state, next)
            },
            Err(_) => true,
        },
        state.approve_extension(now, id, approver) is Ok <==> {
            let invoice = state.invoices[id];
            &&& !state.settings.paused
            &&& state.settings.admin is Some
            &&& state.settings.admin == Some(approver) || state.settings.oracle == Some(approver)
            &&& state.invoices.dom().contains(id)
            &&& invoice.status is Funded
            &&& invoice.pending_due_date is Some
            &&& invoice.pending_due_date->0 > now
            &&& invoice.pending_due_date->0 > invoice.due_date
            &&& invoice.pending_due_date->0 <= invoice.original_due_date + 7_776_000
        },
{
    let result = state.approve_extension(now, id, approver);
    if result is Ok {
        let (next, _) = result->Ok_0;
        assert(next.invoices.dom() =~= state.invoices.dom());
    }
}

/// The owner disputes a default once, within the window behind the time from which
/// on the invoice could be in default; the evidence is on record, and nothing else
/// changes.
pub proof fn owners_dispute_a_default(
    state: InvoiceState,
    now: u64,
    id: u64,
    borrower: Address,
    evidence_hash: Seq<u8>,
)
    ensures
        match state.raise_dispute(now, id, borrower, evidence_hash) {
            Ok(next) => {
                let before = state.invoices[id];
                let after = next.invoices[id];
                let record = next.disputes[id];
                &&& touched(state, next, id)
                &&& after.status is Disputed
                &&& after == (Invoice { status: after.status, ..before })
                &&& record.evidence_hash == evidence_hash
                &&& record.filed_at == now
                &&& record.resolved_at == 0
                &&& record.outcome is Pending
                &&& next.disputes == state.disputes.insert(id, record)
                &&& same_accounts(state, next)
                &&& next.funding == state.funding
                &&& next.renewals == state.renewals
                &&& told(state, next, Notice::DisputeRaised { id, borrower, at: now })
                &&& same_elsewhere(state, next)
            },
            Err(_) => true,
        },
        state.raise_dispute(now, id, borrower, evidence_hash) is Ok <==> {
            let invoice = state.invoices[id];
            &&& !state.settings.paused
            &&& state.invoices.dom().contains(id)
            &&& invoice.status is Defaulted
            &&& invoice.owner == borrower
            &&& in_default_from(state, invoice) <= u64::MAX
            &&& now <= later(in_default_from(state, invoice), state.settings.dispute_window as int)
            &&& !state.disputes.dom().contains(id)
        },
{
    let result = state.raise_dispute(now, id, borrower, evidence_hash);
    if result is Ok {
        assert(result->Ok_0.invoices.dom() =~= state.invoices.dom());
    }
}

/// The administrator decides on the dispute of a default, once: for the debtor,
/// the invoice is funded again and due when its days of grace from now on have
/// passed; for the owner, the default stands. The decision is on record, and
/// nothing else changes.
pub proof fn defaults_are_decided_on(
    state: InvoiceState,
    now: u64,
    id: u64,
    admin: Address,
    outcome: DisputeResolution,
)
    ensures
        match state.resolve_default_dispute(now, id, admin, outcome) {
            Ok(next) => {
                let before = state.invoices[id];
                let after = next.invoices[id];
                let grace = in_default_from(state, before) - before.due_date;
                &&& touched(state, next, id)
                &&& outcome is InFavorOfDebtor ==> {
                    &&& after.status is Funded
                    &&& after.due_date == later(now as int, grace)
                }
                &&& outcome is InFavorOfSME ==> {
                    &&& after.status is Defaulted
                    &&& after.due_date == before.due_date
                }
                &&& after == (Invoice {
                    status: after.status,
                    due_date: after.due_date,
                    ..before
                })
                &&& next.disputes[id].outcome == outcome
                &&& next.disputes[id].resolved_at == now
                &&& next.disputes[id] == (DisputeRecord {
                    outcome,
                    resolved_at: now,
                    ..state.disputes[id]
                })
                &&& next.disputes == state.disputes.insert(id, next.disputes[id])
                &&& same_accounts(state, next)
                &&& next.funding == state.funding
                &&& next.renewals == state.renewals
                &&& told(state, next, Notice::DefaultDisputeResolved { id, admin, at: now })
                &&& same_elsewhere(state, next)
            },
            Err(_) => true,
        },
        state.resolve_default_dispute(now, id, admin, outcome) is Ok <==> {
            &&& !state.settings.paused
            &&& state.settings.admin == Some(admin)
            &&& state.invoices.dom().contains(id)
            &&& state.invoices[id].status is Disputed
            &&& state.disputes.dom().contains(id)
            &&& state.disputes[id].outcome is Pending
            &&& !(outcome is Pending)
        },
{
    let result = state.resolve_default_dispute(now, id, admin, outcome);
    if result is Ok {
        assert(result->Ok_0.invoices.dom() =~= state.invoices.dom());
    }
}

/// A warning is due when a funded invoice is overdue and will be in default within
/// a day; it names the time, and a check that gives none changes nothing.
pub proof fn warnings_come_in_the_last_day(state: InvoiceState, now: u64, id: u64)
    ensures
        match state.check_default_warning(now, id) {
            Ok((next, near)) => {
                let invoice = state.invoices[id];
                let at = in_default_from(state, invoice);
                &&& near <==> invoice.status is Funded && invoice.due_date <= now < at && at - now
                    <= 86_400
                &&& near ==> next == (InvoiceState {
                    events: state.events.push(
                        InvoiceEvent::Notice(Notice::DefaultNear { id, default_at: at as u64 }),
                    ),
                    ..state
                })
                &&& !near ==> next == state
            },
            Err(_) => true,
        },
        state.check_default_warning(now, id) is Ok <==> {
            &&& state.invoices.dom().contains(id)
            &&& state.invoices[id].status is Funded ==> in_default_from(state, state.invoices[id])
                <= u64::MAX
        },
{
}

/// The administrator gives a funded invoice up to 90 days of grace of its own, and
/// the owner of an invoice says whether it is private; nothing else changes.
pub proof fn exceptions_are_for_one_invoice(
    state: InvoiceState,
    admin: Address,
    id: u64,
    days: u32,
    private: bool,
)
    ensures
        match state.set_invoice_grace_period(admin, id, days) {
            Ok(next) => {
                let before = state.invoices[id];
                let after = next.invoices[id];
                &&& touched(state, next, id)
                &&& after.grace_period_override == Some(days)
                &&& after == (Invoice {
                    grace_period_override: after.grace_period_override,
                    ..before
                })
                &&& same_accounts(state, next)
                &&& next.disputes == state.disputes
                &&& next.funding == state.funding
                &&& next.renewals == state.renewals
                &&& told(
                    state,
                    next,
                    Notice::InvoiceGracePeriodSet {
                        id,
                        old: match before.grace_period_override {
                            Some(old) => old,
                            None => state.settings.grace_period_days,
                        },
                        new: days,
                    },
                )
                &&& same_elsewhere(state, next)
            },
            Err(_) => true,
        },
        state.set_invoice_grace_period(admin, id, days) is Ok <==> {
            &&& !state.settings.paused
            &&& state.settings.admin == Some(admin)
            &&& days <= 90
            &&& state.invoices.dom().contains(id)
            &&& state.invoices[id].status is Funded
        },
        match state.set_invoice_private(id, admin, private) {
            Ok(next) => {
                &&& next.is_private(id) == private
                &&& next == (InvoiceState {
                    private: state.private.insert(id, private),
                    events: next.events,
                    ..state
                })
                &&& told(state, next, Notice::PrivacySet { id, private })
            },
            Err(_) => true,
        },
        state.set_invoice_private(id, admin, private) is Ok <==> {
            &&& !state.settings.paused
            &&& state.invoices.dom().contains(id)
            &&& state.invoices[id].owner == admin
        },
        !state.private.dom().contains(id) ==> !state.is_private(id),
        state.private.dom().contains(id) ==> state.is_private(id) == state.private[id],
{
    let result = state.set_invoice_grace_period(admin, id, days);
    if result is Ok {
        assert(result->Ok_0.invoices.dom() =~= state.invoices.dom());
    }
}

/// What is asked of the ledger by name is what is on record: the account of an
/// owner, its index, the days of grace of an invoice and when it can be in default.
pub proof fn answers_are_what_is_on_record(
    state: InvoiceState,
    owner: Address,
    invoice: Invoice<Seq<u8>>,
    now: u64,
)
    ensures
        state.outstanding(owner) == owed_by(state, owner),
        state.owned(owner) == listed(state, owner),
        invoice.due_date + state.grace_days(invoice) * 86_400 == in_default_from(state, invoice),
        match state.default_at(invoice) {
            Some(at) => at == in_default_from(state, invoice),
            None => in_default_from(state, invoice) > u64::MAX,
        },
        state.is_stale(invoice, now) == waited_too_long(state, invoice, now),
{
}

} // verus!
