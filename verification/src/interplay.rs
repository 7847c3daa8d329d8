//! What holds when the three contracts work together: the registry passes the
//! verdicts of the oracles on to the invoice ledger, and the ledger asks the
//! compliance register before it takes an invoice.

use vstd::prelude::*;
use crate::address::Address;
use crate::compliance::state::ComplianceState;
use crate::invoice::creation::InvoiceRequest;
use crate::invoice::error::{InvoiceError, InvoiceFailure};
use crate::invoice::state::InvoiceState;
use crate::invoice::types::{Clearance, InvoiceStatus};
use crate::oracle_registry::state::RegistryState;
use crate::oracle_registry::types::ConsensusCall;

verus! {

/// What the ledger tells the registry of an invoice: whether it awaits
/// verification, and its amount.
pub open spec fn verification_reply(ledger: InvoiceState, id: u64) -> Option<(bool, i128)> {
    if ledger.invoices.dom().contains(id) {
        Some((ledger.invoices[id].status is AwaitingVerification, ledger.invoices[id].amount))
    } else {
        None
    }
}

/// What the register tells the ledger of an address.
pub open spec fn clearance_of(register: ComplianceState, now: u64, address: Address) -> Clearance {
    if register.is_cleared(now, address) {
        Clearance::Cleared
    } else {
        Clearance::NotCleared
    }
}

/// What the call of the registry makes of the ledger.
pub open spec fn receive(ledger: InvoiceState, now: u64, call: ConsensusCall<Seq<u8>>) -> Result<
    InvoiceState,
    InvoiceFailure,
> {
    ledger.consensus_verify(
        now,
        call.invoice_id,
        call.registry,
        call.approved,
        call.reason,
        call.oracle_hash,
    )
}

/// Whether the ledger takes verdicts of the registry on an invoice.
pub open spec fn takes_verdicts(ledger: InvoiceState, registry: RegistryState, id: u64) -> bool {
    &&& !ledger.settings.paused
    &&& ledger.settings.oracle_registry == Some(registry.me)
    &&& ledger.invoices.dom().contains(id)
    &&& ledger.invoices[id].status is AwaitingVerification
}

/// A round opens only on an invoice that the ledger holds and that awaits
/// verification there, and its quorum is the one for the amount of the invoice.
pub proof fn rounds_are_about_waiting_invoices(
    registry: RegistryState,
    ledger: InvoiceState,
    now: u64,
    id: u64,
    oracle_hash: Seq<u8>,
)
    requires
        registry.open_verification_round(now, id, oracle_hash, verification_reply(ledger, id)) is Ok,
    ensures
        ledger.invoices.dom().contains(id),
        ledger.invoices[id].status is AwaitingVerification,
        registry.config is Some,
        ({
            let next = registry.open_verification_round(
                now,
                id,
                oracle_hash,
                verification_reply(ledger, id),
            )->Ok_0;
            next.rounds[id].quorum_bps == crate::oracle_registry::state::quorum_for(
                registry.quorum_tiers,
                registry.config->0.quorum_bps,
                ledger.invoices[id].amount,
            )
        }),
{
}

/// A vote that decides a round about the hash of the invoice settles the invoice:
/// it is verified if the oracles approved of it, and disputed if not. No other
/// invoice changes.
pub proof fn verdicts_settle_invoices(
    registry: RegistryState,
    ledger: InvoiceState,
    now: u64,
    oracle: Address,
    id: u64,
    approved: bool,
)
    requires
        takes_verdicts(ledger, registry, id),
        registry.rounds[id].oracle_hash == ledger.invoices[id].verification_hash,
        registry.vote_call(now, oracle, id, approved) matches Ok(call) && call is Some,
    ensures
        ({
            let call = registry.vote_call(now, oracle, id, approved)->Ok_0->0;
            let next = receive(ledger, now, call);
            &&& next is Ok
            &&& next->Ok_0.invoices[id].status == if call.approved {
                InvoiceStatus::Verified
            } else {
                InvoiceStatus::Disputed
            }
            &&& next->Ok_0.invoices[id].oracle_verified == (call.approved
                || ledger.invoices[id].oracle_verified)
            &&& next->Ok_0.invoices == ledger.invoices.insert(id, next->Ok_0.invoices[id])
        }),
{
}

/// A round about another hash than that of the invoice decides nothing: the ledger
/// refuses the verdict, and the vote that brought it about comes to nothing.
pub proof fn verdicts_on_other_hashes_are_refused(
    registry: RegistryState,
    ledger: InvoiceState,
    now: u64,
    oracle: Address,
    id: u64,
    approved: bool,
    evidence_hash: Seq<u8>,
)
    requires
        takes_verdicts(ledger, registry, id),
        registry.rounds[id].oracle_hash != ledger.invoices[id].verification_hash,
        registry.vote_call(now, oracle, id, approved) matches Ok(call) && call is Some,
    ensures
        ({
            let call = registry.vote_call(now, oracle, id, approved)->Ok_0->0;
            let taken = receive(ledger, now, call);
            &&& taken == Err::<InvoiceState, InvoiceFailure>(
                InvoiceFailure::Error(InvoiceError::HashMismatch),
            )
            &&& registry.submit_vote(now, oracle, id, approved, evidence_hash, taken is Ok) is Err
        }),
{
}

/// The administrator's decision on a round that ran out settles the invoice as a
/// verdict of the oracles would.
pub proof fn the_administrator_settles_what_ran_out(
    registry: RegistryState,
    ledger: InvoiceState,
    now: u64,
    admin: Address,
    id: u64,
    approved: bool,
    reason: Seq<u8>,
)
    requires
        takes_verdicts(ledger, registry, id),
        registry.rounds[id].oracle_hash == ledger.invoices[id].verification_hash,
        registry.resolve_call(now, admin, id, approved) is Ok,
    ensures
        ({
            let call = registry.resolve_call(now, admin, id, approved)->Ok_0;
            let taken = receive(ledger, now, call);
            &&& taken is Ok
            &&& taken->Ok_0.invoices[id].status == if approved {
                InvoiceStatus::Verified
            } else {
                InvoiceStatus::Disputed
            }
            &&& registry.admin_resolve_round(now, admin, id, approved, reason, taken is Ok) is Ok
        }),
{
}

/// Nobody but the registry that the ledger was set up with settles invoices in the
/// name of the oracles.
pub proof fn other_registries_are_refused(
    ledger: InvoiceState,
    now: u64,
    call: ConsensusCall<Seq<u8>>,
)
    requires
        ledger.settings.oracle_registry != Some(call.registry),
    ensures
        receive(ledger, now, call) is Err,
{
}

/// A ledger that asks the register takes invoices of cleared owners alone: with a
/// clearance it treats the request as if it did not ask, and without one there is
/// no invoice.
pub proof fn clearances_open_the_ledger(
    register: ComplianceState,
    ledger: InvoiceState,
    now: u64,
    request: InvoiceRequest<Seq<u8>>,
)
    requires
        ledger.settings.require_compliance,
        ledger.settings.compliance_registry is Some,
    ensures
        ({
            let clearance = clearance_of(register, now, request.owner);
            let open = InvoiceState {
                settings: crate::invoice::state::Settings {
                    require_compliance: false,
                    ..ledger.settings
                },
                ..ledger
            };
            &&& register.is_cleared(now, request.owner) ==> ledger.creation_refusal(
                now,
                request,
                clearance,
            ) == open.creation_refusal(now, request, clearance)
            &&& !register.is_cleared(now, request.owner) ==> ledger.create_invoice_with_metadata(
                now,
                request,
                clearance,
            ) is Err
            &&& !register.is_cleared(now, request.owner) ==> ledger.create_invoice(
                now,
                request,
                clearance,
            ) is Err
        }),
{
}

/// An owner under review gets no invoice into a ledger that asks the register.
pub proof fn reviews_close_the_ledger(
    register: ComplianceState,
    ledger: InvoiceState,
    now: u64,
    caller: Address,
    reason: Seq<u8>,
    later: u64,
    request: InvoiceRequest<Seq<u8>>,
)
    requires
        register.valid(),
        register.request_review(now, caller, request.owner, reason) is Ok,
        ledger.settings.require_compliance,
    ensures
        ({
            let reviewed = register.request_review(now, caller, request.owner, reason)->Ok_0;
            ledger.create_invoice_with_metadata(
                later,
                request,
                clearance_of(reviewed, later, request.owner),
            ) is Err
        }),
{
    crate::compliance::laws::a_review_suspends_a_clearance(
        register,
        now,
        caller,
        request.owner,
        reason,
        later,
    );
}

} // verus!
