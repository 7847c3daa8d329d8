//! Who can do what with the invoice ledger, and when.

use vstd::prelude::*;
use crate::address::Address;
use crate::invoice::constants::ADMIN_CHANGE_TIMELOCK_SECS;
use crate::invoice::error::{InvoiceError, InvoiceFailure};
use crate::invoice::requests::{
    AdminChangeRequest, ClosingRequest, DebtorRequest, DisputeRequest, ExceptionRequest,
    FundingRequest, KeeperRequest, LimitRequest, OracleRequest, PausingRequest, Request,
    RequirementRequest, UpgradeRequest, WindowRequest,
};
use crate::invoice::state::InvoiceState;

verus! {

/// In whose name, as the administrator's, a request is made.
pub open spec fn administrator_of(request: Request) -> Option<Address> {
    match request {
        Request::Limit(r) => match r {
            LimitRequest::SetDailyInvoiceLimit { admin, .. } => Some(admin),
            LimitRequest::SetMaxInvoiceAmount { admin, .. } => Some(admin),
            LimitRequest::SetMaxSmeOutstanding { admin, .. } => Some(admin),
            LimitRequest::SetExpirationDuration { admin, .. } => Some(admin),
            LimitRequest::SetCompletedInvoiceTtl { admin, .. } => Some(admin),
        },
        Request::Window(r) => match r {
            WindowRequest::SetDisputeWindow { admin, .. } => Some(admin),
            WindowRequest::SetGracePeriod { admin, .. } => Some(admin),
            WindowRequest::SetMinDueDateWindow { admin, .. } => Some(admin),
        },
        Request::Requirement(r) => match r {
            RequirementRequest::SetRequireRegisteredDebtor { admin, .. } => Some(admin),
            RequirementRequest::SetOracleVerifiedFundingOnly { admin, .. } => Some(admin),
            RequirementRequest::SetComplianceRegistry { admin, .. } => Some(admin),
            RequirementRequest::SetRequireComplianceCheck { admin, .. } => Some(admin),
            RequirementRequest::SetPool { admin, .. } => Some(admin),
            RequirementRequest::SetMetadataImageUri { admin, .. } => Some(admin),
        },
        Request::Exception(ExceptionRequest::SetInvoiceGracePeriod { admin, .. }) => Some(admin),
        Request::Oracle(r) => match r {
            OracleRequest::SetOracle { admin, .. } => Some(admin),
            OracleRequest::SetSecondaryOracle { admin, .. } => Some(admin),
            OracleRequest::SetOracleRegistry { admin, .. } => Some(admin),
            OracleRequest::SetConsensusRequired { admin, .. } => Some(admin),
            OracleRequest::SetOracleViaAc { .. } => None,
        },
        Request::Pausing(r) => match r {
            PausingRequest::Pause { admin, .. } => Some(admin),
            PausingRequest::Unpause { admin, .. } => Some(admin),
            PausingRequest::SetAccessControl { admin, .. } => Some(admin),
            PausingRequest::SetPausedViaAc { .. } => None,
        },
        Request::Keeper(r) => match r {
            KeeperRequest::AddKeeper { admin, .. } => Some(admin),
            KeeperRequest::RemoveKeeper { admin, .. } => Some(admin),
            KeeperRequest::AddKeeperViaAc { .. } => None,
        },
        Request::Upgrade(r) => match r {
            UpgradeRequest::SetUpgradeTimelock { admin, .. } => Some(admin),
            UpgradeRequest::ProposeUpgrade { admin, .. } => Some(admin),
            UpgradeRequest::ExecuteUpgrade { admin, .. } => Some(admin),
            UpgradeRequest::RunMigration { admin } => Some(admin),
        },
        Request::AdminChange(r) => match r {
            AdminChangeRequest::ProposeAdminChange { admin, .. } => Some(admin),
            AdminChangeRequest::FinalizeAdminChange { admin, .. } => Some(admin),
            AdminChangeRequest::CancelAdminChange { admin } => Some(admin),
        },
        Request::Debtor(r) => match r {
            DebtorRequest::RegisterDebtor { admin, .. } => Some(admin),
            DebtorRequest::DeactivateDebtor { admin, .. } => Some(admin),
            _ => None,
        },
        Request::Dispute(DisputeRequest::ResolveDefaultDispute { admin, .. }) => Some(admin),
        Request::Closing(ClosingRequest::CleanupInvoice { caller, .. }) => Some(caller),
        _ => None,
    }
}

/// In whose name, as the pool's, a request is made.
pub open spec fn pool_of(request: Request) -> Option<Address> {
    match request {
        Request::Funding(r) => match r {
            FundingRequest::MarkFunded { pool, .. } => Some(pool),
            FundingRequest::RecordFunding { pool, .. } => Some(pool),
            FundingRequest::MarkPaid { pool, .. } => Some(pool),
            FundingRequest::AddFunding { pool, .. } => Some(pool),
            FundingRequest::MarkDefaulted { .. } => None,
        },
        _ => None,
    }
}

/// In whose name, as the access control's, a request is made.
pub open spec fn access_control_of(request: Request) -> Option<Address> {
    match request {
        Request::Oracle(OracleRequest::SetOracleViaAc { access_control, .. }) => Some(
            access_control,
        ),
        Request::Pausing(PausingRequest::SetPausedViaAc { access_control, .. }) => Some(
            access_control,
        ),
        Request::Keeper(KeeperRequest::AddKeeperViaAc { access_control, .. }) => Some(
            access_control,
        ),
        Request::Debtor(DebtorRequest::RegisterDebtorViaAc { access_control, .. }) => Some(
            access_control,
        ),
        Request::Debtor(DebtorRequest::DeactivateDebtorViaAc { access_control, .. }) => Some(
            access_control,
        ),
        _ => None,
    }
}

/// Only the administrator succeeds with the administrator's requests.
pub proof fn only_the_administrator_rules(state: InvoiceState, request: Request, caller: Address)
    requires
        administrator_of(request) == Some(caller),
        state.settings.admin != Some(caller),
    ensures
        state.apply(request) is Err,
{
    match request {
        Request::Limit(r) => {
            reveal(InvoiceState::apply_limit);
        },
        Request::Window(r) => {
            reveal(InvoiceState::apply_window);
        },
        Request::Requirement(r) => {
            reveal(InvoiceState::apply_requirement);
        },
        Request::Exception(r) => {
            reveal(InvoiceState::apply_exception);
        },
        Request::Oracle(r) => {
            reveal(InvoiceState::apply_oracle);
        },
        Request::Pausing(r) => {
            reveal(InvoiceState::apply_pausing);
        },
        Request::Keeper(r) => {
            reveal(InvoiceState::apply_keeper);
        },
        Request::Upgrade(r) => {
            reveal(InvoiceState::apply_upgrade);
        },
        Request::AdminChange(r) => {
            reveal(InvoiceState::apply_admin_change);
        },
        Request::Debtor(r) => {
            reveal(InvoiceState::apply_debtor);
        },
        Request::Dispute(r) => {
            reveal(InvoiceState::apply_dispute);
        },
        Request::Closing(r) => {
            reveal(InvoiceState::apply_closing);
        },
        _ => {},
    }
}

/// Only the pool succeeds with the pool's requests.
pub proof fn only_the_pool_funds(state: InvoiceState, request: Request, caller: Address)
    requires
        pool_of(request) == Some(caller),
        state.settings.pool != Some(caller),
    ensures
        state.apply(request) is Err,
{
    reveal(InvoiceState::apply_funding);
}

/// Only the access control succeeds with the access control's requests.
pub proof fn only_the_access_control_acts(state: InvoiceState, request: Request, caller: Address)
    requires
        access_control_of(request) == Some(caller),
        state.settings.access_control != Some(caller),
    ensures
        state.apply(request) is Err,
{
    reveal(InvoiceState::apply_oracle);
    reveal(InvoiceState::apply_pausing);
    reveal(InvoiceState::apply_keeper);
    reveal(InvoiceState::apply_debtor);
}

/// To be a keeper helps with no request of the administrator's or the pool's: a
/// keeper that is neither fails with all of them.
pub proof fn keepers_rule_and_fund_nothing(state: InvoiceState, request: Request, keeper: Address)
    requires
        state.keepers.contains(keeper),
        state.settings.admin != Some(keeper),
        state.settings.pool != Some(keeper),
        administrator_of(request) == Some(keeper) || pool_of(request) == Some(keeper),
    ensures
        state.apply(request) is Err,
{
    if administrator_of(request) == Some(keeper) {
        only_the_administrator_rules(state, request, keeper);
    } else {
        only_the_pool_funds(state, request, keeper);
    }
}

/// Whether a request is refused while the ledger is suspended.
pub open spec fn stops_when_paused(request: Request) -> bool {
    match request {
        Request::Limit(_) => true,
        Request::Requirement(r) => !(r is SetRequireRegisteredDebtor) && !(
        r is SetOracleVerifiedFundingOnly),
        Request::Exception(_) => true,
        Request::Oracle(_) => true,
        Request::Keeper(_) => true,
        Request::AdminChange(_) => true,
        Request::Creation(_) => true,
        Request::Verification(_) => true,
        Request::Funding(_) => true,
        Request::Extension(_) => true,
        Request::Dispute(_) => true,
        Request::Closing(r) => !(r is CheckExpiration) && !(r is BatchCheckExpiration),
        _ => false,
    }
}

/// A suspended ledger refuses every request that concerns an invoice, but for
/// checks for expiration, and most that concern its rules.
pub proof fn a_paused_ledger_refuses(state: InvoiceState, request: Request)
    requires
        state.settings.paused,
        stops_when_paused(request),
    ensures
        state.apply(request) is Err,
{
    match request {
        Request::Limit(r) => {
            reveal(InvoiceState::apply_limit);
        },
        Request::Requirement(r) => {
            reveal(InvoiceState::apply_requirement);
        },
        Request::Exception(r) => {
            reveal(InvoiceState::apply_exception);
        },
        Request::Oracle(r) => {
            reveal(InvoiceState::apply_oracle);
        },
        Request::Keeper(r) => {
            reveal(InvoiceState::apply_keeper);
        },
        Request::AdminChange(r) => {
            reveal(InvoiceState::apply_admin_change);
        },
        Request::Creation(r) => {
            reveal(InvoiceState::apply_creation);
        },
        Request::Verification(r) => {
            reveal(InvoiceState::apply_verification);
        },
        Request::Funding(r) => {
            reveal(InvoiceState::apply_funding);
        },
        Request::Extension(r) => {
            reveal(InvoiceState::apply_extension);
        },
        Request::Dispute(r) => {
            reveal(InvoiceState::apply_dispute);
        },
        Request::Closing(r) => {
            reveal(InvoiceState::apply_closing);
        },
        _ => {},
    }
}

proof fn lemma_settings_kept(state: InvoiceState, request: Request, next: InvoiceState)
    requires
        crate::invoice::frames::leads_to(state.apply(request), next),
        request is Exception || request is Debtor || request is Creation || request is Verification
            || request is Funding || request is Extension || request is Dispute
            || request is Closing || request is Warning,
    ensures
        next.settings == state.settings,
        next.proposed_wasm == state.proposed_wasm,
{
    match request {
        Request::Exception(r) => {
            reveal(InvoiceState::apply_exception);
        },
        Request::Debtor(r) => {
            reveal(InvoiceState::apply_debtor);
        },
        Request::Creation(r) => {
            reveal(InvoiceState::apply_creation);
        },
        Request::Verification(r) => {
            reveal(InvoiceState::apply_verification);
        },
        Request::Funding(r) => {
            reveal(InvoiceState::apply_funding);
        },
        Request::Extension(r) => {
            reveal(InvoiceState::apply_extension);
        },
        Request::Dispute(r) => {
            reveal(InvoiceState::apply_dispute);
        },
        Request::Closing(r) => {
            reveal(InvoiceState::apply_closing);
            if let ClosingRequest::BatchCheckExpiration { now, ids } = r {
                lemma_expire_each_settings(state, now, ids);
            }
        },
        Request::Warning(r) => {
            reveal(InvoiceState::apply_warning);
        },
        _ => {},
    }
}

proof fn lemma_expire_each_settings(state: InvoiceState, now: u64, ids: Seq<u64>)
    requires
        state.expire_each(now, ids) is Ok,
    ensures
        state.expire_each(now, ids)->Ok_0.0.settings == state.settings,
        state.expire_each(now, ids)->Ok_0.0.proposed_wasm == state.proposed_wasm,
    decreases ids.len(),
{
    if ids.len() > 0 {
        lemma_expire_each_settings(state, now, ids.drop_last());
    }
}

/// Behind the setup, the administrator changes only when the administrator
/// finalizes a proposal that is at least 48 hours old, and to nobody but the one
/// that was proposed.
pub proof fn administrators_change_with_delay(
    state: InvoiceState,
    request: Request,
    next: InvoiceState,
)
    requires
        crate::invoice::frames::leads_to(state.apply(request), next),
        state.settings.initialized,
        next.settings.admin != state.settings.admin,
    ensures
        request matches Request::AdminChange(r) && (r matches AdminChangeRequest::FinalizeAdminChange {
            now,
            admin,
        } && state.settings.admin == Some(admin) && next.settings.admin
            == state.settings.pending_admin && (
        state.settings.admin_change_scheduled_at matches Some(at) && at + ADMIN_CHANGE_TIMELOCK_SECS
            <= now)),
{
    match request {
        Request::Setup(r) => {
            reveal(InvoiceState::apply_setup);
        },
        Request::Limit(r) => {
            reveal(InvoiceState::apply_limit);
        },
        Request::Window(r) => {
            reveal(InvoiceState::apply_window);
        },
        Request::Requirement(r) => {
            reveal(InvoiceState::apply_requirement);
        },
        Request::Oracle(r) => {
            reveal(InvoiceState::apply_oracle);
        },
        Request::Pausing(r) => {
            reveal(InvoiceState::apply_pausing);
        },
        Request::Keeper(r) => {
            reveal(InvoiceState::apply_keeper);
        },
        Request::Upgrade(r) => {
            reveal(InvoiceState::apply_upgrade);
        },
        Request::AdminChange(r) => {
            reveal(InvoiceState::apply_admin_change);
        },
        _ => {
            lemma_settings_kept(state, request, next);
        },
    }
}

/// A proposal of another administrator that is taken back leaves the rules as if
/// there had been none, and cannot be finalized.
pub proof fn cancelling_undoes_a_proposal(
    state: InvoiceState,
    now: u64,
    later: u64,
    admin: Address,
    new_admin: Address,
)
    requires
        state.settings.pending_admin is None,
        state.settings.admin_change_scheduled_at is None,
        state.propose_admin_change(now, admin, new_admin) is Ok,
    ensures
        ({
            let proposed = state.propose_admin_change(now, admin, new_admin)->Ok_0;
            let cancelled = proposed.cancel_admin_change(admin);
            &&& cancelled is Ok
            &&& cancelled->Ok_0.settings == state.settings
            &&& cancelled->Ok_0.finalize_admin_change(later, admin) == Err::<
                InvoiceState,
                InvoiceFailure,
            >(InvoiceFailure::Error(InvoiceError::NoAdminChangeProposed))
        }),
{
}

/// Code is installed only when it was proposed, at least the timelock ago, and is
/// never code that does not exist.
pub proof fn upgrades_wait_for_the_timelock(state: InvoiceState, now: u64, admin: Address)
    requires
        state.valid(),
        state.execute_upgrade(now, admin) is Ok,
    ensures
        ({
            let hash = state.execute_upgrade(now, admin)->Ok_0.1;
            &&& state.settings.admin == Some(admin)
            &&& state.proposed_wasm == Some(hash)
            &&& !InvoiceState::is_zero_hash(hash)
            &&& state.settings.upgrade_scheduled_at matches Some(at) && at
                + state.settings.upgrade_timelock <= now
        }),
{
}

/// Once the verdicts of the oracle registry alone count, no oracle gets an invoice
/// verified by itself.
pub proof fn consensus_leaves_no_way_around(
    state: InvoiceState,
    now: u64,
    id: u64,
    oracle: Address,
    approved: bool,
    reason: Seq<u8>,
    oracle_hash: Seq<u8>,
)
    requires
        state.settings.require_consensus,
        !state.settings.paused,
    ensures
        state.verify_invoice(now, id, oracle, approved, reason, oracle_hash) == Err::<
            InvoiceState,
            InvoiceFailure,
        >(InvoiceFailure::Error(InvoiceError::ConsensusVerificationRequired)),
{
}

/// An invoice gets or loses its privacy only at the request of its owner, and has
/// none to begin with.
pub proof fn privacy_is_up_to_the_owner(
    state: InvoiceState,
    request: Request,
    next: InvoiceState,
    id: u64,
)
    requires
        crate::invoice::frames::leads_to(state.apply(request), next),
        next.is_private(id) != state.is_private(id),
    ensures
        state.invoices.dom().contains(id),
        request matches Request::Exception(r) && (r matches ExceptionRequest::SetInvoicePrivate {
            id: i,
            owner,
            private,
        } && i == id && owner == state.invoices[id].owner && private == next.is_private(id)),
{
    if crate::invoice::frames::is_plain(request) {
        crate::invoice::frames::rules_leave_the_books_alone(state, request, next);
    } else {
        match request {
            Request::Setup(r) => {
                reveal(InvoiceState::apply_setup);
            },
            Request::Exception(r) => {
                reveal(InvoiceState::apply_exception);
            },
            Request::Debtor(r) => {
                reveal(InvoiceState::apply_debtor);
            },
            Request::Creation(r) => {
                reveal(InvoiceState::apply_creation);
            },
            Request::Verification(r) => {
                reveal(InvoiceState::apply_verification);
            },
            Request::Funding(r) => {
                reveal(InvoiceState::apply_funding);
            },
            Request::Extension(r) => {
                reveal(InvoiceState::apply_extension);
            },
            Request::Dispute(r) => {
                reveal(InvoiceState::apply_dispute);
            },
            Request::Closing(r) => {
                reveal(InvoiceState::apply_closing);
                if let ClosingRequest::BatchCheckExpiration { now, ids } = r {
                    lemma_expire_each_private(state, now, ids);
                }
            },
            _ => {},
        }
    }
}

proof fn lemma_expire_each_private(state: InvoiceState, now: u64, ids: Seq<u64>)
    requires
        state.expire_each(now, ids) is Ok,
    ensures
        state.expire_each(now, ids)->Ok_0.0.private == state.private,
    decreases ids.len(),
{
    if ids.len() > 0 {
        lemma_expire_each_private(state, now, ids.drop_last());
    }
}

} // verus!
