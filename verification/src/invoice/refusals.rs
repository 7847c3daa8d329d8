//! Why the invoice ledger refuses what it refuses.

use vstd::prelude::*;
use crate::invoice::creation::InvoiceRequest;
use crate::invoice::error::{InvoiceError, InvoiceFailure, Objection};
use crate::invoice::requests::{
    AdminChangeRequest, ClosingRequest, CreationRequest, DebtorRequest, DisputeRequest,
    ExceptionRequest, ExtensionRequest, FundingRequest, LimitRequest, Request, RequirementRequest,
    SetupRequest, UpgradeRequest, VerificationRequest, WarningRequest, WindowRequest,
};
use crate::invoice::state::InvoiceState;
use crate::invoice::types::Clearance;
use crate::outcome::Trap;

verus! {

/// The invoice that a request names, if it names one.
pub open spec fn number_of(request: Request) -> Option<u64> {
    match request {
        Request::Exception(r) => match r {
            ExceptionRequest::SetInvoiceGracePeriod { id, .. } => Some(id),
            ExceptionRequest::SetInvoicePrivate { id, .. } => Some(id),
        },
        Request::Verification(r) => match r {
            VerificationRequest::VerifyInvoice { id, .. } => Some(id),
            VerificationRequest::ConsensusVerify { id, .. } => Some(id),
            VerificationRequest::TimeoutVerification { id, .. } => Some(id),
            VerificationRequest::ResolveDispute { id, .. } => Some(id),
        },
        Request::Funding(r) => match r {
            FundingRequest::MarkFunded { id, .. } => Some(id),
            FundingRequest::RecordFunding { id, .. } => Some(id),
            FundingRequest::MarkPaid { id, .. } => Some(id),
            FundingRequest::AddFunding { id, .. } => Some(id),
            FundingRequest::MarkDefaulted { id, .. } => Some(id),
        },
        Request::Extension(r) => match r {
            ExtensionRequest::RequestExtension { id, .. } => Some(id),
            ExtensionRequest::ApproveExtension { id, .. } => Some(id),
        },
        Request::Dispute(r) => match r {
            DisputeRequest::RaiseDispute { id, .. } => Some(id),
            DisputeRequest::ResolveDefaultDispute { id, .. } => Some(id),
        },
        Request::Closing(r) => match r {
            ClosingRequest::CancelInvoice { id, .. } => Some(id),
            ClosingRequest::CheckExpiration { id, .. } => Some(id),
            ClosingRequest::CleanupInvoice { id, .. } => Some(id),
            _ => None,
        },
        Request::Warning(WarningRequest::CheckDefaultWarning { id, .. }) => Some(id),
        _ => None,
    }
}

/// Whether no invoice stands under a number that a request names.
pub open spec fn names_nothing(state: InvoiceState, request: Request) -> bool {
    ||| number_of(request) is Some && !state.invoices.dom().contains(number_of(request)->0)
    ||| request matches Request::Closing(r) && (r matches ClosingRequest::BatchCheckExpiration {
        ids,
        ..
    } && exists|i: int| 0 <= i < ids.len() && !state.invoices.dom().contains(#[trigger] ids[i]))
}

/// Whether the one who makes a request has no right to.
pub open spec fn has_no_right(state: InvoiceState, request: Request) -> bool {
    let rules = state.settings;
    ||| crate::invoice::authority::administrator_of(request) is Some
        && crate::invoice::authority::administrator_of(request) != rules.admin
    ||| crate::invoice::authority::pool_of(request) is Some
        && crate::invoice::authority::pool_of(request) != rules.pool
    ||| crate::invoice::authority::access_control_of(request) is Some
        && crate::invoice::authority::access_control_of(request) != rules.access_control
    ||| match request {
        Request::Exception(ExceptionRequest::SetInvoicePrivate { id, owner, .. }) => {
            state.invoices[id].owner != owner
        },
        Request::Verification(VerificationRequest::TimeoutVerification { caller, id, .. }) => {
            state.invoices[id].owner != caller && rules.admin != Some(caller)
        },
        Request::Verification(VerificationRequest::ResolveDispute { caller, .. }) => {
            rules.oracle != Some(caller) && rules.admin != Some(caller)
        },
        Request::Funding(FundingRequest::MarkDefaulted { caller, .. }) => {
            rules.pool != Some(caller) && !state.keepers.contains(caller)
        },
        Request::Extension(ExtensionRequest::RequestExtension { id, owner, .. }) => {
            state.invoices[id].owner != owner
        },
        Request::Extension(ExtensionRequest::ApproveExtension { approver, .. }) => {
            rules.admin != Some(approver) && rules.oracle != Some(approver)
        },
        Request::Dispute(DisputeRequest::RaiseDispute { id, borrower, .. }) => {
            state.invoices[id].owner != borrower
        },
        Request::Closing(ClosingRequest::CancelInvoice { id, caller, .. }) => {
            state.invoices[id].owner != caller && rules.admin != Some(caller)
        },
        _ => false,
    }
}

/// Whether the invoice that a request names has not the status that the request
/// needs, or the request names an outcome that is none.
pub open spec fn is_out_of_order(state: InvoiceState, request: Request) -> bool {
    match request {
        Request::Verification(r) => match r {
            VerificationRequest::TimeoutVerification { id, .. } => !(state.invoices[id].status
                is AwaitingVerification),
            VerificationRequest::ResolveDispute { resolution, .. } => resolution is Pending,
            _ => false,
        },
        Request::Extension(r) => match r {
            ExtensionRequest::RequestExtension { id, .. } => !(state.invoices[id].status is Funded),
            ExtensionRequest::ApproveExtension { id, .. } => !(state.invoices[id].status is Funded),
        },
        Request::Dispute(r) => match r {
            DisputeRequest::RaiseDispute { id, .. } => !(state.invoices[id].status is Defaulted),
            DisputeRequest::ResolveDefaultDispute { id, outcome, .. } => !(state.invoices[id].status
                is Disputed) || outcome is Pending,
        },
        Request::Closing(r) => match r {
            ClosingRequest::CancelInvoice { now, id, caller } => {
                let invoice = state.invoices[id];
                ||| crate::invoice::effects::waited_too_long(state, invoice, now)
                ||| invoice.status is Funded || invoice.status is Paid
                ||| invoice.status is Defaulted || invoice.status is Cancelled
                ||| invoice.status is Expired
                ||| invoice.status is Disputed && caller == invoice.owner
            },
            _ => false,
        },
        _ => false,
    }
}

/// Whether one who has no right to a request is told so in words, not by number.
pub open spec fn denied_in_words(request: Request) -> bool {
    match request {
        Request::Limit(_) => true,
        Request::Window(_) => true,
        Request::Requirement(r) => r is SetRequireRegisteredDebtor || r is SetPool
            || r is SetMetadataImageUri,
        Request::Oracle(r) => r is SetOracle,
        Request::Upgrade(_) => true,
        Request::Debtor(r) => r is RegisterDebtor || r is DeactivateDebtor,
        Request::Verification(r) => r is ResolveDispute,
        Request::Closing(_) => true,
        _ => false,
    }
}

/// Whether a request that names no invoice is told so in words, not by number.
pub open spec fn missed_in_words(request: Request) -> bool {
    match request {
        Request::Exception(_) => false,
        Request::Extension(_) => false,
        Request::Closing(r) => r is CancelInvoice || r is CleanupInvoice,
        _ => true,
    }
}

/// How one who is neither the administrator, the pool nor the access control, as
/// the request needs, is told so.
pub open spec fn denial(state: InvoiceState, request: Request) -> InvoiceFailure {
    match request {
        Request::Exception(_) => InvoiceFailure::Objection(Objection::CallerNotAdmin),
        Request::Funding(r) => if r is MarkPaid {
            InvoiceFailure::Objection(Objection::OnlyPoolCanMarkPaid)
        } else {
            InvoiceFailure::Objection(Objection::UnauthorizedPool)
        },
        _ => if denied_in_words(request) {
            InvoiceFailure::Objection(Objection::Unauthorized)
        } else if crate::invoice::authority::access_control_of(request) is Some
            && state.settings.access_control is None {
            InvoiceFailure::Error(InvoiceError::AccessControlNotConfigured)
        } else {
            InvoiceFailure::Error(InvoiceError::Unauthorized)
        },
    }
}

/// Whoever is not the administrator, the pool or the access control, as a request
/// needs, is told so before anything else but that the ledger is suspended.
pub proof fn strangers_are_told_so(state: InvoiceState, request: Request)
    requires
        crate::invoice::authority::stops_when_paused(request) ==> !state.settings.paused,
        ({
            let rules = state.settings;
            let admin = crate::invoice::authority::administrator_of(request);
            let pool = crate::invoice::authority::pool_of(request);
            let access_control = crate::invoice::authority::access_control_of(request);
            ||| admin is Some && rules.admin is Some && rules.admin != admin
            ||| pool is Some && rules.pool is Some && rules.pool != pool
            ||| access_control is Some && rules.access_control != access_control
        }),
    ensures
        state.apply(request) == Err::<InvoiceState, InvoiceFailure>(denial(state, request)),
{
    match request {
        Request::Limit(_) => {
            reveal(InvoiceState::apply_limit);
        },
        Request::Window(_) => {
            reveal(InvoiceState::apply_window);
        },
        Request::Requirement(_) => {
            reveal(InvoiceState::apply_requirement);
        },
        Request::Exception(_) => {
            reveal(InvoiceState::apply_exception);
        },
        Request::Oracle(_) => {
            reveal(InvoiceState::apply_oracle);
        },
        Request::Pausing(_) => {
            reveal(InvoiceState::apply_pausing);
        },
        Request::Keeper(_) => {
            reveal(InvoiceState::apply_keeper);
        },
        Request::Upgrade(_) => {
            reveal(InvoiceState::apply_upgrade);
        },
        Request::AdminChange(_) => {
            reveal(InvoiceState::apply_admin_change);
        },
        Request::Debtor(_) => {
            reveal(InvoiceState::apply_debtor);
        },
        Request::Funding(_) => {
            reveal(InvoiceState::apply_funding);
        },
        Request::Dispute(_) => {
            reveal(InvoiceState::apply_dispute);
        },
        Request::Closing(_) => {
            reveal(InvoiceState::apply_closing);
        },
        _ => {},
    }
}

/// What an owner asks for, when, and what the register says of it, if a request is
/// for a new invoice.
pub open spec fn creation_of(request: Request) -> Option<
    (u64, InvoiceRequest<Seq<u8>>, Clearance),
> {
    match request {
        Request::Creation(r) => match r {
            CreationRequest::CreateInvoiceWithMetadata { now, request, clearance } => Some(
                (now, request, clearance),
            ),
            CreationRequest::CreateInvoice { now, request, clearance } => Some(
                (now, request, clearance),
            ),
        },
        _ => None,
    }
}

/// Whether an error that concerns new invoices alone is a reason to refuse one.
pub open spec fn true_reason_against_creation(
    state: InvoiceState,
    now: u64,
    request: InvoiceRequest<Seq<u8>>,
    clearance: Clearance,
    e: InvoiceError,
) -> bool {
    let rules = state.settings;
    match e {
        InvoiceError::ContractPaused => rules.paused,
        InvoiceError::InvalidMetadata => !(request.metadata_uri is Some
            && request.metadata_uri->0.len() <= 256
            && crate::invoice::creation_effects::leads_somewhere(request.metadata_uri->0)),
        InvoiceError::EmptyDebtorName => request.debtor.len() == 0,
        InvoiceError::EmptyDescription => request.description.len() == 0,
        InvoiceError::InvalidVerificationHash => request.verification_hash.len() == 0,
        InvoiceError::DescriptionTooLong => request.description.len() > 256,
        InvoiceError::DebtorNameTooLong => request.debtor.len() > 64,
        InvoiceError::VerificationHashTooLong => request.verification_hash.len() > 256,
        InvoiceError::InvalidDescriptionChars => exists|i: int|
            0 <= i < request.description.len() && !crate::invoice::creation_effects::harmless(
                #[trigger] request.description[i],
            ),
        InvoiceError::ComplianceRegistryNotConfigured => rules.require_compliance
            && rules.compliance_registry is None,
        InvoiceError::ComplianceNotCleared => rules.require_compliance && clearance is NotCleared,
        InvoiceError::ComplianceCheckFailed => rules.require_compliance && clearance is Unavailable,
        InvoiceError::InvalidAmount => request.amount <= 0,
        InvoiceError::InvalidDueDate => request.due_date <= now,
        InvoiceError::DueDateTooSoon => request.due_date < now + rules.min_due_date_window
            <= u64::MAX,
        InvoiceError::DateOverflow => now + rules.min_due_date_window > u64::MAX || now
            + 946_080_000 > u64::MAX || request.due_date > now + 946_080_000,
        InvoiceError::RateLimitExceeded => crate::invoice::creation_effects::created_lately(
            state,
            now,
            request.owner,
        ).len() >= rules.daily_limit,
        InvoiceError::ArithmeticOverflow => now + 259_200 > u64::MAX,
        InvoiceError::IDCollision => state.invoices.dom().contains(
            (state.invoice_count + 1) as u64,
        ),
        _ => false,
    }
}

/// Whether an error is a reason to refuse a request that is not for a new invoice.
pub open spec fn true_reason(state: InvoiceState, request: Request, e: InvoiceError) -> bool {
    let rules = state.settings;
    let invoice = state.invoices[number_of(request)->0];
    match e {
        InvoiceError::AlreadyInitialized => request is Setup && rules.initialized,
        InvoiceError::ContractPaused => rules.paused,
        InvoiceError::Unauthorized => (has_no_right(state, request) && !denied_in_words(request))
            || (request matches
            Request::Funding(r) && (r is MarkFunded || r is RecordFunding) && !(invoice.status
            is Funded) && rules.require_oracle_verification && !invoice.oracle_verified),
        InvoiceError::AccessControlNotConfigured => {
            &&& crate::invoice::authority::access_control_of(request) is Some
            &&& rules.access_control is None
        },
        InvoiceError::InvoiceNotFound => names_nothing(state, request) && !missed_in_words(request),
        InvoiceError::InvalidStatusTransition => is_out_of_order(state, request) && !(request
            is Closing),
        InvoiceError::HashMismatch => match request {
            Request::Verification(VerificationRequest::VerifyInvoice { oracle_hash, .. }) => {
                invoice.verification_hash != oracle_hash
            },
            Request::Verification(VerificationRequest::ConsensusVerify { oracle_hash, .. }) => {
                invoice.verification_hash != oracle_hash
            },
            Request::Dispute(DisputeRequest::RaiseDispute { id, .. }) => {
                state.disputes.dom().contains(id)
            },
            _ => false,
        },
        InvoiceError::SmeExposureLimitExceeded => {
            let owed = crate::invoice::effects::owed_by(state, invoice.owner) + invoice.amount;
            &&& request is Funding && !(invoice.status is Funded)
            &&& crate::invoice::effects::fits(owed) && owed > rules.max_outstanding_per_sme
        },
        InvoiceError::AmountOverflow => match request {
            Request::Funding(FundingRequest::MarkFunded { .. }) => {
                ||| !crate::invoice::effects::fits(invoice.funded_amount + invoice.amount)
                ||| !crate::invoice::effects::fits(
                    crate::invoice::effects::owed_by(state, invoice.owner) + invoice.amount,
                )
            },
            Request::Funding(FundingRequest::RecordFunding { amount, .. }) => {
                ||| !crate::invoice::effects::fits(invoice.funded_amount + amount)
                ||| !crate::invoice::effects::fits(
                    crate::invoice::effects::owed_by(state, invoice.owner) + invoice.amount,
                )
            },
            Request::Funding(FundingRequest::AddFunding { id, amount, .. }) => {
                crate::invoice::effects::added_up(state, id) + amount > invoice.amount
            },
            _ => false,
        },
        InvoiceError::DateOverflow => (request is Funding || request is Dispute
            || request is Warning) && crate::invoice::effects::in_default_from(state, invoice)
            > u64::MAX,
        InvoiceError::ExtensionAlreadyPending => request is Extension
            && invoice.pending_due_date is Some,
        InvoiceError::NoPendingExtension => request is Extension && invoice.pending_due_date
            is None,
        InvoiceError::InvalidDueDateExtension => match request {
            Request::Extension(ExtensionRequest::RequestExtension { now, new_due_date, .. }) => {
                new_due_date <= now || new_due_date <= invoice.due_date
            },
            Request::Extension(ExtensionRequest::ApproveExtension { now, .. }) => {
                invoice.pending_due_date->0 <= now || invoice.pending_due_date->0
                    <= invoice.due_date
            },
            _ => false,
        },
        InvoiceError::ExtensionTooLarge => match request {
            Request::Extension(ExtensionRequest::RequestExtension { new_due_date, .. }) => {
                new_due_date > invoice.original_due_date + 7_776_000
            },
            Request::Extension(ExtensionRequest::ApproveExtension { .. }) => {
                invoice.pending_due_date->0 > invoice.original_due_date + 7_776_000
            },
            _ => false,
        },
        InvoiceError::PoolCallFailed => request matches Request::Funding(
            FundingRequest::MarkPaid { repaid, .. },
        ) && repaid is None,
        InvoiceError::ArithmeticOverflow => match request {
            Request::Setup(SetupRequest::Initialize { expiration_duration_secs, .. }) => {
                expiration_duration_secs > 315_360_000
            },
            Request::Limit(LimitRequest::SetExpirationDuration { expiration_duration_secs, .. })
                => expiration_duration_secs > 315_360_000,
            _ => false,
        },
        InvoiceError::UpgradeTimelockNotExpired => request matches Request::Upgrade(
            UpgradeRequest::ExecuteUpgrade { now, .. },
        ) && now < rules.upgrade_scheduled_at->0 + rules.upgrade_timelock,
        InvoiceError::InvalidUpgradeTimelock => request matches Request::Upgrade(
            UpgradeRequest::SetUpgradeTimelock { secs, .. },
        ) && secs < 3_600,
        InvoiceError::InvalidWasmHash => request matches Request::Upgrade(
            UpgradeRequest::ProposeUpgrade { wasm_hash, .. },
        ) && forall|i: int| 0 <= i < wasm_hash.len() ==> #[trigger] wasm_hash[i] == 0,
        InvoiceError::VerificationDeadlineNotPassed => request matches Request::Verification(
            VerificationRequest::TimeoutVerification { now, .. },
        ) && now < invoice.verification_deadline,
        InvoiceError::AdminChangeTimelockNotExpired => request matches Request::AdminChange(
            AdminChangeRequest::FinalizeAdminChange { now, .. },
        ) && rules.admin_change_scheduled_at is Some && now < rules.admin_change_scheduled_at->0
            + 172_800,
        InvoiceError::NoAdminChangeProposed => request is AdminChange && (rules.pending_admin
            is None || rules.admin_change_scheduled_at is None),
        InvoiceError::DisputeWindowClosed => request matches Request::Dispute(
            DisputeRequest::RaiseDispute { now, .. },
        ) && now > crate::invoice::effects::later(
            crate::invoice::effects::in_default_from(state, invoice),
            rules.dispute_window as int,
        ),
        InvoiceError::DisputeAlreadyResolved => request matches Request::Dispute(
            DisputeRequest::ResolveDefaultDispute { id, .. },
        ) && !(state.disputes[id].outcome is Pending),
        InvoiceError::ConsensusVerificationRequired => request matches Request::Verification(r)
            && r is VerifyInvoice && rules.require_consensus,
        InvoiceError::OracleRegistryNotConfigured => request matches Request::Verification(r)
            && r is ConsensusVerify && rules.oracle_registry is None,
        InvoiceError::UnauthorizedRegistry => request matches Request::Verification(
            VerificationRequest::ConsensusVerify { registry, .. },
        ) && rules.oracle_registry != Some(registry),
        InvoiceError::InvalidAmount => request matches Request::Debtor(
            DebtorRequest::RegisterDebtorViaAc { max_exposure, .. },
        ) && max_exposure <= 0,
        _ => false,
    }
}

/// Whether a reason in words that concerns new invoices alone is one to refuse one.
pub open spec fn true_objection_to_creation(
    state: InvoiceState,
    request: InvoiceRequest<Seq<u8>>,
    o: Objection,
) -> bool {
    let rules = state.settings;
    let record = state.debtors[request.debtor];
    match o {
        Objection::InvalidMetadataUri => request.metadata_uri is Some && !(
        request.metadata_uri->0.len() <= 256
            && crate::invoice::creation_effects::leads_somewhere(request.metadata_uri->0)),
        Objection::MaxAmountNotSet => rules.max_invoice_amount is None,
        Objection::AmountExceedsMaximum => request.amount > rules.max_invoice_amount->0,
        Objection::SmeExposureLimitExceeded => rules.max_outstanding_per_sme < i128::MAX
            && crate::invoice::effects::owed_by(state, request.owner) + request.amount
            > rules.max_outstanding_per_sme,
        Objection::DebtorNotRegistered => rules.require_registered_debtor
            && !state.debtors.dom().contains(request.debtor),
        Objection::DebtorNotActive => rules.require_registered_debtor && !record.is_active,
        Objection::DebtorExposureExceeded => rules.require_registered_debtor
            && record.max_exposure < record.current_exposure + request.amount <= i128::MAX,
        Objection::PoolNotConfigured => rules.pool is None,
        _ => false,
    }
}

/// Whether a reason in words is one to refuse a request that is not for a new
/// invoice.
pub open spec fn true_objection(state: InvoiceState, request: Request, o: Objection) -> bool {
    let rules = state.settings;
    let invoice = state.invoices[number_of(request)->0];
    match o {
        Objection::NotInitialized => {
            ||| crate::invoice::authority::administrator_of(request) is Some && rules.admin is None
            ||| crate::invoice::authority::pool_of(request) is Some && rules.pool is None
            ||| match request {
                Request::Verification(r) => (r is TimeoutVerification || r is ResolveDispute)
                    && rules.admin is None,
                Request::Funding(r) => r is MarkDefaulted && rules.pool is None,
                Request::Extension(r) => r is ApproveExtension && rules.admin is None,
                Request::Closing(r) => r is CancelInvoice && rules.admin is None,
                _ => false,
            }
        },
        Objection::Unauthorized => has_no_right(state, request) && denied_in_words(request),
        Objection::CallerNotAdmin => has_no_right(state, request) && request is Exception,
        Objection::UnauthorizedPool => has_no_right(state, request) && request is Funding,
        Objection::OnlyPoolCanMarkPaid => has_no_right(state, request) && (request
            matches Request::Funding(r) && r is MarkPaid),
        Objection::MaxAmountNotPositive => match request {
            Request::Setup(SetupRequest::Initialize { max_invoice_amount, .. }) => {
                max_invoice_amount <= 0
            },
            Request::Limit(LimitRequest::SetMaxInvoiceAmount { max_invoice_amount, .. }) => {
                max_invoice_amount <= 0
            },
            _ => false,
        },
        Objection::ExpirationZero => match request {
            Request::Setup(SetupRequest::Initialize { expiration_duration_secs, .. }) => {
                expiration_duration_secs == 0
            },
            Request::Limit(LimitRequest::SetExpirationDuration { expiration_duration_secs, .. })
                => expiration_duration_secs == 0,
            _ => false,
        },
        Objection::GracePeriodTooLong => match request {
            Request::Setup(SetupRequest::Initialize { grace_period_days, .. }) => {
                grace_period_days > 90
            },
            Request::Window(WindowRequest::SetGracePeriod { days, .. }) => days > 90,
            _ => false,
        },
        Objection::MaxExposureNotPositive => request matches Request::Debtor(
            DebtorRequest::RegisterDebtor { max_exposure, .. },
        ) && max_exposure <= 0,
        Objection::DebtorNotFound => match request {
            Request::Debtor(DebtorRequest::DeactivateDebtor { debtor_id, .. }) => {
                !state.debtors.dom().contains(debtor_id)
            },
            Request::Debtor(DebtorRequest::DeactivateDebtorViaAc { debtor_id, .. }) => {
                !state.debtors.dom().contains(debtor_id)
            },
            _ => false,
        },
        Objection::InvalidImageUri => request matches Request::Requirement(
            RequirementRequest::SetMetadataImageUri { uri, .. },
        ) && !(1 <= uri.len() <= 256),
        Objection::DailyLimitZero => request matches Request::Limit(
            LimitRequest::SetDailyInvoiceLimit { limit, .. },
        ) && limit == 0,
        Objection::DailyLimitTooHigh => request matches Request::Limit(
            LimitRequest::SetDailyInvoiceLimit { limit, .. },
        ) && limit > 1_000,
        Objection::MaxOutstandingNotPositive => request matches Request::Limit(
            LimitRequest::SetMaxSmeOutstanding { max, .. },
        ) && max <= 0,
        Objection::CompletedTtlTooShort => request matches Request::Limit(
            LimitRequest::SetCompletedInvoiceTtl { ttl_ledgers, .. },
        ) && ttl_ledgers < 6_307_200,
        Objection::OracleNotConfigured => request is Verification && rules.oracle is None,
        Objection::UnauthorizedOracle => request matches Request::Verification(
            VerificationRequest::VerifyInvoice { oracle, .. },
        ) && rules.oracle != Some(oracle) && rules.oracle_secondary != Some(oracle),
        Objection::InvoiceNotFound => names_nothing(state, request) && missed_in_words(request),
        Objection::NotAwaitingVerification => request is Verification && !(invoice.status
            is AwaitingVerification),
        Objection::NotDisputed => request is Verification && !(invoice.status is Disputed),
        Objection::DisputeWindowNotPassed => request matches Request::Verification(
            VerificationRequest::ResolveDispute { now, caller, .. },
        ) && rules.oracle != Some(caller) && now < crate::invoice::effects::later(
            invoice.disputed_at as int,
            rules.dispute_window as int,
        ),
        Objection::InvoiceExpired => request matches Request::Funding(FundingRequest::MarkFunded {
            now,
            ..
        }) && (invoice.status is Expired || crate::invoice::effects::waited_too_long(
            state,
            invoice,
            now,
        )),
        Objection::NotFundable => request matches Request::Funding(r) && !(invoice.status
            is Pending) && !(invoice.status is Verified) && !(invoice.status is Funded && r
            is RecordFunding),
        Objection::AmountNotPositive => request matches Request::Funding(
            FundingRequest::RecordFunding { amount, .. },
        ) && amount <= 0,
        Objection::NotFunded => request is Funding && !(invoice.status is Funded),
        Objection::RepaymentNotVerified => request matches Request::Funding(
            FundingRequest::MarkPaid { repaid, .. },
        ) && repaid == Some(false),
        Objection::FundingOverflow => request matches Request::Funding(
            FundingRequest::AddFunding { id, amount, .. },
        ) && !crate::invoice::effects::fits(
            crate::invoice::effects::added_up(state, id) + amount,
        ),
        Objection::GracePeriodNotElapsed { default_at } => request matches Request::Funding(
            FundingRequest::MarkDefaulted { now, .. },
        ) && default_at == crate::invoice::effects::in_default_from(state, invoice) && now
            < default_at,
        Objection::DisputeNotFound => request is Dispute && !state.disputes.dom().contains(
            number_of(request)->0,
        ),
        Objection::InvalidStatusTransition => is_out_of_order(state, request) && request
            is Closing,
        Objection::CleanupNotCompleted => request is Closing && !crate::invoice::effects::is_over(
            invoice.status,
        ),
        Objection::CleanupBatchTooLarge => request matches Request::Closing(
            ClosingRequest::CleanupExpiredStorage { ids, .. },
        ) && ids.len() > 50,
        Objection::ExpirationBatchTooLarge => request matches Request::Closing(
            ClosingRequest::BatchCheckExpiration { ids, .. },
        ) && ids.len() > 20,
        Objection::GraceOverrideTooLong { days } => request matches Request::Exception(
            ExceptionRequest::SetInvoiceGracePeriod { days: asked, .. },
        ) && asked == days && days > 90,
        Objection::GraceOverrideNotFunded => request is Exception && !(invoice.status is Funded),
        Objection::NoUpgradeProposed => request matches Request::Upgrade(r) && r is ExecuteUpgrade
            && rules.upgrade_scheduled_at is None,
        Objection::NoWasmHash => request matches Request::Upgrade(r) && r is ExecuteUpgrade
            && state.proposed_wasm is None,
        _ => false,
    }
}

/// Whether a request runs into the end of a range or of a list.
pub open spec fn true_trap(state: InvoiceState, request: Request, trap: Trap) -> bool {
    let rules = state.settings;
    match request {
        Request::Keeper(_) => trap is CollectionFull && state.keepers.len() >= u32::MAX,
        Request::Debtor(_) => trap is CollectionFull && state.debtor_ids.len() >= u32::MAX,
        Request::Upgrade(UpgradeRequest::ProposeUpgrade { now, .. }) => trap is Overflow && now
            + rules.upgrade_timelock > u64::MAX,
        Request::Upgrade(UpgradeRequest::ExecuteUpgrade { .. }) => trap is Overflow
            && rules.upgrade_scheduled_at->0 + rules.upgrade_timelock > u64::MAX,
        Request::AdminChange(AdminChangeRequest::ProposeAdminChange { now, .. }) => trap is Overflow
            && now + 172_800 > u64::MAX,
        Request::AdminChange(AdminChangeRequest::FinalizeAdminChange { .. }) => trap is Overflow
            && rules.admin_change_scheduled_at is Some && rules.admin_change_scheduled_at->0
            + 172_800 > u64::MAX,
        Request::Closing(ClosingRequest::CleanupInvoice { .. }) => trap is Overflow
            && state.stats.cleaned_invoices == u64::MAX,
        Request::Creation(_) => {
            let (now, wanted, _) = creation_of(request)->0;
            match trap {
                Trap::CollectionFull => crate::invoice::effects::listed(state, wanted.owner).len()
                    >= u32::MAX,
                Trap::Overflow => {
                    ||| state.invoice_count == u64::MAX
                    ||| state.stats.total_invoices == u64::MAX
                    ||| state.stats.active_invoices == u64::MAX
                    ||| rules.require_registered_debtor && !crate::invoice::effects::fits(
                        state.debtors[wanted.debtor].current_exposure + wanted.amount,
                    )
                },
            }
        },
        _ => false,
    }
}

/// Whether a failure is a true one.
pub open spec fn true_failure(state: InvoiceState, request: Request, f: InvoiceFailure) -> bool {
    match f {
        InvoiceFailure::Error(e) => if request is Creation {
            let (now, wanted, clearance) = creation_of(request)->0;
            true_reason_against_creation(state, now, wanted, clearance, e)
        } else {
            true_reason(state, request, e)
        },
        InvoiceFailure::Objection(o) => if request is Creation {
            let (_, wanted, _) = creation_of(request)->0;
            true_objection_to_creation(state, wanted, o)
        } else {
            true_objection(state, request, o)
        },
        InvoiceFailure::Trap(trap) => true_trap(state, request, trap),
    }
}

/// A request that is refused is refused for a reason that holds.
pub proof fn refusals_give_true_reasons(state: InvoiceState, request: Request)
    ensures
        match state.apply(request) {
            Ok(_) => true,
            Err(f) => true_failure(state, request, f),
        },
{
    match request {
        Request::Setup(_) => lemma_setup(state, request),
        Request::Limit(_) => lemma_limit(state, request),
        Request::Window(_) => lemma_window(state, request),
        Request::Requirement(_) => lemma_requirement(state, request),
        Request::Exception(_) => lemma_exception(state, request),
        Request::Oracle(_) => lemma_oracle(state, request),
        Request::Pausing(_) => lemma_pausing(state, request),
        Request::Keeper(_) => lemma_keeper(state, request),
        Request::Upgrade(_) => lemma_upgrade(state, request),
        Request::AdminChange(_) => lemma_admin_change(state, request),
        Request::Debtor(_) => lemma_debtor(state, request),
        Request::Creation(_) => lemma_creation(state, request),
        Request::Verification(_) => lemma_verification(state, request),
        Request::Funding(_) => lemma_funding(state, request),
        Request::Extension(_) => lemma_extension(state, request),
        Request::Dispute(_) => lemma_dispute(state, request),
        Request::Closing(_) => lemma_closing(state, request),
        Request::Warning(_) => lemma_warning(state, request),
    }
}

proof fn lemma_setup(state: InvoiceState, request: Request)
    requires
        request is Setup,
    ensures
        match state.apply(request) {
            Ok(_) => true,
            Err(f) => true_failure(state, request, f),
        },
{
    reveal(InvoiceState::apply_setup);
}

proof fn lemma_limit(state: InvoiceState, request: Request)
    requires
        request is Limit,
    ensures
        match state.apply(request) {
            Ok(_) => true,
            Err(f) => true_failure(state, request, f),
        },
{
    reveal(InvoiceState::apply_limit);
}

proof fn lemma_window(state: InvoiceState, request: Request)
    requires
        request is Window,
    ensures
        match state.apply(request) {
            Ok(_) => true,
            Err(f) => true_failure(state, request, f),
        },
{
    reveal(InvoiceState::apply_window);
}

proof fn lemma_requirement(state: InvoiceState, request: Request)
    requires
        request is Requirement,
    ensures
        match state.apply(request) {
            Ok(_) => true,
            Err(f) => true_failure(state, request, f),
        },
{
    reveal(InvoiceState::apply_requirement);
}

proof fn lemma_exception(state: InvoiceState, request: Request)
    requires
        request is Exception,
    ensures
        match state.apply(request) {
            Ok(_) => true,
            Err(f) => true_failure(state, request, f),
        },
{
    reveal(InvoiceState::apply_exception);
}

proof fn lemma_oracle(state: InvoiceState, request: Request)
    requires
        request is Oracle,
    ensures
        match state.apply(request) {
            Ok(_) => true,
            Err(f) => true_failure(state, request, f),
        },
{
    reveal(InvoiceState::apply_oracle);
}

proof fn lemma_pausing(state: InvoiceState, request: Request)
    requires
        request is Pausing,
    ensures
        match state.apply(request) {
            Ok(_) => true,
            Err(f) => true_failure(state, request, f),
        },
{
    reveal(InvoiceState::apply_pausing);
}

proof fn lemma_keeper(state: InvoiceState, request: Request)
    requires
        request is Keeper,
    ensures
        match state.apply(request) {
            Ok(_) => true,
            Err(f) => true_failure(state, request, f),
        },
{
    reveal(InvoiceState::apply_keeper);
}

proof fn lemma_upgrade(state: InvoiceState, request: Request)
    requires
        request is Upgrade,
    ensures
        match state.apply(request) {
            Ok(_) => true,
            Err(f) => true_failure(state, request, f),
        },
{
    reveal(InvoiceState::apply_upgrade);
}

proof fn lemma_admin_change(state: InvoiceState, request: Request)
    requires
        request is AdminChange,
    ensures
        match state.apply(request) {
            Ok(_) => true,
            Err(f) => true_failure(state, request, f),
        },
{
    reveal(InvoiceState::apply_admin_change);
}

proof fn lemma_debtor(state: InvoiceState, request: Request)
    requires
        request is Debtor,
    ensures
        match state.apply(request) {
            Ok(_) => true,
            Err(f) => true_failure(state, request, f),
        },
{
    reveal(InvoiceState::apply_debtor);
}

proof fn lemma_verification(state: InvoiceState, request: Request)
    requires
        request is Verification,
    ensures
        match state.apply(request) {
            Ok(_) => true,
            Err(f) => true_failure(state, request, f),
        },
{
    reveal(InvoiceState::apply_verification);
}

proof fn lemma_funding(state: InvoiceState, request: Request)
    requires
        request is Funding,
    ensures
        match state.apply(request) {
            Ok(_) => true,
            Err(f) => true_failure(state, request, f),
        },
{
    reveal(InvoiceState::apply_funding);
}

proof fn lemma_extension(state: InvoiceState, request: Request)
    requires
        request is Extension,
    ensures
        match state.apply(request) {
            Ok(_) => true,
            Err(f) => true_failure(state, request, f),
        },
{
    reveal(InvoiceState::apply_extension);
}

proof fn lemma_dispute(state: InvoiceState, request: Request)
    requires
        request is Dispute,
    ensures
        match state.apply(request) {
            Ok(_) => true,
            Err(f) => true_failure(state, request, f),
        },
{
    reveal(InvoiceState::apply_dispute);
}

proof fn lemma_warning(state: InvoiceState, request: Request)
    requires
        request is Warning,
    ensures
        match state.apply(request) {
            Ok(_) => true,
            Err(f) => true_failure(state, request, f),
        },
{
    reveal(InvoiceState::apply_warning);
}

proof fn lemma_creation(state: InvoiceState, request: Request)
    requires
        request is Creation,
    ensures
        match state.apply(request) {
            Ok(_) => true,
            Err(f) => true_failure(state, request, f),
        },
{
    reveal(InvoiceState::apply_creation);
    let (now, wanted, clearance) = creation_of(request)->0;
    crate::invoice::creation_effects::texts_have_to_fit(
        wanted.debtor,
        wanted.description,
        wanted.verification_hash,
    );
    if wanted.metadata_uri is Some {
        crate::invoice::creation_effects::links_have_to_lead_somewhere(wanted.metadata_uri->0);
    }
    crate::invoice::creation_effects::invoices_are_taken(state, now, wanted, clearance);
    crate::invoice::creation_effects::creations_count_for_a_day(state, now, wanted.owner);
}

proof fn lemma_closing(state: InvoiceState, request: Request)
    requires
        request is Closing,
    ensures
        match state.apply(request) {
            Ok(_) => true,
            Err(f) => true_failure(state, request, f),
        },
{
    reveal(InvoiceState::apply_closing);
    if let Request::Closing(ClosingRequest::BatchCheckExpiration { now, ids }) = request {
        state.lemma_expire_each(now, ids);
    }
}

/// Different errors are reported under different numbers.
pub proof fn errors_are_told_apart(a: InvoiceError, b: InvoiceError)
    requires
        a != b,
    ensures
        a.spec_code() != b.spec_code(),
        a.spec_code() <= 46,
{
}

/// The errors of the ledger, in the order of their numbers.
pub open spec fn numbered() -> Seq<InvoiceError> {
    seq![
        InvoiceError::AlreadyInitialized,
        InvoiceError::Unauthorized,
        InvoiceError::InvalidStatusTransition,
        InvoiceError::InvoiceNotFound,
        InvoiceError::HashMismatch,
        InvoiceError::SmeExposureLimitExceeded,
        InvoiceError::AmountOverflow,
        InvoiceError::EmptyField,
        InvoiceError::FieldTooLong,
        InvoiceError::DateOverflow,
        InvoiceError::InvalidMetadata,
        InvoiceError::DescriptionTooLong,
        InvoiceError::DebtorNameTooLong,
        InvoiceError::VerificationHashTooLong,
        InvoiceError::ExtensionAlreadyPending,
        InvoiceError::InvalidDueDateExtension,
        InvoiceError::ExtensionTooLarge,
        InvoiceError::NoPendingExtension,
        InvoiceError::PoolCallFailed,
        InvoiceError::ArithmeticOverflow,
        InvoiceError::EmptyDebtorName,
        InvoiceError::EmptyDescription,
        InvoiceError::InvalidVerificationHash,
        InvoiceError::DueDateTooSoon,
        InvoiceError::UpgradeTimelockNotExpired,
        InvoiceError::InvalidUpgradeTimelock,
        InvoiceError::InvalidWasmHash,
        InvoiceError::VerificationDeadlineNotPassed,
        InvoiceError::AdminChangePending,
        InvoiceError::AdminChangeTimelockNotExpired,
        InvoiceError::NoAdminChangeProposed,
        InvoiceError::ContractPaused,
        InvoiceError::DisputeWindowClosed,
        InvoiceError::DisputeNotFound,
        InvoiceError::DisputeAlreadyResolved,
        InvoiceError::ConsensusVerificationRequired,
        InvoiceError::OracleRegistryNotConfigured,
        InvoiceError::UnauthorizedRegistry,
        InvoiceError::ComplianceNotCleared,
        InvoiceError::ComplianceCheckFailed,
        InvoiceError::ComplianceRegistryNotConfigured,
        InvoiceError::RateLimitExceeded,
        InvoiceError::InvalidDescriptionChars,
        InvoiceError::InvalidAmount,
        InvoiceError::InvalidDueDate,
        InvoiceError::AccessControlNotConfigured,
        InvoiceError::IDCollision,
    ]
}

/// An error is reported under its place in the order of the numbers.
pub proof fn errors_are_numbered_in_order(e: InvoiceError)
    ensures
        numbered().len() == 47,
        e.spec_code() < 47,
        numbered()[e.spec_code() as int] == e,
{
}

/// A reason in words is told in these.
pub proof fn reasons_are_worded(o: Objection)
    ensures
        match o {
            Objection::MaxAmountNotPositive => o.words() == "max invoice amount must be positive"@,
            Objection::ExpirationZero => o.words() == "expiration duration must be non-zero"@,
            Objection::GracePeriodTooLong => o.words() == "grace period cannot exceed 90 days"@,
            Objection::NotInitialized => o.words() == "not initialized"@,
            Objection::Unauthorized => o.words() == "unauthorized"@,
            Objection::MaxExposureNotPositive => o.words() == "max_exposure must be positive"@,
            Objection::DebtorNotFound => o.words() == "debtor not found"@,
            Objection::InvalidImageUri => o.words() == "invalid metadata image uri"@,
            Objection::InvalidMetadataUri => o.words() == "invalid metadata uri"@,
            Objection::MaxAmountNotSet => o.words() == "max invoice amount not set"@,
            Objection::AmountExceedsMaximum => o.words() == "invoice amount exceeds maximum"@,
            Objection::SmeExposureLimitExceeded => o.words() == "SmeExposureLimitExceeded"@,
            Objection::DebtorNotRegistered => o.words() == "debtor not registered"@,
            Objection::DebtorNotActive => o.words() == "debtor is not active"@,
            Objection::DebtorExposureExceeded => o.words() == "invoice would exceed debtor exposure limit"@,
            Objection::PoolNotConfigured => o.words() == "pool not configured"@,
            Objection::DailyLimitZero => o.words() == "daily invoice limit must be positive"@,
            Objection::DailyLimitTooHigh => o.words() == "daily invoice limit too high"@,
            Objection::OracleNotConfigured => o.words() == "oracle not configured"@,
            Objection::UnauthorizedOracle => o.words() == "unauthorized oracle"@,
            Objection::InvoiceNotFound => o.words() == "invoice not found"@,
            Objection::NotAwaitingVerification => o.words() == "invoice is not awaiting verification"@,
            Objection::NotDisputed => o.words() == "invoice is not disputed"@,
            Objection::DisputeWindowNotPassed => o.words() == "dispute resolution window not yet passed for admin"@,
            Objection::UnauthorizedPool => o.words() == "unauthorized pool"@,
            Objection::InvoiceExpired => o.words() == "invoice is expired"@,
            Objection::NotFundable => o.words() == "invoice is not in fundable state"@,
            Objection::AmountNotPositive => o.words() == "amount must be positive"@,
            Objection::OnlyPoolCanMarkPaid => o.words() == "unauthorized: only pool can mark paid"@,
            Objection::NotFunded => o.words() == "invoice is not funded"@,
            Objection::RepaymentNotVerified => o.words() == "repayment not verified by pool contract"@,
            Objection::FundingOverflow => o.words() == "funding overflow"@,
            Objection::GracePeriodNotElapsed { .. } => o.words() == "grace period has not elapsed: default available at"@,
            Objection::DisputeNotFound => o.words() == "dispute not found"@,
            Objection::InvalidStatusTransition => o.words() == "invalid status transition"@,
            Objection::CleanupNotCompleted => o.words() == "can only cleanup completed invoices"@,
            Objection::CleanupBatchTooLarge => o.words() == "cleanup batch exceeds maximum of 50 entries"@,
            Objection::ExpirationBatchTooLarge => o.words() == "batch_check_expiration: max 20 IDs per call"@,
            Objection::MaxOutstandingNotPositive => o.words() == "max outstanding must be positive"@,
            Objection::CompletedTtlTooShort => o.words() == "completed TTL must be at least as long as ACTIVE_INVOICE_TTL"@,
            Objection::CallerNotAdmin => o.words() == "unauthorized: caller is not admin"@,
            Objection::GraceOverrideTooLong { .. } => o.words() == "grace period override days exceeds maximum of 90 days"@,
            Objection::GraceOverrideNotFunded => o.words() == "grace period override only allowed on Funded invoices"@,
            Objection::NoUpgradeProposed => o.words() == "no upgrade proposed"@,
            Objection::NoWasmHash => o.words() == "no wasm hash proposed"@,
        },
{
}

/// A suspended ledger says so, whatever else is wrong with a request that it does
/// not take; the access control is checked before, and so is a link that has to be
/// there.
pub proof fn suspension_is_told_first(state: InvoiceState, request: Request)
    requires
        state.settings.paused,
        crate::invoice::authority::stops_when_paused(request),
        crate::invoice::authority::access_control_of(request) is None,
        !(request matches Request::Creation(r) && r is CreateInvoice),
    ensures
        state.apply(request) == Err::<InvoiceState, InvoiceFailure>(
            InvoiceFailure::Error(InvoiceError::ContractPaused),
        ),
{
    match request {
        Request::Limit(_) => {
            reveal(InvoiceState::apply_limit);
        },
        Request::Requirement(_) => {
            reveal(InvoiceState::apply_requirement);
        },
        Request::Exception(_) => {
            reveal(InvoiceState::apply_exception);
        },
        Request::Oracle(_) => {
            reveal(InvoiceState::apply_oracle);
        },
        Request::Keeper(_) => {
            reveal(InvoiceState::apply_keeper);
        },
        Request::AdminChange(_) => {
            reveal(InvoiceState::apply_admin_change);
        },
        Request::Creation(_) => {
            reveal(InvoiceState::apply_creation);
        },
        Request::Verification(_) => {
            reveal(InvoiceState::apply_verification);
        },
        Request::Funding(_) => {
            reveal(InvoiceState::apply_funding);
        },
        Request::Extension(_) => {
            reveal(InvoiceState::apply_extension);
        },
        Request::Dispute(_) => {
            reveal(InvoiceState::apply_dispute);
        },
        Request::Closing(_) => {
            reveal(InvoiceState::apply_closing);
        },
        _ => {},
    }
}

} // verus!
