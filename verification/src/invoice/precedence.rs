//! In which order the invoice ledger looks for reasons to refuse.

use vstd::prelude::*;
use crate::invoice::error::{InvoiceError, InvoiceFailure, Objection};
use crate::invoice::requests::{
    ClosingRequest, CreationRequest, DisputeRequest, ExtensionRequest,
    FundingRequest, Request, VerificationRequest,
};
use crate::invoice::state::InvoiceState;
use crate::outcome::Trap;

verus! {

/// The place of a failure among those that a new invoice can meet with.
pub open spec fn turn_in_creation(request: CreationRequest, f: InvoiceFailure) -> int {
    match f {
        InvoiceFailure::Error(InvoiceError::InvalidMetadata) => if request is CreateInvoice {
            0
        } else {
            99
        },
        InvoiceFailure::Error(InvoiceError::ContractPaused) => 1,
        InvoiceFailure::Error(InvoiceError::EmptyDebtorName) => 2,
        InvoiceFailure::Error(InvoiceError::EmptyDescription) => 3,
        InvoiceFailure::Error(InvoiceError::InvalidVerificationHash) => 4,
        InvoiceFailure::Error(InvoiceError::DescriptionTooLong) => 5,
        InvoiceFailure::Error(InvoiceError::DebtorNameTooLong) => 6,
        InvoiceFailure::Error(InvoiceError::VerificationHashTooLong) => 7,
        InvoiceFailure::Error(InvoiceError::InvalidDescriptionChars) => 8,
        InvoiceFailure::Error(InvoiceError::ComplianceRegistryNotConfigured) => 9,
        InvoiceFailure::Error(InvoiceError::ComplianceNotCleared) => 10,
        InvoiceFailure::Error(InvoiceError::ComplianceCheckFailed) => 10,
        InvoiceFailure::Objection(Objection::InvalidMetadataUri) => 11,
        InvoiceFailure::Error(InvoiceError::InvalidAmount) => 12,
        InvoiceFailure::Objection(Objection::MaxAmountNotSet) => 13,
        InvoiceFailure::Objection(Objection::AmountExceedsMaximum) => 14,
        InvoiceFailure::Error(InvoiceError::InvalidDueDate) => 15,
        InvoiceFailure::Error(InvoiceError::DueDateTooSoon) => 16,
        InvoiceFailure::Error(InvoiceError::DateOverflow) => 17,
        InvoiceFailure::Objection(Objection::SmeExposureLimitExceeded) => 18,
        InvoiceFailure::Objection(Objection::DebtorNotRegistered) => 19,
        InvoiceFailure::Objection(Objection::DebtorNotActive) => 20,
        InvoiceFailure::Trap(Trap::Overflow) => 21,
        InvoiceFailure::Objection(Objection::DebtorExposureExceeded) => 22,
        InvoiceFailure::Error(InvoiceError::RateLimitExceeded) => 23,
        InvoiceFailure::Objection(Objection::PoolNotConfigured) => 24,
        InvoiceFailure::Error(InvoiceError::ArithmeticOverflow) => 25,
        InvoiceFailure::Error(InvoiceError::IDCollision) => 26,
        InvoiceFailure::Trap(Trap::CollectionFull) => 27,
        _ => 99,
    }
}

/// The place of a failure among those that a verification can meet with.
pub open spec fn turn_in_verification(request: VerificationRequest, f: InvoiceFailure) -> int {
    match request {
        VerificationRequest::VerifyInvoice { .. } => match f {
            InvoiceFailure::Error(InvoiceError::ContractPaused) => 0,
            InvoiceFailure::Error(InvoiceError::ConsensusVerificationRequired) => 1,
            InvoiceFailure::Objection(Objection::OracleNotConfigured) => 2,
            InvoiceFailure::Objection(Objection::UnauthorizedOracle) => 3,
            InvoiceFailure::Objection(Objection::InvoiceNotFound) => 4,
            InvoiceFailure::Objection(Objection::NotAwaitingVerification) => 5,
            InvoiceFailure::Error(InvoiceError::HashMismatch) => 6,
            _ => 99,
        },
        VerificationRequest::ConsensusVerify { .. } => match f {
            InvoiceFailure::Error(InvoiceError::ContractPaused) => 0,
            InvoiceFailure::Error(InvoiceError::OracleRegistryNotConfigured) => 1,
            InvoiceFailure::Error(InvoiceError::UnauthorizedRegistry) => 2,
            InvoiceFailure::Objection(Objection::InvoiceNotFound) => 3,
            InvoiceFailure::Objection(Objection::NotAwaitingVerification) => 4,
            InvoiceFailure::Error(InvoiceError::HashMismatch) => 5,
            _ => 99,
        },
        VerificationRequest::TimeoutVerification { .. } => match f {
            InvoiceFailure::Error(InvoiceError::ContractPaused) => 0,
            InvoiceFailure::Objection(Objection::InvoiceNotFound) => 1,
            InvoiceFailure::Objection(Objection::NotInitialized) => 2,
            InvoiceFailure::Error(InvoiceError::Unauthorized) => 3,
            InvoiceFailure::Error(InvoiceError::InvalidStatusTransition) => 4,
            InvoiceFailure::Error(InvoiceError::VerificationDeadlineNotPassed) => 5,
            _ => 99,
        },
        VerificationRequest::ResolveDispute { .. } => match f {
            InvoiceFailure::Error(InvoiceError::ContractPaused) => 0,
            InvoiceFailure::Objection(Objection::InvoiceNotFound) => 1,
            InvoiceFailure::Objection(Objection::NotDisputed) => 2,
            InvoiceFailure::Objection(Objection::NotInitialized) => 3,
            InvoiceFailure::Objection(Objection::OracleNotConfigured) => 4,
            InvoiceFailure::Objection(Objection::Unauthorized) => 5,
            InvoiceFailure::Objection(Objection::DisputeWindowNotPassed) => 6,
            InvoiceFailure::Error(InvoiceError::InvalidStatusTransition) => 7,
            _ => 99,
        },
    }
}

/// The place of a failure among those that an entry in the books can meet with.
pub open spec fn turn_in_funding(request: FundingRequest, f: InvoiceFailure) -> int {
    match request {
        FundingRequest::MarkFunded { .. } => match f {
            InvoiceFailure::Error(InvoiceError::ContractPaused) => 0,
            InvoiceFailure::Objection(Objection::NotInitialized) => 1,
            InvoiceFailure::Objection(Objection::UnauthorizedPool) => 2,
            InvoiceFailure::Objection(Objection::InvoiceNotFound) => 3,
            InvoiceFailure::Objection(Objection::InvoiceExpired) => 4,
            InvoiceFailure::Objection(Objection::NotFundable) => 5,
            InvoiceFailure::Error(InvoiceError::Unauthorized) => 6,
            InvoiceFailure::Error(InvoiceError::AmountOverflow) => 7,
            InvoiceFailure::Error(InvoiceError::SmeExposureLimitExceeded) => 8,
            _ => 99,
        },
        FundingRequest::RecordFunding { .. } => match f {
            InvoiceFailure::Error(InvoiceError::ContractPaused) => 0,
            InvoiceFailure::Objection(Objection::NotInitialized) => 1,
            InvoiceFailure::Objection(Objection::UnauthorizedPool) => 2,
            InvoiceFailure::Objection(Objection::AmountNotPositive) => 3,
            InvoiceFailure::Objection(Objection::InvoiceNotFound) => 4,
            InvoiceFailure::Objection(Objection::NotFundable) => 5,
            InvoiceFailure::Error(InvoiceError::Unauthorized) => 6,
            InvoiceFailure::Error(InvoiceError::SmeExposureLimitExceeded) => 7,
            InvoiceFailure::Error(InvoiceError::AmountOverflow) => 8,
            _ => 99,
        },
        FundingRequest::MarkPaid { .. } => match f {
            InvoiceFailure::Error(InvoiceError::ContractPaused) => 0,
            InvoiceFailure::Objection(Objection::NotInitialized) => 1,
            InvoiceFailure::Objection(Objection::OnlyPoolCanMarkPaid) => 2,
            InvoiceFailure::Objection(Objection::InvoiceNotFound) => 3,
            InvoiceFailure::Objection(Objection::NotFunded) => 4,
            InvoiceFailure::Error(InvoiceError::PoolCallFailed) => 5,
            InvoiceFailure::Objection(Objection::RepaymentNotVerified) => 5,
            _ => 99,
        },
        FundingRequest::AddFunding { .. } => match f {
            InvoiceFailure::Error(InvoiceError::ContractPaused) => 0,
            InvoiceFailure::Objection(Objection::NotInitialized) => 1,
            InvoiceFailure::Objection(Objection::UnauthorizedPool) => 2,
            InvoiceFailure::Objection(Objection::InvoiceNotFound) => 3,
            InvoiceFailure::Objection(Objection::NotFundable) => 4,
            InvoiceFailure::Objection(Objection::FundingOverflow) => 5,
            InvoiceFailure::Error(InvoiceError::AmountOverflow) => 6,
            _ => 99,
        },
        FundingRequest::MarkDefaulted { .. } => match f {
            InvoiceFailure::Error(InvoiceError::ContractPaused) => 0,
            InvoiceFailure::Objection(Objection::NotInitialized) => 1,
            InvoiceFailure::Error(InvoiceError::Unauthorized) => 2,
            InvoiceFailure::Objection(Objection::InvoiceNotFound) => 3,
            InvoiceFailure::Objection(Objection::NotFunded) => 4,
            InvoiceFailure::Error(InvoiceError::DateOverflow) => 5,
            InvoiceFailure::Objection(Objection::GracePeriodNotElapsed { .. }) => 6,
            _ => 99,
        },
    }
}

/// The place of a failure among those that a later due date can meet with.
pub open spec fn turn_in_extension(request: ExtensionRequest, f: InvoiceFailure) -> int {
    match request {
        ExtensionRequest::RequestExtension { .. } => match f {
            InvoiceFailure::Error(InvoiceError::ContractPaused) => 0,
            InvoiceFailure::Error(InvoiceError::InvoiceNotFound) => 1,
            InvoiceFailure::Error(InvoiceError::Unauthorized) => 2,
            InvoiceFailure::Error(InvoiceError::InvalidStatusTransition) => 3,
            InvoiceFailure::Error(InvoiceError::ExtensionAlreadyPending) => 4,
            InvoiceFailure::Error(InvoiceError::InvalidDueDateExtension) => 5,
            InvoiceFailure::Error(InvoiceError::ExtensionTooLarge) => 6,
            _ => 99,
        },
        ExtensionRequest::ApproveExtension { .. } => match f {
            InvoiceFailure::Error(InvoiceError::ContractPaused) => 0,
            InvoiceFailure::Objection(Objection::NotInitialized) => 1,
            InvoiceFailure::Error(InvoiceError::Unauthorized) => 2,
            InvoiceFailure::Error(InvoiceError::InvoiceNotFound) => 3,
            InvoiceFailure::Error(InvoiceError::InvalidStatusTransition) => 4,
            InvoiceFailure::Error(InvoiceError::NoPendingExtension) => 5,
            InvoiceFailure::Error(InvoiceError::InvalidDueDateExtension) => 6,
            InvoiceFailure::Error(InvoiceError::ExtensionTooLarge) => 7,
            _ => 99,
        },
    }
}

/// The place of a failure among those that the dispute of a default can meet with.
pub open spec fn turn_in_dispute(request: DisputeRequest, f: InvoiceFailure) -> int {
    match request {
        DisputeRequest::RaiseDispute { .. } => match f {
            InvoiceFailure::Error(InvoiceError::ContractPaused) => 0,
            InvoiceFailure::Objection(Objection::InvoiceNotFound) => 1,
            InvoiceFailure::Error(InvoiceError::InvalidStatusTransition) => 2,
            InvoiceFailure::Error(InvoiceError::Unauthorized) => 3,
            InvoiceFailure::Error(InvoiceError::DateOverflow) => 4,
            InvoiceFailure::Error(InvoiceError::DisputeWindowClosed) => 5,
            InvoiceFailure::Error(InvoiceError::HashMismatch) => 6,
            _ => 99,
        },
        DisputeRequest::ResolveDefaultDispute { .. } => match f {
            InvoiceFailure::Error(InvoiceError::ContractPaused) => 0,
            InvoiceFailure::Objection(Objection::NotInitialized) => 1,
            InvoiceFailure::Error(InvoiceError::Unauthorized) => 2,
            InvoiceFailure::Objection(Objection::InvoiceNotFound) => 3,
            _ => 99,
        },
    }
}

/// The place of a failure among those that the end of an invoice can meet with.
pub open spec fn turn_in_closing(request: ClosingRequest, f: InvoiceFailure) -> int {
    match request {
        ClosingRequest::CancelInvoice { .. } => match f {
            InvoiceFailure::Error(InvoiceError::ContractPaused) => 0,
            InvoiceFailure::Objection(Objection::InvoiceNotFound) => 1,
            InvoiceFailure::Objection(Objection::NotInitialized) => 2,
            InvoiceFailure::Objection(Objection::Unauthorized) => 3,
            InvoiceFailure::Objection(Objection::InvalidStatusTransition) => 4,
            _ => 99,
        },
        ClosingRequest::CheckExpiration { .. } => 0,
        ClosingRequest::BatchCheckExpiration { .. } => match f {
            InvoiceFailure::Objection(Objection::ExpirationBatchTooLarge) => 0,
            InvoiceFailure::Error(InvoiceError::InvoiceNotFound) => 1,
            _ => 99,
        },
        ClosingRequest::CleanupInvoice { .. } => match f {
            InvoiceFailure::Error(InvoiceError::ContractPaused) => 0,
            InvoiceFailure::Objection(Objection::NotInitialized) => 1,
            InvoiceFailure::Objection(Objection::Unauthorized) => 2,
            InvoiceFailure::Objection(Objection::InvoiceNotFound) => 3,
            InvoiceFailure::Objection(Objection::CleanupNotCompleted) => 4,
            InvoiceFailure::Trap(_) => 5,
            _ => 99,
        },
        ClosingRequest::CleanupExpiredStorage { .. } => match f {
            InvoiceFailure::Error(InvoiceError::ContractPaused) => 0,
            InvoiceFailure::Objection(Objection::CleanupBatchTooLarge) => 1,
            _ => 99,
        },
    }
}

/// The place of a failure among those that a request of the access control can meet
/// with.
pub open spec fn turn_for_access_control(request: Request, f: InvoiceFailure) -> int {
    match f {
        InvoiceFailure::Error(InvoiceError::AccessControlNotConfigured) => 0,
        InvoiceFailure::Error(InvoiceError::Unauthorized) => 1,
        InvoiceFailure::Error(InvoiceError::ContractPaused) => {
            if crate::invoice::authority::stops_when_paused(request) {
                2
            } else {
                99
            }
        },
        InvoiceFailure::Error(InvoiceError::InvalidAmount) => 3,
        InvoiceFailure::Objection(Objection::DebtorNotFound) => 3,
        InvoiceFailure::Trap(_) => 4,
        _ => 99,
    }
}

/// The place of a failure among those that a request for other rules can meet with.
pub open spec fn turn_in_rules(request: Request, f: InvoiceFailure) -> int {
    match f {
        InvoiceFailure::Error(e) => match e {
            InvoiceError::AlreadyInitialized => 0,
            InvoiceError::ContractPaused => {
                if crate::invoice::authority::stops_when_paused(request) {
                    0
                } else {
                    99
                }
            },
            InvoiceError::Unauthorized => 2,
            InvoiceError::InvoiceNotFound => if request matches Request::Exception(r) && r
                is SetInvoicePrivate {
                1
            } else {
                4
            },
            InvoiceError::InvalidUpgradeTimelock => 3,
            InvoiceError::InvalidWasmHash => 3,
            InvoiceError::ArithmeticOverflow => 5,
            InvoiceError::UpgradeTimelockNotExpired => 6,
            InvoiceError::AdminChangeTimelockNotExpired => 6,
            InvoiceError::NoAdminChangeProposed => 7,
            _ => 99,
        },
        InvoiceFailure::Objection(o) => match o {
            Objection::NotInitialized => 1,
            Objection::Unauthorized => 2,
            Objection::CallerNotAdmin => 2,
            Objection::MaxAmountNotPositive => 3,
            Objection::MaxOutstandingNotPositive => 3,
            Objection::CompletedTtlTooShort => 3,
            Objection::MaxExposureNotPositive => 3,
            Objection::DebtorNotFound => 3,
            Objection::InvalidImageUri => 3,
            Objection::DailyLimitZero => 3,
            Objection::DailyLimitTooHigh => 4,
            Objection::ExpirationZero => 4,
            Objection::GraceOverrideTooLong { .. } => 3,
            Objection::GraceOverrideNotFunded => 5,
            Objection::NoUpgradeProposed => 3,
            Objection::GracePeriodTooLong => 6,
            Objection::NoWasmHash => 7,
            _ => 99,
        },
        InvoiceFailure::Trap(_) => 5,
    }
}

/// The place of a failure among those that a request can meet with: the lower, the
/// sooner it is told.
pub open spec fn turn(request: Request, f: InvoiceFailure) -> int {
    match request {
        Request::Creation(r) => turn_in_creation(r, f),
        Request::Verification(r) => turn_in_verification(r, f),
        Request::Funding(r) => turn_in_funding(r, f),
        Request::Extension(r) => turn_in_extension(r, f),
        Request::Dispute(r) => turn_in_dispute(r, f),
        Request::Closing(r) => turn_in_closing(r, f),
        Request::Warning(_) => if f is Objection {
            0
        } else {
            1
        },
        _ => if crate::invoice::authority::access_control_of(request) is Some {
            turn_for_access_control(request, f)
        } else {
            turn_in_rules(request, f)
        },
    }
}

/// Of several reasons to refuse a request the first in turn is told. A number that
/// leaves its range on the way to a new invoice has no one place.
pub proof fn the_first_reason_is_told(state: InvoiceState, request: Request, other: InvoiceFailure)
    requires
        !(request is Creation && other == InvoiceFailure::Trap(Trap::Overflow)),
    ensures
        match state.apply(request) {
            Ok(_) => true,
            Err(f) => turn(request, other) < turn(request, f)
                ==> !crate::invoice::refusals::true_failure(state, request, other),
        },
{
    match request {
        Request::Setup(_) => lemma_setup(state, request, other),
        Request::Limit(_) => lemma_limit(state, request, other),
        Request::Window(_) => lemma_window(state, request, other),
        Request::Requirement(_) => lemma_requirement(state, request, other),
        Request::Exception(_) => lemma_exception(state, request, other),
        Request::Oracle(_) => lemma_oracle(state, request, other),
        Request::Pausing(_) => lemma_pausing(state, request, other),
        Request::Keeper(_) => lemma_keeper(state, request, other),
        Request::Upgrade(_) => lemma_upgrade(state, request, other),
        Request::AdminChange(_) => lemma_admin_change(state, request, other),
        Request::Debtor(_) => lemma_debtor(state, request, other),
        Request::Creation(_) => lemma_creation(state, request, other),
        Request::Verification(_) => lemma_verification(state, request, other),
        Request::Funding(_) => lemma_funding(state, request, other),
        Request::Extension(_) => lemma_extension(state, request, other),
        Request::Dispute(_) => lemma_dispute(state, request, other),
        Request::Closing(_) => lemma_closing(state, request, other),
        Request::Warning(_) => lemma_warning(state, request, other),
    }
}

proof fn lemma_setup(state: InvoiceState, request: Request, other: InvoiceFailure)
    requires
        request is Setup,
    ensures
        match state.apply(request) {
            Ok(_) => true,
            Err(f) => turn(request, other) < turn(request, f)
                ==> !crate::invoice::refusals::true_failure(state, request, other),
        },
{
    reveal(InvoiceState::apply_setup);
}

proof fn lemma_limit(state: InvoiceState, request: Request, other: InvoiceFailure)
    requires
        request is Limit,
    ensures
        match state.apply(request) {
            Ok(_) => true,
            Err(f) => turn(request, other) < turn(request, f)
                ==> !crate::invoice::refusals::true_failure(state, request, other),
        },
{
    reveal(InvoiceState::apply_limit);
}

proof fn lemma_window(state: InvoiceState, request: Request, other: InvoiceFailure)
    requires
        request is Window,
    ensures
        match state.apply(request) {
            Ok(_) => true,
            Err(f) => turn(request, other) < turn(request, f)
                ==> !crate::invoice::refusals::true_failure(state, request, other),
        },
{
    reveal(InvoiceState::apply_window);
}

proof fn lemma_requirement(state: InvoiceState, request: Request, other: InvoiceFailure)
    requires
        request is Requirement,
    ensures
        match state.apply(request) {
            Ok(_) => true,
            Err(f) => turn(request, other) < turn(request, f)
                ==> !crate::invoice::refusals::true_failure(state, request, other),
        },
{
    reveal(InvoiceState::apply_requirement);
}

proof fn lemma_exception(state: InvoiceState, request: Request, other: InvoiceFailure)
    requires
        request is Exception,
    ensures
        match state.apply(request) {
            Ok(_) => true,
            Err(f) => turn(request, other) < turn(request, f)
                ==> !crate::invoice::refusals::true_failure(state, request, other),
        },
{
    reveal(InvoiceState::apply_exception);
}

proof fn lemma_oracle(state: InvoiceState, request: Request, other: InvoiceFailure)
    requires
        request is Oracle,
    ensures
        match state.apply(request) {
            Ok(_) => true,
            Err(f) => turn(request, other) < turn(request, f)
                ==> !crate::invoice::refusals::true_failure(state, request, other),
        },
{
    reveal(InvoiceState::apply_oracle);
}

proof fn lemma_pausing(state: InvoiceState, request: Request, other: InvoiceFailure)
    requires
        request is Pausing,
    ensures
        match state.apply(request) {
            Ok(_) => true,
            Err(f) => turn(request, other) < turn(request, f)
                ==> !crate::invoice::refusals::true_failure(state, request, other),
        },
{
    reveal(InvoiceState::apply_pausing);
}

proof fn lemma_keeper(state: InvoiceState, request: Request, other: InvoiceFailure)
    requires
        request is Keeper,
    ensures
        match state.apply(request) {
            Ok(_) => true,
            Err(f) => turn(request, other) < turn(request, f)
                ==> !crate::invoice::refusals::true_failure(state, request, other),
        },
{
    reveal(InvoiceState::apply_keeper);
}

proof fn lemma_upgrade(state: InvoiceState, request: Request, other: InvoiceFailure)
    requires
        request is Upgrade,
    ensures
        match state.apply(request) {
            Ok(_) => true,
            Err(f) => turn(request, other) < turn(request, f)
                ==> !crate::invoice::refusals::true_failure(state, request, other),
        },
{
    reveal(InvoiceState::apply_upgrade);
}

proof fn lemma_admin_change(state: InvoiceState, request: Request, other: InvoiceFailure)
    requires
        request is AdminChange,
    ensures
        match state.apply(request) {
            Ok(_) => true,
            Err(f) => turn(request, other) < turn(request, f)
                ==> !crate::invoice::refusals::true_failure(state, request, other),
        },
{
    reveal(InvoiceState::apply_admin_change);
}

proof fn lemma_debtor(state: InvoiceState, request: Request, other: InvoiceFailure)
    requires
        request is Debtor,
    ensures
        match state.apply(request) {
            Ok(_) => true,
            Err(f) => turn(request, other) < turn(request, f)
                ==> !crate::invoice::refusals::true_failure(state, request, other),
        },
{
    reveal(InvoiceState::apply_debtor);
}

proof fn lemma_creation(state: InvoiceState, request: Request, other: InvoiceFailure)
    requires
        request is Creation,
        other != InvoiceFailure::Trap(Trap::Overflow),
    ensures
        match state.apply(request) {
            Ok(_) => true,
            Err(f) => turn(request, other) < turn(request, f)
                ==> !crate::invoice::refusals::true_failure(state, request, other),
        },
{
    reveal(InvoiceState::apply_creation);
    let (now, wanted, clearance) = crate::invoice::refusals::creation_of(request)->0;
    crate::invoice::creation_effects::texts_have_to_fit(
        wanted.debtor,
        wanted.description,
        wanted.verification_hash,
    );
    if wanted.metadata_uri is Some {
        crate::invoice::creation_effects::links_have_to_lead_somewhere(wanted.metadata_uri->0);
    }
    crate::invoice::creation_effects::creations_count_for_a_day(state, now, wanted.owner);
}

proof fn lemma_verification(state: InvoiceState, request: Request, other: InvoiceFailure)
    requires
        request is Verification,
    ensures
        match state.apply(request) {
            Ok(_) => true,
            Err(f) => turn(request, other) < turn(request, f)
                ==> !crate::invoice::refusals::true_failure(state, request, other),
        },
{
    reveal(InvoiceState::apply_verification);
}

proof fn lemma_funding(state: InvoiceState, request: Request, other: InvoiceFailure)
    requires
        request is Funding,
    ensures
        match state.apply(request) {
            Ok(_) => true,
            Err(f) => turn(request, other) < turn(request, f)
                ==> !crate::invoice::refusals::true_failure(state, request, other),
        },
{
    reveal(InvoiceState::apply_funding);
}

proof fn lemma_extension(state: InvoiceState, request: Request, other: InvoiceFailure)
    requires
        request is Extension,
    ensures
        match state.apply(request) {
            Ok(_) => true,
            Err(f) => turn(request, other) < turn(request, f)
                ==> !crate::invoice::refusals::true_failure(state, request, other),
        },
{
    reveal(InvoiceState::apply_extension);
}

proof fn lemma_dispute(state: InvoiceState, request: Request, other: InvoiceFailure)
    requires
        request is Dispute,
    ensures
        match state.apply(request) {
            Ok(_) => true,
            Err(f) => turn(request, other) < turn(request, f)
                ==> !crate::invoice::refusals::true_failure(state, request, other),
        },
{
    reveal(InvoiceState::apply_dispute);
}

proof fn lemma_closing(state: InvoiceState, request: Request, other: InvoiceFailure)
    requires
        request is Closing,
    ensures
        match state.apply(request) {
            Ok(_) => true,
            Err(f) => turn(request, other) < turn(request, f)
                ==> !crate::invoice::refusals::true_failure(state, request, other),
        },
{
    reveal(InvoiceState::apply_closing);
    if let Request::Closing(ClosingRequest::BatchCheckExpiration { now, ids }) = request {
        state.lemma_expire_each(now, ids);
    }
}

proof fn lemma_warning(state: InvoiceState, request: Request, other: InvoiceFailure)
    requires
        request is Warning,
    ensures
        match state.apply(request) {
            Ok(_) => true,
            Err(f) => turn(request, other) < turn(request, f)
                ==> !crate::invoice::refusals::true_failure(state, request, other),
        },
{
    reveal(InvoiceState::apply_warning);
}

/// A decision on the dispute of a default is refused for want of a disputed invoice
/// first, for want of a dispute next, then because one was taken before, and at last
/// because it is none.
pub proof fn disputes_are_looked_up_in_order(
    state: InvoiceState,
    request: DisputeRequest,
    id: u64,
)
    requires
        request is ResolveDefaultDispute,
        crate::invoice::refusals::number_of(Request::Dispute(request)) == Some(id),
        state.invoices.dom().contains(id),
    ensures
        match state.apply(Request::Dispute(request)) {
            Ok(_) => true,
            Err(f) => {
                &&& f == InvoiceFailure::Objection(Objection::DisputeNotFound)
                    ==> state.invoices[id].status is Disputed
                &&& f == InvoiceFailure::Error(InvoiceError::DisputeAlreadyResolved)
                    ==> state.invoices[id].status is Disputed && state.disputes.dom().contains(id)
                &&& f == InvoiceFailure::Error(InvoiceError::InvalidStatusTransition)
                    && state.invoices[id].status is Disputed ==> state.disputes.dom().contains(id)
                    && state.disputes[id].outcome is Pending
            },
        },
{
    reveal(InvoiceState::apply_dispute);
}

} // verus!
