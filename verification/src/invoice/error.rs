//! Why the invoice ledger refuses a request.

use vstd::prelude::*;
use crate::outcome::Trap;

verus! {

/// The numbered errors of the invoice ledger.
#[derive(Clone, Copy, Debug, PartialEq, Eq, Structural)]
pub enum InvoiceError {
    AlreadyInitialized,
    Unauthorized,
    InvalidStatusTransition,
    InvoiceNotFound,
    HashMismatch,
    SmeExposureLimitExceeded,
    AmountOverflow,
    EmptyField,
    FieldTooLong,
    DateOverflow,
    InvalidMetadata,
    DescriptionTooLong,
    DebtorNameTooLong,
    VerificationHashTooLong,
    ExtensionAlreadyPending,
    InvalidDueDateExtension,
    ExtensionTooLarge,
    NoPendingExtension,
    PoolCallFailed,
    ArithmeticOverflow,
    EmptyDebtorName,
    EmptyDescription,
    InvalidVerificationHash,
    DueDateTooSoon,
    UpgradeTimelockNotExpired,
    InvalidUpgradeTimelock,
    InvalidWasmHash,
    VerificationDeadlineNotPassed,
    AdminChangePending,
    AdminChangeTimelockNotExpired,
    NoAdminChangeProposed,
    ContractPaused,
    DisputeWindowClosed,
    DisputeNotFound,
    DisputeAlreadyResolved,
    ConsensusVerificationRequired,
    OracleRegistryNotConfigured,
    UnauthorizedRegistry,
    ComplianceNotCleared,
    ComplianceCheckFailed,
    ComplianceRegistryNotConfigured,
    RateLimitExceeded,
    InvalidDescriptionChars,
    InvalidAmount,
    InvalidDueDate,
    AccessControlNotConfigured,
    IDCollision,
}

impl InvoiceError {
    /// The number under which the error is reported.
    pub open spec fn spec_code(self) -> u32 {
        match self {
            InvoiceError::AlreadyInitialized => 0,
            InvoiceError::Unauthorized => 1,
            InvoiceError::InvalidStatusTransition => 2,
            InvoiceError::InvoiceNotFound => 3,
            InvoiceError::HashMismatch => 4,
            InvoiceError::SmeExposureLimitExceeded => 5,
            InvoiceError::AmountOverflow => 6,
            InvoiceError::EmptyField => 7,
            InvoiceError::FieldTooLong => 8,
            InvoiceError::DateOverflow => 9,
            InvoiceError::InvalidMetadata => 10,
            InvoiceError::DescriptionTooLong => 11,
            InvoiceError::DebtorNameTooLong => 12,
            InvoiceError::VerificationHashTooLong => 13,
            InvoiceError::ExtensionAlreadyPending => 14,
            InvoiceError::InvalidDueDateExtension => 15,
            InvoiceError::ExtensionTooLarge => 16,
            InvoiceError::NoPendingExtension => 17,
            InvoiceError::PoolCallFailed => 18,
            InvoiceError::ArithmeticOverflow => 19,
            InvoiceError::EmptyDebtorName => 20,
            InvoiceError::EmptyDescription => 21,
            InvoiceError::InvalidVerificationHash => 22,
            InvoiceError::DueDateTooSoon => 23,
            InvoiceError::UpgradeTimelockNotExpired => 24,
            InvoiceError::InvalidUpgradeTimelock => 25,
            InvoiceError::InvalidWasmHash => 26,
            InvoiceError::VerificationDeadlineNotPassed => 27,
            InvoiceError::AdminChangePending => 28,
            InvoiceError::AdminChangeTimelockNotExpired => 29,
            InvoiceError::NoAdminChangeProposed => 30,
            InvoiceError::ContractPaused => 31,
            InvoiceError::DisputeWindowClosed => 32,
            InvoiceError::DisputeNotFound => 33,
            InvoiceError::DisputeAlreadyResolved => 34,
            InvoiceError::ConsensusVerificationRequired => 35,
            InvoiceError::OracleRegistryNotConfigured => 36,
            InvoiceError::UnauthorizedRegistry => 37,
            InvoiceError::ComplianceNotCleared => 38,
            InvoiceError::ComplianceCheckFailed => 39,
            InvoiceError::ComplianceRegistryNotConfigured => 40,
            InvoiceError::RateLimitExceeded => 41,
            InvoiceError::InvalidDescriptionChars => 42,
            InvoiceError::InvalidAmount => 43,
            InvoiceError::InvalidDueDate => 44,
            InvoiceError::AccessControlNotConfigured => 45,
            InvoiceError::IDCollision => 46,
        }
    }

    /// The number under which the error is reported.
    pub fn code(self) -> (r: u32)
        ensures
            r == self.spec_code(),
    {
        match self {
            InvoiceError::AlreadyInitialized => 0,
            InvoiceError::Unauthorized => 1,
            InvoiceError::InvalidStatusTransition => 2,
            InvoiceError::InvoiceNotFound => 3,
            InvoiceError::HashMismatch => 4,
            InvoiceError::SmeExposureLimitExceeded => 5,
            InvoiceError::AmountOverflow => 6,
            InvoiceError::EmptyField => 7,
            InvoiceError::FieldTooLong => 8,
            InvoiceError::DateOverflow => 9,
            InvoiceError::InvalidMetadata => 10,
            InvoiceError::DescriptionTooLong => 11,
            InvoiceError::DebtorNameTooLong => 12,
            InvoiceError::VerificationHashTooLong => 13,
            InvoiceError::ExtensionAlreadyPending => 14,
            InvoiceError::InvalidDueDateExtension => 15,
            InvoiceError::ExtensionTooLarge => 16,
            InvoiceError::NoPendingExtension => 17,
            InvoiceError::PoolCallFailed => 18,
            InvoiceError::ArithmeticOverflow => 19,
            InvoiceError::EmptyDebtorName => 20,
            InvoiceError::EmptyDescription => 21,
            InvoiceError::InvalidVerificationHash => 22,
            InvoiceError::DueDateTooSoon => 23,
            InvoiceError::UpgradeTimelockNotExpired => 24,
            InvoiceError::InvalidUpgradeTimelock => 25,
            InvoiceError::InvalidWasmHash => 26,
            InvoiceError::VerificationDeadlineNotPassed => 27,
            InvoiceError::AdminChangePending => 28,
            InvoiceError::AdminChangeTimelockNotExpired => 29,
            InvoiceError::NoAdminChangeProposed => 30,
            InvoiceError::ContractPaused => 31,
            InvoiceError::DisputeWindowClosed => 32,
            InvoiceError::DisputeNotFound => 33,
            InvoiceError::DisputeAlreadyResolved => 34,
            InvoiceError::ConsensusVerificationRequired => 35,
            InvoiceError::OracleRegistryNotConfigured => 36,
            InvoiceError::UnauthorizedRegistry => 37,
            InvoiceError::ComplianceNotCleared => 38,
            InvoiceError::ComplianceCheckFailed => 39,
            InvoiceError::ComplianceRegistryNotConfigured => 40,
            InvoiceError::RateLimitExceeded => 41,
            InvoiceError::InvalidDescriptionChars => 42,
            InvoiceError::InvalidAmount => 43,
            InvoiceError::InvalidDueDate => 44,
            InvoiceError::AccessControlNotConfigured => 45,
            InvoiceError::IDCollision => 46,
        }
    }
}

/// Reasons that the ledger gives in words.
#[derive(Clone, Copy, Debug, PartialEq, Eq, Structural)]
pub enum Objection {
    MaxAmountNotPositive,
    ExpirationZero,
    GracePeriodTooLong,
    NotInitialized,
    Unauthorized,
    MaxExposureNotPositive,
    DebtorNotFound,
    InvalidImageUri,
    InvalidMetadataUri,
    MaxAmountNotSet,
    AmountExceedsMaximum,
    SmeExposureLimitExceeded,
    DebtorNotRegistered,
    DebtorNotActive,
    DebtorExposureExceeded,
    PoolNotConfigured,
    DailyLimitZero,
    DailyLimitTooHigh,
    OracleNotConfigured,
    UnauthorizedOracle,
    InvoiceNotFound,
    NotAwaitingVerification,
    NotDisputed,
    DisputeWindowNotPassed,
    UnauthorizedPool,
    InvoiceExpired,
    NotFundable,
    AmountNotPositive,
    OnlyPoolCanMarkPaid,
    NotFunded,
    RepaymentNotVerified,
    FundingOverflow,
    GracePeriodNotElapsed { default_at: u64 },
    DisputeNotFound,
    InvalidStatusTransition,
    CleanupNotCompleted,
    CleanupBatchTooLarge,
    ExpirationBatchTooLarge,
    MaxOutstandingNotPositive,
    CompletedTtlTooShort,
    CallerNotAdmin,
    GraceOverrideTooLong { days: u32 },
    GraceOverrideNotFunded,
    NoUpgradeProposed,
    NoWasmHash,
}

impl Objection {
    /// The words of the reason. The time or the number that goes with it is
    /// left out.
    pub open spec fn words(self) -> Seq<char> {
        match self {
            Objection::MaxAmountNotPositive => "max invoice amount must be positive"@,
            Objection::ExpirationZero => "expiration duration must be non-zero"@,
            Objection::GracePeriodTooLong => "grace period cannot exceed 90 days"@,
            Objection::NotInitialized => "not initialized"@,
            Objection::Unauthorized => "unauthorized"@,
            Objection::MaxExposureNotPositive => "max_exposure must be positive"@,
            Objection::DebtorNotFound => "debtor not found"@,
            Objection::InvalidImageUri => "invalid metadata image uri"@,
            Objection::InvalidMetadataUri => "invalid metadata uri"@,
            Objection::MaxAmountNotSet => "max invoice amount not set"@,
            Objection::AmountExceedsMaximum => "invoice amount exceeds maximum"@,
            Objection::SmeExposureLimitExceeded => "SmeExposureLimitExceeded"@,
            Objection::DebtorNotRegistered => "debtor not registered"@,
            Objection::DebtorNotActive => "debtor is not active"@,
            Objection::DebtorExposureExceeded => "invoice would exceed debtor exposure limit"@,
            Objection::PoolNotConfigured => "pool not configured"@,
            Objection::DailyLimitZero => "daily invoice limit must be positive"@,
            Objection::DailyLimitTooHigh => "daily invoice limit too high"@,
            Objection::OracleNotConfigured => "oracle not configured"@,
            Objection::UnauthorizedOracle => "unauthorized oracle"@,
            Objection::InvoiceNotFound => "invoice not found"@,
            Objection::NotAwaitingVerification => "invoice is not awaiting verification"@,
            Objection::NotDisputed => "invoice is not disputed"@,
            Objection::DisputeWindowNotPassed => "dispute resolution window not yet passed for admin"@,
            Objection::UnauthorizedPool => "unauthorized pool"@,
            Objection::InvoiceExpired => "invoice is expired"@,
            Objection::NotFundable => "invoice is not in fundable state"@,
            Objection::AmountNotPositive => "amount must be positive"@,
            Objection::OnlyPoolCanMarkPaid => "unauthorized: only pool can mark paid"@,
            Objection::NotFunded => "invoice is not funded"@,
            Objection::RepaymentNotVerified => "repayment not verified by pool contract"@,
            Objection::FundingOverflow => "funding overflow"@,
            Objection::GracePeriodNotElapsed { .. } => "grace period has not elapsed: default available at"@,
            Objection::DisputeNotFound => "dispute not found"@,
            Objection::InvalidStatusTransition => "invalid status transition"@,
            Objection::CleanupNotCompleted => "can only cleanup completed invoices"@,
            Objection::CleanupBatchTooLarge => "cleanup batch exceeds maximum of 50 entries"@,
            Objection::ExpirationBatchTooLarge => "batch_check_expiration: max 20 IDs per call"@,
            Objection::MaxOutstandingNotPositive => "max outstanding must be positive"@,
            Objection::CompletedTtlTooShort => "completed TTL must be at least as long as ACTIVE_INVOICE_TTL"@,
            Objection::CallerNotAdmin => "unauthorized: caller is not admin"@,
            Objection::GraceOverrideTooLong { .. } => "grace period override days exceeds maximum of 90 days"@,
            Objection::GraceOverrideNotFunded => "grace period override only allowed on Funded invoices"@,
            Objection::NoUpgradeProposed => "no upgrade proposed"@,
            Objection::NoWasmHash => "no wasm hash proposed"@,
        }
    }

    /// The words of the reason. The time or the number that goes with it is
    /// left out.
    pub fn message(self) -> (r: &'static str)
        ensures
            r@ == self.words(),
    {
        match self {
            Objection::MaxAmountNotPositive => "max invoice amount must be positive",
            Objection::ExpirationZero => "expiration duration must be non-zero",
            Objection::GracePeriodTooLong => "grace period cannot exceed 90 days",
            Objection::NotInitialized => "not initialized",
            Objection::Unauthorized => "unauthorized",
            Objection::MaxExposureNotPositive => "max_exposure must be positive",
            Objection::DebtorNotFound => "debtor not found",
            Objection::InvalidImageUri => "invalid metadata image uri",
            Objection::InvalidMetadataUri => "invalid metadata uri",
            Objection::MaxAmountNotSet => "max invoice amount not set",
            Objection::AmountExceedsMaximum => "invoice amount exceeds maximum",
            Objection::SmeExposureLimitExceeded => "SmeExposureLimitExceeded",
            Objection::DebtorNotRegistered => "debtor not registered",
            Objection::DebtorNotActive => "debtor is not active",
            Objection::DebtorExposureExceeded => "invoice would exceed debtor exposure limit",
            Objection::PoolNotConfigured => "pool not configured",
            Objection::DailyLimitZero => "daily invoice limit must be positive",
            Objection::DailyLimitTooHigh => "daily invoice limit too high",
            Objection::OracleNotConfigured => "oracle not configured",
            Objection::UnauthorizedOracle => "unauthorized oracle",
            Objection::InvoiceNotFound => "invoice not found",
            Objection::NotAwaitingVerification => "invoice is not awaiting verification",
            Objection::NotDisputed => "invoice is not disputed",
            Objection::DisputeWindowNotPassed => "dispute resolution window not yet passed for admin",
            Objection::UnauthorizedPool => "unauthorized pool",
            Objection::InvoiceExpired => "invoice is expired",
            Objection::NotFundable => "invoice is not in fundable state",
            Objection::AmountNotPositive => "amount must be positive",
            Objection::OnlyPoolCanMarkPaid => "unauthorized: only pool can mark paid",
            Objection::NotFunded => "invoice is not funded",
            Objection::RepaymentNotVerified => "repayment not verified by pool contract",
            Objection::FundingOverflow => "funding overflow",
            Objection::GracePeriodNotElapsed { .. } => "grace period has not elapsed: default available at",
            Objection::DisputeNotFound => "dispute not found",
            Objection::InvalidStatusTransition => "invalid status transition",
            Objection::CleanupNotCompleted => "can only cleanup completed invoices",
            Objection::CleanupBatchTooLarge => "cleanup batch exceeds maximum of 50 entries",
            Objection::ExpirationBatchTooLarge => "batch_check_expiration: max 20 IDs per call",
            Objection::MaxOutstandingNotPositive => "max outstanding must be positive",
            Objection::CompletedTtlTooShort => "completed TTL must be at least as long as ACTIVE_INVOICE_TTL",
            Objection::CallerNotAdmin => "unauthorized: caller is not admin",
            Objection::GraceOverrideTooLong { .. } => "grace period override days exceeds maximum of 90 days",
            Objection::GraceOverrideNotFunded => "grace period override only allowed on Funded invoices",
            Objection::NoUpgradeProposed => "no upgrade proposed",
            Objection::NoWasmHash => "no wasm hash proposed",
        }
    }
}

/// Why a request to the ledger came to nothing.
#[derive(Clone, Copy, Debug, PartialEq, Eq, Structural)]
pub enum InvoiceFailure {
    Error(InvoiceError),
    Objection(Objection),
    Trap(Trap),
}

} // verus!
