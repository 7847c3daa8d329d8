//! The requests that can change the invoice ledger.

use vstd::prelude::*;
use crate::address::Address;
use crate::invoice::creation::InvoiceRequest;
use crate::invoice::error::InvoiceFailure;
use crate::invoice::state::InvoiceState;
use crate::invoice::types::{Clearance, DisputeResolution};

verus! {

/// The state that a request leaves behind it, or why it fails.
pub type Outcome = Result<InvoiceState, InvoiceFailure>;

/// The request that sets the ledger up.
pub enum SetupRequest {
    Initialize {
        admin: Address,
        pool: Address,
        max_invoice_amount: i128,
        expiration_duration_secs: u64,
        grace_period_days: u32,
    },
}

/// A request that sets a limit.
pub enum LimitRequest {
    SetDailyInvoiceLimit { admin: Address, limit: u32 },
    SetMaxInvoiceAmount { admin: Address, max_invoice_amount: i128 },
    SetMaxSmeOutstanding { admin: Address, max: i128 },
    SetExpirationDuration { admin: Address, expiration_duration_secs: u64 },
    SetCompletedInvoiceTtl { admin: Address, ttl_ledgers: u32 },
}

/// A request that sets a span of time.
pub enum WindowRequest {
    SetDisputeWindow { admin: Address, window: u64 },
    SetGracePeriod { admin: Address, days: u32 },
    SetMinDueDateWindow { admin: Address, window_secs: u64 },
}

/// A request that sets what is required of invoices and owners.
pub enum RequirementRequest {
    SetRequireRegisteredDebtor { admin: Address, required: bool },
    SetOracleVerifiedFundingOnly { admin: Address, required: bool },
    SetComplianceRegistry { admin: Address, registry: Address },
    SetRequireComplianceCheck { admin: Address, required: bool },
    SetPool { admin: Address, pool: Address },
    SetMetadataImageUri { admin: Address, uri: Seq<u8> },
}

/// A request that sets a rule for one invoice.
pub enum ExceptionRequest {
    SetInvoiceGracePeriod { admin: Address, id: u64, days: u32 },
    SetInvoicePrivate { id: u64, owner: Address, private: bool },
}

/// A request that concerns the oracles.
pub enum OracleRequest {
    SetOracle { admin: Address, oracle: Address },
    SetSecondaryOracle { admin: Address, oracle_secondary: Option<Address> },
    SetOracleRegistry { admin: Address, registry: Address },
    SetConsensusRequired { admin: Address, required: bool },
    SetOracleViaAc { access_control: Address, oracle: Address },
}

/// A request that suspends the ledger or says who can.
pub enum PausingRequest {
    Pause { now: u64, admin: Address },
    Unpause { now: u64, admin: Address },
    SetPausedViaAc { now: u64, access_control: Address, paused: bool },
    SetAccessControl { admin: Address, access_control: Address },
}

/// A request that concerns the keepers.
pub enum KeeperRequest {
    AddKeeper { admin: Address, keeper: Address },
    RemoveKeeper { admin: Address, keeper: Address },
    AddKeeperViaAc { access_control: Address, keeper: Address },
}

/// A request that concerns the code of the ledger.
pub enum UpgradeRequest {
    SetUpgradeTimelock { admin: Address, secs: u64 },
    ProposeUpgrade { now: u64, admin: Address, wasm_hash: Seq<u8> },
    ExecuteUpgrade { now: u64, admin: Address },
    RunMigration { admin: Address },
}

/// A request that concerns the administrator.
pub enum AdminChangeRequest {
    ProposeAdminChange { now: u64, admin: Address, new_admin: Address },
    FinalizeAdminChange { now: u64, admin: Address },
    CancelAdminChange { admin: Address },
}

/// A request that concerns the register of debtors.
pub enum DebtorRequest {
    RegisterDebtor { admin: Address, debtor_id: Seq<u8>, debtor_name: Seq<u8>, max_exposure: i128 },
    RegisterDebtorViaAc {
        access_control: Address,
        debtor_id: Seq<u8>,
        debtor_name: Seq<u8>,
        max_exposure: i128,
    },
    DeactivateDebtor { admin: Address, debtor_id: Seq<u8> },
    DeactivateDebtorViaAc { access_control: Address, debtor_id: Seq<u8> },
}

/// A request for a new invoice.
pub enum CreationRequest {
    CreateInvoiceWithMetadata { now: u64, request: InvoiceRequest<Seq<u8>>, clearance: Clearance },
    CreateInvoice { now: u64, request: InvoiceRequest<Seq<u8>>, clearance: Clearance },
}

/// A request that concerns the verification of an invoice.
pub enum VerificationRequest {
    VerifyInvoice {
        now: u64,
        id: u64,
        oracle: Address,
        approved: bool,
        reason: Seq<u8>,
        oracle_hash: Seq<u8>,
    },
    ConsensusVerify {
        now: u64,
        id: u64,
        registry: Address,
        approved: bool,
        reason: Seq<u8>,
        oracle_hash: Seq<u8>,
    },
    TimeoutVerification { now: u64, caller: Address, id: u64 },
    ResolveDispute { now: u64, id: u64, caller: Address, resolution: DisputeResolution },
}

/// A request that concerns the money of an invoice.
pub enum FundingRequest {
    MarkFunded { now: u64, id: u64, pool: Address },
    RecordFunding { now: u64, id: u64, amount: i128, pool: Address },
    MarkPaid { now: u64, id: u64, pool: Address, repaid: Option<bool> },
    AddFunding { id: u64, amount: i128, pool: Address },
    MarkDefaulted { now: u64, id: u64, caller: Address },
}

/// A request that concerns the due date of an invoice.
pub enum ExtensionRequest {
    RequestExtension { now: u64, id: u64, owner: Address, new_due_date: u64 },
    ApproveExtension { now: u64, id: u64, approver: Address },
}

/// A request that concerns the dispute of a default.
pub enum DisputeRequest {
    RaiseDispute { now: u64, id: u64, borrower: Address, evidence_hash: Seq<u8> },
    ResolveDefaultDispute { now: u64, id: u64, admin: Address, outcome: DisputeResolution },
}

/// A request that closes or removes invoices.
pub enum ClosingRequest {
    CancelInvoice { now: u64, id: u64, caller: Address },
    CheckExpiration { now: u64, id: u64 },
    BatchCheckExpiration { now: u64, ids: Seq<u64> },
    CleanupInvoice { id: u64, caller: Address },
    CleanupExpiredStorage { caller: Address, ids: Seq<u64> },
}

/// A request for a warning.
pub enum WarningRequest {
    CheckDefaultWarning { now: u64, id: u64 },
}

/// A request to the invoice ledger.
pub enum Request {
    Setup(SetupRequest),
    Limit(LimitRequest),
    Window(WindowRequest),
    Requirement(RequirementRequest),
    Exception(ExceptionRequest),
    Oracle(OracleRequest),
    Pausing(PausingRequest),
    Keeper(KeeperRequest),
    Upgrade(UpgradeRequest),
    AdminChange(AdminChangeRequest),
    Debtor(DebtorRequest),
    Creation(CreationRequest),
    Verification(VerificationRequest),
    Funding(FundingRequest),
    Extension(ExtensionRequest),
    Dispute(DisputeRequest),
    Closing(ClosingRequest),
    Warning(WarningRequest),
}

impl InvoiceState {
    /// What such a request makes of the state, or why it fails.
    #[verifier::opaque]
    pub open spec fn apply_setup(self, request: SetupRequest) -> Outcome {
        match request {
            SetupRequest::Initialize {
                admin,
                pool,
                max_invoice_amount,
                expiration_duration_secs,
                grace_period_days,
            } => {
                self.initialize(
                    admin,
                    pool,
                    max_invoice_amount,
                    expiration_duration_secs,
                    grace_period_days,
                )
            },
        }
    }

    /// What such a request makes of the state, or why it fails.
    #[verifier::opaque]
    pub open spec fn apply_limit(self, request: LimitRequest) -> Outcome {
        match request {
            LimitRequest::SetDailyInvoiceLimit { admin, limit } => {
                self.set_daily_invoice_limit(admin, limit)
            },
            LimitRequest::SetMaxInvoiceAmount { admin, max_invoice_amount } => {
                self.set_max_invoice_amount(admin, max_invoice_amount)
            },
            LimitRequest::SetMaxSmeOutstanding { admin, max } => {
                self.set_max_sme_outstanding(admin, max)
            },
            LimitRequest::SetExpirationDuration { admin, expiration_duration_secs } => {
                self.set_expiration_duration(admin, expiration_duration_secs)
            },
            LimitRequest::SetCompletedInvoiceTtl { admin, ttl_ledgers } => {
                self.set_completed_invoice_ttl(admin, ttl_ledgers)
            },
        }
    }

    /// What such a request makes of the state, or why it fails.
    #[verifier::opaque]
    pub open spec fn apply_window(self, request: WindowRequest) -> Outcome {
        match request {
            WindowRequest::SetDisputeWindow { admin, window } => {
                self.set_dispute_window(admin, window)
            },
            WindowRequest::SetGracePeriod { admin, days } => self.set_grace_period(admin, days),
            WindowRequest::SetMinDueDateWindow { admin, window_secs } => {
                self.set_min_due_date_window(admin, window_secs)
            },
        }
    }

    /// What such a request makes of the state, or why it fails.
    #[verifier::opaque]
    pub open spec fn apply_requirement(self, request: RequirementRequest) -> Outcome {
        match request {
            RequirementRequest::SetRequireRegisteredDebtor { admin, required } => {
                self.set_require_registered_debtor(admin, required)
            },
            RequirementRequest::SetOracleVerifiedFundingOnly { admin, required } => {
                self.set_oracle_verified_funding_only(admin, required)
            },
            RequirementRequest::SetComplianceRegistry { admin, registry } => {
                self.set_compliance_registry(admin, registry)
            },
            RequirementRequest::SetRequireComplianceCheck { admin, required } => {
                self.set_require_compliance_check(admin, required)
            },
            RequirementRequest::SetPool { admin, pool } => self.set_pool(admin, pool),
            RequirementRequest::SetMetadataImageUri { admin, uri } => {
                self.set_metadata_image_uri(admin, uri)
            },
        }
    }

    /// What such a request makes of the state, or why it fails.
    #[verifier::opaque]
    pub open spec fn apply_exception(self, request: ExceptionRequest) -> Outcome {
        match request {
            ExceptionRequest::SetInvoiceGracePeriod { admin, id, days } => {
                self.set_invoice_grace_period(admin, id, days)
            },
            ExceptionRequest::SetInvoicePrivate { id, owner, private } => {
                self.set_invoice_private(id, owner, private)
            },
        }
    }

    /// What such a request makes of the state, or why it fails.
    #[verifier::opaque]
    pub open spec fn apply_oracle(self, request: OracleRequest) -> Outcome {
        match request {
            OracleRequest::SetOracle { admin, oracle } => self.set_oracle(admin, oracle),
            OracleRequest::SetSecondaryOracle { admin, oracle_secondary } => {
                self.set_secondary_oracle(admin, oracle_secondary)
            },
            OracleRequest::SetOracleRegistry { admin, registry } => {
                self.set_oracle_registry(admin, registry)
            },
            OracleRequest::SetConsensusRequired { admin, required } => {
                self.set_consensus_required(admin, required)
            },
            OracleRequest::SetOracleViaAc { access_control, oracle } => {
                self.set_oracle_via_ac(access_control, oracle)
            },
        }
    }

    /// What such a request makes of the state, or why it fails.
    #[verifier::opaque]
    pub open spec fn apply_pausing(self, request: PausingRequest) -> Outcome {
        match request {
            PausingRequest::Pause { now, admin } => self.pause(now, admin),
            PausingRequest::Unpause { now, admin } => self.unpause(now, admin),
            PausingRequest::SetPausedViaAc { now, access_control, paused } => {
                self.set_paused_via_ac(now, access_control, paused)
            },
            PausingRequest::SetAccessControl { admin, access_control } => {
                self.set_access_control(admin, access_control)
            },
        }
    }

    /// What such a request makes of the state, or why it fails.
    #[verifier::opaque]
    pub open spec fn apply_keeper(self, request: KeeperRequest) -> Outcome {
        match request {
            KeeperRequest::AddKeeper { admin, keeper } => self.add_keeper(admin, keeper),
            KeeperRequest::RemoveKeeper { admin, keeper } => self.remove_keeper(admin, keeper),
            KeeperRequest::AddKeeperViaAc { access_control, keeper } => {
                self.add_keeper_via_ac(access_control, keeper)
            },
        }
    }

    /// What such a request makes of the state, or why it fails.
    #[verifier::opaque]
    pub open spec fn apply_upgrade(self, request: UpgradeRequest) -> Outcome {
        match request {
            UpgradeRequest::SetUpgradeTimelock { admin, secs } => {
                self.set_upgrade_timelock(admin, secs)
            },
            UpgradeRequest::ProposeUpgrade { now, admin, wasm_hash } => {
                self.propose_upgrade(now, admin, wasm_hash)
            },
            UpgradeRequest::ExecuteUpgrade { now, admin } => {
                crate::outcome::state_of(self.execute_upgrade(now, admin))
            },
            UpgradeRequest::RunMigration { admin } => self.run_migration(admin),
        }
    }

    /// What such a request makes of the state, or why it fails.
    #[verifier::opaque]
    pub open spec fn apply_admin_change(self, request: AdminChangeRequest) -> Outcome {
        match request {
            AdminChangeRequest::ProposeAdminChange { now, admin, new_admin } => {
                self.propose_admin_change(now, admin, new_admin)
            },
            AdminChangeRequest::FinalizeAdminChange { now, admin } => {
                self.finalize_admin_change(now, admin)
            },
            AdminChangeRequest::CancelAdminChange { admin } => self.cancel_admin_change(admin),
        }
    }

    /// What such a request makes of the state, or why it fails.
    #[verifier::opaque]
    pub open spec fn apply_debtor(self, request: DebtorRequest) -> Outcome {
        match request {
            DebtorRequest::RegisterDebtor { admin, debtor_id, debtor_name, max_exposure } => {
                self.register_debtor(admin, debtor_id, debtor_name, max_exposure)
            },
            DebtorRequest::RegisterDebtorViaAc {
                access_control,
                debtor_id,
                debtor_name,
                max_exposure,
            } => {
                self.register_debtor_via_ac(access_control, debtor_id, debtor_name, max_exposure)
            },
            DebtorRequest::DeactivateDebtor { admin, debtor_id } => {
                self.deactivate_debtor(admin, debtor_id)
            },
            DebtorRequest::DeactivateDebtorViaAc { access_control, debtor_id } => {
                self.deactivate_debtor_via_ac(access_control, debtor_id)
            },
        }
    }

    /// What such a request makes of the state, or why it fails.
    #[verifier::opaque]
    pub open spec fn apply_creation(self, request: CreationRequest) -> Outcome {
        match request {
            CreationRequest::CreateInvoiceWithMetadata { now, request, clearance } => {
                crate::outcome::state_of(self.create_invoice_with_metadata(now, request, clearance))
            },
            CreationRequest::CreateInvoice { now, request, clearance } => {
                crate::outcome::state_of(self.create_invoice(now, request, clearance))
            },
        }
    }

    /// What such a request makes of the state, or why it fails.
    #[verifier::opaque]
    pub open spec fn apply_verification(self, request: VerificationRequest) -> Outcome {
        match request {
            VerificationRequest::VerifyInvoice {
                now,
                id,
                oracle,
                approved,
                reason,
                oracle_hash,
            } => {
                self.verify_invoice(now, id, oracle, approved, reason, oracle_hash)
            },
            VerificationRequest::ConsensusVerify {
                now,
                id,
                registry,
                approved,
                reason,
                oracle_hash,
            } => {
                self.consensus_verify(now, id, registry, approved, reason, oracle_hash)
            },
            VerificationRequest::TimeoutVerification { now, caller, id } => {
                self.timeout_verification(now, caller, id)
            },
            VerificationRequest::ResolveDispute { now, id, caller, resolution } => {
                self.resolve_dispute(now, id, caller, resolution)
            },
        }
    }

    /// What such a request makes of the state, or why it fails.
    #[verifier::opaque]
    pub open spec fn apply_funding(self, request: FundingRequest) -> Outcome {
        match request {
            FundingRequest::MarkFunded { now, id, pool } => self.mark_funded(now, id, pool),
            FundingRequest::RecordFunding { now, id, amount, pool } => {
                self.record_funding(now, id, amount, pool)
            },
            FundingRequest::MarkPaid { now, id, pool, repaid } => {
                self.mark_paid(now, id, pool, repaid)
            },
            FundingRequest::AddFunding { id, amount, pool } => {
                crate::outcome::state_of(self.add_funding(id, amount, pool))
            },
            FundingRequest::MarkDefaulted { now, id, caller } => {
                self.mark_defaulted(now, id, caller)
            },
        }
    }

    /// What such a request makes of the state, or why it fails.
    #[verifier::opaque]
    pub open spec fn apply_extension(self, request: ExtensionRequest) -> Outcome {
        match request {
            ExtensionRequest::RequestExtension { now, id, owner, new_due_date } => {
                self.request_extension(now, id, owner, new_due_date)
            },
            ExtensionRequest::ApproveExtension { now, id, approver } => {
                crate::outcome::state_of(self.approve_extension(now, id, approver))
            },
        }
    }

    /// What such a request makes of the state, or why it fails.
    #[verifier::opaque]
    pub open spec fn apply_dispute(self, request: DisputeRequest) -> Outcome {
        match request {
            DisputeRequest::RaiseDispute { now, id, borrower, evidence_hash } => {
                self.raise_dispute(now, id, borrower, evidence_hash)
            },
            DisputeRequest::ResolveDefaultDispute { now, id, admin, outcome } => {
                self.resolve_default_dispute(now, id, admin, outcome)
            },
        }
    }

    /// What such a request makes of the state, or why it fails.
    #[verifier::opaque]
    pub open spec fn apply_closing(self, request: ClosingRequest) -> Outcome {
        match request {
            ClosingRequest::CancelInvoice { now, id, caller } => {
                self.cancel_invoice(now, id, caller)
            },
            ClosingRequest::CheckExpiration { now, id } => {
                crate::outcome::state_of(self.check_expiration(now, id))
            },
            ClosingRequest::BatchCheckExpiration { now, ids } => {
                crate::outcome::state_of(self.batch_check_expiration(now, ids))
            },
            ClosingRequest::CleanupInvoice { id, caller } => self.cleanup_invoice(id, caller),
            ClosingRequest::CleanupExpiredStorage { caller, ids } => {
                crate::outcome::state_of(self.cleanup_expired_storage(caller, ids))
            },
        }
    }

    /// What such a request makes of the state, or why it fails.
    #[verifier::opaque]
    pub open spec fn apply_warning(self, request: WarningRequest) -> Outcome {
        match request {
            WarningRequest::CheckDefaultWarning { now, id } => {
                crate::outcome::state_of(self.check_default_warning(now, id))
            },
        }
    }

    /// What a request makes of the state, or why it fails.
    pub open spec fn apply(self, request: Request) -> Outcome {
        match request {
            Request::Setup(r) => self.apply_setup(r),
            Request::Limit(r) => self.apply_limit(r),
            Request::Window(r) => self.apply_window(r),
            Request::Requirement(r) => self.apply_requirement(r),
            Request::Exception(r) => self.apply_exception(r),
            Request::Oracle(r) => self.apply_oracle(r),
            Request::Pausing(r) => self.apply_pausing(r),
            Request::Keeper(r) => self.apply_keeper(r),
            Request::Upgrade(r) => self.apply_upgrade(r),
            Request::AdminChange(r) => self.apply_admin_change(r),
            Request::Debtor(r) => self.apply_debtor(r),
            Request::Creation(r) => self.apply_creation(r),
            Request::Verification(r) => self.apply_verification(r),
            Request::Funding(r) => self.apply_funding(r),
            Request::Extension(r) => self.apply_extension(r),
            Request::Dispute(r) => self.apply_dispute(r),
            Request::Closing(r) => self.apply_closing(r),
            Request::Warning(r) => self.apply_warning(r),
        }
    }
}

} // verus!
