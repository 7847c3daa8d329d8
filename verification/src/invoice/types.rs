//! What the invoice ledger keeps.

use vstd::prelude::*;
use crate::address::Address;
use crate::text::{clone_text_option, Text};

verus! {

/// Where an invoice stands.
#[derive(Clone, Copy, Debug, PartialEq, Eq, Structural)]
pub enum InvoiceStatus {
    Pending,
    AwaitingVerification,
    Verified,
    Disputed,
    Funded,
    Paid,
    Defaulted,
    Cancelled,
    Expired,
}

impl InvoiceStatus {
    /// Whether an invoice with this status is closed.
    pub open spec fn is_terminal(self) -> bool {
        self is Paid || self is Defaulted || self is Cancelled || self is Expired
    }

    /// Whether an invoice with this status is closed.
    pub fn terminal(self) -> (r: bool)
        ensures
            r == self.is_terminal(),
    {
        matches!(
            self,
            InvoiceStatus::Paid | InvoiceStatus::Defaulted | InvoiceStatus::Cancelled
                | InvoiceStatus::Expired
        )
    }
}

/// How a dispute stands.
#[derive(Clone, Copy, Debug, PartialEq, Eq, Structural)]
pub enum DisputeResolution {
    Pending,
    InFavorOfSME,
    InFavorOfDebtor,
}

/// An invoice.
#[derive(Debug)]
pub struct Invoice<S = Text> {
    pub id: u64,
    pub owner: Address,
    pub debtor: S,
    pub amount: i128,
    pub original_due_date: u64,
    pub due_date: u64,
    pub pending_due_date: Option<u64>,
    pub description: S,
    pub status: InvoiceStatus,
    pub created_at: u64,
    pub funded_at: u64,
    pub paid_at: u64,
    pub pool_contract: Address,
    pub verification_hash: S,
    pub metadata_uri: Option<S>,
    pub oracle_verified: bool,
    pub dispute_reason: S,
    pub disputed_at: u64,
    pub grace_period_override: Option<u32>,
    pub verification_deadline: u64,
    pub funded_amount: i128,
}

impl View for Invoice<Text> {
    type V = Invoice<Seq<u8>>;

    open spec fn view(&self) -> Invoice<Seq<u8>> {
        Invoice {
            id: self.id,
            owner: self.owner,
            debtor: self.debtor@,
            amount: self.amount,
            original_due_date: self.original_due_date,
            due_date: self.due_date,
            pending_due_date: self.pending_due_date,
            description: self.description@,
            status: self.status,
            created_at: self.created_at,
            funded_at: self.funded_at,
            paid_at: self.paid_at,
            pool_contract: self.pool_contract,
            verification_hash: self.verification_hash@,
            metadata_uri: crate::text::text_option(self.metadata_uri),
            oracle_verified: self.oracle_verified,
            dispute_reason: self.dispute_reason@,
            disputed_at: self.disputed_at,
            grace_period_override: self.grace_period_override,
            verification_deadline: self.verification_deadline,
            funded_amount: self.funded_amount,
        }
    }
}

impl Clone for Invoice<Text> {
    fn clone(&self) -> (r: Invoice<Text>)
        ensures
            r@ == self@,
    {
        Invoice {
            id: self.id,
            owner: self.owner,
            debtor: self.debtor.clone(),
            amount: self.amount,
            original_due_date: self.original_due_date,
            due_date: self.due_date,
            pending_due_date: self.pending_due_date,
            description: self.description.clone(),
            status: self.status,
            created_at: self.created_at,
            funded_at: self.funded_at,
            paid_at: self.paid_at,
            pool_contract: self.pool_contract,
            verification_hash: self.verification_hash.clone(),
            metadata_uri: clone_text_option(&self.metadata_uri),
            oracle_verified: self.oracle_verified,
            dispute_reason: self.dispute_reason.clone(),
            disputed_at: self.disputed_at,
            grace_period_override: self.grace_period_override,
            verification_deadline: self.verification_deadline,
            funded_amount: self.funded_amount,
        }
    }
}

/// What is shown of an invoice.
#[derive(Debug)]
pub struct InvoiceMetadata<S = Text> {
    pub name: S,
    pub description: S,
    pub image: S,
    pub amount: i128,
    pub debtor: S,
    pub due_date: u64,
    pub status: InvoiceStatus,
    pub symbol: S,
    pub decimals: u32,
}

impl View for InvoiceMetadata<Text> {
    type V = InvoiceMetadata<Seq<u8>>;

    open spec fn view(&self) -> InvoiceMetadata<Seq<u8>> {
        InvoiceMetadata {
            name: self.name@,
            description: self.description@,
            image: self.image@,
            amount: self.amount,
            debtor: self.debtor@,
            due_date: self.due_date,
            status: self.status,
            symbol: self.symbol@,
            decimals: self.decimals,
        }
    }
}

/// A dispute over a default.
#[derive(Debug)]
pub struct DisputeRecord<S = Text> {
    pub evidence_hash: S,
    pub filed_at: u64,
    pub resolved_at: u64,
    pub outcome: DisputeResolution,
}

impl View for DisputeRecord<Text> {
    type V = DisputeRecord<Seq<u8>>;

    open spec fn view(&self) -> DisputeRecord<Seq<u8>> {
        DisputeRecord {
            evidence_hash: self.evidence_hash@,
            filed_at: self.filed_at,
            resolved_at: self.resolved_at,
            outcome: self.outcome,
        }
    }
}

impl Clone for DisputeRecord<Text> {
    fn clone(&self) -> (r: DisputeRecord<Text>)
        ensures
            r@ == self@,
    {
        DisputeRecord {
            evidence_hash: self.evidence_hash.clone(),
            filed_at: self.filed_at,
            resolved_at: self.resolved_at,
            outcome: self.outcome,
        }
    }
}

/// How many invoices the ledger has seen, has open and has removed.
#[derive(Clone, Copy, Debug, PartialEq, Eq, Structural)]
pub struct StorageStats {
    pub total_invoices: u64,
    pub active_invoices: u64,
    pub cleaned_invoices: u64,
}

impl Default for StorageStats {
    fn default() -> (r: StorageStats)
        ensures
            r == (StorageStats { total_invoices: 0, active_invoices: 0, cleaned_invoices: 0 }),
    {
        StorageStats { total_invoices: 0, active_invoices: 0, cleaned_invoices: 0 }
    }
}

/// A debtor and how much can be owed by it.
#[derive(Debug)]
pub struct DebtorRecord<S = Text> {
    pub debtor_id: S,
    pub debtor_name: S,
    pub max_exposure: i128,
    pub current_exposure: i128,
    pub is_active: bool,
}

impl View for DebtorRecord<Text> {
    type V = DebtorRecord<Seq<u8>>;

    open spec fn view(&self) -> DebtorRecord<Seq<u8>> {
        DebtorRecord {
            debtor_id: self.debtor_id@,
            debtor_name: self.debtor_name@,
            max_exposure: self.max_exposure,
            current_exposure: self.current_exposure,
            is_active: self.is_active,
        }
    }
}

impl Clone for DebtorRecord<Text> {
    fn clone(&self) -> (r: DebtorRecord<Text>)
        ensures
            r@ == self@,
    {
        DebtorRecord {
            debtor_id: self.debtor_id.clone(),
            debtor_name: self.debtor_name.clone(),
            max_exposure: self.max_exposure,
            current_exposure: self.current_exposure,
            is_active: self.is_active,
        }
    }
}

/// What the compliance register says of an address, if it can be asked.
#[derive(Clone, Copy, Debug, PartialEq, Eq, Structural)]
pub enum Clearance {
    Cleared,
    NotCleared,
    Unavailable,
}

/// The entry of an invoice that has to be kept for a number of ledgers more.
#[derive(Clone, Copy, Debug, PartialEq, Eq, Structural)]
pub struct Renewal {
    pub id: u64,
    pub ledgers: u32,
}

impl View for Renewal {
    type V = Renewal;

    open spec fn view(&self) -> Renewal {
        *self
    }
}

/// The call that tells a pool of a new due date.
#[derive(Clone, Copy, Debug, PartialEq, Eq, Structural)]
pub struct DueDateCall {
    pub pool: Address,
    pub invoice_contract: Address,
    pub invoice_id: u64,
    pub new_due_date: u64,
}

/// What the ledger announces in numbers and addresses alone.
#[allow(inconsistent_fields)]
#[derive(Clone, Copy, Debug, PartialEq)]
pub enum Notice {
    RegisteredDebtorsOnly { admin: Address, old: bool, new: bool },
    VerifiedFundingOnly { admin: Address, old: bool, new: bool },
    Paused { admin: Address, at: u64 },
    Unpaused { admin: Address, at: u64 },
    OracleSet { admin: Address, old: Option<Address>, new: Address },
    SecondaryOracleSet { admin: Address, old: Option<Address>, new: Option<Address> },
    OracleRegistrySet { admin: Address, old: Option<Address>, new: Address },
    ConsensusRequired { admin: Address, required: bool },
    ComplianceRegistrySet { admin: Address, registry: Address },
    ComplianceRequired { admin: Address, required: bool },
    KeeperAdded { admin: Address, keeper: Address },
    KeeperRemoved { admin: Address, keeper: Address },
    AccessControlSet { admin: Address, access_control: Address },
    PausedByAccessControl { access_control: Address, paused: bool, at: u64 },
    OracleSetByAccessControl { access_control: Address, old: Option<Address>, new: Address },
    KeeperAddedByAccessControl { access_control: Address, keeper: Address },
    ExtensionRequested { id: u64, current: u64, new: u64, owner: Address, at: u64 },
    ExtensionApproved { id: u64, old: u64, new: u64, approver: Address, at: u64 },
    DailyLimitSet { admin: Address, old: u32, new: u32 },
    Disputed { id: u64, at: u64 },
    DisputeResolved { id: u64, resolution: DisputeResolution, caller: Address },
    DisputeWindowSet { admin: Address, old: u64, new: u64 },
    Funded { id: u64, pool: Address, owner: Address, at: u64 },
    FundingRecorded { id: u64, owner: Address, at: u64 },
    Paid { id: u64, pool: Address, owner: Address, at: u64 },
    Defaulted { id: u64, owner: Address, at: u64 },
    DisputeRaised { id: u64, borrower: Address, at: u64 },
    DefaultDisputeResolved { id: u64, admin: Address, at: u64 },
    PrivacySet { id: u64, private: bool },
    Cancelled { id: u64, caller: Address },
    VerificationTimedOut { id: u64, deadline: u64, at: u64 },
    Removed { id: u64 },
    StorageCleaned { removed: u32, caller: Address },
    Expired { id: u64 },
    GracePeriodSet { admin: Address, old: u32, new: u32 },
    MinDueDateWindowSet { admin: Address, old: u64, new: u64 },
    MaxAmountSet { admin: Address, old: i128, new: i128 },
    MaxOutstandingSet { admin: Address, max: i128 },
    ExpirationDurationSet { admin: Address, old: u64, new: u64 },
    CompletedTtlSet { admin: Address, ledgers: u32 },
    InvoiceGracePeriodSet { id: u64, old: u32, new: u32 },
    PoolSet { admin: Address, pool: Address },
    UpgradeTimelockSet { admin: Address, old: u64, new: u64 },
    UpgradeProposed { admin: Address, effective_at: u64 },
    Upgraded { admin: Address, at: u64 },
    AdminChangeProposed { admin: Address, new_admin: Address, effective_at: u64 },
    AdminChanged { admin: Address, new_admin: Address, at: u64 },
    AdminChangeCancelled { admin: Address },
    DefaultNear { id: u64, default_at: u64 },
}

/// What the ledger announces.
#[derive(Debug)]
pub enum InvoiceEvent<S = Text> {
    Notice(Notice),
    Created { id: u64, owner: Address, amount: i128, metadata_uri: Option<S>, at: u64 },
    Verified { id: u64, oracle_hash: S },
    ImageSet { admin: Address, uri: S },
}

impl View for InvoiceEvent<Text> {
    type V = InvoiceEvent<Seq<u8>>;

    open spec fn view(&self) -> InvoiceEvent<Seq<u8>> {
        match *self {
            InvoiceEvent::Notice(notice) => InvoiceEvent::Notice(notice),
            InvoiceEvent::Created { id, owner, amount, metadata_uri, at } => {
                InvoiceEvent::Created {
                    id,
                    owner,
                    amount,
                    metadata_uri: crate::text::text_option(metadata_uri),
                    at,
                }
            },
            InvoiceEvent::Verified { id, oracle_hash } => InvoiceEvent::Verified {
                id,
                oracle_hash: oracle_hash@,
            },
            InvoiceEvent::ImageSet { admin, uri } => InvoiceEvent::ImageSet { admin, uri: uri@ },
        }
    }
}

} // verus!
