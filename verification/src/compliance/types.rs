//! What the compliance register keeps.

use vstd::prelude::*;
use crate::address::Address;
use crate::table::Key;
use crate::text::Text;

verus! {

/// How an address stands with the register.
#[derive(Clone, Copy, Debug, PartialEq, Eq, Structural)]
pub enum ComplianceStatus {
    Unscreened,
    Cleared,
    Flagged,
    Blocked,
    PendingReview,
}

/// How much risk an address carries.
#[derive(Clone, Copy, Debug, PartialEq, Eq, Structural)]
pub enum RiskTier {
    Low,
    Medium,
    High,
}

/// The last decision on an address. An `expires_at` of 0 means that the decision
/// does not expire.
#[derive(Debug)]
pub struct ComplianceRecord<S = Text> {
    pub address: Address,
    pub status: ComplianceStatus,
    pub reason_code: u32,
    pub risk_tier: RiskTier,
    pub screened_at: u64,
    pub screened_by: Address,
    pub expires_at: u64,
    pub notes_hash: S,
}

impl View for ComplianceRecord<Text> {
    type V = ComplianceRecord<Seq<u8>>;

    open spec fn view(&self) -> ComplianceRecord<Seq<u8>> {
        ComplianceRecord {
            address: self.address,
            status: self.status,
            reason_code: self.reason_code,
            risk_tier: self.risk_tier,
            screened_at: self.screened_at,
            screened_by: self.screened_by,
            expires_at: self.expires_at,
            notes_hash: self.notes_hash@,
        }
    }
}

/// One decision in the history of an address.
#[derive(Debug)]
pub struct ScreeningHistoryEntry<S = Text> {
    pub status: ComplianceStatus,
    pub reason_code: u32,
    pub risk_tier: RiskTier,
    pub screened_at: u64,
    pub screened_by: Address,
    pub expires_at: u64,
    pub notes_hash: S,
}

impl View for ScreeningHistoryEntry<Text> {
    type V = ScreeningHistoryEntry<Seq<u8>>;

    open spec fn view(&self) -> ScreeningHistoryEntry<Seq<u8>> {
        ScreeningHistoryEntry {
            status: self.status,
            reason_code: self.reason_code,
            risk_tier: self.risk_tier,
            screened_at: self.screened_at,
            screened_by: self.screened_by,
            expires_at: self.expires_at,
            notes_hash: self.notes_hash@,
        }
    }
}

impl<S> ComplianceRecord<S> {
    /// The history entry that tells of this decision.
    pub open spec fn entry(self) -> ScreeningHistoryEntry<S> {
        ScreeningHistoryEntry {
            status: self.status,
            reason_code: self.reason_code,
            risk_tier: self.risk_tier,
            screened_at: self.screened_at,
            screened_by: self.screened_by,
            expires_at: self.expires_at,
            notes_hash: self.notes_hash,
        }
    }

    /// Whether the decision clears the address at the time `now`.
    pub open spec fn clears(self, now: u64) -> bool {
        self.status is Cleared && (self.expires_at == 0 || now < self.expires_at)
    }

    /// The status that the decision amounts to at the time `now`: a clearance
    /// that has run out counts for nothing.
    pub open spec fn effective_status(self, now: u64) -> ComplianceStatus {
        if self.status is Cleared && self.expires_at != 0 && now >= self.expires_at {
            ComplianceStatus::Unscreened
        } else {
            self.status
        }
    }
}

/// A screener that was proposed and waits for the timelock.
#[derive(Clone, Copy, Debug, PartialEq, Eq, Structural)]
pub struct PendingScreener {
    pub address: Address,
    pub proposed_at: u64,
    pub effective_at: u64,
}

impl View for PendingScreener {
    type V = PendingScreener;

    open spec fn view(&self) -> PendingScreener {
        *self
    }
}

/// Who asked for a review, and of whom.
#[derive(Clone, Copy, Debug, PartialEq, Eq, Structural)]
pub struct ReviewKey {
    pub caller: Address,
    pub address: Address,
}

impl View for ReviewKey {
    type V = ReviewKey;

    open spec fn view(&self) -> ReviewKey {
        *self
    }
}

impl Key for ReviewKey {
    fn same(&self, other: &ReviewKey) -> (r: bool) {
        *self == *other
    }
}

/// What the register announces.
#[derive(Clone, Copy, Debug, PartialEq, Eq, Structural)]
pub enum ComplianceEvent {
    Paused { admin: Address },
    Unpaused { admin: Address },
    ScreenerProposed { admin: Address, screener: Address, effective_at: u64 },
    ScreenerRegistered { screener: Address },
    ScreenerProposalCancelled { admin: Address, screener: Address },
    ScreenerRemoved { admin: Address, screener: Address },
    RescreeningIntervalSet { admin: Address, secs: u64 },
    ScreenerTimelockSet { admin: Address, secs: u64 },
    Screened {
        address: Address,
        status: ComplianceStatus,
        reason_code: u32,
        screener: Address,
        expires_at: u64,
    },
    ReviewRequested { address: Address, caller: Address, was_cleared: bool },
}

impl View for ComplianceEvent {
    type V = ComplianceEvent;

    open spec fn view(&self) -> ComplianceEvent {
        *self
    }
}

} // verus!
