//! The requests that can change the compliance register.

use vstd::prelude::*;
use crate::address::Address;
use crate::compliance::error::ComplianceError;
use crate::compliance::state::ComplianceState;
use crate::compliance::types::{ComplianceStatus, RiskTier};

verus! {

/// A request to the compliance register.
pub enum Request {
    Initialize { admin: Address },
    Pause { admin: Address },
    Unpause { admin: Address },
    RegisterScreener { now: u64, admin: Address, screener: Address },
    ConfirmScreenerRegistration { now: u64, admin: Address, screener: Address },
    DeregisterScreener { admin: Address, screener: Address },
    SetRescreeningInterval { admin: Address, secs: u64 },
    SetScreenerTimelock { admin: Address, secs: u64 },
    SubmitScreeningResult {
        now: u64,
        screener: Address,
        address: Address,
        status: ComplianceStatus,
        reason_code: u32,
        risk_tier: RiskTier,
        expires_at: u64,
        notes_hash: Seq<u8>,
    },
    RequestReview { now: u64, caller: Address, address: Address, reason: Seq<u8> },
}

impl ComplianceState {
    /// What a request makes of the state, or why it fails.
    pub open spec fn apply(self, request: Request) -> Result<ComplianceState, ComplianceError> {
        match request {
            Request::Initialize { admin } => self.initialize(admin),
            Request::Pause { admin } => self.pause(admin),
            Request::Unpause { admin } => self.unpause(admin),
            Request::RegisterScreener { now, admin, screener } => {
                self.register_screener(now, admin, screener)
            },
            Request::ConfirmScreenerRegistration { now, admin, screener } => {
                self.confirm_screener_registration(now, admin, screener)
            },
            Request::DeregisterScreener { admin, screener } => {
                self.deregister_screener(admin, screener)
            },
            Request::SetRescreeningInterval { admin, secs } => {
                self.set_rescreening_interval(admin, secs)
            },
            Request::SetScreenerTimelock { admin, secs } => self.set_screener_timelock(admin, secs),
            Request::SubmitScreeningResult {
                now,
                screener,
                address,
                status,
                reason_code,
                risk_tier,
                expires_at,
                notes_hash,
            } => {
                self.submit_screening_result(
                    now,
                    screener,
                    address,
                    status,
                    reason_code,
                    risk_tier,
                    expires_at,
                    notes_hash,
                )
            },
            Request::RequestReview { now, caller, address, reason } => {
                self.request_review(now, caller, address, reason)
            },
        }
    }
}

} // verus!
