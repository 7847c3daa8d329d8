//! Why the compliance register refuses a request.

use vstd::prelude::*;

verus! {

/// The numbered errors of the compliance register.
#[derive(Clone, Copy, Debug, PartialEq, Eq, Structural)]
pub enum ComplianceError {
    AlreadyInitialized,
    NotInitialized,
    Unauthorized,
    ContractPaused,
    InvalidConfig,
    ScreenerAlreadyRegistered,
    ScreenerNotRegistered,
    ScreenerTimelockActive,
    NoPendingScreener,
    InvalidStatus,
    AddressNotFound,
    ListFull,
    InvalidReason,
    ReviewRequestTooSoon,
}

impl ComplianceError {
    /// The number under which the error is reported.
    pub open spec fn spec_code(self) -> u32 {
        match self {
            ComplianceError::AlreadyInitialized => 0,
            ComplianceError::NotInitialized => 1,
            ComplianceError::Unauthorized => 2,
            ComplianceError::ContractPaused => 3,
            ComplianceError::InvalidConfig => 4,
            ComplianceError::ScreenerAlreadyRegistered => 5,
            ComplianceError::ScreenerNotRegistered => 6,
            ComplianceError::ScreenerTimelockActive => 7,
            ComplianceError::NoPendingScreener => 8,
            ComplianceError::InvalidStatus => 9,
            ComplianceError::AddressNotFound => 10,
            ComplianceError::ListFull => 11,
            ComplianceError::InvalidReason => 12,
            ComplianceError::ReviewRequestTooSoon => 13,
        }
    }

    /// The number under which the error is reported.
    pub fn code(self) -> (r: u32)
        ensures
            r == self.spec_code(),
    {
        match self {
            ComplianceError::AlreadyInitialized => 0,
            ComplianceError::NotInitialized => 1,
            ComplianceError::Unauthorized => 2,
            ComplianceError::ContractPaused => 3,
            ComplianceError::InvalidConfig => 4,
            ComplianceError::ScreenerAlreadyRegistered => 5,
            ComplianceError::ScreenerNotRegistered => 6,
            ComplianceError::ScreenerTimelockActive => 7,
            ComplianceError::NoPendingScreener => 8,
            ComplianceError::InvalidStatus => 9,
            ComplianceError::AddressNotFound => 10,
            ComplianceError::ListFull => 11,
            ComplianceError::InvalidReason => 12,
            ComplianceError::ReviewRequestTooSoon => 13,
        }
    }
}

} // verus!
