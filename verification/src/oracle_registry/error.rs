//! Why the oracle registry refuses a request.

use vstd::prelude::*;

verus! {

/// The numbered errors of the oracle registry.
#[derive(Clone, Copy, Debug, PartialEq, Eq, Structural)]
pub enum OracleRegistryError {
    AlreadyInitialized,
    NotInitialized,
    Unauthorized,
    ContractPaused,
    InvalidAmount,
    InsufficientStake,
    AlreadyRegistered,
    NotRegistered,
    DeregisterHasPendingVotes,
    DeregisterCooldownActive,
    InvalidBps,
    NoActiveOracles,
    RoundAlreadyOpen,
    RoundNotFound,
    RoundNotOpen,
    RoundExpired,
    RoundNotExpired,
    AlreadyVoted,
    InvoiceContractNotSet,
    InvoiceCallFailed,
    InvalidConfig,
    InvoiceNotAwaitingVerification,
    InvalidQuorumTiers,
    InvalidEvidence,
    SlashRoundNotFound,
}

impl OracleRegistryError {
    /// The number under which the error is reported.
    pub open spec fn spec_code(self) -> u32 {
        match self {
            OracleRegistryError::AlreadyInitialized => 0,
            OracleRegistryError::NotInitialized => 1,
            OracleRegistryError::Unauthorized => 2,
            OracleRegistryError::ContractPaused => 3,
            OracleRegistryError::InvalidAmount => 4,
            OracleRegistryError::InsufficientStake => 5,
            OracleRegistryError::AlreadyRegistered => 6,
            OracleRegistryError::NotRegistered => 7,
            OracleRegistryError::DeregisterHasPendingVotes => 8,
            OracleRegistryError::DeregisterCooldownActive => 9,
            OracleRegistryError::InvalidBps => 10,
            OracleRegistryError::NoActiveOracles => 11,
            OracleRegistryError::RoundAlreadyOpen => 12,
            OracleRegistryError::RoundNotFound => 13,
            OracleRegistryError::RoundNotOpen => 14,
            OracleRegistryError::RoundExpired => 15,
            OracleRegistryError::RoundNotExpired => 16,
            OracleRegistryError::AlreadyVoted => 17,
            OracleRegistryError::InvoiceContractNotSet => 18,
            OracleRegistryError::InvoiceCallFailed => 19,
            OracleRegistryError::InvalidConfig => 20,
            OracleRegistryError::InvoiceNotAwaitingVerification => 21,
            OracleRegistryError::InvalidQuorumTiers => 22,
            OracleRegistryError::InvalidEvidence => 23,
            OracleRegistryError::SlashRoundNotFound => 24,
        }
    }

    /// The number under which the error is reported.
    pub fn code(self) -> (r: u32)
        ensures
            r == self.spec_code(),
    {
        match self {
            OracleRegistryError::AlreadyInitialized => 0,
            OracleRegistryError::NotInitialized => 1,
            OracleRegistryError::Unauthorized => 2,
            OracleRegistryError::ContractPaused => 3,
            OracleRegistryError::InvalidAmount => 4,
            OracleRegistryError::InsufficientStake => 5,
            OracleRegistryError::AlreadyRegistered => 6,
            OracleRegistryError::NotRegistered => 7,
            OracleRegistryError::DeregisterHasPendingVotes => 8,
            OracleRegistryError::DeregisterCooldownActive => 9,
            OracleRegistryError::InvalidBps => 10,
            OracleRegistryError::NoActiveOracles => 11,
            OracleRegistryError::RoundAlreadyOpen => 12,
            OracleRegistryError::RoundNotFound => 13,
            OracleRegistryError::RoundNotOpen => 14,
            OracleRegistryError::RoundExpired => 15,
            OracleRegistryError::RoundNotExpired => 16,
            OracleRegistryError::AlreadyVoted => 17,
            OracleRegistryError::InvoiceContractNotSet => 18,
            OracleRegistryError::InvoiceCallFailed => 19,
            OracleRegistryError::InvalidConfig => 20,
            OracleRegistryError::InvoiceNotAwaitingVerification => 21,
            OracleRegistryError::InvalidQuorumTiers => 22,
            OracleRegistryError::InvalidEvidence => 23,
            OracleRegistryError::SlashRoundNotFound => 24,
        }
    }
}

} // verus!
