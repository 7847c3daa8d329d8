//! The compliance register as a state machine: what each request makes of the
//! state, or why it is refused.

use vstd::prelude::*;
use crate::address::Address;
use crate::compliance::error::ComplianceError;
use crate::compliance::types::{
    ComplianceEvent, ComplianceRecord, ComplianceStatus, PendingScreener, ReviewKey, RiskTier,
    ScreeningHistoryEntry,
};

verus! {

/// How long a clearance lasts when the screener names no end: 180 days.
pub const DEFAULT_RESCREENING_INTERVAL_SECS: u64 = 180 * 24 * 60 * 60;

/// How long a proposed screener waits before it can be confirmed: 24 hours.
pub const DEFAULT_SCREENER_TIMELOCK_SECS: u64 = 24 * 60 * 60;

/// Decisions that the history of an address holds.
pub const MAX_HISTORY_ENTRIES: usize = 64;

/// Addresses that the list of flagged addresses holds.
pub const MAX_FLAGGED_LIST: u32 = 256;

/// Addresses that the list of addresses under review holds.
pub const MAX_PENDING_LIST: u32 = 256;

/// Screeners that can be registered at a time.
pub const MAX_SCREENER_LIST: u32 = 64;

/// How long a caller waits between two requests to review one address.
pub const REVIEW_REQUEST_COOLDOWN_SECS: u64 = 24 * 60 * 60;

/// What the register knows.
#[verifier::ext_equal]
pub struct ComplianceState {
    pub initialized: bool,
    pub admin: Option<Address>,
    pub paused: bool,
    pub rescreening_interval: u64,
    pub screener_timelock: u64,
    pub records: Map<Address, ComplianceRecord<Seq<u8>>>,
    pub history: Map<Address, Seq<ScreeningHistoryEntry<Seq<u8>>>>,
    pub screeners: Map<Address, bool>,
    pub screener_ids: Seq<Address>,
    pub pending_screeners: Map<Address, PendingScreener>,
    pub flagged: Seq<Address>,
    pub pending_review: Seq<Address>,
    pub review_requested_at: Map<ReviewKey, u64>,
    pub events: Seq<ComplianceEvent>,
}

/// A list to which `address` was added: one that holds it already stays, and
/// one that is full loses its oldest item.
pub open spec fn with_address(list: Seq<Address>, address: Address, max: u32) -> Seq<Address> {
    if list.contains(address) {
        list
    } else if list.len() >= max {
        list.skip(1).push(address)
    } else {
        list.push(address)
    }
}

/// A history to which a decision was added: a full one loses its oldest.
pub open spec fn with_entry<S>(
    history: Seq<ScreeningHistoryEntry<S>>,
    entry: ScreeningHistoryEntry<S>,
) -> Seq<ScreeningHistoryEntry<S>> {
    if history.len() >= MAX_HISTORY_ENTRIES {
        history.skip(1).push(entry)
    } else {
        history.push(entry)
    }
}

impl ComplianceState {
    /// A register that nobody has set up.
    pub open spec fn blank() -> ComplianceState {
        ComplianceState {
            initialized: false,
            admin: None,
            paused: false,
            rescreening_interval: DEFAULT_RESCREENING_INTERVAL_SECS,
            screener_timelock: DEFAULT_SCREENER_TIMELOCK_SECS,
            records: Map::empty(),
            history: Map::empty(),
            screeners: Map::empty(),
            screener_ids: Seq::empty(),
            pending_screeners: Map::empty(),
            flagged: Seq::empty(),
            pending_review: Seq::empty(),
            review_requested_at: Map::empty(),
            events: Seq::empty(),
        }
    }

    /// The state in which `event` was announced as well.
    pub open spec fn emit(self, event: ComplianceEvent) -> ComplianceState {
        ComplianceState { events: self.events.push(event), ..self }
    }

    /// Why `caller` is not the administrator, if so.
    pub open spec fn admin_refusal(self, caller: Address) -> Option<ComplianceError> {
        match self.admin {
            None => Some(ComplianceError::NotInitialized),
            Some(admin) => if caller != admin {
                Some(ComplianceError::Unauthorized)
            } else {
                None
            },
        }
    }

    /// Why `caller` cannot act as the administrator now, if so.
    pub open spec fn active_admin_refusal(self, caller: Address) -> Option<ComplianceError> {
        match self.admin_refusal(caller) {
            Some(e) => Some(e),
            None => if self.paused {
                Some(ComplianceError::ContractPaused)
            } else {
                None
            },
        }
    }

    /// Why `caller` cannot decide on addresses, if so: only the administrator
    /// and the registered screeners can.
    pub open spec fn screener_refusal(self, caller: Address) -> Option<ComplianceError> {
        match self.admin {
            None => Some(ComplianceError::NotInitialized),
            Some(admin) => if caller == admin || self.screeners.dom().contains(caller) {
                None
            } else {
                Some(ComplianceError::Unauthorized)
            },
        }
    }

    pub open spec fn initialize(self, admin: Address) -> Result<ComplianceState, ComplianceError> {
        if self.initialized {
            Err(ComplianceError::AlreadyInitialized)
        } else {
            Ok(
                ComplianceState {
                    initialized: true,
                    admin: Some(admin),
                    paused: false,
                    rescreening_interval: DEFAULT_RESCREENING_INTERVAL_SECS,
                    screener_timelock: DEFAULT_SCREENER_TIMELOCK_SECS,
                    screener_ids: Seq::empty(),
                    flagged: Seq::empty(),
                    pending_review: Seq::empty(),
                    ..self
                },
            )
        }
    }

    pub open spec fn pause(self, admin: Address) -> Result<ComplianceState, ComplianceError> {
        match self.admin_refusal(admin) {
            Some(e) => Err(e),
            None => Ok(
                ComplianceState { paused: true, ..self }.emit(ComplianceEvent::Paused { admin }),
            ),
        }
    }

    pub open spec fn unpause(self, admin: Address) -> Result<ComplianceState, ComplianceError> {
        match self.admin_refusal(admin) {
            Some(e) => Err(e),
            None => Ok(
                ComplianceState { paused: false, ..self }.emit(ComplianceEvent::Unpaused { admin }),
            ),
        }
    }

    /// The state in which `screener` is registered as well.
    pub open spec fn activate_screener(self, screener: Address) -> Result<
        ComplianceState,
        ComplianceError,
    > {
        if self.screeners.dom().contains(screener) {
            Err(ComplianceError::ScreenerAlreadyRegistered)
        } else if self.screener_ids.len() >= MAX_SCREENER_LIST {
            Err(ComplianceError::ListFull)
        } else {
            Ok(
                ComplianceState {
                    screener_ids: self.screener_ids.push(screener),
                    screeners: self.screeners.insert(screener, true),
                    ..self
                }.emit(ComplianceEvent::ScreenerRegistered { screener }),
            )
        }
    }

    pub open spec fn register_screener(
        self,
        now: u64,
        admin: Address,
        screener: Address,
    ) -> Result<ComplianceState, ComplianceError> {
        let effective_at = now.saturating_add(self.screener_timelock);
        match self.active_admin_refusal(admin) {
            Some(e) => Err(e),
            None => if self.screeners.dom().contains(screener) {
                Err(ComplianceError::ScreenerAlreadyRegistered)
            } else if self.screener_timelock == 0 {
                self.activate_screener(screener)
            } else {
                Ok(
                    ComplianceState {
                        pending_screeners: self.pending_screeners.insert(
                            screener,
                            PendingScreener { address: screener, proposed_at: now, effective_at },
                        ),
                        ..self
                    }.emit(ComplianceEvent::ScreenerProposed { admin, screener, effective_at }),
                )
            },
        }
    }

    pub open spec fn confirm_screener_registration(
        self,
        now: u64,
        admin: Address,
        screener: Address,
    ) -> Result<ComplianceState, ComplianceError> {
        match self.active_admin_refusal(admin) {
            Some(e) => Err(e),
            None => if !self.pending_screeners.dom().contains(screener) {
                Err(ComplianceError::NoPendingScreener)
            } else if now < self.pending_screeners[screener].effective_at {
                Err(ComplianceError::ScreenerTimelockActive)
            } else {
                match self.activate_screener(screener) {
                    Err(e) => Err(e),
                    Ok(next) => Ok(
                        ComplianceState {
                            pending_screeners: self.pending_screeners.remove(screener),
                            ..next
                        },
                    ),
                }
            },
        }
    }

    pub open spec fn deregister_screener(self, admin: Address, screener: Address) -> Result<
        ComplianceState,
        ComplianceError,
    > {
        match self.active_admin_refusal(admin) {
            Some(e) => Err(e),
            None => if self.screeners.dom().contains(screener) {
                Ok(
                    ComplianceState {
                        screeners: self.screeners.remove(screener),
                        screener_ids: crate::collections::without_item(self.screener_ids, screener),
                        ..self
                    }.emit(ComplianceEvent::ScreenerRemoved { admin, screener }),
                )
            } else if self.pending_screeners.dom().contains(screener) {
                Ok(
                    ComplianceState {
                        pending_screeners: self.pending_screeners.remove(screener),
                        ..self
                    }.emit(ComplianceEvent::ScreenerProposalCancelled { admin, screener }),
                )
            } else {
                Err(ComplianceError::ScreenerNotRegistered)
            },
        }
    }

    pub open spec fn set_rescreening_interval(self, admin: Address, secs: u64) -> Result<
        ComplianceState,
        ComplianceError,
    > {
        match self.admin_refusal(admin) {
            Some(e) => Err(e),
            None => if secs == 0 {
                Err(ComplianceError::InvalidConfig)
            } else {
                Ok(
                    ComplianceState { rescreening_interval: secs, ..self }.emit(
                        ComplianceEvent::RescreeningIntervalSet { admin, secs },
                    ),
                )
            },
        }
    }

    pub open spec fn set_screener_timelock(self, admin: Address, secs: u64) -> Result<
        ComplianceState,
        ComplianceError,
    > {
        match self.admin_refusal(admin) {
            Some(e) => Err(e),
            None => Ok(
                ComplianceState { screener_timelock: secs, ..self }.emit(
                    ComplianceEvent::ScreenerTimelockSet { admin, secs },
                ),
            ),
        }
    }

    /// The decisions on an address, oldest first.
    pub open spec fn history_of(self, address: Address) -> Seq<ScreeningHistoryEntry<Seq<u8>>> {
        if self.history.dom().contains(address) {
            self.history[address]
        } else {
            Seq::empty()
        }
    }

    /// The state in which `record` is the last decision on its address: the
    /// history tells of it, and the lists show it.
    pub open spec fn decide(self, record: ComplianceRecord<Seq<u8>>) -> ComplianceState {
        let address = record.address;
        ComplianceState {
            records: self.records.insert(address, record),
            history: self.history.insert(
                address,
                with_entry(self.history_of(address), record.entry()),
            ),
            flagged: match record.status {
                ComplianceStatus::Flagged => with_address(self.flagged, address, MAX_FLAGGED_LIST),
                ComplianceStatus::Blocked => with_address(self.flagged, address, MAX_FLAGGED_LIST),
                _ => crate::collections::without_item(self.flagged, address),
            },
            pending_review: match record.status {
                ComplianceStatus::PendingReview => with_address(
                    self.pending_review,
                    address,
                    MAX_PENDING_LIST,
                ),
                _ => crate::collections::without_item(self.pending_review, address),
            },
            ..self
        }
    }

    pub open spec fn submit_screening_result(
        self,
        now: u64,
        screener: Address,
        address: Address,
        status: ComplianceStatus,
        reason_code: u32,
        risk_tier: RiskTier,
        expires_at: u64,
        notes_hash: Seq<u8>,
    ) -> Result<ComplianceState, ComplianceError> {
        let expiry = if expires_at == 0 {
            now.saturating_add(self.rescreening_interval)
        } else {
            expires_at
        };
        if self.paused {
            Err(ComplianceError::ContractPaused)
        } else {
            match self.screener_refusal(screener) {
                Some(e) => Err(e),
                None => if status is Unscreened {
                    Err(ComplianceError::InvalidStatus)
                } else if status is Cleared && expires_at != 0 && expires_at <= now {
                    Err(ComplianceError::InvalidConfig)
                } else {
                    Ok(
                        self.decide(
                            ComplianceRecord {
                                address,
                                status,
                                reason_code,
                                risk_tier,
                                screened_at: now,
                                screened_by: screener,
                                expires_at: expiry,
                                notes_hash,
                            },
                        ).emit(
                            ComplianceEvent::Screened {
                                address,
                                status,
                                reason_code,
                                screener,
                                expires_at: expiry,
                            },
                        ),
                    )
                },
            }
        }
    }

    pub open spec fn request_review(
        self,
        now: u64,
        caller: Address,
        address: Address,
        reason: Seq<u8>,
    ) -> Result<ComplianceState, ComplianceError> {
        let key = ReviewKey { caller, address };
        if self.paused {
            Err(ComplianceError::ContractPaused)
        } else if self.review_requested_at.dom().contains(key) && now
            < self.review_requested_at[key].saturating_add(REVIEW_REQUEST_COOLDOWN_SECS) {
            Err(ComplianceError::ReviewRequestTooSoon)
        } else {
            let known = self.records.dom().contains(address);
            let record = ComplianceRecord {
                address,
                status: ComplianceStatus::PendingReview,
                reason_code: 0,
                risk_tier: if known {
                    self.records[address].risk_tier
                } else {
                    RiskTier::Medium
                },
                screened_at: now,
                screened_by: caller,
                expires_at: 0,
                notes_hash: reason,
            };
            Ok(
                ComplianceState {
                    review_requested_at: self.review_requested_at.insert(key, now),
                    ..self.decide(record)
                }.emit(
                    ComplianceEvent::ReviewRequested {
                        address,
                        caller,
                        was_cleared: known && self.records[address].clears(now),
                    },
                ),
            )
        }
    }

    /// Whether an address is cleared at the time `now`.
    pub open spec fn is_cleared(self, now: u64, address: Address) -> bool {
        self.records.dom().contains(address) && self.records[address].clears(now)
    }

    /// The status of an address at the time `now`.
    pub open spec fn effective_status(self, now: u64, address: Address) -> ComplianceStatus {
        if self.records.dom().contains(address) {
            self.records[address].effective_status(now)
        } else {
            ComplianceStatus::Unscreened
        }
    }
}

} // verus!
