//! The compliance register that runs.
//!
//! Each request takes the time at which it is made, where that matters, and the
//! address that makes it. Whoever calls has checked that this address has agreed
//! to the request.

use soroban_sdk::Env;
use vstd::prelude::*;
use crate::address::Address;
use crate::collections::AddressList;
use crate::compliance::error::ComplianceError;
use crate::compliance::state::{
    ComplianceState, DEFAULT_RESCREENING_INTERVAL_SECS, DEFAULT_SCREENER_TIMELOCK_SECS,
    MAX_FLAGGED_LIST, MAX_HISTORY_ENTRIES, MAX_PENDING_LIST, MAX_SCREENER_LIST,
    REVIEW_REQUEST_COOLDOWN_SECS,
};
use crate::compliance::types::{
    ComplianceEvent, ComplianceRecord, ComplianceStatus, PendingScreener, ReviewKey, RiskTier,
    ScreeningHistoryEntry,
};
use crate::series::Series;
use crate::table::Table;
use crate::text::Text;

verus! {

/// The compliance register.
pub struct ComplianceContract {
    pub env: Env,
    pub initialized: bool,
    pub admin: Option<Address>,
    pub paused: bool,
    pub rescreening_interval: u64,
    pub screener_timelock: u64,
    pub records: Table<Address, ComplianceRecord>,
    pub history: Table<Address, Series<ScreeningHistoryEntry>>,
    pub screeners: Table<Address, bool>,
    pub screener_ids: AddressList,
    pub pending_screeners: Table<Address, PendingScreener>,
    pub flagged: AddressList,
    pub pending_review: AddressList,
    pub review_requested_at: Table<ReviewKey, u64>,
    pub events: Series<ComplianceEvent>,
}

impl View for ComplianceContract {
    type V = ComplianceState;

    open spec fn view(&self) -> ComplianceState {
        ComplianceState {
            initialized: self.initialized,
            admin: self.admin,
            paused: self.paused,
            rescreening_interval: self.rescreening_interval,
            screener_timelock: self.screener_timelock,
            records: self.records@,
            history: self.history@,
            screeners: self.screeners@,
            screener_ids: self.screener_ids@,
            pending_screeners: self.pending_screeners@,
            flagged: self.flagged@,
            pending_review: self.pending_review@,
            review_requested_at: self.review_requested_at@,
            events: self.events@,
        }
    }
}

impl ComplianceContract {
    /// A register that nobody has set up.
    pub fn new(env: Env) -> (r: ComplianceContract)
        ensures
            r@ == ComplianceState::blank(),
    {
        ComplianceContract {
            initialized: false,
            admin: None,
            paused: false,
            rescreening_interval: DEFAULT_RESCREENING_INTERVAL_SECS,
            screener_timelock: DEFAULT_SCREENER_TIMELOCK_SECS,
            records: Table::new(),
            history: Table::new(),
            screeners: Table::new(),
            screener_ids: AddressList::new(&env),
            pending_screeners: Table::new(),
            flagged: AddressList::new(&env),
            pending_review: AddressList::new(&env),
            review_requested_at: Table::new(),
            events: Series::new(),
            env,
        }
    }

    fn require_admin(&self, admin: Address) -> (r: Result<(), ComplianceError>)
        ensures
            r == match self@.admin_refusal(admin) {
                Some(e) => Err::<(), ComplianceError>(e),
                None => Ok(()),
            },
    {
        match self.admin {
            None => Err(ComplianceError::NotInitialized),
            Some(stored) => if admin != stored {
                Err(ComplianceError::Unauthorized)
            } else {
                Ok(())
            },
        }
    }

    fn require_active_admin(&self, admin: Address) -> (r: Result<(), ComplianceError>)
        ensures
            r == match self@.active_admin_refusal(admin) {
                Some(e) => Err::<(), ComplianceError>(e),
                None => Ok(()),
            },
    {
        match self.require_admin(admin) {
            Err(e) => Err(e),
            Ok(()) => if self.paused {
                Err(ComplianceError::ContractPaused)
            } else {
                Ok(())
            },
        }
    }

    fn require_screener_or_admin(&self, caller: Address) -> (r: Result<(), ComplianceError>)
        ensures
            r == match self@.screener_refusal(caller) {
                Some(e) => Err::<(), ComplianceError>(e),
                None => Ok(()),
            },
    {
        match self.admin {
            None => Err(ComplianceError::NotInitialized),
            Some(admin) => if caller == admin || self.screeners.contains(&caller) {
                Ok(())
            } else {
                Err(ComplianceError::Unauthorized)
            },
        }
    }

    /// Sets the register up under its administrator. This can be done once.
    pub fn initialize(&mut self, admin: Address) -> (r: Result<(), ComplianceError>)
        ensures
            crate::outcome::stepped(r, old(self)@, final(self)@, old(self)@.initialize(admin)),
    {
        if self.initialized {
            return Err(ComplianceError::AlreadyInitialized);
        }
        self.admin = Some(admin);
        self.initialized = true;
        self.paused = false;
        self.rescreening_interval = DEFAULT_RESCREENING_INTERVAL_SECS;
        self.screener_timelock = DEFAULT_SCREENER_TIMELOCK_SECS;
        self.screener_ids = AddressList::new(&self.env);
        self.flagged = AddressList::new(&self.env);
        self.pending_review = AddressList::new(&self.env);
        Ok(())
    }

    /// Suspends the register.
    pub fn pause(&mut self, admin: Address) -> (r: Result<(), ComplianceError>)
        ensures
            crate::outcome::stepped(r, old(self)@, final(self)@, old(self)@.pause(admin)),
    {
        self.require_admin(admin)?;
        self.paused = true;
        self.events.push(ComplianceEvent::Paused { admin });
        Ok(())
    }

    /// Takes the register up again.
    pub fn unpause(&mut self, admin: Address) -> (r: Result<(), ComplianceError>)
        ensures
            crate::outcome::stepped(r, old(self)@, final(self)@, old(self)@.unpause(admin)),
    {
        self.require_admin(admin)?;
        self.paused = false;
        self.events.push(ComplianceEvent::Unpaused { admin });
        Ok(())
    }

    /// Whether the register is suspended.
    pub fn is_paused(&self) -> (r: bool)
        ensures
            r == self@.paused,
    {
        self.paused
    }

    fn activate_screener(&mut self, screener: Address) -> (r: Result<(), ComplianceError>)
        ensures
            crate::outcome::stepped(
                r,
                old(self)@,
                final(self)@,
                old(self)@.activate_screener(screener),
            ),
    {
        if self.screeners.contains(&screener) {
            return Err(ComplianceError::ScreenerAlreadyRegistered);
        }
        if self.screener_ids.len() >= MAX_SCREENER_LIST {
            return Err(ComplianceError::ListFull);
        }
        self.screener_ids.push(screener);
        self.screeners.insert(screener, true);
        self.events.push(ComplianceEvent::ScreenerRegistered { screener });
        Ok(())
    }

    /// Proposes a screener. It becomes active once it is confirmed after the
    /// timelock, or at once if there is no timelock.
    pub fn register_screener(&mut self, now: u64, admin: Address, screener: Address) -> (r: Result<
        (),
        ComplianceError,
    >)
        ensures
            crate::outcome::stepped(
                r,
                old(self)@,
                final(self)@,
                old(self)@.register_screener(now, admin, screener),
            ),
    {
        self.require_active_admin(admin)?;
        if self.screeners.contains(&screener) {
            return Err(ComplianceError::ScreenerAlreadyRegistered);
        }
        if self.screener_timelock == 0 {
            return self.activate_screener(screener);
        }
        let effective_at: u64 = now.saturating_add(self.screener_timelock);
        self.pending_screeners.insert(
            screener,
            PendingScreener { address: screener, proposed_at: now, effective_at },
        );
        self.events.push(ComplianceEvent::ScreenerProposed { admin, screener, effective_at });
        Ok(())
    }

    /// Registers a proposed screener whose timelock has run out.
    pub fn confirm_screener_registration(
        &mut self,
        now: u64,
        admin: Address,
        screener: Address,
    ) -> (r: Result<(), ComplianceError>)
        ensures
            crate::outcome::stepped(
                r,
                old(self)@,
                final(self)@,
                old(self)@.confirm_screener_registration(now, admin, screener),
            ),
    {
        self.require_active_admin(admin)?;
        match self.pending_screeners.get(&screener) {
            None => {
                return Err(ComplianceError::NoPendingScreener);
            },
            Some(pending) => {
                if now < pending.effective_at {
                    return Err(ComplianceError::ScreenerTimelockActive);
                }
            },
        }
        self.activate_screener(screener)?;
        let _ = self.pending_screeners.remove(&screener);
        Ok(())
    }

    /// Removes a screener, or the proposal of one.
    pub fn deregister_screener(&mut self, admin: Address, screener: Address) -> (r: Result<
        (),
        ComplianceError,
    >)
        ensures
            crate::outcome::stepped(
                r,
                old(self)@,
                final(self)@,
                old(self)@.deregister_screener(admin, screener),
            ),
    {
        self.require_active_admin(admin)?;
        if !self.screeners.contains(&screener) {
            if self.pending_screeners.contains(&screener) {
                let _ = self.pending_screeners.remove(&screener);
                self.events.push(ComplianceEvent::ScreenerProposalCancelled { admin, screener });
                return Ok(());
            }
            return Err(ComplianceError::ScreenerNotRegistered);
        }
        let _ = self.screeners.remove(&screener);
        self.screener_ids = self.screener_ids.without(&self.env, screener);
        self.events.push(ComplianceEvent::ScreenerRemoved { admin, screener });
        Ok(())
    }

    /// Whether an address is a registered screener.
    pub fn is_screener(&self, address: Address) -> (r: bool)
        ensures
            r == self@.screeners.dom().contains(address),
    {
        self.screeners.contains(&address)
    }

    /// The registered screeners.
    pub fn list_screeners(&self) -> (r: &AddressList)
        ensures
            r@ == self@.screener_ids,
    {
        &self.screener_ids
    }

    /// Sets how long a clearance lasts when the screener names no end.
    pub fn set_rescreening_interval(&mut self, admin: Address, secs: u64) -> (r: Result<
        (),
        ComplianceError,
    >)
        ensures
            crate::outcome::stepped(
                r,
                old(self)@,
                final(self)@,
                old(self)@.set_rescreening_interval(admin, secs),
            ),
    {
        self.require_admin(admin)?;
        if secs == 0 {
            return Err(ComplianceError::InvalidConfig);
        }
        self.rescreening_interval = secs;
        self.events.push(ComplianceEvent::RescreeningIntervalSet { admin, secs });
        Ok(())
    }

    /// How long a clearance lasts when the screener names no end.
    pub fn get_rescreening_interval(&self) -> (r: u64)
        ensures
            r == self@.rescreening_interval,
    {
        self.rescreening_interval
    }

    /// Sets how long a proposed screener waits.
    pub fn set_screener_timelock(&mut self, admin: Address, secs: u64) -> (r: Result<
        (),
        ComplianceError,
    >)
        ensures
            crate::outcome::stepped(
                r,
                old(self)@,
                final(self)@,
                old(self)@.set_screener_timelock(admin, secs),
            ),
    {
        self.require_admin(admin)?;
        self.screener_timelock = secs;
        self.events.push(ComplianceEvent::ScreenerTimelockSet { admin, secs });
        Ok(())
    }

    /// How long a proposed screener waits.
    pub fn get_screener_timelock(&self) -> (r: u64)
        ensures
            r == self@.screener_timelock,
    {
        self.screener_timelock
    }

    fn append_history(&mut self, address: Address, entry: ScreeningHistoryEntry)
        ensures
            final(self)@ == (ComplianceState {
                history: old(self)@.history.insert(
                    address,
                    crate::compliance::state::with_entry(
                        old(self)@.history_of(address),
                        entry@,
                    ),
                ),
                ..old(self)@
            }),
            final(self).env == old(self).env,
    {
        let mut history = match self.history.remove(&address) {
            Some(history) => history,
            None => Series::new(),
        };
        if history.len() >= MAX_HISTORY_ENTRIES {
            history.remove_oldest();
        }
        history.push(entry);
        self.history.insert(address, history);
        assert(self@.history =~= old(self)@.history.insert(address, history@));
    }

    fn add_to_list(env: &Env, list: &mut AddressList, address: Address, max: u32)
        requires
            0 < max < u32::MAX,
        ensures
            final(list)@ == crate::compliance::state::with_address(old(list)@, address, max),
    {
        if list.contains(address) {
            return;
        }
        if list.len() >= max {
            *list = list.without_oldest(env);
        }
        list.push(address);
    }

    fn sync_status_lists(&mut self, address: Address, status: ComplianceStatus)
        ensures
            final(self)@ == (ComplianceState {
                flagged: if status is Flagged || status is Blocked {
                    crate::compliance::state::with_address(
                        old(self)@.flagged,
                        address,
                        MAX_FLAGGED_LIST,
                    )
                } else {
                    crate::collections::without_item(old(self)@.flagged, address)
                },
                pending_review: if status is PendingReview {
                    crate::compliance::state::with_address(
                        old(self)@.pending_review,
                        address,
                        MAX_PENDING_LIST,
                    )
                } else {
                    crate::collections::without_item(old(self)@.pending_review, address)
                },
                ..old(self)@
            }),
    {
        match status {
            ComplianceStatus::Flagged | ComplianceStatus::Blocked => {
                Self::add_to_list(&self.env, &mut self.flagged, address, MAX_FLAGGED_LIST);
                self.pending_review = self.pending_review.without(&self.env, address);
            },
            ComplianceStatus::PendingReview => {
                Self::add_to_list(&self.env, &mut self.pending_review, address, MAX_PENDING_LIST);
                self.flagged = self.flagged.without(&self.env, address);
            },
            ComplianceStatus::Cleared | ComplianceStatus::Unscreened => {
                self.flagged = self.flagged.without(&self.env, address);
                self.pending_review = self.pending_review.without(&self.env, address);
            },
        }
    }

    fn decide(&mut self, record: ComplianceRecord)
        ensures
            final(self)@ == old(self)@.decide(record@),
    {
        let address = record.address;
        let status = record.status;
        let entry = ScreeningHistoryEntry {
            status: record.status,
            reason_code: record.reason_code,
            risk_tier: record.risk_tier,
            screened_at: record.screened_at,
            screened_by: record.screened_by,
            expires_at: record.expires_at,
            notes_hash: record.notes_hash.clone(),
        };
        self.records.insert(address, record);
        self.append_history(address, entry);
        self.sync_status_lists(address, status);
    }

    /// Records a screener's decision on an address. An `expires_at` of 0 stands
    /// for the default lifetime.
    pub fn submit_screening_result(
        &mut self,
        now: u64,
        screener: Address,
        address: Address,
        status: ComplianceStatus,
        reason_code: u32,
        risk_tier: RiskTier,
        expires_at: u64,
        notes_hash: Text,
    ) -> (r: Result<(), ComplianceError>)
        ensures
            crate::outcome::stepped(
                r,
                old(self)@,
                final(self)@,
                old(self)@.submit_screening_result(
                    now,
                    screener,
                    address,
                    status,
                    reason_code,
                    risk_tier,
                    expires_at,
                    notes_hash@,
                ),
            ),
    {
        if self.paused {
            return Err(ComplianceError::ContractPaused);
        }
        self.require_screener_or_admin(screener)?;
        if status == ComplianceStatus::Unscreened {
            return Err(ComplianceError::InvalidStatus);
        }
        let expiry: u64 = if expires_at == 0 {
            now.saturating_add(self.rescreening_interval)
        } else if expires_at <= now && status == ComplianceStatus::Cleared {
            return Err(ComplianceError::InvalidConfig);
        } else {
            expires_at
        };
        self.decide(
            ComplianceRecord {
                address,
                status,
                reason_code,
                risk_tier,
                screened_at: now,
                screened_by: screener,
                expires_at: expiry,
                notes_hash,
            },
        );
        self.events.push(
            ComplianceEvent::Screened { address, status, reason_code, screener, expires_at: expiry },
        );
        Ok(())
    }

    /// Asks for a review of an address: until a screener decides again, the
    /// address is not cleared. Anyone can ask, once a day for one address.
    pub fn request_review(
        &mut self,
        now: u64,
        caller: Address,
        address: Address,
        reason: Text,
    ) -> (r: Result<(), ComplianceError>)
        ensures
            crate::outcome::stepped(
                r,
                old(self)@,
                final(self)@,
                old(self)@.request_review(now, caller, address, reason@),
            ),
    {
        if self.paused {
            return Err(ComplianceError::ContractPaused);
        }
        let key = ReviewKey { caller, address };
        if let Some(last_at) = self.review_requested_at.get(&key) {
            if now < last_at.saturating_add(REVIEW_REQUEST_COOLDOWN_SECS) {
                return Err(ComplianceError::ReviewRequestTooSoon);
            }
        }
        let mut was_cleared = false;
        let mut risk_tier = RiskTier::Medium;
        if let Some(existing) = self.records.get(&address) {
            was_cleared =
            existing.status == ComplianceStatus::Cleared && (existing.expires_at == 0 || now
                < existing.expires_at);
            risk_tier = existing.risk_tier;
        }
        self.decide(
            ComplianceRecord {
                address,
                status: ComplianceStatus::PendingReview,
                reason_code: 0,
                risk_tier,
                screened_at: now,
                screened_by: caller,
                expires_at: 0,
                notes_hash: reason,
            },
        );
        self.review_requested_at.insert(key, now);
        self.events.push(ComplianceEvent::ReviewRequested { address, caller, was_cleared });
        Ok(())
    }

    /// Whether an address is cleared now: the last decision on it is a clearance
    /// that has not run out.
    pub fn is_cleared(&self, now: u64, address: Address) -> (r: bool)
        ensures
            r == self@.is_cleared(now, address),
    {
        match self.records.get(&address) {
            Some(record) => record.status == ComplianceStatus::Cleared && (record.expires_at == 0
                || now < record.expires_at),
            None => false,
        }
    }

    /// The status of an address now: a clearance that has run out counts as none.
    pub fn get_effective_status(&self, now: u64, address: Address) -> (r: ComplianceStatus)
        ensures
            r == self@.effective_status(now, address),
    {
        match self.records.get(&address) {
            Some(record) => {
                if record.status == ComplianceStatus::Cleared && record.expires_at != 0 && now
                    >= record.expires_at {
                    ComplianceStatus::Unscreened
                } else {
                    record.status
                }
            },
            None => ComplianceStatus::Unscreened,
        }
    }

    /// The statuses of several addresses now, in their order.
    pub fn get_effective_status_batch(&self, now: u64, addresses: &AddressList) -> (r: Vec<
        ComplianceStatus,
    >)
        ensures
            r@ == addresses@.map_values(|a: Address| self@.effective_status(now, a)),
    {
        let mut statuses: Vec<ComplianceStatus> = Vec::new();
        let len: u32 = addresses.len();
        let mut i: u32 = 0;
        while i < len
            invariant
                i <= len,
                len == addresses@.len(),
                statuses@ == addresses@.take(i as int).map_values(
                    |a: Address| self@.effective_status(now, a),
                ),
            decreases len - i,
        {
            if let Some(address) = addresses.get(i) {
                statuses.push(self.get_effective_status(now, address));
            }
            assert(addresses@.take(i + 1) =~= addresses@.take(i as int).push(
                addresses@[i as int],
            ));
            i = i + 1;
        }
        assert(addresses@.take(len as int) =~= addresses@);
        statuses
    }

    /// The last decision on an address.
    pub fn get_compliance_record(&self, address: Address) -> (r: Option<&ComplianceRecord>)
        ensures
            match r {
                Some(record) => self@.records.dom().contains(address) && record@
                    == self@.records[address],
                None => !self@.records.dom().contains(address),
            },
    {
        self.records.get(&address)
    }

    /// The decisions on an address that the register remembers, oldest first, if
    /// there was one.
    pub fn get_screening_history(&self, address: Address) -> (r: Option<
        &Series<ScreeningHistoryEntry>,
    >)
        ensures
            match r {
                Some(history) => self@.history.dom().contains(address) && history@
                    == self@.history_of(address),
                None => !self@.history.dom().contains(address),
            },
    {
        self.history.get(&address)
    }

    /// The addresses that were flagged or blocked.
    pub fn list_flagged(&self) -> (r: &AddressList)
        ensures
            r@ == self@.flagged,
    {
        &self.flagged
    }

    /// The addresses that wait for a review.
    pub fn list_pending_review(&self) -> (r: &AddressList)
        ensures
            r@ == self@.pending_review,
    {
        &self.pending_review
    }

    /// The administrator.
    pub fn get_admin(&self) -> (r: Result<Address, ComplianceError>)
        ensures
            r == match self@.admin {
                Some(admin) => Ok(admin),
                None => Err(ComplianceError::NotInitialized),
            },
    {
        match self.admin {
            Some(admin) => Ok(admin),
            None => Err(ComplianceError::NotInitialized),
        }
    }
}

} // verus!
