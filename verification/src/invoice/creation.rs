//! How invoices come into being.

use vstd::prelude::*;
use crate::address::Address;
use crate::arith::saturating_sum;
use crate::collections::NumberList;
use crate::invoice::constants::{
    MAX_DUE_DATE_AHEAD_SECS, SECS_PER_DAY, VERIFICATION_TIMEOUT_SECS,
};
use crate::invoice::error::{InvoiceError, InvoiceFailure, Objection};
use crate::invoice::rules::{is_valid_metadata_uri, validate_invoice_strings};
use crate::invoice::state::{fail, object, InvoiceContract, InvoiceState};
use crate::invoice::types::{
    Clearance, DebtorRecord, Invoice, InvoiceEvent, InvoiceStatus, StorageStats,
};
use crate::outcome::Trap;
use crate::text::{clone_text_option, Text};

verus! {

/// What an owner asks for with a new invoice.
#[derive(Debug)]
pub struct InvoiceRequest<S = Text> {
    pub owner: Address,
    pub debtor: S,
    pub amount: i128,
    pub due_date: u64,
    pub description: S,
    pub verification_hash: S,
    pub metadata_uri: Option<S>,
}

impl View for InvoiceRequest<Text> {
    type V = InvoiceRequest<Seq<u8>>;

    open spec fn view(&self) -> InvoiceRequest<Seq<u8>> {
        InvoiceRequest {
            owner: self.owner,
            debtor: self.debtor@,
            amount: self.amount,
            due_date: self.due_date,
            description: self.description@,
            verification_hash: self.verification_hash@,
            metadata_uri: crate::text::text_option(self.metadata_uri),
        }
    }
}

impl InvoiceState {
    /// Why the compliance register stands in the way of an owner, if so.
    pub open spec fn compliance_refusal(self, clearance: Clearance) -> Option<InvoiceError> {
        if !self.settings.require_compliance {
            None
        } else if self.settings.compliance_registry is None {
            Some(InvoiceError::ComplianceRegistryNotConfigured)
        } else {
            match clearance {
                Clearance::Cleared => None,
                Clearance::NotCleared => Some(InvoiceError::ComplianceNotCleared),
                Clearance::Unavailable => Some(InvoiceError::ComplianceCheckFailed),
            }
        }
    }

    /// Why an amount is refused, if so.
    pub open spec fn amount_refusal(self, amount: i128) -> Option<InvoiceFailure> {
        if amount <= 0 {
            Some(InvoiceFailure::Error(InvoiceError::InvalidAmount))
        } else {
            match self.settings.max_invoice_amount {
                None => Some(InvoiceFailure::Objection(Objection::MaxAmountNotSet)),
                Some(max) => if amount > max {
                    Some(InvoiceFailure::Objection(Objection::AmountExceedsMaximum))
                } else {
                    None
                },
            }
        }
    }

    /// Why a due date is refused, if so: it has to lie in the future, by the
    /// window that was set, and not too far in the future.
    pub open spec fn due_date_refusal(self, now: u64, due_date: u64) -> Option<InvoiceError> {
        if due_date <= now {
            Some(InvoiceError::InvalidDueDate)
        } else if now + self.settings.min_due_date_window > u64::MAX {
            Some(InvoiceError::DateOverflow)
        } else if due_date < now + self.settings.min_due_date_window {
            Some(InvoiceError::DueDateTooSoon)
        } else if now + MAX_DUE_DATE_AHEAD_SECS > u64::MAX {
            Some(InvoiceError::DateOverflow)
        } else if due_date > now + MAX_DUE_DATE_AHEAD_SECS {
            Some(InvoiceError::DateOverflow)
        } else {
            None
        }
    }

    /// Why the debtor of a new invoice is refused, if so.
    pub open spec fn debtor_refusal(self, debtor: Seq<u8>, amount: i128) -> Option<InvoiceFailure> {
        if !self.settings.require_registered_debtor {
            None
        } else if !self.debtors.dom().contains(debtor) {
            Some(InvoiceFailure::Objection(Objection::DebtorNotRegistered))
        } else if !self.debtors[debtor].is_active {
            Some(InvoiceFailure::Objection(Objection::DebtorNotActive))
        } else {
            match self.debtors[debtor].current_exposure.checked_add(amount) {
                None => Some(InvoiceFailure::Trap(Trap::Overflow)),
                Some(exposure) => if exposure > self.debtors[debtor].max_exposure {
                    Some(InvoiceFailure::Objection(Objection::DebtorExposureExceeded))
                } else {
                    None
                },
            }
        }
    }

    /// When an owner created invoices in the 24 hours up to `now`.
    pub open spec fn recent_creations(self, now: u64, owner: Address) -> Seq<u64> {
        crate::collections::items_above(
            if self.timestamps.dom().contains(owner) {
                self.timestamps[owner]
            } else {
                Seq::empty()
            },
            now.saturating_sub(SECS_PER_DAY),
        )
    }

    /// Why there is no room for one more invoice, if so.
    pub open spec fn room_refusal(self, now: u64, owner: Address) -> Option<InvoiceFailure> {
        if self.invoice_count == u64::MAX {
            Some(InvoiceFailure::Trap(Trap::Overflow))
        } else if self.settings.pool is None {
            Some(InvoiceFailure::Objection(Objection::PoolNotConfigured))
        } else if now + VERIFICATION_TIMEOUT_SECS > u64::MAX {
            Some(InvoiceFailure::Error(InvoiceError::ArithmeticOverflow))
        } else if self.invoices.dom().contains((self.invoice_count + 1) as u64) {
            Some(InvoiceFailure::Error(InvoiceError::IDCollision))
        } else if self.owned(owner).len() >= u32::MAX {
            Some(InvoiceFailure::Trap(Trap::CollectionFull))
        } else if self.stats.total_invoices == u64::MAX || self.stats.active_invoices == u64::MAX {
            Some(InvoiceFailure::Trap(Trap::Overflow))
        } else {
            None
        }
    }

    /// Why a new invoice is refused, if so: the first of the reasons counts.
    pub open spec fn creation_refusal(
        self,
        now: u64,
        request: InvoiceRequest<Seq<u8>>,
        clearance: Clearance,
    ) -> Option<InvoiceFailure> {
        let texts = crate::invoice::rules::text_error(
            request.debtor,
            request.description,
            request.verification_hash,
        );
        if self.settings.paused {
            Some(InvoiceFailure::Error(InvoiceError::ContractPaused))
        } else if texts is Some {
            Some(InvoiceFailure::Error(texts->0))
        } else if self.compliance_refusal(clearance) is Some {
            Some(InvoiceFailure::Error(self.compliance_refusal(clearance)->0))
        } else if request.metadata_uri is Some && !crate::invoice::rules::valid_metadata_uri(
            request.metadata_uri->0,
        ) {
            Some(InvoiceFailure::Objection(Objection::InvalidMetadataUri))
        } else if self.amount_refusal(request.amount) is Some {
            self.amount_refusal(request.amount)
        } else if self.due_date_refusal(now, request.due_date) is Some {
            Some(InvoiceFailure::Error(self.due_date_refusal(now, request.due_date)->0))
        } else if crate::arith::clamped_sum(self.outstanding(request.owner), request.amount)
            > self.settings.max_outstanding_per_sme {
            Some(InvoiceFailure::Objection(Objection::SmeExposureLimitExceeded))
        } else if self.debtor_refusal(request.debtor, request.amount) is Some {
            self.debtor_refusal(request.debtor, request.amount)
        } else if self.recent_creations(now, request.owner).len() >= self.settings.daily_limit {
            Some(InvoiceFailure::Error(InvoiceError::RateLimitExceeded))
        } else {
            self.room_refusal(now, request.owner)
        }
    }

    /// The invoice that a request leads to.
    pub open spec fn new_invoice(self, now: u64, request: InvoiceRequest<Seq<u8>>) -> Invoice<
        Seq<u8>,
    > {
        Invoice {
            id: (self.invoice_count + 1) as u64,
            owner: request.owner,
            debtor: request.debtor,
            amount: request.amount,
            original_due_date: request.due_date,
            due_date: request.due_date,
            pending_due_date: None,
            description: request.description,
            status: if self.settings.oracle is Some {
                InvoiceStatus::AwaitingVerification
            } else {
                InvoiceStatus::Pending
            },
            created_at: now,
            funded_at: 0,
            paid_at: 0,
            pool_contract: self.settings.pool->0,
            verification_hash: request.verification_hash,
            metadata_uri: request.metadata_uri,
            oracle_verified: false,
            dispute_reason: Seq::empty(),
            disputed_at: 0,
            grace_period_override: None,
            verification_deadline: (now + VERIFICATION_TIMEOUT_SECS) as u64,
            funded_amount: 0,
        }
    }

    /// The state in which a debtor owes `amount` more, if debtors count.
    pub open spec fn more_exposure(self, debtor: Seq<u8>, amount: i128) -> InvoiceState {
        if self.settings.require_registered_debtor {
            let record = self.debtors[debtor];
            InvoiceState {
                debtors: self.debtors.insert(
                    debtor,
                    DebtorRecord {
                        current_exposure: (record.current_exposure + amount) as i128,
                        ..record
                    },
                ),
                ..self
            }
        } else {
            self
        }
    }

    /// The state in which the invoice of a request exists.
    pub open spec fn with_new_invoice(
        self,
        now: u64,
        request: InvoiceRequest<Seq<u8>>,
    ) -> InvoiceState {
        let invoice = self.new_invoice(now, request);
        let recent = self.recent_creations(now, request.owner).push(now);
        InvoiceState {
            timestamps: self.timestamps.insert(request.owner, recent),
            invoice_count: invoice.id,
            stats: StorageStats {
                total_invoices: (self.stats.total_invoices + 1) as u64,
                active_invoices: (self.stats.active_invoices + 1) as u64,
                ..self.stats
            },
            ..self.more_exposure(request.debtor, request.amount).put(
                invoice.id,
                invoice,
            ).renew_open(invoice.id).with_owned(request.owner, invoice.id)
        }.announce(
            InvoiceEvent::Created {
                id: invoice.id,
                owner: request.owner,
                amount: request.amount,
                metadata_uri: request.metadata_uri,
                at: now,
            },
        )
    }

    pub open spec fn create_invoice_with_metadata(
        self,
        now: u64,
        request: InvoiceRequest<Seq<u8>>,
        clearance: Clearance,
    ) -> Result<(InvoiceState, u64), InvoiceFailure> {
        match self.creation_refusal(now, request, clearance) {
            Some(e) => Err(e),
            None => Ok(
                (self.with_new_invoice(now, request), (self.invoice_count + 1) as u64),
            ),
        }
    }

    /// As above, for an invoice that has to have a metadata link.
    pub open spec fn create_invoice(
        self,
        now: u64,
        request: InvoiceRequest<Seq<u8>>,
        clearance: Clearance,
    ) -> Result<(InvoiceState, u64), InvoiceFailure> {
        if request.metadata_uri is None || !crate::invoice::rules::valid_metadata_uri(
            request.metadata_uri->0,
        ) {
            Err(InvoiceFailure::Error(InvoiceError::InvalidMetadata))
        } else {
            self.create_invoice_with_metadata(now, request, clearance)
        }
    }
}

impl InvoiceContract {
    /// The compliance register that has to be asked about the owner of a new
    /// invoice, if one has to be asked.
    pub fn compliance_to_ask(&self) -> (r: Option<Address>)
        ensures
            r == (if self@.settings.require_compliance {
                self@.settings.compliance_registry
            } else {
                None
            }),
    {
        if self.settings.require_compliance {
            self.settings.compliance_registry
        } else {
            None
        }
    }

    fn require_compliance_cleared(&self, clearance: Clearance) -> (r: Result<(), InvoiceFailure>)
        ensures
            r == match self@.compliance_refusal(clearance) {
                Some(e) => Err::<(), InvoiceFailure>(InvoiceFailure::Error(e)),
                None => Ok(()),
            },
    {
        if !self.settings.require_compliance {
            return Ok(());
        }
        if self.settings.compliance_registry.is_none() {
            return fail(InvoiceError::ComplianceRegistryNotConfigured);
        }
        match clearance {
            Clearance::Cleared => Ok(()),
            Clearance::NotCleared => fail(InvoiceError::ComplianceNotCleared),
            Clearance::Unavailable => fail(InvoiceError::ComplianceCheckFailed),
        }
    }

    fn validate_amount(&self, amount: i128) -> (r: Result<(), InvoiceFailure>)
        ensures
            r == match self@.amount_refusal(amount) {
                Some(e) => Err::<(), InvoiceFailure>(e),
                None => Ok(()),
            },
    {
        if amount <= 0 {
            return fail(InvoiceError::InvalidAmount);
        }
        match self.settings.max_invoice_amount {
            None => object(Objection::MaxAmountNotSet),
            Some(max) => if amount > max {
                object(Objection::AmountExceedsMaximum)
            } else {
                Ok(())
            },
        }
    }

    fn validate_due_date(&self, now: u64, due_date: u64) -> (r: Result<(), InvoiceFailure>)
        ensures
            r == match self@.due_date_refusal(now, due_date) {
                Some(e) => Err::<(), InvoiceFailure>(InvoiceFailure::Error(e)),
                None => Ok(()),
            },
    {
        if due_date <= now {
            return fail(InvoiceError::InvalidDueDate);
        }
        match now.checked_add(self.settings.min_due_date_window) {
            None => {
                return fail(InvoiceError::DateOverflow);
            },
            Some(min_due_date) => {
                if due_date < min_due_date {
                    return fail(InvoiceError::DueDateTooSoon);
                }
            },
        }
        match now.checked_add(MAX_DUE_DATE_AHEAD_SECS) {
            None => fail(InvoiceError::DateOverflow),
            Some(max_due_date) => if due_date > max_due_date {
                fail(InvoiceError::DateOverflow)
            } else {
                Ok(())
            },
        }
    }

    /// Checks the debtor of a new invoice, and gives its record with the
    /// exposure that the invoice leads to, if debtors count.
    fn charge_debtor(&self, debtor: &Text, amount: i128) -> (r: Result<
        Option<DebtorRecord>,
        InvoiceFailure,
    >)
        ensures
            match self@.debtor_refusal(debtor@, amount) {
                Some(e) => r matches Err(f) && f == e,
                None => match r {
                    Err(_) => false,
                    Ok(None) => !self@.settings.require_registered_debtor,
                    Ok(Some(record)) => self@.settings.require_registered_debtor && record@ == (
                    DebtorRecord {
                        current_exposure: (self@.debtors[debtor@].current_exposure
                            + amount) as i128,
                        ..self@.debtors[debtor@]
                    }),
                },
            },
    {
        if !self.settings.require_registered_debtor {
            return Ok(None);
        }
        let record = match self.debtors.get(debtor) {
            None => {
                return object(Objection::DebtorNotRegistered);
            },
            Some(record) => record,
        };
        if !record.is_active {
            return object(Objection::DebtorNotActive);
        }
        match record.current_exposure.checked_add(amount) {
            None => Err(InvoiceFailure::Trap(Trap::Overflow)),
            Some(exposure) => {
                if exposure > record.max_exposure {
                    return object(Objection::DebtorExposureExceeded);
                }
                let mut charged = record.clone();
                charged.current_exposure = exposure;
                Ok(Some(charged))
            },
        }
    }

    fn recent_creations(&self, now: u64, owner: Address) -> (r: NumberList)
        ensures
            r@ == self@.recent_creations(now, owner),
    {
        let window_start: u64 = now.saturating_sub(SECS_PER_DAY);
        match self.timestamps.get(&owner) {
            Some(timestamps) => timestamps.above(&self.env, window_start),
            None => {
                let none = NumberList::new(&self.env);
                none.above(&self.env, window_start)
            },
        }
    }

    fn check_room(&self, now: u64, owner: Address) -> (r: Result<Address, InvoiceFailure>)
        ensures
            match self@.room_refusal(now, owner) {
                Some(e) => r == Err::<Address, InvoiceFailure>(e),
                None => r == Ok::<Address, InvoiceFailure>(self@.settings.pool->0),
            },
    {
        if self.invoice_count == u64::MAX {
            return Err(InvoiceFailure::Trap(Trap::Overflow));
        }
        let pool = match self.settings.pool {
            None => {
                return object(Objection::PoolNotConfigured);
            },
            Some(pool) => pool,
        };
        if now.checked_add(VERIFICATION_TIMEOUT_SECS).is_none() {
            return fail(InvoiceError::ArithmeticOverflow);
        }
        if self.invoices.contains(&(self.invoice_count + 1)) {
            return fail(InvoiceError::IDCollision);
        }
        if let Some(ids) = self.sme_invoices.get(&owner) {
            if ids.len() == u32::MAX {
                return Err(InvoiceFailure::Trap(Trap::CollectionFull));
            }
        }
        if self.stats.total_invoices == u64::MAX || self.stats.active_invoices == u64::MAX {
            return Err(InvoiceFailure::Trap(Trap::Overflow));
        }
        Ok(pool)
    }

    fn add_invoice_to_owner(&mut self, owner: Address, id: u64)
        requires
            old(self)@.owned(owner).len() < u32::MAX,
        ensures
            final(self)@ == old(self)@.with_owned(owner, id),
    {
        let mut ids = match self.sme_invoices.remove(&owner) {
            Some(ids) => ids,
            None => NumberList::new(&self.env),
        };
        ids.push(id);
        let ghost next = ids@;
        self.sme_invoices.insert(owner, ids);
        assert(self@.sme_invoices =~= old(self)@.sme_invoices.insert(owner, next));
    }

    fn create(&mut self, now: u64, request: InvoiceRequest, clearance: Clearance) -> (r: Result<
        u64,
        InvoiceFailure,
    >)
        ensures
            crate::outcome::gave(
                r,
                old(self)@,
                final(self)@,
                old(self)@.create_invoice_with_metadata(now, request@, clearance),
            ),
    {
        self.require_not_paused()?;
        match validate_invoice_strings(
            &request.debtor,
            &request.description,
            &request.verification_hash,
        ) {
            Err(e) => {
                return fail(e);
            },
            Ok(()) => {},
        }
        self.require_compliance_cleared(clearance)?;
        if let Some(uri) = &request.metadata_uri {
            if !is_valid_metadata_uri(uri) {
                return object(Objection::InvalidMetadataUri);
            }
        }
        self.validate_amount(request.amount)?;
        self.validate_due_date(now, request.due_date)?;
        let outstanding: i128 = self.outstanding(request.owner);
        if saturating_sum(outstanding, request.amount) > self.settings.max_outstanding_per_sme {
            return object(Objection::SmeExposureLimitExceeded);
        }
        let charged = self.charge_debtor(&request.debtor, request.amount)?;
        let mut recent = self.recent_creations(now, request.owner);
        if recent.len() >= self.settings.daily_limit {
            return fail(InvoiceError::RateLimitExceeded);
        }
        let pool = self.check_room(now, request.owner)?;

        if let Some(record) = charged {
            self.debtors.insert(request.debtor.clone(), record);
        }
        recent.push(now);
        self.timestamps.insert(request.owner, recent);
        let id: u64 = self.invoice_count + 1;
        let metadata_uri = clone_text_option(&request.metadata_uri);
        let owner = request.owner;
        let amount: i128 = request.amount;
        let invoice = Invoice {
            id,
            owner,
            debtor: request.debtor,
            amount,
            original_due_date: request.due_date,
            due_date: request.due_date,
            pending_due_date: None,
            description: request.description,
            status: if self.settings.oracle.is_some() {
                InvoiceStatus::AwaitingVerification
            } else {
                InvoiceStatus::Pending
            },
            created_at: now,
            funded_at: 0,
            paid_at: 0,
            pool_contract: pool,
            verification_hash: request.verification_hash,
            metadata_uri: request.metadata_uri,
            oracle_verified: false,
            dispute_reason: Text::new(Vec::new()),
            disputed_at: 0,
            grace_period_override: None,
            verification_deadline: now + VERIFICATION_TIMEOUT_SECS,
            funded_amount: 0,
        };
        self.invoices.insert(id, invoice);
        self.renew_open(id);
        self.invoice_count = id;
        self.add_invoice_to_owner(owner, id);
        self.stats.total_invoices = self.stats.total_invoices + 1;
        self.stats.active_invoices = self.stats.active_invoices + 1;
        self.events.push(InvoiceEvent::Created { id, owner, amount, metadata_uri, at: now });
        Ok(id)
    }

    /// Creates an invoice and gives its number back. The metadata link is
    /// optional. `clearance` is what the compliance register says of the owner,
    /// where [`compliance_to_ask`] names one.
    ///
    /// [`compliance_to_ask`]: InvoiceContract::compliance_to_ask
    pub fn create_invoice_with_metadata(
        &mut self,
        now: u64,
        owner: Address,
        debtor: Text,
        amount: i128,
        due_date: u64,
        description: Text,
        verification_hash: Text,
        metadata_uri: Option<Text>,
        clearance: Clearance,
    ) -> (r: Result<u64, InvoiceFailure>)
        ensures
            crate::outcome::gave(
                r,
                old(self)@,
                final(self)@,
                old(self)@.create_invoice_with_metadata(
                    now,
                    (InvoiceRequest {
                        owner,
                        debtor: debtor@,
                        amount,
                        due_date,
                        description: description@,
                        verification_hash: verification_hash@,
                        metadata_uri: crate::text::text_option(metadata_uri),
                    }),
                    clearance,
                ),
            ),
    {
        let request = InvoiceRequest {
            owner,
            debtor,
            amount,
            due_date,
            description,
            verification_hash,
            metadata_uri,
        };
        self.create(now, request, clearance)
    }

    /// Creates an invoice with a metadata link and gives its number back.
    pub fn create_invoice(
        &mut self,
        now: u64,
        owner: Address,
        debtor: Text,
        amount: i128,
        due_date: u64,
        description: Text,
        verification_hash: Text,
        metadata_url: Text,
        clearance: Clearance,
    ) -> (r: Result<u64, InvoiceFailure>)
        ensures
            crate::outcome::gave(
                r,
                old(self)@,
                final(self)@,
                old(self)@.create_invoice(
                    now,
                    (InvoiceRequest {
                        owner,
                        debtor: debtor@,
                        amount,
                        due_date,
                        description: description@,
                        verification_hash: verification_hash@,
                        metadata_uri: Some(metadata_url@),
                    }),
                    clearance,
                ),
            ),
    {
        if !is_valid_metadata_uri(&metadata_url) {
            return fail(InvoiceError::InvalidMetadata);
        }
        let request = InvoiceRequest {
            owner,
            debtor,
            amount,
            due_date,
            description,
            verification_hash,
            metadata_uri: Some(metadata_url),
        };
        self.create(now, request, clearance)
    }
}

} // verus!
