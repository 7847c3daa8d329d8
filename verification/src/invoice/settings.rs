//! The rules of the invoice ledger and how they are set.

use vstd::prelude::*;
use crate::address::Address;
use crate::invoice::constants::{
    ACTIVE_INVOICE_TTL, DEFAULT_DISPUTE_RESOLUTION_WINDOW, DEFAULT_MIN_DUE_DATE_WINDOW_SECS,
    MAX_DAILY_INVOICE_LIMIT, MAX_EXPIRATION_DURATION_SECS, MAX_GRACE_PERIOD_OVERRIDE_DAYS,
};
use crate::invoice::error::{InvoiceError, InvoiceFailure, Objection};
use crate::invoice::state::{
    default_image, fail, object, InvoiceContract, InvoiceState, Settings,
};
use crate::invoice::types::{Invoice, InvoiceEvent, InvoiceStatus, Notice, StorageStats};
use crate::series::Series;
use crate::text::Text;

verus! {

impl InvoiceState {
    /// Why the ledger cannot be set up in this way, if so.
    pub open spec fn setup_refusal(
        self,
        max_invoice_amount: i128,
        expiration_duration_secs: u64,
        grace_period_days: u32,
    ) -> Option<InvoiceFailure> {
        if self.settings.initialized {
            Some(InvoiceFailure::Error(InvoiceError::AlreadyInitialized))
        } else if max_invoice_amount <= 0 {
            Some(InvoiceFailure::Objection(Objection::MaxAmountNotPositive))
        } else if expiration_duration_secs == 0 {
            Some(InvoiceFailure::Objection(Objection::ExpirationZero))
        } else if expiration_duration_secs > MAX_EXPIRATION_DURATION_SECS {
            Some(InvoiceFailure::Error(InvoiceError::ArithmeticOverflow))
        } else if grace_period_days > 90 {
            Some(InvoiceFailure::Objection(Objection::GracePeriodTooLong))
        } else {
            None
        }
    }

    pub open spec fn initialize(
        self,
        admin: Address,
        pool: Address,
        max_invoice_amount: i128,
        expiration_duration_secs: u64,
        grace_period_days: u32,
    ) -> Result<InvoiceState, InvoiceFailure> {
        match self.setup_refusal(max_invoice_amount, expiration_duration_secs, grace_period_days) {
            Some(e) => Err(e),
            None => Ok(
                InvoiceState {
                    settings: Settings {
                        initialized: true,
                        admin: Some(admin),
                        pool: Some(pool),
                        paused: false,
                        grace_period_days,
                        max_invoice_amount: Some(max_invoice_amount),
                        max_outstanding_per_sme: i128::MAX,
                        expiration_duration_secs,
                        dispute_window: DEFAULT_DISPUTE_RESOLUTION_WINDOW,
                        min_due_date_window: DEFAULT_MIN_DUE_DATE_WINDOW_SECS,
                        version: Some(self.release),
                        migration_version: 0,
                        require_registered_debtor: false,
                        require_oracle_verification: false,
                        ..self.settings
                    },
                    invoice_count: 0,
                    stats: StorageStats {
                        total_invoices: 0,
                        active_invoices: 0,
                        cleaned_invoices: 0,
                    },
                    image_uri: crate::invoice::state::default_image_uri(),
                    debtor_ids: Seq::empty(),
                    ..self
                },
            ),
        }
    }

    pub open spec fn set_require_registered_debtor(
        self,
        admin: Address,
        required: bool,
    ) -> Result<InvoiceState, InvoiceFailure> {
        match self.admin_refusal(
            admin,
            InvoiceFailure::Objection(Objection::Unauthorized),
        ) {
            Some(e) => Err(e),
            None => Ok(
                self.with_settings(
                    Settings { require_registered_debtor: required, ..self.settings },
                ).notify(
                    Notice::RegisteredDebtorsOnly {
                        admin,
                        old: self.settings.require_registered_debtor,
                        new: required,
                    },
                ),
            ),
        }
    }

    pub open spec fn set_oracle_verified_funding_only(
        self,
        admin: Address,
        required: bool,
    ) -> Result<InvoiceState, InvoiceFailure> {
        match self.admin_refusal(
            admin,
            InvoiceFailure::Error(InvoiceError::Unauthorized),
        ) {
            Some(e) => Err(e),
            None => Ok(
                self.with_settings(
                    Settings { require_oracle_verification: required, ..self.settings },
                ).notify(
                    Notice::VerifiedFundingOnly {
                        admin,
                        old: self.settings.require_oracle_verification,
                        new: required,
                    },
                ),
            ),
        }
    }

    pub open spec fn set_compliance_registry(
        self,
        admin: Address,
        registry: Address,
    ) -> Result<InvoiceState, InvoiceFailure> {
        match self.running_admin_refusal(
            admin,
            InvoiceFailure::Error(InvoiceError::Unauthorized),
        ) {
            Some(e) => Err(e),
            None => Ok(
                self.with_settings(
                    Settings { compliance_registry: Some(registry), ..self.settings },
                ).notify(
                    Notice::ComplianceRegistrySet { admin, registry },
                ),
            ),
        }
    }

    pub open spec fn set_require_compliance_check(
        self,
        admin: Address,
        required: bool,
    ) -> Result<InvoiceState, InvoiceFailure> {
        match self.running_admin_refusal(
            admin,
            InvoiceFailure::Error(InvoiceError::Unauthorized),
        ) {
            Some(e) => Err(e),
            None => Ok(
                self.with_settings(
                    Settings { require_compliance: required, ..self.settings },
                ).notify(
                    Notice::ComplianceRequired { admin, required },
                ),
            ),
        }
    }

    pub open spec fn set_daily_invoice_limit(
        self,
        admin: Address,
        limit: u32,
    ) -> Result<InvoiceState, InvoiceFailure> {
        match self.running_admin_refusal(
            admin,
            InvoiceFailure::Objection(Objection::Unauthorized),
        ) {
            Some(e) => Err(e),
            None => if limit == 0 {
                Err(InvoiceFailure::Objection(Objection::DailyLimitZero))
            } else if limit > MAX_DAILY_INVOICE_LIMIT {
                Err(InvoiceFailure::Objection(Objection::DailyLimitTooHigh))
            } else {
                Ok(
                    self.with_settings(Settings { daily_limit: limit, ..self.settings }).notify(
                        Notice::DailyLimitSet { admin, old: self.settings.daily_limit, new: limit },
                    ),
                )
            },
        }
    }

    pub open spec fn set_dispute_window(
        self,
        admin: Address,
        window: u64,
    ) -> Result<InvoiceState, InvoiceFailure> {
        match self.admin_refusal(
            admin,
            InvoiceFailure::Objection(Objection::Unauthorized),
        ) {
            Some(e) => Err(e),
            None => Ok(
                self.with_settings(Settings { dispute_window: window, ..self.settings }).notify(
                    Notice::DisputeWindowSet {
                        admin,
                        old: self.settings.dispute_window,
                        new: window,
                    },
                ),
            ),
        }
    }

    pub open spec fn set_grace_period(
        self,
        admin: Address,
        days: u32,
    ) -> Result<InvoiceState, InvoiceFailure> {
        match self.admin_refusal(
            admin,
            InvoiceFailure::Objection(Objection::Unauthorized),
        ) {
            Some(e) => Err(e),
            None => if days > 90 {
                Err(InvoiceFailure::Objection(Objection::GracePeriodTooLong))
            } else {
                Ok(
                    self.with_settings(
                        Settings { grace_period_days: days, ..self.settings },
                    ).notify(
                        Notice::GracePeriodSet {
                            admin,
                            old: self.settings.grace_period_days,
                            new: days,
                        },
                    ),
                )
            },
        }
    }

    pub open spec fn set_min_due_date_window(
        self,
        admin: Address,
        window_secs: u64,
    ) -> Result<InvoiceState, InvoiceFailure> {
        match self.admin_refusal(
            admin,
            InvoiceFailure::Objection(Objection::Unauthorized),
        ) {
            Some(e) => Err(e),
            None => Ok(
                self.with_settings(
                    Settings { min_due_date_window: window_secs, ..self.settings },
                ).notify(
                    Notice::MinDueDateWindowSet {
                        admin,
                        old: self.settings.min_due_date_window,
                        new: window_secs,
                    },
                ),
            ),
        }
    }

    pub open spec fn set_max_invoice_amount(
        self,
        admin: Address,
        max_invoice_amount: i128,
    ) -> Result<InvoiceState, InvoiceFailure> {
        match self.running_admin_refusal(
            admin,
            InvoiceFailure::Objection(Objection::Unauthorized),
        ) {
            Some(e) => Err(e),
            None => if max_invoice_amount <= 0 {
                Err(InvoiceFailure::Objection(Objection::MaxAmountNotPositive))
            } else {
                Ok(
                    self.with_settings(
                        Settings { max_invoice_amount: Some(max_invoice_amount), ..self.settings },
                    ).notify(
                        Notice::MaxAmountSet {
                            admin,
                            old: match self.settings.max_invoice_amount {
                                Some(old) => old,
                                None => 0,
                            },
                            new: max_invoice_amount,
                        },
                    ),
                )
            },
        }
    }

    pub open spec fn set_max_sme_outstanding(
        self,
        admin: Address,
        max: i128,
    ) -> Result<InvoiceState, InvoiceFailure> {
        match self.running_admin_refusal(
            admin,
            InvoiceFailure::Objection(Objection::Unauthorized),
        ) {
            Some(e) => Err(e),
            None => if max <= 0 {
                Err(InvoiceFailure::Objection(Objection::MaxOutstandingNotPositive))
            } else {
                Ok(
                    self.with_settings(
                        Settings { max_outstanding_per_sme: max, ..self.settings },
                    ).notify(
                        Notice::MaxOutstandingSet { admin, max },
                    ),
                )
            },
        }
    }

    pub open spec fn set_expiration_duration(
        self,
        admin: Address,
        expiration_duration_secs: u64,
    ) -> Result<InvoiceState, InvoiceFailure> {
        match self.running_admin_refusal(
            admin,
            InvoiceFailure::Objection(Objection::Unauthorized),
        ) {
            Some(e) => Err(e),
            None => if expiration_duration_secs == 0 {
                Err(InvoiceFailure::Objection(Objection::ExpirationZero))
            } else if expiration_duration_secs > MAX_EXPIRATION_DURATION_SECS {
                Err(InvoiceFailure::Error(InvoiceError::ArithmeticOverflow))
            } else {
                Ok(
                    self.with_settings(
                        Settings { expiration_duration_secs, ..self.settings },
                    ).notify(
                        Notice::ExpirationDurationSet {
                            admin,
                            old: self.settings.expiration_duration_secs,
                            new: expiration_duration_secs,
                        },
                    ),
                )
            },
        }
    }

    pub open spec fn set_completed_invoice_ttl(
        self,
        admin: Address,
        ttl_ledgers: u32,
    ) -> Result<InvoiceState, InvoiceFailure> {
        match self.running_admin_refusal(
            admin,
            InvoiceFailure::Objection(Objection::Unauthorized),
        ) {
            Some(e) => Err(e),
            None => if ttl_ledgers < ACTIVE_INVOICE_TTL {
                Err(InvoiceFailure::Objection(Objection::CompletedTtlTooShort))
            } else {
                Ok(
                    self.with_settings(
                        Settings { completed_ttl: ttl_ledgers, ..self.settings },
                    ).notify(
                        Notice::CompletedTtlSet { admin, ledgers: ttl_ledgers },
                    ),
                )
            },
        }
    }

    pub open spec fn set_pool(
        self,
        admin: Address,
        pool: Address,
    ) -> Result<InvoiceState, InvoiceFailure> {
        match self.running_admin_refusal(
            admin,
            InvoiceFailure::Objection(Objection::Unauthorized),
        ) {
            Some(e) => Err(e),
            None => Ok(
                self.with_settings(Settings { pool: Some(pool), ..self.settings }).notify(
                    Notice::PoolSet { admin, pool },
                ),
            ),
        }
    }

    pub open spec fn set_metadata_image_uri(
        self,
        admin: Address,
        uri: Seq<u8>,
    ) -> Result<InvoiceState, InvoiceFailure> {
        match self.running_admin_refusal(
            admin,
            InvoiceFailure::Objection(Objection::Unauthorized),
        ) {
            Some(e) => Err(e),
            None => if uri.len() == 0 || uri.len()
                > crate::invoice::constants::MAX_METADATA_URI_LEN {
                Err(InvoiceFailure::Objection(Objection::InvalidImageUri))
            } else {
                Ok(
                    InvoiceState { image_uri: uri, ..self }.announce(
                        InvoiceEvent::ImageSet { admin, uri },
                    ),
                )
            },
        }
    }

    /// Why `admin` cannot give an invoice a grace period of its own, if so.
    pub open spec fn override_refusal(self, admin: Address, id: u64, days: u32) -> Option<
        InvoiceFailure,
    > {
        match self.running_admin_refusal(
            admin,
            InvoiceFailure::Objection(Objection::CallerNotAdmin),
        ) {
            Some(e) => Some(e),
            None => if days > MAX_GRACE_PERIOD_OVERRIDE_DAYS {
                Some(InvoiceFailure::Objection(Objection::GraceOverrideTooLong { days }))
            } else if !self.invoices.dom().contains(id) {
                Some(InvoiceFailure::Error(InvoiceError::InvoiceNotFound))
            } else if !(self.invoices[id].status is Funded) {
                Some(InvoiceFailure::Objection(Objection::GraceOverrideNotFunded))
            } else {
                None
            },
        }
    }

    pub open spec fn set_invoice_grace_period(
        self,
        admin: Address,
        id: u64,
        days: u32,
    ) -> Result<InvoiceState, InvoiceFailure> {
        match self.override_refusal(admin, id, days) {
            Some(e) => Err(e),
            None => Ok(
                self.put(
                    id,
                    Invoice { grace_period_override: Some(days), ..self.invoices[id] },
                ).notify(
                    Notice::InvoiceGracePeriodSet {
                        id,
                        old: self.grace_days(self.invoices[id]),
                        new: days,
                    },
                ),
            ),
        }
    }

    /// The owner of an invoice decides whether it is shown to others.
    pub open spec fn set_invoice_private(
        self,
        id: u64,
        owner: Address,
        private: bool,
    ) -> Result<InvoiceState, InvoiceFailure> {
        if self.settings.paused {
            Err(InvoiceFailure::Error(InvoiceError::ContractPaused))
        } else if !self.invoices.dom().contains(id) {
            Err(InvoiceFailure::Error(InvoiceError::InvoiceNotFound))
        } else if self.invoices[id].owner != owner {
            Err(InvoiceFailure::Error(InvoiceError::Unauthorized))
        } else {
            Ok(
                InvoiceState { private: self.private.insert(id, private), ..self }.notify(
                    Notice::PrivacySet { id, private },
                ),
            )
        }
    }

    /// Whether an invoice is hidden from others: it is not, unless its owner has
    /// said so.
    pub open spec fn is_private(self, id: u64) -> bool {
        self.private.dom().contains(id) && self.private[id]
    }
}

impl InvoiceContract {
    /// Sets the ledger up under its administrator. This can be done once.
    pub fn initialize(
        &mut self,
        admin: Address,
        pool: Address,
        max_invoice_amount: i128,
        expiration_duration_secs: u64,
        grace_period_days: u32,
    ) -> (r: Result<(), InvoiceFailure>)
        ensures
            crate::outcome::stepped(
                r,
                old(self)@,
                final(self)@,
                old(self)@.initialize(
                    admin,
                    pool,
                    max_invoice_amount,
                    expiration_duration_secs,
                    grace_period_days,
                ),
            ),
    {
        if self.settings.initialized {
            return fail(InvoiceError::AlreadyInitialized);
        }
        if max_invoice_amount <= 0 {
            return object(Objection::MaxAmountNotPositive);
        }
        if expiration_duration_secs == 0 {
            return object(Objection::ExpirationZero);
        }
        if expiration_duration_secs > MAX_EXPIRATION_DURATION_SECS {
            return fail(InvoiceError::ArithmeticOverflow);
        }
        if grace_period_days > 90 {
            return object(Objection::GracePeriodTooLong);
        }
        self.settings.admin = Some(admin);
        self.settings.pool = Some(pool);
        self.invoice_count = 0;
        self.settings.initialized = true;
        self.stats = StorageStats::default();
        self.settings.paused = false;
        self.settings.grace_period_days = grace_period_days;
        self.settings.max_invoice_amount = Some(max_invoice_amount);
        self.settings.max_outstanding_per_sme = i128::MAX;
        self.settings.expiration_duration_secs = expiration_duration_secs;
        self.settings.dispute_window = DEFAULT_DISPUTE_RESOLUTION_WINDOW;
        self.settings.min_due_date_window = DEFAULT_MIN_DUE_DATE_WINDOW_SECS;
        self.settings.version = Some(self.release);
        self.settings.migration_version = 0;
        self.settings.require_registered_debtor = false;
        self.settings.require_oracle_verification = false;
        self.image_uri = default_image();
        self.debtor_ids = Series::new();
        Ok(())
    }

    /// Sets whether invoices can be made out to registered debtors alone.
    pub fn set_require_registered_debtor(
        &mut self,
        admin: Address,
        required: bool,
    ) -> (r: Result<(), InvoiceFailure>)
        ensures
            crate::outcome::stepped(
                r,
                old(self)@,
                final(self)@,
                old(self)@.set_require_registered_debtor(admin, required),
            ),
    {
        self.require_admin(admin, InvoiceFailure::Objection(Objection::Unauthorized))?;
        let settings = self.settings;
        self.settings.require_registered_debtor = required;
        self.notify(
            Notice::RegisteredDebtorsOnly {
                admin,
                old: settings.require_registered_debtor,
                new: required,
            },
        );
        Ok(())
    }

    /// Sets whether invoices can be funded only once they are verified.
    pub fn set_oracle_verified_funding_only(
        &mut self,
        admin: Address,
        required: bool,
    ) -> (r: Result<(), InvoiceFailure>)
        ensures
            crate::outcome::stepped(
                r,
                old(self)@,
                final(self)@,
                old(self)@.set_oracle_verified_funding_only(admin, required),
            ),
    {
        self.require_admin(admin, InvoiceFailure::Error(InvoiceError::Unauthorized))?;
        let settings = self.settings;
        self.settings.require_oracle_verification = required;
        self.notify(
            Notice::VerifiedFundingOnly {
                admin,
                old: settings.require_oracle_verification,
                new: required,
            },
        );
        Ok(())
    }

    /// Names the compliance register.
    pub fn set_compliance_registry(
        &mut self,
        admin: Address,
        registry: Address,
    ) -> (r: Result<(), InvoiceFailure>)
        ensures
            crate::outcome::stepped(
                r,
                old(self)@,
                final(self)@,
                old(self)@.set_compliance_registry(admin, registry),
            ),
    {
        self.require_running_admin(admin, InvoiceFailure::Error(InvoiceError::Unauthorized))?;
        self.settings.compliance_registry = Some(registry);
        self.notify(
            Notice::ComplianceRegistrySet { admin, registry },
        );
        Ok(())
    }

    /// Sets whether owners have to be cleared by the compliance register.
    pub fn set_require_compliance_check(
        &mut self,
        admin: Address,
        required: bool,
    ) -> (r: Result<(), InvoiceFailure>)
        ensures
            crate::outcome::stepped(
                r,
                old(self)@,
                final(self)@,
                old(self)@.set_require_compliance_check(admin, required),
            ),
    {
        self.require_running_admin(admin, InvoiceFailure::Error(InvoiceError::Unauthorized))?;
        self.settings.require_compliance = required;
        self.notify(
            Notice::ComplianceRequired { admin, required },
        );
        Ok(())
    }

    /// Sets how many invoices an owner can create in any 24 hours.
    pub fn set_daily_invoice_limit(
        &mut self,
        admin: Address,
        limit: u32,
    ) -> (r: Result<(), InvoiceFailure>)
        ensures
            crate::outcome::stepped(
                r,
                old(self)@,
                final(self)@,
                old(self)@.set_daily_invoice_limit(admin, limit),
            ),
    {
        self.require_running_admin(admin, InvoiceFailure::Objection(Objection::Unauthorized))?;
        if limit == 0 {
            return object(Objection::DailyLimitZero);
        }
        if limit > MAX_DAILY_INVOICE_LIMIT {
            return object(Objection::DailyLimitTooHigh);
        }
        let settings = self.settings;
        self.settings.daily_limit = limit;
        self.notify(
            Notice::DailyLimitSet { admin, old: settings.daily_limit, new: limit },
        );
        Ok(())
    }

    /// Sets how long a dispute is left to the oracle, and how long a default can
    /// be disputed.
    pub fn set_dispute_window(
        &mut self,
        admin: Address,
        window: u64,
    ) -> (r: Result<(), InvoiceFailure>)
        ensures
            crate::outcome::stepped(
                r,
                old(self)@,
                final(self)@,
                old(self)@.set_dispute_window(admin, window),
            ),
    {
        self.require_admin(admin, InvoiceFailure::Objection(Objection::Unauthorized))?;
        let settings = self.settings;
        self.settings.dispute_window = window;
        self.notify(
            Notice::DisputeWindowSet { admin, old: settings.dispute_window, new: window },
        );
        Ok(())
    }

    /// Sets how many days behind its due date an invoice is in default.
    pub fn set_grace_period(&mut self, admin: Address, days: u32) -> (r: Result<(), InvoiceFailure>)
        ensures
            crate::outcome::stepped(
                r,
                old(self)@,
                final(self)@,
                old(self)@.set_grace_period(admin, days),
            ),
    {
        self.require_admin(admin, InvoiceFailure::Objection(Objection::Unauthorized))?;
        if days > 90 {
            return object(Objection::GracePeriodTooLong);
        }
        let settings = self.settings;
        self.settings.grace_period_days = days;
        self.notify(
            Notice::GracePeriodSet { admin, old: settings.grace_period_days, new: days },
        );
        Ok(())
    }

    /// Sets how far ahead a due date has to lie.
    pub fn set_min_due_date_window(
        &mut self,
        admin: Address,
        window_secs: u64,
    ) -> (r: Result<(), InvoiceFailure>)
        ensures
            crate::outcome::stepped(
                r,
                old(self)@,
                final(self)@,
                old(self)@.set_min_due_date_window(admin, window_secs),
            ),
    {
        self.require_admin(admin, InvoiceFailure::Objection(Objection::Unauthorized))?;
        let settings = self.settings;
        self.settings.min_due_date_window = window_secs;
        self.notify(
            Notice::MinDueDateWindowSet {
                admin,
                old: settings.min_due_date_window,
                new: window_secs,
            },
        );
        Ok(())
    }

    /// Sets the largest amount of an invoice.
    pub fn set_max_invoice_amount(
        &mut self,
        admin: Address,
        max_invoice_amount: i128,
    ) -> (r: Result<(), InvoiceFailure>)
        ensures
            crate::outcome::stepped(
                r,
                old(self)@,
                final(self)@,
                old(self)@.set_max_invoice_amount(admin, max_invoice_amount),
            ),
    {
        self.require_running_admin(admin, InvoiceFailure::Objection(Objection::Unauthorized))?;
        if max_invoice_amount <= 0 {
            return object(Objection::MaxAmountNotPositive);
        }
        let settings = self.settings;
        self.settings.max_invoice_amount = Some(max_invoice_amount);
        self.notify(
            Notice::MaxAmountSet {
                    admin,
                    old: match settings.max_invoice_amount {
                        Some(old) => old,
                        None => 0,
                    },
                    new: max_invoice_amount,
                },
        );
        Ok(())
    }

    /// Sets how much an owner can have been funded and not paid back.
    pub fn set_max_sme_outstanding(
        &mut self,
        admin: Address,
        max: i128,
    ) -> (r: Result<(), InvoiceFailure>)
        ensures
            crate::outcome::stepped(
                r,
                old(self)@,
                final(self)@,
                old(self)@.set_max_sme_outstanding(admin, max),
            ),
    {
        self.require_running_admin(admin, InvoiceFailure::Objection(Objection::Unauthorized))?;
        if max <= 0 {
            return object(Objection::MaxOutstandingNotPositive);
        }
        self.settings.max_outstanding_per_sme = max;
        self.notify(
            Notice::MaxOutstandingSet { admin, max },
        );
        Ok(())
    }

    /// Sets how long a pending invoice waits before it expires.
    pub fn set_expiration_duration(
        &mut self,
        admin: Address,
        expiration_duration_secs: u64,
    ) -> (r: Result<(), InvoiceFailure>)
        ensures
            crate::outcome::stepped(
                r,
                old(self)@,
                final(self)@,
                old(self)@.set_expiration_duration(admin, expiration_duration_secs),
            ),
    {
        self.require_running_admin(admin, InvoiceFailure::Objection(Objection::Unauthorized))?;
        if expiration_duration_secs == 0 {
            return object(Objection::ExpirationZero);
        }
        if expiration_duration_secs > MAX_EXPIRATION_DURATION_SECS {
            return fail(InvoiceError::ArithmeticOverflow);
        }
        let settings = self.settings;
        self.settings.expiration_duration_secs = expiration_duration_secs;
        self.notify(
            Notice::ExpirationDurationSet {
                    admin,
                    old: settings.expiration_duration_secs,
                    new: expiration_duration_secs,
                },
        );
        Ok(())
    }

    /// Sets how many ledgers the entry of a closed invoice is kept for. It has to
    /// be kept at least as long as that of an open one.
    pub fn set_completed_invoice_ttl(
        &mut self,
        admin: Address,
        ttl_ledgers: u32,
    ) -> (r: Result<(), InvoiceFailure>)
        ensures
            crate::outcome::stepped(
                r,
                old(self)@,
                final(self)@,
                old(self)@.set_completed_invoice_ttl(admin, ttl_ledgers),
            ),
    {
        self.require_running_admin(admin, InvoiceFailure::Objection(Objection::Unauthorized))?;
        if ttl_ledgers < ACTIVE_INVOICE_TTL {
            return object(Objection::CompletedTtlTooShort);
        }
        self.settings.completed_ttl = ttl_ledgers;
        self.notify(
            Notice::CompletedTtlSet { admin, ledgers: ttl_ledgers },
        );
        Ok(())
    }

    /// Names the pool.
    pub fn set_pool(&mut self, admin: Address, pool: Address) -> (r: Result<(), InvoiceFailure>)
        ensures
            crate::outcome::stepped(
                r,
                old(self)@,
                final(self)@,
                old(self)@.set_pool(admin, pool),
            ),
    {
        self.require_running_admin(admin, InvoiceFailure::Objection(Objection::Unauthorized))?;
        self.settings.pool = Some(pool);
        self.notify(
            Notice::PoolSet { admin, pool },
        );
        Ok(())
    }

    /// Sets the image that stands for invoices.
    pub fn set_metadata_image_uri(
        &mut self,
        admin: Address,
        uri: Text,
    ) -> (r: Result<(), InvoiceFailure>)
        ensures
            crate::outcome::stepped(
                r,
                old(self)@,
                final(self)@,
                old(self)@.set_metadata_image_uri(admin, uri@),
            ),
    {
        self.require_running_admin(admin, InvoiceFailure::Objection(Objection::Unauthorized))?;
        if uri.is_empty() || uri.len() > crate::invoice::constants::MAX_METADATA_URI_LEN {
            return object(Objection::InvalidImageUri);
        }
        self.image_uri = uri.clone();
        self.events.push(InvoiceEvent::ImageSet { admin, uri });
        Ok(())
    }

    /// Gives a funded invoice a grace period of its own.
    pub fn set_invoice_grace_period(
        &mut self,
        admin: Address,
        id: u64,
        days: u32,
    ) -> (r: Result<(), InvoiceFailure>)
        ensures
            crate::outcome::stepped(
                r,
                old(self)@,
                final(self)@,
                old(self)@.set_invoice_grace_period(admin, id, days),
            ),
    {
        self.require_running_admin(admin, InvoiceFailure::Objection(Objection::CallerNotAdmin))?;
        if days > MAX_GRACE_PERIOD_OVERRIDE_DAYS {
            return object(Objection::GraceOverrideTooLong { days });
        }
        let mut invoice = match self.invoices.get(&id) {
            None => {
                return fail(InvoiceError::InvoiceNotFound);
            },
            Some(invoice) => invoice.clone(),
        };
        if invoice.status != InvoiceStatus::Funded {
            return object(Objection::GraceOverrideNotFunded);
        }
        let old_days: u32 = self.resolve_invoice_grace_period_days(&invoice);
        invoice.grace_period_override = Some(days);
        self.invoices.insert(id, invoice);
        self.notify(Notice::InvoiceGracePeriodSet { id, old: old_days, new: days });
        Ok(())
    }

    /// Sets whether an invoice is hidden from others. Its owner can.
    pub fn set_invoice_private(
        &mut self,
        id: u64,
        owner: Address,
        private: bool,
    ) -> (r: Result<(), InvoiceFailure>)
        ensures
            crate::outcome::stepped(
                r,
                old(self)@,
                final(self)@,
                old(self)@.set_invoice_private(id, owner, private),
            ),
    {
        self.require_not_paused()?;
        match self.invoices.get(&id) {
            None => {
                return fail(InvoiceError::InvoiceNotFound);
            },
            Some(invoice) => {
                if invoice.owner != owner {
                    return fail(InvoiceError::Unauthorized);
                }
            },
        }
        self.private.insert(id, private);
        self.notify(Notice::PrivacySet { id, private });
        Ok(())
    }
}

} // verus!
