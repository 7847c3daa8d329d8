//! The state of the invoice ledger.

use soroban_sdk::Env;
use vstd::prelude::*;
use crate::address::Address;
use crate::arith::saturating_difference;
use crate::collections::{AddressList, NumberList};
use crate::invoice::constants::{
    ACTIVE_INVOICE_TTL, DEFAULT_COMPLETED_INVOICE_TTL, DEFAULT_DISPUTE_RESOLUTION_WINDOW,
    DEFAULT_EXPIRATION_DURATION_SECS, DEFAULT_GRACE_PERIOD_DAYS, DEFAULT_MIN_DUE_DATE_WINDOW_SECS,
    MAX_INVOICES_PER_DAY, SECS_PER_DAY, UPGRADE_TIMELOCK_SECS,
};
use crate::invoice::error::{InvoiceError, InvoiceFailure, Objection};
use crate::invoice::types::{
    DebtorRecord, DisputeRecord, Invoice, InvoiceEvent, InvoiceStatus, Notice, Renewal, StorageStats,
};
use crate::invoice::version::ContractVersion;
use crate::series::Series;
use crate::table::Table;
use crate::text::Text;

verus! {

/// The image that stands for invoices by default:
/// `ipfs://bafkreihdwdcefgh4dqkjv67uzcmw7ojee6xedzdetojuzjevtenxquvyku`.
pub open spec fn default_image_uri() -> Seq<u8> {
    seq![
            105u8, 112u8, 102u8, 115u8, 58u8, 47u8, 47u8, 98u8, 97u8, 102u8, 107u8, 114u8, 101u8,
            105u8, 104u8, 100u8, 119u8, 100u8, 99u8, 101u8, 102u8, 103u8, 104u8, 52u8, 100u8,
            113u8, 107u8, 106u8, 118u8, 54u8, 55u8, 117u8, 122u8, 99u8, 109u8, 119u8, 55u8,
            111u8, 106u8, 101u8, 101u8, 54u8, 120u8, 101u8, 100u8, 122u8, 100u8, 101u8, 116u8,
            111u8, 106u8, 117u8, 122u8, 106u8, 101u8, 118u8, 116u8, 101u8, 110u8, 120u8, 113u8,
            117u8, 118u8, 121u8, 107u8, 117u8,
    ]
}

/// The image that stands for invoices by default.
pub fn default_image() -> (r: Text)
    ensures
        r@ == default_image_uri(),
{
    let bytes: Vec<u8> = vec![
            105u8, 112u8, 102u8, 115u8, 58u8, 47u8, 47u8, 98u8, 97u8, 102u8, 107u8, 114u8, 101u8,
            105u8, 104u8, 100u8, 119u8, 100u8, 99u8, 101u8, 102u8, 103u8, 104u8, 52u8, 100u8,
            113u8, 107u8, 106u8, 118u8, 54u8, 55u8, 117u8, 122u8, 99u8, 109u8, 119u8, 55u8,
            111u8, 106u8, 101u8, 101u8, 54u8, 120u8, 101u8, 100u8, 122u8, 100u8, 101u8, 116u8,
            111u8, 106u8, 117u8, 122u8, 106u8, 101u8, 118u8, 116u8, 101u8, 110u8, 120u8, 113u8,
            117u8, 118u8, 121u8, 107u8, 117u8,
    ];
    assert(bytes@ =~= default_image_uri());
    Text::new(bytes)
}

/// The parties and the rules of the ledger.
#[derive(Clone, Copy, Debug)]
pub struct Settings {
    pub initialized: bool,
    pub admin: Option<Address>,
    pub pool: Option<Address>,
    pub oracle: Option<Address>,
    pub oracle_secondary: Option<Address>,
    pub oracle_registry: Option<Address>,
    pub compliance_registry: Option<Address>,
    pub access_control: Option<Address>,
    pub pending_admin: Option<Address>,
    pub admin_change_scheduled_at: Option<u64>,
    pub paused: bool,
    pub require_registered_debtor: bool,
    pub require_oracle_verification: bool,
    pub require_consensus: bool,
    pub require_compliance: bool,
    pub grace_period_days: u32,
    pub max_invoice_amount: Option<i128>,
    pub max_outstanding_per_sme: i128,
    pub expiration_duration_secs: u64,
    pub dispute_window: u64,
    pub min_due_date_window: u64,
    pub daily_limit: u32,
    pub completed_ttl: u32,
    pub upgrade_timelock: u64,
    pub upgrade_scheduled_at: Option<u64>,
    pub version: Option<ContractVersion>,
    pub migration_version: u32,
}

impl Settings {
    /// The rules before anybody has set the ledger up.
    pub open spec fn spec_initial() -> Settings {
        Settings {
            initialized: false,
            admin: None,
            pool: None,
            oracle: None,
            oracle_secondary: None,
            oracle_registry: None,
            compliance_registry: None,
            access_control: None,
            pending_admin: None,
            admin_change_scheduled_at: None,
            paused: false,
            require_registered_debtor: false,
            require_oracle_verification: false,
            require_consensus: false,
            require_compliance: false,
            grace_period_days: DEFAULT_GRACE_PERIOD_DAYS,
            max_invoice_amount: None,
            max_outstanding_per_sme: i128::MAX,
            expiration_duration_secs: DEFAULT_EXPIRATION_DURATION_SECS,
            dispute_window: DEFAULT_DISPUTE_RESOLUTION_WINDOW,
            min_due_date_window: DEFAULT_MIN_DUE_DATE_WINDOW_SECS,
            daily_limit: MAX_INVOICES_PER_DAY,
            completed_ttl: DEFAULT_COMPLETED_INVOICE_TTL,
            upgrade_timelock: UPGRADE_TIMELOCK_SECS,
            upgrade_scheduled_at: None,
            version: None,
            migration_version: 0,
        }
    }

    /// The rules before anybody has set the ledger up.
    pub fn initial() -> (r: Settings)
        ensures
            r == Settings::spec_initial(),
    {
        Settings {
            initialized: false,
            admin: None,
            pool: None,
            oracle: None,
            oracle_secondary: None,
            oracle_registry: None,
            compliance_registry: None,
            access_control: None,
            pending_admin: None,
            admin_change_scheduled_at: None,
            paused: false,
            require_registered_debtor: false,
            require_oracle_verification: false,
            require_consensus: false,
            require_compliance: false,
            grace_period_days: DEFAULT_GRACE_PERIOD_DAYS,
            max_invoice_amount: None,
            max_outstanding_per_sme: i128::MAX,
            expiration_duration_secs: DEFAULT_EXPIRATION_DURATION_SECS,
            dispute_window: DEFAULT_DISPUTE_RESOLUTION_WINDOW,
            min_due_date_window: DEFAULT_MIN_DUE_DATE_WINDOW_SECS,
            daily_limit: MAX_INVOICES_PER_DAY,
            completed_ttl: DEFAULT_COMPLETED_INVOICE_TTL,
            upgrade_timelock: UPGRADE_TIMELOCK_SECS,
            upgrade_scheduled_at: None,
            version: None,
            migration_version: 0,
        }
    }
}

/// What the ledger knows.
#[verifier::ext_equal]
pub struct InvoiceState {
    /// The ledger's own address.
    pub me: Address,
    /// The version of the code that runs.
    pub release: ContractVersion,
    pub settings: Settings,
    pub proposed_wasm: Option<Seq<u8>>,
    pub image_uri: Seq<u8>,
    pub keepers: Seq<Address>,
    pub debtor_ids: Seq<Seq<u8>>,
    pub debtors: Map<Seq<u8>, DebtorRecord<Seq<u8>>>,
    pub invoice_count: u64,
    pub stats: StorageStats,
    pub invoices: Map<u64, Invoice<Seq<u8>>>,
    pub disputes: Map<u64, DisputeRecord<Seq<u8>>>,
    pub private: Map<u64, bool>,
    /// What was funded of an invoice piece by piece.
    pub funding: Map<u64, i128>,
    pub sme_outstanding: Map<Address, i128>,
    pub sme_invoices: Map<Address, Seq<u64>>,
    /// When an owner created its invoices of the last 24 hours.
    pub timestamps: Map<Address, Seq<u64>>,
    pub renewals: Seq<Renewal>,
    pub events: Seq<InvoiceEvent<Seq<u8>>>,
}

/// A failure with one of the ledger's errors.
pub open spec fn failed<T>(e: InvoiceError) -> Result<T, InvoiceFailure> {
    Err(InvoiceFailure::Error(e))
}

/// A failure for a reason given in words.
pub open spec fn objected<T>(o: Objection) -> Result<T, InvoiceFailure> {
    Err(InvoiceFailure::Objection(o))
}

/// The refusal of somebody who is not the administrator, as an error.
pub open spec fn unauthorized() -> InvoiceFailure {
    InvoiceFailure::Error(InvoiceError::Unauthorized)
}

/// The refusal of somebody who is not the administrator, in words.
pub open spec fn not_allowed() -> InvoiceFailure {
    InvoiceFailure::Objection(Objection::Unauthorized)
}

impl InvoiceState {
    /// The ledger at the address `me` before anybody has set it up.
    pub open spec fn blank(me: Address, release: ContractVersion) -> InvoiceState {
        InvoiceState {
            me,
            release,
            settings: Settings::spec_initial(),
            proposed_wasm: None,
            image_uri: default_image_uri(),
            keepers: Seq::empty(),
            debtor_ids: Seq::empty(),
            debtors: Map::empty(),
            invoice_count: 0,
            stats: StorageStats { total_invoices: 0, active_invoices: 0, cleaned_invoices: 0 },
            invoices: Map::empty(),
            disputes: Map::empty(),
            private: Map::empty(),
            funding: Map::empty(),
            sme_outstanding: Map::empty(),
            sme_invoices: Map::empty(),
            timestamps: Map::empty(),
            renewals: Seq::empty(),
            events: Seq::empty(),
        }
    }

    /// The state in which `event` was announced as well.
    pub open spec fn announce(self, event: InvoiceEvent<Seq<u8>>) -> InvoiceState {
        InvoiceState { events: self.events.push(event), ..self }
    }

    /// The state in which `notice` was given as well.
    pub open spec fn notify(self, notice: Notice) -> InvoiceState {
        self.announce(InvoiceEvent::Notice(notice))
    }

    /// The state under other rules.
    pub open spec fn with_settings(self, settings: Settings) -> InvoiceState {
        InvoiceState { settings, ..self }
    }

    /// The state in which `invoice` stands under the number `id`.
    pub open spec fn put(self, id: u64, invoice: Invoice<Seq<u8>>) -> InvoiceState {
        InvoiceState { invoices: self.invoices.insert(id, invoice), ..self }
    }

    /// The state in which the entry of an invoice has to be kept on, for as long
    /// as an open invoice is kept.
    pub open spec fn renew_open(self, id: u64) -> InvoiceState {
        InvoiceState {
            renewals: self.renewals.push(Renewal { id, ledgers: ACTIVE_INVOICE_TTL }),
            ..self
        }
    }

    /// The state in which the entry of an invoice has to be kept on, for as long
    /// as a closed invoice is kept.
    pub open spec fn renew_closed(self, id: u64) -> InvoiceState {
        InvoiceState {
            renewals: self.renewals.push(Renewal { id, ledgers: self.settings.completed_ttl }),
            ..self
        }
    }

    /// The state with one open invoice less in the count.
    pub open spec fn one_less_active(self) -> InvoiceState {
        InvoiceState {
            stats: StorageStats {
                active_invoices: self.stats.active_invoices.saturating_sub(1),
                ..self.stats
            },
            ..self
        }
    }

    /// What an owner has been funded and not paid back.
    pub open spec fn outstanding(self, owner: Address) -> i128 {
        if self.sme_outstanding.dom().contains(owner) {
            self.sme_outstanding[owner]
        } else {
            0
        }
    }

    /// The state in which that amount is another.
    pub open spec fn with_outstanding(self, owner: Address, value: i128) -> InvoiceState {
        InvoiceState { sme_outstanding: self.sme_outstanding.insert(owner, value), ..self }
    }

    /// The state in which that amount is less by `amount`.
    pub open spec fn less_outstanding(self, owner: Address, amount: i128) -> InvoiceState {
        self.with_outstanding(
            owner,
            crate::arith::clamped_difference(self.outstanding(owner), amount),
        )
    }

    /// The state in which a debtor, if it is registered, owes `amount` less.
    pub open spec fn less_exposure(self, debtor: Seq<u8>, amount: i128) -> InvoiceState {
        if self.debtors.dom().contains(debtor) {
            let record = self.debtors[debtor];
            InvoiceState {
                debtors: self.debtors.insert(
                    debtor,
                    DebtorRecord {
                        current_exposure: crate::arith::clamped_difference(
                            record.current_exposure,
                            amount,
                        ),
                        ..record
                    },
                ),
                ..self
            }
        } else {
            self
        }
    }

    /// The numbers of an owner's invoices.
    pub open spec fn owned(self, owner: Address) -> Seq<u64> {
        if self.sme_invoices.dom().contains(owner) {
            self.sme_invoices[owner]
        } else {
            Seq::empty()
        }
    }

    /// The state in which an owner has one invoice more.
    pub open spec fn with_owned(self, owner: Address, id: u64) -> InvoiceState {
        InvoiceState {
            sme_invoices: self.sme_invoices.insert(owner, self.owned(owner).push(id)),
            ..self
        }
    }

    /// The state in which an owner does not have an invoice any more. An owner
    /// without invoices has no entry.
    pub open spec fn without_owned(self, owner: Address, id: u64) -> InvoiceState {
        let rest = crate::collections::without_item(self.owned(owner), id);
        InvoiceState {
            sme_invoices: if rest.len() == 0 {
                self.sme_invoices.remove(owner)
            } else {
                self.sme_invoices.insert(owner, rest)
            },
            ..self
        }
    }

    /// Why the ledger does nothing now, if so.
    pub open spec fn pause_refusal(self) -> Option<InvoiceFailure> {
        if self.settings.paused {
            Some(InvoiceFailure::Error(InvoiceError::ContractPaused))
        } else {
            None
        }
    }

    /// Why `caller` is not the administrator, if so. `denial` is what anybody
    /// else is told.
    pub open spec fn admin_refusal(self, caller: Address, denial: InvoiceFailure) -> Option<
        InvoiceFailure,
    > {
        match self.settings.admin {
            None => Some(InvoiceFailure::Objection(Objection::NotInitialized)),
            Some(admin) => if caller != admin {
                Some(denial)
            } else {
                None
            },
        }
    }

    /// Why `caller` cannot act as the administrator now, if so.
    pub open spec fn running_admin_refusal(self, caller: Address, denial: InvoiceFailure) -> Option<
        InvoiceFailure,
    > {
        match self.pause_refusal() {
            Some(e) => Some(e),
            None => self.admin_refusal(caller, denial),
        }
    }

    /// Why `caller` cannot act as the pool now, if so. `denial` is what anybody
    /// else is told.
    pub open spec fn pool_refusal(self, caller: Address, denial: InvoiceFailure) -> Option<
        InvoiceFailure,
    > {
        match self.pause_refusal() {
            Some(e) => Some(e),
            None => match self.settings.pool {
                None => Some(InvoiceFailure::Objection(Objection::NotInitialized)),
                Some(pool) => if caller != pool {
                    Some(denial)
                } else {
                    None
                },
            },
        }
    }

    /// Why `caller` is not the access control, if so.
    pub open spec fn access_control_refusal(self, caller: Address) -> Option<InvoiceFailure> {
        match self.settings.access_control {
            None => Some(InvoiceFailure::Error(InvoiceError::AccessControlNotConfigured)),
            Some(configured) => if caller != configured {
                Some(unauthorized())
            } else {
                None
            },
        }
    }

    /// How many days behind its due date an invoice is in default.
    pub open spec fn grace_days(self, invoice: Invoice<Seq<u8>>) -> u32 {
        match invoice.grace_period_override {
            Some(days) => days,
            None => self.settings.grace_period_days,
        }
    }

    /// From when on an invoice can be in default, unless that lies behind the
    /// end of time.
    pub open spec fn default_at(self, invoice: Invoice<Seq<u8>>) -> Option<u64> {
        let at = invoice.due_date + self.grace_days(invoice) * SECS_PER_DAY;
        if at > u64::MAX {
            None
        } else {
            Some(at as u64)
        }
    }

    /// Whether an invoice has waited for its funding for too long.
    pub open spec fn is_stale(self, invoice: Invoice<Seq<u8>>, now: u64) -> bool {
        invoice.status is Pending && now > invoice.created_at
            + self.settings.expiration_duration_secs
    }
}

/// The invoice ledger.
pub struct InvoiceContract {
    pub env: Env,
    pub me: Address,
    pub release: ContractVersion,
    pub settings: Settings,
    pub proposed_wasm: Option<Text>,
    pub image_uri: Text,
    pub keepers: AddressList,
    pub debtor_ids: Series<Text>,
    pub debtors: Table<Text, DebtorRecord>,
    pub invoice_count: u64,
    pub stats: StorageStats,
    pub invoices: Table<u64, Invoice>,
    pub disputes: Table<u64, DisputeRecord>,
    pub private: Table<u64, bool>,
    pub funding: Table<u64, i128>,
    pub sme_outstanding: Table<Address, i128>,
    pub sme_invoices: Table<Address, NumberList>,
    pub timestamps: Table<Address, NumberList>,
    pub renewals: Series<Renewal>,
    pub events: Series<InvoiceEvent>,
}

impl View for InvoiceContract {
    type V = InvoiceState;

    open spec fn view(&self) -> InvoiceState {
        InvoiceState {
            me: self.me,
            release: self.release,
            settings: self.settings,
            proposed_wasm: crate::text::text_option(self.proposed_wasm),
            image_uri: self.image_uri@,
            keepers: self.keepers@,
            debtor_ids: self.debtor_ids@,
            debtors: self.debtors@,
            invoice_count: self.invoice_count,
            stats: self.stats,
            invoices: self.invoices@,
            disputes: self.disputes@,
            private: self.private@,
            funding: self.funding@,
            sme_outstanding: self.sme_outstanding@,
            sme_invoices: self.sme_invoices@,
            timestamps: self.timestamps@,
            renewals: self.renewals@,
            events: self.events@,
        }
    }
}

/// Fails with one of the ledger's errors.
pub(crate) fn fail<T>(e: InvoiceError) -> (r: Result<T, InvoiceFailure>)
    ensures
        r == failed::<T>(e),
{
    Err(InvoiceFailure::Error(e))
}

/// Fails for a reason given in words.
pub(crate) fn object<T>(o: Objection) -> (r: Result<T, InvoiceFailure>)
    ensures
        r == objected::<T>(o),
{
    Err(InvoiceFailure::Objection(o))
}

impl InvoiceContract {
    /// The ledger at the address `me`, run by the code of the version `release`,
    /// before anybody has set it up.
    pub fn new(env: Env, me: Address, release: ContractVersion) -> (r: InvoiceContract)
        ensures
            r@ == InvoiceState::blank(me, release),
    {
        InvoiceContract {
            me,
            release,
            settings: Settings::initial(),
            proposed_wasm: None,
            image_uri: default_image(),
            keepers: AddressList::new(&env),
            debtor_ids: Series::new(),
            debtors: Table::new(),
            invoice_count: 0,
            stats: StorageStats::default(),
            invoices: Table::new(),
            disputes: Table::new(),
            private: Table::new(),
            funding: Table::new(),
            sme_outstanding: Table::new(),
            sme_invoices: Table::new(),
            timestamps: Table::new(),
            renewals: Series::new(),
            events: Series::new(),
            env,
        }
    }

    pub(crate) fn notify(&mut self, notice: Notice)
        ensures
            final(self)@ == old(self)@.notify(notice),
    {
        self.events.push(InvoiceEvent::Notice(notice));
    }

    pub(crate) fn renew_open(&mut self, id: u64)
        ensures
            final(self)@ == old(self)@.renew_open(id),
    {
        self.renewals.push(Renewal { id, ledgers: ACTIVE_INVOICE_TTL });
    }

    pub(crate) fn renew_closed(&mut self, id: u64)
        ensures
            final(self)@ == old(self)@.renew_closed(id),
    {
        self.renewals.push(Renewal { id, ledgers: self.settings.completed_ttl });
    }

    pub(crate) fn one_less_active(&mut self)
        ensures
            final(self)@ == old(self)@.one_less_active(),
    {
        self.stats.active_invoices = self.stats.active_invoices.saturating_sub(1);
    }

    pub(crate) fn outstanding(&self, owner: Address) -> (r: i128)
        ensures
            r == self@.outstanding(owner),
    {
        match self.sme_outstanding.get(&owner) {
            Some(value) => *value,
            None => 0,
        }
    }

    pub(crate) fn decrease_sme_outstanding(&mut self, owner: Address, amount: i128)
        ensures
            final(self)@ == old(self)@.less_outstanding(owner, amount),
    {
        let current: i128 = self.outstanding(owner);
        self.sme_outstanding.insert(owner, saturating_difference(current, amount));
    }

    pub(crate) fn decrease_debtor_exposure(&mut self, debtor: &Text, amount: i128)
        ensures
            final(self)@ == old(self)@.less_exposure(debtor@, amount),
    {
        let record = match self.debtors.get(debtor) {
            None => {
                return;
            },
            Some(record) => DebtorRecord {
                debtor_id: record.debtor_id.clone(),
                debtor_name: record.debtor_name.clone(),
                max_exposure: record.max_exposure,
                current_exposure: saturating_difference(record.current_exposure, amount),
                is_active: record.is_active,
            },
        };
        self.debtors.insert(debtor.clone(), record);
    }

    pub(crate) fn remove_invoice_from_owner(&mut self, owner: Address, id: u64)
        ensures
            final(self)@ == old(self)@.without_owned(owner, id),
    {
        let rest = match self.sme_invoices.get(&owner) {
            Some(ids) => ids.without(&self.env, id),
            None => {
                let none = NumberList::new(&self.env);
                none.without(&self.env, id)
            },
        };
        if rest.len() == 0 {
            let _ = self.sme_invoices.remove(&owner);
        } else {
            self.sme_invoices.insert(owner, rest);
        }
    }

    pub(crate) fn require_not_paused(&self) -> (r: Result<(), InvoiceFailure>)
        ensures
            r == match self@.pause_refusal() {
                Some(e) => Err::<(), InvoiceFailure>(e),
                None => Ok(()),
            },
    {
        if self.settings.paused {
            return fail(InvoiceError::ContractPaused);
        }
        Ok(())
    }

    pub(crate) fn require_admin(&self, caller: Address, denial: InvoiceFailure) -> (r: Result<
        (),
        InvoiceFailure,
    >)
        ensures
            r == match self@.admin_refusal(caller, denial) {
                Some(e) => Err::<(), InvoiceFailure>(e),
                None => Ok(()),
            },
    {
        match self.settings.admin {
            None => object(Objection::NotInitialized),
            Some(admin) => if caller != admin {
                Err(denial)
            } else {
                Ok(())
            },
        }
    }

    pub(crate) fn require_running_admin(&self, caller: Address, denial: InvoiceFailure) -> (r:
        Result<(), InvoiceFailure>)
        ensures
            r == match self@.running_admin_refusal(caller, denial) {
                Some(e) => Err::<(), InvoiceFailure>(e),
                None => Ok(()),
            },
    {
        self.require_not_paused()?;
        self.require_admin(caller, denial)
    }

    pub(crate) fn require_pool(&self, caller: Address, denial: InvoiceFailure) -> (r: Result<
        (),
        InvoiceFailure,
    >)
        ensures
            r == match self@.pool_refusal(caller, denial) {
                Some(e) => Err::<(), InvoiceFailure>(e),
                None => Ok(()),
            },
    {
        self.require_not_paused()?;
        match self.settings.pool {
            None => object(Objection::NotInitialized),
            Some(pool) => if caller != pool {
                Err(denial)
            } else {
                Ok(())
            },
        }
    }

    pub(crate) fn require_access_control(&self, caller: Address) -> (r: Result<(), InvoiceFailure>)
        ensures
            r == match self@.access_control_refusal(caller) {
                Some(e) => Err::<(), InvoiceFailure>(e),
                None => Ok(()),
            },
    {
        match self.settings.access_control {
            None => fail(InvoiceError::AccessControlNotConfigured),
            Some(configured) => if caller != configured {
                fail(InvoiceError::Unauthorized)
            } else {
                Ok(())
            },
        }
    }

    pub(crate) fn resolve_invoice_grace_period_days(&self, invoice: &Invoice) -> (r: u32)
        ensures
            r == self@.grace_days(invoice@),
    {
        match invoice.grace_period_override {
            Some(days) => days,
            None => self.settings.grace_period_days,
        }
    }

    pub(crate) fn default_deadline(&self, invoice: &Invoice) -> (r: Option<u64>)
        ensures
            r == self@.default_at(invoice@),
    {
        let days: u32 = self.resolve_invoice_grace_period_days(invoice);
        let secs: u64 = days as u64 * SECS_PER_DAY;
        invoice.due_date.checked_add(secs)
    }

    pub(crate) fn is_stale(&self, invoice: &Invoice, now: u64) -> (r: bool)
        ensures
            r == self@.is_stale(invoice@, now),
    {
        if invoice.status != InvoiceStatus::Pending {
            return false;
        }
        match invoice.created_at.checked_add(self.settings.expiration_duration_secs) {
            None => false,
            Some(expires_at) => now > expires_at,
        }
    }
}

} // verus!
