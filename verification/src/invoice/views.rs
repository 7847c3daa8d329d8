//! What can be asked of the invoice ledger.

use vstd::prelude::*;
use crate::address::Address;
use crate::collections::{AddressList, NumberList};
use crate::invoice::constants::{LEDGERS_PER_MONTH, SECS_PER_DAY, STROOPS_PER_LEDGER_PER_ENTRY};
use crate::invoice::decimal::concat_prefix_u64;
use crate::invoice::error::{InvoiceError, InvoiceFailure, Objection};
use crate::invoice::state::{fail, object, InvoiceContract, InvoiceState};
use crate::invoice::types::{Invoice, InvoiceMetadata, InvoiceStatus, Notice, StorageStats};
use crate::invoice::version::ContractVersion;
use crate::text::Text;

verus! {

/// `Astera Invoice #`
pub open spec fn name_prefix() -> Seq<u8> {
    seq![
        65u8, 115u8, 116u8, 101u8, 114u8, 97u8, 32u8, 73u8, 110u8, 118u8, 111u8, 105u8, 99u8, 101u8,
        32u8, 35u8,
    ]
}

/// `INV-`
pub open spec fn symbol_prefix() -> Seq<u8> {
    seq![73u8, 78u8, 86u8, 45u8]
}

impl InvoiceState {
    /// What is shown of an invoice.
    pub open spec fn metadata_of(self, invoice: Invoice<Seq<u8>>) -> InvoiceMetadata<Seq<u8>> {
        InvoiceMetadata {
            name: name_prefix() + crate::invoice::decimal::digits(invoice.id as nat),
            description: invoice.description,
            image: self.image_uri,
            amount: invoice.amount,
            debtor: invoice.debtor,
            due_date: invoice.due_date,
            status: invoice.status,
            symbol: symbol_prefix() + crate::invoice::decimal::digits(invoice.id as nat),
            decimals: 7,
        }
    }

    /// Whether an invoice is overdue and within a day of its default.
    pub open spec fn default_is_near(
        self,
        invoice: Invoice<Seq<u8>>,
        now: u64,
        default_at: u64,
    ) -> bool {
        invoice.due_date <= now < default_at && default_at - now <= SECS_PER_DAY
    }

    /// Says whether the default of an invoice is near, and gives notice of it.
    pub open spec fn check_default_warning(self, now: u64, id: u64) -> Result<
        (InvoiceState, bool),
        InvoiceFailure,
    > {
        if !self.invoices.dom().contains(id) {
            Err(InvoiceFailure::Objection(Objection::InvoiceNotFound))
        } else if !(self.invoices[id].status is Funded) {
            Ok((self, false))
        } else {
            match self.default_at(self.invoices[id]) {
                None => Err(InvoiceFailure::Error(InvoiceError::DateOverflow)),
                Some(default_at) => if self.default_is_near(self.invoices[id], now, default_at) {
                    Ok((self.notify(Notice::DefaultNear { id, default_at }), true))
                } else {
                    Ok((self, false))
                },
            }
        }
    }
}

impl InvoiceContract {
    /// Says whether the default of an invoice is near, and gives notice of it.
    pub fn check_default_warning(&mut self, now: u64, id: u64) -> (r: Result<bool, InvoiceFailure>)
        ensures
            crate::outcome::gave(
                r,
                old(self)@,
                final(self)@,
                old(self)@.check_default_warning(now, id),
            ),
    {
        let invoice = match self.invoices.get(&id) {
            None => {
                return object(Objection::InvoiceNotFound);
            },
            Some(invoice) => invoice,
        };
        if invoice.status != InvoiceStatus::Funded {
            return Ok(false);
        }
        let due_date: u64 = invoice.due_date;
        let default_at: u64 = match self.default_deadline(invoice) {
            None => {
                return fail(InvoiceError::DateOverflow);
            },
            Some(default_at) => default_at,
        };
        if now >= due_date && now < default_at && default_at - now <= SECS_PER_DAY {
            self.notify(Notice::DefaultNear { id, default_at });
            return Ok(true);
        }
        Ok(false)
    }

    /// An invoice.
    pub fn get_invoice(&self, id: u64) -> (r: Result<&Invoice, InvoiceFailure>)
        ensures
            match r {
                Ok(invoice) => self@.invoices.dom().contains(id) && invoice@ == self@.invoices[id],
                Err(e) => !self@.invoices.dom().contains(id) && e == InvoiceFailure::Error(
                    InvoiceError::InvoiceNotFound,
                ),
            },
    {
        match self.invoices.get(&id) {
            Some(invoice) => Ok(invoice),
            None => fail(InvoiceError::InvoiceNotFound),
        }
    }

    /// Whether an invoice awaits verification, and its amount.
    pub fn get_invoice_verification_state(&self, id: u64) -> (r: Result<
        (bool, i128),
        InvoiceFailure,
    >)
        ensures
            r == (if self@.invoices.dom().contains(id) {
                Ok(
                    (
                        self@.invoices[id].status is AwaitingVerification,
                        self@.invoices[id].amount,
                    ),
                )
            } else {
                Err(InvoiceFailure::Error(InvoiceError::InvoiceNotFound))
            }),
    {
        let invoice = self.get_invoice(id)?;
        Ok((invoice.status == InvoiceStatus::AwaitingVerification, invoice.amount))
    }

    /// Several invoices, in the order in which they are asked for. All of them
    /// have to exist.
    pub fn get_multiple_invoices(
        &self,
        ids: &NumberList,
    ) -> (r: Result<Vec<Invoice>, InvoiceFailure>)
        ensures
            match r {
                Ok(invoices) => {
                    &&& invoices@.len() == ids@.len()
                    &&& forall|i: int|
                        0 <= i < ids@.len() ==> self@.invoices.dom().contains(#[trigger] ids@[i])
                            && invoices@[i]@ == self@.invoices[ids@[i]]
                },
                Err(e) => {
                    &&& e == InvoiceFailure::Error(InvoiceError::InvoiceNotFound)
                    &&& exists|i: int|
                        0 <= i < ids@.len() && !self@.invoices.dom().contains(#[trigger] ids@[i])
                },
            },
    {
        let mut invoices: Vec<Invoice> = Vec::new();
        let len: u32 = ids.len();
        let mut i: u32 = 0;
        while i < len
            invariant
                i <= len,
                len == ids@.len(),
                invoices@.len() == i,
                forall|j: int|
                    0 <= j < i ==> self@.invoices.dom().contains(#[trigger] ids@[j])
                        && invoices@[j]@ == self@.invoices[ids@[j]],
            decreases len - i,
        {
            if let Some(id) = ids.get(i) {
                match self.invoices.get(&id) {
                    None => {
                        assert(!self@.invoices.dom().contains(ids@[i as int]));
                        return fail(InvoiceError::InvoiceNotFound);
                    },
                    Some(invoice) => {
                        invoices.push(invoice.clone());
                    },
                }
            }
            i = i + 1;
        }
        Ok(invoices)
    }

    /// What is shown of an invoice.
    pub fn get_metadata(&self, id: u64) -> (r: Result<InvoiceMetadata, InvoiceFailure>)
        ensures
            match r {
                Ok(metadata) => self@.invoices.dom().contains(id) && metadata@
                    == self@.metadata_of(self@.invoices[id]),
                Err(e) => !self@.invoices.dom().contains(id) && e == InvoiceFailure::Error(
                    InvoiceError::InvoiceNotFound,
                ),
            },
    {
        let invoice = self.get_invoice(id)?;
        let name: [u8; 16] = [
            65, 115, 116, 101, 114, 97, 32, 73, 110, 118, 111, 105, 99, 101, 32, 35,
        ];
        let symbol: [u8; 4] = [73, 78, 86, 45];
        assert(name@ =~= name_prefix());
        assert(symbol@ =~= symbol_prefix());
        Ok(
            InvoiceMetadata {
                name: Text::new(concat_prefix_u64(&name, invoice.id)),
                description: invoice.description.clone(),
                image: self.image_uri.clone(),
                amount: invoice.amount,
                debtor: invoice.debtor.clone(),
                due_date: invoice.due_date,
                status: invoice.status,
                symbol: Text::new(concat_prefix_u64(&symbol, invoice.id)),
                decimals: 7,
            },
        )
    }

    /// The numbers of an owner's invoices.
    pub fn get_invoices_by_owner(&self, owner: Address) -> (r: NumberList)
        ensures
            r@ == self@.owned(owner),
    {
        match self.sme_invoices.get(&owner) {
            Some(ids) => ids.copy(&self.env),
            None => NumberList::new(&self.env),
        }
    }

    /// What the open invoices cost in a month, by a careful estimate: so much for
    /// each of them and each ledger.
    pub fn estimate_storage_cost(&self) -> (r: u64)
        ensures
            r == (if self@.stats.active_invoices * STROOPS_PER_LEDGER_PER_ENTRY * LEDGERS_PER_MONTH
                > u64::MAX {
                u64::MAX as int
            } else {
                self@.stats.active_invoices * STROOPS_PER_LEDGER_PER_ENTRY * LEDGERS_PER_MONTH
            }),
            self@.stats.active_invoices * 518_400 <= u64::MAX ==> r == self@.stats.active_invoices
                * 518_400,
            self@.stats.active_invoices * 518_400 > u64::MAX ==> r == u64::MAX,
    {
        match self.stats.active_invoices.checked_mul(
            STROOPS_PER_LEDGER_PER_ENTRY * LEDGERS_PER_MONTH,
        ) {
            Some(cost) => cost,
            None => u64::MAX,
        }
    }

    /// How many days behind its due date an invoice is in default.
    pub fn get_invoice_grace_period(&self, id: u64) -> (r: Result<u32, InvoiceFailure>)
        ensures
            r == (if self@.invoices.dom().contains(id) {
                Ok(self@.grace_days(self@.invoices[id]))
            } else {
                Err(InvoiceFailure::Objection(Objection::InvoiceNotFound))
            }),
    {
        match self.invoices.get(&id) {
            Some(invoice) => Ok(self.resolve_invoice_grace_period_days(invoice)),
            None => object(Objection::InvoiceNotFound),
        }
    }

    /// Whether an invoice exists and is in default.
    pub fn is_invoice_defaulted(&self, id: u64) -> (r: bool)
        ensures
            r == (self@.invoices.dom().contains(id) && self@.invoices[id].status is Defaulted),
    {
        match self.invoices.get(&id) {
            Some(invoice) => invoice.status == InvoiceStatus::Defaulted,
            None => false,
        }
    }

    /// Whether an invoice is hidden from others. It is not unless its owner has
    /// said so.
    pub fn is_invoice_private(&self, id: u64) -> (r: bool)
        ensures
            r == self@.is_private(id),
    {
        match self.private.get(&id) {
            Some(private) => *private,
            None => false,
        }
    }

    /// What an owner has been funded and not paid back.
    pub fn get_sme_outstanding(&self, sme: Address) -> (r: i128)
        ensures
            r == self@.outstanding(sme),
    {
        self.outstanding(sme)
    }

    /// The pool that can fund invoices.
    pub fn get_authorized_pool(&self) -> (r: Result<Address, InvoiceFailure>)
        ensures
            r == match self@.settings.pool {
                Some(pool) => Ok(pool),
                None => Err(InvoiceFailure::Objection(Objection::NotInitialized)),
            },
    {
        match self.settings.pool {
            Some(pool) => Ok(pool),
            None => object(Objection::NotInitialized),
        }
    }

    /// The largest amount of an invoice.
    pub fn get_max_invoice_amount(&self) -> (r: Result<i128, InvoiceFailure>)
        ensures
            r == match self@.settings.max_invoice_amount {
                Some(max) => Ok(max),
                None => Err(InvoiceFailure::Objection(Objection::MaxAmountNotSet)),
            },
    {
        match self.settings.max_invoice_amount {
            Some(max) => Ok(max),
            None => object(Objection::MaxAmountNotSet),
        }
    }

    /// The version that the ledger was set up with, or that of the code if it was
    /// not set up.
    pub fn version(&self) -> (r: ContractVersion)
        ensures
            r == match self@.settings.version {
                Some(version) => version,
                None => self@.release,
            },
    {
        match self.settings.version {
            Some(version) => version,
            None => self.release,
        }
    }

    /// The image that stands for invoices.
    pub fn get_metadata_image_uri(&self) -> (r: &Text)
        ensures
            r@ == self@.image_uri,
    {
        &self.image_uri
    }

    /// The keepers.
    pub fn list_keepers(&self) -> (r: &AddressList)
        ensures
            r@ == self@.keepers,
    {
        &self.keepers
    }

    /// How many invoices were created.
    pub fn get_invoice_count(&self) -> (r: u64)
        ensures
            r == self@.invoice_count,
    {
        self.invoice_count
    }

    /// How many invoices the ledger has seen, has open and has removed.
    pub fn get_storage_stats(&self) -> (r: StorageStats)
        ensures
            r == self@.stats,
    {
        self.stats
    }

    /// The migration that the data has gone through.
    pub fn migration_version(&self) -> (r: u32)
        ensures
            r == self@.settings.migration_version,
    {
        self.settings.migration_version
    }

    /// Whether invoices can be funded only once they are verified.
    pub fn oracle_verified_funding_only(&self) -> (r: bool)
        ensures
            r == self@.settings.require_oracle_verification,
    {
        self.settings.require_oracle_verification
    }

    /// Whether the ledger is suspended.
    pub fn is_paused(&self) -> (r: bool)
        ensures
            r == self@.settings.paused,
    {
        self.settings.paused
    }

    /// The oracle registry, if there is one.
    pub fn get_oracle_registry(&self) -> (r: Option<Address>)
        ensures
            r == self@.settings.oracle_registry,
    {
        self.settings.oracle_registry
    }

    /// The oracle, if there is one.
    pub fn get_oracle(&self) -> (r: Option<Address>)
        ensures
            r == self@.settings.oracle,
    {
        self.settings.oracle
    }

    /// Whether the verdicts of the oracle registry alone count.
    pub fn require_consensus_verification(&self) -> (r: bool)
        ensures
            r == self@.settings.require_consensus,
    {
        self.settings.require_consensus
    }

    /// The compliance register, if there is one.
    pub fn get_compliance_registry(&self) -> (r: Option<Address>)
        ensures
            r == self@.settings.compliance_registry,
    {
        self.settings.compliance_registry
    }

    /// Whether owners have to be cleared by the compliance register.
    pub fn require_compliance_check(&self) -> (r: bool)
        ensures
            r == self@.settings.require_compliance,
    {
        self.settings.require_compliance
    }

    /// The contract that stands beside the administrator, if there is one.
    pub fn get_access_control(&self) -> (r: Option<Address>)
        ensures
            r == self@.settings.access_control,
    {
        self.settings.access_control
    }

    /// How many invoices an owner can create in any 24 hours.
    pub fn get_daily_invoice_limit(&self) -> (r: u32)
        ensures
            r == self@.settings.daily_limit,
    {
        self.settings.daily_limit
    }

    /// How long a dispute is left to the oracle, and how long a default can be
    /// disputed.
    pub fn get_dispute_window(&self) -> (r: u64)
        ensures
            r == self@.settings.dispute_window,
    {
        self.settings.dispute_window
    }

    /// How far ahead a due date has to lie.
    pub fn get_min_due_date_window(&self) -> (r: u64)
        ensures
            r == self@.settings.min_due_date_window,
    {
        self.settings.min_due_date_window
    }

    /// How long a pending invoice waits before it expires.
    pub fn get_expiration_duration(&self) -> (r: u64)
        ensures
            r == self@.settings.expiration_duration_secs,
    {
        self.settings.expiration_duration_secs
    }

    /// How many ledgers the entry of a closed invoice is kept for.
    pub fn get_completed_invoice_ttl(&self) -> (r: u32)
        ensures
            r == self@.settings.completed_ttl,
    {
        self.settings.completed_ttl
    }

    /// How many days behind its due date an invoice is in default, unless it has
    /// a grace period of its own.
    pub fn get_grace_period(&self) -> (r: u32)
        ensures
            r == self@.settings.grace_period_days,
    {
        self.settings.grace_period_days
    }

    /// The delay between the proposal of an upgrade and the upgrade.
    pub fn get_upgrade_timelock(&self) -> (r: u64)
        ensures
            r == self@.settings.upgrade_timelock,
    {
        self.settings.upgrade_timelock
    }
}

} // verus!
