//! How invoices are funded, paid and put into default.

use vstd::prelude::*;
use crate::address::Address;
use crate::invoice::error::{InvoiceError, InvoiceFailure, Objection};
use crate::invoice::state::{fail, object, InvoiceContract, InvoiceState};
use crate::invoice::types::{Invoice, InvoiceStatus, Notice};

verus! {

impl InvoiceState {
    /// The state after the closing of a funded invoice: neither its owner nor
    /// its debtor owes its amount any more.
    pub open spec fn settled(self, id: u64, invoice: Invoice<Seq<u8>>) -> InvoiceState {
        self.less_outstanding(invoice.owner, invoice.amount).less_exposure(
            invoice.debtor,
            invoice.amount,
        ).put(id, invoice).renew_closed(id).one_less_active()
    }

    /// What the owner of an invoice has outstanding once it is funded, or why it
    /// cannot be.
    pub open spec fn funded_outstanding(self, invoice: Invoice<Seq<u8>>) -> Result<
        i128,
        InvoiceFailure,
    > {
        match self.outstanding(invoice.owner).checked_add(invoice.amount) {
            None => Err(InvoiceFailure::Error(InvoiceError::AmountOverflow)),
            Some(value) => if value > self.settings.max_outstanding_per_sme {
                Err(InvoiceFailure::Error(InvoiceError::SmeExposureLimitExceeded))
            } else {
                Ok(value)
            },
        }
    }

    /// Why `pool` cannot fund an invoice in one piece now, if so.
    pub open spec fn funding_refusal(self, now: u64, id: u64, pool: Address) -> Option<
        InvoiceFailure,
    > {
        match self.pool_refusal(pool, InvoiceFailure::Objection(Objection::UnauthorizedPool)) {
            Some(e) => Some(e),
            None => if !self.invoices.dom().contains(id) {
                Some(InvoiceFailure::Objection(Objection::InvoiceNotFound))
            } else if self.is_stale(self.invoices[id], now) || self.invoices[id].status is Expired {
                Some(InvoiceFailure::Objection(Objection::InvoiceExpired))
            } else if !(self.invoices[id].status is Pending || self.invoices[id].status is Verified) {
                Some(InvoiceFailure::Objection(Objection::NotFundable))
            } else if self.settings.require_oracle_verification
                && !self.invoices[id].oracle_verified {
                Some(InvoiceFailure::Error(InvoiceError::Unauthorized))
            } else {
                None
            },
        }
    }

    pub open spec fn mark_funded(self, now: u64, id: u64, pool: Address) -> Result<
        InvoiceState,
        InvoiceFailure,
    > {
        match self.funding_refusal(now, id, pool) {
            Some(e) => Err(e),
            None => {
                let invoice = self.invoices[id];
                match invoice.funded_amount.checked_add(invoice.amount) {
                    None => Err(InvoiceFailure::Error(InvoiceError::AmountOverflow)),
                    Some(funded_amount) => match self.funded_outstanding(invoice) {
                        Err(e) => Err(e),
                        Ok(outstanding) => Ok(
                            self.with_outstanding(invoice.owner, outstanding).put(
                                id,
                                Invoice {
                                    status: InvoiceStatus::Funded,
                                    funded_at: now,
                                    pool_contract: pool,
                                    funded_amount,
                                    ..invoice
                                },
                            ).renew_open(id).notify(
                                Notice::Funded { id, pool, owner: invoice.owner, at: now },
                            ),
                        ),
                    },
                }
            },
        }
    }

    /// Why `pool` cannot fund a piece of an invoice, if so.
    pub open spec fn part_funding_refusal(self, id: u64, amount: i128, pool: Address) -> Option<
        InvoiceFailure,
    > {
        match self.pool_refusal(pool, InvoiceFailure::Objection(Objection::UnauthorizedPool)) {
            Some(e) => Some(e),
            None => if amount <= 0 {
                Some(InvoiceFailure::Objection(Objection::AmountNotPositive))
            } else if !self.invoices.dom().contains(id) {
                Some(InvoiceFailure::Objection(Objection::InvoiceNotFound))
            } else if !(self.invoices[id].status is Pending || self.invoices[id].status is Verified
                || self.invoices[id].status is Funded) {
                Some(InvoiceFailure::Objection(Objection::NotFundable))
            } else if !(self.invoices[id].status is Funded)
                && self.settings.require_oracle_verification
                && !self.invoices[id].oracle_verified {
                Some(InvoiceFailure::Error(InvoiceError::Unauthorized))
            } else {
                None
            },
        }
    }

    /// The first piece makes the invoice a funded one; further pieces add up.
    pub open spec fn record_funding(self, now: u64, id: u64, amount: i128, pool: Address) -> Result<
        InvoiceState,
        InvoiceFailure,
    > {
        match self.part_funding_refusal(id, amount, pool) {
            Some(e) => Err(e),
            None => {
                let invoice = self.invoices[id];
                let first = !(invoice.status is Funded);
                let outstanding = if first {
                    self.funded_outstanding(invoice)
                } else {
                    Ok(self.outstanding(invoice.owner))
                };
                match outstanding {
                    Err(e) => Err(e),
                    Ok(value) => match invoice.funded_amount.checked_add(amount) {
                        None => Err(InvoiceFailure::Error(InvoiceError::AmountOverflow)),
                        Some(funded_amount) => {
                            let entered = if first {
                                self.with_outstanding(invoice.owner, value)
                            } else {
                                self
                            };
                            let funded = if first {
                                Invoice {
                                    status: InvoiceStatus::Funded,
                                    funded_at: now,
                                    pool_contract: pool,
                                    funded_amount,
                                    ..invoice
                                }
                            } else {
                                Invoice { funded_amount, ..invoice }
                            };
                            Ok(
                                entered.put(id, funded).renew_open(id).notify(
                                    Notice::FundingRecorded { id, owner: invoice.owner, at: now },
                                ),
                            )
                        },
                    },
                }
            },
        }
    }

    /// Why an invoice cannot be paid whatever its pool says, if so.
    pub open spec fn payment_refusal(self, id: u64, pool: Address) -> Option<InvoiceFailure> {
        match self.pool_refusal(pool, InvoiceFailure::Objection(Objection::OnlyPoolCanMarkPaid)) {
            Some(e) => Some(e),
            None => if !self.invoices.dom().contains(id) {
                Some(InvoiceFailure::Objection(Objection::InvoiceNotFound))
            } else if !(self.invoices[id].status is Funded) {
                Some(InvoiceFailure::Objection(Objection::NotFunded))
            } else {
                None
            },
        }
    }

    /// `repaid` is whether the pool says that the invoice was repaid, if it can
    /// be asked.
    pub open spec fn mark_paid(
        self,
        now: u64,
        id: u64,
        pool: Address,
        repaid: Option<bool>,
    ) -> Result<InvoiceState, InvoiceFailure> {
        match self.payment_refusal(id, pool) {
            Some(e) => Err(e),
            None => match repaid {
                None => Err(InvoiceFailure::Error(InvoiceError::PoolCallFailed)),
                Some(false) => Err(InvoiceFailure::Objection(Objection::RepaymentNotVerified)),
                Some(true) => Ok(
                    self.settled(
                        id,
                        Invoice {
                            status: InvoiceStatus::Paid,
                            paid_at: now,
                            ..self.invoices[id]
                        },
                    ).notify(
                        Notice::Paid { id, pool, owner: self.invoices[id].owner, at: now },
                    ),
                ),
            },
        }
    }

    /// What was funded of an invoice piece by piece.
    pub open spec fn funded_so_far(self, id: u64) -> i128 {
        if self.funding.dom().contains(id) {
            self.funding[id]
        } else {
            0
        }
    }

    pub open spec fn add_funding(self, id: u64, amount: i128, pool: Address) -> Result<
        (InvoiceState, i128),
        InvoiceFailure,
    > {
        match self.pool_refusal(pool, InvoiceFailure::Objection(Objection::UnauthorizedPool)) {
            Some(e) => Err(e),
            None => if !self.invoices.dom().contains(id) {
                Err(InvoiceFailure::Objection(Objection::InvoiceNotFound))
            } else if !(self.invoices[id].status is Pending || self.invoices[id].status is Verified) {
                Err(InvoiceFailure::Objection(Objection::NotFundable))
            } else {
                match self.funded_so_far(id).checked_add(amount) {
                    None => Err(InvoiceFailure::Objection(Objection::FundingOverflow)),
                    Some(value) => if value > self.invoices[id].amount {
                        Err(InvoiceFailure::Error(InvoiceError::AmountOverflow))
                    } else {
                        Ok((InvoiceState { funding: self.funding.insert(id, value), ..self }, value))
                    },
                }
            },
        }
    }

    /// Why `caller` cannot put an invoice into default now, if so. The pool and
    /// the keepers can, once the grace period has passed.
    pub open spec fn default_refusal(self, now: u64, id: u64, caller: Address) -> Option<
        InvoiceFailure,
    > {
        if self.settings.paused {
            Some(InvoiceFailure::Error(InvoiceError::ContractPaused))
        } else if self.settings.pool is None {
            Some(InvoiceFailure::Objection(Objection::NotInitialized))
        } else if self.settings.pool != Some(caller) && !self.keepers.contains(caller) {
            Some(InvoiceFailure::Error(InvoiceError::Unauthorized))
        } else if !self.invoices.dom().contains(id) {
            Some(InvoiceFailure::Objection(Objection::InvoiceNotFound))
        } else if !(self.invoices[id].status is Funded) {
            Some(InvoiceFailure::Objection(Objection::NotFunded))
        } else {
            match self.default_at(self.invoices[id]) {
                None => Some(InvoiceFailure::Error(InvoiceError::DateOverflow)),
                Some(default_at) => if now < default_at {
                    Some(
                        InvoiceFailure::Objection(Objection::GracePeriodNotElapsed { default_at }),
                    )
                } else {
                    None
                },
            }
        }
    }

    pub open spec fn mark_defaulted(self, now: u64, id: u64, caller: Address) -> Result<
        InvoiceState,
        InvoiceFailure,
    > {
        match self.default_refusal(now, id, caller) {
            Some(e) => Err(e),
            None => Ok(
                self.settled(
                    id,
                    Invoice { status: InvoiceStatus::Defaulted, ..self.invoices[id] },
                ).notify(Notice::Defaulted { id, owner: self.invoices[id].owner, at: now }),
            ),
        }
    }
}

impl InvoiceContract {
    pub(crate) fn settle(&mut self, id: u64, invoice: Invoice)
        ensures
            final(self)@ == old(self)@.settled(id, invoice@),
    {
        self.decrease_sme_outstanding(invoice.owner, invoice.amount);
        self.decrease_debtor_exposure(&invoice.debtor, invoice.amount);
        self.invoices.insert(id, invoice);
        self.renew_closed(id);
        self.one_less_active();
    }

    fn funded_outstanding(&self, invoice: &Invoice) -> (r: Result<i128, InvoiceFailure>)
        ensures
            r == self@.funded_outstanding(invoice@),
    {
        match self.outstanding(invoice.owner).checked_add(invoice.amount) {
            None => fail(InvoiceError::AmountOverflow),
            Some(value) => if value > self.settings.max_outstanding_per_sme {
                fail(InvoiceError::SmeExposureLimitExceeded)
            } else {
                Ok(value)
            },
        }
    }

    /// Marks an invoice as funded in one piece by the pool.
    pub fn mark_funded(&mut self, now: u64, id: u64, pool: Address) -> (r: Result<
        (),
        InvoiceFailure,
    >)
        ensures
            crate::outcome::stepped(
                r,
                old(self)@,
                final(self)@,
                old(self)@.mark_funded(now, id, pool),
            ),
    {
        self.require_pool(pool, InvoiceFailure::Objection(Objection::UnauthorizedPool))?;
        let mut invoice = match self.invoices.get(&id) {
            None => {
                return object(Objection::InvoiceNotFound);
            },
            Some(invoice) => invoice.clone(),
        };
        if self.is_stale(&invoice, now) || invoice.status == InvoiceStatus::Expired {
            return object(Objection::InvoiceExpired);
        }
        if invoice.status != InvoiceStatus::Pending && invoice.status != InvoiceStatus::Verified {
            return object(Objection::NotFundable);
        }
        if self.settings.require_oracle_verification && !invoice.oracle_verified {
            return fail(InvoiceError::Unauthorized);
        }
        let funded_amount: i128 = match invoice.funded_amount.checked_add(invoice.amount) {
            None => {
                return fail(InvoiceError::AmountOverflow);
            },
            Some(funded_amount) => funded_amount,
        };
        let outstanding: i128 = self.funded_outstanding(&invoice)?;
        let owner = invoice.owner;
        invoice.status = InvoiceStatus::Funded;
        invoice.funded_at = now;
        invoice.pool_contract = pool;
        invoice.funded_amount = funded_amount;
        self.sme_outstanding.insert(owner, outstanding);
        self.invoices.insert(id, invoice);
        self.renew_open(id);
        self.notify(Notice::Funded { id, pool, owner, at: now });
        Ok(())
    }

    /// Records that the pool has funded a piece of an invoice. The first piece
    /// makes the invoice a funded one.
    pub fn record_funding(&mut self, now: u64, id: u64, amount: i128, pool: Address) -> (r: Result<
        (),
        InvoiceFailure,
    >)
        ensures
            crate::outcome::stepped(
                r,
                old(self)@,
                final(self)@,
                old(self)@.record_funding(now, id, amount, pool),
            ),
    {
        self.require_pool(pool, InvoiceFailure::Objection(Objection::UnauthorizedPool))?;
        if amount <= 0 {
            return object(Objection::AmountNotPositive);
        }
        let mut invoice = match self.invoices.get(&id) {
            None => {
                return object(Objection::InvoiceNotFound);
            },
            Some(invoice) => invoice.clone(),
        };
        let owner = invoice.owner;
        let first = invoice.status != InvoiceStatus::Funded;
        if first && invoice.status != InvoiceStatus::Pending && invoice.status
            != InvoiceStatus::Verified {
            return object(Objection::NotFundable);
        }
        let mut outstanding: i128 = 0;
        if first {
            if self.settings.require_oracle_verification && !invoice.oracle_verified {
                return fail(InvoiceError::Unauthorized);
            }
            outstanding = self.funded_outstanding(&invoice)?;
            invoice.status = InvoiceStatus::Funded;
            invoice.funded_at = now;
            invoice.pool_contract = pool;
        }
        match invoice.funded_amount.checked_add(amount) {
            None => {
                return fail(InvoiceError::AmountOverflow);
            },
            Some(funded_amount) => {
                invoice.funded_amount = funded_amount;
            },
        }
        if first {
            self.sme_outstanding.insert(owner, outstanding);
        }
        self.invoices.insert(id, invoice);
        self.renew_open(id);
        self.notify(Notice::FundingRecorded { id, owner, at: now });
        Ok(())
    }

    /// Whether the pool has to be asked if an invoice was repaid, or why the
    /// invoice cannot be paid anyway.
    pub fn check_payment(&self, id: u64, pool: Address) -> (r: Result<(), InvoiceFailure>)
        ensures
            r == match self@.payment_refusal(id, pool) {
                Some(e) => Err::<(), InvoiceFailure>(e),
                None => Ok(()),
            },
    {
        self.require_pool(pool, InvoiceFailure::Objection(Objection::OnlyPoolCanMarkPaid))?;
        match self.invoices.get(&id) {
            None => object(Objection::InvoiceNotFound),
            Some(invoice) => if invoice.status != InvoiceStatus::Funded {
                object(Objection::NotFunded)
            } else {
                Ok(())
            },
        }
    }

    /// Marks an invoice as paid. `repaid` is whether the pool says that it was
    /// repaid; `None` if it could not be asked.
    pub fn mark_paid(
        &mut self,
        now: u64,
        id: u64,
        pool: Address,
        repaid: Option<bool>,
    ) -> (r: Result<(), InvoiceFailure>)
        ensures
            crate::outcome::stepped(
                r,
                old(self)@,
                final(self)@,
                old(self)@.mark_paid(now, id, pool, repaid),
            ),
    {
        self.check_payment(id, pool)?;
        match repaid {
            None => {
                return fail(InvoiceError::PoolCallFailed);
            },
            Some(repaid) => {
                if !repaid {
                    return object(Objection::RepaymentNotVerified);
                }
            },
        }
        let mut invoice = match self.invoices.get(&id) {
            None => {
                return object(Objection::InvoiceNotFound);
            },
            Some(invoice) => invoice.clone(),
        };
        let owner = invoice.owner;
        invoice.status = InvoiceStatus::Paid;
        invoice.paid_at = now;
        self.settle(id, invoice);
        self.notify(Notice::Paid { id, pool, owner, at: now });
        Ok(())
    }

    /// Adds to what was funded of an invoice piece by piece, up to its amount,
    /// and gives the sum back.
    pub fn add_funding(&mut self, id: u64, amount: i128, pool: Address) -> (r: Result<
        i128,
        InvoiceFailure,
    >)
        ensures
            crate::outcome::gave(
                r,
                old(self)@,
                final(self)@,
                old(self)@.add_funding(id, amount, pool),
            ),
    {
        self.require_pool(pool, InvoiceFailure::Objection(Objection::UnauthorizedPool))?;
        let invoice = match self.invoices.get(&id) {
            None => {
                return object(Objection::InvoiceNotFound);
            },
            Some(invoice) => invoice,
        };
        if invoice.status != InvoiceStatus::Pending && invoice.status != InvoiceStatus::Verified {
            return object(Objection::NotFundable);
        }
        let value: i128 = match self.get_funded_amount(id).checked_add(amount) {
            None => {
                return object(Objection::FundingOverflow);
            },
            Some(value) => value,
        };
        if value > invoice.amount {
            return fail(InvoiceError::AmountOverflow);
        }
        self.funding.insert(id, value);
        Ok(value)
    }

    /// What was funded of an invoice piece by piece.
    pub fn get_funded_amount(&self, id: u64) -> (r: i128)
        ensures
            r == self@.funded_so_far(id),
    {
        match self.funding.get(&id) {
            Some(value) => *value,
            None => 0,
        }
    }

    /// Puts a funded invoice into default. The pool and the keepers can, once
    /// the grace period behind the due date has passed.
    pub fn mark_defaulted(&mut self, now: u64, id: u64, pool: Address) -> (r: Result<
        (),
        InvoiceFailure,
    >)
        ensures
            crate::outcome::stepped(
                r,
                old(self)@,
                final(self)@,
                old(self)@.mark_defaulted(now, id, pool),
            ),
    {
        self.require_not_paused()?;
        let authorized = match self.settings.pool {
            None => {
                return object(Objection::NotInitialized);
            },
            Some(authorized) => authorized,
        };
        if pool != authorized && !self.keepers.contains(pool) {
            return fail(InvoiceError::Unauthorized);
        }
        let mut invoice = match self.invoices.get(&id) {
            None => {
                return object(Objection::InvoiceNotFound);
            },
            Some(invoice) => invoice.clone(),
        };
        if invoice.status != InvoiceStatus::Funded {
            return object(Objection::NotFunded);
        }
        match self.default_deadline(&invoice) {
            None => {
                return fail(InvoiceError::DateOverflow);
            },
            Some(default_at) => {
                if now < default_at {
                    return object(Objection::GracePeriodNotElapsed { default_at });
                }
            },
        }
        let owner = invoice.owner;
        invoice.status = InvoiceStatus::Defaulted;
        self.settle(id, invoice);
        self.notify(Notice::Defaulted { id, owner, at: now });
        Ok(())
    }
}

} // verus!
