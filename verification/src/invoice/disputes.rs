//! How owners dispute a default.

use vstd::prelude::*;
use crate::address::Address;
use crate::invoice::constants::SECS_PER_DAY;
use crate::invoice::error::{InvoiceError, InvoiceFailure, Objection};
use crate::invoice::state::{fail, object, InvoiceContract, InvoiceState};
use crate::invoice::types::{DisputeRecord, DisputeResolution, Invoice, InvoiceStatus, Notice};
use crate::text::Text;

verus! {

impl InvoiceState {
    /// Why `borrower` cannot dispute the default of an invoice now, if so.
    pub open spec fn dispute_refusal(self, now: u64, id: u64, borrower: Address) -> Option<
        InvoiceFailure,
    > {
        if self.settings.paused {
            Some(InvoiceFailure::Error(InvoiceError::ContractPaused))
        } else if !self.invoices.dom().contains(id) {
            Some(InvoiceFailure::Objection(Objection::InvoiceNotFound))
        } else if !(self.invoices[id].status is Defaulted) {
            Some(InvoiceFailure::Error(InvoiceError::InvalidStatusTransition))
        } else if self.invoices[id].owner != borrower {
            Some(InvoiceFailure::Error(InvoiceError::Unauthorized))
        } else {
            match self.default_at(self.invoices[id]) {
                None => Some(InvoiceFailure::Error(InvoiceError::DateOverflow)),
                Some(default_at) => if now > default_at.saturating_add(
                    self.settings.dispute_window,
                ) {
                    Some(InvoiceFailure::Error(InvoiceError::DisputeWindowClosed))
                } else if self.disputes.dom().contains(id) {
                    Some(InvoiceFailure::Error(InvoiceError::HashMismatch))
                } else {
                    None
                },
            }
        }
    }

    pub open spec fn raise_dispute(
        self,
        now: u64,
        id: u64,
        borrower: Address,
        evidence_hash: Seq<u8>,
    ) -> Result<InvoiceState, InvoiceFailure> {
        match self.dispute_refusal(now, id, borrower) {
            Some(e) => Err(e),
            None => Ok(
                InvoiceState {
                    disputes: self.disputes.insert(
                        id,
                        DisputeRecord {
                            evidence_hash,
                            filed_at: now,
                            resolved_at: 0,
                            outcome: DisputeResolution::Pending,
                        },
                    ),
                    ..self.put(
                        id,
                        Invoice { status: InvoiceStatus::Disputed, ..self.invoices[id] },
                    )
                }.notify(Notice::DisputeRaised { id, borrower, at: now }),
            ),
        }
    }

    /// Why `admin` cannot decide on the dispute of a default, if so.
    pub open spec fn decision_refusal(self, id: u64, admin: Address) -> Option<InvoiceFailure> {
        match self.running_admin_refusal(admin, crate::invoice::state::unauthorized()) {
            Some(e) => Some(e),
            None => if !self.invoices.dom().contains(id) {
                Some(InvoiceFailure::Objection(Objection::InvoiceNotFound))
            } else if !(self.invoices[id].status is Disputed) {
                Some(InvoiceFailure::Error(InvoiceError::InvalidStatusTransition))
            } else if !self.disputes.dom().contains(id) {
                Some(InvoiceFailure::Objection(Objection::DisputeNotFound))
            } else if !(self.disputes[id].outcome is Pending) {
                Some(InvoiceFailure::Error(InvoiceError::DisputeAlreadyResolved))
            } else {
                None
            },
        }
    }

    /// An invoice whose default was wrong is a funded one again, with a new
    /// grace period to pay; otherwise the default stands.
    pub open spec fn resolve_default_dispute(
        self,
        now: u64,
        id: u64,
        admin: Address,
        outcome: DisputeResolution,
    ) -> Result<InvoiceState, InvoiceFailure> {
        match self.decision_refusal(id, admin) {
            Some(e) => Err(e),
            None => {
                let invoice = self.invoices[id];
                let grace_secs = (self.grace_days(invoice) * SECS_PER_DAY) as u64;
                if outcome is Pending {
                    Err(InvoiceFailure::Error(InvoiceError::InvalidStatusTransition))
                } else {
                    let decided = if outcome is InFavorOfDebtor {
                        Invoice {
                            status: InvoiceStatus::Funded,
                            due_date: now.saturating_add(grace_secs),
                            ..invoice
                        }
                    } else {
                        Invoice { status: InvoiceStatus::Defaulted, ..invoice }
                    };
                    Ok(
                        InvoiceState {
                            disputes: self.disputes.insert(
                                id,
                                DisputeRecord { resolved_at: now, outcome, ..self.disputes[id] },
                            ),
                            ..self.put(id, decided)
                        }.notify(Notice::DefaultDisputeResolved { id, admin, at: now }),
                    )
                }
            },
        }
    }
}

impl InvoiceContract {
    /// Disputes the default of an invoice. Its owner can, once, within the
    /// window behind the time from which on the invoice could be in default.
    pub fn raise_dispute(
        &mut self,
        now: u64,
        id: u64,
        borrower: Address,
        evidence_hash: Text,
    ) -> (r: Result<(), InvoiceFailure>)
        ensures
            crate::outcome::stepped(
                r,
                old(self)@,
                final(self)@,
                old(self)@.raise_dispute(now, id, borrower, evidence_hash@),
            ),
    {
        self.require_not_paused()?;
        let mut invoice = match self.invoices.get(&id) {
            None => {
                return object(Objection::InvoiceNotFound);
            },
            Some(invoice) => invoice.clone(),
        };
        if invoice.status != InvoiceStatus::Defaulted {
            return fail(InvoiceError::InvalidStatusTransition);
        }
        if invoice.owner != borrower {
            return fail(InvoiceError::Unauthorized);
        }
        match self.default_deadline(&invoice) {
            None => {
                return fail(InvoiceError::DateOverflow);
            },
            Some(default_at) => {
                if now > default_at.saturating_add(self.settings.dispute_window) {
                    return fail(InvoiceError::DisputeWindowClosed);
                }
            },
        }
        if self.disputes.contains(&id) {
            return fail(InvoiceError::HashMismatch);
        }
        invoice.status = InvoiceStatus::Disputed;
        self.invoices.insert(id, invoice);
        self.disputes.insert(
            id,
            DisputeRecord {
                evidence_hash,
                filed_at: now,
                resolved_at: 0,
                outcome: DisputeResolution::Pending,
            },
        );
        self.notify(Notice::DisputeRaised { id, borrower, at: now });
        Ok(())
    }

    /// Decides on the dispute of a default.
    pub fn resolve_default_dispute(
        &mut self,
        now: u64,
        id: u64,
        admin: Address,
        outcome: DisputeResolution,
    ) -> (r: Result<(), InvoiceFailure>)
        ensures
            crate::outcome::stepped(
                r,
                old(self)@,
                final(self)@,
                old(self)@.resolve_default_dispute(now, id, admin, outcome),
            ),
    {
        self.require_running_admin(admin, InvoiceFailure::Error(InvoiceError::Unauthorized))?;
        let mut invoice = match self.invoices.get(&id) {
            None => {
                return object(Objection::InvoiceNotFound);
            },
            Some(invoice) => invoice.clone(),
        };
        if invoice.status != InvoiceStatus::Disputed {
            return fail(InvoiceError::InvalidStatusTransition);
        }
        let mut record = match self.disputes.get(&id) {
            None => {
                return object(Objection::DisputeNotFound);
            },
            Some(record) => record.clone(),
        };
        if record.outcome != DisputeResolution::Pending {
            return fail(InvoiceError::DisputeAlreadyResolved);
        }
        record.resolved_at = now;
        record.outcome = outcome;
        match outcome {
            DisputeResolution::InFavorOfDebtor => {
                let days: u32 = self.resolve_invoice_grace_period_days(&invoice);
                let grace_secs: u64 = days as u64 * SECS_PER_DAY;
                invoice.status = InvoiceStatus::Funded;
                invoice.due_date = now.saturating_add(grace_secs);
            },
            DisputeResolution::InFavorOfSME => {
                invoice.status = InvoiceStatus::Defaulted;
            },
            DisputeResolution::Pending => {
                return fail(InvoiceError::InvalidStatusTransition);
            },
        }
        self.invoices.insert(id, invoice);
        self.disputes.insert(id, record);
        self.notify(Notice::DefaultDisputeResolved { id, admin, at: now });
        Ok(())
    }

    /// The dispute of the default of an invoice.
    pub fn get_dispute(&self, id: u64) -> (r: Option<&DisputeRecord>)
        ensures
            match r {
                Some(record) => self@.disputes.dom().contains(id) && record@ == self@.disputes[id],
                None => !self@.disputes.dom().contains(id),
            },
    {
        self.disputes.get(&id)
    }
}

} // verus!
