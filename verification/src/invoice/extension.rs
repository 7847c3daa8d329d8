//! How due dates are moved.

use vstd::prelude::*;
use crate::address::Address;
use crate::invoice::constants::MAX_DUE_DATE_EXTENSION_SECS;
use crate::invoice::error::{InvoiceError, InvoiceFailure, Objection};
use crate::invoice::state::{fail, object, InvoiceContract, InvoiceState};
use crate::invoice::types::{DueDateCall, Invoice, InvoiceStatus, Notice};

verus! {

/// The last due date to which an invoice can be extended.
pub open spec fn latest_due_date(invoice: Invoice<Seq<u8>>) -> u64 {
    invoice.original_due_date.saturating_add(MAX_DUE_DATE_EXTENSION_SECS)
}

/// Why a new due date cannot stand, if so: it has to lie behind now and behind
/// the present one, and not too far behind the first one.
pub open spec fn extension_error(
    invoice: Invoice<Seq<u8>>,
    now: u64,
    new_due_date: u64,
) -> Option<InvoiceError> {
    if new_due_date <= now || new_due_date <= invoice.due_date {
        Some(InvoiceError::InvalidDueDateExtension)
    } else if new_due_date > latest_due_date(invoice) {
        Some(InvoiceError::ExtensionTooLarge)
    } else {
        None
    }
}

fn check_extension(invoice: &Invoice, now: u64, new_due_date: u64) -> (r: Result<
    (),
    InvoiceFailure,
>)
    ensures
        r == match extension_error(invoice@, now, new_due_date) {
            Some(e) => Err::<(), InvoiceFailure>(InvoiceFailure::Error(e)),
            None => Ok(()),
        },
{
    if new_due_date <= now || new_due_date <= invoice.due_date {
        return fail(InvoiceError::InvalidDueDateExtension);
    }
    if new_due_date > invoice.original_due_date.saturating_add(MAX_DUE_DATE_EXTENSION_SECS) {
        return fail(InvoiceError::ExtensionTooLarge);
    }
    Ok(())
}

impl InvoiceState {
    /// Why `owner` cannot ask for a new due date, if so.
    pub open spec fn extension_refusal(
        self,
        now: u64,
        id: u64,
        owner: Address,
        new_due_date: u64,
    ) -> Option<InvoiceError> {
        if self.settings.paused {
            Some(InvoiceError::ContractPaused)
        } else if !self.invoices.dom().contains(id) {
            Some(InvoiceError::InvoiceNotFound)
        } else if owner != self.invoices[id].owner {
            Some(InvoiceError::Unauthorized)
        } else if !(self.invoices[id].status is Funded) {
            Some(InvoiceError::InvalidStatusTransition)
        } else if self.invoices[id].pending_due_date is Some {
            Some(InvoiceError::ExtensionAlreadyPending)
        } else {
            extension_error(self.invoices[id], now, new_due_date)
        }
    }

    pub open spec fn request_extension(
        self,
        now: u64,
        id: u64,
        owner: Address,
        new_due_date: u64,
    ) -> Result<InvoiceState, InvoiceFailure> {
        match self.extension_refusal(now, id, owner, new_due_date) {
            Some(e) => Err(InvoiceFailure::Error(e)),
            None => Ok(
                self.put(
                    id,
                    Invoice { pending_due_date: Some(new_due_date), ..self.invoices[id] },
                ).renew_open(id).notify(
                    Notice::ExtensionRequested {
                        id,
                        current: self.invoices[id].due_date,
                        new: new_due_date,
                        owner,
                        at: now,
                    },
                ),
            ),
        }
    }

    /// Why `approver` cannot approve the due date that was asked for, if so.
    pub open spec fn approval_refusal(self, now: u64, id: u64, approver: Address) -> Option<
        InvoiceFailure,
    > {
        if self.settings.paused {
            Some(InvoiceFailure::Error(InvoiceError::ContractPaused))
        } else if self.settings.admin is None {
            Some(InvoiceFailure::Objection(Objection::NotInitialized))
        } else if self.settings.admin != Some(approver) && self.settings.oracle != Some(approver) {
            Some(InvoiceFailure::Error(InvoiceError::Unauthorized))
        } else if !self.invoices.dom().contains(id) {
            Some(InvoiceFailure::Error(InvoiceError::InvoiceNotFound))
        } else if !(self.invoices[id].status is Funded) {
            Some(InvoiceFailure::Error(InvoiceError::InvalidStatusTransition))
        } else {
            match self.invoices[id].pending_due_date {
                None => Some(InvoiceFailure::Error(InvoiceError::NoPendingExtension)),
                Some(new_due_date) => match extension_error(
                    self.invoices[id],
                    now,
                    new_due_date,
                ) {
                    Some(e) => Some(InvoiceFailure::Error(e)),
                    None => None,
                },
            }
        }
    }

    /// The pool of the invoice has to be told of the new due date.
    pub open spec fn approve_extension(self, now: u64, id: u64, approver: Address) -> Result<
        (InvoiceState, DueDateCall),
        InvoiceFailure,
    > {
        match self.approval_refusal(now, id, approver) {
            Some(e) => Err(e),
            None => {
                let invoice = self.invoices[id];
                let new_due_date = invoice.pending_due_date->0;
                Ok(
                    (
                        self.put(
                            id,
                            Invoice { due_date: new_due_date, pending_due_date: None, ..invoice },
                        ).renew_open(id).notify(
                            Notice::ExtensionApproved {
                                id,
                                old: invoice.due_date,
                                new: new_due_date,
                                approver,
                                at: now,
                            },
                        ),
                        DueDateCall {
                            pool: invoice.pool_contract,
                            invoice_contract: self.me,
                            invoice_id: id,
                            new_due_date,
                        },
                    ),
                )
            },
        }
    }
}

impl InvoiceContract {
    /// Asks for a later due date of a funded invoice.
    pub fn request_extension(&mut self, now: u64, id: u64, owner: Address, new_due_date: u64) -> (r:
        Result<(), InvoiceFailure>)
        ensures
            crate::outcome::stepped(
                r,
                old(self)@,
                final(self)@,
                old(self)@.request_extension(now, id, owner, new_due_date),
            ),
    {
        self.require_not_paused()?;
        let mut invoice = match self.invoices.get(&id) {
            None => {
                return fail(InvoiceError::InvoiceNotFound);
            },
            Some(invoice) => invoice.clone(),
        };
        if owner != invoice.owner {
            return fail(InvoiceError::Unauthorized);
        }
        if invoice.status != InvoiceStatus::Funded {
            return fail(InvoiceError::InvalidStatusTransition);
        }
        if invoice.pending_due_date.is_some() {
            return fail(InvoiceError::ExtensionAlreadyPending);
        }
        check_extension(&invoice, now, new_due_date)?;
        let current: u64 = invoice.due_date;
        invoice.pending_due_date = Some(new_due_date);
        self.invoices.insert(id, invoice);
        self.renew_open(id);
        self.notify(
            Notice::ExtensionRequested { id, current, new: new_due_date, owner, at: now },
        );
        Ok(())
    }

    /// Approves the due date that was asked for, and gives the call back that
    /// tells the pool of it. If that call fails, nothing of this stands.
    pub fn approve_extension(&mut self, now: u64, id: u64, approver: Address) -> (r: Result<
        DueDateCall,
        InvoiceFailure,
    >)
        ensures
            crate::outcome::gave(
                r,
                old(self)@,
                final(self)@,
                old(self)@.approve_extension(now, id, approver),
            ),
    {
        self.require_not_paused()?;
        let admin = match self.settings.admin {
            None => {
                return object(Objection::NotInitialized);
            },
            Some(admin) => admin,
        };
        let authorized = approver == admin || match self.settings.oracle {
            Some(oracle) => approver == oracle,
            None => false,
        };
        if !authorized {
            return fail(InvoiceError::Unauthorized);
        }
        let mut invoice = match self.invoices.get(&id) {
            None => {
                return fail(InvoiceError::InvoiceNotFound);
            },
            Some(invoice) => invoice.clone(),
        };
        if invoice.status != InvoiceStatus::Funded {
            return fail(InvoiceError::InvalidStatusTransition);
        }
        let new_due_date: u64 = match invoice.pending_due_date {
            None => {
                return fail(InvoiceError::NoPendingExtension);
            },
            Some(new_due_date) => new_due_date,
        };
        check_extension(&invoice, now, new_due_date)?;
        let old_due_date: u64 = invoice.due_date;
        let pool = invoice.pool_contract;
        invoice.due_date = new_due_date;
        invoice.pending_due_date = None;
        self.invoices.insert(id, invoice);
        self.renew_open(id);
        self.notify(
            Notice::ExtensionApproved {
                id,
                old: old_due_date,
                new: new_due_date,
                approver,
                at: now,
            },
        );
        Ok(DueDateCall { pool, invoice_contract: self.me, invoice_id: id, new_due_date })
    }
}

} // verus!
