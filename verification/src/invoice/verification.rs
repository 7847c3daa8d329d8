//! How oracles vouch for invoices.

use vstd::prelude::*;
use crate::address::Address;
use crate::invoice::error::{InvoiceError, InvoiceFailure, Objection};
use crate::invoice::state::{fail, object, InvoiceContract, InvoiceState};
use crate::invoice::types::{DisputeResolution, Invoice, InvoiceEvent, InvoiceStatus, Notice};
use crate::text::Text;

verus! {

impl InvoiceState {
    /// What a verdict makes of an invoice that waits for one. The verdict has to
    /// name the hash that the invoice was created with.
    pub open spec fn apply_verification_outcome(
        self,
        now: u64,
        id: u64,
        approved: bool,
        reason: Seq<u8>,
        oracle_hash: Seq<u8>,
    ) -> Result<InvoiceState, InvoiceFailure> {
        if !self.invoices.dom().contains(id) {
            Err(InvoiceFailure::Objection(Objection::InvoiceNotFound))
        } else {
            let invoice = self.invoices[id];
            if !(invoice.status is AwaitingVerification) {
                Err(InvoiceFailure::Objection(Objection::NotAwaitingVerification))
            } else if invoice.verification_hash != oracle_hash {
                Err(InvoiceFailure::Error(InvoiceError::HashMismatch))
            } else if approved {
                Ok(
                    self.put(
                        id,
                        Invoice {
                            status: InvoiceStatus::Verified,
                            oracle_verified: true,
                            ..invoice
                        },
                    ).renew_open(id).announce(InvoiceEvent::Verified { id, oracle_hash }),
                )
            } else {
                Ok(
                    self.put(
                        id,
                        Invoice {
                            status: InvoiceStatus::Disputed,
                            dispute_reason: reason,
                            disputed_at: now,
                            ..invoice
                        },
                    ).renew_open(id).notify(Notice::Disputed { id, at: now }),
                )
            }
        }
    }

    /// Why `oracle` cannot vouch for invoices by itself, if so.
    pub open spec fn oracle_refusal(self, oracle: Address) -> Option<InvoiceFailure> {
        if self.settings.paused {
            Some(InvoiceFailure::Error(InvoiceError::ContractPaused))
        } else if self.settings.require_consensus {
            Some(InvoiceFailure::Error(InvoiceError::ConsensusVerificationRequired))
        } else if self.settings.oracle is None {
            Some(InvoiceFailure::Objection(Objection::OracleNotConfigured))
        } else if self.settings.oracle != Some(oracle) && self.settings.oracle_secondary != Some(
            oracle,
        ) {
            Some(InvoiceFailure::Objection(Objection::UnauthorizedOracle))
        } else {
            None
        }
    }

    pub open spec fn verify_invoice(
        self,
        now: u64,
        id: u64,
        oracle: Address,
        approved: bool,
        reason: Seq<u8>,
        oracle_hash: Seq<u8>,
    ) -> Result<InvoiceState, InvoiceFailure> {
        match self.oracle_refusal(oracle) {
            Some(e) => Err(e),
            None => self.apply_verification_outcome(now, id, approved, reason, oracle_hash),
        }
    }

    pub open spec fn consensus_verify(
        self,
        now: u64,
        id: u64,
        registry: Address,
        approved: bool,
        reason: Seq<u8>,
        oracle_hash: Seq<u8>,
    ) -> Result<InvoiceState, InvoiceFailure> {
        if self.settings.paused {
            Err(InvoiceFailure::Error(InvoiceError::ContractPaused))
        } else {
            match self.settings.oracle_registry {
                None => Err(InvoiceFailure::Error(InvoiceError::OracleRegistryNotConfigured)),
                Some(stored) => if registry != stored {
                    Err(InvoiceFailure::Error(InvoiceError::UnauthorizedRegistry))
                } else {
                    self.apply_verification_outcome(now, id, approved, reason, oracle_hash)
                },
            }
        }
    }

    /// Why `caller` cannot give up on the verification of an invoice, if so.
    pub open spec fn timeout_refusal(self, now: u64, caller: Address, id: u64) -> Option<
        InvoiceFailure,
    > {
        if self.settings.paused {
            Some(InvoiceFailure::Error(InvoiceError::ContractPaused))
        } else if !self.invoices.dom().contains(id) {
            Some(InvoiceFailure::Objection(Objection::InvoiceNotFound))
        } else if self.settings.admin is None {
            Some(InvoiceFailure::Objection(Objection::NotInitialized))
        } else if caller != self.invoices[id].owner && self.settings.admin != Some(caller) {
            Some(InvoiceFailure::Error(InvoiceError::Unauthorized))
        } else if !(self.invoices[id].status is AwaitingVerification) {
            Some(InvoiceFailure::Error(InvoiceError::InvalidStatusTransition))
        } else if now < self.invoices[id].verification_deadline {
            Some(InvoiceFailure::Error(InvoiceError::VerificationDeadlineNotPassed))
        } else {
            None
        }
    }

    /// The invoice was never funded, so what its owner has outstanding stays.
    pub open spec fn timeout_verification(self, now: u64, caller: Address, id: u64) -> Result<
        InvoiceState,
        InvoiceFailure,
    > {
        match self.timeout_refusal(now, caller, id) {
            Some(e) => Err(e),
            None => {
                let invoice = self.invoices[id];
                Ok(
                    self.without_owned(invoice.owner, id).less_exposure(
                        invoice.debtor,
                        invoice.amount,
                    ).put(
                        id,
                        Invoice { status: InvoiceStatus::Cancelled, ..invoice },
                    ).renew_closed(id).one_less_active().notify(
                        Notice::VerificationTimedOut {
                            id,
                            deadline: invoice.verification_deadline,
                            at: now,
                        },
                    ),
                )
            },
        }
    }

    /// Why `caller` cannot resolve the dispute over an invoice now, if so. The
    /// oracle always can; the administrator has to leave it time.
    pub open spec fn resolution_refusal(self, now: u64, id: u64, caller: Address) -> Option<
        InvoiceFailure,
    > {
        if self.settings.paused {
            Some(InvoiceFailure::Error(InvoiceError::ContractPaused))
        } else if !self.invoices.dom().contains(id) {
            Some(InvoiceFailure::Objection(Objection::InvoiceNotFound))
        } else if !(self.invoices[id].status is Disputed) {
            Some(InvoiceFailure::Objection(Objection::NotDisputed))
        } else if self.settings.admin is None {
            Some(InvoiceFailure::Objection(Objection::NotInitialized))
        } else if self.settings.oracle is None {
            Some(InvoiceFailure::Objection(Objection::OracleNotConfigured))
        } else if self.settings.oracle == Some(caller) {
            None
        } else if self.settings.admin == Some(caller) {
            if now < self.invoices[id].disputed_at.saturating_add(self.settings.dispute_window) {
                Some(InvoiceFailure::Objection(Objection::DisputeWindowNotPassed))
            } else {
                None
            }
        } else {
            Some(InvoiceFailure::Objection(Objection::Unauthorized))
        }
    }

    pub open spec fn resolve_dispute(
        self,
        now: u64,
        id: u64,
        caller: Address,
        resolution: DisputeResolution,
    ) -> Result<InvoiceState, InvoiceFailure> {
        match self.resolution_refusal(now, id, caller) {
            Some(e) => Err(e),
            None => {
                let invoice = self.invoices[id];
                let notice = Notice::DisputeResolved { id, resolution, caller };
                match resolution {
                    DisputeResolution::Pending => Err(
                        InvoiceFailure::Error(InvoiceError::InvalidStatusTransition),
                    ),
                    DisputeResolution::InFavorOfSME => Ok(
                        self.put(
                            id,
                            Invoice {
                                status: InvoiceStatus::Verified,
                                oracle_verified: true,
                                dispute_reason: Seq::empty(),
                                ..invoice
                            },
                        ).notify(notice),
                    ),
                    DisputeResolution::InFavorOfDebtor => Ok(
                        self.settled(
                            id,
                            Invoice { status: InvoiceStatus::Cancelled, ..invoice },
                        ).notify(notice),
                    ),
                }
            },
        }
    }
}

impl InvoiceContract {
    fn apply_verification_outcome(
        &mut self,
        now: u64,
        id: u64,
        approved: bool,
        reason: Text,
        oracle_hash: Text,
    ) -> (r: Result<(), InvoiceFailure>)
        ensures
            crate::outcome::stepped(
                r,
                old(self)@,
                final(self)@,
                old(self)@.apply_verification_outcome(now, id, approved, reason@, oracle_hash@),
            ),
    {
        let mut invoice = match self.invoices.get(&id) {
            None => {
                return object(Objection::InvoiceNotFound);
            },
            Some(invoice) => invoice.clone(),
        };
        if invoice.status != InvoiceStatus::AwaitingVerification {
            return object(Objection::NotAwaitingVerification);
        }
        if !invoice.verification_hash.equals(&oracle_hash) {
            return fail(InvoiceError::HashMismatch);
        }
        if approved {
            invoice.status = InvoiceStatus::Verified;
            invoice.oracle_verified = true;
        } else {
            invoice.status = InvoiceStatus::Disputed;
            invoice.dispute_reason = reason;
            invoice.disputed_at = now;
        }
        self.invoices.insert(id, invoice);
        self.renew_open(id);
        if approved {
            self.events.push(InvoiceEvent::Verified { id, oracle_hash });
        } else {
            self.notify(Notice::Disputed { id, at: now });
        }
        Ok(())
    }

    /// Takes the verdict of the oracle, or of the oracle that stands in for it.
    pub fn verify_invoice(
        &mut self,
        now: u64,
        id: u64,
        oracle: Address,
        approved: bool,
        reason: Text,
        oracle_hash: Text,
    ) -> (r: Result<(), InvoiceFailure>)
        ensures
            crate::outcome::stepped(
                r,
                old(self)@,
                final(self)@,
                old(self)@.verify_invoice(now, id, oracle, approved, reason@, oracle_hash@),
            ),
    {
        self.require_not_paused()?;
        if self.settings.require_consensus {
            return fail(InvoiceError::ConsensusVerificationRequired);
        }
        let stored = match self.settings.oracle {
            None => {
                return object(Objection::OracleNotConfigured);
            },
            Some(stored) => stored,
        };
        let authorized = oracle == stored || match self.settings.oracle_secondary {
            Some(secondary) => oracle == secondary,
            None => false,
        };
        if !authorized {
            return object(Objection::UnauthorizedOracle);
        }
        self.apply_verification_outcome(now, id, approved, reason, oracle_hash)
    }

    /// Takes the verdict of the oracle registry.
    pub fn consensus_verify(
        &mut self,
        now: u64,
        id: u64,
        registry: Address,
        approved: bool,
        reason: Text,
        oracle_hash: Text,
    ) -> (r: Result<(), InvoiceFailure>)
        ensures
            crate::outcome::stepped(
                r,
                old(self)@,
                final(self)@,
                old(self)@.consensus_verify(now, id, registry, approved, reason@, oracle_hash@),
            ),
    {
        self.require_not_paused()?;
        match self.settings.oracle_registry {
            None => {
                return fail(InvoiceError::OracleRegistryNotConfigured);
            },
            Some(stored) => {
                if registry != stored {
                    return fail(InvoiceError::UnauthorizedRegistry);
                }
            },
        }
        self.apply_verification_outcome(now, id, approved, reason, oracle_hash)
    }

    /// Cancels an invoice that has waited for a verdict beyond its deadline, so
    /// that an oracle that does not answer cannot hold it for ever. The owner and
    /// the administrator can.
    pub fn timeout_verification(&mut self, now: u64, caller: Address, id: u64) -> (r: Result<
        (),
        InvoiceFailure,
    >)
        ensures
            crate::outcome::stepped(
                r,
                old(self)@,
                final(self)@,
                old(self)@.timeout_verification(now, caller, id),
            ),
    {
        self.require_not_paused()?;
        let mut invoice = match self.invoices.get(&id) {
            None => {
                return object(Objection::InvoiceNotFound);
            },
            Some(invoice) => invoice.clone(),
        };
        let admin = match self.settings.admin {
            None => {
                return object(Objection::NotInitialized);
            },
            Some(admin) => admin,
        };
        if caller != invoice.owner && caller != admin {
            return fail(InvoiceError::Unauthorized);
        }
        if invoice.status != InvoiceStatus::AwaitingVerification {
            return fail(InvoiceError::InvalidStatusTransition);
        }
        if now < invoice.verification_deadline {
            return fail(InvoiceError::VerificationDeadlineNotPassed);
        }
        let deadline: u64 = invoice.verification_deadline;
        invoice.status = InvoiceStatus::Cancelled;
        self.remove_invoice_from_owner(invoice.owner, id);
        self.decrease_debtor_exposure(&invoice.debtor, invoice.amount);
        self.invoices.insert(id, invoice);
        self.renew_closed(id);
        self.one_less_active();
        self.notify(Notice::VerificationTimedOut { id, deadline, at: now });
        Ok(())
    }

    /// Resolves the dispute over an invoice.
    pub fn resolve_dispute(
        &mut self,
        now: u64,
        id: u64,
        caller: Address,
        resolution: DisputeResolution,
    ) -> (r: Result<(), InvoiceFailure>)
        ensures
            crate::outcome::stepped(
                r,
                old(self)@,
                final(self)@,
                old(self)@.resolve_dispute(now, id, caller, resolution),
            ),
    {
        self.require_not_paused()?;
        let mut invoice = match self.invoices.get(&id) {
            None => {
                return object(Objection::InvoiceNotFound);
            },
            Some(invoice) => invoice.clone(),
        };
        if invoice.status != InvoiceStatus::Disputed {
            return object(Objection::NotDisputed);
        }
        let admin = match self.settings.admin {
            None => {
                return object(Objection::NotInitialized);
            },
            Some(admin) => admin,
        };
        let oracle = match self.settings.oracle {
            None => {
                return object(Objection::OracleNotConfigured);
            },
            Some(oracle) => oracle,
        };
        if caller != oracle {
            if caller != admin {
                return object(Objection::Unauthorized);
            }
            if now < invoice.disputed_at.saturating_add(self.settings.dispute_window) {
                return object(Objection::DisputeWindowNotPassed);
            }
        }
        match resolution {
            DisputeResolution::InFavorOfSME => {
                invoice.status = InvoiceStatus::Verified;
                invoice.oracle_verified = true;
                invoice.dispute_reason = Text::new(Vec::new());
                self.invoices.insert(id, invoice);
            },
            DisputeResolution::InFavorOfDebtor => {
                invoice.status = InvoiceStatus::Cancelled;
                self.settle(id, invoice);
            },
            DisputeResolution::Pending => {
                return fail(InvoiceError::InvalidStatusTransition);
            },
        }
        self.notify(Notice::DisputeResolved { id, resolution, caller });
        Ok(())
    }
}

} // verus!
