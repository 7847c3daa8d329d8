//! How invoices are cancelled, expire and are removed.

use vstd::prelude::*;
use crate::address::Address;
use crate::collections::NumberList;
use crate::invoice::constants::MAX_CLEANUP_BATCH;
use crate::invoice::error::{InvoiceError, InvoiceFailure, Objection};
use crate::invoice::state::{fail, object, InvoiceContract, InvoiceState};
use crate::invoice::types::{Invoice, InvoiceStatus, Notice, StorageStats};
use crate::outcome::Trap;

verus! {

/// Invoices that one request can check for expiration.
pub const MAX_EXPIRATION_BATCH: u32 = 20;

impl InvoiceState {
    /// Whether an invoice can be cancelled by its owner.
    pub open spec fn owner_can_cancel(self, invoice: Invoice<Seq<u8>>, now: u64) -> bool {
        !self.is_stale(invoice, now) && (invoice.status is Pending
            || invoice.status is AwaitingVerification || invoice.status is Verified)
    }

    /// Whether an invoice can be cancelled by the administrator.
    pub open spec fn admin_can_cancel(self, invoice: Invoice<Seq<u8>>, now: u64) -> bool {
        self.owner_can_cancel(invoice, now) || invoice.status is Disputed
    }

    /// Why `caller` cannot cancel an invoice now, if so.
    pub open spec fn cancel_refusal(self, now: u64, id: u64, caller: Address) -> Option<
        InvoiceFailure,
    > {
        if self.settings.paused {
            Some(InvoiceFailure::Error(InvoiceError::ContractPaused))
        } else if !self.invoices.dom().contains(id) {
            Some(InvoiceFailure::Objection(Objection::InvoiceNotFound))
        } else if self.settings.admin is None {
            Some(InvoiceFailure::Objection(Objection::NotInitialized))
        } else {
            let invoice = self.invoices[id];
            if caller == invoice.owner {
                if self.owner_can_cancel(invoice, now) {
                    None
                } else {
                    Some(InvoiceFailure::Objection(Objection::InvalidStatusTransition))
                }
            } else if self.settings.admin == Some(caller) {
                if self.admin_can_cancel(invoice, now) {
                    None
                } else {
                    Some(InvoiceFailure::Objection(Objection::InvalidStatusTransition))
                }
            } else {
                Some(InvoiceFailure::Objection(Objection::Unauthorized))
            }
        }
    }

    pub open spec fn cancel_invoice(self, now: u64, id: u64, caller: Address) -> Result<
        InvoiceState,
        InvoiceFailure,
    > {
        match self.cancel_refusal(now, id, caller) {
            Some(e) => Err(e),
            None => Ok(
                self.without_owned(self.invoices[id].owner, id).settled(
                    id,
                    Invoice { status: InvoiceStatus::Cancelled, ..self.invoices[id] },
                ).notify(Notice::Cancelled { id, caller }),
            ),
        }
    }

    /// The state in which an invoice has expired.
    pub open spec fn expired(self, id: u64) -> InvoiceState {
        let invoice = self.invoices[id];
        self.without_owned(invoice.owner, id).less_exposure(invoice.debtor, invoice.amount).put(
            id,
            Invoice { status: InvoiceStatus::Expired, ..invoice },
        ).renew_closed(id).one_less_active().notify(Notice::Expired { id })
    }

    /// Lets an invoice expire if it has waited for too long, and says whether it
    /// has.
    pub open spec fn check_expiration(self, now: u64, id: u64) -> Result<
        (InvoiceState, bool),
        InvoiceFailure,
    > {
        if !self.invoices.dom().contains(id) {
            Err(InvoiceFailure::Error(InvoiceError::InvoiceNotFound))
        } else if self.is_stale(self.invoices[id], now) {
            Ok((self.expired(id), true))
        } else {
            Ok((self, false))
        }
    }

    /// Checks invoices one after the other, and counts those that expire.
    pub open spec fn expire_each(self, now: u64, ids: Seq<u64>) -> Result<
        (InvoiceState, nat),
        InvoiceFailure,
    >
        decreases ids.len(),
    {
        if ids.len() == 0 {
            Ok((self, 0))
        } else {
            match self.expire_each(now, ids.drop_last()) {
                Err(e) => Err(e),
                Ok((state, count)) => match state.check_expiration(now, ids.last()) {
                    Err(e) => Err(e),
                    Ok((next, gone)) => Ok(
                        (
                            next,
                            if gone {
                                count + 1
                            } else {
                                count
                            },
                        ),
                    ),
                },
            }
        }
    }

    pub open spec fn batch_check_expiration(self, now: u64, ids: Seq<u64>) -> Result<
        (InvoiceState, u32),
        InvoiceFailure,
    > {
        if ids.len() > MAX_EXPIRATION_BATCH {
            Err(InvoiceFailure::Objection(Objection::ExpirationBatchTooLarge))
        } else {
            match self.expire_each(now, ids) {
                Err(e) => Err(e),
                Ok((state, count)) => Ok((state, count as u32)),
            }
        }
    }

    /// Checking for expiration removes no invoice and adds none; it fails only on
    /// an invoice that does not exist.
    pub proof fn lemma_expire_each(self, now: u64, ids: Seq<u64>)
        ensures
            match self.expire_each(now, ids) {
                Ok((state, count)) => {
                    &&& state.invoices.dom() == self.invoices.dom()
                    &&& count <= ids.len()
                    &&& forall|i: int|
                        0 <= i < ids.len() ==> self.invoices.dom().contains(#[trigger] ids[i])
                },
                Err(e) => {
                    &&& e == InvoiceFailure::Error(InvoiceError::InvoiceNotFound)
                    &&& exists|i: int|
                        0 <= i < ids.len() && !self.invoices.dom().contains(#[trigger] ids[i])
                },
            },
        decreases ids.len(),
    {
        if ids.len() > 0 {
            let shorter = ids.drop_last();
            self.lemma_expire_each(now, shorter);
            match self.expire_each(now, shorter) {
                Err(e) => {
                    let i = choose|i: int|
                        0 <= i < shorter.len() && !self.invoices.dom().contains(
                            #[trigger] shorter[i],
                        );
                    assert(ids[i] == shorter[i]);
                },
                Ok((state, count)) => {
                    assert(ids.last() == ids[ids.len() - 1]);
                    match state.check_expiration(now, ids.last()) {
                        Err(e) => {},
                        Ok((next, gone)) => {
                            if gone {
                                assert(next.invoices.dom() =~= state.invoices.dom());
                            }
                            assert forall|i: int| 0 <= i < ids.len() implies self.invoices.dom().contains(
                                #[trigger] ids[i],
                            ) by {
                                if i < ids.len() - 1 {
                                    assert(shorter[i] == ids[i]);
                                }
                            }
                        },
                    }
                },
            }
        }
    }

    /// Why `caller` cannot remove an invoice, if so.
    pub open spec fn removal_refusal(self, id: u64, caller: Address) -> Option<InvoiceFailure> {
        match self.running_admin_refusal(caller, crate::invoice::state::not_allowed()) {
            Some(e) => Some(e),
            None => if !self.invoices.dom().contains(id) {
                Some(InvoiceFailure::Objection(Objection::InvoiceNotFound))
            } else if !self.invoices[id].status.is_terminal() {
                Some(InvoiceFailure::Objection(Objection::CleanupNotCompleted))
            } else if self.stats.cleaned_invoices == u64::MAX {
                Some(InvoiceFailure::Trap(Trap::Overflow))
            } else {
                None
            },
        }
    }

    pub open spec fn cleanup_invoice(self, id: u64, caller: Address) -> Result<
        InvoiceState,
        InvoiceFailure,
    > {
        match self.removal_refusal(id, caller) {
            Some(e) => Err(e),
            None => Ok(
                InvoiceState {
                    invoices: self.invoices.remove(id),
                    stats: StorageStats {
                        cleaned_invoices: (self.stats.cleaned_invoices + 1) as u64,
                        ..self.stats
                    },
                    ..self
                }.notify(Notice::Removed { id }),
            ),
        }
    }

    /// Whether an invoice exists and is closed.
    pub open spec fn is_closed(self, id: u64) -> bool {
        self.invoices.dom().contains(id) && self.invoices[id].status.is_terminal()
    }

    /// Those of the given invoices that are closed.
    pub open spec fn closed_among(self, ids: Seq<u64>) -> Set<u64> {
        ids.to_set().filter(|id: u64| self.is_closed(id))
    }

    /// Removes those of the given invoices that are closed and counts them; the
    /// others stay as they are.
    pub open spec fn cleanup_expired_storage(self, caller: Address, ids: Seq<u64>) -> Result<
        (InvoiceState, u32),
        InvoiceFailure,
    > {
        let gone = self.closed_among(ids);
        if self.settings.paused {
            Err(InvoiceFailure::Error(InvoiceError::ContractPaused))
        } else if ids.len() > MAX_CLEANUP_BATCH {
            Err(InvoiceFailure::Objection(Objection::CleanupBatchTooLarge))
        } else if gone.len() == 0 {
            Ok((self, 0))
        } else {
            Ok(
                (
                    InvoiceState {
                        invoices: self.invoices.remove_keys(gone),
                        stats: StorageStats {
                            cleaned_invoices: self.stats.cleaned_invoices.saturating_add(
                                gone.len() as u64,
                            ),
                            ..self.stats
                        },
                        ..self
                    }.notify(Notice::StorageCleaned { removed: gone.len() as u32, caller }),
                    gone.len() as u32,
                ),
            )
        }
    }
}

impl InvoiceContract {
    /// Cancels an invoice that is not funded. Its owner can; the administrator
    /// can also cancel one that is disputed.
    pub fn cancel_invoice(&mut self, now: u64, id: u64, caller: Address) -> (r: Result<
        (),
        InvoiceFailure,
    >)
        ensures
            crate::outcome::stepped(
                r,
                old(self)@,
                final(self)@,
                old(self)@.cancel_invoice(now, id, caller),
            ),
    {
        self.require_not_paused()?;
        let mut invoice = match self.invoices.get(&id) {
            None => {
                return object(Objection::InvoiceNotFound);
            },
            Some(invoice) => invoice.clone(),
        };
        let admin = match self.settings.admin {
            None => {
                return object(Objection::NotInitialized);
            },
            Some(admin) => admin,
        };
        if caller != invoice.owner && caller != admin {
            return object(Objection::Unauthorized);
        }
        let open = matches!(
            invoice.status,
            InvoiceStatus::Pending | InvoiceStatus::AwaitingVerification | InvoiceStatus::Verified
        ) && !self.is_stale(&invoice, now);
        let disputed = invoice.status == InvoiceStatus::Disputed && caller != invoice.owner;
        if !open && !disputed {
            return object(Objection::InvalidStatusTransition);
        }
        invoice.status = InvoiceStatus::Cancelled;
        self.remove_invoice_from_owner(invoice.owner, id);
        self.settle(id, invoice);
        self.notify(Notice::Cancelled { id, caller });
        Ok(())
    }

    /// Lets an invoice expire if it has waited for its funding for too long, and
    /// says whether it has.
    pub fn check_expiration(&mut self, now: u64, id: u64) -> (r: Result<bool, InvoiceFailure>)
        ensures
            crate::outcome::gave(
                r,
                old(self)@,
                final(self)@,
                old(self)@.check_expiration(now, id),
            ),
    {
        let mut invoice = match self.invoices.get(&id) {
            None => {
                return fail(InvoiceError::InvoiceNotFound);
            },
            Some(invoice) => invoice.clone(),
        };
        if !self.is_stale(&invoice, now) {
            return Ok(false);
        }
        invoice.status = InvoiceStatus::Expired;
        self.remove_invoice_from_owner(invoice.owner, id);
        self.decrease_debtor_exposure(&invoice.debtor, invoice.amount);
        self.invoices.insert(id, invoice);
        self.renew_closed(id);
        self.one_less_active();
        self.notify(Notice::Expired { id });
        Ok(true)
    }

    /// Checks up to 20 invoices for expiration, and counts those that expire.
    pub fn batch_check_expiration(&mut self, now: u64, ids: &NumberList) -> (r: Result<
        u32,
        InvoiceFailure,
    >)
        ensures
            crate::outcome::gave(
                r,
                old(self)@,
                final(self)@,
                old(self)@.batch_check_expiration(now, ids@),
            ),
    {
        let len: u32 = ids.len();
        if len > MAX_EXPIRATION_BATCH {
            return object(Objection::ExpirationBatchTooLarge);
        }
        let ghost before = self@;
        proof {
            before.lemma_expire_each(now, ids@);
        }
        let mut i: u32 = 0;
        while i < len
            invariant
                i <= len,
                len == ids@.len(),
                self@ == before,
                len <= MAX_EXPIRATION_BATCH,
                before == old(self)@,
                match before.expire_each(now, ids@) {
                    Ok(_) => forall|i: int|
                        0 <= i < ids@.len() ==> before.invoices.dom().contains(#[trigger] ids@[i]),
                    Err(e) => e == InvoiceFailure::Error(InvoiceError::InvoiceNotFound),
                },
                forall|j: int|
                    0 <= j < i ==> before.invoices.dom().contains(#[trigger] ids@[j]),
            decreases len - i,
        {
            if let Some(id) = ids.get(i) {
                if !self.invoices.contains(&id) {
                    assert(!before.invoices.dom().contains(ids@[i as int]));
                    return fail(InvoiceError::InvoiceNotFound);
                }
            }
            i = i + 1;
        }
        let mut count: u32 = 0;
        i = 0;
        proof {
            before.lemma_expire_each(now, ids@);
            assert(ids@.take(0) =~= Seq::<u64>::empty());
        }
        while i < len
            invariant
                i <= len,
                len == ids@.len(),
                count <= i,
                forall|j: int|
                    0 <= j < len ==> before.invoices.dom().contains(#[trigger] ids@[j]),
                before.expire_each(now, ids@.take(i as int)) == Ok::<
                    (InvoiceState, nat),
                    InvoiceFailure,
                >((self@, count as nat)),
            decreases len - i,
        {
            let ghost state = self@;
            proof {
                before.lemma_expire_each(now, ids@.take(i as int));
                assert(ids@.take(i + 1).drop_last() =~= ids@.take(i as int));
                assert(ids@.take(i + 1).last() == ids@[i as int]);
            }
            if let Some(id) = ids.get(i) {
                match self.check_expiration(now, id) {
                    Ok(gone) => {
                        if gone {
                            count = count + 1;
                        }
                    },
                    Err(e) => {
                        assert(state.invoices.dom().contains(ids@[i as int]));
                        return Err(e);
                    },
                }
            }
            i = i + 1;
        }
        assert(ids@.take(len as int) =~= ids@);
        Ok(count)
    }

    /// Removes a closed invoice. The administrator can.
    pub fn cleanup_invoice(&mut self, id: u64, caller: Address) -> (r: Result<(), InvoiceFailure>)
        ensures
            crate::outcome::stepped(
                r,
                old(self)@,
                final(self)@,
                old(self)@.cleanup_invoice(id, caller),
            ),
    {
        self.require_running_admin(caller, InvoiceFailure::Objection(Objection::Unauthorized))?;
        match self.invoices.get(&id) {
            None => {
                return object(Objection::InvoiceNotFound);
            },
            Some(invoice) => {
                if !invoice.status.terminal() {
                    return object(Objection::CleanupNotCompleted);
                }
            },
        }
        if self.stats.cleaned_invoices == u64::MAX {
            return Err(InvoiceFailure::Trap(Trap::Overflow));
        }
        let _ = self.invoices.remove(&id);
        self.stats.cleaned_invoices = self.stats.cleaned_invoices + 1;
        self.notify(Notice::Removed { id });
        Ok(())
    }

    /// Removes those of up to 50 invoices that are closed, and counts them. Open
    /// invoices and numbers that no invoice has are passed over. Anyone can.
    pub fn cleanup_expired_storage(&mut self, caller: Address, ids: &NumberList) -> (r: Result<
        u32,
        InvoiceFailure,
    >)
        ensures
            crate::outcome::gave(
                r,
                old(self)@,
                final(self)@,
                old(self)@.cleanup_expired_storage(caller, ids@),
            ),
    {
        self.require_not_paused()?;
        let len: u32 = ids.len();
        if len > MAX_CLEANUP_BATCH {
            return object(Objection::CleanupBatchTooLarge);
        }
        let ghost before = self@;
        let mut removed: u32 = 0;
        let mut i: u32 = 0;
        proof {
            assert(ids@.take(0) =~= Seq::<u64>::empty());
            assert(before.closed_among(ids@.take(0)) =~= Set::<u64>::empty());
            assert(before.invoices.remove_keys(Set::<u64>::empty()) =~= before.invoices);
        }
        while i < len
            invariant
                i <= len,
                len == ids@.len(),
                removed <= i,
                before.closed_among(ids@.take(i as int)).finite(),
                removed == before.closed_among(ids@.take(i as int)).len(),
                self@ == (InvoiceState {
                    invoices: before.invoices.remove_keys(
                        before.closed_among(ids@.take(i as int)),
                    ),
                    ..before
                }),
            decreases len - i,
        {
            if let Some(id) = ids.get(i) {
                let ghost gone = before.closed_among(ids@.take(i as int));
                let ghost next = before.closed_among(ids@.take(i + 1));
                proof {
                    lemma_closed_among(before, ids@, i as int);
                }
                let closed = match self.invoices.get(&id) {
                    None => false,
                    Some(invoice) => invoice.status.terminal(),
                };
                if closed {
                    assert(!gone.contains(id));
                    assert(before.is_closed(id));
                    let _ = self.invoices.remove(&id);
                    removed = removed + 1;
                    assert(before.invoices.remove_keys(gone).remove(id)
                        =~= before.invoices.remove_keys(next));
                } else {
                    assert(next =~= gone) by {
                        if before.is_closed(id) && !gone.contains(id) {
                            assert(before.invoices.remove_keys(gone).dom().contains(id));
                        }
                    }
                }
            }
            i = i + 1;
        }
        assert(ids@.take(len as int) =~= ids@);
        if removed > 0 {
            self.stats.cleaned_invoices = self.stats.cleaned_invoices.saturating_add(
                removed as u64,
            );
            self.notify(Notice::StorageCleaned { removed, caller });
        } else {
            assert(before.closed_among(ids@) =~= Set::<u64>::empty());
            assert(before.invoices.remove_keys(Set::<u64>::empty()) =~= before.invoices);
        }
        Ok(removed)
    }
}

/// What one more number adds to the closed invoices among given ones.
proof fn lemma_closed_among(state: InvoiceState, ids: Seq<u64>, i: int)
    requires
        0 <= i < ids.len(),
    ensures
        state.closed_among(ids.take(i + 1)) == (if state.is_closed(ids[i]) {
            state.closed_among(ids.take(i)).insert(ids[i])
        } else {
            state.closed_among(ids.take(i))
        }),
{
    let longer = ids.take(i + 1);
    let shorter = ids.take(i);
    assert forall|id: u64| #[trigger] longer.to_set().contains(id) <==> (shorter.to_set().contains(
        id,
    ) || id == ids[i]) by {
        if longer.to_set().contains(id) {
            let j = choose|j: int| 0 <= j < longer.len() && longer[j] == id;
            if j < i {
                assert(shorter[j] == id);
            }
        }
        if shorter.to_set().contains(id) {
            let j = choose|j: int| 0 <= j < shorter.len() && shorter[j] == id;
            assert(longer[j] == id);
        }
        if id == ids[i] {
            assert(longer[i] == id);
        }
    }
    let want = if state.is_closed(ids[i]) {
        state.closed_among(shorter).insert(ids[i])
    } else {
        state.closed_among(shorter)
    };
    assert(state.closed_among(longer) =~= want);
}

} // verus!
