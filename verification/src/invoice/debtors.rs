//! The register of debtors.

use vstd::prelude::*;
use crate::address::Address;
use crate::invoice::error::{InvoiceError, InvoiceFailure, Objection};
use crate::invoice::state::{fail, object, InvoiceContract, InvoiceState};
use crate::invoice::types::DebtorRecord;
use crate::outcome::Trap;
use crate::series::Series;
use crate::text::Text;

verus! {

impl InvoiceState {
    /// The state in which a debtor is registered, owes nothing and is active.
    /// One that was registered before starts anew.
    pub open spec fn with_debtor(
        self,
        debtor_id: Seq<u8>,
        debtor_name: Seq<u8>,
        max_exposure: i128,
    ) -> Result<InvoiceState, InvoiceFailure> {
        if !self.debtor_ids.contains(debtor_id) && self.debtor_ids.len() >= u32::MAX {
            Err(InvoiceFailure::Trap(Trap::CollectionFull))
        } else {
            Ok(
                InvoiceState {
                    debtors: self.debtors.insert(
                        debtor_id,
                        DebtorRecord {
                            debtor_id,
                            debtor_name,
                            max_exposure,
                            current_exposure: 0,
                            is_active: true,
                        },
                    ),
                    debtor_ids: if self.debtor_ids.contains(debtor_id) {
                        self.debtor_ids
                    } else {
                        self.debtor_ids.push(debtor_id)
                    },
                    ..self
                },
            )
        }
    }

    pub open spec fn register_debtor(
        self,
        admin: Address,
        debtor_id: Seq<u8>,
        debtor_name: Seq<u8>,
        max_exposure: i128,
    ) -> Result<InvoiceState, InvoiceFailure> {
        match self.admin_refusal(admin, InvoiceFailure::Objection(Objection::Unauthorized)) {
            Some(e) => Err(e),
            None => if max_exposure <= 0 {
                Err(InvoiceFailure::Objection(Objection::MaxExposureNotPositive))
            } else {
                self.with_debtor(debtor_id, debtor_name, max_exposure)
            },
        }
    }

    pub open spec fn register_debtor_via_ac(
        self,
        access_control: Address,
        debtor_id: Seq<u8>,
        debtor_name: Seq<u8>,
        max_exposure: i128,
    ) -> Result<InvoiceState, InvoiceFailure> {
        match self.access_control_refusal(access_control) {
            Some(e) => Err(e),
            None => if max_exposure <= 0 {
                Err(InvoiceFailure::Error(InvoiceError::InvalidAmount))
            } else {
                self.with_debtor(debtor_id, debtor_name, max_exposure)
            },
        }
    }

    /// The state in which a debtor is not active any more.
    pub open spec fn without_debtor(self, debtor_id: Seq<u8>) -> Result<
        InvoiceState,
        InvoiceFailure,
    > {
        if !self.debtors.dom().contains(debtor_id) {
            Err(InvoiceFailure::Objection(Objection::DebtorNotFound))
        } else {
            Ok(
                InvoiceState {
                    debtors: self.debtors.insert(
                        debtor_id,
                        DebtorRecord { is_active: false, ..self.debtors[debtor_id] },
                    ),
                    ..self
                },
            )
        }
    }

    pub open spec fn deactivate_debtor(self, admin: Address, debtor_id: Seq<u8>) -> Result<
        InvoiceState,
        InvoiceFailure,
    > {
        match self.admin_refusal(admin, InvoiceFailure::Objection(Objection::Unauthorized)) {
            Some(e) => Err(e),
            None => self.without_debtor(debtor_id),
        }
    }

    pub open spec fn deactivate_debtor_via_ac(
        self,
        access_control: Address,
        debtor_id: Seq<u8>,
    ) -> Result<InvoiceState, InvoiceFailure> {
        match self.access_control_refusal(access_control) {
            Some(e) => Err(e),
            None => self.without_debtor(debtor_id),
        }
    }
}

fn is_listed(ids: &Series<Text>, id: &Text) -> (r: bool)
    ensures
        r == ids@.contains(id@),
{
    let mut i: usize = 0;
    while i < ids.len()
        invariant
            i <= ids@.len(),
            forall|j: int| 0 <= j < i ==> #[trigger] ids@[j] != id@,
        decreases ids@.len() - i,
    {
        if let Some(other) = ids.get(i) {
            if other.equals(id) {
                assert(ids@[i as int] == id@);
                return true;
            }
        }
        i = i + 1;
    }
    false
}

impl InvoiceContract {
    fn enter_debtor(
        &mut self,
        debtor_id: Text,
        debtor_name: Text,
        max_exposure: i128,
    ) -> (r: Result<(), InvoiceFailure>)
        ensures
            crate::outcome::stepped(
                r,
                old(self)@,
                final(self)@,
                old(self)@.with_debtor(debtor_id@, debtor_name@, max_exposure),
            ),
    {
        let listed = is_listed(&self.debtor_ids, &debtor_id);
        if !listed && self.debtor_ids.len() >= u32::MAX as usize {
            return Err(InvoiceFailure::Trap(Trap::CollectionFull));
        }
        let record = DebtorRecord {
            debtor_id: debtor_id.clone(),
            debtor_name,
            max_exposure,
            current_exposure: 0,
            is_active: true,
        };
        self.debtors.insert(debtor_id.clone(), record);
        if !listed {
            self.debtor_ids.push(debtor_id);
        }
        Ok(())
    }

    fn leave_debtor(&mut self, debtor_id: Text) -> (r: Result<(), InvoiceFailure>)
        ensures
            crate::outcome::stepped(
                r,
                old(self)@,
                final(self)@,
                old(self)@.without_debtor(debtor_id@),
            ),
    {
        let mut record = match self.debtors.get(&debtor_id) {
            None => {
                return object(Objection::DebtorNotFound);
            },
            Some(record) => record.clone(),
        };
        record.is_active = false;
        self.debtors.insert(debtor_id, record);
        Ok(())
    }

    /// Registers a debtor and how much can be owed by it.
    pub fn register_debtor(
        &mut self,
        admin: Address,
        debtor_id: Text,
        debtor_name: Text,
        max_exposure: i128,
    ) -> (r: Result<(), InvoiceFailure>)
        ensures
            crate::outcome::stepped(
                r,
                old(self)@,
                final(self)@,
                old(self)@.register_debtor(admin, debtor_id@, debtor_name@, max_exposure),
            ),
    {
        self.require_admin(admin, InvoiceFailure::Objection(Objection::Unauthorized))?;
        if max_exposure <= 0 {
            return object(Objection::MaxExposureNotPositive);
        }
        self.enter_debtor(debtor_id, debtor_name, max_exposure)
    }

    /// Registers a debtor, at the request of the access control.
    pub fn register_debtor_via_ac(
        &mut self,
        access_control: Address,
        debtor_id: Text,
        debtor_name: Text,
        max_exposure: i128,
    ) -> (r: Result<(), InvoiceFailure>)
        ensures
            crate::outcome::stepped(
                r,
                old(self)@,
                final(self)@,
                old(self)@.register_debtor_via_ac(
                    access_control,
                    debtor_id@,
                    debtor_name@,
                    max_exposure,
                ),
            ),
    {
        self.require_access_control(access_control)?;
        if max_exposure <= 0 {
            return fail(InvoiceError::InvalidAmount);
        }
        self.enter_debtor(debtor_id, debtor_name, max_exposure)
    }

    /// Refuses new invoices made out to a debtor.
    pub fn deactivate_debtor(&mut self, admin: Address, debtor_id: Text) -> (r: Result<
        (),
        InvoiceFailure,
    >)
        ensures
            crate::outcome::stepped(
                r,
                old(self)@,
                final(self)@,
                old(self)@.deactivate_debtor(admin, debtor_id@),
            ),
    {
        self.require_admin(admin, InvoiceFailure::Objection(Objection::Unauthorized))?;
        self.leave_debtor(debtor_id)
    }

    /// Refuses new invoices made out to a debtor, at the request of the access
    /// control.
    pub fn deactivate_debtor_via_ac(
        &mut self,
        access_control: Address,
        debtor_id: Text,
    ) -> (r: Result<(), InvoiceFailure>)
        ensures
            crate::outcome::stepped(
                r,
                old(self)@,
                final(self)@,
                old(self)@.deactivate_debtor_via_ac(access_control, debtor_id@),
            ),
    {
        self.require_access_control(access_control)?;
        self.leave_debtor(debtor_id)
    }

    /// What is known of a debtor.
    pub fn get_debtor(&self, debtor_id: &Text) -> (r: Result<&DebtorRecord, InvoiceFailure>)
        ensures
            match r {
                Ok(record) => self@.debtors.dom().contains(debtor_id@) && record@
                    == self@.debtors[debtor_id@],
                Err(e) => !self@.debtors.dom().contains(debtor_id@) && e
                    == InvoiceFailure::Objection(Objection::DebtorNotFound),
            },
    {
        match self.debtors.get(debtor_id) {
            Some(record) => Ok(record),
            None => object(Objection::DebtorNotFound),
        }
    }

    /// The registered debtors, in the order in which they were first registered.
    pub fn list_debtors(&self) -> (r: &Series<Text>)
        ensures
            r@ == self@.debtor_ids,
    {
        &self.debtor_ids
    }
}

} // verus!
