//! Who governs the invoice ledger: its administrator, its oracles, its keepers
//! and the contract that stands beside the administrator.

use vstd::prelude::*;
use crate::address::Address;
use crate::invoice::constants::{
    ADMIN_CHANGE_TIMELOCK_SECS, CURRENT_MIGRATION_VERSION, MIN_UPGRADE_TIMELOCK_SECS,
};
use crate::invoice::error::{InvoiceError, InvoiceFailure, Objection};
use crate::invoice::state::{fail, object, InvoiceContract, InvoiceState, Settings};
use crate::invoice::types::Notice;
use crate::outcome::Trap;
use crate::text::{clone_text_option, Text};

verus! {

impl InvoiceState {
    pub open spec fn set_oracle(
        self,
        admin: Address,
        oracle: Address,
    ) -> Result<InvoiceState, InvoiceFailure> {
        match self.running_admin_refusal(
            admin,
            InvoiceFailure::Objection(Objection::Unauthorized),
        ) {
            Some(e) => Err(e),
            None => Ok(
                self.with_settings(Settings { oracle: Some(oracle), ..self.settings }).notify(
                    Notice::OracleSet { admin, old: self.settings.oracle, new: oracle },
                ),
            ),
        }
    }

    pub open spec fn set_secondary_oracle(
        self,
        admin: Address,
        oracle_secondary: Option<Address>,
    ) -> Result<InvoiceState, InvoiceFailure> {
        match self.running_admin_refusal(
            admin,
            InvoiceFailure::Error(InvoiceError::Unauthorized),
        ) {
            Some(e) => Err(e),
            None => Ok(
                self.with_settings(Settings { oracle_secondary, ..self.settings }).notify(
                    Notice::SecondaryOracleSet {
                        admin,
                        old: self.settings.oracle_secondary,
                        new: oracle_secondary,
                    },
                ),
            ),
        }
    }

    pub open spec fn set_oracle_registry(
        self,
        admin: Address,
        registry: Address,
    ) -> Result<InvoiceState, InvoiceFailure> {
        match self.running_admin_refusal(
            admin,
            InvoiceFailure::Error(InvoiceError::Unauthorized),
        ) {
            Some(e) => Err(e),
            None => Ok(
                self.with_settings(
                    Settings { oracle_registry: Some(registry), ..self.settings },
                ).notify(
                    Notice::OracleRegistrySet {
                        admin,
                        old: self.settings.oracle_registry,
                        new: registry,
                    },
                ),
            ),
        }
    }

    pub open spec fn set_consensus_required(
        self,
        admin: Address,
        required: bool,
    ) -> Result<InvoiceState, InvoiceFailure> {
        match self.running_admin_refusal(
            admin,
            InvoiceFailure::Error(InvoiceError::Unauthorized),
        ) {
            Some(e) => Err(e),
            None => Ok(
                self.with_settings(
                    Settings { require_consensus: required, ..self.settings },
                ).notify(
                    Notice::ConsensusRequired { admin, required },
                ),
            ),
        }
    }

    pub open spec fn set_access_control(
        self,
        admin: Address,
        access_control: Address,
    ) -> Result<InvoiceState, InvoiceFailure> {
        match self.admin_refusal(
            admin,
            InvoiceFailure::Error(InvoiceError::Unauthorized),
        ) {
            Some(e) => Err(e),
            None => Ok(
                self.with_settings(
                    Settings { access_control: Some(access_control), ..self.settings },
                ).notify(
                    Notice::AccessControlSet { admin, access_control },
                ),
            ),
        }
    }

    pub open spec fn pause(self, now: u64, admin: Address) -> Result<InvoiceState, InvoiceFailure> {
        match self.admin_refusal(
            admin,
            InvoiceFailure::Error(InvoiceError::Unauthorized),
        ) {
            Some(e) => Err(e),
            None => Ok(
                self.with_settings(Settings { paused: true, ..self.settings }).notify(
                    Notice::Paused { admin, at: now },
                ),
            ),
        }
    }

    pub open spec fn unpause(
        self,
        now: u64,
        admin: Address,
    ) -> Result<InvoiceState, InvoiceFailure> {
        match self.admin_refusal(
            admin,
            InvoiceFailure::Error(InvoiceError::Unauthorized),
        ) {
            Some(e) => Err(e),
            None => Ok(
                self.with_settings(Settings { paused: false, ..self.settings }).notify(
                    Notice::Unpaused { admin, at: now },
                ),
            ),
        }
    }

    pub open spec fn set_upgrade_timelock(
        self,
        admin: Address,
        secs: u64,
    ) -> Result<InvoiceState, InvoiceFailure> {
        match self.admin_refusal(
            admin,
            InvoiceFailure::Objection(Objection::Unauthorized),
        ) {
            Some(e) => Err(e),
            None => if secs < MIN_UPGRADE_TIMELOCK_SECS {
                Err(InvoiceFailure::Error(InvoiceError::InvalidUpgradeTimelock))
            } else {
                Ok(
                    self.with_settings(Settings { upgrade_timelock: secs, ..self.settings }).notify(
                        Notice::UpgradeTimelockSet {
                            admin,
                            old: self.settings.upgrade_timelock,
                            new: secs,
                        },
                    ),
                )
            },
        }
    }

    /// The state in which `keeper` is a keeper, if the list can hold it.
    pub open spec fn with_keeper(self, keeper: Address) -> Result<InvoiceState, InvoiceFailure> {
        if self.keepers.contains(keeper) {
            Ok(self)
        } else if self.keepers.len() >= u32::MAX {
            Err(InvoiceFailure::Trap(Trap::CollectionFull))
        } else {
            Ok(InvoiceState { keepers: self.keepers.push(keeper), ..self })
        }
    }

    pub open spec fn add_keeper(
        self,
        admin: Address,
        keeper: Address,
    ) -> Result<InvoiceState, InvoiceFailure> {
        match self.running_admin_refusal(
            admin,
            InvoiceFailure::Error(InvoiceError::Unauthorized),
        ) {
            Some(e) => Err(e),
            None => match self.with_keeper(keeper) {
                Err(e) => Err(e),
                Ok(state) => Ok(state.notify(Notice::KeeperAdded { admin, keeper })),
            },
        }
    }

    pub open spec fn remove_keeper(
        self,
        admin: Address,
        keeper: Address,
    ) -> Result<InvoiceState, InvoiceFailure> {
        match self.running_admin_refusal(
            admin,
            InvoiceFailure::Error(InvoiceError::Unauthorized),
        ) {
            Some(e) => Err(e),
            None => Ok(
                InvoiceState {
                    keepers: crate::collections::without_item(self.keepers, keeper),
                    ..self
                }.notify(Notice::KeeperRemoved { admin, keeper }),
            ),
        }
    }

    /// Why `caller` cannot act as the access control now, if so.
    pub open spec fn running_access_control_refusal(self, caller: Address) -> Option<
        InvoiceFailure,
    > {
        match self.access_control_refusal(caller) {
            Some(e) => Some(e),
            None => self.pause_refusal(),
        }
    }

    pub open spec fn set_paused_via_ac(
        self,
        now: u64,
        access_control: Address,
        paused: bool,
    ) -> Result<InvoiceState, InvoiceFailure> {
        match self.access_control_refusal(access_control) {
            Some(e) => Err(e),
            None => Ok(
                self.with_settings(Settings { paused, ..self.settings }).notify(
                    Notice::PausedByAccessControl { access_control, paused, at: now },
                ),
            ),
        }
    }

    pub open spec fn set_oracle_via_ac(
        self,
        access_control: Address,
        oracle: Address,
    ) -> Result<InvoiceState, InvoiceFailure> {
        match self.running_access_control_refusal(access_control) {
            Some(e) => Err(e),
            None => Ok(
                self.with_settings(Settings { oracle: Some(oracle), ..self.settings }).notify(
                    Notice::OracleSetByAccessControl {
                        access_control,
                        old: self.settings.oracle,
                        new: oracle,
                    },
                ),
            ),
        }
    }

    pub open spec fn add_keeper_via_ac(
        self,
        access_control: Address,
        keeper: Address,
    ) -> Result<InvoiceState, InvoiceFailure> {
        match self.running_access_control_refusal(access_control) {
            Some(e) => Err(e),
            None => match self.with_keeper(keeper) {
                Err(e) => Err(e),
                Ok(state) => Ok(
                    state.notify(Notice::KeeperAddedByAccessControl { access_control, keeper }),
                ),
            },
        }
    }

    pub open spec fn run_migration(self, admin: Address) -> Result<InvoiceState, InvoiceFailure> {
        match self.admin_refusal(admin, InvoiceFailure::Objection(Objection::Unauthorized)) {
            Some(e) => Err(e),
            None => if self.settings.migration_version >= CURRENT_MIGRATION_VERSION {
                Ok(self)
            } else {
                Ok(
                    self.with_settings(
                        Settings { migration_version: CURRENT_MIGRATION_VERSION, ..self.settings },
                    ),
                )
            },
        }
    }

    /// Whether every byte of a hash is 0: no code has such a hash.
    pub open spec fn is_zero_hash(hash: Seq<u8>) -> bool {
        forall|i: int| 0 <= i < hash.len() ==> #[trigger] hash[i] == 0
    }

    pub open spec fn propose_upgrade(
        self,
        now: u64,
        admin: Address,
        wasm_hash: Seq<u8>,
    ) -> Result<InvoiceState, InvoiceFailure> {
        match self.admin_refusal(admin, InvoiceFailure::Objection(Objection::Unauthorized)) {
            Some(e) => Err(e),
            None => if Self::is_zero_hash(wasm_hash) {
                Err(InvoiceFailure::Error(InvoiceError::InvalidWasmHash))
            } else if now + self.settings.upgrade_timelock > u64::MAX {
                Err(InvoiceFailure::Trap(Trap::Overflow))
            } else {
                Ok(
                    InvoiceState {
                        proposed_wasm: Some(wasm_hash),
                        settings: Settings { upgrade_scheduled_at: Some(now), ..self.settings },
                        ..self
                    }.notify(
                        Notice::UpgradeProposed {
                            admin,
                            effective_at: (now + self.settings.upgrade_timelock) as u64,
                        },
                    ),
                )
            },
        }
    }

    /// The hash of the code that has to be installed.
    pub open spec fn execute_upgrade(self, now: u64, admin: Address) -> Result<
        (InvoiceState, Seq<u8>),
        InvoiceFailure,
    > {
        match self.admin_refusal(admin, InvoiceFailure::Objection(Objection::Unauthorized)) {
            Some(e) => Err(e),
            None => match self.settings.upgrade_scheduled_at {
                None => Err(InvoiceFailure::Objection(Objection::NoUpgradeProposed)),
                Some(at) => if at + self.settings.upgrade_timelock > u64::MAX {
                    Err(InvoiceFailure::Trap(Trap::Overflow))
                } else if now < at + self.settings.upgrade_timelock {
                    Err(InvoiceFailure::Error(InvoiceError::UpgradeTimelockNotExpired))
                } else {
                    match self.proposed_wasm {
                        None => Err(InvoiceFailure::Objection(Objection::NoWasmHash)),
                        Some(hash) => Ok((self.notify(Notice::Upgraded { admin, at: now }), hash)),
                    }
                },
            },
        }
    }

    pub open spec fn propose_admin_change(
        self,
        now: u64,
        admin: Address,
        new_admin: Address,
    ) -> Result<InvoiceState, InvoiceFailure> {
        match self.running_admin_refusal(
            admin,
            InvoiceFailure::Error(InvoiceError::Unauthorized),
        ) {
            Some(e) => Err(e),
            None => if now + ADMIN_CHANGE_TIMELOCK_SECS > u64::MAX {
                Err(InvoiceFailure::Trap(Trap::Overflow))
            } else {
                Ok(
                    self.with_settings(
                        Settings {
                            pending_admin: Some(new_admin),
                            admin_change_scheduled_at: Some(now),
                            ..self.settings
                        },
                    ).notify(
                        Notice::AdminChangeProposed {
                            admin,
                            new_admin,
                            effective_at: (now + ADMIN_CHANGE_TIMELOCK_SECS) as u64,
                        },
                    ),
                )
            },
        }
    }

    pub open spec fn finalize_admin_change(
        self,
        now: u64,
        admin: Address,
    ) -> Result<InvoiceState, InvoiceFailure> {
        match self.running_admin_refusal(
            admin,
            InvoiceFailure::Error(InvoiceError::Unauthorized),
        ) {
            Some(e) => Err(e),
            None => match self.settings.admin_change_scheduled_at {
                None => Err(InvoiceFailure::Error(InvoiceError::NoAdminChangeProposed)),
                Some(at) => if at + ADMIN_CHANGE_TIMELOCK_SECS > u64::MAX {
                    Err(InvoiceFailure::Trap(Trap::Overflow))
                } else if now < at + ADMIN_CHANGE_TIMELOCK_SECS {
                    Err(InvoiceFailure::Error(InvoiceError::AdminChangeTimelockNotExpired))
                } else {
                    match self.settings.pending_admin {
                        None => Err(InvoiceFailure::Error(InvoiceError::NoAdminChangeProposed)),
                        Some(new_admin) => Ok(
                            self.with_settings(
                                Settings {
                                    admin: Some(new_admin),
                                    pending_admin: None,
                                    admin_change_scheduled_at: None,
                                    ..self.settings
                                },
                            ).notify(Notice::AdminChanged { admin, new_admin, at: now }),
                        ),
                    }
                },
            },
        }
    }

    pub open spec fn cancel_admin_change(
        self,
        admin: Address,
    ) -> Result<InvoiceState, InvoiceFailure> {
        match self.running_admin_refusal(
            admin,
            InvoiceFailure::Error(InvoiceError::Unauthorized),
        ) {
            Some(e) => Err(e),
            None => if self.settings.pending_admin is None {
                Err(InvoiceFailure::Error(InvoiceError::NoAdminChangeProposed))
            } else {
                Ok(
                    self.with_settings(
                        Settings {
                            pending_admin: None,
                            admin_change_scheduled_at: None,
                            ..self.settings
                        },
                    ).notify(Notice::AdminChangeCancelled { admin }),
                )
            },
        }
    }
}

impl InvoiceContract {
    /// Names the oracle.
    pub fn set_oracle(&mut self, admin: Address, oracle: Address) -> (r: Result<(), InvoiceFailure>)
        ensures
            crate::outcome::stepped(
                r,
                old(self)@,
                final(self)@,
                old(self)@.set_oracle(admin, oracle),
            ),
    {
        self.require_running_admin(admin, InvoiceFailure::Objection(Objection::Unauthorized))?;
        let settings = self.settings;
        self.settings.oracle = Some(oracle);
        self.notify(
            Notice::OracleSet { admin, old: settings.oracle, new: oracle },
        );
        Ok(())
    }

    /// Names an oracle that stands in for the first one, or that there is none.
    pub fn set_secondary_oracle(
        &mut self,
        admin: Address,
        oracle_secondary: Option<Address>,
    ) -> (r: Result<(), InvoiceFailure>)
        ensures
            crate::outcome::stepped(
                r,
                old(self)@,
                final(self)@,
                old(self)@.set_secondary_oracle(admin, oracle_secondary),
            ),
    {
        self.require_running_admin(admin, InvoiceFailure::Error(InvoiceError::Unauthorized))?;
        let settings = self.settings;
        self.settings.oracle_secondary = oracle_secondary;
        self.notify(
            Notice::SecondaryOracleSet {
                    admin,
                    old: settings.oracle_secondary,
                    new: oracle_secondary,
                },
        );
        Ok(())
    }

    /// Names the oracle registry, whose verdicts count.
    pub fn set_oracle_registry(
        &mut self,
        admin: Address,
        registry: Address,
    ) -> (r: Result<(), InvoiceFailure>)
        ensures
            crate::outcome::stepped(
                r,
                old(self)@,
                final(self)@,
                old(self)@.set_oracle_registry(admin, registry),
            ),
    {
        self.require_running_admin(admin, InvoiceFailure::Error(InvoiceError::Unauthorized))?;
        let settings = self.settings;
        self.settings.oracle_registry = Some(registry);
        self.notify(
            Notice::OracleRegistrySet { admin, old: settings.oracle_registry, new: registry },
        );
        Ok(())
    }

    /// Sets whether the verdicts of the oracle registry alone count.
    pub fn set_consensus_required(
        &mut self,
        admin: Address,
        required: bool,
    ) -> (r: Result<(), InvoiceFailure>)
        ensures
            crate::outcome::stepped(
                r,
                old(self)@,
                final(self)@,
                old(self)@.set_consensus_required(admin, required),
            ),
    {
        self.require_running_admin(admin, InvoiceFailure::Error(InvoiceError::Unauthorized))?;
        self.settings.require_consensus = required;
        self.notify(
            Notice::ConsensusRequired { admin, required },
        );
        Ok(())
    }

    /// Names the contract whose approved proposals count beside the
    /// administrator's requests.
    pub fn set_access_control(
        &mut self,
        admin: Address,
        access_control: Address,
    ) -> (r: Result<(), InvoiceFailure>)
        ensures
            crate::outcome::stepped(
                r,
                old(self)@,
                final(self)@,
                old(self)@.set_access_control(admin, access_control),
            ),
    {
        self.require_admin(admin, InvoiceFailure::Error(InvoiceError::Unauthorized))?;
        self.settings.access_control = Some(access_control);
        self.notify(
            Notice::AccessControlSet { admin, access_control },
        );
        Ok(())
    }

    /// Suspends the ledger.
    pub fn pause(&mut self, now: u64, admin: Address) -> (r: Result<(), InvoiceFailure>)
        ensures
            crate::outcome::stepped(
                r,
                old(self)@,
                final(self)@,
                old(self)@.pause(now, admin),
            ),
    {
        self.require_admin(admin, InvoiceFailure::Error(InvoiceError::Unauthorized))?;
        self.settings.paused = true;
        self.notify(
            Notice::Paused { admin, at: now },
        );
        Ok(())
    }

    /// Takes the ledger up again.
    pub fn unpause(&mut self, now: u64, admin: Address) -> (r: Result<(), InvoiceFailure>)
        ensures
            crate::outcome::stepped(
                r,
                old(self)@,
                final(self)@,
                old(self)@.unpause(now, admin),
            ),
    {
        self.require_admin(admin, InvoiceFailure::Error(InvoiceError::Unauthorized))?;
        self.settings.paused = false;
        self.notify(
            Notice::Unpaused { admin, at: now },
        );
        Ok(())
    }

    /// Sets the delay between the proposal of an upgrade and the upgrade: an hour
    /// at least.
    pub fn set_upgrade_timelock(
        &mut self,
        admin: Address,
        secs: u64,
    ) -> (r: Result<(), InvoiceFailure>)
        ensures
            crate::outcome::stepped(
                r,
                old(self)@,
                final(self)@,
                old(self)@.set_upgrade_timelock(admin, secs),
            ),
    {
        self.require_admin(admin, InvoiceFailure::Objection(Objection::Unauthorized))?;
        if secs < MIN_UPGRADE_TIMELOCK_SECS {
            return fail(InvoiceError::InvalidUpgradeTimelock);
        }
        let settings = self.settings;
        self.settings.upgrade_timelock = secs;
        self.notify(
            Notice::UpgradeTimelockSet { admin, old: settings.upgrade_timelock, new: secs },
        );
        Ok(())
    }

    fn insert_keeper(&mut self, keeper: Address) -> (r: Result<(), InvoiceFailure>)
        ensures
            crate::outcome::stepped(
                r,
                old(self)@,
                final(self)@,
                old(self)@.with_keeper(keeper),
            ),
    {
        if !self.keepers.contains(keeper) {
            if self.keepers.len() == u32::MAX {
                return Err(InvoiceFailure::Trap(Trap::CollectionFull));
            }
            self.keepers.push(keeper);
        }
        Ok(())
    }

    /// Makes an address a keeper. A keeper can put invoices into default and can
    /// do nothing else.
    pub fn add_keeper(&mut self, admin: Address, keeper: Address) -> (r: Result<(), InvoiceFailure>)
        ensures
            crate::outcome::stepped(
                r,
                old(self)@,
                final(self)@,
                old(self)@.add_keeper(admin, keeper),
            ),
    {
        self.require_running_admin(admin, InvoiceFailure::Error(InvoiceError::Unauthorized))?;
        self.insert_keeper(keeper)?;
        self.notify(Notice::KeeperAdded { admin, keeper });
        Ok(())
    }

    /// Takes the part of a keeper away from an address.
    pub fn remove_keeper(
        &mut self,
        admin: Address,
        keeper: Address,
    ) -> (r: Result<(), InvoiceFailure>)
        ensures
            crate::outcome::stepped(
                r,
                old(self)@,
                final(self)@,
                old(self)@.remove_keeper(admin, keeper),
            ),
    {
        self.require_running_admin(admin, InvoiceFailure::Error(InvoiceError::Unauthorized))?;
        self.keepers = self.keepers.without(&self.env, keeper);
        self.notify(Notice::KeeperRemoved { admin, keeper });
        Ok(())
    }

    /// Suspends the ledger or takes it up again, at the request of the access
    /// control.
    pub fn set_paused_via_ac(
        &mut self,
        now: u64,
        access_control: Address,
        paused: bool,
    ) -> (r: Result<(), InvoiceFailure>)
        ensures
            crate::outcome::stepped(
                r,
                old(self)@,
                final(self)@,
                old(self)@.set_paused_via_ac(now, access_control, paused),
            ),
    {
        self.require_access_control(access_control)?;
        self.settings.paused = paused;
        self.notify(Notice::PausedByAccessControl { access_control, paused, at: now });
        Ok(())
    }

    /// Names the oracle, at the request of the access control.
    pub fn set_oracle_via_ac(
        &mut self,
        access_control: Address,
        oracle: Address,
    ) -> (r: Result<(), InvoiceFailure>)
        ensures
            crate::outcome::stepped(
                r,
                old(self)@,
                final(self)@,
                old(self)@.set_oracle_via_ac(access_control, oracle),
            ),
    {
        self.require_access_control(access_control)?;
        self.require_not_paused()?;
        let before = self.settings.oracle;
        self.settings.oracle = Some(oracle);
        self.notify(
            Notice::OracleSetByAccessControl { access_control, old: before, new: oracle },
        );
        Ok(())
    }

    /// Makes an address a keeper, at the request of the access control.
    pub fn add_keeper_via_ac(
        &mut self,
        access_control: Address,
        keeper: Address,
    ) -> (r: Result<(), InvoiceFailure>)
        ensures
            crate::outcome::stepped(
                r,
                old(self)@,
                final(self)@,
                old(self)@.add_keeper_via_ac(access_control, keeper),
            ),
    {
        self.require_access_control(access_control)?;
        self.require_not_paused()?;
        self.insert_keeper(keeper)?;
        self.notify(Notice::KeeperAddedByAccessControl { access_control, keeper });
        Ok(())
    }

    /// Brings the data to the form that the code knows. Done twice, it does
    /// nothing the second time.
    pub fn run_migration(&mut self, admin: Address) -> (r: Result<(), InvoiceFailure>)
        ensures
            crate::outcome::stepped(
                r,
                old(self)@,
                final(self)@,
                old(self)@.run_migration(admin),
            ),
    {
        self.require_admin(admin, InvoiceFailure::Objection(Objection::Unauthorized))?;
        if self.settings.migration_version < CURRENT_MIGRATION_VERSION {
            self.settings.migration_version = CURRENT_MIGRATION_VERSION;
        }
        Ok(())
    }

    /// Proposes to run other code, which can be done once the timelock has
    /// passed.
    pub fn propose_upgrade(
        &mut self,
        now: u64,
        admin: Address,
        wasm_hash: &[u8; 32],
    ) -> (r: Result<(), InvoiceFailure>)
        ensures
            crate::outcome::stepped(
                r,
                old(self)@,
                final(self)@,
                old(self)@.propose_upgrade(now, admin, wasm_hash@),
            ),
    {
        self.require_admin(admin, InvoiceFailure::Objection(Objection::Unauthorized))?;
        if is_zero(wasm_hash) {
            return fail(InvoiceError::InvalidWasmHash);
        }
        let effective_at: u64 = match now.checked_add(self.settings.upgrade_timelock) {
            None => {
                return Err(InvoiceFailure::Trap(Trap::Overflow));
            },
            Some(effective_at) => effective_at,
        };
        self.proposed_wasm = Some(Text::from_slice(wasm_hash));
        self.settings.upgrade_scheduled_at = Some(now);
        self.notify(Notice::UpgradeProposed { admin, effective_at });
        Ok(())
    }

    /// Gives the hash of the code back that has to be installed now.
    pub fn execute_upgrade(&mut self, now: u64, admin: Address) -> (r: Result<Text, InvoiceFailure>)
        ensures
            match old(self)@.execute_upgrade(now, admin) {
                Ok((state, hash)) => final(self)@ == state && (r matches Ok(t) && t@ == hash),
                Err(e) => final(self)@ == old(self)@ && (r matches Err(f) && f == e),
            },
    {
        self.require_admin(admin, InvoiceFailure::Objection(Objection::Unauthorized))?;
        let scheduled_at: u64 = match self.settings.upgrade_scheduled_at {
            None => {
                return object(Objection::NoUpgradeProposed);
            },
            Some(scheduled_at) => scheduled_at,
        };
        match scheduled_at.checked_add(self.settings.upgrade_timelock) {
            None => {
                return Err(InvoiceFailure::Trap(Trap::Overflow));
            },
            Some(effective_at) => {
                if now < effective_at {
                    return fail(InvoiceError::UpgradeTimelockNotExpired);
                }
            },
        }
        match clone_text_option(&self.proposed_wasm) {
            None => object(Objection::NoWasmHash),
            Some(hash) => {
                self.notify(Notice::Upgraded { admin, at: now });
                Ok(hash)
            },
        }
    }

    /// Proposes another administrator, who can take over after 48 hours.
    pub fn propose_admin_change(
        &mut self,
        now: u64,
        admin: Address,
        new_admin: Address,
    ) -> (r: Result<(), InvoiceFailure>)
        ensures
            crate::outcome::stepped(
                r,
                old(self)@,
                final(self)@,
                old(self)@.propose_admin_change(now, admin, new_admin),
            ),
    {
        self.require_running_admin(admin, InvoiceFailure::Error(InvoiceError::Unauthorized))?;
        let effective_at: u64 = match now.checked_add(ADMIN_CHANGE_TIMELOCK_SECS) {
            None => {
                return Err(InvoiceFailure::Trap(Trap::Overflow));
            },
            Some(effective_at) => effective_at,
        };
        self.settings.pending_admin = Some(new_admin);
        self.settings.admin_change_scheduled_at = Some(now);
        self.notify(Notice::AdminChangeProposed { admin, new_admin, effective_at });
        Ok(())
    }

    /// Makes the proposed administrator the administrator, once 48 hours have
    /// passed.
    pub fn finalize_admin_change(
        &mut self,
        now: u64,
        admin: Address,
    ) -> (r: Result<(), InvoiceFailure>)
        ensures
            crate::outcome::stepped(
                r,
                old(self)@,
                final(self)@,
                old(self)@.finalize_admin_change(now, admin),
            ),
    {
        self.require_running_admin(admin, InvoiceFailure::Error(InvoiceError::Unauthorized))?;
        let scheduled_at: u64 = match self.settings.admin_change_scheduled_at {
            None => {
                return fail(InvoiceError::NoAdminChangeProposed);
            },
            Some(scheduled_at) => scheduled_at,
        };
        match scheduled_at.checked_add(ADMIN_CHANGE_TIMELOCK_SECS) {
            None => {
                return Err(InvoiceFailure::Trap(Trap::Overflow));
            },
            Some(effective_at) => {
                if now < effective_at {
                    return fail(InvoiceError::AdminChangeTimelockNotExpired);
                }
            },
        }
        let new_admin = match self.settings.pending_admin {
            None => {
                return fail(InvoiceError::NoAdminChangeProposed);
            },
            Some(new_admin) => new_admin,
        };
        self.settings.admin = Some(new_admin);
        self.settings.pending_admin = None;
        self.settings.admin_change_scheduled_at = None;
        self.notify(Notice::AdminChanged { admin, new_admin, at: now });
        Ok(())
    }

    /// Takes the proposal of another administrator back.
    pub fn cancel_admin_change(&mut self, admin: Address) -> (r: Result<(), InvoiceFailure>)
        ensures
            crate::outcome::stepped(
                r,
                old(self)@,
                final(self)@,
                old(self)@.cancel_admin_change(admin),
            ),
    {
        self.require_running_admin(admin, InvoiceFailure::Error(InvoiceError::Unauthorized))?;
        if self.settings.pending_admin.is_none() {
            return fail(InvoiceError::NoAdminChangeProposed);
        }
        self.settings.pending_admin = None;
        self.settings.admin_change_scheduled_at = None;
        self.notify(Notice::AdminChangeCancelled { admin });
        Ok(())
    }
}

/// Whether every byte of a hash is 0.
fn is_zero(hash: &[u8; 32]) -> (r: bool)
    ensures
        r == InvoiceState::is_zero_hash(hash@),
{
    let mut i: usize = 0;
    while i < 32
        invariant
            i <= 32,
            hash@.len() == 32,
            forall|j: int| 0 <= j < i ==> #[trigger] hash@[j] == 0,
        decreases 32 - i,
    {
        if hash[i] != 0 {
            assert(hash@[i as int] != 0);
            return false;
        }
        i = i + 1;
    }
    true
}

} // verus!
