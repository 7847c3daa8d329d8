//! What the requests that concern the rules and the parties of the invoice ledger
//! bring about, and when they succeed.

use vstd::prelude::*;
use crate::address::Address;
use crate::invoice::requests::{
    DebtorRequest, KeeperRequest, LimitRequest, OracleRequest, PausingRequest, Request,
    RequirementRequest, WindowRequest,
};
use crate::invoice::state::{InvoiceState, Settings};
use crate::invoice::types::{InvoiceEvent, Notice};
use crate::invoice::version::ContractVersion;

verus! {

/// Whether nothing but the settings and what was announced may have changed.
pub open spec fn only_settings(state: InvoiceState, next: InvoiceState) -> bool {
    &&& next.me == state.me
    &&& next.release == state.release
    &&& next.proposed_wasm == state.proposed_wasm
    &&& next.image_uri == state.image_uri
    &&& next.keepers == state.keepers
    &&& crate::invoice::frames::same_books(state, next)
}

/// Whether the ledger runs and `caller` is its administrator.
pub open spec fn runs_under(state: InvoiceState, caller: Address) -> bool {
    !state.settings.paused && state.settings.admin == Some(caller)
}

/// Whether a notice was given, and no other.
pub open spec fn told(state: InvoiceState, next: InvoiceState, notice: Notice) -> bool {
    next.events == state.events.push(InvoiceEvent::Notice(notice))
}

/// Each limit is set to what the administrator says, within its bounds, and
/// nothing else changes.
pub proof fn limits_are_set(state: InvoiceState, request: LimitRequest)
    ensures
        match state.apply(Request::Limit(request)) {
            Ok(next) => {
                let old = state.settings;
                &&& only_settings(state, next)
                &&& match request {
                    LimitRequest::SetDailyInvoiceLimit { admin, limit } => {
                        &&& next.settings.daily_limit == limit
                        &&& next.settings == (Settings { daily_limit: limit, ..old })
                        &&& told(
                            state,
                            next,
                            Notice::DailyLimitSet { admin, old: old.daily_limit, new: limit },
                        )
                    },
                    LimitRequest::SetMaxInvoiceAmount { admin, max_invoice_amount } => {
                        &&& next.settings.max_invoice_amount == Some(max_invoice_amount)
                        &&& next.settings == (Settings {
                            max_invoice_amount: Some(max_invoice_amount),
                            ..old
                        })
                        &&& told(
                            state,
                            next,
                            Notice::MaxAmountSet {
                                admin,
                                old: if old.max_invoice_amount is Some {
                                    old.max_invoice_amount->0
                                } else {
                                    0
                                },
                                new: max_invoice_amount,
                            },
                        )
                    },
                    LimitRequest::SetMaxSmeOutstanding { admin, max } => {
                        &&& next.settings.max_outstanding_per_sme == max
                        &&& next.settings == (Settings { max_outstanding_per_sme: max, ..old })
                        &&& told(state, next, Notice::MaxOutstandingSet { admin, max })
                    },
                    LimitRequest::SetExpirationDuration { admin, expiration_duration_secs } => {
                        &&& next.settings.expiration_duration_secs == expiration_duration_secs
                        &&& next.settings == (Settings { expiration_duration_secs, ..old })
                        &&& told(
                            state,
                            next,
                            Notice::ExpirationDurationSet {
                                admin,
                                old: old.expiration_duration_secs,
                                new: expiration_duration_secs,
                            },
                        )
                    },
                    LimitRequest::SetCompletedInvoiceTtl { admin, ttl_ledgers } => {
                        &&& next.settings.completed_ttl == ttl_ledgers
                        &&& next.settings == (Settings { completed_ttl: ttl_ledgers, ..old })
                        &&& told(
                            state,
                            next,
                            Notice::CompletedTtlSet { admin, ledgers: ttl_ledgers },
                        )
                    },
                }
            },
            Err(_) => true,
        },
        state.apply(Request::Limit(request)) is Ok <==> match request {
            LimitRequest::SetDailyInvoiceLimit { admin, limit } => runs_under(state, admin) && 1
                <= limit <= 1_000,
            LimitRequest::SetMaxInvoiceAmount { admin, max_invoice_amount } => runs_under(
                state,
                admin,
            ) && max_invoice_amount > 0,
            LimitRequest::SetMaxSmeOutstanding { admin, max } => runs_under(state, admin) && max
                > 0,
            LimitRequest::SetExpirationDuration { admin, expiration_duration_secs } => runs_under(
                state,
                admin,
            ) && 0 < expiration_duration_secs <= 315_360_000,
            LimitRequest::SetCompletedInvoiceTtl { admin, ttl_ledgers } => runs_under(state, admin)
                && ttl_ledgers >= 6_307_200,
        },
{
    reveal(InvoiceState::apply_limit);
}

/// Each span of time is set to what the administrator says, a grace period up to 90
/// days, also while the ledger is suspended, and nothing else changes.
pub proof fn windows_are_set(state: InvoiceState, request: WindowRequest)
    ensures
        match state.apply(Request::Window(request)) {
            Ok(next) => {
                let old = state.settings;
                &&& only_settings(state, next)
                &&& match request {
                    WindowRequest::SetDisputeWindow { admin, window } => {
                        &&& next.settings.dispute_window == window
                        &&& next.settings == (Settings { dispute_window: window, ..old })
                        &&& told(
                            state,
                            next,
                            Notice::DisputeWindowSet { admin, old: old.dispute_window, new: window },
                        )
                    },
                    WindowRequest::SetGracePeriod { admin, days } => {
                        &&& next.settings.grace_period_days == days
                        &&& next.settings == (Settings { grace_period_days: days, ..old })
                        &&& told(
                            state,
                            next,
                            Notice::GracePeriodSet { admin, old: old.grace_period_days, new: days },
                        )
                    },
                    WindowRequest::SetMinDueDateWindow { admin, window_secs } => {
                        &&& next.settings.min_due_date_window == window_secs
                        &&& next.settings == (Settings { min_due_date_window: window_secs, ..old })
                        &&& told(
                            state,
                            next,
                            Notice::MinDueDateWindowSet {
                                admin,
                                old: old.min_due_date_window,
                                new: window_secs,
                            },
                        )
                    },
                }
            },
            Err(_) => true,
        },
        state.apply(Request::Window(request)) is Ok <==> match request {
            WindowRequest::SetDisputeWindow { admin, .. } => state.settings.admin == Some(admin),
            WindowRequest::SetGracePeriod { admin, days } => state.settings.admin == Some(admin)
                && days <= 90,
            WindowRequest::SetMinDueDateWindow { admin, .. } => state.settings.admin == Some(admin),
        },
{
    reveal(InvoiceState::apply_window);
}

/// Each requirement, and each party that is named with them, is set to what the
/// administrator says, and nothing else changes.
pub proof fn requirements_are_set(state: InvoiceState, request: RequirementRequest)
    ensures
        match state.apply(Request::Requirement(request)) {
            Ok(next) => {
                let old = state.settings;
                &&& next.me == state.me
                &&& next.release == state.release
                &&& next.proposed_wasm == state.proposed_wasm
                &&& next.keepers == state.keepers
                &&& crate::invoice::frames::same_books(state, next)
                &&& !(request is SetMetadataImageUri) ==> next.image_uri == state.image_uri
                &&& match request {
                    RequirementRequest::SetRequireRegisteredDebtor { admin, required } => {
                        &&& next.settings.require_registered_debtor == required
                        &&& next.settings == (Settings {
                            require_registered_debtor: required,
                            ..old
                        })
                        &&& told(
                            state,
                            next,
                            Notice::RegisteredDebtorsOnly {
                                admin,
                                old: old.require_registered_debtor,
                                new: required,
                            },
                        )
                    },
                    RequirementRequest::SetOracleVerifiedFundingOnly { admin, required } => {
                        &&& next.settings.require_oracle_verification == required
                        &&& next.settings == (Settings {
                            require_oracle_verification: required,
                            ..old
                        })
                        &&& told(
                            state,
                            next,
                            Notice::VerifiedFundingOnly {
                                admin,
                                old: old.require_oracle_verification,
                                new: required,
                            },
                        )
                    },
                    RequirementRequest::SetComplianceRegistry { admin, registry } => {
                        &&& next.settings.compliance_registry == Some(registry)
                        &&& next.settings == (Settings {
                            compliance_registry: Some(registry),
                            ..old
                        })
                        &&& told(state, next, Notice::ComplianceRegistrySet { admin, registry })
                    },
                    RequirementRequest::SetRequireComplianceCheck { admin, required } => {
                        &&& next.settings.require_compliance == required
                        &&& next.settings == (Settings { require_compliance: required, ..old })
                        &&& told(state, next, Notice::ComplianceRequired { admin, required })
                    },
                    RequirementRequest::SetPool { admin, pool } => {
                        &&& next.settings.pool == Some(pool)
                        &&& next.settings == (Settings { pool: Some(pool), ..old })
                        &&& told(state, next, Notice::PoolSet { admin, pool })
                    },
                    RequirementRequest::SetMetadataImageUri { admin, uri } => {
                        &&& next.image_uri == uri
                        &&& next.settings == old
                        &&& next.events == state.events.push(InvoiceEvent::ImageSet { admin, uri })
                    },
                }
            },
            Err(_) => true,
        },
        state.apply(Request::Requirement(request)) is Ok <==> match request {
            RequirementRequest::SetRequireRegisteredDebtor { admin, .. } => state.settings.admin
                == Some(admin),
            RequirementRequest::SetOracleVerifiedFundingOnly { admin, .. } => state.settings.admin
                == Some(admin),
            RequirementRequest::SetComplianceRegistry { admin, .. } => runs_under(state, admin),
            RequirementRequest::SetRequireComplianceCheck { admin, .. } => runs_under(state, admin),
            RequirementRequest::SetPool { admin, .. } => runs_under(state, admin),
            RequirementRequest::SetMetadataImageUri { admin, uri } => runs_under(state, admin) && 1
                <= uri.len() <= 256,
        },
{
    reveal(InvoiceState::apply_requirement);
}

/// The oracles, the registry and whether it alone counts are set as is said, by
/// the administrator or, for the first oracle, the access control; and nothing else
/// changes.
pub proof fn oracles_are_named(state: InvoiceState, request: OracleRequest)
    ensures
        match state.apply(Request::Oracle(request)) {
            Ok(next) => {
                let old = state.settings;
                &&& only_settings(state, next)
                &&& match request {
                    OracleRequest::SetOracle { admin, oracle } => {
                        &&& next.settings.oracle == Some(oracle)
                        &&& next.settings == (Settings { oracle: Some(oracle), ..old })
                        &&& told(
                            state,
                            next,
                            Notice::OracleSet { admin, old: old.oracle, new: oracle },
                        )
                    },
                    OracleRequest::SetSecondaryOracle { admin, oracle_secondary } => {
                        &&& next.settings.oracle_secondary == oracle_secondary
                        &&& next.settings == (Settings { oracle_secondary, ..old })
                        &&& told(
                            state,
                            next,
                            Notice::SecondaryOracleSet {
                                admin,
                                old: old.oracle_secondary,
                                new: oracle_secondary,
                            },
                        )
                    },
                    OracleRequest::SetOracleRegistry { admin, registry } => {
                        &&& next.settings.oracle_registry == Some(registry)
                        &&& next.settings == (Settings { oracle_registry: Some(registry), ..old })
                        &&& told(
                            state,
                            next,
                            Notice::OracleRegistrySet {
                                admin,
                                old: old.oracle_registry,
                                new: registry,
                            },
                        )
                    },
                    OracleRequest::SetConsensusRequired { admin, required } => {
                        &&& next.settings.require_consensus == required
                        &&& next.settings == (Settings { require_consensus: required, ..old })
                        &&& told(state, next, Notice::ConsensusRequired { admin, required })
                    },
                    OracleRequest::SetOracleViaAc { access_control, oracle } => {
                        &&& next.settings.oracle == Some(oracle)
                        &&& next.settings == (Settings { oracle: Some(oracle), ..old })
                        &&& told(
                            state,
                            next,
                            Notice::OracleSetByAccessControl {
                                access_control,
                                old: old.oracle,
                                new: oracle,
                            },
                        )
                    },
                }
            },
            Err(_) => true,
        },
        state.apply(Request::Oracle(request)) is Ok <==> match request {
            OracleRequest::SetOracle { admin, .. } => runs_under(state, admin),
            OracleRequest::SetSecondaryOracle { admin, .. } => runs_under(state, admin),
            OracleRequest::SetOracleRegistry { admin, .. } => runs_under(state, admin),
            OracleRequest::SetConsensusRequired { admin, .. } => runs_under(state, admin),
            OracleRequest::SetOracleViaAc { access_control, .. } => !state.settings.paused
                && state.settings.access_control == Some(access_control),
        },
{
    reveal(InvoiceState::apply_oracle);
}

/// The administrator and the access control suspend the ledger and take it up
/// again, and the administrator names the access control; nothing else changes.
pub proof fn the_ledger_is_suspended_and_taken_up(state: InvoiceState, request: PausingRequest)
    ensures
        match state.apply(Request::Pausing(request)) {
            Ok(next) => {
                let old = state.settings;
                &&& only_settings(state, next)
                &&& match request {
                    PausingRequest::Pause { now, admin } => {
                        &&& next.settings.paused
                        &&& next.settings == (Settings { paused: true, ..old })
                        &&& told(state, next, Notice::Paused { admin, at: now })
                    },
                    PausingRequest::Unpause { now, admin } => {
                        &&& !next.settings.paused
                        &&& next.settings == (Settings { paused: false, ..old })
                        &&& told(state, next, Notice::Unpaused { admin, at: now })
                    },
                    PausingRequest::SetPausedViaAc { now, access_control, paused } => {
                        &&& next.settings.paused == paused
                        &&& next.settings == (Settings { paused, ..old })
                        &&& told(
                            state,
                            next,
                            Notice::PausedByAccessControl { access_control, paused, at: now },
                        )
                    },
                    PausingRequest::SetAccessControl { admin, access_control } => {
                        &&& next.settings.access_control == Some(access_control)
                        &&& next.settings == (Settings {
                            access_control: Some(access_control),
                            ..old
                        })
                        &&& told(state, next, Notice::AccessControlSet { admin, access_control })
                    },
                }
            },
            Err(_) => true,
        },
        state.apply(Request::Pausing(request)) is Ok <==> match request {
            PausingRequest::Pause { admin, .. } => state.settings.admin == Some(admin),
            PausingRequest::Unpause { admin, .. } => state.settings.admin == Some(admin),
            PausingRequest::SetPausedViaAc { access_control, .. } => state.settings.access_control
                == Some(access_control),
            PausingRequest::SetAccessControl { admin, .. } => state.settings.admin == Some(admin),
        },
{
    reveal(InvoiceState::apply_pausing);
}

/// Keepers are added, last on the list and once, by the administrator and the
/// access control, and removed by the administrator; nothing else changes.
pub proof fn keepers_come_and_go(state: InvoiceState, request: KeeperRequest)
    requires
        state.valid(),
    ensures
        match state.apply(Request::Keeper(request)) {
            Ok(next) => {
                &&& next.me == state.me
                &&& next.release == state.release
                &&& next.settings == state.settings
                &&& next.proposed_wasm == state.proposed_wasm
                &&& next.image_uri == state.image_uri
                &&& crate::invoice::frames::same_books(state, next)
                &&& next.keepers.no_duplicates()
                &&& match request {
                    KeeperRequest::AddKeeper { admin, keeper } => {
                        &&& next.keepers.contains(keeper)
                        &&& state.keepers.contains(keeper) ==> next.keepers == state.keepers
                        &&& !state.keepers.contains(keeper) ==> next.keepers.drop_last()
                            == state.keepers && next.keepers.last() == keeper
                        &&& told(state, next, Notice::KeeperAdded { admin, keeper })
                    },
                    KeeperRequest::AddKeeperViaAc { access_control, keeper } => {
                        &&& next.keepers.contains(keeper)
                        &&& state.keepers.contains(keeper) ==> next.keepers == state.keepers
                        &&& !state.keepers.contains(keeper) ==> next.keepers.drop_last()
                            == state.keepers && next.keepers.last() == keeper
                        &&& told(
                            state,
                            next,
                            Notice::KeeperAddedByAccessControl { access_control, keeper },
                        )
                    },
                    KeeperRequest::RemoveKeeper { admin, keeper } => {
                        &&& next.keepers == state.keepers.filter(|a: Address| a != keeper)
                        &&& forall|a: Address| #[trigger]
                            next.keepers.contains(a) <==> state.keepers.contains(a) && a != keeper
                        &&& told(state, next, Notice::KeeperRemoved { admin, keeper })
                    },
                }
            },
            Err(_) => true,
        },
        state.apply(Request::Keeper(request)) is Ok <==> match request {
            KeeperRequest::AddKeeper { admin, keeper } => runs_under(state, admin) && (
            state.keepers.contains(keeper) || state.keepers.len() < u32::MAX),
            KeeperRequest::RemoveKeeper { admin, .. } => runs_under(state, admin),
            KeeperRequest::AddKeeperViaAc { access_control, keeper } => !state.settings.paused
                && state.settings.access_control == Some(access_control) && (
            state.keepers.contains(keeper) || state.keepers.len() < u32::MAX),
        },
{
    reveal(InvoiceState::apply_keeper);
    let keeper = match request {
        KeeperRequest::AddKeeper { keeper, .. } => keeper,
        KeeperRequest::RemoveKeeper { keeper, .. } => keeper,
        KeeperRequest::AddKeeperViaAc { keeper, .. } => keeper,
    };
    crate::collections::taking_an_item_away(state.keepers, keeper);
    crate::collections::putting_an_item_last(state.keepers, keeper);
    lemma_filtered(state.keepers, keeper);
    assert(state.keepers.push(keeper).drop_last() =~= state.keepers);
}

proof fn lemma_filtered(items: Seq<Address>, item: Address)
    ensures
        crate::collections::without_item(items, item) == items.filter(|a: Address| a != item),
    decreases items.len(),
{
    reveal(Seq::filter);
    if items.len() > 0 {
        lemma_filtered(items.drop_last(), item);
    }
}

/// An upgrade is proposed with a hash that is not all zeros, and carried out with
/// that hash once the timelock, which is an hour at least, has passed since.
pub proof fn upgrades_are_carried_out_as_proposed(
    state: InvoiceState,
    now: u64,
    admin: Address,
    wasm_hash: Seq<u8>,
    secs: u64,
)
    ensures
        match state.set_upgrade_timelock(admin, secs) {
            Ok(next) => {
                &&& only_settings(state, next)
                &&& next.settings.upgrade_timelock == secs
                &&& next.settings == (Settings { upgrade_timelock: secs, ..state.settings })
                &&& told(
                    state,
                    next,
                    Notice::UpgradeTimelockSet {
                        admin,
                        old: state.settings.upgrade_timelock,
                        new: secs,
                    },
                )
            },
            Err(_) => true,
        },
        state.set_upgrade_timelock(admin, secs) is Ok <==> state.settings.admin == Some(admin)
            && secs >= 3_600,
        match state.propose_upgrade(now, admin, wasm_hash) {
            Ok(next) => {
                &&& next.proposed_wasm == Some(wasm_hash)
                &&& next.settings.upgrade_scheduled_at == Some(now)
                &&& next.settings == (Settings { upgrade_scheduled_at: Some(now), ..state.settings })
                &&& next.me == state.me
                &&& next.release == state.release
                &&& next.image_uri == state.image_uri
                &&& next.keepers == state.keepers
                &&& crate::invoice::frames::same_books(state, next)
                &&& told(
                    state,
                    next,
                    Notice::UpgradeProposed {
                        admin,
                        effective_at: (now + state.settings.upgrade_timelock) as u64,
                    },
                )
            },
            Err(_) => true,
        },
        state.propose_upgrade(now, admin, wasm_hash) is Ok <==> {
            &&& state.settings.admin == Some(admin)
            &&& exists|i: int| 0 <= i < wasm_hash.len() && #[trigger] wasm_hash[i] != 0
            &&& now + state.settings.upgrade_timelock <= u64::MAX
        },
        match state.execute_upgrade(now, admin) {
            Ok((next, hash)) => {
                &&& state.proposed_wasm == Some(hash)
                &&& only_settings(state, next)
                &&& next.settings == state.settings
                &&& told(state, next, Notice::Upgraded { admin, at: now })
            },
            Err(_) => true,
        },
        state.execute_upgrade(now, admin) is Ok <==> {
            &&& state.settings.admin == Some(admin)
            &&& state.settings.upgrade_scheduled_at is Some
            &&& now >= state.settings.upgrade_scheduled_at->0 + state.settings.upgrade_timelock
            &&& state.proposed_wasm is Some
        },
        match state.run_migration(admin) {
            Ok(next) => {
                &&& only_settings(state, next)
                &&& next.events == state.events
                &&& next.settings.migration_version == if state.settings.migration_version < 1 {
                    1
                } else {
                    state.settings.migration_version
                }
                &&& next.settings == (Settings {
                    migration_version: next.settings.migration_version,
                    ..state.settings
                })
            },
            Err(_) => true,
        },
        state.run_migration(admin) is Ok <==> state.settings.admin == Some(admin),
{
    let all_zero = forall|i: int| 0 <= i < wasm_hash.len() ==> #[trigger] wasm_hash[i] == 0;
    assert(InvoiceState::is_zero_hash(wasm_hash) == all_zero);
}

/// Another administrator is proposed, takes over once 48 hours have passed, or is
/// cancelled before; nothing else changes.
pub proof fn administrators_hand_over(
    state: InvoiceState,
    now: u64,
    admin: Address,
    new_admin: Address,
)
    ensures
        match state.propose_admin_change(now, admin, new_admin) {
            Ok(next) => {
                &&& only_settings(state, next)
                &&& next.settings.admin == state.settings.admin
                &&& next.settings.pending_admin == Some(new_admin)
                &&& next.settings.admin_change_scheduled_at == Some(now)
                &&& next.settings == (Settings {
                    pending_admin: Some(new_admin),
                    admin_change_scheduled_at: Some(now),
                    ..state.settings
                })
                &&& told(
                    state,
                    next,
                    Notice::AdminChangeProposed {
                        admin,
                        new_admin,
                        effective_at: (now + 172_800) as u64,
                    },
                )
            },
            Err(_) => true,
        },
        state.propose_admin_change(now, admin, new_admin) is Ok <==> runs_under(state, admin) && now
            + 172_800 <= u64::MAX,
        match state.finalize_admin_change(now, admin) {
            Ok(next) => {
                &&& only_settings(state, next)
                &&& next.settings.admin == state.settings.pending_admin
                &&& next.settings.pending_admin is None
                &&& next.settings.admin_change_scheduled_at is None
                &&& next.settings == (Settings {
                    admin: state.settings.pending_admin,
                    pending_admin: None,
                    admin_change_scheduled_at: None,
                    ..state.settings
                })
                &&& told(
                    state,
                    next,
                    Notice::AdminChanged {
                        admin,
                        new_admin: state.settings.pending_admin->0,
                        at: now,
                    },
                )
            },
            Err(_) => true,
        },
        state.finalize_admin_change(now, admin) is Ok <==> {
            &&& runs_under(state, admin)
            &&& state.settings.admin_change_scheduled_at is Some
            &&& now >= state.settings.admin_change_scheduled_at->0 + 172_800
            &&& state.settings.pending_admin is Some
        },
        match state.cancel_admin_change(admin) {
            Ok(next) => {
                &&& only_settings(state, next)
                &&& next.settings.pending_admin is None
                &&& next.settings.admin_change_scheduled_at is None
                &&& next.settings == (Settings {
                    pending_admin: None,
                    admin_change_scheduled_at: None,
                    ..state.settings
                })
                &&& told(state, next, Notice::AdminChangeCancelled { admin })
            },
            Err(_) => true,
        },
        state.cancel_admin_change(admin) is Ok <==> runs_under(state, admin)
            && state.settings.pending_admin is Some,
{
}

/// Whether nothing but the register of debtors may have changed.
pub open spec fn only_debtors(state: InvoiceState, next: InvoiceState) -> bool {
    &&& next.me == state.me
    &&& next.release == state.release
    &&& next.settings == state.settings
    &&& next.proposed_wasm == state.proposed_wasm
    &&& next.image_uri == state.image_uri
    &&& next.keepers == state.keepers
    &&& next.invoice_count == state.invoice_count
    &&& next.stats == state.stats
    &&& next.invoices == state.invoices
    &&& next.disputes == state.disputes
    &&& next.private == state.private
    &&& next.funding == state.funding
    &&& next.sme_outstanding == state.sme_outstanding
    &&& next.sme_invoices == state.sme_invoices
    &&& next.timestamps == state.timestamps
    &&& next.renewals == state.renewals
    &&& next.events == state.events
}

/// Whether a debtor stands in the register anew: active, owing nothing, and listed
/// once.
pub open spec fn debtor_entered(
    state: InvoiceState,
    next: InvoiceState,
    debtor_id: Seq<u8>,
    debtor_name: Seq<u8>,
    max_exposure: i128,
) -> bool {
    let record = next.debtors[debtor_id];
    &&& record.debtor_id == debtor_id
    &&& record.debtor_name == debtor_name
    &&& record.max_exposure == max_exposure
    &&& record.current_exposure == 0
    &&& record.is_active
    &&& next.debtors == state.debtors.insert(debtor_id, record)
    &&& state.debtor_ids.contains(debtor_id) ==> next.debtor_ids == state.debtor_ids
    &&& !state.debtor_ids.contains(debtor_id) ==> next.debtor_ids == state.debtor_ids.push(
        debtor_id,
    )
    &&& only_debtors(state, next)
}

/// Whether a debtor that stands in the register is not active any more.
pub open spec fn debtor_left(state: InvoiceState, next: InvoiceState, debtor_id: Seq<u8>) -> bool {
    let before = state.debtors[debtor_id];
    let after = next.debtors[debtor_id];
    &&& !after.is_active
    &&& after.debtor_id == before.debtor_id
    &&& after.debtor_name == before.debtor_name
    &&& after.max_exposure == before.max_exposure
    &&& after.current_exposure == before.current_exposure
    &&& next.debtors == state.debtors.insert(debtor_id, after)
    &&& next.debtor_ids == state.debtor_ids
    &&& only_debtors(state, next)
}

/// Debtors are registered, with a limit that is positive, and deactivated, by the
/// administrator and by the access control alike; nothing else changes.
pub proof fn debtors_come_and_go(state: InvoiceState, request: DebtorRequest)
    ensures
        match state.apply(Request::Debtor(request)) {
            Ok(next) => match request {
                DebtorRequest::RegisterDebtor { debtor_id, debtor_name, max_exposure, .. } => {
                    debtor_entered(state, next, debtor_id, debtor_name, max_exposure)
                },
                DebtorRequest::RegisterDebtorViaAc { debtor_id, debtor_name, max_exposure, .. } => {
                    debtor_entered(state, next, debtor_id, debtor_name, max_exposure)
                },
                DebtorRequest::DeactivateDebtor { debtor_id, .. } => {
                    debtor_left(state, next, debtor_id)
                },
                DebtorRequest::DeactivateDebtorViaAc { debtor_id, .. } => {
                    debtor_left(state, next, debtor_id)
                },
            },
            Err(_) => true,
        },
        state.apply(Request::Debtor(request)) is Ok <==> match request {
            DebtorRequest::RegisterDebtor { admin, debtor_id, max_exposure, .. } => {
                &&& state.settings.admin == Some(admin)
                &&& max_exposure > 0
                &&& state.debtor_ids.contains(debtor_id) || state.debtor_ids.len() < u32::MAX
            },
            DebtorRequest::RegisterDebtorViaAc { access_control, debtor_id, max_exposure, .. } => {
                &&& state.settings.access_control == Some(access_control)
                &&& max_exposure > 0
                &&& state.debtor_ids.contains(debtor_id) || state.debtor_ids.len() < u32::MAX
            },
            DebtorRequest::DeactivateDebtor { admin, debtor_id } => {
                &&& state.settings.admin == Some(admin)
                &&& state.debtors.dom().contains(debtor_id)
            },
            DebtorRequest::DeactivateDebtorViaAc { access_control, debtor_id } => {
                &&& state.settings.access_control == Some(access_control)
                &&& state.debtors.dom().contains(debtor_id)
            },
        },
{
    reveal(InvoiceState::apply_debtor);
}

/// A ledger starts with 7 days of grace, an expiration after 30 days, 30 days for
/// disputes, due dates at least a day ahead, 10 invoices a day, closed invoices kept
/// for 5 years and an upgrade timelock of a day. It is set up once: parties, the
/// largest amount, the expiration and the grace period as said, the other rules as
/// they start, and empty counts.
pub proof fn ledgers_are_set_up(
    state: InvoiceState,
    admin: Address,
    pool: Address,
    max_invoice_amount: i128,
    expiration_duration_secs: u64,
    grace_period_days: u32,
    me: Address,
    release: ContractVersion,
)
    ensures
        ({
            let blank = InvoiceState::blank(me, release);
            let rules = blank.settings;
            &&& blank.me == me
            &&& blank.release == release
            &&& !rules.initialized
            &&& rules.admin is None
            &&& rules.pool is None
            &&& rules.oracle is None
            &&& rules.oracle_secondary is None
            &&& rules.oracle_registry is None
            &&& rules.compliance_registry is None
            &&& rules.access_control is None
            &&& rules.pending_admin is None
            &&& rules.admin_change_scheduled_at is None
            &&& !rules.paused
            &&& !rules.require_registered_debtor
            &&& !rules.require_oracle_verification
            &&& !rules.require_consensus
            &&& !rules.require_compliance
            &&& rules.grace_period_days == 7
            &&& rules.max_invoice_amount is None
            &&& rules.max_outstanding_per_sme == i128::MAX
            &&& rules.expiration_duration_secs == 2_592_000
            &&& rules.dispute_window == 2_592_000
            &&& rules.min_due_date_window == 86_400
            &&& rules.daily_limit == 10
            &&& rules.completed_ttl == 31_536_000
            &&& rules.upgrade_timelock == 86_400
            &&& rules.upgrade_scheduled_at is None
            &&& rules.version is None
            &&& rules.migration_version == 0
            &&& blank.keepers.len() == 0
            &&& blank.invoice_count == 0
            &&& blank.events.len() == 0
            &&& forall|id: u64| !blank.invoices.dom().contains(id)
            &&& forall|d: Seq<u8>| !blank.debtors.dom().contains(d)
        }),
        match state.initialize(
            admin,
            pool,
            max_invoice_amount,
            expiration_duration_secs,
            grace_period_days,
        ) {
            Ok(next) => {
                &&& next.settings == (Settings {
                    initialized: true,
                    admin: Some(admin),
                    pool: Some(pool),
                    paused: false,
                    grace_period_days,
                    max_invoice_amount: Some(max_invoice_amount),
                    max_outstanding_per_sme: i128::MAX,
                    expiration_duration_secs,
                    dispute_window: 2_592_000,
                    min_due_date_window: 86_400,
                    version: Some(state.release),
                    migration_version: 0,
                    require_registered_debtor: false,
                    require_oracle_verification: false,
                    ..state.settings
                })
                &&& next.me == state.me
                &&& next.release == state.release
                &&& next.invoice_count == 0
                &&& next.stats.total_invoices == 0
                &&& next.stats.active_invoices == 0
                &&& next.stats.cleaned_invoices == 0
                &&& next.debtor_ids.len() == 0
                &&& next.image_uri == InvoiceState::blank(me, release).image_uri
                &&& next.proposed_wasm == state.proposed_wasm
                &&& next.keepers == state.keepers
                &&& next.debtors == state.debtors
                &&& next.invoices == state.invoices
                &&& next.disputes == state.disputes
                &&& next.private == state.private
                &&& next.funding == state.funding
                &&& next.sme_outstanding == state.sme_outstanding
                &&& next.sme_invoices == state.sme_invoices
                &&& next.timestamps == state.timestamps
                &&& next.renewals == state.renewals
                &&& next.events == state.events
            },
            Err(_) => true,
        },
        state.initialize(
            admin,
            pool,
            max_invoice_amount,
            expiration_duration_secs,
            grace_period_days,
        ) is Ok <==> {
            &&& !state.settings.initialized
            &&& max_invoice_amount > 0
            &&& 0 < expiration_duration_secs <= 315_360_000
            &&& grace_period_days <= 90
        },
{
}

} // verus!
