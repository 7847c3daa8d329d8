//! The limits and defaults of the invoice ledger.

use vstd::prelude::*;

verus! {

/// Ledgers that close in a day.
pub const LEDGERS_PER_DAY: u32 = 17_280;

/// How many ledgers the entry of an open invoice is kept for: a year.
pub const ACTIVE_INVOICE_TTL: u32 = LEDGERS_PER_DAY * 365;

/// How many ledgers the entry of a closed invoice is kept for unless the
/// administrator sets another number: five years, so that the history outlives
/// the invoice.
pub const DEFAULT_COMPLETED_INVOICE_TTL: u32 = LEDGERS_PER_DAY * 365 * 5;

/// Seconds in a day.
pub const SECS_PER_DAY: u64 = 86_400;

/// Delay between the proposal of an upgrade and the upgrade, by default.
pub const UPGRADE_TIMELOCK_SECS: u64 = 86_400;

/// The shortest delay that can be set for upgrades.
pub const MIN_UPGRADE_TIMELOCK_SECS: u64 = 3_600;

/// Delay between the proposal of a new administrator and the change.
pub const ADMIN_CHANGE_TIMELOCK_SECS: u64 = 172_800;

/// Invoices that an owner can create in any 24 hours, by default.
pub const MAX_INVOICES_PER_DAY: u32 = 10;

/// The largest number of invoices per 24 hours that can be set.
pub const MAX_DAILY_INVOICE_LIMIT: u32 = 1_000;

/// Days after the due date before an invoice is in default, by default.
pub const DEFAULT_GRACE_PERIOD_DAYS: u32 = 7;

/// The longest grace period, for all invoices and for one alike.
pub const MAX_GRACE_PERIOD_OVERRIDE_DAYS: u32 = 90;

/// How far ahead a due date can lie.
pub const MAX_DUE_DATE_AHEAD_SECS: u64 = SECS_PER_DAY * 365 * 30;

/// How long a pending invoice waits before it expires, by default.
pub const DEFAULT_EXPIRATION_DURATION_SECS: u64 = SECS_PER_DAY * 30;

/// The longest wait before a pending invoice expires that can be set.
pub const MAX_EXPIRATION_DURATION_SECS: u64 = SECS_PER_DAY * 365 * 10;

/// How long after the funding of an invoice a dispute can be raised, by default.
pub const DEFAULT_DISPUTE_RESOLUTION_WINDOW: u64 = SECS_PER_DAY * 30;

/// Bytes that a description can have.
pub const MAX_DESCRIPTION_LEN: usize = 256;

/// Bytes that the name of a debtor can have.
pub const MAX_DEBTOR_LEN: usize = 64;

/// Bytes that a verification hash can have.
pub const MAX_VERIFICATION_HASH_LEN: usize = 256;

/// Bytes that a metadata link can have.
pub const MAX_METADATA_URI_LEN: usize = 256;

/// How far ahead a due date has to lie, by default.
pub const DEFAULT_MIN_DUE_DATE_WINDOW_SECS: u64 = SECS_PER_DAY;

/// How far a due date can be moved behind the one the invoice was created with.
pub const MAX_DUE_DATE_EXTENSION_SECS: u64 = SECS_PER_DAY * 90;

/// How long an invoice waits for a verdict before its owner or the
/// administrator can cancel it: 72 hours.
pub const VERIFICATION_TIMEOUT_SECS: u64 = 72 * 60 * 60;

/// What the ledger charges for one entry and ledger.
pub const STROOPS_PER_LEDGER_PER_ENTRY: u64 = 1;

/// Ledgers that close in a month of 30 days.
pub const LEDGERS_PER_MONTH: u64 = 518_400;

/// Invoices that one cleanup can look at.
pub const MAX_CLEANUP_BATCH: u32 = 50;

/// The number of the migration that the code knows.
pub const CURRENT_MIGRATION_VERSION: u32 = 1;

} // verus!
