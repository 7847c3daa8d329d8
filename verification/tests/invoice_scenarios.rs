//! Requests to the invoice ledger, one scenario after the other.

use invoice_ledger::address::Address;
use invoice_ledger::collections::NumberList;
use invoice_ledger::invoice::constants::{
    ACTIVE_INVOICE_TTL, ADMIN_CHANGE_TIMELOCK_SECS, DEFAULT_EXPIRATION_DURATION_SECS,
    DEFAULT_GRACE_PERIOD_DAYS, LEDGERS_PER_DAY, LEDGERS_PER_MONTH, MAX_DEBTOR_LEN,
    MAX_DESCRIPTION_LEN, MAX_DUE_DATE_AHEAD_SECS, MAX_EXPIRATION_DURATION_SECS,
    MAX_VERIFICATION_HASH_LEN, MIN_UPGRADE_TIMELOCK_SECS, SECS_PER_DAY,
    STROOPS_PER_LEDGER_PER_ENTRY, UPGRADE_TIMELOCK_SECS,
};
use invoice_ledger::invoice::error::{InvoiceError, InvoiceFailure};
use invoice_ledger::invoice::state::InvoiceContract;
use invoice_ledger::invoice::types::{Clearance, InvoiceEvent, InvoiceStatus, Notice};
use invoice_ledger::invoice::version::parse_version;
use invoice_ledger::text::Text;
use soroban_sdk::testutils::EnvTestConfig;
use soroban_sdk::Env;
use std::cell::Cell;

/// A ledger with its clock, and the people around it.
struct Desk {
    env: Env,
    now: u64,
    people: Cell<u128>,
    ledger: InvoiceContract,
    /// What the pool says when it is asked whether an invoice was repaid.
    repaid: Option<bool>,
}

fn host() -> Env {
    let env = Env::new_with_config(EnvTestConfig { capture_snapshot_at_drop: false });
    env.cost_estimate().budget().reset_unlimited();
    env
}

fn blank(env: &Env) -> InvoiceContract {
    InvoiceContract::new(env.clone(), Address::contract(0, 1), parse_version(b"0.1.0"))
}

impl Desk {
    fn new() -> Desk {
        let env = host();
        let ledger = blank(&env);
        Desk { env, now: 0, people: Cell::new(0), ledger, repaid: Some(true) }
    }

    /// Starts over with a ledger that nobody has set up.
    fn fresh(&mut self) {
        self.ledger = blank(&self.env);
    }

    fn someone(&self) -> Address {
        self.people.set(self.people.get() + 1);
        Address::account(0, self.people.get())
    }

    fn numbers(&self, items: &[u64]) -> NumberList {
        let mut list = NumberList::new(&self.env);
        for item in items {
            list.push(*item);
        }
        list
    }

    /// A new ledger with its administrator and its pool, and an owner of invoices.
    fn setup(&mut self) -> (Address, Address, Address) {
        self.fresh();
        let (admin, pool, sme) = (self.someone(), self.someone(), self.someone());
        done(self.ledger.initialize(
            admin,
            pool,
            i128::MAX,
            DEFAULT_EXPIRATION_DURATION_SECS,
            90u32,
        ));
        (admin, pool, sme)
    }

    /// A new ledger with an invoice that was verified and funded.
    fn setup_funded_invoice(&mut self) -> (Address, Address, Address) {
        self.fresh();
        let (admin, pool, oracle) = (self.someone(), self.someone(), self.someone());
        let owner = self.someone();
        done(self.ledger.initialize(
            admin,
            pool,
            i128::MAX,
            DEFAULT_EXPIRATION_DURATION_SECS,
            DEFAULT_GRACE_PERIOD_DAYS,
        ));
        done(self.ledger.set_oracle(admin, oracle));
        let due_date = self.now + SECS_PER_DAY * 30;
        let id = done(self.create(
            owner,
            text("ACME Corp"),
            1_000_0000000i128,
            due_date,
            text("Test invoice"),
            text("hash"),
            text("https://example.com/meta"),
        ));
        done(self.ledger.verify_invoice(self.now, id, oracle, true, text(""), text("hash")));
        done(self.ledger.mark_funded(self.now, id, pool));
        (admin, pool, owner)
    }

    fn create(
        &mut self,
        owner: Address,
        debtor: Text,
        amount: i128,
        due_date: u64,
        description: Text,
        verification_hash: Text,
        metadata_url: Text,
    ) -> Result<u64, InvoiceFailure> {
        self.ledger.create_invoice(
            self.now,
            owner,
            debtor,
            amount,
            due_date,
            description,
            verification_hash,
            metadata_url,
            Clearance::Unavailable,
        )
    }

    fn make_invoice(&mut self, owner: Address, amount: i128) -> u64 {
        let due_date = self.now + 86_400;
        done(self.create(
            owner,
            text("Debtor"),
            amount,
            due_date,
            text("desc"),
            text("hash"),
            text("https://example.com/meta"),
        ))
    }
}

fn text(s: &str) -> Text {
    Text::from_slice(s.as_bytes())
}

fn same(a: &Text, s: &str) -> bool {
    a.as_slice() == s.as_bytes()
}

fn done<T>(result: Result<T, InvoiceFailure>) -> T {
    match result {
        Ok(value) => value,
        Err(InvoiceFailure::Objection(objection)) => panic!("{}", objection.message()),
        Err(failure) => panic!("{:?}", failure),
    }
}

fn refused<T>(error: InvoiceError) -> Result<T, InvoiceFailure> {
    Err(InvoiceFailure::Error(error))
}

fn status_ordinal(status: &InvoiceStatus) -> u8 {
    match status {
        InvoiceStatus::Pending => 0,
        InvoiceStatus::AwaitingVerification => 1,
        InvoiceStatus::Verified | InvoiceStatus::Disputed => 2,
        InvoiceStatus::Funded => 3,
        InvoiceStatus::Paid
        | InvoiceStatus::Defaulted
        | InvoiceStatus::Cancelled
        | InvoiceStatus::Expired => 4,
    }
}

#[test]
fn test_cleanup_expired_removes_paid_invoice() {
    let mut desk = Desk::new();
    let (admin, pool, sme) = desk.setup();
    let id = desk.make_invoice(sme, 1_000);
    done(desk.ledger.mark_funded(desk.now, id, pool));
    done(desk.ledger.mark_paid(desk.now, id, pool, desk.repaid));
    let ids = desk.numbers(&[id]);
    let removed = done(desk.ledger.cleanup_expired_storage(admin, &ids));
    assert_eq!(removed, 1);
    assert_eq!(desk.ledger.get_storage_stats().cleaned_invoices, 1);
}

#[test]
fn test_cleanup_expired_removes_cancelled_invoice() {
    let mut desk = Desk::new();
    let (admin, _pool, sme) = desk.setup();
    let id = desk.make_invoice(sme, 1_000);
    done(desk.ledger.cancel_invoice(desk.now, id, sme));
    let removed = done(desk.ledger.cleanup_expired_storage(admin, &desk.numbers(&[id])));
    assert_eq!(removed, 1);
}

#[test]
fn test_invoice_private_defaults_to_false_and_is_owner_only() {
    let mut desk = Desk::new();
    let (_admin, _pool, sme) = desk.setup();
    let id = desk.make_invoice(sme, 1_000);

    assert!(!desk.ledger.is_invoice_private(id));

    done(desk.ledger.set_invoice_private(id, sme, true));
    assert!(desk.ledger.is_invoice_private(id));

    done(desk.ledger.set_invoice_private(id, sme, false));
    assert!(!desk.ledger.is_invoice_private(id));

    let attacker = desk.someone();
    let result = desk.ledger.set_invoice_private(id, attacker, true);
    assert!(result.is_err());
}

#[test]
fn test_cleanup_expired_removes_defaulted_invoice() {
    let mut desk = Desk::new();
    desk.now = 100_000;
    let admin = desk.someone();
    let pool = desk.someone();
    let sme = desk.someone();
    done(desk.ledger.initialize(admin, pool, i128::MAX, DEFAULT_EXPIRATION_DURATION_SECS, 1u32));
    let due = desk.now + 86_400;
    let id = done(desk.create(
        sme,
        text("D"),
        1_000,
        due,
        text("d"),
        text("h"),
        text("https://example.com/meta"),
    ));
    done(desk.ledger.mark_funded(desk.now, id, pool));
    desk.now = due + 2 * 86_400;
    done(desk.ledger.mark_defaulted(desk.now, id, pool));
    let removed = done(desk.ledger.cleanup_expired_storage(admin, &desk.numbers(&[id])));
    assert_eq!(removed, 1);
    assert_eq!(desk.ledger.get_storage_stats().cleaned_invoices, 1);
}

#[test]
fn test_cleanup_expired_removes_expired_invoice() {
    let mut desk = Desk::new();
    desk.now = 100_000;
    let admin = desk.someone();
    let pool = desk.someone();
    let sme = desk.someone();
    done(desk.ledger.initialize(admin, pool, i128::MAX, 1u64, 90u32));
    let id = done(desk.create(
        sme,
        text("D"),
        1_000,
        desk.now + 86_400,
        text("d"),
        text("h"),
        text("https://example.com/meta"),
    ));
    desk.now += 2;
    assert!(done(desk.ledger.check_expiration(desk.now, id)));
    let inv = done(desk.ledger.get_invoice(id));
    assert_eq!(inv.status, InvoiceStatus::Expired);
    let removed = done(desk.ledger.cleanup_expired_storage(admin, &desk.numbers(&[id])));
    assert_eq!(removed, 1);
    assert_eq!(desk.ledger.get_storage_stats().cleaned_invoices, 1);
}

#[test]
fn test_cleanup_expired_skips_pending_invoice() {
    let mut desk = Desk::new();
    let (admin, _pool, sme) = desk.setup();
    let id = desk.make_invoice(sme, 1_000);
    let removed = done(desk.ledger.cleanup_expired_storage(admin, &desk.numbers(&[id])));
    assert_eq!(removed, 0);
    assert_eq!(done(desk.ledger.get_invoice(id)).status, InvoiceStatus::Pending);
    assert_eq!(desk.ledger.get_storage_stats().cleaned_invoices, 0);
}

#[test]
fn test_cleanup_expired_skips_funded_invoice() {
    let mut desk = Desk::new();
    let (admin, pool, sme) = desk.setup();
    let id = desk.make_invoice(sme, 1_000);
    done(desk.ledger.mark_funded(desk.now, id, pool));
    let removed = done(desk.ledger.cleanup_expired_storage(admin, &desk.numbers(&[id])));
    assert_eq!(removed, 0);
    assert_eq!(done(desk.ledger.get_invoice(id)).status, InvoiceStatus::Funded);
}

#[test]
fn test_cleanup_expired_mixed_batch_only_removes_terminal() {
    let mut desk = Desk::new();
    let (admin, pool, sme) = desk.setup();
    let id1 = desk.make_invoice(sme, 500);
    done(desk.ledger.mark_funded(desk.now, id1, pool));
    done(desk.ledger.mark_paid(desk.now, id1, pool, desk.repaid));
    let id2 = desk.make_invoice(sme, 500); // still pending
    let id3 = desk.make_invoice(sme, 500);
    done(desk.ledger.cancel_invoice(desk.now, id3, sme));
    let removed =
        done(desk.ledger.cleanup_expired_storage(admin, &desk.numbers(&[id1, id2, id3])));
    assert_eq!(removed, 2);
    assert_eq!(desk.ledger.get_storage_stats().cleaned_invoices, 2);
    assert_eq!(done(desk.ledger.get_invoice(id2)).status, InvoiceStatus::Pending);
}

#[test]
fn test_cleanup_expired_is_idempotent() {
    let mut desk = Desk::new();
    let (admin, pool, sme) = desk.setup();
    let id = desk.make_invoice(sme, 1_000);
    done(desk.ledger.mark_funded(desk.now, id, pool));
    done(desk.ledger.mark_paid(desk.now, id, pool, desk.repaid));
    let ids = desk.numbers(&[id]);
    let removed1 = done(desk.ledger.cleanup_expired_storage(admin, &ids));
    assert_eq!(removed1, 1);
    let removed2 = done(desk.ledger.cleanup_expired_storage(admin, &ids));
    assert_eq!(removed2, 0);
    assert_eq!(desk.ledger.get_storage_stats().cleaned_invoices, 1);
}

#[test]
#[should_panic(expected = "cleanup batch exceeds maximum")]
fn test_cleanup_expired_batch_too_large_panics() {
    let mut desk = Desk::new();
    let (admin, _pool, _sme) = desk.setup();
    let mut ids = desk.numbers(&[]);
    for i in 1u64..=51 {
        ids.push(i);
    }
    done(desk.ledger.cleanup_expired_storage(admin, &ids));
}

#[test]
fn test_estimate_storage_cost_zero_when_no_active_invoices() {
    let mut desk = Desk::new();
    let (_admin, _pool, _sme) = desk.setup();
    assert_eq!(desk.ledger.estimate_storage_cost(), 0u64);
}

#[test]
fn test_estimate_storage_cost_scales_with_active_invoices() {
    let mut desk = Desk::new();
    let (_admin, _pool, sme) = desk.setup();
    desk.make_invoice(sme, 1_000);
    desk.make_invoice(sme, 2_000);
    desk.make_invoice(sme, 3_000);
    let expected = 3u64 * STROOPS_PER_LEDGER_PER_ENTRY * LEDGERS_PER_MONTH;
    assert_eq!(desk.ledger.estimate_storage_cost(), expected);
}

#[test]
fn test_estimate_storage_cost_zero_after_all_invoices_paid_and_cleaned() {
    let mut desk = Desk::new();
    let (admin, pool, sme) = desk.setup();
    let id = desk.make_invoice(sme, 1_000);
    assert!(desk.ledger.estimate_storage_cost() > 0);
    done(desk.ledger.mark_funded(desk.now, id, pool));
    done(desk.ledger.mark_paid(desk.now, id, pool, desk.repaid));
    done(desk.ledger.cleanup_expired_storage(admin, &desk.numbers(&[id])));
    assert_eq!(desk.ledger.estimate_storage_cost(), 0u64);
}

#[test]
fn test_storage_stats_accurate_after_full_lifecycle_with_cleanup() {
    let mut desk = Desk::new();
    let (admin, pool, sme) = desk.setup();

    let id1 = desk.make_invoice(sme, 1_000);
    let id2 = desk.make_invoice(sme, 2_000);
    let id3 = desk.make_invoice(sme, 3_000);

    let s = desk.ledger.get_storage_stats();
    assert_eq!(s.total_invoices, 3);
    assert_eq!(s.active_invoices, 3);
    assert_eq!(s.cleaned_invoices, 0);

    done(desk.ledger.mark_funded(desk.now, id1, pool));
    done(desk.ledger.mark_paid(desk.now, id1, pool, desk.repaid));
    done(desk.ledger.cancel_invoice(desk.now, id2, sme));

    let s = desk.ledger.get_storage_stats();
    assert_eq!(s.active_invoices, 1); // id3 still pending

    done(desk.ledger.cleanup_expired_storage(admin, &desk.numbers(&[id1, id2])));
    let s = desk.ledger.get_storage_stats();
    assert_eq!(s.cleaned_invoices, 2);
    assert_eq!(s.total_invoices, 3);
    assert_eq!(s.active_invoices, 1);
    assert_eq!(done(desk.ledger.get_invoice(id3)).status, InvoiceStatus::Pending);
}

#[test]
fn test_create_and_fund_invoice() {
    let mut desk = Desk::new();
    let (_admin, pool, sme) = desk.setup();
    let hash = text("abc123");
    let id = done(desk.create(
        sme,
        text("ACME Corp"),
        1_000_000_000i128,
        desk.now + 2_592_000,
        text("Invoice #001 - Goods delivery"),
        hash.clone(),
        text("https://example.com/meta"),
    ));
    assert_eq!(id, 1);
    assert!(matches!(
        done(desk.ledger.get_invoice(id)).status,
        InvoiceStatus::Pending
    ));
    let meta = done(desk.ledger.get_metadata(id));
    assert_eq!(meta.status, InvoiceStatus::Pending);
    assert_eq!(meta.amount, 1_000_000_000i128);
    assert_eq!(meta.decimals, 7u32);
    assert!(same(&meta.symbol, "INV-1"));
    assert!(same(&meta.name, "Astera Invoice #1"));
    done(desk.ledger.mark_funded(desk.now, id, pool));
    assert_eq!(done(desk.ledger.get_invoice(id)).status, InvoiceStatus::Funded);
    done(desk.ledger.mark_paid(desk.now, id, pool, desk.repaid));
    assert_eq!(done(desk.ledger.get_invoice(id)).status, InvoiceStatus::Paid);
}

#[test]
fn test_create_invoice_zero_amount_returns_invalid_amount() {
    let mut desk = Desk::new();
    let (_admin, _pool, sme) = desk.setup();
    let result = desk.create(
        sme,
        text("X"),
        0i128,
        desk.now + 1,
        text("d"),
        text("h"),
        text("https://example.com/meta"),
    );
    assert_eq!(result, refused(InvoiceError::InvalidAmount));
}

#[test]
fn test_create_invoice_negative_amount_returns_invalid_amount() {
    let mut desk = Desk::new();
    let (_admin, _pool, sme) = desk.setup();
    let result = desk.create(
        sme,
        text("X"),
        -1i128,
        desk.now + 1,
        text("d"),
        text("h"),
        text("https://example.com/meta"),
    );
    assert_eq!(result, refused(InvoiceError::InvalidAmount));
}

#[test]
fn test_create_invoice_past_due_date_returns_invalid_due_date() {
    let mut desk = Desk::new();
    desk.now = 1_000_000;
    let (_admin, _pool, sme) = desk.setup();
    let result = desk.create(
        sme,
        text("X"),
        100i128,
        999_999,
        text("d"),
        text("h"),
        text("https://example.com/meta"),
    );
    assert_eq!(result, refused(InvoiceError::InvalidDueDate));
}

#[test]
fn test_create_invoice_due_date_overflow_returns_error() {
    let mut desk = Desk::new();
    let (_admin, _pool, sme) = desk.setup();
    let result = desk.create(
        sme,
        text("X"),
        100i128,
        u64::MAX,
        text("d"),
        text("h"),
        text("https://example.com/meta"),
    );
    assert_eq!(result, refused(InvoiceError::DateOverflow));
}

#[test]
fn test_create_invoice_due_date_far_in_future_returns_error() {
    let mut desk = Desk::new();
    desk.now = 1_000_000;
    let (_admin, _pool, sme) = desk.setup();
    let due_date = desk.now + MAX_DUE_DATE_AHEAD_SECS + 1;
    let result = desk.create(
        sme,
        text("X"),
        100i128,
        due_date,
        text("d"),
        text("h"),
        text("https://example.com/meta"),
    );
    assert_eq!(result, refused(InvoiceError::DateOverflow));
}

#[test]
#[should_panic(expected = "unauthorized pool")]
fn test_mark_funded_unauthorized_pool_panics() {
    let mut desk = Desk::new();
    let (_admin, _pool, sme) = desk.setup();
    let id = done(desk.create(
        sme,
        text("D"),
        1_000i128,
        desk.now + 86_400,
        text("x"),
        text("h"),
        text("https://example.com/meta"),
    ));
    done(desk.ledger.mark_funded(desk.now, id, desk.someone()));
}

#[test]
#[should_panic(expected = "invoice is not in fundable state")]
fn test_mark_funded_already_funded_panics() {
    let mut desk = Desk::new();
    let (_admin, pool, sme) = desk.setup();
    let id = done(desk.create(
        sme,
        text("D"),
        1_000i128,
        desk.now + 86_400,
        text("x"),
        text("h"),
        text("https://example.com/meta"),
    ));
    done(desk.ledger.mark_funded(desk.now, id, pool));
    done(desk.ledger.mark_funded(desk.now, id, pool));
}

#[test]
fn test_mark_funded_overflow_returns_amount_overflow() {
    let mut desk = Desk::new();
    let (_admin, pool, sme) = desk.setup();
    desk.now = 1000;
    let due_date = desk.now + 86_400;

    let first = done(desk.create(
        sme,
        text("D"),
        i128::MAX,
        due_date,
        text("x"),
        text("h1"),
        text("https://example.com/meta"),
    ));
    done(desk.ledger.mark_funded(desk.now, first, pool));

    let second = done(desk.create(
        sme,
        text("D"),
        1i128,
        due_date,
        text("x"),
        text("h2"),
        text("https://example.com/meta"),
    ));
    let result = desk.ledger.mark_funded(desk.now, second, pool);

    assert_eq!(result, refused(InvoiceError::AmountOverflow));
}

#[test]
fn test_record_funding_partial_accumulates() {
    let mut desk = Desk::new();
    desk.now = 1000;
    let (_admin, pool, sme) = desk.setup();
    let due = desk.now + 86_400;
    let id = done(desk.create(
        sme,
        text("D"),
        1_000i128,
        due,
        text("x"),
        text("h"),
        text("https://example.com/meta"),
    ));
    // Two partial fundings: 300 + 200 = 500
    done(desk.ledger.record_funding(desk.now, id, 300i128, pool));
    assert_eq!(done(desk.ledger.get_invoice(id)).funded_amount, 300);
    done(desk.ledger.record_funding(desk.now, id, 200i128, pool));
    assert_eq!(done(desk.ledger.get_invoice(id)).funded_amount, 500);
    // Status should be Funded after first call
    assert_eq!(done(desk.ledger.get_invoice(id)).status, InvoiceStatus::Funded);
}

#[test]
fn test_record_funding_full_amount_single() {
    let mut desk = Desk::new();
    desk.now = 1000;
    let (_admin, pool, sme) = desk.setup();
    let due = desk.now + 86_400;
    let id = done(desk.create(
        sme,
        text("D"),
        1_000i128,
        due,
        text("x"),
        text("h"),
        text("https://example.com/meta"),
    ));
    done(desk.ledger.record_funding(desk.now, id, 1_000i128, pool));
    assert_eq!(done(desk.ledger.get_invoice(id)).funded_amount, 1_000);
    assert_eq!(done(desk.ledger.get_invoice(id)).status, InvoiceStatus::Funded);
}

#[test]
fn test_record_funding_checked_add_overflow() {
    let mut desk = Desk::new();
    desk.now = 1000;
    let (_admin, pool, sme) = desk.setup();
    let due = desk.now + 86_400;
    let id = done(desk.create(
        sme,
        text("D"),
        i128::MAX,
        due,
        text("x"),
        text("h"),
        text("https://example.com/meta"),
    ));
    // Fund with i128::MAX: funded_amount goes to i128::MAX
    done(desk.ledger.record_funding(desk.now, id, i128::MAX, pool));
    // Second partial funding of 1 must overflow
    let result = desk.ledger.record_funding(desk.now, id, 1i128, pool);
    assert_eq!(result, refused(InvoiceError::AmountOverflow));
}

#[test]
fn test_add_funding_accumulates_across_calls() {
    let mut desk = Desk::new();
    let (_admin, pool, sme) = desk.setup();
    desk.now = 1000;
    let due_date = desk.now + 86_400;

    let id = done(desk.create(
        sme,
        text("D"),
        1_000i128,
        due_date,
        text("x"),
        text("h"),
        text("https://example.com/meta"),
    ));

    // First partial funding
    done(desk.ledger.add_funding(id, 300i128, pool));
    assert_eq!(desk.ledger.get_funded_amount(id), 300i128);

    // Second partial funding
    done(desk.ledger.add_funding(id, 200i128, pool));
    assert_eq!(desk.ledger.get_funded_amount(id), 500i128);

    // Invoice should still be in Pending state (not fully funded yet)
    let inv = done(desk.ledger.get_invoice(id));
    assert!(inv.status == InvoiceStatus::Pending || inv.status == InvoiceStatus::Verified);
}

#[test]
fn test_add_funding_rejects_overfunding() {
    let mut desk = Desk::new();
    let (_admin, pool, sme) = desk.setup();
    desk.now = 1000;
    let due_date = desk.now + 86_400;

    let id = done(desk.create(
        sme,
        text("D"),
        500i128,
        due_date,
        text("x"),
        text("h"),
        text("https://example.com/meta"),
    ));

    // Fund full amount (500)
    done(desk.ledger.add_funding(id, 500i128, pool));
    assert_eq!(desk.ledger.get_funded_amount(id), 500i128);

    // Try to overfund: must fail
    let result = desk.ledger.add_funding(id, 1i128, pool);
    assert!(result.is_err());
}

#[test]
fn test_add_funding_updates_after_each_call() {
    let mut desk = Desk::new();
    let (_admin, pool, sme) = desk.setup();
    desk.now = 1000;
    let due_date = desk.now + 86_400;

    let id = done(desk.create(
        sme,
        text("D"),
        1_000i128,
        due_date,
        text("x"),
        text("h"),
        text("https://example.com/meta"),
    ));

    // After first funding, get_funded_amount returns 300
    done(desk.ledger.add_funding(id, 300i128, pool));
    assert_eq!(desk.ledger.get_funded_amount(id), 300i128);

    // After second funding, get_funded_amount returns 500
    done(desk.ledger.add_funding(id, 200i128, pool));
    assert_eq!(desk.ledger.get_funded_amount(id), 500i128);
}

#[test]
fn test_daily_invoice_limit_enforced() {
    let mut desk = Desk::new();
    desk.now = 1_000_000;
    let (_admin, _pool, sme) = desk.setup();
    let due = desk.now + 86_400;
    for _ in 0..10 {
        done(desk.create(
            sme,
            text("D"),
            100i128,
            due,
            text("i"),
            text("h"),
            text("https://example.com/meta"),
        ));
    }
}

#[test]
fn test_sliding_window_full_quota_available_after_24_hours() {
    let mut desk = Desk::new();
    // Sliding window: invoices older than 86 400 s no longer count against
    // the limit, so a full new quota is available after one window passes.
    desk.now = 1_000_000;
    let (_admin, _pool, sme) = desk.setup();
    let due = |now: u64| now + 86_400;

    // Exhaust the daily limit at t=1_000_000.
    for _ in 0..10 {
        done(desk.create(
            sme,
            text("D"),
            100i128,
            due(desk.now),
            text("i"),
            text("h"),
            text("https://example.com/meta"),
        ));
    }

    // Advance exactly 86 401 s: window_start = 1_086_401 - 86_400 = 1_000_001,
    // so all earlier timestamps (1_000_000) fall outside the window.
    desk.now = 1_086_401;

    // A full quota of 10 should be available again.
    for _ in 0..10 {
        done(desk.create(
            sme,
            text("D"),
            100i128,
            due(desk.now),
            text("i"),
            text("h"),
            text("https://example.com/meta"),
        ));
    }
}

#[test]
fn test_midnight_boundary_exploit_blocked() {
    let mut desk = Desk::new();

    // Start 60 s before UTC midnight (ts = 86_340).
    desk.now = 86_340;
    let (_admin, _pool, sme) = desk.setup();
    let due = |now: u64| now + 86_400;

    // Batch 1: exhaust the full daily quota just before midnight.
    for _ in 0..10 {
        done(desk.create(
            sme,
            text("D"),
            100i128,
            due(desk.now),
            text("i"),
            text("h"),
            text("https://example.com/meta"),
        ));
    }

    // Advance 60 s past midnight: still inside the 86 400 s window
    // (window_start = 86_460 - 86_400 = 60; ts=86_340 > 60, so still counted).
    desk.now = 86_460;

    // The 11th invoice must be rejected even though the calendar day changed.
    let result = desk.create(
        sme,
        text("D"),
        100i128,
        due(desk.now),
        text("i"),
        text("h"),
        text("https://example.com/meta"),
    );
    assert_eq!(result, refused(InvoiceError::RateLimitExceeded));
}

#[test]
fn test_daily_invoice_limit_exceeded_returns_error() {
    let mut desk = Desk::new();
    desk.now = 1_000_000;
    let (_admin, _pool, sme) = desk.setup();
    let due = desk.now + 86_400;
    for _ in 0..10 {
        done(desk.create(
            sme,
            text("D"),
            100i128,
            due,
            text("i"),
            text("h"),
            text("https://example.com/meta"),
        ));
    }

    let result = desk.create(
        sme,
        text("D"),
        100i128,
        due,
        text("i"),
        text("h"),
        text("https://example.com/meta"),
    );
    assert_eq!(result, refused(InvoiceError::RateLimitExceeded));
}

#[test]
fn test_daily_reset_after_gap_provides_clean_window() {
    let mut desk = Desk::new();
    // SME who hasn't submitted for 5 days gets a clean 24-hour window:
    // the 5-day-old timestamp is well outside the 86 400 s sliding window
    // so a full new quota of 10 is available.
    desk.now = 1_000_000;
    let (_admin, _pool, sme) = desk.setup();
    let due = desk.now + 86_400;

    // Create 1 invoice at t=1_000_000.
    done(desk.create(
        sme,
        text("D"),
        100i128,
        due,
        text("i"),
        text("h"),
        text("https://example.com/meta"),
    ));

    // Jump forward 5 days (432_000 s): window_start = 1_432_000 - 86_400 = 1_345_600,
    // the earlier timestamp 1_000_000 is outside the window.
    let new_timestamp = desk.now + (5 * 86_400u64);
    desk.now = new_timestamp;

    // Full quota of 10 must be available.
    for _ in 0..10 {
        done(desk.create(
            sme,
            text("D"),
            100i128,
            new_timestamp + 86_400,
            text("i"),
            text("h"),
            text("https://example.com/meta"),
        ));
    }
}

#[test]
fn test_pause_and_unpause() {
    let mut desk = Desk::new();
    let (admin, _pool, _sme) = desk.setup();

    done(desk.ledger.pause(desk.now, admin));
    assert!(desk.ledger.is_paused());
    let pause_ts = desk.now;
    let mut paused_event = None;
    for event in desk.ledger.events.take_all() {
        if let InvoiceEvent::Notice(Notice::Paused { admin, at }) = event {
            paused_event = Some((admin, at));
        }
    }
    let (event_admin, event_ts) = paused_event.expect("paused event not emitted");
    assert_eq!(event_admin, admin);
    assert_eq!(event_ts, pause_ts);

    done(desk.ledger.unpause(desk.now, admin));
    assert!(!desk.ledger.is_paused());
}

#[test]
fn test_pause_non_admin_returns_typed_unauthorized() {
    let mut desk = Desk::new();
    let (_admin, _pool, _sme) = desk.setup();
    let attacker = desk.someone();

    let result = desk.ledger.pause(desk.now, attacker);

    assert_eq!(result, refused(InvoiceError::Unauthorized));
}

#[test]
fn test_unpause_non_admin_returns_typed_unauthorized() {
    let mut desk = Desk::new();
    let (admin, _pool, _sme) = desk.setup();
    let attacker = desk.someone();

    done(desk.ledger.pause(desk.now, admin));
    let result = desk.ledger.unpause(desk.now, attacker);

    assert_eq!(result, refused(InvoiceError::Unauthorized));
}

#[test]
fn test_create_invoice_while_paused_returns_typed_contract_paused() {
    let mut desk = Desk::new();
    let (admin, _pool, sme) = desk.setup();
    done(desk.ledger.pause(desk.now, admin));
    let result = desk.create(
        sme,
        text("D"),
        1_000i128,
        desk.now + 86_400,
        text("x"),
        text("h"),
        text("https://example.com/meta"),
    );
    assert_eq!(result, refused(InvoiceError::ContractPaused));
}

#[test]
#[should_panic(expected = "repayment not verified by pool contract")]
fn test_mark_paid_without_pool_verification_panics() {
    let mut desk = Desk::new();
    desk.repaid = Some(false);
    let pool_id = desk.someone();
    let admin = desk.someone();
    let sme = desk.someone();
    done(desk.ledger.initialize(
        admin,
        pool_id,
        i128::MAX,
        DEFAULT_EXPIRATION_DURATION_SECS,
        90u32,
    ));
    let id = done(desk.create(
        sme,
        text("D"),
        1_000i128,
        desk.now + 86_400,
        text("x"),
        text("h"),
        text("https://example.com/meta"),
    ));
    done(desk.ledger.mark_funded(desk.now, id, pool_id));
    done(desk.ledger.mark_paid(desk.now, id, pool_id, desk.repaid));
}

#[test]
fn test_get_invoice_does_not_expire_pending_invoice() {
    let mut desk = Desk::new();
    desk.now = 100_000;
    let admin = desk.someone();
    let pool = desk.someone();
    let sme = desk.someone();
    done(desk.ledger.initialize(admin, pool, i128::MAX, 10u64, 90u32));
    let id = done(desk.create(
        sme,
        text("D"),
        1_000i128,
        desk.now + 86_400,
        text("x"),
        text("h"),
        text("https://example.com/meta"),
    ));
    desk.now += 11;
    assert_eq!(done(desk.ledger.get_invoice(id)).status, InvoiceStatus::Pending);
    assert_eq!(done(desk.ledger.get_metadata(id)).status, InvoiceStatus::Pending);
}

#[test]
fn test_check_expiration_expires_pending_invoice() {
    let mut desk = Desk::new();
    desk.now = 100_000;
    let admin = desk.someone();
    let pool = desk.someone();
    let sme = desk.someone();
    done(desk.ledger.initialize(admin, pool, i128::MAX, 10u64, 90u32));
    let id = done(desk.create(
        sme,
        text("D"),
        1_000i128,
        desk.now + 86_400,
        text("x"),
        text("h"),
        text("https://example.com/meta"),
    ));
    desk.now += 11;
    assert!(done(desk.ledger.check_expiration(desk.now, id)));
    assert_eq!(done(desk.ledger.get_invoice(id)).status, InvoiceStatus::Expired);
}

#[test]
fn test_set_expiration_duration_rejects_above_max() {
    let mut desk = Desk::new();
    desk.now = 100_000;
    let admin = desk.someone();
    let pool = desk.someone();
    done(desk.ledger.initialize(admin, pool, i128::MAX, 10u64, 90u32));

    let result =
        desk.ledger.set_expiration_duration(admin, MAX_EXPIRATION_DURATION_SECS + 1);
    assert!(result.is_err());
}

#[test]
fn test_set_expiration_duration_allows_max() {
    let mut desk = Desk::new();
    desk.now = 100_000;
    let admin = desk.someone();
    let pool = desk.someone();
    done(desk.ledger.initialize(admin, pool, i128::MAX, 10u64, 90u32));

    done(desk.ledger.set_expiration_duration(admin, MAX_EXPIRATION_DURATION_SECS));
    assert_eq!(
        desk.ledger.get_expiration_duration(),
        MAX_EXPIRATION_DURATION_SECS
    );
}

#[test]
fn test_initialize_rejects_expiration_duration_above_max() {
    let mut desk = Desk::new();
    desk.now = 100_000;
    let admin = desk.someone();
    let pool = desk.someone();

    let result = desk.ledger.initialize(
        admin,
        pool,
        i128::MAX,
        MAX_EXPIRATION_DURATION_SECS + 1,
        90u32,
    );
    assert!(result.is_err());
}

#[test]
fn test_set_expiration_duration_default_is_below_max() {
    assert!(DEFAULT_EXPIRATION_DURATION_SECS <= MAX_EXPIRATION_DURATION_SECS);
}

#[test]
fn test_invoice_with_override_uses_override_grace_period() {
    let mut desk = Desk::new();
    let (admin, _pool, _owner) = desk.setup_funded_invoice();
    done(desk.ledger.set_invoice_grace_period(admin, 1u64, 14u32));
    assert_eq!(done(desk.ledger.get_invoice_grace_period(1u64)), 14);
}

#[test]
fn test_default_warning_uses_invoice_override_grace_period() {
    let mut desk = Desk::new();
    let (admin, _pool, _owner) = desk.setup_funded_invoice();
    let id = 1u64;
    done(desk.ledger.set_invoice_grace_period(admin, id, 14u32));
    let due = done(desk.ledger.get_invoice(id)).due_date;

    desk.now = due + (13 * SECS_PER_DAY) + (SECS_PER_DAY / 2);

    assert!(done(desk.ledger.check_default_warning(desk.now, id)));
}

#[test]
fn test_mark_defaulted_respects_invoice_override_grace_period() {
    let mut desk = Desk::new();
    let (admin, pool, _owner) = desk.setup_funded_invoice();
    let id = 1u64;
    done(desk.ledger.set_invoice_grace_period(admin, id, 14u32));
    let due = done(desk.ledger.get_invoice(id)).due_date;

    desk.now = due + (8 * SECS_PER_DAY);
    assert!(desk.ledger.mark_defaulted(desk.now, id, pool).is_err());

    desk.now = due + (15 * SECS_PER_DAY);
    done(desk.ledger.mark_defaulted(desk.now, id, pool));
    assert_eq!(done(desk.ledger.get_invoice(id)).status, InvoiceStatus::Defaulted);
}

#[test]
fn test_keeper_can_mark_defaulted_after_grace_period() {
    let mut desk = Desk::new();
    let (admin, _pool, _owner) = desk.setup_funded_invoice();
    let keeper = desk.someone();
    done(desk.ledger.add_keeper(admin, keeper));
    assert_eq!(desk.ledger.list_keepers().len(), 1);
    assert_eq!(desk.ledger.list_keepers().get(0), Some(keeper));

    let id = 1u64;
    let due = done(desk.ledger.get_invoice(id)).due_date;
    desk.now = due + (DEFAULT_GRACE_PERIOD_DAYS as u64 + 1) * SECS_PER_DAY;

    done(desk.ledger.mark_defaulted(desk.now, id, keeper));
    assert_eq!(done(desk.ledger.get_invoice(id)).status, InvoiceStatus::Defaulted);
}

#[test]
fn test_non_keeper_cannot_mark_defaulted() {
    let mut desk = Desk::new();
    let (_admin, _pool, _owner) = desk.setup_funded_invoice();
    let stranger = desk.someone();

    let id = 1u64;
    let due = done(desk.ledger.get_invoice(id)).due_date;
    desk.now = due + (DEFAULT_GRACE_PERIOD_DAYS as u64 + 1) * SECS_PER_DAY;

    let result = desk.ledger.mark_defaulted(desk.now, id, stranger);
    assert_eq!(result, refused(InvoiceError::Unauthorized));
}

#[test]
fn test_removed_keeper_cannot_mark_defaulted() {
    let mut desk = Desk::new();
    let (admin, _pool, _owner) = desk.setup_funded_invoice();
    let keeper = desk.someone();
    done(desk.ledger.add_keeper(admin, keeper));
    done(desk.ledger.remove_keeper(admin, keeper));
    assert_eq!(desk.ledger.list_keepers().len(), 0);

    let id = 1u64;
    let due = done(desk.ledger.get_invoice(id)).due_date;
    desk.now = due + (DEFAULT_GRACE_PERIOD_DAYS as u64 + 1) * SECS_PER_DAY;

    let result = desk.ledger.mark_defaulted(desk.now, id, keeper);
    assert_eq!(result, refused(InvoiceError::Unauthorized));
}

#[test]
fn test_add_keeper_non_admin_returns_typed_unauthorized() {
    let mut desk = Desk::new();
    let (_admin, _pool, _sme) = desk.setup();
    let attacker = desk.someone();
    let keeper = desk.someone();
    let result = desk.ledger.add_keeper(attacker, keeper);
    assert_eq!(result, refused(InvoiceError::Unauthorized));
}

#[test]
#[should_panic(expected = "exceeds maximum")]
fn test_override_exceeds_max_days_panics() {
    let mut desk = Desk::new();
    let (admin, _pool, _owner) = desk.setup_funded_invoice();
    // Cap is 90 days: 91 must panic
    done(desk.ledger.set_invoice_grace_period(admin, 1u64, 91u32));
}

#[test]
fn test_set_invoice_grace_period_at_max_succeeds() {
    let mut desk = Desk::new();
    let (admin, _pool, _owner) = desk.setup_funded_invoice();
    // Exactly 90 days must be accepted (same cap as set_grace_period)
    done(desk.ledger.set_invoice_grace_period(admin, 1u64, 90u32));
    assert_eq!(done(desk.ledger.get_invoice_grace_period(1u64)), 90);
}

#[test]
fn test_set_invoice_grace_period_missing_invoice_returns_typed_error() {
    let mut desk = Desk::new();
    let (admin, _pool, _owner) = desk.setup_funded_invoice();
    let result = desk.ledger.set_invoice_grace_period(admin, 999u64, 14u32);
    assert_eq!(result, refused(InvoiceError::InvoiceNotFound));
}

#[test]
#[should_panic(expected = "grace period cannot exceed 90 days")]
fn test_set_grace_period_exceeds_max_panics() {
    let mut desk = Desk::new();
    let (admin, _pool, _sme) = desk.setup();
    done(desk.ledger.set_grace_period(admin, 91u32));
}

#[test]
fn test_set_grace_period_at_max_succeeds() {
    let mut desk = Desk::new();
    let (admin, _pool, _sme) = desk.setup();
    done(desk.ledger.set_grace_period(admin, 90u32));
    assert_eq!(desk.ledger.get_grace_period(), 90);
}

#[test]
fn test_create_invoice_empty_description_rejected() {
    let mut desk = Desk::new();
    let (_admin, _pool, sme) = desk.setup();
    let result = desk.create(
        sme,
        text("Debtor Corp"),
        1_000i128,
        desk.now + 86_400,
        text(""),
        text("hash"),
        text("https://example.com/meta"),
    );
    assert_eq!(result, refused(InvoiceError::EmptyDescription));
}

#[test]
fn test_create_invoice_description_at_max_succeeds() {
    let mut desk = Desk::new();
    let (_admin, _pool, sme) = desk.setup();
    let max_desc = Text::new(vec![b'a'; MAX_DESCRIPTION_LEN]);
    let id = done(desk.create(
        sme,
        text("Debtor Corp"),
        1_000i128,
        desk.now + 86_400,
        max_desc.clone(),
        text("hash"),
        text("https://example.com/meta"),
    ));
    assert_eq!(id, 1);
}

#[test]
fn test_create_invoice_description_too_long_rejected() {
    let mut desk = Desk::new();
    let (_admin, _pool, sme) = desk.setup();
    let long_desc = Text::new(vec![b'a'; MAX_DESCRIPTION_LEN + 1]);
    let result = desk.create(
        sme,
        text("Debtor Corp"),
        1_000i128,
        desk.now + 86_400,
        long_desc.clone(),
        text("hash"),
        text("https://example.com/meta"),
    );
    assert_eq!(result, refused(InvoiceError::DescriptionTooLong));
}

#[test]
fn test_create_invoice_description_with_script_tag_rejected() {
    let mut desk = Desk::new();
    let (_admin, _pool, sme) = desk.setup();
    let result = desk.create(
        sme,
        text("Debtor Corp"),
        1_000i128,
        desk.now + 86_400,
        text("<script>alert(document.cookie)</script>"),
        text("hash"),
        text("https://example.com/meta"),
    );
    assert_eq!(result, refused(InvoiceError::InvalidDescriptionChars));
}

#[test]
fn test_create_invoice_description_with_img_onerror_rejected() {
    let mut desk = Desk::new();
    let (_admin, _pool, sme) = desk.setup();
    let result = desk.create(
        sme,
        text("Debtor Corp"),
        1_000i128,
        desk.now + 86_400,
        text("<img src=x onerror=alert(1)>"),
        text("hash"),
        text("https://example.com/meta"),
    );
    assert_eq!(result, refused(InvoiceError::InvalidDescriptionChars));
}

#[test]
fn test_create_invoice_description_with_quotes_and_ampersand_rejected() {
    let mut desk = Desk::new();
    let (_admin, _pool, sme) = desk.setup();
    for bad in ["He said \"hi\"", "It's ready", "Rock & Roll"] {
        let result = desk.create(
            sme,
            text("Debtor Corp"),
            1_000i128,
            desk.now + 86_400,
            text(bad),
            text("hash"),
            text("https://example.com/meta"),
        );
        assert_eq!(result, refused(InvoiceError::InvalidDescriptionChars));
    }
}

#[test]
fn test_create_invoice_plain_description_succeeds() {
    let mut desk = Desk::new();
    let (_admin, _pool, sme) = desk.setup();
    let id = done(desk.create(
        sme,
        text("Debtor Corp"),
        1_000i128,
        desk.now + 86_400,
        text("Consulting services rendered in Q2 2026."),
        text("hash"),
        text("https://example.com/meta"),
    ));
    assert_eq!(id, 1);
}

#[test]
fn test_create_invoice_debtor_at_max_succeeds() {
    let mut desk = Desk::new();
    let (_admin, _pool, sme) = desk.setup();
    let max_debtor = Text::new(vec![b'd'; MAX_DEBTOR_LEN]);
    let id = done(desk.create(
        sme,
        max_debtor.clone(),
        1_000i128,
        desk.now + 86_400,
        text("Valid description"),
        text("hash"),
        text("https://example.com/meta"),
    ));
    assert_eq!(id, 1);
}

#[test]
fn test_create_invoice_debtor_too_long_rejected() {
    let mut desk = Desk::new();
    let (_admin, _pool, sme) = desk.setup();
    let long_debtor = Text::new(vec![b'd'; MAX_DEBTOR_LEN + 1]);
    let result = desk.create(
        sme,
        long_debtor.clone(),
        1_000i128,
        desk.now + 86_400,
        text("Valid description"),
        text("hash"),
        text("https://example.com/meta"),
    );
    assert_eq!(result, refused(InvoiceError::DebtorNameTooLong));
}

#[test]
fn test_create_invoice_empty_debtor_rejected() {
    let mut desk = Desk::new();
    let (_admin, _pool, sme) = desk.setup();
    let result = desk.create(
        sme,
        text(""),
        1_000i128,
        desk.now + 86_400,
        text("Valid description"),
        text("hash"),
        text("https://example.com/meta"),
    );
    assert_eq!(result, refused(InvoiceError::EmptyDebtorName));
}

#[test]
fn test_create_invoice_empty_hash_rejected() {
    let mut desk = Desk::new();
    let (_admin, _pool, sme) = desk.setup();
    let result = desk.create(
        sme,
        text("Debtor Corp"),
        1_000i128,
        desk.now + 86_400,
        text("Valid description"),
        text(""),
        text("https://example.com/meta"),
    );
    assert_eq!(result, refused(InvoiceError::InvalidVerificationHash));
}

#[test]
fn test_create_invoice_hash_too_long_rejected() {
    let mut desk = Desk::new();
    let (_admin, _pool, sme) = desk.setup();
    let long_hash = Text::new(vec![b'h'; MAX_VERIFICATION_HASH_LEN + 1]);
    let result = desk.create(
        sme,
        text("Debtor Corp"),
        1_000i128,
        desk.now + 86_400,
        text("Valid description"),
        long_hash.clone(),
        text("https://example.com/meta"),
    );
    assert_eq!(result, refused(InvoiceError::VerificationHashTooLong));
}

#[test]
fn test_create_invoice_valid_fields_succeeds() {
    let mut desk = Desk::new();
    let (_admin, _pool, sme) = desk.setup();
    let id = done(desk.create(
        sme,
        text("Debtor Corp"),
        1_000i128,
        desk.now + 86_400,
        text("Valid description"),
        text("hash123"),
        text("https://example.com/meta"),
    ));
    assert_eq!(id, 1);
}

#[test]
fn test_set_grace_period_emits_event() {
    let mut desk = Desk::new();
    let (admin, _pool, _sme) = desk.setup();
    done(desk.ledger.set_grace_period(admin, 14u32));
    assert_eq!(desk.ledger.get_grace_period(), 14);
}

#[test]
fn test_set_grace_period_records_old_and_new_values() {
    let mut desk = Desk::new();
    let (admin, _pool, _sme) = desk.setup();
    done(desk.ledger.set_grace_period(admin, 10u32));
    done(desk.ledger.set_grace_period(admin, 20u32));
    assert_eq!(desk.ledger.get_grace_period(), 20);
}

#[test]
fn test_set_dispute_window_emits_event() {
    let mut desk = Desk::new();
    let (admin, _pool, _sme) = desk.setup();
    let new_window = SECS_PER_DAY * 14;
    done(desk.ledger.set_dispute_window(admin, new_window));
    assert_eq!(desk.ledger.get_dispute_window(), new_window);
}

#[test]
fn test_create_invoice_metadata_url_stored_and_returned() {
    let mut desk = Desk::new();
    let (_admin, _pool, sme) = desk.setup();
    let url = text("https://example.com/invoice/1");
    let id = done(desk.create(
        sme,
        text("Debtor Corp"),
        1_000i128,
        desk.now + 86_400,
        text("Valid description"),
        text("hash123"),
        url.clone(),
    ));
    let invoice = done(desk.ledger.get_invoice(id));
    assert!(invoice.metadata_uri.as_ref().unwrap().equals(&url));
}

#[test]
fn test_create_invoice_empty_metadata_url_rejected() {
    let mut desk = Desk::new();
    let (_admin, _pool, sme) = desk.setup();
    let result = desk.create(
        sme,
        text("Debtor Corp"),
        1_000i128,
        desk.now + 86_400,
        text("Valid description"),
        text("hash123"),
        text(""),
    );
    assert_eq!(result, refused(InvoiceError::InvalidMetadata));
}

#[test]
fn test_create_invoice_different_urls_per_invoice() {
    let mut desk = Desk::new();
    let (_admin, _pool, sme) = desk.setup();
    let url1 = text("https://example.com/invoice/1");
    let url2 = text("https://example.com/invoice/2");
    let id1 = done(desk.create(
        sme,
        text("Debtor"),
        1_000i128,
        desk.now + 86_400,
        text("desc"),
        text("h1"),
        url1.clone(),
    ));
    let id2 = done(desk.create(
        sme,
        text("Debtor"),
        1_000i128,
        desk.now + 86_400,
        text("desc"),
        text("h2"),
        url2.clone(),
    ));
    assert!(done(desk.ledger.get_invoice(id1)).metadata_uri.as_ref().unwrap().equals(&url1));
    assert!(done(desk.ledger.get_invoice(id2)).metadata_uri.as_ref().unwrap().equals(&url2));
}

#[test]
fn test_completed_ttl_default_is_five_years() {
    let mut desk = Desk::new();
    let (_admin, _pool, _sme) = desk.setup();
    // Default should be 5 years in ledgers
    let expected = LEDGERS_PER_DAY * 365 * 5;
    assert_eq!(desk.ledger.get_completed_invoice_ttl(), expected);
}

#[test]
fn test_set_completed_invoice_ttl_admin_can_configure() {
    let mut desk = Desk::new();
    let (admin, _pool, _sme) = desk.setup();
    // Set to 2 years
    let two_years = LEDGERS_PER_DAY * 365 * 2;
    done(desk.ledger.set_completed_invoice_ttl(admin, two_years));
    assert_eq!(desk.ledger.get_completed_invoice_ttl(), two_years);
}

#[test]
#[should_panic(expected = "completed TTL must be at least as long as ACTIVE_INVOICE_TTL")]
fn test_set_completed_ttl_below_active_ttl_panics() {
    let mut desk = Desk::new();
    let (admin, _pool, _sme) = desk.setup();
    // Try to set TTL shorter than ACTIVE_INVOICE_TTL (1 year)
    let too_short = LEDGERS_PER_DAY * 30; // 30 days: less than 1 year
    done(desk.ledger.set_completed_invoice_ttl(admin, too_short));
}

#[test]
fn test_completed_ttl_at_least_as_long_as_active_ttl() {
    let mut desk = Desk::new();
    let (_admin, _pool, _sme) = desk.setup();
    let completed_ttl = desk.ledger.get_completed_invoice_ttl();
    assert!(
        completed_ttl >= ACTIVE_INVOICE_TTL,
        "completed TTL ({}) must be >= active TTL ({})",
        completed_ttl,
        ACTIVE_INVOICE_TTL
    );
}

#[test]
fn test_prop_forward_only_transitions() {
    let mut desk = Desk::new();
    desk.now = 1_000_000;

    let mut seed: u64 = 0x5EED_F00D_0000_0001;
    let lcg = |s: &mut u64| -> u64 {
        *s = s
            .wrapping_mul(6364136223846793005)
            .wrapping_add(1442695040888963407);
        *s
    };

    for trial in 0..50u64 {
        let (_admin, pool, sme) = desk.setup();
        let due = desk.now + 86_400;
        let id = done(desk.create(
            sme,
            text("Debtor"),
            1_000_000i128,
            due,
            text("desc"),
            text("hash"),
            text("https://example.com/meta"),
        ));

        let mut last_ord = status_ordinal(&InvoiceStatus::Pending);
        let actions = (lcg(&mut seed) % 6 + 2) as u32; // 2..=7 actions per trial

        for _ in 0..actions {
            let inv = done(desk.ledger.get_invoice(id));
            let cur = status_ordinal(&inv.status);
            assert!(
                cur >= last_ord,
                "trial {}: state regressed from ordinal {} to {}",
                trial,
                last_ord,
                cur
            );
            last_ord = cur;

            if cur >= 4 {
                break;
            }

            match (cur, lcg(&mut seed) % 5) {
                (0, 0) => {
                    // Pending -> Funded (no oracle configured in setup())
                    let _ = desk.ledger.mark_funded(desk.now, id, pool);
                }
                (2, 0) | (3, 0) => {
                    let _ = desk.ledger.mark_paid(desk.now, id, pool, desk.repaid);
                }
                (2, 1) | (3, 1) => {
                    // Advance past grace period to allow default
                    let grace: u32 = desk.ledger.get_grace_period();
                    desk.now = due + grace as u64 * 86_400 + 1;
                    let _ = desk.ledger.mark_defaulted(desk.now, id, pool);
                }
                (0..=2, 3) => {
                    let _ = desk.ledger.cancel_invoice(desk.now, id, sme);
                }
                _ => {}
            }
        }
    }
}

#[test]
fn test_prop_terminal_absorbing() {
    let mut desk = Desk::new();
    desk.now = 1_000_000;

    let mut seed: u64 = 0x00C0_FFEE_0000_0002;
    let lcg = |s: &mut u64| -> u64 {
        *s = s
            .wrapping_mul(6364136223846793005)
            .wrapping_add(1442695040888963407);
        *s
    };

    for trial in 0..30u64 {
        // Setup with short grace period for default testing
        desk.fresh();
        let admin = desk.someone();
        let pool = desk.someone();
        let sme = desk.someone();
        done(desk.ledger.initialize(admin, pool, i128::MAX, 86_400u64, 1u32));

        let due = desk.now + 86_400;
        let id = done(desk.create(
            sme,
            text("D"),
            1_000i128,
            due,
            text("d"),
            text("h"),
            text("https://example.com/meta"),
        ));

        // Randomly reach a terminal state
        let path = lcg(&mut seed) % 4;
        match path {
            0 => {
                // Paid
                done(desk.ledger.mark_funded(desk.now, id, pool));
                done(desk.ledger.mark_paid(desk.now, id, pool, desk.repaid));
            }
            1 => {
                // Defaulted
                done(desk.ledger.mark_funded(desk.now, id, pool));
                desk.now = due + 86_400 + 1;
                done(desk.ledger.mark_defaulted(desk.now, id, pool));
            }
            2 => {
                // Cancelled
                done(desk.ledger.cancel_invoice(desk.now, id, sme));
            }
            _ => {
                // Expired
                desk.now += 86_400 + 1;
                done(desk.ledger.check_expiration(desk.now, id));
            }
        }

        let terminal = done(desk.ledger.get_invoice(id));
        let terminal_status = terminal.status.clone();
        assert!(
            status_ordinal(&terminal_status) >= 4,
            "trial {}: expected terminal state, got {:?}",
            trial,
            terminal_status
        );

        // Try random actions: state must remain terminal
        for _ in 0..5 {
            let action = lcg(&mut seed) % 4;
            match action {
                0 => {
                    let _ = desk.ledger.mark_funded(desk.now, id, pool);
                }
                1 => {
                    let _ = desk.ledger.mark_paid(desk.now, id, pool, desk.repaid);
                }
                2 => {
                    let _ = desk.ledger.mark_defaulted(desk.now, id, pool);
                }
                _ => {
                    let _ = desk.ledger.cancel_invoice(desk.now, id, sme);
                }
            }
            let inv = done(desk.ledger.get_invoice(id));
            assert_eq!(
                inv.status, terminal_status,
                "trial {}: terminal state {:?} changed to {:?}",
                trial, terminal_status, inv.status
            );
        }
    }
}

#[test]
fn test_prop_funded_determinism() {
    let mut desk = Desk::new();
    desk.now = 1_000_000;

    let mut seed: u64 = 0xABBA_BABA_0000_0003;
    let lcg = |s: &mut u64| -> u64 {
        *s = s
            .wrapping_mul(6364136223846793005)
            .wrapping_add(1442695040888963407);
        *s
    };

    for trial in 0..30u64 {
        let (_admin, pool, sme) = desk.setup();
        let due = desk.now + 86_400;
        let id = done(desk.create(
            sme,
            text("D"),
            1_000i128,
            due,
            text("d"),
            text("h"),
            text("https://example.com/meta"),
        ));

        done(desk.ledger.mark_funded(desk.now, id, pool));
        assert_eq!(done(desk.ledger.get_invoice(id)).status, InvoiceStatus::Funded);

        // cancel_invoice must fail on Funded
        let cancel_result = desk.ledger.cancel_invoice(desk.now, id, sme);
        assert!(
            cancel_result.is_err(),
            "trial {}: cancel_invoice should fail on Funded",
            trial
        );
        assert_eq!(done(desk.ledger.get_invoice(id)).status, InvoiceStatus::Funded);

        // mark_funded must fail on already Funded
        let double_fund = desk.ledger.mark_funded(desk.now, id, pool);
        assert!(
            double_fund.is_err(),
            "trial {}: mark_funded should fail on Funded",
            trial
        );

        // Now try the valid path (Paid or Defaulted)
        let goto = lcg(&mut seed) % 2;
        match goto {
            0 => {
                done(desk.ledger.mark_paid(desk.now, id, pool, desk.repaid));
                assert_eq!(done(desk.ledger.get_invoice(id)).status, InvoiceStatus::Paid);
            }
            _ => {
                let grace: u32 = desk.ledger.get_grace_period();
                desk.now = due + grace as u64 * 86_400 + 1;
                done(desk.ledger.mark_defaulted(desk.now, id, pool));
                assert_eq!(done(desk.ledger.get_invoice(id)).status, InvoiceStatus::Defaulted);
            }
        }
    }
}

#[test]
fn test_prop_pending_expires() {
    let mut desk = Desk::new();
    desk.now = 1_000_000;

    let mut seed: u64 = 0xBAD_CAFE_0000_0004;
    let lcg = |s: &mut u64| -> u64 {
        *s = s
            .wrapping_mul(6364136223846793005)
            .wrapping_add(1442695040888963407);
        *s
    };

    for _ in 0..20u64 {
        desk.fresh();
        let admin = desk.someone();
        let pool = desk.someone();
        let sme = desk.someone();
        let expiration_secs = lcg(&mut seed) % 100 + 1; // 1..=100 sec
        done(desk.ledger.initialize(admin, pool, i128::MAX, expiration_secs, 90u32));

        let id = done(desk.create(
            sme,
            text("D"),
            1_000i128,
            desk.now + 86_400,
            text("d"),
            text("h"),
            text("https://example.com/meta"),
        ));

        // Initially Pending
        assert_eq!(done(desk.ledger.get_invoice(id)).status, InvoiceStatus::Pending);

        // Jump past expiration
        desk.now += expiration_secs + 1;

        // Explicit expiration check transitions the invoice.
        done(desk.ledger.check_expiration(desk.now, id));
        assert_eq!(done(desk.ledger.get_invoice(id)).status, InvoiceStatus::Expired);
    }
}

#[test]
fn test_set_oracle_emits_event_with_old_and_new() {
    let mut desk = Desk::new();
    let (admin, _pool, _sme) = desk.setup();
    let oracle1 = desk.someone();
    let oracle2 = desk.someone();
    done(desk.ledger.set_oracle(admin, oracle1));
    done(desk.ledger.set_oracle(admin, oracle2));
    let _ = desk.ledger.get_expiration_duration(); // ensure no panic
}

#[test]
fn test_set_daily_invoice_limit_emits_event() {
    let mut desk = Desk::new();
    let (admin, _pool, _sme) = desk.setup();
    done(desk.ledger.set_daily_invoice_limit(admin, 5u32));
    assert_eq!(desk.ledger.get_daily_invoice_limit(), 5);
    done(desk.ledger.set_daily_invoice_limit(admin, 20u32));
    assert_eq!(desk.ledger.get_daily_invoice_limit(), 20);
}

#[test]
fn test_set_max_invoice_amount_emits_event() {
    let mut desk = Desk::new();
    let (admin, _pool, _sme) = desk.setup();
    let new_max = 5_000_000_000i128;
    done(desk.ledger.set_max_invoice_amount(admin, new_max));
    assert_eq!(done(desk.ledger.get_max_invoice_amount()), new_max);
}

#[test]
fn test_set_expiration_duration_emits_event() {
    let mut desk = Desk::new();
    let (admin, _pool, _sme) = desk.setup();
    let new_duration = SECS_PER_DAY * 60;
    done(desk.ledger.set_expiration_duration(admin, new_duration));
    assert_eq!(desk.ledger.get_expiration_duration(), new_duration);
}

#[test]
fn test_upgrade_timelock_default_is_24h() {
    let mut desk = Desk::new();
    let (_admin, _pool, _sme) = desk.setup();
    assert_eq!(desk.ledger.get_upgrade_timelock(), UPGRADE_TIMELOCK_SECS);
}

#[test]
fn test_set_upgrade_timelock_admin_can_configure() {
    let mut desk = Desk::new();
    let (admin, _pool, _sme) = desk.setup();
    let new_timelock = 7_200u64; // 2 hours
    done(desk.ledger.set_upgrade_timelock(admin, new_timelock));
    assert_eq!(desk.ledger.get_upgrade_timelock(), new_timelock);
}

#[test]
fn test_set_upgrade_timelock_below_minimum_rejected() {
    let mut desk = Desk::new();
    let (admin, _pool, _sme) = desk.setup();
    let result = desk.ledger.set_upgrade_timelock(admin, MIN_UPGRADE_TIMELOCK_SECS - 1);
    assert_eq!(result, refused(InvoiceError::InvalidUpgradeTimelock));
}

#[test]
fn test_set_upgrade_timelock_at_minimum_succeeds() {
    let mut desk = Desk::new();
    let (admin, _pool, _sme) = desk.setup();
    done(desk.ledger.set_upgrade_timelock(admin, MIN_UPGRADE_TIMELOCK_SECS));
    assert_eq!(desk.ledger.get_upgrade_timelock(), MIN_UPGRADE_TIMELOCK_SECS);
}

#[test]
fn test_execute_upgrade_before_custom_timelock_fails() {
    let mut desk = Desk::new();
    desk.now = 1_000_000;
    let (admin, _pool, _sme) = desk.setup();
    let custom_timelock = 7_200u64; // 2 hours
    done(desk.ledger.set_upgrade_timelock(admin, custom_timelock));

    let hash = [1u8; 32];
    done(desk.ledger.propose_upgrade(desk.now, admin, &hash));

    // Advance time but NOT past the 2-hour timelock
    desk.now += 3_600;
    let result = desk.ledger.execute_upgrade(desk.now, admin);
    assert_eq!(
        result.unwrap_err(),
        InvoiceFailure::Error(InvoiceError::UpgradeTimelockNotExpired)
    );
}

#[test]
fn test_execute_upgrade_after_custom_timelock_succeeds() {
    let mut desk = Desk::new();
    desk.now = 1_000_000;
    let (admin, _pool, _sme) = desk.setup();
    done(desk.ledger.set_upgrade_timelock(admin, 7_200u64));

    let hash = [1u8; 32];
    done(desk.ledger.propose_upgrade(desk.now, admin, &hash));

    // Advance past the 2-hour timelock
    desk.now += 7_201;
    assert!(desk.ledger.execute_upgrade(desk.now, admin).is_ok());
}

#[test]
fn test_propose_upgrade_zero_hash_rejected() {
    let mut desk = Desk::new();
    let (admin, _pool, _sme) = desk.setup();
    let zero_hash = [0u8; 32];
    let result = desk.ledger.propose_upgrade(desk.now, admin, &zero_hash);
    assert!(result.is_err());
}

#[test]
fn test_propose_upgrade_nonzero_hash_accepted() {
    let mut desk = Desk::new();
    let (admin, _pool, _sme) = desk.setup();
    let valid_hash = [1u8; 32];
    done(desk.ledger.propose_upgrade(desk.now, admin, &valid_hash));
}

#[test]
fn test_propose_admin_change_stores_pending() {
    let mut desk = Desk::new();
    desk.now = 1_000_000;
    let (admin, _pool, _sme) = desk.setup();
    let new_admin = desk.someone();
    done(desk.ledger.propose_admin_change(desk.now, admin, new_admin));
}

#[test]
fn test_finalize_admin_change_before_timelock_fails() {
    let mut desk = Desk::new();
    desk.now = 1_000_000;
    let (admin, _pool, _sme) = desk.setup();
    let new_admin = desk.someone();
    done(desk.ledger.propose_admin_change(desk.now, admin, new_admin));
    // Try to finalize immediately: should fail
    let result = desk.ledger.finalize_admin_change(desk.now, admin);
    assert_eq!(result, refused(InvoiceError::AdminChangeTimelockNotExpired));
}

#[test]
fn test_finalize_admin_change_after_timelock_succeeds() {
    let mut desk = Desk::new();
    desk.now = 1_000_000;
    let (admin, _pool, _sme) = desk.setup();
    let new_admin = desk.someone();
    done(desk.ledger.propose_admin_change(desk.now, admin, new_admin));
    // Advance time past the 48-hour timelock
    desk.now += ADMIN_CHANGE_TIMELOCK_SECS + 1;
    done(desk.ledger.finalize_admin_change(desk.now, admin));
    // Verify that the new admin can now perform admin operations
    let oracle = desk.someone();
    done(desk.ledger.set_oracle(new_admin, oracle));
}

#[test]
fn test_cancel_admin_change_removes_pending() {
    let mut desk = Desk::new();
    desk.now = 1_000_000;
    let (admin, _pool, _sme) = desk.setup();
    let new_admin = desk.someone();
    done(desk.ledger.propose_admin_change(desk.now, admin, new_admin));
    done(desk.ledger.cancel_admin_change(admin));
    // After cancel, finalize should fail with NoAdminChangeProposed
    let result = desk.ledger.finalize_admin_change(desk.now, admin);
    assert_eq!(result, refused(InvoiceError::NoAdminChangeProposed));
}

#[test]
fn test_finalize_without_proposal_fails() {
    let mut desk = Desk::new();
    let (admin, _pool, _sme) = desk.setup();
    let result = desk.ledger.finalize_admin_change(desk.now, admin);
    assert_eq!(result, refused(InvoiceError::NoAdminChangeProposed));
}

#[test]
fn test_cancel_without_proposal_fails() {
    let mut desk = Desk::new();
    let (admin, _pool, _sme) = desk.setup();
    let result = desk.ledger.cancel_admin_change(admin);
    assert_eq!(result, refused(InvoiceError::NoAdminChangeProposed));
}

#[test]
fn test_extension_happy_path() {
    let mut desk = Desk::new();
    desk.now = 1_000;
    let (admin, pool, sme) = desk.setup();
    let id = desk.make_invoice(sme, 1_000);
    done(desk.ledger.mark_funded(desk.now, id, pool));

    let invoice = done(desk.ledger.get_invoice(id));
    let current_due_date = invoice.due_date;
    let new_due = current_due_date + 10 * 86_400; // 10 days extension

    // Request extension
    done(desk.ledger.request_extension(desk.now, id, sme, new_due));
    let invoice = done(desk.ledger.get_invoice(id));
    assert_eq!(invoice.pending_due_date, Some(new_due));

    // Approve extension by admin
    done(desk.ledger.approve_extension(desk.now, id, admin));
    let invoice = done(desk.ledger.get_invoice(id));
    assert_eq!(invoice.due_date, new_due);
    assert_eq!(invoice.pending_due_date, None);
}

#[test]
fn test_extension_too_large_fails() {
    let mut desk = Desk::new();
    desk.now = 1_000;
    let (_admin, pool, sme) = desk.setup();
    let id = desk.make_invoice(sme, 1_000);
    done(desk.ledger.mark_funded(desk.now, id, pool));

    let invoice = done(desk.ledger.get_invoice(id));
    let current_due_date = invoice.due_date;
    // MAX_DUE_DATE_EXTENSION_SECS is 90 days. Request 91 days.
    let new_due = current_due_date + 91 * 86_400;

    let result = desk.ledger.request_extension(desk.now, id, sme, new_due);
    assert_eq!(result, refused(InvoiceError::ExtensionTooLarge));
}

#[test]
fn test_extension_double_request_fails() {
    let mut desk = Desk::new();
    desk.now = 1_000;
    let (_admin, pool, sme) = desk.setup();
    let id = desk.make_invoice(sme, 1_000);
    done(desk.ledger.mark_funded(desk.now, id, pool));

    let invoice = done(desk.ledger.get_invoice(id));
    let current_due_date = invoice.due_date;
    let new_due1 = current_due_date + 10 * 86_400;
    let new_due2 = current_due_date + 20 * 86_400;

    done(desk.ledger.request_extension(desk.now, id, sme, new_due1));
    let result = desk.ledger.request_extension(desk.now, id, sme, new_due2);
    assert_eq!(result, refused(InvoiceError::ExtensionAlreadyPending));
}

#[test]
fn test_approve_no_pending_extension_fails() {
    let mut desk = Desk::new();
    desk.now = 1_000;
    let (admin, pool, sme) = desk.setup();
    let id = desk.make_invoice(sme, 1_000);
    done(desk.ledger.mark_funded(desk.now, id, pool));

    let result = desk.ledger.approve_extension(desk.now, id, admin);
    assert_eq!(result, refused(InvoiceError::NoPendingExtension));
}

#[test]
fn test_debtor_exposure_accumulates_across_invoices() {
    let mut desk = Desk::new();
    desk.now = 1_000;
    let (admin, _pool, sme) = desk.setup();

    // Enable debtor registry
    done(desk.ledger.set_require_registered_debtor(admin, true));

    let debtor_id = text("debtor-123");
    let debtor_name = text("Test Debtor");
    let max_exposure = 5_000i128;

    // Register debtor with max_exposure of 5000
    done(desk.ledger.register_debtor(admin, debtor_id.clone(), debtor_name.clone(), max_exposure));

    // Create first invoice for 2000
    let _id1 = done(desk.ledger.create_invoice_with_metadata(
        desk.now,
        sme,
        debtor_id.clone(),
        2_000i128,
        desk.now + 86_400 * 30,
        text("Invoice 1"),
        text("hash1"),
        None,
        Clearance::Unavailable,
    ));

    // Verify exposure is now 2000
    let debtor1 = done(desk.ledger.get_debtor(&debtor_id));
    assert_eq!(debtor1.current_exposure, 2_000);

    // Create second invoice for 2500
    let _id2 = done(desk.ledger.create_invoice_with_metadata(
        desk.now,
        sme,
        debtor_id.clone(),
        2_500i128,
        desk.now + 86_400 * 30,
        text("Invoice 2"),
        text("hash2"),
        None,
        Clearance::Unavailable,
    ));

    // Verify exposure is now 4500
    let debtor2 = done(desk.ledger.get_debtor(&debtor_id));
    assert_eq!(debtor2.current_exposure, 4_500);

    // Third invoice for 1000 should exceed max_exposure (4500 + 1000 = 5500 > 5000)
    let result = desk.ledger.create_invoice_with_metadata(
        desk.now,
        sme,
        debtor_id.clone(),
        1_000i128,
        desk.now + 86_400 * 30,
        text("Invoice 3"),
        text("hash3"),
        None,
        Clearance::Unavailable,
    );
    assert!(result.is_err());
}

#[test]
fn test_debtor_exposure_decrements_on_payment() {
    let mut desk = Desk::new();
    desk.now = 1_000;
    let (admin, pool, sme) = desk.setup();

    done(desk.ledger.set_require_registered_debtor(admin, true));

    let debtor_id = text("debtor-456");
    let debtor_name = text("Test Debtor 2");
    let max_exposure = 5_000i128;

    done(desk.ledger.register_debtor(admin, debtor_id.clone(), debtor_name.clone(), max_exposure));

    let id = done(desk.ledger.create_invoice_with_metadata(
        desk.now,
        sme,
        debtor_id.clone(),
        3_000i128,
        desk.now + 86_400 * 30,
        text("Invoice"),
        text("hash"),
        None,
        Clearance::Unavailable,
    ));

    // Verify exposure is 3000
    let debtor_before = done(desk.ledger.get_debtor(&debtor_id));
    assert_eq!(debtor_before.current_exposure, 3_000);

    // Mark invoice as funded and paid
    done(desk.ledger.mark_funded(desk.now, id, pool));
    done(desk.ledger.mark_paid(desk.now, id, pool, desk.repaid));

    // Verify exposure is now 0
    let debtor_after = done(desk.ledger.get_debtor(&debtor_id));
    assert_eq!(debtor_after.current_exposure, 0);
}

#[test]
fn test_deactivated_debtor_cannot_receive_invoices() {
    let mut desk = Desk::new();
    desk.now = 1_000;
    let (admin, _pool, sme) = desk.setup();

    done(desk.ledger.set_require_registered_debtor(admin, true));

    let debtor_id = text("debtor-789");
    let debtor_name = text("Test Debtor 3");

    done(desk.ledger.register_debtor(admin, debtor_id.clone(), debtor_name.clone(), 10_000i128));

    // Deactivate the debtor
    done(desk.ledger.deactivate_debtor(admin, debtor_id.clone()));

    // Attempt to create invoice for deactivated debtor should fail
    let result = desk.ledger.create_invoice_with_metadata(
        desk.now,
        sme,
        debtor_id.clone(),
        1_000i128,
        desk.now + 86_400 * 30,
        text("Invoice"),
        text("hash"),
        None,
        Clearance::Unavailable,
    );
    assert!(result.is_err());
}
