//! What the invoice ledger allows and refuses, and the numbers that it computes.

use invoice_ledger::address::Address;
use invoice_ledger::arith::{saturating_difference, saturating_sum};
use invoice_ledger::collections::NumberList;
use invoice_ledger::invoice::constants::{
    ACTIVE_INVOICE_TTL, DEFAULT_COMPLETED_INVOICE_TTL, MAX_DUE_DATE_AHEAD_SECS,
};
use invoice_ledger::invoice::decimal::{concat_prefix_u64, write_u64_decimal};
use invoice_ledger::invoice::error::{InvoiceError, InvoiceFailure, Objection};
use invoice_ledger::invoice::rules::{
    is_safe_description, is_valid_metadata_uri, validate_invoice_strings,
};
use invoice_ledger::invoice::state::InvoiceContract;
use invoice_ledger::invoice::types::{
    Clearance, DisputeResolution, DueDateCall, Invoice, InvoiceEvent, InvoiceStatus, Notice, Renewal,
};
use invoice_ledger::invoice::version::{parse_version, ContractVersion};
use invoice_ledger::outcome::Trap;
use invoice_ledger::text::Text;
use soroban_sdk::testutils::EnvTestConfig;
use soroban_sdk::Env;

const DAY: u64 = 86_400;
const NOW: u64 = 1_000_000;

fn admin() -> Address {
    Address::account(0, 1)
}

fn pool() -> Address {
    Address::contract(0, 2)
}

fn oracle() -> Address {
    Address::account(0, 3)
}

fn owner() -> Address {
    Address::account(0, 4)
}

fn stranger() -> Address {
    Address::account(0, 5)
}

fn access_control() -> Address {
    Address::contract(0, 6)
}

fn text(s: &str) -> Text {
    Text::from_slice(s.as_bytes())
}

fn error<T>(e: InvoiceError) -> Result<T, InvoiceFailure> {
    Err(InvoiceFailure::Error(e))
}

fn objection<T>(o: Objection) -> Result<T, InvoiceFailure> {
    Err(InvoiceFailure::Objection(o))
}

fn blank() -> InvoiceContract {
    let env = Env::new_with_config(EnvTestConfig { capture_snapshot_at_drop: false });
    env.cost_estimate().budget().reset_unlimited();
    InvoiceContract::new(env, Address::contract(0, 9), parse_version(b"1.2.3"))
}

fn ledger() -> InvoiceContract {
    let mut ledger = blank();
    ledger.initialize(admin(), pool(), 1_000_000, 30 * DAY, 7).unwrap();
    ledger
}

fn ledger_with_oracle() -> InvoiceContract {
    let mut ledger = ledger();
    ledger.set_oracle(admin(), oracle()).unwrap();
    ledger
}

fn create(ledger: &mut InvoiceContract, amount: i128, due_date: u64) -> Result<u64, InvoiceFailure> {
    ledger.create_invoice_with_metadata(
        NOW,
        owner(),
        text("debtor"),
        amount,
        due_date,
        text("goods"),
        text("hash"),
        None,
        Clearance::Unavailable,
    )
}

fn invoice(ledger: &mut InvoiceContract) -> u64 {
    create(ledger, 1_000, NOW + 10 * DAY).unwrap()
}

fn funded(ledger: &mut InvoiceContract) -> u64 {
    let id = invoice(ledger);
    ledger.mark_funded(NOW, id, pool()).unwrap();
    id
}

fn defaulted(ledger: &mut InvoiceContract) -> u64 {
    let id = funded(ledger);
    ledger.mark_defaulted(NOW + 17 * DAY, id, pool()).unwrap();
    id
}

fn get(ledger: &InvoiceContract, id: u64) -> &Invoice {
    ledger.get_invoice(id).unwrap()
}

fn status(ledger: &InvoiceContract, id: u64) -> InvoiceStatus {
    get(ledger, id).status
}

fn numbers(ledger: &InvoiceContract, items: &[u64]) -> NumberList {
    let mut list = NumberList::new(&ledger.env);
    for item in items {
        list.push(*item);
    }
    list
}

fn notices(ledger: &mut InvoiceContract) -> Vec<Notice> {
    let mut notices = Vec::new();
    for event in ledger.events.take_all() {
        if let InvoiceEvent::Notice(notice) = event {
            notices.push(notice);
        }
    }
    notices
}

#[test]
fn numbers_are_written_in_decimal() {
    let mut buf = [0u8; 20];
    assert_eq!(write_u64_decimal(&mut buf, 0), 1);
    assert_eq!(&buf[..1], b"0");
    assert_eq!(write_u64_decimal(&mut buf, 1_203), 4);
    assert_eq!(&buf[..4], b"1203");
    assert_eq!(write_u64_decimal(&mut buf, u64::MAX), 20);
    assert_eq!(&buf[..], b"18446744073709551615");
    assert_eq!(concat_prefix_u64(b"INV-", 42), b"INV-42".to_vec());
    assert_eq!(concat_prefix_u64(b"", 7), b"7".to_vec());
}

#[test]
fn versions_are_read_from_text() {
    let version = |major: u32, minor: u32, patch: u32| ContractVersion { major, minor, patch };
    assert_eq!(parse_version(b"1.4.2"), version(1, 4, 2));
    assert_eq!(parse_version(b"1.4.2-beta"), version(1, 4, 2));
    assert_eq!(parse_version(b"10.0"), version(10, 0, 0));
    assert_eq!(parse_version(b""), version(0, 0, 0));
    assert_eq!(parse_version(b"x.3.4294967296"), version(0, 3, 0));
    assert_eq!(parse_version(b"+1.2.4294967295"), version(1, 2, u32::MAX));
}

#[test]
fn sums_stay_in_range() {
    assert_eq!(saturating_sum(i128::MAX, 1), i128::MAX);
    assert_eq!(saturating_sum(i128::MIN, -1), i128::MIN);
    assert_eq!(saturating_sum(3, -5), -2);
    assert_eq!(saturating_difference(i128::MIN, 1), i128::MIN);
    assert_eq!(saturating_difference(i128::MAX, -1), i128::MAX);
    assert_eq!(saturating_difference(3, 5), -2);
}

#[test]
fn links_lead_to_three_kinds_of_places() {
    assert!(is_valid_metadata_uri(&text("ipfs://x")));
    assert!(is_valid_metadata_uri(&text("ar://")));
    assert!(is_valid_metadata_uri(&text("https://a")));
    assert!(!is_valid_metadata_uri(&text("http://a")));
    assert!(!is_valid_metadata_uri(&text("ipfs:/")));
    assert!(!is_valid_metadata_uri(&text("")));
    let mut long = b"ar://".to_vec();
    long.resize(256, b'a');
    assert!(is_valid_metadata_uri(&Text::from_slice(&long)));
    long.push(b'a');
    assert!(!is_valid_metadata_uri(&Text::from_slice(&long)));
}

#[test]
fn descriptions_are_plain() {
    assert!(is_safe_description(&text("Plain text, 100% ~ [ok] #1;")));
    for bad in ["a<b", "a>b", "a&b", "a\"b", "a'b", "a\nb", "tab\t", "\u{7f}"] {
        assert!(!is_safe_description(&text(bad)));
    }
    assert!(!is_safe_description(&Text::new(vec![200])));
    assert_eq!(validate_invoice_strings(&text("d"), &text("x"), &text("h")), Ok(()));
    // The first thing that is wrong counts.
    assert_eq!(
        validate_invoice_strings(&text(""), &text(""), &text("")),
        Err(InvoiceError::EmptyDebtorName)
    );
}

#[test]
fn a_ledger_is_set_up_once() {
    let mut ledger = blank();
    assert_eq!(ledger.get_authorized_pool(), objection(Objection::NotInitialized));
    assert_eq!(ledger.get_max_invoice_amount(), objection(Objection::MaxAmountNotSet));
    assert_eq!(create(&mut ledger, 5, NOW + 2 * DAY), objection(Objection::MaxAmountNotSet));
    assert_eq!(ledger.pause(NOW, admin()), objection(Objection::NotInitialized));
    assert_eq!(
        ledger.initialize(admin(), pool(), 0, 1, 1),
        objection(Objection::MaxAmountNotPositive)
    );
    assert_eq!(
        ledger.initialize(admin(), pool(), 1, 0, 1),
        objection(Objection::ExpirationZero)
    );
    assert_eq!(
        ledger.initialize(admin(), pool(), 1, u64::MAX, 1),
        error(InvoiceError::ArithmeticOverflow)
    );
    assert_eq!(
        ledger.initialize(admin(), pool(), 1, 1, 91),
        objection(Objection::GracePeriodTooLong)
    );
    ledger.initialize(admin(), pool(), 1, 1, 90).unwrap();
    assert_eq!(
        ledger.initialize(admin(), pool(), 1, 1, 90),
        error(InvoiceError::AlreadyInitialized)
    );
    assert_eq!(ledger.get_authorized_pool(), Ok(pool()));
    assert_eq!(ledger.version(), ContractVersion { major: 1, minor: 2, patch: 3 });
}

#[test]
fn due_dates_have_limits() {
    let mut ledger = ledger();
    assert_eq!(create(&mut ledger, 5, NOW), error(InvoiceError::InvalidDueDate));
    assert_eq!(create(&mut ledger, 5, NOW + DAY - 1), error(InvoiceError::DueDateTooSoon));
    assert_eq!(create(&mut ledger, 5, NOW + DAY), Ok(1));
    assert_eq!(create(&mut ledger, 5, NOW + MAX_DUE_DATE_AHEAD_SECS), Ok(2));
    assert_eq!(
        create(&mut ledger, 5, NOW + MAX_DUE_DATE_AHEAD_SECS + 1),
        error(InvoiceError::DateOverflow)
    );
    ledger.set_min_due_date_window(admin(), 5 * DAY).unwrap();
    assert_eq!(ledger.get_min_due_date_window(), 5 * DAY);
    assert_eq!(create(&mut ledger, 5, NOW + 5 * DAY - 1), error(InvoiceError::DueDateTooSoon));
    ledger.set_min_due_date_window(admin(), u64::MAX).unwrap();
    assert_eq!(create(&mut ledger, 5, NOW + 5 * DAY), error(InvoiceError::DateOverflow));
}

#[test]
fn amounts_have_limits() {
    let mut ledger = ledger();
    assert_eq!(create(&mut ledger, 0, NOW + DAY), error(InvoiceError::InvalidAmount));
    assert_eq!(
        create(&mut ledger, 1_000_001, NOW + DAY),
        objection(Objection::AmountExceedsMaximum)
    );
    assert_eq!(create(&mut ledger, 1_000_000, NOW + DAY), Ok(1));
    assert_eq!(
        ledger.set_max_invoice_amount(admin(), 0),
        objection(Objection::MaxAmountNotPositive)
    );
}

#[test]
fn owners_have_a_limit() {
    let mut ledger = ledger();
    assert_eq!(
        ledger.set_max_sme_outstanding(admin(), 0),
        objection(Objection::MaxOutstandingNotPositive)
    );
    ledger.set_max_sme_outstanding(admin(), 1_500).unwrap();
    let first = invoice(&mut ledger);
    let second = invoice(&mut ledger);
    ledger.mark_funded(NOW, first, pool()).unwrap();
    assert_eq!(ledger.get_sme_outstanding(owner()), 1_000);
    assert_eq!(
        ledger.mark_funded(NOW, second, pool()),
        error(InvoiceError::SmeExposureLimitExceeded)
    );
    assert_eq!(
        create(&mut ledger, 501, NOW + DAY),
        objection(Objection::SmeExposureLimitExceeded)
    );
    assert_eq!(create(&mut ledger, 500, NOW + DAY), Ok(3));
    ledger.mark_paid(NOW, first, pool(), Some(true)).unwrap();
    assert_eq!(ledger.get_sme_outstanding(owner()), 0);
    ledger.mark_funded(NOW, second, pool()).unwrap();
}

#[test]
fn metadata_links_are_checked() {
    let mut ledger = ledger();
    let mut with = |uri: Option<Text>| {
        ledger.create_invoice_with_metadata(
            NOW,
            owner(),
            text("debtor"),
            5,
            NOW + DAY,
            text("goods"),
            text("hash"),
            uri,
            Clearance::Unavailable,
        )
    };
    assert_eq!(with(Some(text("ftp://x"))), objection(Objection::InvalidMetadataUri));
    assert_eq!(with(Some(text("ar://x"))), Ok(1));
    assert_eq!(with(None), Ok(2));
}

#[test]
fn the_pool_alone_moves_money() {
    let mut ledger = ledger();
    let id = invoice(&mut ledger);
    assert_eq!(
        ledger.mark_funded(NOW, id, stranger()),
        objection(Objection::UnauthorizedPool)
    );
    assert_eq!(
        ledger.record_funding(NOW, id, 5, stranger()),
        objection(Objection::UnauthorizedPool)
    );
    assert_eq!(
        ledger.add_funding(id, 5, stranger()),
        objection(Objection::UnauthorizedPool)
    );
    assert_eq!(
        ledger.mark_paid(NOW, id, stranger(), Some(true)),
        objection(Objection::OnlyPoolCanMarkPaid)
    );
    assert_eq!(ledger.mark_funded(NOW, 9, pool()), objection(Objection::InvoiceNotFound));
    assert_eq!(
        ledger.mark_paid(NOW, id, pool(), Some(true)),
        objection(Objection::NotFunded)
    );
    assert_eq!(ledger.check_payment(id, pool()), objection(Objection::NotFunded));
    ledger.mark_funded(NOW, id, pool()).unwrap();
    assert_eq!(ledger.check_payment(id, pool()), Ok(()));
    assert_eq!(ledger.mark_paid(NOW, id, pool(), None), error(InvoiceError::PoolCallFailed));
    assert_eq!(
        ledger.mark_paid(NOW, id, pool(), Some(false)),
        objection(Objection::RepaymentNotVerified)
    );
    assert_eq!(status(&ledger, id), InvoiceStatus::Funded);
    ledger.mark_paid(NOW + 5, id, pool(), Some(true)).unwrap();
    assert_eq!(get(&ledger, id).paid_at, NOW + 5);
}

#[test]
fn pieces_add_up() {
    let mut ledger = ledger();
    let id = invoice(&mut ledger);
    assert_eq!(
        ledger.record_funding(NOW, id, 0, pool()),
        objection(Objection::AmountNotPositive)
    );
    assert_eq!(ledger.add_funding(id, 400, pool()), Ok(400));
    assert_eq!(ledger.add_funding(id, 600, pool()), Ok(1_000));
    assert_eq!(ledger.add_funding(id, 1, pool()), error(InvoiceError::AmountOverflow));
    assert_eq!(
        ledger.add_funding(id, i128::MAX, pool()),
        objection(Objection::FundingOverflow)
    );
    assert_eq!(ledger.get_funded_amount(id), 1_000);
    ledger.record_funding(NOW, id, 300, pool()).unwrap();
    assert_eq!(ledger.add_funding(id, 1, pool()), objection(Objection::NotFundable));
    assert_eq!(get(&ledger, id).funded_amount, 300);
    assert_eq!(ledger.get_sme_outstanding(owner()), 1_000);
    ledger.mark_paid(NOW, id, pool(), Some(true)).unwrap();
    assert_eq!(
        ledger.record_funding(NOW, id, 300, pool()),
        objection(Objection::NotFundable)
    );
}

#[test]
fn verified_invoices_only() {
    let mut ledger = ledger();
    let id = invoice(&mut ledger);
    ledger.set_oracle_verified_funding_only(admin(), true).unwrap();
    assert!(ledger.oracle_verified_funding_only());
    assert_eq!(ledger.mark_funded(NOW, id, pool()), error(InvoiceError::Unauthorized));
    assert_eq!(
        ledger.record_funding(NOW, id, 5, pool()),
        error(InvoiceError::Unauthorized)
    );
    ledger.set_oracle(admin(), oracle()).unwrap();
    let id = invoice(&mut ledger);
    assert_eq!(ledger.mark_funded(NOW, id, pool()), objection(Objection::NotFundable));
    ledger.verify_invoice(NOW, id, oracle(), true, text(""), text("hash")).unwrap();
    ledger.mark_funded(NOW, id, pool()).unwrap();
}

#[test]
fn oracles_vouch_for_the_hash() {
    let mut ledger = ledger();
    assert_eq!(
        ledger.verify_invoice(NOW, 1, oracle(), true, text(""), text("hash")),
        objection(Objection::OracleNotConfigured)
    );
    ledger.set_oracle(admin(), oracle()).unwrap();
    assert_eq!(ledger.get_oracle(), Some(oracle()));
    let id = invoice(&mut ledger);
    assert_eq!(
        ledger.verify_invoice(NOW, id, stranger(), true, text(""), text("hash")),
        objection(Objection::UnauthorizedOracle)
    );
    assert_eq!(
        ledger.verify_invoice(NOW, 9, oracle(), true, text(""), text("hash")),
        objection(Objection::InvoiceNotFound)
    );
    assert_eq!(
        ledger.verify_invoice(NOW, id, oracle(), true, text(""), text("other")),
        error(InvoiceError::HashMismatch)
    );
    ledger.set_secondary_oracle(admin(), Some(stranger())).unwrap();
    ledger.verify_invoice(NOW, id, stranger(), true, text(""), text("hash")).unwrap();
    assert_eq!(
        ledger.verify_invoice(NOW, id, oracle(), true, text(""), text("hash")),
        objection(Objection::NotAwaitingVerification)
    );
    ledger.set_secondary_oracle(admin(), None).unwrap();
    let id = invoice(&mut ledger);
    assert_eq!(
        ledger.verify_invoice(NOW, id, stranger(), true, text(""), text("hash")),
        objection(Objection::UnauthorizedOracle)
    );
}

#[test]
fn disputes_over_verification_are_resolved() {
    let mut ledger = ledger_with_oracle();
    let id = invoice(&mut ledger);
    assert_eq!(
        ledger.resolve_dispute(NOW, id, oracle(), DisputeResolution::InFavorOfSME),
        objection(Objection::NotDisputed)
    );
    ledger.verify_invoice(NOW, id, oracle(), false, text("fake"), text("hash")).unwrap();
    assert_eq!(status(&ledger, id), InvoiceStatus::Disputed);
    assert_eq!(get(&ledger, id).dispute_reason.as_slice(), b"fake");
    assert_eq!(
        ledger.resolve_dispute(NOW, id, stranger(), DisputeResolution::InFavorOfSME),
        objection(Objection::Unauthorized)
    );
    assert_eq!(
        ledger.resolve_dispute(NOW + 30 * DAY - 1, id, admin(), DisputeResolution::InFavorOfSME),
        objection(Objection::DisputeWindowNotPassed)
    );
    assert_eq!(
        ledger.resolve_dispute(NOW, id, oracle(), DisputeResolution::Pending),
        error(InvoiceError::InvalidStatusTransition)
    );
    ledger.resolve_dispute(NOW + 30 * DAY, id, admin(), DisputeResolution::InFavorOfSME).unwrap();
    assert_eq!(status(&ledger, id), InvoiceStatus::Verified);
    assert!(get(&ledger, id).dispute_reason.is_empty());

    let id = invoice(&mut ledger);
    ledger.verify_invoice(NOW, id, oracle(), false, text("fake"), text("hash")).unwrap();
    ledger.resolve_dispute(NOW, id, oracle(), DisputeResolution::InFavorOfDebtor).unwrap();
    assert_eq!(status(&ledger, id), InvoiceStatus::Cancelled);
}

#[test]
fn verification_does_not_take_for_ever() {
    let mut ledger = ledger_with_oracle();
    let id = invoice(&mut ledger);
    let deadline = get(&ledger, id).verification_deadline;
    assert_eq!(deadline, NOW + 3 * DAY);
    assert_eq!(
        ledger.timeout_verification(deadline, stranger(), id),
        error(InvoiceError::Unauthorized)
    );
    assert_eq!(
        ledger.timeout_verification(deadline - 1, owner(), id),
        error(InvoiceError::VerificationDeadlineNotPassed)
    );
    ledger.timeout_verification(deadline, owner(), id).unwrap();
    assert_eq!(status(&ledger, id), InvoiceStatus::Cancelled);
    assert_eq!(ledger.get_storage_stats().active_invoices, 0);
    assert_eq!(ledger.get_invoices_by_owner(owner()).len(), 0);
    assert_eq!(
        ledger.timeout_verification(deadline, admin(), id),
        error(InvoiceError::InvalidStatusTransition)
    );
}

#[test]
fn defaults_wait_for_the_grace_period() {
    let mut ledger = ledger();
    let id = funded(&mut ledger);
    let due = NOW + 10 * DAY;
    assert_eq!(
        ledger.mark_defaulted(due + 7 * DAY - 1, id, pool()),
        objection(Objection::GracePeriodNotElapsed { default_at: due + 7 * DAY })
    );
    assert_eq!(ledger.check_default_warning(due - 1, id), Ok(false));
    assert_eq!(ledger.check_default_warning(due + 6 * DAY - 1, id), Ok(false));
    assert_eq!(ledger.check_default_warning(due + 6 * DAY, id), Ok(true));
    assert_eq!(ledger.check_default_warning(due + 7 * DAY, id), Ok(false));
    ledger.mark_defaulted(due + 7 * DAY, id, pool()).unwrap();
    assert!(ledger.is_invoice_defaulted(id));
    assert_eq!(
        ledger.mark_defaulted(due + 7 * DAY, id, pool()),
        objection(Objection::NotFunded)
    );
}

#[test]
fn defaults_can_be_disputed() {
    let mut ledger = ledger();
    let id = defaulted(&mut ledger);
    let default_at = NOW + 17 * DAY;
    assert_eq!(
        ledger.raise_dispute(default_at, id, stranger(), text("e")),
        error(InvoiceError::Unauthorized)
    );
    assert_eq!(
        ledger.raise_dispute(default_at + 30 * DAY + 1, id, owner(), text("e")),
        error(InvoiceError::DisputeWindowClosed)
    );
    assert!(ledger.get_dispute(id).is_none());
    ledger.raise_dispute(default_at + 30 * DAY, id, owner(), text("e")).unwrap();
    assert_eq!(ledger.get_dispute(id).unwrap().evidence_hash.as_slice(), b"e");
    assert_eq!(
        ledger.raise_dispute(default_at, id, owner(), text("e")),
        error(InvoiceError::InvalidStatusTransition)
    );
    let later = default_at + 31 * DAY;
    assert_eq!(
        ledger.resolve_default_dispute(later, id, stranger(), DisputeResolution::InFavorOfSME),
        error(InvoiceError::Unauthorized)
    );
    assert_eq!(
        ledger.resolve_default_dispute(later, id, admin(), DisputeResolution::Pending),
        error(InvoiceError::InvalidStatusTransition)
    );
    ledger.resolve_default_dispute(later, id, admin(), DisputeResolution::InFavorOfDebtor).unwrap();
    // The invoice is open again, with a new grace period to pay.
    assert_eq!(status(&ledger, id), InvoiceStatus::Funded);
    assert_eq!(get(&ledger, id).due_date, later + 7 * DAY);
    assert_eq!(ledger.get_dispute(id).unwrap().resolved_at, later);

    // A second default cannot be disputed again.
    ledger.mark_defaulted(later + 14 * DAY, id, pool()).unwrap();
    assert_eq!(
        ledger.raise_dispute(later + 14 * DAY, id, owner(), text("e")),
        error(InvoiceError::HashMismatch)
    );

    let id = defaulted(&mut ledger);
    ledger.raise_dispute(default_at, id, owner(), text("e")).unwrap();
    ledger.resolve_default_dispute(later, id, admin(), DisputeResolution::InFavorOfSME).unwrap();
    assert_eq!(status(&ledger, id), InvoiceStatus::Defaulted);
}

#[test]
fn disputes_have_to_be_there() {
    let mut ledger = ledger_with_oracle();
    let id = invoice(&mut ledger);
    assert_eq!(
        ledger.resolve_default_dispute(NOW, id, admin(), DisputeResolution::InFavorOfSME),
        error(InvoiceError::InvalidStatusTransition)
    );
    ledger.verify_invoice(NOW, id, oracle(), false, text("fake"), text("hash")).unwrap();
    assert_eq!(
        ledger.resolve_default_dispute(NOW, id, admin(), DisputeResolution::InFavorOfSME),
        objection(Objection::DisputeNotFound)
    );
}

#[test]
fn extensions_stay_within_ninety_days() {
    let mut ledger = ledger();
    let id = funded(&mut ledger);
    let due = NOW + 10 * DAY;
    assert_eq!(
        ledger.request_extension(NOW, id, stranger(), due + 1),
        error(InvoiceError::Unauthorized)
    );
    assert_eq!(
        ledger.request_extension(NOW, 9, owner(), due + 1),
        error(InvoiceError::InvoiceNotFound)
    );
    assert_eq!(
        ledger.request_extension(NOW, id, owner(), due),
        error(InvoiceError::InvalidDueDateExtension)
    );
    ledger.request_extension(NOW, id, owner(), due + 60 * DAY).unwrap();
    assert_eq!(
        ledger.approve_extension(NOW, id, stranger()),
        error(InvoiceError::Unauthorized)
    );
    assert_eq!(
        ledger.approve_extension(NOW, id, admin()),
        Ok(DueDateCall {
            pool: pool(),
            invoice_contract: Address::contract(0, 9),
            invoice_id: id,
            new_due_date: due + 60 * DAY,
        })
    );
    // The ninety days count from the first due date.
    assert_eq!(
        ledger.request_extension(NOW, id, owner(), due + 90 * DAY + 1),
        error(InvoiceError::ExtensionTooLarge)
    );
    ledger.request_extension(NOW, id, owner(), due + 90 * DAY).unwrap();
    let pending = invoice(&mut ledger);
    assert_eq!(
        ledger.request_extension(NOW, pending, owner(), due + 1),
        error(InvoiceError::InvalidStatusTransition)
    );
}

#[test]
fn invoices_expire() {
    let mut ledger = ledger();
    let id = create(&mut ledger, 1_000, NOW + 100 * DAY).unwrap();
    let end = NOW + 30 * DAY + 1;
    assert_eq!(ledger.check_expiration(end - 1, id), Ok(false));
    assert_eq!(ledger.mark_funded(end, id, pool()), objection(Objection::InvoiceExpired));
    assert_eq!(
        ledger.cancel_invoice(end, id, owner()),
        objection(Objection::InvalidStatusTransition)
    );
    assert_eq!(status(&ledger, id), InvoiceStatus::Pending);
    assert_eq!(ledger.check_expiration(end, id), Ok(true));
    assert_eq!(ledger.check_expiration(end, id), Ok(false));
    assert_eq!(status(&ledger, id), InvoiceStatus::Expired);
    assert_eq!(ledger.check_expiration(end, 9), error(InvoiceError::InvoiceNotFound));
    assert_eq!(ledger.mark_funded(NOW, id, pool()), objection(Objection::InvoiceExpired));
}

#[test]
fn batches_are_checked_for_expiration() {
    let mut ledger = ledger();
    let first = create(&mut ledger, 1_000, NOW + 100 * DAY).unwrap();
    let second = create(&mut ledger, 1_000, NOW + 100 * DAY).unwrap();
    ledger.mark_funded(NOW, second, pool()).unwrap();
    let end = NOW + 30 * DAY + 1;
    let missing = numbers(&ledger, &[first, 9]);
    assert_eq!(
        ledger.batch_check_expiration(end, &missing),
        error(InvoiceError::InvoiceNotFound)
    );
    assert_eq!(status(&ledger, first), InvoiceStatus::Pending);
    let ids = numbers(&ledger, &[first, second, first]);
    assert_eq!(ledger.batch_check_expiration(end, &ids), Ok(1));
    assert_eq!(status(&ledger, first), InvoiceStatus::Expired);
    let many = numbers(&ledger, &[first; 21]);
    assert_eq!(
        ledger.batch_check_expiration(end, &many),
        objection(Objection::ExpirationBatchTooLarge)
    );
    let fewer = numbers(&ledger, &[first; 20]);
    assert_eq!(ledger.batch_check_expiration(end, &fewer), Ok(0));
}

#[test]
fn closed_invoices_can_be_removed() {
    let mut ledger = ledger();
    let id = invoice(&mut ledger);
    assert_eq!(ledger.cleanup_invoice(id, stranger()), objection(Objection::Unauthorized));
    assert_eq!(ledger.cleanup_invoice(9, admin()), objection(Objection::InvoiceNotFound));
    assert_eq!(
        ledger.cleanup_invoice(id, admin()),
        objection(Objection::CleanupNotCompleted)
    );
    assert_eq!(
        ledger.cancel_invoice(NOW, id, stranger()),
        objection(Objection::Unauthorized)
    );
    ledger.cancel_invoice(NOW, id, admin()).unwrap();
    ledger.cleanup_invoice(id, admin()).unwrap();
    assert_eq!(
        ledger.get_invoice(id).unwrap_err(),
        InvoiceFailure::Error(InvoiceError::InvoiceNotFound)
    );
    assert_eq!(ledger.get_storage_stats().cleaned_invoices, 1);
    // The number is not used again.
    assert_eq!(create(&mut ledger, 5, NOW + DAY), Ok(2));
    assert_eq!(ledger.get_invoice_count(), 2);
}

#[test]
fn a_cancelled_invoice_frees_its_debtor() {
    let mut ledger = ledger();
    ledger.set_require_registered_debtor(admin(), true).unwrap();
    assert_eq!(
        create(&mut ledger, 5, NOW + DAY),
        objection(Objection::DebtorNotRegistered)
    );
    assert_eq!(
        ledger.register_debtor(admin(), text("debtor"), text("Debtor Ltd"), 0),
        objection(Objection::MaxExposureNotPositive)
    );
    ledger.register_debtor(admin(), text("debtor"), text("Debtor Ltd"), 1_500).unwrap();
    let id = invoice(&mut ledger);
    assert_eq!(ledger.get_debtor(&text("debtor")).unwrap().current_exposure, 1_000);
    assert_eq!(
        create(&mut ledger, 501, NOW + DAY),
        objection(Objection::DebtorExposureExceeded)
    );
    ledger.cancel_invoice(NOW, id, owner()).unwrap();
    assert_eq!(ledger.get_debtor(&text("debtor")).unwrap().current_exposure, 0);
    assert_eq!(create(&mut ledger, 501, NOW + DAY), Ok(2));

    // A debtor that is registered again starts anew.
    ledger.register_debtor(admin(), text("debtor"), text("Debtor GmbH"), 9_000).unwrap();
    let debtor = ledger.get_debtor(&text("debtor")).unwrap();
    assert_eq!((debtor.current_exposure, debtor.max_exposure), (0, 9_000));
    assert_eq!(debtor.debtor_name.as_slice(), b"Debtor GmbH");
    assert_eq!(ledger.list_debtors().len(), 1);
    assert_eq!(
        ledger.deactivate_debtor(admin(), text("nobody")),
        objection(Objection::DebtorNotFound)
    );
    ledger.deactivate_debtor(admin(), text("debtor")).unwrap();
    assert_eq!(create(&mut ledger, 5, NOW + DAY), objection(Objection::DebtorNotActive));
}

#[test]
fn the_access_control_acts_for_the_administrator() {
    let mut ledger = ledger();
    assert_eq!(
        ledger.set_paused_via_ac(NOW, access_control(), true),
        error(InvoiceError::AccessControlNotConfigured)
    );
    assert_eq!(
        ledger.set_access_control(stranger(), access_control()),
        error(InvoiceError::Unauthorized)
    );
    ledger.set_access_control(admin(), access_control()).unwrap();
    assert_eq!(ledger.get_access_control(), Some(access_control()));
    assert_eq!(
        ledger.set_paused_via_ac(NOW, stranger(), true),
        error(InvoiceError::Unauthorized)
    );
    ledger.set_oracle_via_ac(access_control(), oracle()).unwrap();
    ledger.add_keeper_via_ac(access_control(), stranger()).unwrap();
    assert_eq!(
        ledger.register_debtor_via_ac(access_control(), text("d"), text("D"), 0),
        error(InvoiceError::InvalidAmount)
    );
    ledger.register_debtor_via_ac(access_control(), text("d"), text("D"), 7).unwrap();
    ledger.deactivate_debtor_via_ac(access_control(), text("d")).unwrap();
    assert!(!ledger.get_debtor(&text("d")).unwrap().is_active);
    ledger.set_paused_via_ac(NOW, access_control(), true).unwrap();
    assert!(ledger.is_paused());
    assert_eq!(ledger.get_oracle(), Some(oracle()));
    assert_eq!(ledger.list_keepers().get(0), Some(stranger()));
}

#[test]
fn a_paused_ledger_refuses() {
    let mut ledger = ledger();
    let id = funded(&mut ledger);
    ledger.pause(NOW, admin()).unwrap();
    let refused = error(InvoiceError::ContractPaused);
    assert_eq!(create(&mut ledger, 5, NOW + DAY), error(InvoiceError::ContractPaused));
    assert_eq!(ledger.mark_paid(NOW, id, pool(), Some(true)), refused);
    assert_eq!(ledger.mark_defaulted(NOW + 99 * DAY, id, pool()), refused);
    assert_eq!(ledger.cancel_invoice(NOW, id, owner()), refused);
    assert_eq!(ledger.request_extension(NOW, id, owner(), NOW + 20 * DAY), refused);
    ledger.unpause(NOW, admin()).unwrap();
    ledger.mark_paid(NOW, id, pool(), Some(true)).unwrap();
}

#[test]
fn settings_have_limits() {
    let mut ledger = ledger();
    assert_eq!(
        ledger.set_daily_invoice_limit(admin(), 0),
        objection(Objection::DailyLimitZero)
    );
    assert_eq!(
        ledger.set_daily_invoice_limit(admin(), 1_001),
        objection(Objection::DailyLimitTooHigh)
    );
    ledger.set_daily_invoice_limit(admin(), 1).unwrap();
    invoice(&mut ledger);
    assert_eq!(create(&mut ledger, 5, NOW + DAY), error(InvoiceError::RateLimitExceeded));
    assert_eq!(
        ledger.set_completed_invoice_ttl(admin(), ACTIVE_INVOICE_TTL - 1),
        objection(Objection::CompletedTtlTooShort)
    );
    ledger.set_completed_invoice_ttl(admin(), ACTIVE_INVOICE_TTL).unwrap();
    assert_eq!(
        ledger.set_metadata_image_uri(admin(), text("")),
        objection(Objection::InvalidImageUri)
    );
    ledger.set_metadata_image_uri(admin(), text("ipfs://x")).unwrap();
    assert_eq!(ledger.get_metadata_image_uri().as_slice(), b"ipfs://x");
    assert_eq!(
        ledger.set_expiration_duration(admin(), 0),
        objection(Objection::ExpirationZero)
    );
    assert_eq!(
        ledger.set_invoice_grace_period(stranger(), 1, 5),
        objection(Objection::CallerNotAdmin)
    );
    assert_eq!(
        ledger.set_invoice_grace_period(admin(), 1, 91),
        objection(Objection::GraceOverrideTooLong { days: 91 })
    );
    assert_eq!(
        ledger.set_invoice_grace_period(admin(), 1, 5),
        objection(Objection::GraceOverrideNotFunded)
    );
}

#[test]
fn upgrades_wait() {
    let mut ledger = ledger();
    assert_eq!(
        ledger.execute_upgrade(NOW, admin()).unwrap_err(),
        InvoiceFailure::Objection(Objection::NoUpgradeProposed)
    );
    assert_eq!(
        ledger.propose_upgrade(NOW, admin(), &[0; 32]),
        error(InvoiceError::InvalidWasmHash)
    );
    assert_eq!(
        ledger.propose_upgrade(NOW, stranger(), &[1; 32]),
        objection(Objection::Unauthorized)
    );
    assert_eq!(
        ledger.propose_upgrade(u64::MAX, admin(), &[1; 32]),
        Err(InvoiceFailure::Trap(Trap::Overflow))
    );
    ledger.propose_upgrade(NOW, admin(), &[5; 32]).unwrap();
    assert_eq!(
        ledger.execute_upgrade(NOW + DAY - 1, admin()).unwrap_err(),
        InvoiceFailure::Error(InvoiceError::UpgradeTimelockNotExpired)
    );
    assert_eq!(ledger.execute_upgrade(NOW + DAY, admin()).unwrap().as_slice(), &[5; 32]);
}

#[test]
fn migrations_run_once() {
    let mut ledger = ledger();
    assert_eq!(ledger.migration_version(), 0);
    assert!(ledger.run_migration(stranger()).is_err());
    ledger.run_migration(admin()).unwrap();
    assert_eq!(ledger.migration_version(), 1);
    ledger.run_migration(admin()).unwrap();
    assert_eq!(ledger.migration_version(), 1);
}

#[test]
fn entries_are_kept_for_their_time() {
    let mut ledger = ledger();
    let id = invoice(&mut ledger);
    assert_eq!(
        ledger.renewals.take_all(),
        vec![Renewal { id, ledgers: ACTIVE_INVOICE_TTL }]
    );
    ledger.mark_funded(NOW, id, pool()).unwrap();
    ledger.mark_paid(NOW, id, pool(), Some(true)).unwrap();
    assert_eq!(
        ledger.renewals.take_all(),
        vec![
            Renewal { id, ledgers: ACTIVE_INVOICE_TTL },
            Renewal { id, ledgers: DEFAULT_COMPLETED_INVOICE_TTL },
        ]
    );
}

#[test]
fn invoices_can_be_looked_up() {
    let mut ledger = ledger();
    let first = invoice(&mut ledger);
    let second = funded(&mut ledger);
    let several = ledger.get_multiple_invoices(&numbers(&ledger, &[second, first])).unwrap();
    assert_eq!((several[0].id, several[1].id), (second, first));
    assert_eq!(
        ledger.get_multiple_invoices(&numbers(&ledger, &[first, 9])).unwrap_err(),
        InvoiceFailure::Error(InvoiceError::InvoiceNotFound)
    );
    let owned = ledger.get_invoices_by_owner(owner());
    assert_eq!((owned.len(), owned.get(0), owned.get(1)), (2, Some(first), Some(second)));
    assert_eq!(ledger.get_invoice_verification_state(first), Ok((false, 1_000)));
    let metadata = ledger.get_metadata(second).unwrap();
    assert_eq!(metadata.name.as_slice(), b"Astera Invoice #2");
    assert_eq!(metadata.symbol.as_slice(), b"INV-2");
    assert_eq!(
        metadata.image.as_slice(),
        b"ipfs://bafkreihdwdcefgh4dqkjv67uzcmw7ojee6xedzdetojuzjevtenxquvyku"
    );
    assert_eq!(ledger.estimate_storage_cost(), 2 * 518_400);
    assert_eq!(ledger.get_invoice_grace_period(first), Ok(7));
}

#[test]
fn settings_are_announced_with_old_and_new() {
    let mut ledger = ledger();
    ledger.events.take_all();
    ledger.set_grace_period(admin(), 10).unwrap();
    ledger.set_oracle(admin(), oracle()).unwrap();
    ledger.set_oracle(admin(), stranger()).unwrap();
    ledger.set_pool(admin(), stranger()).unwrap();
    assert_eq!(
        notices(&mut ledger),
        vec![
            Notice::GracePeriodSet { admin: admin(), old: 7, new: 10 },
            Notice::OracleSet { admin: admin(), old: None, new: oracle() },
            Notice::OracleSet { admin: admin(), old: Some(oracle()), new: stranger() },
            Notice::PoolSet { admin: admin(), pool: stranger() },
        ]
    );
}

#[test]
fn a_refused_request_changes_nothing() {
    let mut ledger = ledger();
    let id = invoice(&mut ledger);
    ledger.events.take_all();
    ledger.renewals.take_all();
    assert!(ledger.mark_funded(NOW, id, stranger()).is_err());
    assert!(create(&mut ledger, -5, NOW + DAY).is_err());
    assert_eq!(ledger.events.len(), 0);
    assert_eq!(ledger.renewals.len(), 0);
    assert_eq!(ledger.get_invoice_count(), 1);
    assert_eq!(status(&ledger, id), InvoiceStatus::Pending);
}

#[test]
fn ledger_errors_have_numbers() {
    assert_eq!(InvoiceError::AlreadyInitialized.code(), 0);
    assert_eq!(InvoiceError::Unauthorized.code(), 1);
    assert_eq!(InvoiceError::IDCollision.code(), 46);
}
