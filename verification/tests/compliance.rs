//! Requests to the compliance register.

use invoice_ledger::address::Address;
use invoice_ledger::collections::AddressList;
use invoice_ledger::compliance::contract::ComplianceContract;
use invoice_ledger::compliance::error::ComplianceError;
use invoice_ledger::compliance::types::{ComplianceEvent, ComplianceStatus, RiskTier};
use invoice_ledger::text::Text;
use soroban_sdk::testutils::EnvTestConfig;
use soroban_sdk::Env;

const DAY: u64 = 86_400;

fn admin() -> Address {
    Address::account(0, 1)
}

fn who(n: u128) -> Address {
    Address::account(5, n)
}

fn text(s: &str) -> Text {
    Text::from_slice(s.as_bytes())
}

fn blank() -> ComplianceContract {
    let env = Env::new_with_config(EnvTestConfig { capture_snapshot_at_drop: false });
    env.cost_estimate().budget().reset_unlimited();
    ComplianceContract::new(env)
}

fn register() -> ComplianceContract {
    let mut register = blank();
    register.initialize(admin()).unwrap();
    register
}

fn decide(
    register: &mut ComplianceContract,
    now: u64,
    address: Address,
    status: ComplianceStatus,
    expires_at: u64,
) -> Result<(), ComplianceError> {
    register.submit_screening_result(
        now,
        admin(),
        address,
        status,
        7,
        RiskTier::High,
        expires_at,
        text("notes"),
    )
}

fn holds(list: &AddressList, items: &[Address]) -> bool {
    list.len() as usize == items.len()
        && items.iter().enumerate().all(|(i, item)| list.get(i as u32) == Some(*item))
}

#[test]
fn a_blank_register_knows_nobody() {
    let mut register = blank();
    assert_eq!(register.get_admin(), Err(ComplianceError::NotInitialized));
    assert_eq!(register.pause(admin()), Err(ComplianceError::NotInitialized));
    assert_eq!(
        decide(&mut register, 1, who(1), ComplianceStatus::Cleared, 0),
        Err(ComplianceError::NotInitialized)
    );
    assert_eq!(register.get_rescreening_interval(), 180 * DAY);
    assert_eq!(register.get_screener_timelock(), DAY);
    assert_eq!(register.get_effective_status(1, who(1)), ComplianceStatus::Unscreened);
    register.initialize(admin()).unwrap();
    assert_eq!(register.get_admin(), Ok(admin()));
    assert_eq!(register.initialize(admin()), Err(ComplianceError::AlreadyInitialized));
}

#[test]
fn screeners_wait_a_day() {
    let mut register = register();
    assert_eq!(
        register.register_screener(100, who(1), who(2)),
        Err(ComplianceError::Unauthorized)
    );
    assert_eq!(
        register.confirm_screener_registration(100, admin(), who(2)),
        Err(ComplianceError::NoPendingScreener)
    );
    register.register_screener(100, admin(), who(2)).unwrap();
    assert!(!register.is_screener(who(2)));
    assert_eq!(
        register.confirm_screener_registration(100 + DAY - 1, admin(), who(2)),
        Err(ComplianceError::ScreenerTimelockActive)
    );
    register.confirm_screener_registration(100 + DAY, admin(), who(2)).unwrap();
    assert!(register.is_screener(who(2)));
    assert!(holds(register.list_screeners(), &[who(2)]));
    assert_eq!(
        register.register_screener(100, admin(), who(2)),
        Err(ComplianceError::ScreenerAlreadyRegistered)
    );
    register.deregister_screener(admin(), who(2)).unwrap();
    assert!(!register.is_screener(who(2)));
    assert!(holds(register.list_screeners(), &[]));
    assert_eq!(
        register.deregister_screener(admin(), who(2)),
        Err(ComplianceError::ScreenerNotRegistered)
    );
}

#[test]
fn proposals_can_be_cancelled() {
    let mut register = register();
    register.register_screener(100, admin(), who(2)).unwrap();
    register.deregister_screener(admin(), who(2)).unwrap();
    assert_eq!(
        register.confirm_screener_registration(100 + DAY, admin(), who(2)),
        Err(ComplianceError::NoPendingScreener)
    );
}

#[test]
fn without_a_timelock_screeners_start_at_once() {
    let mut register = register();
    register.set_screener_timelock(admin(), 0).unwrap();
    for n in 0..64 {
        register.register_screener(1, admin(), who(n)).unwrap();
    }
    assert_eq!(register.list_screeners().len(), 64);
    assert_eq!(
        register.register_screener(1, admin(), who(64)),
        Err(ComplianceError::ListFull)
    );
}

#[test]
fn screeners_and_the_administrator_decide() {
    let mut register = register();
    register.set_screener_timelock(admin(), 0).unwrap();
    register.register_screener(1, admin(), who(2)).unwrap();
    let mut by = |screener: Address| {
        register.submit_screening_result(
            5,
            screener,
            who(9),
            ComplianceStatus::Flagged,
            3,
            RiskTier::Medium,
            0,
            text("n"),
        )
    };
    assert_eq!(by(who(3)), Err(ComplianceError::Unauthorized));
    assert_eq!(by(who(2)), Ok(()));
    assert_eq!(by(admin()), Ok(()));
    let history = register.get_screening_history(who(9)).unwrap();
    assert_eq!(history.len(), 2);
    assert_eq!(history.get(0).unwrap().screened_by, who(2));
    assert_eq!(history.get(1).unwrap().screened_by, admin());
    let record = register.get_compliance_record(who(9)).unwrap();
    assert_eq!(record.reason_code, 3);
    assert_eq!(record.risk_tier, RiskTier::Medium);
    assert_eq!(record.notes_hash.as_slice(), b"n");
}

#[test]
fn clearances_run_out() {
    let mut register = register();
    decide(&mut register, 100, who(1), ComplianceStatus::Cleared, 200).unwrap();
    assert!(register.is_cleared(199, who(1)));
    assert!(!register.is_cleared(200, who(1)));
    assert_eq!(register.get_effective_status(199, who(1)), ComplianceStatus::Cleared);
    assert_eq!(register.get_effective_status(200, who(1)), ComplianceStatus::Unscreened);

    decide(&mut register, 100, who(2), ComplianceStatus::Cleared, 0).unwrap();
    let end = 100 + 180 * DAY;
    assert_eq!(register.get_compliance_record(who(2)).unwrap().expires_at, end);
    assert!(register.is_cleared(end - 1, who(2)));
    assert!(!register.is_cleared(end, who(2)));

    assert_eq!(
        decide(&mut register, 100, who(1), ComplianceStatus::Cleared, 100),
        Err(ComplianceError::InvalidConfig)
    );
    assert_eq!(
        decide(&mut register, 100, who(1), ComplianceStatus::Unscreened, 0),
        Err(ComplianceError::InvalidStatus)
    );
    // Other decisions may lie in the past, and do not run out.
    decide(&mut register, 100, who(3), ComplianceStatus::Blocked, 50).unwrap();
    assert_eq!(register.get_effective_status(1_000, who(3)), ComplianceStatus::Blocked);
}

#[test]
fn the_interval_can_be_changed() {
    let mut register = register();
    assert_eq!(
        register.set_rescreening_interval(admin(), 0),
        Err(ComplianceError::InvalidConfig)
    );
    assert_eq!(
        register.set_rescreening_interval(who(1), 5),
        Err(ComplianceError::Unauthorized)
    );
    register.set_rescreening_interval(admin(), 5).unwrap();
    assert_eq!(register.get_rescreening_interval(), 5);
    decide(&mut register, 100, who(1), ComplianceStatus::Cleared, 0).unwrap();
    assert!(register.is_cleared(104, who(1)));
    assert!(!register.is_cleared(105, who(1)));
    // The end of a clearance never leaves its range.
    register.set_rescreening_interval(admin(), u64::MAX).unwrap();
    decide(&mut register, 100, who(1), ComplianceStatus::Cleared, 0).unwrap();
    assert_eq!(register.get_compliance_record(who(1)).unwrap().expires_at, u64::MAX);
}

#[test]
fn lists_follow_the_decisions() {
    let mut register = register();
    decide(&mut register, 1, who(1), ComplianceStatus::Flagged, 0).unwrap();
    decide(&mut register, 1, who(2), ComplianceStatus::Blocked, 0).unwrap();
    decide(&mut register, 2, who(1), ComplianceStatus::Blocked, 0).unwrap();
    assert!(holds(register.list_flagged(), &[who(1), who(2)]));
    decide(&mut register, 3, who(1), ComplianceStatus::PendingReview, 0).unwrap();
    assert!(holds(register.list_flagged(), &[who(2)]));
    assert!(holds(register.list_pending_review(), &[who(1)]));
    decide(&mut register, 4, who(1), ComplianceStatus::Cleared, 0).unwrap();
    assert!(holds(register.list_pending_review(), &[]));
}

#[test]
fn full_lists_forget_their_oldest() {
    let mut register = register();
    for n in 0..257 {
        decide(&mut register, 1, who(n), ComplianceStatus::Flagged, 0).unwrap();
    }
    assert_eq!(register.list_flagged().len(), 256);
    assert_eq!(register.list_flagged().get(0), Some(who(1)));
    assert_eq!(register.list_flagged().get(255), Some(who(256)));
    assert_eq!(register.get_effective_status(2, who(0)), ComplianceStatus::Flagged);
}

#[test]
fn histories_hold_sixty_four_decisions() {
    let mut register = register();
    for now in 0..70 {
        decide(&mut register, now, who(1), ComplianceStatus::Flagged, 0).unwrap();
    }
    let history = register.get_screening_history(who(1)).unwrap();
    assert_eq!(history.len(), 64);
    assert_eq!(history.get(0).unwrap().screened_at, 6);
    assert_eq!(history.get(63).unwrap().screened_at, 69);
    assert!(register.get_screening_history(who(2)).is_none());
}

#[test]
fn anybody_can_ask_for_a_review() {
    let mut register = register();
    decide(&mut register, 100, who(1), ComplianceStatus::Cleared, 0).unwrap();
    register.events.take_all();
    register.request_review(200, who(2), who(1), text("odd")).unwrap();
    assert!(!register.is_cleared(201, who(1)));
    assert_eq!(register.get_effective_status(201, who(1)), ComplianceStatus::PendingReview);
    assert!(holds(register.list_pending_review(), &[who(1)]));
    let record = register.get_compliance_record(who(1)).unwrap();
    assert_eq!(record.risk_tier, RiskTier::High);
    assert_eq!(record.screened_by, who(2));
    assert_eq!(record.notes_hash.as_slice(), b"odd");
    let events = register.events.take_all();
    assert!(matches!(events[0], ComplianceEvent::ReviewRequested { was_cleared: true, .. }));

    assert_eq!(
        register.request_review(200 + DAY - 1, who(2), who(1), text("odd")),
        Err(ComplianceError::ReviewRequestTooSoon)
    );
    register.request_review(201, who(3), who(1), text("odd")).unwrap();
    register.request_review(200 + DAY, who(2), who(1), text("odd")).unwrap();
    // An address that nobody has looked at carries a medium risk.
    register.request_review(201, who(2), who(7), text("new")).unwrap();
    assert_eq!(register.get_compliance_record(who(7)).unwrap().risk_tier, RiskTier::Medium);
}

#[test]
fn a_paused_register_decides_nothing() {
    let mut register = register();
    register.register_screener(1, admin(), who(2)).unwrap();
    register.pause(admin()).unwrap();
    assert!(register.is_paused());
    let refused = Err(ComplianceError::ContractPaused);
    assert_eq!(decide(&mut register, 1, who(1), ComplianceStatus::Flagged, 0), refused);
    assert_eq!(register.request_review(1, who(2), who(1), text("r")), refused);
    assert_eq!(register.register_screener(1, admin(), who(3)), refused);
    assert_eq!(register.confirm_screener_registration(DAY * 2, admin(), who(2)), refused);
    assert_eq!(register.deregister_screener(admin(), who(2)), refused);
    assert_eq!(register.unpause(who(1)), Err(ComplianceError::Unauthorized));
    register.unpause(admin()).unwrap();
    register.confirm_screener_registration(DAY * 2, admin(), who(2)).unwrap();
}

#[test]
fn statuses_come_in_the_order_asked() {
    let mut register = register();
    decide(&mut register, 1, who(1), ComplianceStatus::Flagged, 0).unwrap();
    decide(&mut register, 1, who(2), ComplianceStatus::Cleared, 0).unwrap();
    let mut list = AddressList::new(&register.env);
    list.push(who(2));
    list.push(who(3));
    list.push(who(1));
    list.push(who(2));
    assert_eq!(
        register.get_effective_status_batch(2, &list),
        vec![
            ComplianceStatus::Cleared,
            ComplianceStatus::Unscreened,
            ComplianceStatus::Flagged,
            ComplianceStatus::Cleared,
        ]
    );
}

#[test]
fn register_errors_have_numbers() {
    assert_eq!(ComplianceError::AlreadyInitialized.code(), 0);
    assert_eq!(ComplianceError::ReviewRequestTooSoon.code(), 13);
}
