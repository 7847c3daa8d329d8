//! Requests to the oracle registry.

use invoice_ledger::address::Address;
use invoice_ledger::oracle_registry::contract::OracleRegistryContract;
use invoice_ledger::oracle_registry::error::OracleRegistryError;
use invoice_ledger::oracle_registry::types::{
    QuorumTier, RegistryEvent, RegistryFailure, RoundStatus, Transfer,
};
use invoice_ledger::outcome::Trap;
use invoice_ledger::text::Text;
use soroban_sdk::testutils::EnvTestConfig;
use soroban_sdk::Env;

const WEEK: u64 = 7 * 86_400;

fn admin() -> Address {
    Address::account(0, 1)
}

fn token() -> Address {
    Address::contract(0, 2)
}

fn me() -> Address {
    Address::contract(0, 3)
}

fn ledger() -> Address {
    Address::contract(0, 4)
}

fn oracle(n: u128) -> Address {
    Address::account(7, n)
}

fn text(s: &str) -> Text {
    Text::from_slice(s.as_bytes())
}

fn error<T>(e: OracleRegistryError) -> Result<T, RegistryFailure> {
    Err(RegistryFailure::Error(e))
}

fn blank() -> OracleRegistryContract {
    let env = Env::new_with_config(EnvTestConfig { capture_snapshot_at_drop: false });
    env.cost_estimate().budget().reset_unlimited();
    OracleRegistryContract::new(env, me())
}

fn registry() -> OracleRegistryContract {
    let mut registry = blank();
    registry.initialize(admin(), token(), 1_000).unwrap();
    registry.set_invoice_contract(admin(), ledger()).unwrap();
    registry
}

/// A registry with oracles of the given stakes and an open round on invoice 1.
fn round_of(stakes: &[i128]) -> OracleRegistryContract {
    let mut registry = registry();
    for (i, stake) in stakes.iter().enumerate() {
        registry.register_oracle(10, oracle(i as u128), *stake).unwrap();
    }
    registry.open_verification_round(100, 1, text("h"), Some((true, 500))).unwrap();
    registry
}

fn vote(
    registry: &mut OracleRegistryContract,
    n: u128,
    approved: bool,
) -> Result<(), RegistryFailure> {
    registry.submit_vote(200, oracle(n), 1, approved, text("evidence"), true)
}

#[test]
fn a_blank_registry_does_nothing() {
    let mut registry = blank();
    assert_eq!(registry.pause(admin()), error(OracleRegistryError::NotInitialized));
    assert_eq!(
        registry.register_oracle(0, oracle(1), 5),
        error(OracleRegistryError::NotInitialized)
    );
    assert_eq!(registry.get_registry_config(), error(OracleRegistryError::NotInitialized));
    assert_eq!(
        registry.initialize(admin(), token(), 0),
        error(OracleRegistryError::InvalidAmount)
    );
    registry.initialize(admin(), token(), 1).unwrap();
    assert_eq!(
        registry.initialize(admin(), token(), 1),
        error(OracleRegistryError::AlreadyInitialized)
    );
}

#[test]
fn the_rules_have_defaults() {
    let config = registry().get_registry_config().unwrap();
    assert_eq!(config.min_stake, 1_000);
    assert_eq!(config.stake_token, token());
    assert_eq!(config.required_votes, 3);
    assert_eq!(config.quorum_bps, 6_600);
    assert_eq!(config.round_duration_secs, 259_200);
    assert_eq!(config.deregister_cooldown_secs, 604_800);
    assert_eq!(config.treasury, None);
}

#[test]
fn the_administrator_alone_sets_rules() {
    let mut registry = registry();
    let stranger = oracle(1);
    let refused = error(OracleRegistryError::Unauthorized);
    assert_eq!(registry.set_invoice_contract(stranger, ledger()), refused);
    assert_eq!(registry.set_treasury(stranger, None), refused);
    assert_eq!(registry.set_registry_config(stranger, 1, 1, 1, 1, 1), refused);
    assert_eq!(registry.set_quorum_tiers(stranger, Vec::new()), refused);
    assert_eq!(registry.pause(stranger), refused);
    assert_eq!(registry.unpause(stranger), refused);
    assert_eq!(registry.slash_oracle(stranger, oracle(2), 1, 1, text("e")), refused);
    assert_eq!(registry.admin_resolve_round(0, stranger, 1, true, text("r"), true), refused);

    registry.set_registry_config(admin(), 5, 1, 10_000, 60, 0).unwrap();
    registry.set_treasury(admin(), Some(oracle(9))).unwrap();
    let config = registry.get_registry_config().unwrap();
    assert_eq!(
        (config.min_stake, config.required_votes, config.quorum_bps),
        (5, 1, 10_000)
    );
    assert_eq!((config.round_duration_secs, config.deregister_cooldown_secs), (60, 0));
    assert_eq!(config.treasury, Some(oracle(9)));
    assert_eq!(registry.get_invoice_contract(), Some(ledger()));
}

#[test]
fn rules_have_to_make_sense() {
    let mut registry = registry();
    let refused = error(OracleRegistryError::InvalidConfig);
    assert_eq!(registry.set_registry_config(admin(), 0, 1, 1, 1, 1), refused);
    assert_eq!(registry.set_registry_config(admin(), 1, 0, 1, 1, 1), refused);
    assert_eq!(registry.set_registry_config(admin(), 1, 1, 0, 1, 1), refused);
    assert_eq!(registry.set_registry_config(admin(), 1, 1, 10_001, 1, 1), refused);
    assert_eq!(registry.set_registry_config(admin(), 1, 1, 1, 0, 1), refused);
}

#[test]
fn tiers_have_to_ascend() {
    let mut registry = registry();
    let refused = error(OracleRegistryError::InvalidQuorumTiers);
    let tier = |min_invoice_amount: i128, quorum_bps: u32| QuorumTier {
        min_invoice_amount,
        quorum_bps,
    };
    assert_eq!(registry.set_quorum_tiers(admin(), vec![tier(-1, 5)]), refused);
    assert_eq!(registry.set_quorum_tiers(admin(), vec![tier(1, 0)]), refused);
    assert_eq!(registry.set_quorum_tiers(admin(), vec![tier(1, 10_001)]), refused);
    assert_eq!(registry.set_quorum_tiers(admin(), vec![tier(5, 5), tier(5, 6)]), refused);
    assert_eq!(registry.set_quorum_tiers(admin(), vec![tier(6, 5), tier(5, 6)]), refused);
    registry.set_quorum_tiers(admin(), vec![tier(0, 5), tier(5, 10_000)]).unwrap();
    assert_eq!(registry.get_quorum_tiers(), &vec![tier(0, 5), tier(5, 10_000)]);
    registry.set_quorum_tiers(admin(), Vec::new()).unwrap();
    assert!(registry.get_quorum_tiers().is_empty());
}

#[test]
fn oracles_stake_to_join() {
    let mut registry = registry();
    assert_eq!(
        registry.register_oracle(10, oracle(1), 999),
        error(OracleRegistryError::InsufficientStake)
    );
    registry.register_oracle(10, oracle(1), 1_000).unwrap();
    assert_eq!(
        registry.register_oracle(11, oracle(1), 1_000),
        error(OracleRegistryError::AlreadyRegistered)
    );
    let info = registry.get_oracle_info(oracle(1)).unwrap();
    assert_eq!(info.stake_amount, 1_000);
    assert_eq!(info.stake_token, token());
    assert_eq!(info.registered_at, 10);
    assert!(info.is_active);
    assert_eq!(
        registry.transfers.take_all(),
        vec![Transfer { token: token(), from: oracle(1), to: me(), amount: 1_000 }]
    );
    assert_eq!(registry.list_active_oracles().len(), 1);
    assert_eq!(registry.list_active_oracles().get(0), Some(oracle(1)));
}

#[test]
fn a_round_needs_oracles_and_a_ledger() {
    let mut registry = blank();
    registry.initialize(admin(), token(), 1_000).unwrap();
    assert_eq!(
        registry.round_opening_refusal(1),
        Some(OracleRegistryError::InvoiceContractNotSet)
    );
    registry.set_invoice_contract(admin(), ledger()).unwrap();
    assert_eq!(registry.round_opening_refusal(1), None);
    assert_eq!(
        registry.open_verification_round(0, 1, text("h"), Some((true, 5))),
        error(OracleRegistryError::NoActiveOracles)
    );
    registry.register_oracle(10, oracle(1), 1_000).unwrap();
    assert_eq!(
        registry.open_verification_round(0, 1, text("h"), None),
        error(OracleRegistryError::InvoiceCallFailed)
    );
    registry.open_verification_round(5, 1, text("h"), Some((true, 5))).unwrap();
    let round = registry.get_verification_round(1).unwrap();
    assert_eq!(round.total_registered_oracles, 1);
    assert_eq!(round.total_stake_snapshot, 1_000);
    assert_eq!(round.deadline, 5 + 259_200);
    assert_eq!(round.oracle_hash.as_slice(), b"h");
}

#[test]
fn the_threshold_is_rounded_up() {
    // 6600 ten-thousandths of 3001 are 1980.66: 1981 are needed.
    let mut below = round_of(&[1_021, 1_000, 980 + 20]);
    assert_eq!(below.get_verification_round(1).unwrap().total_stake_snapshot, 3_021);
    // 6600 ten-thousandths of 3021 are 1993.86, so 1994 are needed and 2021 are enough.
    vote(&mut below, 0, true).unwrap();
    vote(&mut below, 1, false).unwrap();
    assert_eq!(below.get_verification_round(1).unwrap().status, RoundStatus::Open);
    vote(&mut below, 2, true).unwrap();
    assert_eq!(
        below.get_verification_round(1).unwrap().status,
        RoundStatus::ConsensusApproved
    );

    // With a quorum of a half of 3001, 1501 are needed: 1500 decide nothing.
    let mut registry = registry();
    registry.set_registry_config(admin(), 1, 1, 5_000, 1_000, WEEK).unwrap();
    registry.register_oracle(10, oracle(0), 1_500).unwrap();
    registry.register_oracle(10, oracle(1), 1_501).unwrap();
    registry.open_verification_round(100, 1, text("h"), Some((true, 500))).unwrap();
    vote(&mut registry, 0, true).unwrap();
    assert_eq!(registry.get_verification_round(1).unwrap().status, RoundStatus::Open);
    vote(&mut registry, 1, false).unwrap();
    assert_eq!(
        registry.get_verification_round(1).unwrap().status,
        RoundStatus::ConsensusRejected
    );
}

#[test]
fn enough_oracles_have_to_vote() {
    // One oracle holds most of the stake, but three have to vote.
    let mut registry = round_of(&[100_000, 1_000, 1_000]);
    vote(&mut registry, 0, true).unwrap();
    assert!(registry.vote_call(200, oracle(1), 1, false).unwrap().is_none());
    vote(&mut registry, 1, false).unwrap();
    assert_eq!(registry.get_verification_round(1).unwrap().status, RoundStatus::Open);
    let call = registry.vote_call(200, oracle(2), 1, false).unwrap().unwrap();
    assert!(call.approved);
    assert_eq!(call.invoice_contract, ledger());
    assert_eq!(call.registry, me());
    assert_eq!(call.reason.as_slice(), b"consensus approved");
    assert_eq!(call.oracle_hash.as_slice(), b"h");
    vote(&mut registry, 2, false).unwrap();
    assert_eq!(
        registry.get_verification_round(1).unwrap().status,
        RoundStatus::ConsensusApproved
    );
    assert_eq!(registry.get_oracle_info(oracle(2)).unwrap().total_verifications, 1);
}

#[test]
fn votes_are_refused_for_a_reason() {
    let mut registry = round_of(&[1_000, 1_000, 1_000, 1_000]);
    assert_eq!(vote(&mut registry, 9, true), error(OracleRegistryError::NotRegistered));
    assert_eq!(
        registry.submit_vote(200, oracle(0), 2, true, text("e"), true),
        error(OracleRegistryError::RoundNotFound)
    );
    vote(&mut registry, 0, true).unwrap();
    assert_eq!(vote(&mut registry, 0, false), error(OracleRegistryError::AlreadyVoted));
    let deadline = registry.get_verification_round(1).unwrap().deadline;
    assert_eq!(
        registry.submit_vote(deadline + 1, oracle(1), 1, true, text("e"), true),
        error(OracleRegistryError::RoundExpired)
    );
    registry.submit_vote(deadline, oracle(1), 1, true, text("e"), true).unwrap();
    assert_eq!(
        registry.submit_vote(200, oracle(2), 1, true, text("e"), false),
        error(OracleRegistryError::InvoiceCallFailed)
    );
    vote(&mut registry, 2, true).unwrap();
    assert_eq!(vote(&mut registry, 3, true), error(OracleRegistryError::RoundNotOpen));
}

#[test]
fn votes_are_listed_by_address() {
    let mut registry = round_of(&[1_000, 1_000, 1_000]);
    vote(&mut registry, 1, true).unwrap();
    vote(&mut registry, 0, false).unwrap();
    assert_eq!(
        registry.get_round_votes(1),
        vec![(oracle(0), false), (oracle(1), true)]
    );
    assert!(registry.get_round_votes(2).is_empty());
}

#[test]
fn weights_that_leave_their_range_stop_a_vote() {
    let mut registry = registry();
    registry.register_oracle(10, oracle(0), i128::MAX).unwrap();
    registry.open_verification_round(100, 1, text("h"), Some((true, 500))).unwrap();
    assert_eq!(vote(&mut registry, 0, true), Err(RegistryFailure::Trap(Trap::Overflow)));
    registry.register_oracle(10, oracle(1), 1_000).unwrap();
    assert_eq!(
        registry.open_verification_round(100, 2, text("h"), Some((true, 500))),
        Err(RegistryFailure::Trap(Trap::Overflow))
    );
}

#[test]
fn rounds_run_out() {
    let mut registry = round_of(&[1_000]);
    let deadline = registry.get_verification_round(1).unwrap().deadline;
    assert_eq!(registry.expire_round(deadline, 2), error(OracleRegistryError::RoundNotFound));
    assert_eq!(registry.expire_round(deadline, 1), error(OracleRegistryError::RoundNotExpired));
    assert_eq!(
        registry.admin_resolve_round(deadline + 1, admin(), 1, true, text("r"), true),
        error(OracleRegistryError::RoundNotExpired)
    );
    registry.expire_round(deadline + 1, 1).unwrap();
    assert_eq!(registry.get_verification_round(1).unwrap().status, RoundStatus::Expired);
    assert_eq!(
        registry.expire_round(deadline + 1, 1),
        error(OracleRegistryError::RoundNotOpen)
    );
    assert_eq!(
        registry.admin_resolve_round(deadline, admin(), 1, true, text("r"), true),
        error(OracleRegistryError::RoundNotExpired)
    );
    assert_eq!(
        registry.admin_resolve_round(deadline + 1, admin(), 3, true, text("r"), true),
        error(OracleRegistryError::RoundNotFound)
    );
    let call = registry.resolve_call(deadline + 1, admin(), 1, false).unwrap();
    assert_eq!(call.reason.as_slice(), b"consensus rejected");
    registry.admin_resolve_round(deadline + 1, admin(), 1, false, text("r"), true).unwrap();
    assert_eq!(
        registry.get_verification_round(1).unwrap().status,
        RoundStatus::ConsensusRejected
    );
    // A new round takes the place of the old one.
    registry.open_verification_round(deadline + 2, 1, text("h"), Some((true, 500))).unwrap();
    assert_eq!(registry.get_verification_round(1).unwrap().status, RoundStatus::Open);
}

#[test]
fn later_stakes_do_not_move_a_round() {
    let mut registry = round_of(&[1_000, 1_000, 1_000]);
    registry.register_oracle(150, oracle(5), 1_000_000).unwrap();
    registry.set_registry_config(admin(), 1, 1, 10_000, 1, 1).unwrap();
    let round = registry.get_verification_round(1).unwrap();
    assert_eq!(round.total_stake_snapshot, 3_000);
    assert_eq!(round.quorum_bps, 6_600);
    assert_eq!(round.required_votes, 3);
}

#[test]
fn a_slash_takes_its_share() {
    let mut registry = round_of(&[1_999]);
    registry.transfers.take_all();
    let refused = error(OracleRegistryError::InvalidBps);
    assert_eq!(registry.slash_oracle(admin(), oracle(0), 0, 1, text("e")), refused);
    assert_eq!(registry.slash_oracle(admin(), oracle(0), 10_001, 1, text("e")), refused);
    assert_eq!(
        registry.slash_oracle(admin(), oracle(0), 5, 1, text("")),
        error(OracleRegistryError::InvalidEvidence)
    );
    assert_eq!(
        registry.slash_oracle(admin(), oracle(0), 5, 2, text("e")),
        error(OracleRegistryError::SlashRoundNotFound)
    );
    assert_eq!(
        registry.slash_oracle(admin(), oracle(8), 5, 1, text("e")),
        error(OracleRegistryError::NotRegistered)
    );

    // A third of 1999, rounded down, with nobody to receive it.
    registry.slash_oracle(admin(), oracle(0), 3_333, 1, text("e")).unwrap();
    assert_eq!(registry.get_oracle_info(oracle(0)).unwrap().stake_amount, 1_999 - 666);
    assert_eq!(registry.get_oracle_info(oracle(0)).unwrap().total_slashes, 1);
    assert_eq!(registry.transfers.len(), 0);

    registry.set_treasury(admin(), Some(oracle(9))).unwrap();
    registry.slash_oracle(admin(), oracle(0), 10_000, 1, text("e")).unwrap();
    assert_eq!(registry.get_oracle_info(oracle(0)).unwrap().stake_amount, 0);
    assert_eq!(
        registry.transfers.take_all(),
        vec![Transfer { token: token(), from: me(), to: oracle(9), amount: 1_333 }]
    );
    assert!(registry.get_oracle_info(oracle(0)).unwrap().is_active);
}

#[test]
fn oracles_leave_in_two_steps() {
    let mut registry = round_of(&[1_000, 1_000, 1_000]);
    assert_eq!(
        registry.deregister_oracle(300, oracle(0)),
        error(OracleRegistryError::DeregisterHasPendingVotes)
    );
    vote(&mut registry, 0, true).unwrap();
    registry.deregister_oracle(300, oracle(0)).unwrap();
    assert!(!registry.get_oracle_info(oracle(0)).unwrap().is_active);
    assert_eq!(registry.list_active_oracles().len(), 2);
    assert_eq!(
        registry.register_oracle(301, oracle(0), 5_000),
        error(OracleRegistryError::AlreadyRegistered)
    );
    assert_eq!(
        registry.deregister_oracle(300 + WEEK - 1, oracle(0)),
        error(OracleRegistryError::DeregisterCooldownActive)
    );
    registry.slash_oracle(admin(), oracle(0), 1_000, 1, text("e")).unwrap();
    registry.transfers.take_all();
    registry.deregister_oracle(300 + WEEK, oracle(0)).unwrap();
    assert_eq!(
        registry.transfers.take_all(),
        vec![Transfer { token: token(), from: me(), to: oracle(0), amount: 900 }]
    );
    assert!(registry.get_oracle_info(oracle(0)).is_none());
    assert_eq!(
        registry.deregister_oracle(300 + WEEK, oracle(0)),
        error(OracleRegistryError::NotRegistered)
    );
    registry.register_oracle(400 + WEEK, oracle(0), 1_000).unwrap();
    assert_eq!(registry.list_active_oracles().len(), 3);
}

#[test]
fn a_paused_registry_stands_still() {
    let mut registry = round_of(&[1_000]);
    registry.pause(admin()).unwrap();
    assert!(registry.is_paused());
    let refused = error(OracleRegistryError::ContractPaused);
    assert_eq!(registry.register_oracle(1, oracle(4), 1_000), refused);
    assert_eq!(registry.deregister_oracle(1, oracle(0)), refused);
    assert_eq!(vote(&mut registry, 0, true), refused);
    assert_eq!(registry.open_verification_round(1, 2, text("h"), Some((true, 1))), refused);
    registry.unpause(admin()).unwrap();
    vote(&mut registry, 0, true).unwrap();
}

#[test]
fn the_registry_announces_what_it_does() {
    let mut registry = round_of(&[1_000]);
    registry.set_registry_config(admin(), 1, 1, 5_000, 1_000, WEEK).unwrap();
    registry.events.take_all();
    vote(&mut registry, 0, true).unwrap();
    let events = registry.events.take_all();
    assert_eq!(events.len(), 1);
    match &events[0] {
        RegistryEvent::Voted { invoice_id, oracle: voter, approved, weight, evidence_hash } => {
            assert_eq!((*invoice_id, *voter, *approved, *weight), (1, oracle(0), true, 1_000));
            assert_eq!(evidence_hash.as_slice(), b"evidence");
        }
        other => panic!("{:?}", other),
    }
    registry.open_verification_round(300, 2, text("h"), Some((true, 500))).unwrap();
    registry.submit_vote(310, oracle(0), 2, false, text("e"), true).unwrap();
    let events = registry.events.take_all();
    assert!(matches!(
        events[0],
        RegistryEvent::RoundOpened { invoice_id: 2, active_count: 1, total_stake: 1_000 }
    ));
    assert!(matches!(events[2], RegistryEvent::Consensus { invoice_id: 2, approved: false }));
}

#[test]
fn registry_errors_have_numbers() {
    assert_eq!(OracleRegistryError::AlreadyInitialized.code(), 0);
    assert_eq!(OracleRegistryError::RoundExpired.code(), 15);
    assert_eq!(OracleRegistryError::SlashRoundNotFound.code(), 24);
}

#[test]
fn the_registry_holds_the_stakes() {
    let mut registry = round_of(&[1_000, 2_000, 3_000]);
    registry.set_treasury(admin(), Some(oracle(9))).unwrap();
    registry.slash_oracle(admin(), oracle(2), 5_000, 1, text("e")).unwrap();
    vote(&mut registry, 0, true).unwrap();
    registry.deregister_oracle(300, oracle(0)).unwrap();
    registry.deregister_oracle(300 + WEEK, oracle(0)).unwrap();
    let mut held: i128 = 0;
    for transfer in registry.transfers.take_all() {
        if transfer.to == me() {
            held += transfer.amount;
        }
        if transfer.from == me() {
            held -= transfer.amount;
        }
    }
    let mut staked: i128 = 0;
    for n in 0..3 {
        if let Some(info) = registry.get_oracle_info(oracle(n)) {
            staked += info.stake_amount;
        }
    }
    assert_eq!((held, staked), (3_500, 3_500));
}
