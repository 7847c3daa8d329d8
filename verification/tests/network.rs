//! The three contracts at work together.

use invoice_ledger::address::Address;
use invoice_ledger::compliance::contract::ComplianceContract;
use invoice_ledger::compliance::types::{ComplianceStatus, RiskTier};
use invoice_ledger::invoice::error::{InvoiceError, InvoiceFailure, Objection};
use invoice_ledger::invoice::state::InvoiceContract;
use invoice_ledger::invoice::types::{Clearance, InvoiceStatus};
use invoice_ledger::invoice::version::parse_version;
use invoice_ledger::oracle_registry::contract::OracleRegistryContract;
use invoice_ledger::oracle_registry::error::OracleRegistryError;
use invoice_ledger::oracle_registry::types::{
    ConsensusCall, QuorumTier, RegistryFailure, RoundStatus,
};
use invoice_ledger::text::Text;
use soroban_sdk::testutils::EnvTestConfig;
use soroban_sdk::Env;
use std::cell::Cell;

/// The contracts, with the calls between them carried out.
struct Network {
    now: u64,
    people: Cell<u128>,
    ledger: InvoiceContract,
    registry: OracleRegistryContract,
    register: ComplianceContract,
    admin: Address,
    pool: Address,
}

const LEDGER: (u128, u128) = (9, 1);
const REGISTRY: (u128, u128) = (9, 2);
const REGISTER: (u128, u128) = (9, 3);

fn contract(name: (u128, u128)) -> Address {
    Address::contract(name.0, name.1)
}

impl Network {
    fn new() -> Network {
        let env = Env::new_with_config(EnvTestConfig { capture_snapshot_at_drop: false });
        env.cost_estimate().budget().reset_unlimited();
        let mut network = Network {
            now: 100_000,
            people: Cell::new(0),
            ledger: InvoiceContract::new(env.clone(), contract(LEDGER), parse_version(b"0.1.0")),
            registry: OracleRegistryContract::new(env.clone(), contract(REGISTRY)),
            register: ComplianceContract::new(env),
            admin: Address::account(1, 0),
            pool: Address::contract(1, 1),
        };
        let (admin, pool) = (network.admin, network.pool);
        network.ledger.initialize(admin, pool, 10_000_000_000, 30 * 86_400, 7).unwrap();
        network
    }

    fn someone(&self) -> Address {
        self.people.set(self.people.get() + 1);
        Address::account(2, self.people.get())
    }

    /// Creates an invoice, after asking the compliance register if need be.
    fn create(&mut self, owner: Address, amount: i128, hash: &str) -> Result<u64, InvoiceFailure> {
        let clearance = match self.ledger.compliance_to_ask() {
            Some(asked) if asked == contract(REGISTER) => {
                if self.register.is_cleared(self.now, owner) {
                    Clearance::Cleared
                } else {
                    Clearance::NotCleared
                }
            }
            _ => Clearance::Unavailable,
        };
        self.ledger.create_invoice(
            self.now,
            owner,
            text("ACME Corp"),
            amount,
            self.now + 30 * 86_400,
            text("Invoice #001"),
            text(hash),
            text("https://example.com/meta"),
            clearance,
        )
    }

    /// Registers the registry with the ledger and lets it decide alone.
    fn connect(&mut self) {
        let admin = self.admin;
        let placeholder = self.someone();
        self.ledger.set_oracle(admin, placeholder).unwrap();
        self.registry.initialize(admin, Address::contract(3, 3), 1_000).unwrap();
        self.registry.set_invoice_contract(admin, contract(LEDGER)).unwrap();
        self.ledger.set_oracle_registry(admin, contract(REGISTRY)).unwrap();
        self.ledger.set_consensus_required(admin, true).unwrap();
    }

    fn oracles(&mut self, count: usize) -> Vec<Address> {
        let mut oracles = Vec::new();
        for _ in 0..count {
            let oracle = self.someone();
            self.registry.register_oracle(self.now, oracle, 1_000).unwrap();
            oracles.push(oracle);
        }
        oracles
    }

    fn open(&mut self, id: u64, hash: &str) -> Result<(), RegistryFailure> {
        let reply = self.ledger.get_invoice_verification_state(id).ok();
        self.registry.open_verification_round(self.now, id, text(hash), reply)
    }

    fn deliver(&mut self, call: &ConsensusCall) -> bool {
        assert_eq!(call.invoice_contract, contract(LEDGER));
        self.ledger
            .consensus_verify(
                self.now,
                call.invoice_id,
                call.registry,
                call.approved,
                call.reason.clone(),
                call.oracle_hash.clone(),
            )
            .is_ok()
    }

    fn vote(&mut self, oracle: Address, id: u64, approved: bool) -> Result<(), RegistryFailure> {
        let accepted = match self.registry.vote_call(self.now, oracle, id, approved)? {
            None => true,
            Some(call) => self.deliver(&call),
        };
        self.registry.submit_vote(self.now, oracle, id, approved, text("e"), accepted)
    }

    fn resolve(&mut self, id: u64, approved: bool, reason: &str) -> Result<(), RegistryFailure> {
        let call = self.registry.resolve_call(self.now, self.admin, id, approved)?;
        let accepted = self.deliver(&call);
        self.registry.admin_resolve_round(
            self.now,
            self.admin,
            id,
            approved,
            text(reason),
            accepted,
        )
    }

    fn status(&self, id: u64) -> InvoiceStatus {
        self.ledger.get_invoice(id).unwrap().status
    }

    fn round(&self, id: u64) -> RoundStatus {
        self.registry.get_verification_round(id).unwrap().status
    }
}

fn text(s: &str) -> Text {
    Text::from_slice(s.as_bytes())
}

#[test]
fn test_default_with_grace_period() {
    let mut network = Network::new();
    let sme = network.someone();
    let grace_secs = network.ledger.get_grace_period() as u64 * 86_400;
    let due_date = network.now + 30 * 86_400;
    let inv_id = network.create(sme, 2_000_000_000, "hash123").unwrap();
    network.ledger.mark_funded(network.now, inv_id, network.pool).unwrap();

    network.now = due_date + grace_secs - 3600;
    assert!(network.now < due_date + grace_secs);

    network.now = due_date + grace_secs + 1;
    network.ledger.mark_defaulted(network.now, inv_id, network.pool).unwrap();
    assert_eq!(network.status(inv_id), InvoiceStatus::Defaulted);
}

#[test]
fn test_within_grace_period_not_defaultable() {
    let mut network = Network::new();
    let sme = network.someone();
    let grace_secs = network.ledger.get_grace_period() as u64 * 86_400;
    let due_date = network.now + 30 * 86_400;
    let inv_id = network.create(sme, 2_000_000_000, "hash123").unwrap();
    network.ledger.mark_funded(network.now, inv_id, network.pool).unwrap();

    network.now = due_date + grace_secs - 3600;
    assert!(network.now < due_date + grace_secs, "should still be within grace period");

    let result = network.ledger.mark_defaulted(network.now, inv_id, network.pool);
    assert!(result.is_err(), "mark_defaulted should fail within grace period");
    assert_eq!(
        result,
        Err(InvoiceFailure::Objection(Objection::GracePeriodNotElapsed {
            default_at: due_date + grace_secs
        }))
    );
}

#[test]
fn test_oracle_verified_funding_flow() {
    let mut network = Network::new();
    let oracle = network.someone();
    let sme = network.someone();
    network.ledger.set_oracle(network.admin, oracle).unwrap();

    let inv_id = network.create(sme, 2_000_000_000, "hash_ovf").unwrap();
    assert_eq!(inv_id, 1);
    assert_eq!(network.status(inv_id), InvoiceStatus::AwaitingVerification);

    assert!(network.ledger.mark_funded(network.now, inv_id, network.pool).is_err());

    network
        .ledger
        .verify_invoice(network.now, inv_id, oracle, true, text(""), text("hash_ovf"))
        .unwrap();
    assert_eq!(network.status(inv_id), InvoiceStatus::Verified);
    assert!(network.ledger.get_invoice(inv_id).unwrap().oracle_verified);

    network.ledger.mark_funded(network.now, inv_id, network.pool).unwrap();
    assert_eq!(network.status(inv_id), InvoiceStatus::Funded);
}

#[test]
fn test_oracle_consensus_quorum_approves_and_pool_funds_invoice() {
    let mut network = Network::new();
    let sme = network.someone();
    network.connect();
    network
        .registry
        .set_registry_config(network.admin, 1_000, 3, 6_000, 3 * 86_400, 7 * 86_400)
        .unwrap();
    let oracles = network.oracles(5);

    let inv_id = network.create(sme, 2_000_000_000, "hash123").unwrap();
    assert_eq!(network.status(inv_id), InvoiceStatus::AwaitingVerification);

    let alone = network.ledger.verify_invoice(
        network.now,
        inv_id,
        oracles[0],
        true,
        text(""),
        text("hash123"),
    );
    assert_eq!(
        alone,
        Err(InvoiceFailure::Error(InvoiceError::ConsensusVerificationRequired))
    );

    network.open(inv_id, "hash123").unwrap();

    // Two reject: 40% of the stake decide nothing.
    network.vote(oracles[0], inv_id, false).unwrap();
    network.vote(oracles[1], inv_id, false).unwrap();
    assert_eq!(network.round(inv_id), RoundStatus::Open);

    // Three approve: 3000 of 5000 is exactly the quorum.
    network.vote(oracles[2], inv_id, true).unwrap();
    network.vote(oracles[3], inv_id, true).unwrap();
    network.vote(oracles[4], inv_id, true).unwrap();

    let round = network.registry.get_verification_round(inv_id).unwrap();
    assert_eq!(round.status, RoundStatus::ConsensusApproved);
    assert_eq!(round.weight_for, 3_000i128);
    assert_eq!(round.weight_against, 2_000i128);

    assert_eq!(network.status(inv_id), InvoiceStatus::Verified);
    assert!(network.ledger.get_invoice(inv_id).unwrap().oracle_verified);

    network.ledger.mark_funded(network.now, inv_id, network.pool).unwrap();
    assert_eq!(network.status(inv_id), InvoiceStatus::Funded);
}

#[test]
fn test_oracle_consensus_round_expires_then_admin_fallback_resolves() {
    let mut network = Network::new();
    let sme = network.someone();
    network.connect();
    let oracles = network.oracles(5);
    let inv_id = network.create(sme, 2_000_000_000, "hash123").unwrap();
    network.open(inv_id, "hash123").unwrap();

    network.vote(oracles[0], inv_id, true).unwrap();
    assert_eq!(network.round(inv_id), RoundStatus::Open);

    network.now += 3 * 86_400 + 1;
    network.registry.expire_round(network.now, inv_id).unwrap();
    assert_eq!(network.round(inv_id), RoundStatus::Expired);
    assert_eq!(network.status(inv_id), InvoiceStatus::AwaitingVerification);

    network.resolve(inv_id, true, "manual review: oracle participation too low").unwrap();
    assert_eq!(network.status(inv_id), InvoiceStatus::Verified);
    assert_eq!(network.round(inv_id), RoundStatus::ConsensusApproved);

    network.ledger.mark_funded(network.now, inv_id, network.pool).unwrap();
    assert_eq!(network.status(inv_id), InvoiceStatus::Funded);
}

#[test]
fn a_rejection_disputes_the_invoice() {
    let mut network = Network::new();
    let sme = network.someone();
    network.connect();
    let oracles = network.oracles(3);
    let id = network.create(sme, 5_000, "h").unwrap();
    network.open(id, "h").unwrap();
    network.vote(oracles[0], id, true).unwrap();
    network.vote(oracles[1], id, false).unwrap();
    // 6600 of 10000 of a stake of 3000 is 1980: two votes against are enough.
    network.vote(oracles[2], id, false).unwrap();
    assert_eq!(network.round(id), RoundStatus::ConsensusRejected);
    assert_eq!(network.status(id), InvoiceStatus::Disputed);
    let invoice = network.ledger.get_invoice(id).unwrap();
    assert_eq!(invoice.dispute_reason.as_slice(), b"consensus rejected");
    assert_eq!(invoice.disputed_at, 100_000);
    assert!(!invoice.oracle_verified);
}

#[test]
fn a_round_about_another_hash_decides_nothing() {
    let mut network = Network::new();
    let sme = network.someone();
    network.connect();
    let oracles = network.oracles(3);
    let id = network.create(sme, 5_000, "h").unwrap();
    network.open(id, "other").unwrap();
    network.vote(oracles[0], id, true).unwrap();
    network.vote(oracles[1], id, true).unwrap();
    assert_eq!(
        network.vote(oracles[2], id, true),
        Err(RegistryFailure::Error(OracleRegistryError::InvoiceCallFailed))
    );
    assert_eq!(network.round(id), RoundStatus::Open);
    assert_eq!(network.status(id), InvoiceStatus::AwaitingVerification);
    assert_eq!(network.registry.get_round_votes(id).len(), 2);
}

#[test]
fn rounds_open_on_waiting_invoices_alone() {
    let mut network = Network::new();
    let sme = network.someone();
    let early = network.create(sme, 5_000, "h").unwrap();
    network.connect();
    network.oracles(1);
    assert_eq!(network.status(early), InvoiceStatus::Pending);
    assert_eq!(
        network.open(early, "h"),
        Err(RegistryFailure::Error(OracleRegistryError::InvoiceNotAwaitingVerification))
    );
    assert_eq!(
        network.open(77, "h"),
        Err(RegistryFailure::Error(OracleRegistryError::InvoiceCallFailed))
    );
    let id = network.create(sme, 5_000, "h").unwrap();
    network.open(id, "h").unwrap();
    assert_eq!(
        network.open(id, "h"),
        Err(RegistryFailure::Error(OracleRegistryError::RoundAlreadyOpen))
    );
}

#[test]
fn the_quorum_goes_by_the_amount() {
    let mut network = Network::new();
    let sme = network.someone();
    network.connect();
    network.oracles(1);
    network
        .registry
        .set_quorum_tiers(
            network.admin,
            vec![
                QuorumTier { min_invoice_amount: 1_000, quorum_bps: 7_000 },
                QuorumTier { min_invoice_amount: 50_000, quorum_bps: 9_000 },
            ],
        )
        .unwrap();
    for (amount, bps) in [(999, 6_600), (1_000, 7_000), (49_999, 7_000), (50_000, 9_000)] {
        let id = network.create(sme, amount, "h").unwrap();
        network.open(id, "h").unwrap();
        assert_eq!(network.registry.get_verification_round(id).unwrap().quorum_bps, bps);
    }
}

#[test]
fn another_registry_is_refused() {
    let mut network = Network::new();
    let sme = network.someone();
    let id = network.create(sme, 5_000, "h").unwrap();
    let stranger = network.someone();
    assert_eq!(
        network.ledger.consensus_verify(network.now, id, stranger, true, text(""), text("h")),
        Err(InvoiceFailure::Error(InvoiceError::OracleRegistryNotConfigured))
    );
    network.connect();
    assert_eq!(
        network.ledger.consensus_verify(network.now, id, stranger, true, text(""), text("h")),
        Err(InvoiceFailure::Error(InvoiceError::UnauthorizedRegistry))
    );
}

#[test]
fn owners_need_a_clearance() {
    let mut network = Network::new();
    let sme = network.someone();
    let admin = network.admin;
    network.register.initialize(admin).unwrap();
    network.ledger.set_require_compliance_check(admin, true).unwrap();
    assert_eq!(
        network.create(sme, 5_000, "h"),
        Err(InvoiceFailure::Error(InvoiceError::ComplianceRegistryNotConfigured))
    );
    network.ledger.set_compliance_registry(admin, contract(REGISTER)).unwrap();
    assert_eq!(network.ledger.compliance_to_ask(), Some(contract(REGISTER)));
    assert_eq!(
        network.create(sme, 5_000, "h"),
        Err(InvoiceFailure::Error(InvoiceError::ComplianceNotCleared))
    );

    let until = network.now + 1_000;
    network
        .register
        .submit_screening_result(
            network.now,
            admin,
            sme,
            ComplianceStatus::Cleared,
            0,
            RiskTier::Low,
            until,
            text("notes"),
        )
        .unwrap();
    assert_eq!(network.create(sme, 5_000, "h"), Ok(1));

    network.now = until;
    assert_eq!(
        network.create(sme, 5_000, "h"),
        Err(InvoiceFailure::Error(InvoiceError::ComplianceNotCleared))
    );

    network.ledger.set_compliance_registry(admin, contract((9, 9))).unwrap();
    assert_eq!(
        network.create(sme, 5_000, "h"),
        Err(InvoiceFailure::Error(InvoiceError::ComplianceCheckFailed))
    );
}

#[test]
fn a_review_keeps_an_owner_out() {
    let mut network = Network::new();
    let sme = network.someone();
    let neighbour = network.someone();
    let admin = network.admin;
    network.register.initialize(admin).unwrap();
    network.ledger.set_require_compliance_check(admin, true).unwrap();
    network.ledger.set_compliance_registry(admin, contract(REGISTER)).unwrap();
    network
        .register
        .submit_screening_result(
            network.now,
            admin,
            sme,
            ComplianceStatus::Cleared,
            0,
            RiskTier::Low,
            0,
            text("notes"),
        )
        .unwrap();
    assert_eq!(network.create(sme, 5_000, "h"), Ok(1));
    network.register.request_review(network.now, neighbour, sme, text("odd")).unwrap();
    assert_eq!(
        network.create(sme, 5_000, "h"),
        Err(InvoiceFailure::Error(InvoiceError::ComplianceNotCleared))
    );
}
