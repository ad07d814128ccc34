//! Adversarial and happy-path scenarios against the public protocol surface.
//!
//! Each missing-predicate scenario runs `apply_with_chain` with a chain that
//! leaves one constraint out, and shows what that omission allows; the fixed
//! scenarios run the full expected chain and show the same request refused.

use authcore::account::{RecordState, ResourceAccount};
use authcore::address::{Address, Identity};
use authcore::constraint::Constraint;
use authcore::coordinator::TransactionCoordinator;
use authcore::deriver::derive_address;
use authcore::errors::ProtocolError;
use authcore::ops::Operation;
use authcore::registry::AccountRegistry;

fn addr(tag: u8) -> Address {
    let mut bytes = [0u8; 32];
    bytes[0] = tag;
    bytes[31] = tag;
    Address::new(bytes)
}

fn signer(key: Address) -> Identity {
    Identity { public_key: key, signed: true }
}

fn message_content(reg: &AccountRegistry, i: usize) -> Vec<u8> {
    match &reg.record(i).state {
        RecordState::MessageBox { content } => content.clone(),
        other => panic!("expected a message box, found {:?}", other),
    }
}

fn fee_of(reg: &AccountRegistry, i: usize) -> u16 {
    match &reg.record(i).state {
        RecordState::FeeConfig { fee_bps } => *fee_bps,
        other => panic!("expected a fee config, found {:?}", other),
    }
}

fn balance_of(reg: &AccountRegistry, i: usize) -> u64 {
    match &reg.record(i).state {
        RecordState::Vault { balance } => *balance,
        other => panic!("expected a vault, found {:?}", other),
    }
}

fn paused_of(reg: &AccountRegistry, i: usize) -> bool {
    match &reg.record(i).state {
        RecordState::Settings { paused } => *paused,
        other => panic!("expected settings, found {:?}", other),
    }
}

#[test]
fn vulnerable_allows_foreign_owner_overwrite() {
    // With no constraint chain at all — the missing-validation defect — a
    // record owned by a foreign component is overwritten by anyone.
    let component = addr(1);
    let foreign_owner = addr(2);
    let target = addr(3);
    let coordinator = TransactionCoordinator::new(component);
    let mut reg = AccountRegistry::new();
    assert!(reg.insert(ResourceAccount::new(
        target,
        foreign_owner,
        addr(4),
        RecordState::MessageBox { content: vec![0u8; 32] },
    )));

    let msg = b"pwned".to_vec();
    let empty_chain: Vec<Constraint> = Vec::new();
    let r = coordinator.apply_with_chain(
        &mut reg,
        &target,
        Operation::SetMessage { content: msg.clone() },
        &vec![],
        &empty_chain,
        None,
    );
    assert!(r.is_ok());
    assert_eq!(message_content(&reg, 0), msg);
}

#[test]
fn safe_rejects_wrong_owner() {
    // The full chain refuses a record owned by a foreign component before
    // anything else is looked at.
    let component = addr(1);
    let foreign_owner = addr(2);
    let authority = addr(5);
    let target = addr(3);
    let coordinator = TransactionCoordinator::new(component);
    let mut reg = AccountRegistry::new();
    assert!(reg.insert(ResourceAccount::new(
        target,
        foreign_owner,
        authority,
        RecordState::MessageBox { content: b"init".to_vec() },
    )));

    let r = coordinator.apply(
        &mut reg,
        &target,
        Operation::SetMessage { content: b"message".to_vec() },
        &vec![signer(authority)],
        None,
    );
    assert_eq!(r, Err(ProtocolError::OwnershipMismatch));
    assert_eq!(message_content(&reg, 0), b"init".to_vec());
}

#[test]
fn safe_accepts_pda_and_updates_content() {
    // A message box stored at its derived address, owned by this component
    // and bound to its authority, accepts an update from that authority.
    let component = addr(1);
    let authority = addr(5);
    let coordinator = TransactionCoordinator::new(component);

    let seeds = vec![b"message".to_vec(), authority.to_seed()];
    let (pda, _bump) = derive_address(&seeds, &component).expect("derivation should succeed");

    let mut reg = AccountRegistry::new();
    assert!(reg.insert(ResourceAccount::new(
        pda,
        component,
        authority,
        RecordState::MessageBox { content: b"init".to_vec() },
    )));

    let r = coordinator.apply(
        &mut reg,
        &pda,
        Operation::SetMessage { content: b"hello".to_vec() },
        &vec![signer(authority)],
        None,
    );
    assert!(r.is_ok());
    assert_eq!(message_content(&reg, 0), b"hello".to_vec());
    assert_eq!(reg.record(0).authority, authority);
}

#[test]
fn attack_succeeds_against_vulnerable_program() {
    // The substitution attack: with the chain left out, an attacker points
    // the operation at any record they like and rewrites it.
    let component = addr(1);
    let foreign_owner = addr(2);
    let target = addr(3);
    let attacker = addr(9);
    let coordinator = TransactionCoordinator::new(component);
    let mut reg = AccountRegistry::new();
    assert!(reg.insert(ResourceAccount::new(
        target,
        foreign_owner,
        addr(4),
        RecordState::MessageBox { content: vec![0u8; 64] },
    )));

    let msg = b"pwned-by-attacker".to_vec();
    let empty_chain: Vec<Constraint> = Vec::new();
    let r = coordinator.apply_with_chain(
        &mut reg,
        &target,
        Operation::SetMessage { content: msg.clone() },
        &vec![signer(attacker)],
        &empty_chain,
        None,
    );
    assert!(r.is_ok());
    assert_eq!(message_content(&reg, 0), msg);
}

#[test]
fn attack_fails_against_fixed_program() {
    // A record stored at an address derived from the wrong seeds passes the
    // type, ownership and authority checks but not the derivation check.
    let component = addr(1);
    let authority = addr(5);
    let coordinator = TransactionCoordinator::new(component);

    let wrong_seeds = vec![b"not-message".to_vec(), authority.to_seed()];
    let (wrong_pda, _bump) =
        derive_address(&wrong_seeds, &component).expect("derivation should succeed");

    let mut reg = AccountRegistry::new();
    assert!(reg.insert(ResourceAccount::new(
        wrong_pda,
        component,
        authority,
        RecordState::MessageBox { content: b"init".to_vec() },
    )));

    let r = coordinator.apply(
        &mut reg,
        &wrong_pda,
        Operation::SetMessage { content: b"message".to_vec() },
        &vec![signer(authority)],
        None,
    );
    assert_eq!(
        r,
        Err(ProtocolError::AddressDerivationMismatch),
        "constraints should reject wrong PDA seeds"
    );
    assert_eq!(message_content(&reg, 0), b"init".to_vec());
}

#[test]
fn vuln_allows_non_admin_to_set_fee() {
    // With the authority-binding predicate left out, any signer passes: the
    // stored admin key is never compared.
    let component = addr(1);
    let admin = addr(5);
    let attacker = addr(9);
    let config = addr(3);
    let coordinator = TransactionCoordinator::new(component);
    let mut reg = AccountRegistry::new();
    assert!(reg.insert(ResourceAccount::new(
        config,
        component,
        admin,
        RecordState::FeeConfig { fee_bps: 50 },
    )));

    let op = Operation::SetFee { fee_bps: 9_999 };
    let ids = vec![signer(attacker)];
    let mut chain = coordinator.expected_constraint_chain(&op, &ids);
    chain.retain(|c| !matches!(c, Constraint::AuthorityBinding { .. }));
    let r = coordinator.apply_with_chain(&mut reg, &config, op, &ids, &chain, None);
    assert!(r.is_ok());
    assert_eq!(fee_of(&reg, 0), 9_999);
    assert_eq!(reg.record(0).authority, admin);
}

#[test]
fn safe_enforces_admin_and_bounds() {
    let component = addr(1);
    let admin = addr(5);
    let attacker = addr(9);
    let config = addr(3);
    let coordinator = TransactionCoordinator::new(component);
    let mut reg = AccountRegistry::new();
    assert!(reg.insert(ResourceAccount::new(
        config,
        component,
        admin,
        RecordState::FeeConfig { fee_bps: 50 },
    )));

    // A non-admin signer is refused outright.
    let r = coordinator.apply(
        &mut reg,
        &config,
        Operation::SetFee { fee_bps: 250 },
        &vec![signer(attacker)],
        None,
    );
    assert_eq!(r, Err(ProtocolError::UnauthorizedSigner));
    assert_eq!(fee_of(&reg, 0), 50);

    // Even the admin cannot set a fee above the bound.
    assert!(20_000 > authcore::ops::FEE_LIMIT_BPS);
    let r = coordinator.apply(
        &mut reg,
        &config,
        Operation::SetFee { fee_bps: 20_000 },
        &vec![signer(admin)],
        None,
    );
    assert_eq!(r, Err(ProtocolError::BoundsViolation));
    assert_eq!(fee_of(&reg, 0), 50);

    // The admin acting within bounds succeeds.
    let r = coordinator.apply(
        &mut reg,
        &config,
        Operation::SetFee { fee_bps: 250 },
        &vec![signer(admin)],
        None,
    );
    assert!(r.is_ok());
    assert_eq!(fee_of(&reg, 0), 250);
}

#[test]
fn lib_attack_succeeds_against_vulnerable_program() {
    // The authority-escalation attack against a chain missing its binding
    // predicate: the attacker signs and the fee changes.
    let component = addr(1);
    let admin = addr(5);
    let attacker = addr(9);
    let config = addr(3);
    let coordinator = TransactionCoordinator::new(component);
    let mut reg = AccountRegistry::new();
    assert!(reg.insert(ResourceAccount::new(
        config,
        component,
        admin,
        RecordState::FeeConfig { fee_bps: 100 },
    )));

    let op = Operation::SetFee { fee_bps: 777 };
    let ids = vec![signer(attacker)];
    let mut chain = coordinator.expected_constraint_chain(&op, &ids);
    chain.retain(|c| !matches!(c, Constraint::AuthorityBinding { .. }));
    let r = coordinator.apply_with_chain(&mut reg, &config, op, &ids, &chain, None);
    assert!(r.is_ok());
    assert_eq!(fee_of(&reg, 0), 777);
    assert_eq!(reg.record(0).authority, admin);
}

#[test]
fn lib_attack_fails_against_fixed_program() {
    // The same attack against the full chain: the signer's key is compared
    // against the stored admin key and the request is refused.
    let component = addr(1);
    let admin = addr(5);
    let attacker = addr(9);
    let config = addr(3);
    let coordinator = TransactionCoordinator::new(component);
    let mut reg = AccountRegistry::new();
    assert!(reg.insert(ResourceAccount::new(
        config,
        component,
        admin,
        RecordState::FeeConfig { fee_bps: 100 },
    )));

    let r = coordinator.apply(
        &mut reg,
        &config,
        Operation::SetFee { fee_bps: 777 },
        &vec![signer(attacker)],
        None,
    );
    assert_eq!(
        r,
        Err(ProtocolError::UnauthorizedSigner),
        "has_one constraint should reject non-admin signer"
    );
    assert_eq!(fee_of(&reg, 0), 100);
}

#[test]
fn safe_blocks_underflow_and_allows_valid_withdraw() {
    let component = addr(1);
    let owner = addr(5);
    let vault = addr(3);
    let coordinator = TransactionCoordinator::new(component);
    let mut reg = AccountRegistry::new();
    assert!(reg.insert(ResourceAccount::new(
        vault,
        component,
        owner,
        RecordState::Vault { balance: 10 },
    )));

    // Withdrawing more than the balance is caught by the checked subtraction.
    let r = coordinator.apply(
        &mut reg,
        &vault,
        Operation::Withdraw { amount: 11 },
        &vec![signer(owner)],
        None,
    );
    assert_eq!(r, Err(ProtocolError::ArithmeticUnderflow));
    assert_eq!(balance_of(&reg, 0), 10);

    // A valid withdrawal passes.
    let r = coordinator.apply(
        &mut reg,
        &vault,
        Operation::Withdraw { amount: 5 },
        &vec![signer(owner)],
        None,
    );
    assert!(r.is_ok());
    assert_eq!(balance_of(&reg, 0), 5);
}

#[test]
fn underflow_succeeds_against_vulnerable_program() {
    // The defect this core refuses to reproduce: unguarded subtraction on a
    // u64 balance wraps to an astronomically large value in release builds.
    assert_eq!(10u64.wrapping_sub(11), u64::MAX);

    // Even with every constraint stripped from the chain, the checked effect
    // still refuses the underflow: the unsafe path does not exist here.
    let component = addr(1);
    let vault = addr(3);
    let coordinator = TransactionCoordinator::new(component);
    let mut reg = AccountRegistry::new();
    assert!(reg.insert(ResourceAccount::new(
        vault,
        addr(2),
        addr(9),
        RecordState::Vault { balance: 10 },
    )));

    let empty_chain: Vec<Constraint> = Vec::new();
    let r = coordinator.apply_with_chain(
        &mut reg,
        &vault,
        Operation::Withdraw { amount: 11 },
        &vec![],
        &empty_chain,
        None,
    );
    assert_eq!(r, Err(ProtocolError::ArithmeticUnderflow));
    assert_eq!(balance_of(&reg, 0), 10);
}

#[test]
fn underflow_blocked_by_fixed_program() {
    let component = addr(1);
    let owner = addr(5);
    let vault = addr(3);
    let coordinator = TransactionCoordinator::new(component);
    let mut reg = AccountRegistry::new();
    assert!(reg.insert(ResourceAccount::new(
        vault,
        component,
        owner,
        RecordState::Vault { balance: 10 },
    )));

    let r = coordinator.apply(
        &mut reg,
        &vault,
        Operation::Withdraw { amount: 11 },
        &vec![signer(owner)],
        None,
    );
    let err = r.unwrap_err();
    assert!(err.message().to_lowercase().contains("insufficient"));
    assert_eq!(balance_of(&reg, 0), 10);
}

#[test]
fn vuln_allows_stale_write_after_external_call() {
    // The stale-write scenario: a vault holds 1000 and the outer transaction
    // withdraws 100. In the vulnerable ordering, a nested withdrawal of 500
    // during the external call is later overwritten from a stale snapshot,
    // leaving 900 as if the 500 never left. Under check-effects-interactions
    // plus the lock, the effect is committed before the interaction window
    // opens, the nested withdrawal is refused, and 900 is the true final
    // balance.
    let component = addr(1);
    let owner = addr(5);
    let vault = addr(3);
    let coordinator = TransactionCoordinator::new(component);
    let mut reg = AccountRegistry::new();
    assert!(reg.insert(ResourceAccount::new(
        vault,
        component,
        owner,
        RecordState::Vault { balance: 1_000 },
    )));

    let ids = vec![signer(owner)];
    let op = Operation::Withdraw { amount: 100 };
    let chain = coordinator.expected_constraint_chain(&op, &ids);
    let transaction = coordinator
        .begin(&mut reg, &vault, op, &ids, &chain)
        .expect("outer withdrawal should pass validation");

    // The effect is already visible inside the interaction window: a nested
    // observer reads 900, not a stale 1000.
    assert_eq!(balance_of(&reg, 0), 900);

    // A nested withdrawal re-entering the protocol is refused by the lock,
    // and rolls nothing back.
    let nested = coordinator.apply(
        &mut reg,
        &vault,
        Operation::Withdraw { amount: 500 },
        &ids,
        None,
    );
    assert_eq!(nested, Err(ProtocolError::ReentrancyBlocked));
    assert_eq!(balance_of(&reg, 0), 900);

    // The outer transaction commits; the nested attempt cost nothing.
    let r = coordinator.complete(&mut reg, transaction, true);
    assert!(r.is_ok());
    assert_eq!(balance_of(&reg, 0), 900);
    assert!(!reg.record(0).locked);
}

#[test]
fn vuln_allows_any_signer_to_toggle() {
    // With the authority binding left out, any signer flips the switch.
    let component = addr(1);
    let owner = addr(5);
    let attacker = addr(9);
    let settings = addr(3);
    let coordinator = TransactionCoordinator::new(component);
    let mut reg = AccountRegistry::new();
    assert!(reg.insert(ResourceAccount::new(
        settings,
        component,
        owner,
        RecordState::Settings { paused: false },
    )));

    let op = Operation::TogglePause;
    let ids = vec![signer(attacker)];
    let mut chain = coordinator.expected_constraint_chain(&op, &ids);
    chain.retain(|c| !matches!(c, Constraint::AuthorityBinding { .. }));
    let r = coordinator.apply_with_chain(&mut reg, &settings, op, &ids, &chain, None);
    assert!(r.is_ok());
    assert!(paused_of(&reg, 0));
}

#[test]
fn fix_requires_owner_to_toggle() {
    let component = addr(1);
    let owner = addr(5);
    let attacker = addr(9);
    let settings = addr(3);
    let coordinator = TransactionCoordinator::new(component);
    let mut reg = AccountRegistry::new();
    assert!(reg.insert(ResourceAccount::new(
        settings,
        component,
        owner,
        RecordState::Settings { paused: false },
    )));

    // An unauthorized signer is refused and the switch is untouched.
    let r = coordinator.apply(
        &mut reg,
        &settings,
        Operation::TogglePause,
        &vec![signer(attacker)],
        None,
    );
    assert_eq!(r, Err(ProtocolError::UnauthorizedSigner));
    assert!(!paused_of(&reg, 0));

    // The owner toggles.
    let r = coordinator.apply(
        &mut reg,
        &settings,
        Operation::TogglePause,
        &vec![signer(owner)],
        None,
    );
    assert!(r.is_ok());
    assert!(paused_of(&reg, 0));
}
