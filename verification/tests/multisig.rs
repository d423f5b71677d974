use soroban_devkit_contracts::common::{Addr, Payment};
use soroban_devkit_contracts::multisig::{MultisigContract, MultisigError, MultisigEvent};
use soroban_devkit_contracts::token::TokenContract;

const CONTRACT: Addr = 100;
const TOKEN: Addr = 200;
const TOKEN_ADMIN: Addr = 1;
const RECIPIENT: Addr = 2;
const STRANGER: Addr = 3;

fn setup(n: u64, threshold: u32) -> (Vec<Addr>, MultisigContract) {
    let signers: Vec<Addr> = (0..n).map(|i| 10 + i).collect();
    let mut c = MultisigContract::new();
    c.initialize(signers.clone(), threshold).unwrap();
    (signers, c)
}

fn token_with_custody() -> TokenContract {
    let mut t = TokenContract::new();
    t.initialize(TOKEN_ADMIN, "DevKit Token".to_string(), "DKT".to_string(), 7).unwrap();
    t.mint(CONTRACT, 1_000_000).unwrap();
    t
}

fn settle(token: &mut TokenContract, p: Payment) {
    match p {
        Payment::Out { token: t, to, amount } => {
            assert_eq!(t, TOKEN);
            token.transfer(CONTRACT, to, amount).unwrap();
        }
        Payment::In { .. } => panic!("the multisig never pulls funds"),
    }
}

#[test]
fn test_initialize() {
    let (_, c) = setup(3, 2);
    assert_eq!(c.threshold(), 2);
}

#[test]
fn test_execute_transfers_real_token_balance() {
    let (signers, mut c) = setup(3, 2);
    let mut token = token_with_custody();
    let (id, _) = c.propose(signers[0], RECIPIENT, 400_000, TOKEN).unwrap();
    c.approve(signers[0], id).unwrap();
    c.approve(signers[1], id).unwrap();
    let (payment, event) = c.execute(signers[0], id).unwrap();
    assert_eq!(event, MultisigEvent::Executed { proposal_id: id, executor: signers[0] });
    settle(&mut token, payment);
    assert_eq!(token.balance(RECIPIENT), 400_000);
    assert_eq!(token.balance(CONTRACT), 600_000);
}

#[test]
fn test_execute_twice_panics() {
    let (signers, mut c) = setup(3, 2);
    let mut token = token_with_custody();
    let (id, _) = c.propose(signers[0], RECIPIENT, 400_000, TOKEN).unwrap();
    c.approve(signers[0], id).unwrap();
    c.approve(signers[1], id).unwrap();
    let (payment, _) = c.execute(signers[0], id).unwrap();
    settle(&mut token, payment);
    assert_eq!(c.execute(signers[0], id), Err(MultisigError::AlreadyExecuted));
    assert_eq!(token.balance(RECIPIENT), 400_000);
}

#[test]
fn test_propose_and_approve() {
    let (signers, mut c) = setup(3, 2);
    let (id, _) = c.propose(signers[0], RECIPIENT, 1_000_000, TOKEN).unwrap();
    c.approve(signers[0], id).unwrap();
    assert_eq!(c.approval_count(id), 1);
    c.approve(signers[1], id).unwrap();
    assert_eq!(c.approval_count(id), 2);
}

#[test]
fn multisig_initialize_validates_threshold() {
    let mut c = MultisigContract::new();
    assert_eq!(c.initialize(vec![10, 11], 0), Err(MultisigError::InvalidThreshold));
    assert_eq!(c.initialize(vec![10, 11], 3), Err(MultisigError::InvalidThreshold));
    assert!(!c.is_initialized());
    c.initialize(vec![10, 11], 2).unwrap();
    assert_eq!(c.initialize(vec![12], 1), Err(MultisigError::AlreadyInitialized));
    assert_eq!(c.get_signers(), &vec![10, 11]);
}

#[test]
fn multisig_execute_needs_threshold_approvals() {
    let (signers, mut c) = setup(3, 2);
    let (id, _) = c.propose(signers[2], RECIPIENT, 5, TOKEN).unwrap();
    c.approve(signers[0], id).unwrap();
    assert_eq!(c.execute(signers[1], id), Err(MultisigError::InsufficientApprovals));
    c.approve(signers[2], id).unwrap();
    let (payment, _) = c.execute(signers[1], id).unwrap();
    assert_eq!(payment, Payment::Out { token: TOKEN, to: RECIPIENT, amount: 5 });
}

#[test]
fn multisig_repeated_approval_counts_once() {
    let (signers, mut c) = setup(3, 2);
    let (id, _) = c.propose(signers[0], RECIPIENT, 5, TOKEN).unwrap();
    c.approve(signers[0], id).unwrap();
    c.approve(signers[0], id).unwrap();
    assert_eq!(c.approval_count(id), 1);
    assert_eq!(c.execute(signers[0], id), Err(MultisigError::InsufficientApprovals));
}

#[test]
fn multisig_strangers_are_refused() {
    let (signers, mut c) = setup(2, 1);
    assert_eq!(c.propose(STRANGER, RECIPIENT, 5, TOKEN), Err(MultisigError::NotSigner));
    let (id, e) = c.propose(signers[1], RECIPIENT, 5, TOKEN).unwrap();
    assert_eq!(e, MultisigEvent::Proposed { id, proposer: signers[1], to: RECIPIENT, amount: 5 });
    assert_eq!(c.approve(STRANGER, id), Err(MultisigError::NotSigner));
    assert_eq!(c.execute(STRANGER, id), Err(MultisigError::NotSigner));
    assert_eq!(c.approve(signers[0], 9), Err(MultisigError::ProposalNotFound));
}

#[test]
fn multisig_no_approval_after_execution() {
    let (signers, mut c) = setup(2, 1);
    let (id, _) = c.propose(signers[0], RECIPIENT, 5, TOKEN).unwrap();
    c.approve(signers[0], id).unwrap();
    c.execute(signers[0], id).unwrap();
    assert_eq!(c.approve(signers[1], id), Err(MultisigError::AlreadyExecuted));
}

#[test]
fn multisig_error_codes_are_stable() {
    assert_eq!(MultisigError::AlreadyInitialized.code(), 1);
    assert_eq!(MultisigError::InvalidThreshold.code(), 2);
    assert_eq!(MultisigError::NotSigner.code(), 3);
    assert_eq!(MultisigError::ProposalNotFound.code(), 4);
    assert_eq!(MultisigError::AlreadyExecuted.code(), 5);
    assert_eq!(MultisigError::InsufficientApprovals.code(), 6);
}
