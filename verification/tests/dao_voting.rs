use soroban_devkit_contracts::common::Addr;
use soroban_devkit_contracts::dao_voting::{
    DaoEvent, DaoVotingContract, DaoVotingError, ProposalStatus,
};

const PROPOSER: Addr = 1;
const VOTER1: Addr = 2;
const VOTER2: Addr = 3;

fn setup() -> DaoVotingContract {
    DaoVotingContract::new()
}

#[test]
fn test_propose_creates_active_proposal() {
    let mut c = setup();
    let (id, event) = c.propose(PROPOSER, "Raise the fee cap".to_string(), 1_000, 0);
    assert_eq!(event, DaoEvent::Proposed { id, proposer: PROPOSER, deadline: 1_000 });
    let proposal = c.get_proposal(id).unwrap();
    assert_eq!(proposal.status, ProposalStatus::Active);
    assert_eq!(proposal.for_votes, 0);
    assert_eq!(proposal.against_votes, 0);
    assert_eq!(proposal.proposer, PROPOSER);
    assert_eq!(proposal.description, "Raise the fee cap");
}

#[test]
fn test_vote_for_increments_for_votes() {
    let mut c = setup();
    let (id, _) = c.propose(PROPOSER, "Proposal".to_string(), 1_000, 0);
    c.vote(VOTER1, id, true, 0).unwrap();
    assert_eq!(c.get_proposal(id).unwrap().for_votes, 1);
    assert_eq!(c.get_proposal(id).unwrap().against_votes, 0);
}

#[test]
fn test_vote_against_increments_against_votes() {
    let mut c = setup();
    let (id, _) = c.propose(PROPOSER, "Proposal".to_string(), 1_000, 0);
    c.vote(VOTER1, id, false, 0).unwrap();
    assert_eq!(c.get_proposal(id).unwrap().against_votes, 1);
    assert_eq!(c.get_proposal(id).unwrap().for_votes, 0);
}

#[test]
fn test_cannot_vote_twice() {
    let mut c = setup();
    let (id, _) = c.propose(PROPOSER, "Proposal".to_string(), 1_000, 0);
    c.vote(VOTER1, id, true, 0).unwrap();
    assert_eq!(c.vote(VOTER1, id, false, 0), Err(DaoVotingError::AlreadyVoted));
    assert_eq!(c.get_proposal(id).unwrap().for_votes, 1);
    assert_eq!(c.get_proposal(id).unwrap().against_votes, 0);
}

#[test]
fn test_cannot_vote_after_deadline() {
    let mut c = setup();
    let (id, _) = c.propose(PROPOSER, "Proposal".to_string(), 1_000, 0);
    assert_eq!(c.vote(VOTER1, id, true, 1_001), Err(DaoVotingError::WrongPhase));
}

#[test]
fn test_finalize_before_deadline_panics() {
    let mut c = setup();
    let (id, _) = c.propose(PROPOSER, "Proposal".to_string(), 1_000, 0);
    assert_eq!(c.finalize(PROPOSER, id, 0), Err(DaoVotingError::WrongPhase));
}

#[test]
fn test_finalize_passes_when_for_gt_against() {
    let mut c = setup();
    let (id, _) = c.propose(PROPOSER, "Proposal".to_string(), 1_000, 0);
    c.vote(VOTER1, id, true, 0).unwrap();
    c.vote(VOTER2, id, true, 0).unwrap();
    let (passed, event) = c.finalize(PROPOSER, id, 1_001).unwrap();
    assert!(passed);
    assert_eq!(event, DaoEvent::Finalized { id, caller: PROPOSER, passed: true });
    assert_eq!(c.get_proposal(id).unwrap().status, ProposalStatus::Passed);
}

#[test]
fn test_finalize_rejects_on_tie() {
    let mut c = setup();
    let (id, _) = c.propose(PROPOSER, "Proposal".to_string(), 1_000, 0);
    c.vote(VOTER1, id, true, 0).unwrap();
    c.vote(VOTER2, id, false, 0).unwrap();
    let (passed, _) = c.finalize(PROPOSER, id, 1_001).unwrap();
    assert!(!passed);
    assert_eq!(c.get_proposal(id).unwrap().status, ProposalStatus::Rejected);
}

#[test]
fn test_cannot_vote_after_finalize() {
    let mut c = setup();
    let (id, _) = c.propose(PROPOSER, "Proposal".to_string(), 1_000, 0);
    c.finalize(PROPOSER, id, 1_001).unwrap();
    assert_eq!(c.vote(VOTER1, id, true, 1_001), Err(DaoVotingError::NotActive));
}

#[test]
fn test_cannot_finalize_twice() {
    let mut c = setup();
    let (id, _) = c.propose(PROPOSER, "Proposal".to_string(), 1_000, 0);
    c.finalize(PROPOSER, id, 1_001).unwrap();
    assert_eq!(c.finalize(PROPOSER, id, 1_001), Err(DaoVotingError::NotActive));
}

#[test]
fn test_get_unknown_proposal_panics() {
    let c = setup();
    assert!(matches!(c.get_proposal(999), Err(DaoVotingError::ProposalNotFound)));
}

#[test]
fn dao_proposal_ids_are_sequential() {
    let mut c = setup();
    let (a, _) = c.propose(PROPOSER, "A".to_string(), 10, 5);
    let (b, _) = c.propose(PROPOSER, "B".to_string(), 10, 5);
    assert_eq!((a, b), (0, 1));
    assert_eq!(c.get_proposal_count(), 2);
    assert_eq!(c.get_proposal(b).unwrap().deadline, 15);
}

#[test]
fn dao_votes_are_per_proposal() {
    let mut c = setup();
    let (a, _) = c.propose(PROPOSER, "A".to_string(), 10, 0);
    let (b, _) = c.propose(PROPOSER, "B".to_string(), 10, 0);
    c.vote(VOTER1, a, true, 0).unwrap();
    assert!(c.has_voted(a, VOTER1));
    assert!(!c.has_voted(b, VOTER1));
    c.vote(VOTER1, b, false, 9).unwrap();
    assert_eq!(c.get_proposal(b).unwrap().against_votes, 1);
}

#[test]
fn dao_vote_on_unknown_proposal_is_refused() {
    let mut c = setup();
    assert_eq!(c.vote(VOTER1, 7, true, 0), Err(DaoVotingError::ProposalNotFound));
    assert!(matches!(c.finalize(VOTER1, 7, 0), Err(DaoVotingError::ProposalNotFound)));
}

#[test]
fn dao_finalize_at_deadline_is_allowed_and_vote_is_not() {
    let mut c = setup();
    let (id, _) = c.propose(PROPOSER, "P".to_string(), 1_000, 0);
    assert_eq!(c.vote(VOTER1, id, true, 1_000), Err(DaoVotingError::WrongPhase));
    assert_eq!(c.finalize(PROPOSER, id, 1_000).unwrap().0, false);
}

#[test]
fn dao_error_codes_are_stable() {
    assert_eq!(DaoVotingError::ProposalNotFound.code(), 1);
    assert_eq!(DaoVotingError::AlreadyVoted.code(), 2);
    assert_eq!(DaoVotingError::NotActive.code(), 3);
    assert_eq!(DaoVotingError::WrongPhase.code(), 4);
}

#[test]
fn dao_tallies_match_distinct_voters() {
    let mut c = setup();
    let (id, _) = c.propose(PROPOSER, "P".to_string(), 100, 0);
    for (voter, support) in [(10, true), (11, false), (12, true), (10, false), (11, true)] {
        let _ = c.vote(voter, id, support, 1);
    }
    let p = c.get_proposal(id).unwrap();
    assert_eq!((p.for_votes, p.against_votes), (2, 1));
    assert!(c.has_voted(id, 10) && c.has_voted(id, 11) && c.has_voted(id, 12));
    assert!(!c.has_voted(id, 13));
}
