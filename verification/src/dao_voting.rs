//! On-chain proposals and one-address-one-vote governance.
//!
//! Anyone can propose. Any address can vote once per proposal, for or against, before the
//! proposal's deadline. After the deadline anyone can finalize it: Passed when there are
//! more votes for than against, Rejected otherwise (a tie is Rejected).
use std::collections::HashMap;
use vstd::prelude::*;
use crate::common::{Addr, pair_key, pair_view, lemma_pair_view_insert};

verus! {

broadcast use vstd::std_specs::hash::group_hash_axioms;

/// Why a governance operation was refused.
#[derive(Copy, Clone, Debug, PartialEq, Eq, Structural)]
pub enum DaoVotingError {
    /// No proposal exists with the given ID.
    ProposalNotFound,
    /// The voter already voted on this proposal.
    AlreadyVoted,
    /// The proposal is not Active (it was finalized).
    NotActive,
    /// Voting at or after the deadline, or finalizing before it.
    WrongPhase,
}

impl DaoVotingError {
    /// The stable on-chain number of this error.
    pub fn code(&self) -> (c: u32)
        ensures
            c == match *self {
                DaoVotingError::ProposalNotFound => 1u32,
                DaoVotingError::AlreadyVoted => 2u32,
                DaoVotingError::NotActive => 3u32,
                DaoVotingError::WrongPhase => 4u32,
            },
    {
        match self {
            DaoVotingError::ProposalNotFound => 1,
            DaoVotingError::AlreadyVoted => 2,
            DaoVotingError::NotActive => 3,
            DaoVotingError::WrongPhase => 4,
        }
    }
}

/// Lifecycle state of one proposal.
#[derive(Copy, Clone, Debug, PartialEq, Eq, Structural)]
pub enum ProposalStatus {
    /// Voting is open: before the deadline, not yet finalized.
    Active,
    /// Finalized with more votes for than against.
    Passed,
    /// Finalized with votes for at most votes against.
    Rejected,
}

/// An event that a governance operation publishes.
#[derive(Copy, Clone, Debug, PartialEq, Eq, Structural)]
pub enum DaoEvent {
    Proposed { id: u32, proposer: Addr, deadline: u64 },
    Voted { id: u32, voter: Addr, support: bool },
    Finalized { id: u32, caller: Addr, passed: bool },
}

/// One governance proposal.
#[derive(Debug)]
pub struct Proposal {
    pub proposer: Addr,
    pub description: String,
    /// Unix timestamp (seconds) from which voting is closed and finalize() is allowed.
    pub deadline: u64,
    pub for_votes: u32,
    pub against_votes: u32,
    pub status: ProposalStatus,
}

impl Clone for Proposal {
    fn clone(&self) -> (p: Proposal)
        ensures
            p == *self,
    {
        Proposal {
            proposer: self.proposer,
            description: self.description.clone(),
            deadline: self.deadline,
            for_votes: self.for_votes,
            against_votes: self.against_votes,
            status: self.status,
        }
    }
}

/// Whether `voter` has a recorded vote on proposal `id` according to `votes`.
pub open spec fn voted(votes: Map<(u64, Addr), bool>, id: u32, voter: Addr) -> bool {
    votes.contains_key((id as u64, voter)) && votes[(id as u64, voter)]
}

/// The contract's ledger state, as mathematical values.
pub struct DaoState {
    pub proposals: Map<u32, Proposal>,
    /// Number of proposals made so far; the next ID.
    pub count: u32,
    /// Recorded votes, keyed by `(proposal ID, voter)`; no entry means no vote.
    pub votes: Map<(u64, Addr), bool>,
}

impl DaoState {
    /// The addresses with a recorded vote on proposal `id`.
    pub open spec fn voters(self, id: u32) -> Set<Addr> {
        Set::new(|v: Addr| voted(self.votes, id, v))
    }

    /// The state as the contract's operations keep it: proposal IDs and the proposals of
    /// recorded votes are below the count, and every proposal's two tallies add up to the
    /// number of distinct addresses that voted on it (so nobody's vote counts twice).
    pub open spec fn well_formed(self) -> bool {
        &&& forall|id: u32| #[trigger] self.proposals.contains_key(id) ==> id < self.count
        &&& forall|id: u64, v: Addr| #[trigger]
            self.votes.contains_key((id, v)) && self.votes[(id, v)] ==> id < self.count
        &&& forall|id: u32| #[trigger]
            self.proposals.contains_key(id) ==> self.voters(id).finite() && self.voters(id).len()
                == self.proposals[id].for_votes + self.proposals[id].against_votes
    }

    /// What vote() answers: `ProposalNotFound`; `NotActive` once finalized; `WrongPhase`
    /// at or after the deadline; `AlreadyVoted` for a second vote; else the `Voted` event.
    pub open spec fn vote_outcome(self, voter: Addr, id: u32, support: bool, now: u64) -> Result<
        DaoEvent,
        DaoVotingError,
    > {
        if !self.proposals.contains_key(id) {
            Err(DaoVotingError::ProposalNotFound)
        } else if self.proposals[id].status != ProposalStatus::Active {
            Err(DaoVotingError::NotActive)
        } else if now >= self.proposals[id].deadline {
            Err(DaoVotingError::WrongPhase)
        } else if voted(self.votes, id, voter) {
            Err(DaoVotingError::AlreadyVoted)
        } else {
            Ok(DaoEvent::Voted { id, voter, support })
        }
    }

    /// The state after a vote that vote_outcome accepts: the tally on the chosen side
    /// goes up by one and the vote is recorded.
    pub open spec fn with_vote(self, voter: Addr, id: u32, support: bool) -> DaoState {
        let p = self.proposals[id];
        let p2 = if support {
            Proposal { for_votes: (p.for_votes + 1) as u32, ..p }
        } else {
            Proposal { against_votes: (p.against_votes + 1) as u32, ..p }
        };
        DaoState {
            proposals: self.proposals.insert(id, p2),
            votes: self.votes.insert((id as u64, voter), true),
            ..self
        }
    }

    /// What finalize() answers: `ProposalNotFound`; `NotActive` once finalized;
    /// `WrongPhase` before the deadline; else whether it passed (more votes for than
    /// against), with the `Finalized` event.
    pub open spec fn finalize_outcome(self, caller: Addr, id: u32, now: u64) -> Result<
        (bool, DaoEvent),
        DaoVotingError,
    > {
        if !self.proposals.contains_key(id) {
            Err(DaoVotingError::ProposalNotFound)
        } else if self.proposals[id].status != ProposalStatus::Active {
            Err(DaoVotingError::NotActive)
        } else if now < self.proposals[id].deadline {
            Err(DaoVotingError::WrongPhase)
        } else {
            let passed = self.proposals[id].for_votes > self.proposals[id].against_votes;
            Ok((passed, DaoEvent::Finalized { id, caller, passed }))
        }
    }

    /// The state after finalize() accepted: Passed when more votes for than against,
    /// Rejected otherwise.
    pub open spec fn finalized(self, id: u32) -> DaoState {
        let p = self.proposals[id];
        let status = if p.for_votes > p.against_votes {
            ProposalStatus::Passed
        } else {
            ProposalStatus::Rejected
        };
        DaoState { proposals: self.proposals.insert(id, Proposal { status, ..p }), ..self }
    }
}

/// The governance contract: proposals and recorded votes.
pub struct DaoVotingContract {
    proposals: HashMap<u32, Proposal>,
    count: u32,
    votes: HashMap<u128, bool>,
}

impl View for DaoVotingContract {
    type V = DaoState;

    closed spec fn view(&self) -> DaoState {
        DaoState { proposals: self.proposals@, count: self.count, votes: pair_view(self.votes@) }
    }
}

impl DaoVotingContract {
    /// A contract with no proposals and no votes.
    pub fn new() -> (c: DaoVotingContract)
        ensures
            c@.proposals == Map::<u32, Proposal>::empty(),
            c@.count == 0,
            c@.votes == Map::<(u64, Addr), bool>::empty(),
            c@.well_formed(),
    {
        let c = DaoVotingContract { proposals: HashMap::new(), count: 0, votes: HashMap::new() };
        assert(pair_view(c.votes@) =~= Map::<(u64, Addr), bool>::empty());
        c
    }

    // ----- storage layer -----

    pub fn set_proposal_count(&mut self, count: u32)
        ensures
            final(self)@ == (DaoState { count, ..old(self)@ }),
    {
        self.count = count;
    }

    pub fn get_proposal_count(&self) -> (c: u32)
        ensures
            c == self@.count,
    {
        self.count
    }

    pub fn set_proposal(&mut self, id: u32, proposal: Proposal)
        ensures
            final(self)@ == (DaoState { proposals: old(self)@.proposals.insert(id, proposal), ..old(self)@ }),
    {
        self.proposals.insert(id, proposal);
    }

    /// The full state of proposal `id`; `ProposalNotFound` where there is none.
    pub fn get_proposal(&self, id: u32) -> (r: Result<Proposal, DaoVotingError>)
        ensures
            self@.proposals.contains_key(id) ==> r == Ok::<Proposal, DaoVotingError>(
                self@.proposals[id],
            ),
            !self@.proposals.contains_key(id) ==> r == Err::<Proposal, DaoVotingError>(
                DaoVotingError::ProposalNotFound,
            ),
    {
        match self.proposals.get(&id) {
            Some(p) => Ok(p.clone()),
            None => Err(DaoVotingError::ProposalNotFound),
        }
    }

    /// Whether `voter` has a recorded vote on proposal `id`.
    pub fn has_voted(&self, id: u32, voter: Addr) -> (b: bool)
        ensures
            b == voted(self@.votes, id, voter),
    {
        match self.votes.get(&pair_key(id as u64, voter)) {
            Some(v) => *v,
            None => false,
        }
    }

    /// Records that `voter` voted on proposal `id`.
    pub fn set_voted(&mut self, id: u32, voter: Addr)
        ensures
            final(self)@ == (DaoState { votes: old(self)@.votes.insert((id as u64, voter), true), ..old(self)@ }),
    {
        let ghost before = self.votes@;
        let k = pair_key(id as u64, voter);
        self.votes.insert(k, true);
        proof {
            lemma_pair_view_insert(before, id as u64, voter, true);
        }
    }

    // ----- contract interface -----

    /// Creates an Active proposal with no votes, open until `now + voting_duration`, under
    /// the next ID, which it returns with the `Proposed` event. `proposer` must authorize.
    pub fn propose(&mut self, proposer: Addr, description: String, voting_duration: u64, now: u64) -> (r: (
        u32,
        DaoEvent,
    ))
        requires
            old(self)@.count < u32::MAX,
            now + voting_duration <= u64::MAX,
        ensures
            ({
                let id = old(self)@.count;
                let deadline = (now + voting_duration) as u64;
                &&& r == (id, DaoEvent::Proposed { id, proposer, deadline })
                &&& final(self)@ == DaoState {
                    proposals: old(self)@.proposals.insert(
                        id,
                        Proposal {
                            proposer,
                            description,
                            deadline,
                            for_votes: 0,
                            against_votes: 0,
                            status: ProposalStatus::Active,
                        },
                    ),
                    count: (id + 1) as u32,
                    ..old(self)@
                }
            }),
            old(self)@.well_formed() ==> final(self)@.well_formed(),
    {
        let id = self.get_proposal_count();
        let deadline = now + voting_duration;
        let proposal = Proposal {
            proposer,
            description,
            deadline,
            for_votes: 0,
            against_votes: 0,
            status: ProposalStatus::Active,
        };
        self.set_proposal(id, proposal);
        self.set_proposal_count(id + 1);
        proof {
            let pre = old(self)@;
            let post = self@;
            if pre.well_formed() {
                assert forall|i: u32| #[trigger] post.proposals.contains_key(i) implies post.voters(
                    i,
                ).finite() && post.voters(i).len() == post.proposals[i].for_votes
                    + post.proposals[i].against_votes by {
                    assert(post.voters(i) =~= pre.voters(i));
                    if i == id {
                        assert forall|v: Addr| !#[trigger] pre.voters(i).contains(v) by {
                            if voted(pre.votes, i, v) {
                                assert(pre.votes.contains_key((i as u64, v)));
                            }
                        }
                        assert(pre.voters(i) =~= Set::<Addr>::empty());
                    }
                }
            }
        }
        (id, DaoEvent::Proposed { id, proposer, deadline })
    }

    /// `voter` (who must authorize) votes on proposal `proposal_id` at time `now`; the
    /// answer is `vote_outcome`, and the state changes only when it is `Ok`.
    pub fn vote(&mut self, voter: Addr, proposal_id: u32, support: bool, now: u64) -> (r: Result<
        DaoEvent,
        DaoVotingError,
    >)
        requires
            old(self)@.vote_outcome(voter, proposal_id, support, now) is Ok ==> (support
                ==> old(self)@.proposals[proposal_id].for_votes < u32::MAX) && (!support
                ==> old(self)@.proposals[proposal_id].against_votes < u32::MAX),
        ensures
            r == old(self)@.vote_outcome(voter, proposal_id, support, now),
            old(self)@.proposals.contains_key(proposal_id) && old(self)@.proposals[proposal_id].status
                == ProposalStatus::Active && now < old(self)@.proposals[proposal_id].deadline && !(
            old(self)@.votes.contains_key((proposal_id as u64, voter)) && old(self)@.votes[(
                proposal_id as u64,
                voter,
            )]) ==> r == Ok::<DaoEvent, DaoVotingError>(
                DaoEvent::Voted { id: proposal_id, voter, support },
            ),
            r is Err ==> final(self)@ == old(self)@,
            r is Ok ==> final(self)@ == old(self)@.with_vote(voter, proposal_id, support),
            old(self)@.well_formed() ==> final(self)@.well_formed(),
    {
        let mut proposal = match self.get_proposal(proposal_id) {
            Ok(p) => p,
            Err(e) => return Err(e),
        };
        if proposal.status != ProposalStatus::Active {
            return Err(DaoVotingError::NotActive);
        }
        if now >= proposal.deadline {
            return Err(DaoVotingError::WrongPhase);
        }
        if self.has_voted(proposal_id, voter) {
            return Err(DaoVotingError::AlreadyVoted);
        }
        if support {
            proposal.for_votes = proposal.for_votes + 1;
        } else {
            proposal.against_votes = proposal.against_votes + 1;
        }
        self.set_proposal(proposal_id, proposal);
        self.set_voted(proposal_id, voter);
        proof {
            let pre = old(self)@;
            let post = self@;
            assert(post.proposals =~= pre.with_vote(voter, proposal_id, support).proposals);
            if pre.well_formed() {
                lemma_vote_keeps_tally(pre, voter, proposal_id, support);
                assert(post == pre.with_vote(voter, proposal_id, support));
            }
        }
        Ok(DaoEvent::Voted { id: proposal_id, voter, support })
    }

    /// `caller` (who must authorize) finalizes proposal `proposal_id` at time `now`; the
    /// answer is `finalize_outcome`, and the state changes (to `finalized`) only when it is
    /// `Ok`.
    pub fn finalize(&mut self, caller: Addr, proposal_id: u32, now: u64) -> (r: Result<
        (bool, DaoEvent),
        DaoVotingError,
    >)
        ensures
            r == old(self)@.finalize_outcome(caller, proposal_id, now),
            old(self)@.proposals.contains_key(proposal_id) && old(self)@.proposals[proposal_id].status
                == ProposalStatus::Active && now < old(self)@.proposals[proposal_id].deadline ==> r
                == Err::<(bool, DaoEvent), DaoVotingError>(DaoVotingError::WrongPhase)
                && final(self)@ == old(self)@,
            r is Err ==> final(self)@ == old(self)@,
            r is Ok ==> final(self)@ == old(self)@.finalized(proposal_id),
            old(self)@.well_formed() ==> final(self)@.well_formed(),
    {
        let mut proposal = match self.get_proposal(proposal_id) {
            Ok(p) => p,
            Err(e) => return Err(e),
        };
        if proposal.status != ProposalStatus::Active {
            return Err(DaoVotingError::NotActive);
        }
        if now < proposal.deadline {
            return Err(DaoVotingError::WrongPhase);
        }
        let passed = proposal.for_votes > proposal.against_votes;
        proposal.status = if passed {
            ProposalStatus::Passed
        } else {
            ProposalStatus::Rejected
        };
        self.set_proposal(proposal_id, proposal);
        proof {
            let pre = old(self)@;
            let post = self@;
            if pre.well_formed() {
                assert forall|i: u32| #[trigger] post.proposals.contains_key(i) implies post.voters(
                    i,
                ).finite() && post.voters(i).len() == post.proposals[i].for_votes
                    + post.proposals[i].against_votes by {
                    assert(post.voters(i) =~= pre.voters(i));
                }
            }
        }
        Ok((passed, DaoEvent::Finalized { id: proposal_id, caller, passed }))
    }
}

/// A recorded vote adds exactly one new voter on its proposal and one vote to one side of
/// its tally, so the tallies keep matching the number of distinct voters.
proof fn lemma_vote_keeps_tally(pre: DaoState, voter: Addr, id: u32, support: bool)
    requires
        pre.well_formed(),
        pre.proposals.contains_key(id),
        !voted(pre.votes, id, voter),
        support ==> pre.proposals[id].for_votes < u32::MAX,
        !support ==> pre.proposals[id].against_votes < u32::MAX,
    ensures
        pre.with_vote(voter, id, support).well_formed(),
{
    let post = pre.with_vote(voter, id, support);
    assert(id < pre.count);
    assert forall|i: u32| #[trigger] post.proposals.contains_key(i) implies post.voters(i).finite()
        && post.voters(i).len() == post.proposals[i].for_votes + post.proposals[i].against_votes by {
        if i == id {
            assert(pre.voters(i).finite());
            assert(pre.voters(i).len() == pre.proposals[i].for_votes + pre.proposals[i].against_votes);
            assert(post.voters(i) =~= pre.voters(i).insert(voter));
            assert(!pre.voters(i).contains(voter));
            assert(post.voters(i).len() == pre.voters(i).len() + 1);
        } else {
            assert(pre.proposals.contains_key(i));
            assert(post.voters(i) =~= pre.voters(i));
        }
    }
}

/// One address, one vote: once a vote by `voter` on proposal `id` is accepted, every
/// further vote by `voter` on `id` is refused, whatever side and whenever.
pub proof fn lemma_one_vote_per_address(
    s: DaoState,
    voter: Addr,
    id: u32,
    support: bool,
    now: u64,
    support2: bool,
    now2: u64,
)
    requires
        s.vote_outcome(voter, id, support, now) is Ok,
    ensures
        s.with_vote(voter, id, support).vote_outcome(voter, id, support2, now2) is Err,
{
    let t = s.with_vote(voter, id, support);
    assert(voted(t.votes, id, voter));
}

/// Finalizing is final: once finalize() has accepted proposal `id`, neither a vote on it
/// nor a second finalize is accepted.
pub proof fn lemma_finalized_proposal_is_closed(
    s: DaoState,
    caller: Addr,
    id: u32,
    now: u64,
    caller2: Addr,
    now2: u64,
    voter: Addr,
    support: bool,
)
    requires
        s.finalize_outcome(caller, id, now) is Ok,
    ensures
        s.finalized(id).finalize_outcome(caller2, id, now2) == Err::<(bool, DaoEvent), DaoVotingError>(
            DaoVotingError::NotActive,
        ),
        s.finalized(id).vote_outcome(voter, id, support, now2) == Err::<DaoEvent, DaoVotingError>(
            DaoVotingError::NotActive,
        ),
{
}

/// Simple majority: an accepted finalize reports the proposal passed exactly when it has
/// strictly more votes for than against (a tie is rejected), and records that status.
pub proof fn lemma_finalize_is_simple_majority(s: DaoState, caller: Addr, id: u32, now: u64)
    requires
        s.finalize_outcome(caller, id, now) is Ok,
    ensures
        s.finalize_outcome(caller, id, now)->Ok_0.0 <==> s.proposals[id].for_votes
            > s.proposals[id].against_votes,
        s.finalized(id).proposals[id].status == (if s.proposals[id].for_votes
            > s.proposals[id].against_votes {
            ProposalStatus::Passed
        } else {
            ProposalStatus::Rejected
        }),
        s.proposals[id].for_votes == s.proposals[id].against_votes ==> s.finalized(
            id,
        ).proposals[id].status == ProposalStatus::Rejected,
{
}

/// Voting is open to every address: a vote on an existing Active proposal strictly before
/// its deadline, by an address with no recorded vote on it, is accepted; it adds one to the
/// chosen side of the tally, leaves the other side, the status and the deadline as they
/// were, and records the voter.
pub proof fn lemma_open_vote_is_counted(s: DaoState, voter: Addr, id: u32, support: bool, now: u64)
    requires
        s.proposals.contains_key(id),
        s.proposals[id].status == ProposalStatus::Active,
        now < s.proposals[id].deadline,
        !(s.votes.contains_key((id as u64, voter)) && s.votes[(id as u64, voter)]),
        support ==> s.proposals[id].for_votes < u32::MAX,
        !support ==> s.proposals[id].against_votes < u32::MAX,
    ensures
        s.vote_outcome(voter, id, support, now) == Ok::<DaoEvent, DaoVotingError>(
            DaoEvent::Voted { id, voter, support },
        ),
        ({
            let p = s.proposals[id];
            let t = s.with_vote(voter, id, support);
            let q = t.proposals[id];
            &&& t.proposals.contains_key(id)
            &&& support ==> q.for_votes == p.for_votes + 1 && q.against_votes == p.against_votes
            &&& !support ==> q.against_votes == p.against_votes + 1 && q.for_votes == p.for_votes
            &&& q.status == p.status
            &&& q.deadline == p.deadline
            &&& q.proposer == p.proposer
            &&& t.votes.contains_key((id as u64, voter)) && t.votes[(id as u64, voter)]
        }),
{
}

/// A vote is refused only for one of these reasons: there is no such proposal, it is no
/// longer Active, its deadline has been reached, or the voter already has a recorded vote
/// on it.
pub proof fn lemma_vote_refused_only_when_closed_or_repeated(
    s: DaoState,
    voter: Addr,
    id: u32,
    support: bool,
    now: u64,
)
    requires
        s.vote_outcome(voter, id, support, now) is Err,
    ensures
        ({
            ||| !s.proposals.contains_key(id)
            ||| s.proposals[id].status != ProposalStatus::Active
            ||| now >= s.proposals[id].deadline
            ||| s.votes.contains_key((id as u64, voter)) && s.votes[(id as u64, voter)]
        }),
{
}

/// No early finalize: before its deadline an Active proposal cannot be finalized; the
/// answer is `WrongPhase` (and finalize() then leaves the state as it was).
pub proof fn lemma_no_finalize_before_deadline(s: DaoState, caller: Addr, id: u32, now: u64)
    requires
        s.proposals.contains_key(id),
        s.proposals[id].status == ProposalStatus::Active,
        now < s.proposals[id].deadline,
    ensures
        s.finalize_outcome(caller, id, now) == Err::<(bool, DaoEvent), DaoVotingError>(
            DaoVotingError::WrongPhase,
        ),
{
}

/// An accepted finalize concerns an existing proposal that was still Active and whose
/// deadline had been reached; and once the deadline is reached an Active proposal is
/// always finalized, by any caller.
pub proof fn lemma_finalize_exactly_after_deadline(s: DaoState, caller: Addr, id: u32, now: u64)
    ensures
        s.finalize_outcome(caller, id, now) is Ok ==> s.proposals.contains_key(id)
            && s.proposals[id].status == ProposalStatus::Active && now >= s.proposals[id].deadline,
        s.proposals.contains_key(id) && s.proposals[id].status == ProposalStatus::Active && now
            >= s.proposals[id].deadline ==> s.finalize_outcome(caller, id, now) is Ok,
{
}

/// Which refusal a vote gets, checked in this order: `ProposalNotFound` without the
/// proposal, `NotActive` once it is finalized, `WrongPhase` from its deadline on, and
/// `AlreadyVoted` for an address with a recorded vote.
pub proof fn lemma_vote_refusals(s: DaoState, voter: Addr, id: u32, support: bool, now: u64)
    ensures
        ({
            let p = s.proposals[id];
            let r = s.vote_outcome(voter, id, support, now);
            &&& !s.proposals.contains_key(id) ==> r == Err::<DaoEvent, DaoVotingError>(
                DaoVotingError::ProposalNotFound,
            )
            &&& s.proposals.contains_key(id) && p.status != ProposalStatus::Active ==> r == Err::<
                DaoEvent,
                DaoVotingError,
            >(DaoVotingError::NotActive)
            &&& s.proposals.contains_key(id) && p.status == ProposalStatus::Active && now >= p.deadline
                ==> r == Err::<DaoEvent, DaoVotingError>(DaoVotingError::WrongPhase)
            &&& s.proposals.contains_key(id) && p.status == ProposalStatus::Active && now < p.deadline
                && s.votes.contains_key((id as u64, voter)) && s.votes[(id as u64, voter)] ==> r
                == Err::<DaoEvent, DaoVotingError>(DaoVotingError::AlreadyVoted)
        }),
{
}

/// A counted vote touches nothing but its own proposal's tally and its own vote record:
/// every other proposal and every other recorded vote stays as it was.
pub proof fn lemma_vote_touches_only_its_own(
    s: DaoState,
    voter: Addr,
    id: u32,
    support: bool,
    other: u32,
    other_voter: Addr,
)
    requires
        s.proposals.contains_key(id),
    ensures
        ({
            let t = s.with_vote(voter, id, support);
            &&& t.count == s.count
            &&& t.proposals.dom() == s.proposals.dom()
            &&& other != id && s.proposals.contains_key(other) ==> t.proposals[other] == s.proposals[other]
            &&& (other as u64, other_voter) != (id as u64, voter) ==> (t.votes.contains_key(
                (other as u64, other_voter),
            ) == s.votes.contains_key((other as u64, other_voter)) && t.votes[(
                other as u64,
                other_voter,
            )] == s.votes[(other as u64, other_voter)])
        }),
{
    let t = s.with_vote(voter, id, support);
    assert(t.proposals.dom() =~= s.proposals.dom());
}

/// Which refusal a finalize gets: `ProposalNotFound` without the proposal, `NotActive`
/// once it is finalized; an accepted finalize changes only that proposal's status.
pub proof fn lemma_finalize_refusals(s: DaoState, caller: Addr, id: u32, now: u64, other: u32)
    ensures
        !s.proposals.contains_key(id) ==> s.finalize_outcome(caller, id, now) == Err::<
            (bool, DaoEvent),
            DaoVotingError,
        >(DaoVotingError::ProposalNotFound),
        s.proposals.contains_key(id) && s.proposals[id].status != ProposalStatus::Active
            ==> s.finalize_outcome(caller, id, now) == Err::<(bool, DaoEvent), DaoVotingError>(
            DaoVotingError::NotActive,
        ),
        s.proposals.contains_key(id) ==> ({
            let t = s.finalized(id);
            let p = s.proposals[id];
            let q = t.proposals[id];
            &&& t.votes == s.votes
            &&& t.count == s.count
            &&& q.for_votes == p.for_votes && q.against_votes == p.against_votes
            &&& q.deadline == p.deadline && q.proposer == p.proposer
            &&& other != id && s.proposals.contains_key(other) ==> t.proposals[other] == s.proposals[other]
        }),
{
}

} // verus!
