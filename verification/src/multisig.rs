//! M-of-N multi-signature wallet.
//!
//! Any signer can propose a token transfer out of the wallet's custody. Each signer can
//! approve a proposal; once at least `threshold` signers have approved, any signer can
//! execute it, exactly once.
use std::collections::HashMap;
use vstd::prelude::*;
use crate::common::{Addr, Payment, pair_key, pair_view, lemma_pair_view_insert};

verus! {

broadcast use vstd::std_specs::hash::group_hash_axioms;

/// Why a multisig operation was refused.
#[derive(Copy, Clone, Debug, PartialEq, Eq, Structural)]
pub enum MultisigError {
    /// initialize() has already been called.
    AlreadyInitialized,
    /// The threshold is zero or greater than the number of signers.
    InvalidThreshold,
    /// The caller is not in the signers list.
    NotSigner,
    /// No proposal exists with the given ID.
    ProposalNotFound,
    /// The proposal has already been executed.
    AlreadyExecuted,
    /// Fewer signers than the threshold have approved the proposal.
    InsufficientApprovals,
}

impl MultisigError {
    /// The stable on-chain number of this error.
    pub fn code(&self) -> (c: u32)
        ensures
            c == match *self {
                MultisigError::AlreadyInitialized => 1u32,
                MultisigError::InvalidThreshold => 2u32,
                MultisigError::NotSigner => 3u32,
                MultisigError::ProposalNotFound => 4u32,
                MultisigError::AlreadyExecuted => 5u32,
                MultisigError::InsufficientApprovals => 6u32,
            },
    {
        match self {
            MultisigError::AlreadyInitialized => 1,
            MultisigError::InvalidThreshold => 2,
            MultisigError::NotSigner => 3,
            MultisigError::ProposalNotFound => 4,
            MultisigError::AlreadyExecuted => 5,
            MultisigError::InsufficientApprovals => 6,
        }
    }
}

/// An event that a multisig operation publishes.
#[derive(Copy, Clone, Debug, PartialEq, Eq, Structural)]
pub enum MultisigEvent {
    Proposed { id: u32, proposer: Addr, to: Addr, amount: i128 },
    Approved { proposal_id: u32, signer: Addr },
    Executed { proposal_id: u32, executor: Addr },
}

/// A transfer proposal submitted by a signer.
#[derive(Copy, Clone, Debug, PartialEq, Eq, Structural)]
pub struct Proposal {
    /// Recipient of the transfer.
    pub to: Addr,
    /// Amount to transfer.
    pub amount: i128,
    /// Token contract that carries out the transfer.
    pub token: Addr,
    /// Whether the proposal has been executed.
    pub executed: bool,
}

/// The multisig's ledger state, as mathematical values.
pub struct MultisigState {
    /// The signers, in the order given at initialization (repetitions kept).
    pub signers: Option<Seq<Addr>>,
    pub threshold: Option<u32>,
    /// Number of proposals made so far; the next ID.
    pub count: u32,
    pub proposals: Map<u32, Proposal>,
    /// Stored approvals, keyed by `(proposal ID, signer)`; no entry means not approved.
    pub approvals: Map<(u64, Addr), bool>,
}

/// Whether `signer` has approved proposal `id` according to `approvals`.
pub open spec fn approved(approvals: Map<(u64, Addr), bool>, id: u32, signer: Addr) -> bool {
    approvals.contains_key((id as u64, signer)) && approvals[(id as u64, signer)]
}

/// The number of positions in `signers` whose signer has approved proposal `id`; a signer
/// listed twice counts twice.
pub open spec fn approvals_among(signers: Seq<Addr>, approvals: Map<(u64, Addr), bool>, id: u32) -> nat
    decreases signers.len(),
{
    if signers.len() == 0 {
        0
    } else {
        approvals_among(signers.drop_last(), approvals, id) + if approved(
            approvals,
            id,
            signers.last(),
        ) {
            1nat
        } else {
            0nat
        }
    }
}

proof fn lemma_approvals_among_bound(signers: Seq<Addr>, approvals: Map<(u64, Addr), bool>, id: u32)
    ensures
        approvals_among(signers, approvals, id) <= signers.len(),
    decreases signers.len(),
{
    if signers.len() > 0 {
        lemma_approvals_among_bound(signers.drop_last(), approvals, id);
    }
}

impl MultisigState {
    pub open spec fn is_initialized(self) -> bool {
        self.threshold is Some
    }

    /// Signers and threshold are stored, and the threshold is between 1 and the number of
    /// signers, which fits in a `u32`.
    pub open spec fn well_formed(self) -> bool {
        &&& self.signers is Some
        &&& self.threshold is Some
        &&& 1 <= self.threshold->0 <= self.signers->0.len() <= u32::MAX
    }

    /// The number of approvals of proposal `id` among the signers.
    pub open spec fn approval_count(self, id: u32) -> nat {
        approvals_among(self.signers->0, self.approvals, id)
    }

    pub open spec fn with_approval(self, id: u32, signer: Addr) -> MultisigState {
        MultisigState { approvals: self.approvals.insert((id as u64, signer), true), ..self }
    }
}

/// The multisig contract: signers, threshold, proposals and approvals.
pub struct MultisigContract {
    signers: Option<Vec<Addr>>,
    threshold: Option<u32>,
    count: u32,
    proposals: HashMap<u32, Proposal>,
    approvals: HashMap<u128, bool>,
}

impl View for MultisigContract {
    type V = MultisigState;

    closed spec fn view(&self) -> MultisigState {
        MultisigState {
            signers: match self.signers {
                Some(v) => Some(v@),
                None => None,
            },
            threshold: self.threshold,
            count: self.count,
            proposals: self.proposals@,
            approvals: pair_view(self.approvals@),
        }
    }
}

impl MultisigContract {
    /// A wallet with nothing stored.
    pub fn new() -> (c: MultisigContract)
        ensures
            c@.signers is None,
            c@.threshold is None,
            c@.count == 0,
            c@.proposals == Map::<u32, Proposal>::empty(),
            c@.approvals == Map::<(u64, Addr), bool>::empty(),
    {
        let c = MultisigContract {
            signers: None,
            threshold: None,
            count: 0,
            proposals: HashMap::new(),
            approvals: HashMap::new(),
        };
        assert(pair_view(c.approvals@) =~= Map::<(u64, Addr), bool>::empty());
        c
    }

    // ----- storage layer -----

    /// Whether a threshold is stored, i.e. whether initialize() has run.
    pub fn is_initialized(&self) -> (b: bool)
        ensures
            b == self@.is_initialized(),
    {
        self.threshold.is_some()
    }

    pub fn set_signers(&mut self, signers: Vec<Addr>)
        ensures
            final(self)@ == (MultisigState { signers: Some(signers@), ..old(self)@ }),
    {
        self.signers = Some(signers);
    }

    pub fn get_signers(&self) -> (s: &Vec<Addr>)
        requires
            self@.signers is Some,
        ensures
            s@ == self@.signers->0,
    {
        self.signers.as_ref().unwrap()
    }

    pub fn set_threshold(&mut self, threshold: u32)
        ensures
            final(self)@ == (MultisigState { threshold: Some(threshold), ..old(self)@ }),
    {
        self.threshold = Some(threshold);
    }

    pub fn get_threshold(&self) -> (t: u32)
        requires
            self@.threshold is Some,
        ensures
            t == self@.threshold->0,
    {
        self.threshold.unwrap()
    }

    pub fn set_proposal_count(&mut self, count: u32)
        ensures
            final(self)@ == (MultisigState { count, ..old(self)@ }),
    {
        self.count = count;
    }

    pub fn get_proposal_count(&self) -> (c: u32)
        ensures
            c == self@.count,
    {
        self.count
    }

    pub fn set_proposal(&mut self, id: u32, proposal: Proposal)
        ensures
            final(self)@ == (MultisigState {
                proposals: old(self)@.proposals.insert(id, proposal),
                ..old(self)@
            }),
    {
        self.proposals.insert(id, proposal);
    }

    /// Proposal `id`; `ProposalNotFound` where there is none.
    pub fn get_proposal(&self, id: u32) -> (r: Result<Proposal, MultisigError>)
        ensures
            self@.proposals.contains_key(id) ==> r == Ok::<Proposal, MultisigError>(
                self@.proposals[id],
            ),
            !self@.proposals.contains_key(id) ==> r == Err::<Proposal, MultisigError>(
                MultisigError::ProposalNotFound,
            ),
    {
        match self.proposals.get(&id) {
            Some(p) => Ok(*p),
            None => Err(MultisigError::ProposalNotFound),
        }
    }

    pub fn set_approval(&mut self, proposal_id: u32, signer: Addr, value: bool)
        ensures
            final(self)@ == (MultisigState {
                approvals: old(self)@.approvals.insert((proposal_id as u64, signer), value),
                ..old(self)@
            }),
    {
        let ghost before = self.approvals@;
        let k = pair_key(proposal_id as u64, signer);
        self.approvals.insert(k, value);
        proof {
            lemma_pair_view_insert(before, proposal_id as u64, signer, value);
        }
    }

    /// Whether `signer` has approved proposal `proposal_id`.
    pub fn get_approval(&self, proposal_id: u32, signer: Addr) -> (b: bool)
        ensures
            b == approved(self@.approvals, proposal_id, signer),
    {
        match self.approvals.get(&pair_key(proposal_id as u64, signer)) {
            Some(v) => *v,
            None => false,
        }
    }

    /// The number of signers (counted with repetition) who approved proposal `proposal_id`.
    pub fn count_approvals(&self, proposal_id: u32) -> (n: u32)
        requires
            self@.signers is Some,
            self@.signers->0.len() <= u32::MAX,
        ensures
            n == self@.approval_count(proposal_id),
    {
        let signers = self.get_signers();
        let mut count: u32 = 0;
        let mut i: usize = 0;
        while i < signers.len()
            invariant
                signers@ == self@.signers->0,
                signers@.len() <= u32::MAX,
                i <= signers@.len(),
                count == approvals_among(signers@.take(i as int), self@.approvals, proposal_id),
            decreases signers@.len() - i,
        {
            proof {
                lemma_approvals_among_bound(signers@.take(i as int), self@.approvals, proposal_id);
                assert(signers@.take(i as int + 1).drop_last() =~= signers@.take(i as int));
            }
            if self.get_approval(proposal_id, signers[i]) {
                count = count + 1;
            }
            i = i + 1;
        }
        assert(signers@.take(i as int) =~= signers@);
        count
    }

    /// `Ok` when `addr` is among the signers, else `NotSigner`.
    pub fn require_signer(&self, addr: Addr) -> (r: Result<(), MultisigError>)
        requires
            self@.signers is Some,
        ensures
            self@.signers->0.contains(addr) ==> r is Ok,
            !self@.signers->0.contains(addr) ==> r == Err::<(), MultisigError>(
                MultisigError::NotSigner,
            ),
    {
        let signers = self.get_signers();
        let mut i: usize = 0;
        while i < signers.len()
            invariant
                signers@ == self@.signers->0,
                i <= signers@.len(),
                forall|j: int| 0 <= j < i ==> signers@[j] != addr,
            decreases signers@.len() - i,
        {
            if signers[i] == addr {
                return Ok(());
            }
            i = i + 1;
        }
        Err(MultisigError::NotSigner)
    }

    // ----- contract interface -----

    /// Stores the signers and the threshold and sets the proposal count to 0. Refused,
    /// changing nothing, with `AlreadyInitialized` once a threshold is stored, else with
    /// `InvalidThreshold` when the threshold is 0 or exceeds the number of signers.
    pub fn initialize(&mut self, signers: Vec<Addr>, threshold: u32) -> (r: Result<
        (),
        MultisigError,
    >)
        requires
            signers@.len() <= u32::MAX,
        ensures
            old(self)@.is_initialized() ==> r == Err::<(), MultisigError>(
                MultisigError::AlreadyInitialized,
            ) && final(self)@ == old(self)@,
            !old(self)@.is_initialized() && (threshold == 0 || threshold > signers@.len()) ==> r
                == Err::<(), MultisigError>(MultisigError::InvalidThreshold) && final(self)@ == old(self)@,
            !old(self)@.is_initialized() && 1 <= threshold <= signers@.len() ==> r is Ok && final(self)@ == (MultisigState {
                signers: Some(signers@),
                threshold: Some(threshold),
                count: 0,
                ..old(self)@
            }) && final(self)@.well_formed(),
    {
        if self.is_initialized() {
            return Err(MultisigError::AlreadyInitialized);
        }
        if threshold == 0 || threshold as usize > signers.len() {
            return Err(MultisigError::InvalidThreshold);
        }
        self.set_signers(signers);
        self.set_threshold(threshold);
        self.set_proposal_count(0);
        Ok(())
    }

    /// A signer (`proposer`, who must authorize) proposes to pay `amount` of `token` to
    /// `to`. The proposal, not executed, is stored under the next ID, which is returned with
    /// the `Proposed` event. Refused with `NotSigner`, changing nothing.
    pub fn propose(&mut self, proposer: Addr, to: Addr, amount: i128, token: Addr) -> (r: Result<
        (u32, MultisigEvent),
        MultisigError,
    >)
        requires
            old(self)@.signers is Some,
            old(self)@.signers->0.contains(proposer) ==> old(self)@.count < u32::MAX,
        ensures
            !old(self)@.signers->0.contains(proposer) ==> r == Err::<
                (u32, MultisigEvent),
                MultisigError,
            >(MultisigError::NotSigner) && final(self)@ == old(self)@,
            old(self)@.signers->0.contains(proposer) ==> {
                let id = old(self)@.count;
                &&& r == Ok::<(u32, MultisigEvent), MultisigError>(
                    (id, MultisigEvent::Proposed { id, proposer, to, amount }),
                )
                &&& final(self)@ == MultisigState {
                    proposals: old(self)@.proposals.insert(
                        id,
                        Proposal { to, amount, token, executed: false },
                    ),
                    count: (id + 1) as u32,
                    ..old(self)@
                }
            },
    {
        match self.require_signer(proposer) {
            Ok(()) => {},
            Err(e) => return Err(e),
        }
        let id = self.get_proposal_count();
        let proposal = Proposal { to, amount, token, executed: false };
        self.set_proposal(id, proposal);
        self.set_proposal_count(id + 1);
        Ok((id, MultisigEvent::Proposed { id, proposer, to, amount }))
    }

    /// A signer (`signer`, who must authorize) approves proposal `proposal_id`; approving
    /// again changes nothing further. Refused, changing nothing, with `NotSigner`, then
    /// `ProposalNotFound`, then `AlreadyExecuted`.
    pub fn approve(&mut self, signer: Addr, proposal_id: u32) -> (r: Result<
        MultisigEvent,
        MultisigError,
    >)
        requires
            old(self)@.signers is Some,
        ensures
            ({
                let pre = old(self)@;
                &&& !pre.signers->0.contains(signer) ==> r == Err::<MultisigEvent, MultisigError>(
                    MultisigError::NotSigner,
                ) && final(self)@ == pre
                &&& pre.signers->0.contains(signer) && !pre.proposals.contains_key(proposal_id) ==> r
                    == Err::<MultisigEvent, MultisigError>(MultisigError::ProposalNotFound) && final(self)@ == pre
                &&& pre.signers->0.contains(signer) && pre.proposals.contains_key(proposal_id)
                    && pre.proposals[proposal_id].executed ==> r == Err::<
                    MultisigEvent,
                    MultisigError,
                >(MultisigError::AlreadyExecuted) && final(self)@ == pre
                &&& pre.signers->0.contains(signer) && pre.proposals.contains_key(proposal_id)
                    && !pre.proposals[proposal_id].executed ==> r == Ok::<
                    MultisigEvent,
                    MultisigError,
                >(MultisigEvent::Approved { proposal_id, signer }) && final(self)@
                    == pre.with_approval(proposal_id, signer)
            }),
    {
        match self.require_signer(signer) {
            Ok(()) => {},
            Err(e) => return Err(e),
        }
        let proposal = match self.get_proposal(proposal_id) {
            Ok(p) => p,
            Err(e) => return Err(e),
        };
        if proposal.executed {
            return Err(MultisigError::AlreadyExecuted);
        }
        self.set_approval(proposal_id, signer, true);
        Ok(MultisigEvent::Approved { proposal_id, signer })
    }

    /// A signer (`executor`, who must authorize) executes proposal `proposal_id`: it is
    /// marked executed and its transfer is paid out of custody. Refused, changing nothing,
    /// with `NotSigner`, then `ProposalNotFound`, then `AlreadyExecuted`, then
    /// `InsufficientApprovals` when fewer than `threshold` signers approved.
    pub fn execute(&mut self, executor: Addr, proposal_id: u32) -> (r: Result<
        (Payment, MultisigEvent),
        MultisigError,
    >)
        requires
            old(self)@.signers is Some,
            old(self)@.threshold is Some,
            old(self)@.signers->0.len() <= u32::MAX,
        ensures
            ({
                let pre = old(self)@;
                let p = pre.proposals[proposal_id];
                &&& !pre.signers->0.contains(executor) ==> r == Err::<
                    (Payment, MultisigEvent),
                    MultisigError,
                >(MultisigError::NotSigner) && final(self)@ == pre
                &&& pre.signers->0.contains(executor) && !pre.proposals.contains_key(proposal_id) ==> r
                    == Err::<(Payment, MultisigEvent), MultisigError>(MultisigError::ProposalNotFound)
                    && final(self)@ == pre
                &&& pre.signers->0.contains(executor) && pre.proposals.contains_key(proposal_id)
                    && p.executed ==> r == Err::<(Payment, MultisigEvent), MultisigError>(
                    MultisigError::AlreadyExecuted,
                ) && final(self)@ == pre
                &&& pre.signers->0.contains(executor) && pre.proposals.contains_key(proposal_id)
                    && !p.executed && pre.approval_count(proposal_id) < pre.threshold->0 ==> r
                    == Err::<(Payment, MultisigEvent), MultisigError>(
                    MultisigError::InsufficientApprovals,
                ) && final(self)@ == pre
                &&& pre.signers->0.contains(executor) && pre.proposals.contains_key(proposal_id)
                    && !p.executed && pre.approval_count(proposal_id) >= pre.threshold->0 ==> {
                    &&& r == Ok::<(Payment, MultisigEvent), MultisigError>(
                        (
                            Payment::Out { token: p.token, to: p.to, amount: p.amount },
                            MultisigEvent::Executed { proposal_id, executor },
                        ),
                    )
                    &&& final(self)@ == MultisigState {
                        proposals: pre.proposals.insert(proposal_id, Proposal { executed: true, ..p }),
                        ..pre
                    }
                }
                &&& pre.well_formed() ==> final(self)@.well_formed()
            }),
    {
        match self.require_signer(executor) {
            Ok(()) => {},
            Err(e) => return Err(e),
        }
        let mut proposal = match self.get_proposal(proposal_id) {
            Ok(p) => p,
            Err(e) => return Err(e),
        };
        if proposal.executed {
            return Err(MultisigError::AlreadyExecuted);
        }
        let approval_count = self.count_approvals(proposal_id);
        let threshold = self.get_threshold();
        if approval_count < threshold {
            return Err(MultisigError::InsufficientApprovals);
        }
        proposal.executed = true;
        self.set_proposal(proposal_id, proposal);
        Ok(
            (
                Payment::Out { token: proposal.token, to: proposal.to, amount: proposal.amount },
                MultisigEvent::Executed { proposal_id, executor },
            ),
        )
    }

    /// The number of signers who approved proposal `proposal_id`.
    pub fn approval_count(&self, proposal_id: u32) -> (n: u32)
        requires
            self@.signers is Some,
            self@.signers->0.len() <= u32::MAX,
        ensures
            n == self@.approval_count(proposal_id),
    {
        self.count_approvals(proposal_id)
    }

    /// The configured threshold.
    pub fn threshold(&self) -> (t: u32)
        requires
            self@.threshold is Some,
        ensures
            t == self@.threshold->0,
    {
        self.get_threshold()
    }
}

/// Approving is idempotent: a second approval by the same signer leaves the state as the
/// first left it, so no signer's approval counts more than its places in the list.
pub proof fn lemma_approve_idempotent(s: MultisigState, id: u32, signer: Addr)
    ensures
        s.with_approval(id, signer).with_approval(id, signer) == s.with_approval(id, signer),
{
    assert(s.with_approval(id, signer).with_approval(id, signer).approvals =~= s.with_approval(
        id,
        signer,
    ).approvals);
}

/// Approving never lowers any proposal's approval count, and it raises that of the
/// approved proposal to at least one when the approver is a signer.
pub proof fn lemma_approve_counts(s: MultisigState, id: u32, signer: Addr, other: u32)
    requires
        s.signers is Some,
    ensures
        s.approval_count(other) <= s.with_approval(id, signer).approval_count(other),
        s.signers->0.contains(signer) ==> s.with_approval(id, signer).approval_count(id) >= 1,
{
    lemma_approvals_among_monotone(s.signers->0, s.approvals, id, signer, other);
    if s.signers->0.contains(signer) {
        lemma_approvals_among_positive(s.signers->0, s.with_approval(id, signer).approvals, id, signer);
    }
}

proof fn lemma_approvals_among_monotone(
    signers: Seq<Addr>,
    approvals: Map<(u64, Addr), bool>,
    id: u32,
    signer: Addr,
    other: u32,
)
    ensures
        approvals_among(signers, approvals, other) <= approvals_among(
            signers,
            approvals.insert((id as u64, signer), true),
            other,
        ),
    decreases signers.len(),
{
    if signers.len() > 0 {
        lemma_approvals_among_monotone(signers.drop_last(), approvals, id, signer, other);
    }
}

proof fn lemma_approvals_among_positive(
    signers: Seq<Addr>,
    approvals: Map<(u64, Addr), bool>,
    id: u32,
    signer: Addr,
)
    requires
        signers.contains(signer),
        approved(approvals, id, signer),
    ensures
        approvals_among(signers, approvals, id) >= 1,
    decreases signers.len(),
{
    if signers.last() != signer {
        let k = choose|k: int| 0 <= k < signers.len() && signers[k] == signer;
        assert(signers.drop_last()[k] == signer);
        lemma_approvals_among_positive(signers.drop_last(), approvals, id, signer);
    }
}

/// The approval count of a proposal is the number of places in the signer list whose
/// signer has a stored approval of it: the length of the signer list filtered by "has
/// approved".
pub proof fn lemma_approval_count_counts_approving_signers(s: MultisigState, id: u32)
    requires
        s.signers is Some,
    ensures
        s.approval_count(id) == s.signers->0.filter(
            |a: Addr| s.approvals.contains_key((id as u64, a)) && s.approvals[(id as u64, a)],
        ).len(),
{
    lemma_approvals_among_filter(s.signers->0, s.approvals, id);
}

/// When every signer has approved a proposal, its approval count is the number of signers,
/// so it reaches any valid threshold and the proposal can be executed.
pub proof fn lemma_unanimous_approval_meets_threshold(s: MultisigState, id: u32)
    requires
        s.well_formed(),
        forall|i: int|
            0 <= i < s.signers->0.len() ==> #[trigger] s.approvals.contains_key(
                (id as u64, s.signers->0[i]),
            ) && s.approvals[(id as u64, s.signers->0[i])],
    ensures
        s.approval_count(id) == s.signers->0.len(),
        s.approval_count(id) >= s.threshold->0,
{
    lemma_approvals_among_all(s.signers->0, s.approvals, id);
}

/// Without any approval a proposal's count is zero.
pub proof fn lemma_no_approval_counts_zero(s: MultisigState, id: u32)
    requires
        s.signers is Some,
        forall|a: Addr| !(#[trigger] s.approvals.contains_key((id as u64, a)) && s.approvals[(id as u64, a)]),
    ensures
        s.approval_count(id) == 0,
{
    lemma_approvals_among_filter(s.signers->0, s.approvals, id);
    let p = |a: Addr| s.approvals.contains_key((id as u64, a)) && s.approvals[(id as u64, a)];
    let f = s.signers->0.filter(p);
    if f.len() > 0 {
        s.signers->0.lemma_filter_pred(p, 0);
        assert(p(f[0]));
    }
}

/// A signer's first approval of a proposal raises its count by the number of places that
/// signer holds in the list: by exactly one when the signers are distinct, and not at all
/// for an address that is not a signer.
pub proof fn lemma_approve_adds_the_signers_places(s: MultisigState, id: u32, signer: Addr)
    requires
        s.signers is Some,
        !(s.approvals.contains_key((id as u64, signer)) && s.approvals[(id as u64, signer)]),
    ensures
        s.with_approval(id, signer).approval_count(id) == s.approval_count(id) + s.signers->0.filter(
            |a: Addr| a == signer,
        ).len(),
        s.signers->0.no_duplicates() && s.signers->0.contains(signer) ==> s.with_approval(
            id,
            signer,
        ).approval_count(id) == s.approval_count(id) + 1,
        !s.signers->0.contains(signer) ==> s.with_approval(id, signer).approval_count(id)
            == s.approval_count(id),
{
    let sg = s.signers->0;
    lemma_approvals_among_insert(sg, s.approvals, id, signer);
    lemma_filter_eq_count(sg, signer);
}

proof fn lemma_approvals_among_filter(signers: Seq<Addr>, approvals: Map<(u64, Addr), bool>, id: u32)
    ensures
        approvals_among(signers, approvals, id) == signers.filter(
            |a: Addr| approvals.contains_key((id as u64, a)) && approvals[(id as u64, a)],
        ).len(),
    decreases signers.len(),
{
    let p = |a: Addr| approvals.contains_key((id as u64, a)) && approvals[(id as u64, a)];
    if signers.len() > 0 {
        lemma_approvals_among_filter(signers.drop_last(), approvals, id);
        reveal(Seq::filter);
        assert(signers.filter(p) == (if p(signers.last()) {
            signers.drop_last().filter(p).push(signers.last())
        } else {
            signers.drop_last().filter(p)
        }));
    }
}

proof fn lemma_approvals_among_all(signers: Seq<Addr>, approvals: Map<(u64, Addr), bool>, id: u32)
    requires
        forall|i: int| 0 <= i < signers.len() ==> #[trigger] approvals.contains_key(
            (id as u64, signers[i]),
        ) && approvals[(id as u64, signers[i])],
    ensures
        approvals_among(signers, approvals, id) == signers.len(),
    decreases signers.len(),
{
    if signers.len() > 0 {
        let rest = signers.drop_last();
        assert forall|i: int| 0 <= i < rest.len() implies #[trigger] approvals.contains_key(
            (id as u64, rest[i]),
        ) && approvals[(id as u64, rest[i])] by {
            assert(rest[i] == signers[i]);
        }
        lemma_approvals_among_all(rest, approvals, id);
        assert(approvals.contains_key((id as u64, signers[signers.len() - 1])));
    }
}

proof fn lemma_approvals_among_insert(
    signers: Seq<Addr>,
    approvals: Map<(u64, Addr), bool>,
    id: u32,
    signer: Addr,
)
    requires
        !approved(approvals, id, signer),
    ensures
        approvals_among(signers, approvals.insert((id as u64, signer), true), id) == approvals_among(
            signers,
            approvals,
            id,
        ) + signers.filter(|a: Addr| a == signer).len(),
    decreases signers.len(),
{
    let q = |a: Addr| a == signer;
    if signers.len() > 0 {
        lemma_approvals_among_insert(signers.drop_last(), approvals, id, signer);
        reveal(Seq::filter);
        assert(signers.filter(q) == (if q(signers.last()) {
            signers.drop_last().filter(q).push(signers.last())
        } else {
            signers.drop_last().filter(q)
        }));
        let x = signers.last();
        if x != signer {
            assert((id as u64, x) != (id as u64, signer));
        }
    }
}

proof fn lemma_filter_eq_count(signers: Seq<Addr>, signer: Addr)
    ensures
        signers.no_duplicates() && signers.contains(signer) ==> signers.filter(|a: Addr| a == signer).len() == 1,
        !signers.contains(signer) ==> signers.filter(|a: Addr| a == signer).len() == 0,
    decreases signers.len(),
{
    let q = |a: Addr| a == signer;
    if signers.len() > 0 {
        let rest = signers.drop_last();
        lemma_filter_eq_count(rest, signer);
        reveal(Seq::filter);
        assert(signers.filter(q) == (if q(signers.last()) {
            rest.filter(q).push(signers.last())
        } else {
            rest.filter(q)
        }));
        if signers.contains(signer) && signers.last() != signer {
            let k = choose|k: int| 0 <= k < signers.len() && signers[k] == signer;
            assert(rest[k] == signer);
        }
        if signers.no_duplicates() {
            assert(rest.no_duplicates());
            if signers.last() == signer {
                assert forall|k: int| 0 <= k < rest.len() implies rest[k] != signer by {
                    assert(signers[k] == rest[k]);
                }
            }
        }
        if !signers.contains(signer) {
            assert forall|k: int| 0 <= k < rest.len() implies rest[k] != signer by {
                assert(signers[k] == rest[k]);
            }
        }
    } else {
        reveal(Seq::filter);
        assert(signers.filter(q) =~= signers);
    }
}

} // verus!
