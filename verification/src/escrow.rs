//! Time-locked escrow with dispute resolution.
//!
//! A depositor locks funds for a recipient, naming an arbiter. The depositor may release
//! early at any time; once `release_time` has passed anyone may trigger the release. The
//! recipient may voluntarily refund. Either party may raise a dispute while the escrow is
//! active, after which only the arbiter can release or refund. Released and Refunded are
//! terminal.
use std::collections::HashMap;
use vstd::prelude::*;
use crate::common::{Addr, Payment};

verus! {

broadcast use vstd::std_specs::hash::group_hash_axioms;

/// Why an escrow operation was refused.
#[derive(Copy, Clone, Debug, PartialEq, Eq, Structural)]
pub enum EscrowError {
    /// No escrow exists with the given ID.
    EscrowNotFound,
    /// The escrow is not in a state that allows this action.
    NotActive,
    /// The caller may not perform this action on this escrow.
    Unauthorized,
    /// release() was called by someone other than the depositor before release_time.
    TooEarly,
    /// deposit() was given an amount that is zero or negative.
    InvalidAmount,
}

impl EscrowError {
    /// The stable on-chain number of this error.
    pub fn code(&self) -> (c: u32)
        ensures
            c == match *self {
                EscrowError::EscrowNotFound => 1u32,
                EscrowError::NotActive => 2u32,
                EscrowError::Unauthorized => 3u32,
                EscrowError::TooEarly => 4u32,
                EscrowError::InvalidAmount => 5u32,
            },
    {
        match self {
            EscrowError::EscrowNotFound => 1,
            EscrowError::NotActive => 2,
            EscrowError::Unauthorized => 3,
            EscrowError::TooEarly => 4,
            EscrowError::InvalidAmount => 5,
        }
    }
}

/// Lifecycle state of one escrow.
#[derive(Copy, Clone, Debug, PartialEq, Eq, Structural)]
pub enum EscrowStatus {
    /// Funds are held, awaiting release, refund, or a dispute.
    Active,
    /// A dispute has been raised; only the arbiter can now release or refund.
    Disputed,
    /// Funds have been paid out to the recipient. Terminal.
    Released,
    /// Funds have been returned to the depositor. Terminal.
    Refunded,
}

/// The status changes an escrow can go through: from Active to any other status, and from
/// Disputed to Released or Refunded.
pub open spec fn escrow_step(from: EscrowStatus, to: EscrowStatus) -> bool {
    match from {
        EscrowStatus::Active => to != EscrowStatus::Active,
        EscrowStatus::Disputed => to == EscrowStatus::Released || to == EscrowStatus::Refunded,
        _ => false,
    }
}

/// An event that an escrow operation publishes.
#[derive(Copy, Clone, Debug, PartialEq, Eq, Structural)]
pub enum EscrowEvent {
    Deposited { id: u32, depositor: Addr, recipient: Addr, amount: i128 },
    Released { id: u32, caller: Addr },
    Refunded { id: u32, caller: Addr },
    Disputed { id: u32, caller: Addr },
}

/// One escrow's full state.
#[derive(Copy, Clone, Debug, PartialEq, Eq, Structural)]
pub struct Escrow {
    pub depositor: Addr,
    pub recipient: Addr,
    pub arbiter: Addr,
    pub token: Addr,
    pub amount: i128,
    /// Unix timestamp (seconds) from which anyone may trigger release().
    pub release_time: u64,
    pub status: EscrowStatus,
}

/// The escrow contract's ledger state, as mathematical values.
pub struct EscrowState {
    pub escrows: Map<u32, Escrow>,
    /// Number of escrows created so far; the next ID.
    pub count: u32,
}

impl EscrowState {
    /// The state with escrow `id` moved to `status`.
    pub open spec fn with_status(self, id: u32, status: EscrowStatus) -> EscrowState {
        EscrowState {
            escrows: self.escrows.insert(id, Escrow { status, ..self.escrows[id] }),
            ..self
        }
    }

    /// Who may release escrow `id` at time `now`: the arbiter once disputed; while active,
    /// the depositor always and anyone else once `release_time` is reached.
    pub open spec fn may_release(self, id: u32, caller: Addr, now: u64) -> bool {
        let e = self.escrows[id];
        match e.status {
            EscrowStatus::Disputed => caller == e.arbiter,
            EscrowStatus::Active => caller == e.depositor || now >= e.release_time,
            _ => false,
        }
    }

    /// Who may refund escrow `id`: the arbiter once disputed; the recipient while active.
    pub open spec fn may_refund(self, id: u32, caller: Addr) -> bool {
        let e = self.escrows[id];
        match e.status {
            EscrowStatus::Disputed => caller == e.arbiter,
            EscrowStatus::Active => caller == e.recipient,
            _ => false,
        }
    }
}

/// The escrow contract: all escrows, and the operations on them.
pub struct EscrowContract {
    escrows: HashMap<u32, Escrow>,
    count: u32,
}

impl View for EscrowContract {
    type V = EscrowState;

    closed spec fn view(&self) -> EscrowState {
        EscrowState { escrows: self.escrows@, count: self.count }
    }
}

impl EscrowContract {
    /// A contract with no escrows.
    pub fn new() -> (c: EscrowContract)
        ensures
            c@.escrows == Map::<u32, Escrow>::empty(),
            c@.count == 0,
    {
        EscrowContract { escrows: HashMap::new(), count: 0 }
    }

    // ----- storage layer -----

    pub fn set_escrow_count(&mut self, count: u32)
        ensures
            final(self)@ == (EscrowState { count, ..old(self)@ }),
    {
        self.count = count;
    }

    pub fn get_escrow_count(&self) -> (c: u32)
        ensures
            c == self@.count,
    {
        self.count
    }

    pub fn set_escrow(&mut self, id: u32, escrow: Escrow)
        ensures
            final(self)@ == (EscrowState { escrows: old(self)@.escrows.insert(id, escrow), ..old(self)@ }),
    {
        self.escrows.insert(id, escrow);
    }

    /// The full state of escrow `id`; `EscrowNotFound` where there is none.
    pub fn get_escrow(&self, id: u32) -> (r: Result<Escrow, EscrowError>)
        ensures
            self@.escrows.contains_key(id) ==> r == Ok::<Escrow, EscrowError>(self@.escrows[id]),
            !self@.escrows.contains_key(id) ==> r == Err::<Escrow, EscrowError>(
                EscrowError::EscrowNotFound,
            ),
    {
        match self.escrows.get(&id) {
            Some(e) => Ok(*e),
            None => Err(EscrowError::EscrowNotFound),
        }
    }

    // ----- contract interface -----

    /// Opens an Active escrow under the next ID, which it returns together with the payment
    /// that pulls `amount` of `token` from the depositor (who must authorize) into custody
    /// and the `Deposited` event. Refused with `InvalidAmount`, changing nothing, when
    /// `amount` is not positive.
    pub fn deposit(
        &mut self,
        depositor: Addr,
        recipient: Addr,
        arbiter: Addr,
        token: Addr,
        amount: i128,
        release_time: u64,
    ) -> (r: Result<(u32, Payment, EscrowEvent), EscrowError>)
        requires
            amount > 0 ==> old(self)@.count < u32::MAX,
        ensures
            amount <= 0 ==> r == Err::<(u32, Payment, EscrowEvent), EscrowError>(
                EscrowError::InvalidAmount,
            ) && final(self)@ == old(self)@,
            amount > 0 ==> {
                let id = old(self)@.count;
                &&& r == Ok::<(u32, Payment, EscrowEvent), EscrowError>(
                    (
                        id,
                        Payment::In { token, from: depositor, amount },
                        EscrowEvent::Deposited { id, depositor, recipient, amount },
                    ),
                )
                &&& final(self)@ == EscrowState {
                    escrows: old(self)@.escrows.insert(
                        id,
                        Escrow {
                            depositor,
                            recipient,
                            arbiter,
                            token,
                            amount,
                            release_time,
                            status: EscrowStatus::Active,
                        },
                    ),
                    count: (id + 1) as u32,
                }
            },
    {
        if amount <= 0 {
            return Err(EscrowError::InvalidAmount);
        }
        let id = self.get_escrow_count();
        let escrow = Escrow {
            depositor,
            recipient,
            arbiter,
            token,
            amount,
            release_time,
            status: EscrowStatus::Active,
        };
        self.set_escrow(id, escrow);
        self.set_escrow_count(id + 1);
        Ok(
            (
                id,
                Payment::In { token, from: depositor, amount },
                EscrowEvent::Deposited { id, depositor, recipient, amount },
            ),
        )
    }

    /// `caller` (who must authorize) releases escrow `id` at time `now`: it becomes
    /// Released, and its amount is paid to the recipient. Refused, changing nothing, with
    /// `EscrowNotFound`; with `NotActive` once Released or Refunded; with `Unauthorized`
    /// when disputed and `caller` is not the arbiter; with `TooEarly` when active, `caller`
    /// is not the depositor and `now` is before `release_time`.
    pub fn release(&mut self, caller: Addr, id: u32, now: u64) -> (r: Result<
        (Payment, EscrowEvent),
        EscrowError,
    >)
        ensures
            ({
                let pre = old(self)@;
                let e = pre.escrows[id];
                &&& !pre.escrows.contains_key(id) ==> r == Err::<(Payment, EscrowEvent), EscrowError>(
                    EscrowError::EscrowNotFound,
                ) && final(self)@ == pre
                &&& pre.escrows.contains_key(id) && (e.status == EscrowStatus::Released || e.status
                    == EscrowStatus::Refunded) ==> r == Err::<(Payment, EscrowEvent), EscrowError>(
                    EscrowError::NotActive,
                ) && final(self)@ == pre
                &&& pre.escrows.contains_key(id) && e.status == EscrowStatus::Disputed && caller
                    != e.arbiter ==> r == Err::<(Payment, EscrowEvent), EscrowError>(
                    EscrowError::Unauthorized,
                ) && final(self)@ == pre
                &&& pre.escrows.contains_key(id) && e.status == EscrowStatus::Active && caller
                    != e.depositor && now < e.release_time ==> r == Err::<
                    (Payment, EscrowEvent),
                    EscrowError,
                >(EscrowError::TooEarly) && final(self)@ == pre
                &&& pre.escrows.contains_key(id) && pre.may_release(id, caller, now) ==> {
                    &&& r == Ok::<(Payment, EscrowEvent), EscrowError>(
                        (
                            Payment::Out { token: e.token, to: e.recipient, amount: e.amount },
                            EscrowEvent::Released { id, caller },
                        ),
                    )
                    &&& final(self)@ == pre.with_status(id, EscrowStatus::Released)
                    &&& escrow_step(e.status, EscrowStatus::Released)
                }
                &&& pre.escrows.contains_key(id) && e.status == EscrowStatus::Active && now
                    >= e.release_time ==> r == Ok::<(Payment, EscrowEvent), EscrowError>(
                    (
                        Payment::Out { token: e.token, to: e.recipient, amount: e.amount },
                        EscrowEvent::Released { id, caller },
                    ),
                ) && final(self)@.escrows[id].status == EscrowStatus::Released
            }),
    {
        let mut escrow = match self.get_escrow(id) {
            Ok(e) => e,
            Err(err) => return Err(err),
        };
        match escrow.status {
            EscrowStatus::Disputed => {
                if caller != escrow.arbiter {
                    return Err(EscrowError::Unauthorized);
                }
            },
            EscrowStatus::Active => {
                let unlocked = now >= escrow.release_time;
                if caller != escrow.depositor && !unlocked {
                    return Err(EscrowError::TooEarly);
                }
            },
            _ => return Err(EscrowError::NotActive),
        }
        escrow.status = EscrowStatus::Released;
        self.set_escrow(id, escrow);
        Ok(
            (
                Payment::Out { token: escrow.token, to: escrow.recipient, amount: escrow.amount },
                EscrowEvent::Released { id, caller },
            ),
        )
    }

    /// `caller` (who must authorize) refunds escrow `id`: it becomes Refunded, and its
    /// amount is paid back to the depositor. Refused, changing nothing, with
    /// `EscrowNotFound`; with `NotActive` once Released or Refunded; with `Unauthorized`
    /// when disputed and `caller` is not the arbiter, or active and `caller` is not the
    /// recipient.
    pub fn refund(&mut self, caller: Addr, id: u32) -> (r: Result<
        (Payment, EscrowEvent),
        EscrowError,
    >)
        ensures
            ({
                let pre = old(self)@;
                let e = pre.escrows[id];
                &&& !pre.escrows.contains_key(id) ==> r == Err::<(Payment, EscrowEvent), EscrowError>(
                    EscrowError::EscrowNotFound,
                ) && final(self)@ == pre
                &&& pre.escrows.contains_key(id) && (e.status == EscrowStatus::Released || e.status
                    == EscrowStatus::Refunded) ==> r == Err::<(Payment, EscrowEvent), EscrowError>(
                    EscrowError::NotActive,
                ) && final(self)@ == pre
                &&& pre.escrows.contains_key(id) && (e.status == EscrowStatus::Disputed
                    || e.status == EscrowStatus::Active) && !pre.may_refund(id, caller) ==> r
                    == Err::<(Payment, EscrowEvent), EscrowError>(EscrowError::Unauthorized)
                    && final(self)@ == pre
                &&& pre.escrows.contains_key(id) && pre.may_refund(id, caller) ==> {
                    &&& r == Ok::<(Payment, EscrowEvent), EscrowError>(
                        (
                            Payment::Out { token: e.token, to: e.depositor, amount: e.amount },
                            EscrowEvent::Refunded { id, caller },
                        ),
                    )
                    &&& final(self)@ == pre.with_status(id, EscrowStatus::Refunded)
                    &&& escrow_step(e.status, EscrowStatus::Refunded)
                }
            }),
    {
        let mut escrow = match self.get_escrow(id) {
            Ok(e) => e,
            Err(err) => return Err(err),
        };
        match escrow.status {
            EscrowStatus::Disputed => {
                if caller != escrow.arbiter {
                    return Err(EscrowError::Unauthorized);
                }
            },
            EscrowStatus::Active => {
                if caller != escrow.recipient {
                    return Err(EscrowError::Unauthorized);
                }
            },
            _ => return Err(EscrowError::NotActive),
        }
        escrow.status = EscrowStatus::Refunded;
        self.set_escrow(id, escrow);
        Ok(
            (
                Payment::Out { token: escrow.token, to: escrow.depositor, amount: escrow.amount },
                EscrowEvent::Refunded { id, caller },
            ),
        )
    }

    /// `caller` (who must authorize) raises a dispute on escrow `id`: it becomes Disputed.
    /// Refused, changing nothing, with `EscrowNotFound`; with `NotActive` unless Active;
    /// with `Unauthorized` when `caller` is neither the depositor nor the recipient.
    pub fn dispute(&mut self, caller: Addr, id: u32) -> (r: Result<EscrowEvent, EscrowError>)
        ensures
            ({
                let pre = old(self)@;
                let e = pre.escrows[id];
                &&& !pre.escrows.contains_key(id) ==> r == Err::<EscrowEvent, EscrowError>(
                    EscrowError::EscrowNotFound,
                ) && final(self)@ == pre
                &&& pre.escrows.contains_key(id) && e.status != EscrowStatus::Active ==> r == Err::<
                    EscrowEvent,
                    EscrowError,
                >(EscrowError::NotActive) && final(self)@ == pre
                &&& pre.escrows.contains_key(id) && e.status == EscrowStatus::Active && caller
                    != e.depositor && caller != e.recipient ==> r == Err::<EscrowEvent, EscrowError>(
                    EscrowError::Unauthorized,
                ) && final(self)@ == pre
                &&& pre.escrows.contains_key(id) && e.status == EscrowStatus::Active && (caller
                    == e.depositor || caller == e.recipient) ==> {
                    &&& r == Ok::<EscrowEvent, EscrowError>(EscrowEvent::Disputed { id, caller })
                    &&& final(self)@ == pre.with_status(id, EscrowStatus::Disputed)
                    &&& escrow_step(e.status, EscrowStatus::Disputed)
                }
            }),
    {
        let mut escrow = match self.get_escrow(id) {
            Ok(e) => e,
            Err(err) => return Err(err),
        };
        if escrow.status != EscrowStatus::Active {
            return Err(EscrowError::NotActive);
        }
        if caller != escrow.depositor && caller != escrow.recipient {
            return Err(EscrowError::Unauthorized);
        }
        escrow.status = EscrowStatus::Disputed;
        self.set_escrow(id, escrow);
        Ok(EscrowEvent::Disputed { id, caller })
    }
}

/// Released and Refunded are terminal: no status change leads out of them, so an escrow
/// pays out its amount at most once.
pub proof fn lemma_terminal_statuses_are_final(to: EscrowStatus)
    ensures
        !escrow_step(EscrowStatus::Released, to),
        !escrow_step(EscrowStatus::Refunded, to),
{
}

/// The time lock binds only until `release_time`: from then on an Active escrow may be
/// released by anyone, whoever calls (and release() then pays its amount to the
/// recipient).
pub proof fn lemma_release_open_to_all_after_time_lock(s: EscrowState, id: u32, caller: Addr, now: u64)
    requires
        s.escrows.contains_key(id),
        s.escrows[id].status == EscrowStatus::Active,
        now >= s.escrows[id].release_time,
    ensures
        s.may_release(id, caller, now),
{
}

/// Who may release, status by status: while Active, the depositor at any time and, before
/// `release_time`, nobody else; once Disputed, exactly the arbiter; once Released or
/// Refunded, nobody.
pub proof fn lemma_release_authority(s: EscrowState, id: u32, caller: Addr, now: u64)
    ensures
        ({
            let e = s.escrows[id];
            &&& e.status == EscrowStatus::Active && caller == e.depositor ==> s.may_release(id, caller, now)
            &&& e.status == EscrowStatus::Active && now < e.release_time ==> (s.may_release(
                id,
                caller,
                now,
            ) <==> caller == e.depositor)
            &&& e.status == EscrowStatus::Disputed ==> (s.may_release(id, caller, now) <==> caller
                == e.arbiter)
            &&& e.status == EscrowStatus::Released || e.status == EscrowStatus::Refunded
                ==> !s.may_release(id, caller, now)
        }),
{
}

/// Who may refund, status by status: while Active, exactly the recipient; once Disputed,
/// exactly the arbiter; once Released or Refunded, nobody.
pub proof fn lemma_refund_authority(s: EscrowState, id: u32, caller: Addr)
    ensures
        ({
            let e = s.escrows[id];
            &&& e.status == EscrowStatus::Active ==> (s.may_refund(id, caller) <==> caller == e.recipient)
            &&& e.status == EscrowStatus::Disputed ==> (s.may_refund(id, caller) <==> caller
                == e.arbiter)
            &&& e.status == EscrowStatus::Released || e.status == EscrowStatus::Refunded
                ==> !s.may_refund(id, caller)
        }),
{
}

} // verus!
