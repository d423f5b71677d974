//! Linear token vesting with a cliff.
//!
//! A depositor locks tokens for a beneficiary, vesting linearly from `start_time` over
//! `vesting_duration` seconds. Nothing is claimable until `cliff_duration` has passed;
//! then whatever has accrued becomes claimable at once. The depositor may revoke at any
//! time: the beneficiary is paid what has vested and not been claimed, the depositor gets
//! the unvested remainder back.
use std::collections::HashMap;
use vstd::prelude::*;
use crate::common::{Addr, Payment, fits_i128};

verus! {

broadcast use vstd::std_specs::hash::group_hash_axioms;

/// Why a vesting operation was refused.
#[derive(Copy, Clone, Debug, PartialEq, Eq, Structural)]
pub enum VestingError {
    /// No schedule exists with the given ID.
    ScheduleNotFound,
    /// The caller is not the party this action belongs to.
    Unauthorized,
    /// The schedule has already been revoked.
    AlreadyRevoked,
    /// create_vesting was given a total amount that is zero or negative.
    InvalidAmount,
    /// create_vesting was given a vesting duration of zero.
    InvalidDuration,
    /// claim found nothing vested beyond what was already claimed.
    NothingToClaim,
}

impl VestingError {
    /// The stable on-chain number of this error.
    pub fn code(&self) -> (c: u32)
        ensures
            c == match *self {
                VestingError::ScheduleNotFound => 1u32,
                VestingError::Unauthorized => 2u32,
                VestingError::AlreadyRevoked => 3u32,
                VestingError::InvalidAmount => 4u32,
                VestingError::InvalidDuration => 5u32,
                VestingError::NothingToClaim => 6u32,
            },
    {
        match self {
            VestingError::ScheduleNotFound => 1,
            VestingError::Unauthorized => 2,
            VestingError::AlreadyRevoked => 3,
            VestingError::InvalidAmount => 4,
            VestingError::InvalidDuration => 5,
            VestingError::NothingToClaim => 6,
        }
    }
}

/// An event that a vesting operation publishes.
#[derive(Copy, Clone, Debug, PartialEq, Eq, Structural)]
pub enum VestingEvent {
    Created { id: u32, depositor: Addr, beneficiary: Addr, total_amount: i128 },
    Claimed { id: u32, beneficiary: Addr, amount: i128 },
    Revoked { id: u32, depositor: Addr, returned_amount: i128 },
}

/// One linear vesting schedule with a cliff.
#[derive(Copy, Clone, Debug, PartialEq, Eq, Structural)]
pub struct VestingSchedule {
    pub depositor: Addr,
    pub beneficiary: Addr,
    pub token: Addr,
    /// Total amount vested over the full schedule.
    pub total_amount: i128,
    /// Amount already transferred to the beneficiary (by claim or revoke).
    pub claimed_amount: i128,
    /// Unix timestamp (seconds) the schedule accrues from.
    pub start_time: u64,
    /// Seconds after start_time before anything is claimable.
    pub cliff_duration: u64,
    /// Seconds from start_time until the schedule is fully vested.
    pub vesting_duration: u64,
    /// Set once the depositor revokes; no claim is possible after that.
    pub revoked: bool,
}

/// `a / b` rounded toward zero, as Rust's integer division does.
pub open spec fn trunc_div(a: int, b: int) -> int {
    if a >= 0 {
        a / b
    } else {
        -((-a) / b)
    }
}

impl VestingSchedule {
    /// The schedule as the operations keep it: amount and duration positive, and what the
    /// beneficiary has received between 0 and the total.
    pub open spec fn well_formed(self) -> bool {
        &&& self.total_amount > 0
        &&& self.vesting_duration > 0
        &&& 0 <= self.claimed_amount <= self.total_amount
    }

    /// What the beneficiary has received once a revoke at `now` has paid it: the claimed
    /// amount plus the unclaimed vested part, where that is positive.
    pub open spec fn claimed_after_revoke(self, now: u64) -> int {
        if self.vested(now) - self.claimed_amount > 0 {
            self.vested(now)
        } else {
            self.claimed_amount as int
        }
    }

    /// How much has vested at time `now`: 0 before the start and before the cliff, the
    /// total once `vesting_duration` has elapsed, and in between the total scaled by the
    /// elapsed fraction of the duration, rounded toward zero.
    pub open spec fn vested(self, now: u64) -> int {
        if now < self.start_time {
            0
        } else if now - self.start_time < self.cliff_duration {
            0
        } else if now - self.start_time >= self.vesting_duration {
            self.total_amount as int
        } else {
            trunc_div(
                self.total_amount * (now - self.start_time),
                self.vesting_duration as int,
            )
        }
    }

    /// The product in `vested` stays within `i128` (where it is computed at all).
    pub open spec fn curve_fits(self, now: u64) -> bool {
        now < self.start_time || now - self.start_time < self.cliff_duration || now
            - self.start_time >= self.vesting_duration || fits_i128(
            self.total_amount * (now - self.start_time),
        )
    }

    /// The arithmetic of claim at time `now` stays within `i128`.
    pub open spec fn claim_fits(self, now: u64) -> bool {
        &&& self.curve_fits(now)
        &&& fits_i128(self.vested(now) - self.claimed_amount)
    }

    /// The arithmetic of revoke at time `now` stays within `i128`.
    pub open spec fn settle_fits(self, now: u64) -> bool {
        &&& self.claim_fits(now)
        &&& fits_i128(self.total_amount - self.vested(now))
    }
}

/// The vesting contract's ledger state, as mathematical values.
pub struct VestingState {
    /// Stored schedules by ID.
    pub schedules: Map<u32, VestingSchedule>,
    /// Number of schedules created so far; the next ID.
    pub count: u32,
}

impl VestingState {
    /// What claim leaves behind for schedule `id` at time `now`.
    pub open spec fn claimed(self, id: u32, now: u64) -> VestingState {
        let s = self.schedules[id];
        VestingState {
            schedules: self.schedules.insert(
                id,
                VestingSchedule { claimed_amount: s.vested(now) as i128, ..s },
            ),
            ..self
        }
    }

    /// What revoke at `now` leaves behind for schedule `id`: marked revoked, with the
    /// claimed amount raised by what revoke pays the beneficiary.
    pub open spec fn revoked(self, id: u32, now: u64) -> VestingState {
        let s = self.schedules[id];
        VestingState {
            schedules: self.schedules.insert(
                id,
                VestingSchedule {
                    revoked: true,
                    claimed_amount: s.claimed_after_revoke(now) as i128,
                    ..s
                },
            ),
            ..self
        }
    }
}

/// The payments revoke makes: the unclaimed vested part to the beneficiary and the unvested
/// remainder back to the depositor, each only where it is positive.
pub open spec fn revoke_payments(s: VestingSchedule, now: u64) -> Seq<Payment> {
    let claimable = s.vested(now) - s.claimed_amount;
    let remainder = s.total_amount - s.vested(now);
    let to_beneficiary = if claimable > 0 {
        seq![Payment::Out { token: s.token, to: s.beneficiary, amount: claimable as i128 }]
    } else {
        Seq::<Payment>::empty()
    };
    let to_depositor = if remainder > 0 {
        seq![Payment::Out { token: s.token, to: s.depositor, amount: remainder as i128 }]
    } else {
        Seq::<Payment>::empty()
    };
    to_beneficiary + to_depositor
}

/// The vesting contract: all schedules, and the operations on them.
pub struct VestingContract {
    schedules: HashMap<u32, VestingSchedule>,
    count: u32,
}

impl View for VestingContract {
    type V = VestingState;

    closed spec fn view(&self) -> VestingState {
        VestingState { schedules: self.schedules@, count: self.count }
    }
}

impl VestingContract {
    /// A contract with no schedules.
    pub fn new() -> (c: VestingContract)
        ensures
            c@.schedules == Map::<u32, VestingSchedule>::empty(),
            c@.count == 0,
    {
        VestingContract { schedules: HashMap::new(), count: 0 }
    }

    // ----- storage layer -----

    pub fn set_schedule_count(&mut self, count: u32)
        ensures
            final(self)@ == (VestingState { count, ..old(self)@ }),
    {
        self.count = count;
    }

    pub fn get_schedule_count(&self) -> (c: u32)
        ensures
            c == self@.count,
    {
        self.count
    }

    pub fn set_schedule(&mut self, id: u32, schedule: VestingSchedule)
        ensures
            final(self)@ == (VestingState {
                schedules: old(self)@.schedules.insert(id, schedule),
                ..old(self)@
            }),
    {
        self.schedules.insert(id, schedule);
    }

    /// The full state of schedule `id`; `ScheduleNotFound` where there is none.
    pub fn get_schedule(&self, id: u32) -> (r: Result<VestingSchedule, VestingError>)
        ensures
            self@.schedules.contains_key(id) ==> r == Ok::<VestingSchedule, VestingError>(
                self@.schedules[id],
            ),
            !self@.schedules.contains_key(id) ==> r == Err::<VestingSchedule, VestingError>(
                VestingError::ScheduleNotFound,
            ),
    {
        match self.schedules.get(&id) {
            Some(s) => Ok(*s),
            None => Err(VestingError::ScheduleNotFound),
        }
    }

    // ----- contract interface -----

    /// How much of `schedule` has vested at time `now`.
    pub fn vested_at(schedule: &VestingSchedule, now: u64) -> (v: i128)
        requires
            schedule.curve_fits(now),
        ensures
            v == schedule.vested(now),
    {
        if now < schedule.start_time {
            return 0;
        }
        let elapsed = now - schedule.start_time;
        if elapsed < schedule.cliff_duration {
            return 0;
        }
        if elapsed >= schedule.vesting_duration {
            return schedule.total_amount;
        }
        (schedule.total_amount * elapsed as i128) / schedule.vesting_duration as i128
    }

    /// Creates a schedule with nothing claimed yet, under the next ID, which it returns
    /// together with the payment that pulls `total_amount` of `token` from the depositor
    /// (who must authorize) into custody and the `Created` event. Refused, changing
    /// nothing, with `InvalidAmount` when `total_amount` is not positive, else with
    /// `InvalidDuration` when `vesting_duration` is zero.
    pub fn create_vesting(
        &mut self,
        depositor: Addr,
        beneficiary: Addr,
        token: Addr,
        total_amount: i128,
        start_time: u64,
        cliff_duration: u64,
        vesting_duration: u64,
    ) -> (r: Result<(u32, Payment, VestingEvent), VestingError>)
        requires
            total_amount > 0 && vesting_duration > 0 ==> old(self)@.count < u32::MAX,
        ensures
            total_amount <= 0 ==> r == Err::<(u32, Payment, VestingEvent), VestingError>(
                VestingError::InvalidAmount,
            ) && final(self)@ == old(self)@,
            total_amount > 0 && vesting_duration == 0 ==> r == Err::<
                (u32, Payment, VestingEvent),
                VestingError,
            >(VestingError::InvalidDuration) && final(self)@ == old(self)@,
            total_amount > 0 && vesting_duration > 0 ==> {
                let id = old(self)@.count;
                let schedule = VestingSchedule {
                    depositor,
                    beneficiary,
                    token,
                    total_amount,
                    claimed_amount: 0,
                    start_time,
                    cliff_duration,
                    vesting_duration,
                    revoked: false,
                };
                &&& r == Ok::<(u32, Payment, VestingEvent), VestingError>(
                    (
                        id,
                        Payment::In { token, from: depositor, amount: total_amount },
                        VestingEvent::Created { id, depositor, beneficiary, total_amount },
                    ),
                )
                &&& final(self)@ == VestingState {
                    schedules: old(self)@.schedules.insert(id, schedule),
                    count: (id + 1) as u32,
                }
                &&& schedule.well_formed()
            },
    {
        if total_amount <= 0 {
            return Err(VestingError::InvalidAmount);
        }
        if vesting_duration == 0 {
            return Err(VestingError::InvalidDuration);
        }
        let id = self.get_schedule_count();
        let schedule = VestingSchedule {
            depositor,
            beneficiary,
            token,
            total_amount,
            claimed_amount: 0,
            start_time,
            cliff_duration,
            vesting_duration,
            revoked: false,
        };
        self.set_schedule(id, schedule);
        self.set_schedule_count(id + 1);
        Ok(
            (
                id,
                Payment::In { token, from: depositor, amount: total_amount },
                VestingEvent::Created { id, depositor, beneficiary, total_amount },
            ),
        )
    }

    /// The beneficiary (`caller`, who must authorize) claims at time `now` everything
    /// vested and not yet claimed; that amount is returned, with the payment to the
    /// beneficiary and the `Claimed` event, and the claimed amount becomes what has
    /// vested. Refused, changing nothing, in this order: `ScheduleNotFound`;
    /// `Unauthorized` when `caller` is not the beneficiary; `AlreadyRevoked`;
    /// `NothingToClaim` when what has vested does not exceed what was claimed.
    pub fn claim(&mut self, caller: Addr, id: u32, now: u64) -> (r: Result<
        (i128, Payment, VestingEvent),
        VestingError,
    >)
        requires
            old(self)@.schedules.contains_key(id) && caller == old(self)@.schedules[id].beneficiary
                && !old(self)@.schedules[id].revoked ==> old(self)@.schedules[id].claim_fits(now),
        ensures
            ({
                let pre = old(self)@;
                let s = pre.schedules[id];
                let claimable = s.vested(now) - s.claimed_amount;
                &&& !pre.schedules.contains_key(id) ==> r == Err::<
                    (i128, Payment, VestingEvent),
                    VestingError,
                >(VestingError::ScheduleNotFound) && final(self)@ == pre
                &&& pre.schedules.contains_key(id) && caller != s.beneficiary ==> r == Err::<
                    (i128, Payment, VestingEvent),
                    VestingError,
                >(VestingError::Unauthorized) && final(self)@ == pre
                &&& pre.schedules.contains_key(id) && caller == s.beneficiary && s.revoked ==> r
                    == Err::<(i128, Payment, VestingEvent), VestingError>(
                    VestingError::AlreadyRevoked,
                ) && final(self)@ == pre
                &&& pre.schedules.contains_key(id) && caller == s.beneficiary && !s.revoked
                    && claimable <= 0 ==> r == Err::<(i128, Payment, VestingEvent), VestingError>(
                    VestingError::NothingToClaim,
                ) && final(self)@ == pre
                &&& pre.schedules.contains_key(id) && caller == s.beneficiary && !s.revoked
                    && claimable > 0 ==> {
                    &&& r == Ok::<(i128, Payment, VestingEvent), VestingError>(
                        (
                            claimable as i128,
                            Payment::Out { token: s.token, to: s.beneficiary, amount: claimable as i128 },
                            VestingEvent::Claimed { id, beneficiary: caller, amount: claimable as i128 },
                        ),
                    )
                    &&& final(self)@ == pre.claimed(id, now)
                    // after a claim, exactly what has vested counts as claimed
                    &&& final(self)@.schedules[id].claimed_amount == s.vested(now)
                    &&& s.well_formed() ==> final(self)@.schedules[id].well_formed()
                }
            }),
    {
        let mut schedule = match self.get_schedule(id) {
            Ok(s) => s,
            Err(e) => return Err(e),
        };
        if caller != schedule.beneficiary {
            return Err(VestingError::Unauthorized);
        }
        if schedule.revoked {
            return Err(VestingError::AlreadyRevoked);
        }
        let vested = Self::vested_at(&schedule, now);
        let claimable = vested - schedule.claimed_amount;
        if claimable <= 0 {
            return Err(VestingError::NothingToClaim);
        }
        schedule.claimed_amount = schedule.claimed_amount + claimable;
        self.set_schedule(id, schedule);
        proof {
            if schedule.total_amount > 0 && schedule.vesting_duration > 0 {
                lemma_vested_bounds(old(self)@.schedules[id], now);
            }
        }
        Ok(
            (
                claimable,
                Payment::Out { token: schedule.token, to: schedule.beneficiary, amount: claimable },
                VestingEvent::Claimed { id, beneficiary: caller, amount: claimable },
            ),
        )
    }

    /// The depositor (`caller`, who must authorize) revokes schedule `id` at time `now`:
    /// the schedule is marked revoked and its claimed amount raised by what the beneficiary
    /// is paid (so it becomes what has vested, unless more was claimed already); returned are
    /// the payments of `revoke_payments` and the `Revoked` event, which carries the unvested
    /// remainder. Refused, changing nothing, in this order: `ScheduleNotFound`;
    /// `Unauthorized` when `caller` is not the depositor; `AlreadyRevoked`.
    pub fn revoke(&mut self, caller: Addr, id: u32, now: u64) -> (r: Result<
        (Vec<Payment>, VestingEvent),
        VestingError,
    >)
        requires
            old(self)@.schedules.contains_key(id) && caller == old(self)@.schedules[id].depositor
                && !old(self)@.schedules[id].revoked ==> old(self)@.schedules[id].settle_fits(now),
        ensures
            ({
                let pre = old(self)@;
                let s = pre.schedules[id];
                &&& !pre.schedules.contains_key(id) ==> r is Err && r->Err_0
                    == VestingError::ScheduleNotFound && final(self)@ == pre
                &&& pre.schedules.contains_key(id) && caller != s.depositor ==> r is Err && r->Err_0
                    == VestingError::Unauthorized && final(self)@ == pre
                &&& pre.schedules.contains_key(id) && caller == s.depositor && s.revoked ==> r is Err
                    && r->Err_0 == VestingError::AlreadyRevoked && final(self)@ == pre
                &&& pre.schedules.contains_key(id) && caller == s.depositor && !s.revoked ==> {
                    &&& r is Ok
                    &&& r->Ok_0.0@ == revoke_payments(s, now)
                    &&& r->Ok_0.1 == (VestingEvent::Revoked {
                        id,
                        depositor: caller,
                        returned_amount: (s.total_amount - s.vested(now)) as i128,
                    })
                    &&& final(self)@ == pre.revoked(id, now)
                    &&& s.claimed_amount <= s.vested(now) ==> final(self)@.schedules[id].claimed_amount
                        == s.vested(now)
                    &&& s.well_formed() ==> final(self)@.schedules[id].well_formed()
                }
            }),
    {
        let mut schedule = match self.get_schedule(id) {
            Ok(s) => s,
            Err(e) => return Err(e),
        };
        if caller != schedule.depositor {
            return Err(VestingError::Unauthorized);
        }
        if schedule.revoked {
            return Err(VestingError::AlreadyRevoked);
        }
        let vested = Self::vested_at(&schedule, now);
        let claimable = vested - schedule.claimed_amount;
        let remainder = schedule.total_amount - vested;
        schedule.revoked = true;
        if claimable > 0 {
            schedule.claimed_amount = vested;
        }
        self.set_schedule(id, schedule);
        proof {
            let s0 = old(self)@.schedules[id];
            if s0.total_amount > 0 && s0.vesting_duration > 0 {
                lemma_vested_bounds(s0, now);
            }
        }
        let mut payments: Vec<Payment> = Vec::new();
        if claimable > 0 {
            payments.push(Payment::Out { token: schedule.token, to: schedule.beneficiary, amount: claimable });
        }
        if remainder > 0 {
            payments.push(Payment::Out { token: schedule.token, to: schedule.depositor, amount: remainder });
        }
        proof {
            assert(payments@ =~= revoke_payments(old(self)@.schedules[id], now));
        }
        Ok((payments, VestingEvent::Revoked { id, depositor: caller, returned_amount: remainder }))
    }

    /// How much of schedule `id` has vested at time `now`, whatever has been claimed;
    /// `ScheduleNotFound` where there is no such schedule.
    pub fn vested_amount(&self, id: u32, now: u64) -> (r: Result<i128, VestingError>)
        requires
            self@.schedules.contains_key(id) ==> self@.schedules[id].curve_fits(now),
        ensures
            self@.schedules.contains_key(id) ==> r == Ok::<i128, VestingError>(
                self@.schedules[id].vested(now) as i128,
            ),
            !self@.schedules.contains_key(id) ==> r == Err::<i128, VestingError>(
                VestingError::ScheduleNotFound,
            ),
    {
        match self.get_schedule(id) {
            Ok(s) => Ok(Self::vested_at(&s, now)),
            Err(e) => Err(e),
        }
    }
}

/// For a well-formed schedule, what has vested lies between 0 and the total amount.
pub proof fn lemma_vested_bounds(s: VestingSchedule, now: u64)
    requires
        s.total_amount > 0,
        s.vesting_duration > 0,
    ensures
        0 <= s.vested(now) <= s.total_amount,
{
    if now >= s.start_time && now - s.start_time >= s.cliff_duration && now - s.start_time
        < s.vesting_duration {
        let e = (now - s.start_time) as int;
        let t = s.total_amount as int;
        let d = s.vesting_duration as int;
        assert(0 <= t * e <= t * d) by (nonlinear_arith)
            requires 0 <= e < d, t > 0;
        assert(0 <= (t * e) / d <= t) by (nonlinear_arith)
            requires 0 <= t * e <= t * d, d > 0, t > 0;
    }
}

/// Vesting never goes backwards: for a well-formed schedule, what has vested at a later
/// time is at least what had vested at an earlier one.
pub proof fn lemma_vested_monotone(s: VestingSchedule, t1: u64, t2: u64)
    requires
        s.total_amount > 0,
        s.vesting_duration > 0,
        t1 <= t2,
    ensures
        s.vested(t1) <= s.vested(t2),
{
    lemma_vested_bounds(s, t1);
    lemma_vested_bounds(s, t2);
    if t1 >= s.start_time && t1 - s.start_time >= s.cliff_duration && t2 - s.start_time
        < s.vesting_duration {
        let e1 = (t1 - s.start_time) as int;
        let e2 = (t2 - s.start_time) as int;
        let t = s.total_amount as int;
        let d = s.vesting_duration as int;
        assert(0 <= t * e1 <= t * e2) by (nonlinear_arith)
            requires 0 <= e1 <= e2, t > 0;
        assert((t * e1) / d <= (t * e2) / d) by (nonlinear_arith)
            requires 0 <= t * e1 <= t * e2, d > 0;
    }
}

/// The shape of the curve: nothing has vested before the cliff has passed, and everything
/// has once the vesting duration has elapsed.
pub proof fn lemma_vesting_curve_ends(s: VestingSchedule, now: u64)
    ensures
        now < s.start_time + s.cliff_duration ==> s.vested(now) == 0,
        now >= s.start_time + s.vesting_duration && now - s.start_time >= s.cliff_duration
            ==> s.vested(now) == s.total_amount,
{
}

/// Between the cliff and the end of the vesting duration, what has vested is the total's
/// share for the elapsed fraction of the duration, rounded down: the largest amount `v`
/// with `v * vesting_duration <= total_amount * elapsed`.
pub proof fn lemma_vested_is_the_elapsed_share(s: VestingSchedule, now: u64)
    requires
        s.total_amount > 0,
        now >= s.start_time,
        s.cliff_duration <= now - s.start_time < s.vesting_duration,
    ensures
        s.vested(now) * s.vesting_duration <= s.total_amount * (now - s.start_time),
        s.total_amount * (now - s.start_time) < (s.vested(now) + 1) * s.vesting_duration,
{
    let e = now - s.start_time;
    let a = s.total_amount * e;
    let d = s.vesting_duration as int;
    assert(a >= 0) by (nonlinear_arith)
        requires a == s.total_amount * e, s.total_amount > 0, e >= 0;
    assert((a / d) * d <= a < (a / d + 1) * d) by (nonlinear_arith)
        requires a >= 0, d > 0;
}

/// The total of the payments out in `ps`.
pub open spec fn paid_out(ps: Seq<Payment>) -> int
    decreases ps.len(),
{
    if ps.len() == 0 {
        0
    } else {
        paid_out(ps.drop_last()) + match ps.last() {
            Payment::Out { amount, .. } => amount as int,
            Payment::In { .. } => 0,
        }
    }
}

/// Revoking pays out exactly what custody still holds for the schedule: the total minus
/// what was already claimed, split between beneficiary (vested part) and depositor
/// (unvested part) — as long as no more was claimed earlier than has vested by now.
pub proof fn lemma_revoke_pays_out_the_rest(s: VestingSchedule, now: u64)
    requires
        s.well_formed(),
        !s.revoked,
        s.claimed_amount <= s.vested(now),
    ensures
        paid_out(revoke_payments(s, now)) == s.total_amount - s.claimed_amount,
{
    lemma_vested_bounds(s, now);
    let ps = revoke_payments(s, now);
    reveal_with_fuel(paid_out, 3);
    let claimable = s.vested(now) - s.claimed_amount;
    let remainder = s.total_amount - s.vested(now);
    if claimable > 0 && remainder > 0 {
        assert(ps.drop_last() =~= seq![Payment::Out { token: s.token, to: s.beneficiary, amount: claimable as i128 }]);
        assert(ps.drop_last().drop_last() =~= Seq::<Payment>::empty());
    } else if claimable > 0 {
        assert(ps.drop_last() =~= Seq::<Payment>::empty());
    } else if remainder > 0 {
        assert(ps.drop_last() =~= Seq::<Payment>::empty());
    } else {
        assert(ps =~= Seq::<Payment>::empty());
    }
}

} // verus!
