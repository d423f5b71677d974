use soroban_devkit_contracts::common::{Addr, Payment};
use soroban_devkit_contracts::token::TokenContract;
use soroban_devkit_contracts::vesting::{VestingContract, VestingError, VestingEvent, VestingSchedule};

const CONTRACT: Addr = 100;
const TOKEN: Addr = 200;
const TOKEN_ADMIN: Addr = 1;
const DEPOSITOR: Addr = 2;
const BENEFICIARY: Addr = 3;

struct Setup {
    client: VestingContract,
    token: TokenContract,
}

fn setup() -> Setup {
    let mut token = TokenContract::new();
    token.initialize(TOKEN_ADMIN, "DevKit Token".to_string(), "DKT".to_string(), 7).unwrap();
    token.mint(DEPOSITOR, 1_000_000).unwrap();
    Setup { client: VestingContract::new(), token }
}

fn settle(token: &mut TokenContract, p: &Payment) {
    match *p {
        Payment::In { token: t, from, amount } => {
            assert_eq!(t, TOKEN);
            token.transfer(from, CONTRACT, amount).unwrap();
        }
        Payment::Out { token: t, to, amount } => {
            assert_eq!(t, TOKEN);
            token.transfer(CONTRACT, to, amount).unwrap();
        }
    }
}

/// start_time=0, cliff_duration=100, vesting_duration=1000, total=1_000_000
fn create_default(s: &mut Setup) -> u32 {
    let (id, payment, _) = s
        .client
        .create_vesting(DEPOSITOR, BENEFICIARY, TOKEN, 1_000_000, 0, 100, 1_000)
        .unwrap();
    settle(&mut s.token, &payment);
    id
}

fn claim(s: &mut Setup, caller: Addr, id: u32, now: u64) -> Result<i128, VestingError> {
    let (amount, payment, _) = s.client.claim(caller, id, now)?;
    settle(&mut s.token, &payment);
    Ok(amount)
}

fn revoke(s: &mut Setup, caller: Addr, id: u32, now: u64) -> Result<(), VestingError> {
    let (payments, _) = s.client.revoke(caller, id, now)?;
    for p in payments.iter() {
        settle(&mut s.token, p);
    }
    Ok(())
}

#[test]
fn test_create_vesting_moves_real_balance() {
    let mut s = setup();
    let id = create_default(&mut s);
    let schedule = s.client.get_schedule(id).unwrap();
    assert_eq!(schedule.total_amount, 1_000_000);
    assert_eq!(schedule.claimed_amount, 0);
    assert!(!schedule.revoked);
    assert_eq!(s.token.balance(DEPOSITOR), 0);
    assert_eq!(s.token.balance(CONTRACT), 1_000_000);
}

#[test]
fn test_nothing_claimable_before_cliff() {
    let mut s = setup();
    let id = create_default(&mut s);
    assert_eq!(claim(&mut s, BENEFICIARY, id, 50), Err(VestingError::NothingToClaim));
}

#[test]
fn test_partial_claim_after_cliff_before_full_vest() {
    let mut s = setup();
    let id = create_default(&mut s);
    let claimed = claim(&mut s, BENEFICIARY, id, 500).unwrap();
    assert_eq!(claimed, 500_000);
    assert_eq!(s.token.balance(BENEFICIARY), 500_000);
    assert_eq!(s.token.balance(CONTRACT), 500_000);
}

#[test]
fn test_full_claim_after_vesting_duration() {
    let mut s = setup();
    let id = create_default(&mut s);
    let claimed = claim(&mut s, BENEFICIARY, id, 2_000).unwrap();
    assert_eq!(claimed, 1_000_000);
    assert_eq!(s.token.balance(BENEFICIARY), 1_000_000);
    assert_eq!(s.token.balance(CONTRACT), 0);
}

#[test]
fn test_second_claim_only_pays_the_delta() {
    let mut s = setup();
    let id = create_default(&mut s);
    claim(&mut s, BENEFICIARY, id, 500).unwrap();
    let second_claim = claim(&mut s, BENEFICIARY, id, 1_000).unwrap();
    assert_eq!(second_claim, 500_000);
    assert_eq!(s.token.balance(BENEFICIARY), 1_000_000);
}

#[test]
fn test_non_beneficiary_cannot_claim() {
    let mut s = setup();
    let id = create_default(&mut s);
    assert_eq!(claim(&mut s, DEPOSITOR, id, 500), Err(VestingError::Unauthorized));
}

#[test]
fn test_revoke_pays_vested_and_refunds_remainder() {
    let mut s = setup();
    let id = create_default(&mut s);
    revoke(&mut s, DEPOSITOR, id, 500).unwrap();
    assert_eq!(s.token.balance(BENEFICIARY), 500_000);
    assert_eq!(s.token.balance(DEPOSITOR), 500_000);
    assert_eq!(s.token.balance(CONTRACT), 0);
    assert!(s.client.get_schedule(id).unwrap().revoked);
}

#[test]
fn test_cannot_claim_after_revoke() {
    let mut s = setup();
    let id = create_default(&mut s);
    revoke(&mut s, DEPOSITOR, id, 500).unwrap();
    assert_eq!(claim(&mut s, BENEFICIARY, id, 500), Err(VestingError::AlreadyRevoked));
}

#[test]
fn test_non_depositor_cannot_revoke() {
    let mut s = setup();
    let id = create_default(&mut s);
    assert_eq!(revoke(&mut s, BENEFICIARY, id, 0), Err(VestingError::Unauthorized));
}

#[test]
fn test_cannot_revoke_twice() {
    let mut s = setup();
    let id = create_default(&mut s);
    revoke(&mut s, DEPOSITOR, id, 0).unwrap();
    assert_eq!(revoke(&mut s, DEPOSITOR, id, 0), Err(VestingError::AlreadyRevoked));
}

#[test]
fn test_get_unknown_schedule_panics() {
    let s = setup();
    assert_eq!(s.client.get_schedule(999), Err(VestingError::ScheduleNotFound));
}

fn schedule(total: i128, start: u64, cliff: u64, duration: u64) -> VestingSchedule {
    VestingSchedule {
        depositor: DEPOSITOR,
        beneficiary: BENEFICIARY,
        token: TOKEN,
        total_amount: total,
        claimed_amount: 0,
        start_time: start,
        cliff_duration: cliff,
        vesting_duration: duration,
        revoked: false,
    }
}

#[test]
fn vesting_curve_values() {
    let s = schedule(1_000, 100, 50, 300);
    assert_eq!(VestingContract::vested_at(&s, 99), 0);
    assert_eq!(VestingContract::vested_at(&s, 149), 0);
    // at the cliff, everything accrued so far becomes available at once
    assert_eq!(VestingContract::vested_at(&s, 150), 166);
    assert_eq!(VestingContract::vested_at(&s, 250), 500);
    assert_eq!(VestingContract::vested_at(&s, 400), 1_000);
    assert_eq!(VestingContract::vested_at(&s, 10_000), 1_000);
}

#[test]
fn vesting_curve_is_monotone_on_samples() {
    let s = schedule(777, 10, 5, 97);
    let mut last = 0;
    for t in 0..200u64 {
        let v = VestingContract::vested_at(&s, t);
        assert!(v >= last && v <= 777);
        last = v;
    }
}

#[test]
fn vesting_create_validates_inputs() {
    let mut s = setup();
    assert_eq!(
        s.client.create_vesting(DEPOSITOR, BENEFICIARY, TOKEN, 0, 0, 0, 10),
        Err(VestingError::InvalidAmount)
    );
    assert_eq!(
        s.client.create_vesting(DEPOSITOR, BENEFICIARY, TOKEN, 10, 0, 0, 0),
        Err(VestingError::InvalidDuration)
    );
    assert_eq!(s.client.get_schedule_count(), 0);
    let r = s.client.create_vesting(DEPOSITOR, BENEFICIARY, TOKEN, 10, 0, 0, 5).unwrap();
    assert_eq!(r.1, Payment::In { token: TOKEN, from: DEPOSITOR, amount: 10 });
    assert_eq!(
        r.2,
        VestingEvent::Created { id: 0, depositor: DEPOSITOR, beneficiary: BENEFICIARY, total_amount: 10 }
    );
}

#[test]
fn vesting_revoke_after_partial_claim_pays_the_rest() {
    let mut s = setup();
    let id = create_default(&mut s);
    claim(&mut s, BENEFICIARY, id, 300).unwrap();
    let (payments, event) = s.client.revoke(DEPOSITOR, id, 600).unwrap();
    assert_eq!(
        payments,
        vec![
            Payment::Out { token: TOKEN, to: BENEFICIARY, amount: 300_000 },
            Payment::Out { token: TOKEN, to: DEPOSITOR, amount: 400_000 },
        ]
    );
    assert_eq!(event, VestingEvent::Revoked { id, depositor: DEPOSITOR, returned_amount: 400_000 });
    let sched = s.client.get_schedule(id).unwrap();
    assert_eq!(sched.claimed_amount, 600_000);
    assert!(sched.revoked);
}

#[test]
fn vesting_revoke_records_what_the_beneficiary_received() {
    let mut s = setup();
    let id = create_default(&mut s);
    revoke(&mut s, DEPOSITOR, id, 500).unwrap();
    let sched = s.client.get_schedule(id).unwrap();
    assert_eq!(sched.claimed_amount, 500_000);
    assert_eq!(sched.claimed_amount, s.token.balance(BENEFICIARY));
}

#[test]
fn vesting_revoke_before_cliff_refunds_everything() {
    let mut s = setup();
    let id = create_default(&mut s);
    revoke(&mut s, DEPOSITOR, id, 10).unwrap();
    assert_eq!(s.token.balance(DEPOSITOR), 1_000_000);
    assert_eq!(s.token.balance(BENEFICIARY), 0);
    assert_eq!(s.client.get_schedule(id).unwrap().claimed_amount, 0);
}

#[test]
fn vesting_vested_amount_ignores_claims() {
    let mut s = setup();
    let id = create_default(&mut s);
    claim(&mut s, BENEFICIARY, id, 400).unwrap();
    assert_eq!(s.client.vested_amount(id, 400), Ok(400_000));
    assert_eq!(s.client.vested_amount(id + 1, 400), Err(VestingError::ScheduleNotFound));
}

#[test]
fn vesting_error_codes_are_stable() {
    assert_eq!(VestingError::ScheduleNotFound.code(), 1);
    assert_eq!(VestingError::Unauthorized.code(), 2);
    assert_eq!(VestingError::AlreadyRevoked.code(), 3);
    assert_eq!(VestingError::InvalidAmount.code(), 4);
    assert_eq!(VestingError::InvalidDuration.code(), 5);
    assert_eq!(VestingError::NothingToClaim.code(), 6);
}
