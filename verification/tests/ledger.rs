use staking::ledger::DeadlineUpdated;
use staking::ledger::Error;
use staking::ledger::Staked;
use staking::ledger::Staking;
use staking::ledger::Withdrawn;

const T0: u64 = 1_000_000;
const A: u64 = 11;
const B: u64 = 22;

#[test]
fn deposits_accumulate_to_exact_sum() {
    let mut l = Staking::new(T0);
    assert_eq!(l.stake(A, 1), Ok(Staked { caller: A, value: 1 }));
    assert_eq!(l.stake(A, 2), Ok(Staked { caller: A, value: 2 }));
    assert_eq!(l.stake(A, 39), Ok(Staked { caller: A, value: 39 }));
    assert_eq!(l.show_user_balance(A), 42);
}

#[test]
fn withdraw_before_deadline_fails_with_empty_balance() {
    let mut l = Staking::new(T0);
    assert_eq!(l.withdraw(T0 + 100, A), Err(Error::DeadlineNotReached));
    assert_eq!(l.show_user_balance(A), 0);
}

#[test]
fn withdraw_before_deadline_fails_and_keeps_balance() {
    let mut l = Staking::new(T0);
    l.stake(A, 500).unwrap();
    assert_eq!(l.withdraw(T0 + 300, A), Err(Error::DeadlineNotReached));
    assert_eq!(l.show_user_balance(A), 500);
}

#[test]
fn withdraw_at_deadline_exactly_still_fails() {
    let mut l = Staking::new(T0);
    l.stake(A, 5).unwrap();
    // withdrawal needs the clock strictly past the deadline
    assert_eq!(l.withdraw(l.show_deadline(), A), Err(Error::DeadlineNotReached));
    assert_eq!(l.show_user_balance(A), 5);
}

#[test]
fn withdraw_after_deadline_with_zero_balance_fails_no_stake() {
    let mut l = Staking::new(T0);
    assert_eq!(l.withdraw(T0 + 301, A), Err(Error::NoStake));
}

#[test]
fn withdraw_after_deadline_pays_out_full_balance() {
    let mut l = Staking::new(T0);
    l.stake(A, 777).unwrap();
    assert_eq!(l.withdraw(T0 + 301, A), Ok(Withdrawn { caller: A, value: 777 }));
    assert_eq!(l.show_user_balance(A), 0);
}

#[test]
fn second_withdraw_fails_no_stake() {
    let mut l = Staking::new(T0);
    l.stake(A, 10).unwrap();
    assert_eq!(l.withdraw(T0 + 400, A), Ok(Withdrawn { caller: A, value: 10 }));
    assert_eq!(l.show_user_balance(A), 0);
    assert_eq!(l.withdraw(T0 + 500, A), Err(Error::NoStake));
}

#[test]
fn zero_deposit_fails_invalid_amount_and_is_a_no_op() {
    let mut l = Staking::new(T0);
    l.stake(A, 9).unwrap();
    assert_eq!(l.stake(A, 0), Err(Error::InvalidAmount));
    assert_eq!(l.show_user_balance(A), 9);
    assert_eq!(l.show_deadline(), T0 + 300);
}

#[test]
fn deposit_overflow_fails_and_is_a_no_op() {
    let mut l = Staking::new(T0);
    l.stake(A, u128::MAX - 1).unwrap();
    assert_eq!(l.stake(A, 2), Err(Error::Overflow));
    assert_eq!(l.show_user_balance(A), u128::MAX - 1);
}

#[test]
fn deposit_up_to_exact_maximum_succeeds() {
    let mut l = Staking::new(T0);
    l.stake(A, u128::MAX - 1).unwrap();
    assert_eq!(l.stake(A, 1), Ok(Staked { caller: A, value: 1 }));
    assert_eq!(l.show_user_balance(A), u128::MAX);
}

#[test]
fn default_deadline_is_creation_time_plus_five_minutes() {
    let l = Staking::new(T0);
    assert_eq!(l.show_deadline(), T0 + 300);
}

#[test]
fn scenario_single_staker_lifecycle() {
    let mut l = Staking::new(T0);
    assert_eq!(l.show_deadline(), T0 + 300);
    assert_eq!(l.stake(A, 100), Ok(Staked { caller: A, value: 100 }));
    assert_eq!(l.show_user_balance(A), 100);
    assert_eq!(l.withdraw(T0 + 200, A), Err(Error::DeadlineNotReached));
    assert_eq!(l.show_user_balance(A), 100);
    assert_eq!(l.withdraw(T0 + 301, A), Ok(Withdrawn { caller: A, value: 100 }));
    assert_eq!(l.show_user_balance(A), 0);
}

#[test]
fn scenario_two_stakers_are_isolated() {
    let mut l = Staking::new(T0);
    l.stake(A, 50).unwrap();
    l.stake(B, 70).unwrap();
    assert_eq!(l.show_user_balance(A) + l.show_user_balance(B), 120);
    assert_eq!(l.withdraw(T0 + 301, A), Ok(Withdrawn { caller: A, value: 50 }));
    assert_eq!(l.show_user_balance(A), 0);
    assert_eq!(l.show_user_balance(B), 70);
    assert_eq!(l.withdraw(T0 + 302, B), Ok(Withdrawn { caller: B, value: 70 }));
    assert_eq!(l.show_user_balance(B), 0);
}

#[test]
fn queries_are_idempotent() {
    let mut l = Staking::new(T0);
    l.stake(A, 33).unwrap();
    assert_eq!(l.show_deadline(), l.show_deadline());
    assert_eq!(l.show_user_balance(A), l.show_user_balance(A));
    assert_eq!(l.show_user_balance(B), l.show_user_balance(B));
}

#[test]
fn unknown_principal_reads_as_zero() {
    let l = Staking::new(T0);
    assert_eq!(l.show_user_balance(12345), 0);
}

#[test]
fn change_deadline_is_relative_to_now_and_reports_absolute_value() {
    let mut l = Staking::new(T0);
    let now = T0 + 1000;
    assert_eq!(l.change_deadline(now, 60), Ok(DeadlineUpdated { deadline: now + 60 }));
    assert_eq!(l.show_deadline(), now + 60);
}

#[test]
fn change_deadline_overflow_fails_and_is_a_no_op() {
    let mut l = Staking::new(T0);
    l.stake(A, 4).unwrap();
    assert_eq!(l.change_deadline(u64::MAX - 10, 11), Err(Error::Overflow));
    assert_eq!(l.show_deadline(), T0 + 300);
    assert_eq!(l.show_user_balance(A), 4);
}

#[test]
fn change_deadline_reopens_withdrawals() {
    let mut l = Staking::new(T0);
    l.stake(A, 8).unwrap();
    // withdrawal would be permitted at T0 + 301 ...
    l.change_deadline(T0 + 200, 500).unwrap();
    // ... but the new deadline T0 + 700 blocks it again
    assert_eq!(l.withdraw(T0 + 301, A), Err(Error::DeadlineNotReached));
    assert_eq!(l.withdraw(T0 + 701, A), Ok(Withdrawn { caller: A, value: 8 }));
}

#[test]
fn deposits_permitted_after_deadline() {
    let mut l = Staking::new(T0);
    assert_eq!(l.stake(A, 3), Ok(Staked { caller: A, value: 3 }));
    assert_eq!(l.stake(A, 4), Ok(Staked { caller: A, value: 4 }));
    assert_eq!(l.withdraw(T0 + 301, A), Ok(Withdrawn { caller: A, value: 7 }));
    assert_eq!(l.stake(A, 5), Ok(Staked { caller: A, value: 5 }));
    assert_eq!(l.show_user_balance(A), 5);
}
