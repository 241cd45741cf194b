//! The staking ledger state machine: the deadline gate, the balance mapping,
//! and the deposit / withdraw / administration / query operations.
//!
//! The host invokes one operation per transaction and guarantees that
//! invocations are serialized and atomic. Each operation takes the values the
//! host supplies (current time, caller identity, attached amount) as plain
//! parameters and returns either the event to emit or the error that aborts
//! the invocation.

use std::collections::HashMap;
use vstd::prelude::*;

verus! {

broadcast use vstd::std_specs::hash::group_hash_axioms;

/// An opaque principal identifier, supplied and authenticated by the host.
pub type AccountId = u64;

/// An amount of custodied value.
pub type Balance = u128;

/// Seconds added to the creation time to form the initial deadline.
pub const DEFAULT_DEADLINE_OFFSET: u64 = 300;

/// Why an invocation was aborted. A failed invocation never changes any
/// balance or the deadline and never emits an event.
#[derive(Clone, Copy, Debug, PartialEq, Eq, Structural)]
pub enum Error {
    /// A deposit attached a zero amount.
    InvalidAmount,
    /// An addition would exceed the representable range.
    Overflow,
    /// A withdrawal was attempted while the clock has not passed the deadline.
    DeadlineNotReached,
    /// A withdrawal was attempted with no outstanding balance.
    NoStake,
    /// The host's custody-transfer primitive rejected the payout. The ledger
    /// itself never returns this; the host binding reports it when the
    /// transfer that follows a successful withdrawal fails, and then discards
    /// the whole invocation.
    TransferFailed,
}

/// Event emitted on a successful deposit.
#[derive(Clone, Copy, Debug, PartialEq, Eq, Structural)]
pub struct Staked {
    pub caller: AccountId,
    pub value: Balance,
}

/// Event emitted on a successful withdrawal; `value` is the amount the host
/// must hand back to `caller` through the transfer primitive.
#[derive(Clone, Copy, Debug, PartialEq, Eq, Structural)]
pub struct Withdrawn {
    pub caller: AccountId,
    pub value: Balance,
}

/// Event emitted when the deadline is changed; carries the absolute deadline
/// actually stored, not the raw duration that was supplied.
#[derive(Clone, Copy, Debug, PartialEq, Eq, Structural)]
pub struct DeadlineUpdated {
    pub deadline: u64,
}

/// The balance a mapping associates with a principal: absence of an entry is
/// a zero balance.
pub open spec fn balance_of(m: Map<AccountId, Balance>, p: AccountId) -> Balance {
    if m.contains_key(p) {
        m[p]
    } else {
        0
    }
}

/// The mapping never stores an explicit zero entry: a balance is cleared by
/// removing the entry, never by setting it to zero.
pub open spec fn no_zero_entries(m: Map<AccountId, Balance>) -> bool {
    forall|p: AccountId| m.contains_key(p) ==> m[p] > 0
}

/// The balance mapping after a deposit of `value` by `caller` is accepted.
pub open spec fn stake_step(
    m: Map<AccountId, Balance>,
    caller: AccountId,
    value: Balance,
) -> Map<AccountId, Balance> {
    m.insert(caller, (balance_of(m, caller) + value) as Balance)
}

/// What a deposit of `value` by `caller` returns on a ledger whose balance
/// mapping is `m`.
pub open spec fn spec_stake_result(
    m: Map<AccountId, Balance>,
    caller: AccountId,
    value: Balance,
) -> Result<Staked, Error> {
    if value == 0 {
        Err(Error::InvalidAmount)
    } else if balance_of(m, caller) + value > u128::MAX {
        Err(Error::Overflow)
    } else {
        Ok(Staked { caller, value })
    }
}

/// The balance mapping after a deposit of `value` by `caller`: unchanged on
/// any failure.
pub open spec fn spec_stake_balances(
    m: Map<AccountId, Balance>,
    caller: AccountId,
    value: Balance,
) -> Map<AccountId, Balance> {
    if spec_stake_result(m, caller, value) is Ok {
        stake_step(m, caller, value)
    } else {
        m
    }
}

/// What a withdrawal by `caller` at time `now` returns on a ledger with the
/// given `deadline` and balance mapping `m`.
pub open spec fn spec_withdraw_result(
    deadline: u64,
    m: Map<AccountId, Balance>,
    now: u64,
    caller: AccountId,
) -> Result<Withdrawn, Error> {
    if now <= deadline {
        Err(Error::DeadlineNotReached)
    } else if balance_of(m, caller) == 0 {
        Err(Error::NoStake)
    } else {
        Ok(Withdrawn { caller, value: balance_of(m, caller) })
    }
}

/// The balance mapping after a withdrawal by `caller` at time `now`: the
/// caller's entry is removed on success, nothing changes on failure.
pub open spec fn spec_withdraw_balances(
    deadline: u64,
    m: Map<AccountId, Balance>,
    now: u64,
    caller: AccountId,
) -> Map<AccountId, Balance> {
    if spec_withdraw_result(deadline, m, now, caller) is Ok {
        m.remove(caller)
    } else {
        m
    }
}

/// What changing the deadline at time `now` by duration `offset` returns:
/// the new deadline is `now + offset`, and the event carries that absolute
/// value.
pub open spec fn spec_change_deadline_result(now: u64, offset: u64) -> Result<
    DeadlineUpdated,
    Error,
> {
    if now + offset > u64::MAX {
        Err(Error::Overflow)
    } else {
        Ok(DeadlineUpdated { deadline: (now + offset) as u64 })
    }
}

/// The staking ledger: a single global deadline and the per-principal
/// balance mapping. Created once at deployment and mutated by every
/// subsequent invocation.
pub struct Staking {
    deadline: u64,
    balances: HashMap<AccountId, Balance>,
}

impl Staking {
    /// The instant after which withdrawals are permitted.
    pub closed spec fn spec_deadline(&self) -> u64 {
        self.deadline
    }

    /// The balance mapping, as a mathematical map.
    pub closed spec fn spec_balances(&self) -> Map<AccountId, Balance> {
        self.balances@
    }

    /// Ledger well-formedness: the mapping holds finitely many entries and
    /// never an explicit zero one.
    pub open spec fn wf(&self) -> bool {
        &&& self.spec_balances().dom().finite()
        &&& no_zero_entries(self.spec_balances())
    }

    /// Creates the ledger at time `now`, with no balances and the deadline
    /// set to `now` plus the fixed default offset.
    pub fn new(now: u64) -> (s: Self)
        requires
            now + DEFAULT_DEADLINE_OFFSET <= u64::MAX,
        ensures
            s.wf(),
            s.spec_deadline() == now + DEFAULT_DEADLINE_OFFSET,
            s.spec_balances() == Map::<AccountId, Balance>::empty(),
    {
        Staking { deadline: now + DEFAULT_DEADLINE_OFFSET, balances: HashMap::new() }
    }

    /// Records the given balance for `caller`, overwriting any earlier entry.
    fn stake_now(&mut self, caller: AccountId, value: Balance)
        ensures
            final(self).spec_deadline() == old(self).spec_deadline(),
            final(self).spec_balances() == old(self).spec_balances().insert(caller, value),
    {
        self.balances.insert(caller, value);
    }

    /// Deposits `value` attached by `caller`: the caller's balance grows by
    /// exactly `value`. A zero amount is rejected with `InvalidAmount` and an
    /// addition past the representable range with `Overflow`; either failure
    /// leaves the ledger unchanged.
    pub fn stake(&mut self, caller: AccountId, value: Balance) -> (r: Result<Staked, Error>)
        requires
            old(self).wf(),
        ensures
            final(self).wf(),
            final(self).spec_deadline() == old(self).spec_deadline(),
            r == spec_stake_result(old(self).spec_balances(), caller, value),
            final(self).spec_balances() == spec_stake_balances(
                old(self).spec_balances(),
                caller,
                value,
            ),
            value == 0 ==> r == Err::<Staked, Error>(Error::InvalidAmount) && *final(self)
                == *old(self),
            r is Err ==> *final(self) == *old(self),
    {
        if value == 0 {
            return Err(Error::InvalidAmount);
        }
        let balance = self.show_user_balance(caller);
        if value > u128::MAX - balance {
            return Err(Error::Overflow);
        }
        self.stake_now(caller, balance + value);
        Ok(Staked { caller, value })
    }

    /// Withdraws the caller's full balance. Fails with `DeadlineNotReached`
    /// while `now` has not passed the deadline, and with `NoStake` when the
    /// caller has no outstanding balance; either failure leaves the ledger
    /// unchanged. On success the caller's entry is removed before the host
    /// moves the value, and the returned event carries the exact amount the
    /// host must transfer; if that transfer fails, the host discards the
    /// whole invocation and reports `TransferFailed`.
    pub fn withdraw(&mut self, now: u64, caller: AccountId) -> (r: Result<Withdrawn, Error>)
        requires
            old(self).wf(),
        ensures
            final(self).wf(),
            final(self).spec_deadline() == old(self).spec_deadline(),
            r == spec_withdraw_result(
                old(self).spec_deadline(),
                old(self).spec_balances(),
                now,
                caller,
            ),
            final(self).spec_balances() == spec_withdraw_balances(
                old(self).spec_deadline(),
                old(self).spec_balances(),
                now,
                caller,
            ),
            now <= old(self).spec_deadline() ==> r == Err::<Withdrawn, Error>(
                Error::DeadlineNotReached,
            ) && *final(self) == *old(self),
            now > old(self).spec_deadline() && balance_of(old(self).spec_balances(), caller) == 0
                ==> r == Err::<Withdrawn, Error>(Error::NoStake) && *final(self) == *old(self),
            now > old(self).spec_deadline() && balance_of(old(self).spec_balances(), caller) > 0
                ==> r == Ok::<Withdrawn, Error>(
                (Withdrawn { caller, value: balance_of(old(self).spec_balances(), caller) }),
            ) && !final(self).spec_balances().contains_key(caller),
    {
        if now <= self.deadline {
            return Err(Error::DeadlineNotReached);
        }
        let balance = self.show_user_balance(caller);
        if balance == 0 {
            return Err(Error::NoStake);
        }
        self.balances.remove(&caller);
        Ok(Withdrawn { caller, value: balance })
    }

    /// Sets the deadline to `now + offset`: the supplied value is a duration
    /// relative to the current host time, so every call pushes the deadline
    /// into the future from "now". The returned event carries the absolute
    /// deadline actually stored. Fails with `Overflow`, leaving the ledger
    /// unchanged, when the addition exceeds the representable range.
    ///
    /// Known vulnerability, kept for fidelity: no access control is imposed,
    /// so any caller may postpone every principal's withdrawals arbitrarily
    /// far (though the relative semantics at least keeps a caller from moving
    /// the deadline into the past and unlocking all funds early).
    pub fn change_deadline(&mut self, now: u64, offset: u64) -> (r: Result<DeadlineUpdated, Error>)
        requires
            old(self).wf(),
        ensures
            final(self).wf(),
            final(self).spec_balances() == old(self).spec_balances(),
            r == spec_change_deadline_result(now, offset),
            now + offset <= u64::MAX ==> final(self).spec_deadline() == now + offset,
            now + offset > u64::MAX ==> *final(self) == *old(self),
    {
        if offset > u64::MAX - now {
            return Err(Error::Overflow);
        }
        let new_deadline = now + offset;
        self.deadline = new_deadline;
        Ok(DeadlineUpdated { deadline: new_deadline })
    }

    /// Returns the current deadline; a pure read.
    pub fn show_deadline(&self) -> (r: u64)
        ensures
            r == self.spec_deadline(),
    {
        self.deadline
    }

    /// Returns the balance of `user`, or zero when no entry exists; a pure
    /// read that never fails, even for an unknown principal.
    pub fn show_user_balance(&self, user: AccountId) -> (r: Balance)
        ensures
            r == balance_of(self.spec_balances(), user),
    {
        match self.balances.get(&user) {
            Some(b) => *b,
            None => 0,
        }
    }
}

} // verus!
