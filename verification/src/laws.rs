//! Laws of the ledger: properties that relate several operations, stated
//! over the same spec functions the operations' contracts use.

use vstd::prelude::*;

use crate::ledger::AccountId;
use crate::ledger::Balance;
use crate::ledger::Error;
use crate::ledger::Staking;
use crate::ledger::Withdrawn;
use crate::ledger::balance_of;
use crate::ledger::spec_withdraw_balances;
use crate::ledger::spec_withdraw_result;
use crate::ledger::stake_step;

verus! {

/// The sum of a sequence of deposit amounts.
pub open spec fn sum_of(amounts: Seq<Balance>) -> int
    decreases amounts.len(),
{
    if amounts.len() == 0 {
        0
    } else {
        sum_of(amounts.drop_last()) + amounts.last()
    }
}

/// The balance mapping after `p` deposits `amounts` in order, each deposit
/// accepted.
pub open spec fn apply_stakes(
    m: Map<AccountId, Balance>,
    p: AccountId,
    amounts: Seq<Balance>,
) -> Map<AccountId, Balance>
    decreases amounts.len(),
{
    if amounts.len() == 0 {
        m
    } else {
        stake_step(apply_stakes(m, p, amounts.drop_last()), p, amounts.last())
    }
}

/// Every deposit in `amounts`, made by `p` in order on a ledger whose balance
/// mapping starts as `m`, is accepted: each amount is positive and no
/// addition exceeds the representable range.
pub open spec fn stakes_admissible(
    m: Map<AccountId, Balance>,
    p: AccountId,
    amounts: Seq<Balance>,
) -> bool
    decreases amounts.len(),
{
    if amounts.len() == 0 {
        true
    } else {
        &&& stakes_admissible(m, p, amounts.drop_last())
        &&& amounts.last() > 0
        &&& balance_of(apply_stakes(m, p, amounts.drop_last()), p) + amounts.last() <= u128::MAX
    }
}

/// Law: for any sequence of accepted deposits by a principal, the principal's
/// balance grows by exactly the sum of the attached amounts — no drift.
pub proof fn lemma_deposits_accumulate(
    m: Map<AccountId, Balance>,
    p: AccountId,
    amounts: Seq<Balance>,
)
    requires
        stakes_admissible(m, p, amounts),
    ensures
        balance_of(apply_stakes(m, p, amounts), p) == balance_of(m, p) + sum_of(amounts),
    decreases amounts.len(),
{
    if amounts.len() > 0 {
        lemma_deposits_accumulate(m, p, amounts.drop_last());
    }
}

/// Law: a deposit by one principal leaves every other principal's balance
/// untouched.
pub proof fn lemma_stake_isolates(
    m: Map<AccountId, Balance>,
    p: AccountId,
    value: Balance,
    q: AccountId,
)
    requires
        p != q,
    ensures
        balance_of(stake_step(m, p, value), q) == balance_of(m, q),
{
}

/// Law: a withdrawal by one principal leaves every other principal's balance
/// untouched, whether it succeeds or fails.
pub proof fn lemma_withdraw_isolates(
    deadline: u64,
    m: Map<AccountId, Balance>,
    now: u64,
    p: AccountId,
    q: AccountId,
)
    requires
        p != q,
    ensures
        balance_of(spec_withdraw_balances(deadline, m, now, p), q) == balance_of(m, q),
{
}

/// Law: after a successful withdrawal the principal's balance reads as zero,
/// and a second withdrawal by the same principal — at any time past the
/// deadline — fails with `NoStake`.
pub proof fn lemma_withdraw_then_empty(
    deadline: u64,
    m: Map<AccountId, Balance>,
    now: u64,
    later: u64,
    p: AccountId,
)
    requires
        now > deadline,
        balance_of(m, p) > 0,
        later > deadline,
    ensures
        balance_of(spec_withdraw_balances(deadline, m, now, p), p) == 0,
        spec_withdraw_result(deadline, spec_withdraw_balances(deadline, m, now, p), later, p)
            == Err::<Withdrawn, Error>(Error::NoStake),
{
}

/// The total outstanding custody: the sum of every balance the mapping holds.
pub open spec fn total_of(m: Map<AccountId, Balance>) -> int
    decreases m.dom().len(),
    when m.dom().finite()
{
    if m.dom().len() == 0 {
        0
    } else {
        let p = m.dom().choose();
        m[p] + total_of(m.remove(p))
    }
}

/// Removing one entry lowers the total by exactly that entry's balance,
/// whichever entry the recursion in `total_of` happens to peel off first.
proof fn lemma_total_remove(m: Map<AccountId, Balance>, p: AccountId)
    requires
        m.dom().finite(),
        m.contains_key(p),
    ensures
        total_of(m) == m[p] + total_of(m.remove(p)),
    decreases m.dom().len(),
{
    let q = m.dom().choose();
    assert(m.dom().len() != 0);
    if q != p {
        lemma_total_remove(m.remove(q), p);
        lemma_total_remove(m.remove(p), q);
        assert(m.remove(q).remove(p) =~= m.remove(p).remove(q));
    }
}

/// Inserting an entry moves the total by the difference between the new
/// balance and whatever the principal held before.
proof fn lemma_total_insert(m: Map<AccountId, Balance>, p: AccountId, v: Balance)
    requires
        m.dom().finite(),
    ensures
        total_of(m.insert(p, v)) == total_of(m) - balance_of(m, p) + v,
{
    lemma_total_remove(m.insert(p, v), p);
    if m.contains_key(p) {
        lemma_total_remove(m, p);
        assert(m.insert(p, v).remove(p) =~= m.remove(p));
    } else {
        assert(m.insert(p, v).remove(p) =~= m);
    }
}

/// Law: an accepted deposit raises the total outstanding custody by exactly
/// the attached amount — every balance increase is paired with an equal
/// incoming transfer.
pub proof fn lemma_stake_moves_custody(m: Map<AccountId, Balance>, p: AccountId, value: Balance)
    requires
        m.dom().finite(),
        balance_of(m, p) + value <= u128::MAX,
    ensures
        total_of(stake_step(m, p, value)) == total_of(m) + value,
{
    lemma_total_insert(m, p, (balance_of(m, p) + value) as Balance);
}

/// Law: a successful withdrawal lowers the total outstanding custody by
/// exactly the amount paid out — every balance removal is paired with an
/// equal outgoing transfer — and a failed one leaves it unchanged.
pub proof fn lemma_withdraw_moves_custody(
    deadline: u64,
    m: Map<AccountId, Balance>,
    now: u64,
    p: AccountId,
)
    requires
        m.dom().finite(),
    ensures
        spec_withdraw_result(deadline, m, now, p) is Ok ==> total_of(
            spec_withdraw_balances(deadline, m, now, p),
        ) == total_of(m) - balance_of(m, p),
        spec_withdraw_result(deadline, m, now, p) is Err ==> spec_withdraw_balances(
            deadline,
            m,
            now,
            p,
        ) == m,
{
    if spec_withdraw_result(deadline, m, now, p) is Ok {
        lemma_total_remove(m, p);
    }
}

/// Law: the query operations are functions of the ledger state alone, so
/// repeated reads with no intervening mutation return identical results.
pub proof fn lemma_queries_idempotent(
    l: Staking,
    d1: u64,
    d2: u64,
    p: AccountId,
    b1: Balance,
    b2: Balance,
)
    requires
        d1 == l.spec_deadline(),
        d2 == l.spec_deadline(),
        b1 == balance_of(l.spec_balances(), p),
        b2 == balance_of(l.spec_balances(), p),
    ensures
        d1 == d2,
        b1 == b2,
{
}

} // verus!
