use vstd::prelude::*;

use crate::error::ProgramError;
use crate::state::{Delegate, Pool, Proof};

verus! {

/// Moves `amount` into `pool` on behalf of `delegate`: both the pool's total
/// and the delegate's share grow by it. On overflow nothing changes.
pub fn delegate_stake(pool: &mut Pool, delegate: &mut Delegate, amount: u64) -> (r: Result<
    (),
    ProgramError,
>)
    ensures
        r is Err <==> (old(pool).total_delegated + amount > u64::MAX || old(delegate).balance
            + amount > u64::MAX),
        r is Err ==> r == Err::<(), ProgramError>(ProgramError::ArithmeticOverflow) && *final(pool)
            == *old(pool) && *final(delegate) == *old(delegate),
        r is Ok ==> *final(pool) == (Pool { total_delegated: (old(pool).total_delegated + amount) as u64, ..*old(pool) })
            && *final(delegate) == (Delegate { balance: (old(delegate).balance + amount) as u64, ..*old(delegate) }),
{
    let total = match pool.total_delegated.checked_add(amount) {
        Some(t) => t,
        None => return Err(ProgramError::ArithmeticOverflow),
    };
    let share = match delegate.balance.checked_add(amount) {
        Some(s) => s,
        None => return Err(ProgramError::ArithmeticOverflow),
    };
    pool.total_delegated = total;
    delegate.balance = share;
    Ok(())
}

/// Takes `amount` out of `pool` on behalf of `delegate`. Fails with
/// InsufficientFunds when it exceeds the delegate's share, and with
/// ArithmeticUnderflow when it exceeds the pool's total; on failure nothing
/// changes.
pub fn withdraw_stake(pool: &mut Pool, delegate: &mut Delegate, amount: u64) -> (r: Result<
    (),
    ProgramError,
>)
    ensures
        amount > old(delegate).balance ==> r == Err::<(), ProgramError>(
            ProgramError::InsufficientFunds,
        ),
        amount <= old(delegate).balance && amount > old(pool).total_delegated ==> r == Err::<
            (),
            ProgramError,
        >(ProgramError::ArithmeticUnderflow),
        r is Ok <==> amount <= old(delegate).balance && amount <= old(pool).total_delegated,
        r is Err ==> *final(pool) == *old(pool) && *final(delegate) == *old(delegate),
        r is Ok ==> *final(pool) == (Pool { total_delegated: (old(pool).total_delegated - amount) as u64, ..*old(pool) })
            && *final(delegate) == (Delegate { balance: (old(delegate).balance - amount) as u64, ..*old(delegate) }),
{
    if amount > delegate.balance {
        return Err(ProgramError::InsufficientFunds);
    }
    if amount > pool.total_delegated {
        return Err(ProgramError::ArithmeticUnderflow);
    }
    pool.total_delegated = pool.total_delegated - amount;
    delegate.balance = delegate.balance - amount;
    Ok(())
}

/// The part of `yield_amount`, credited to a pool holding `total` in all, that
/// belongs to a delegate holding `share`: proportional, rounded down, and
/// nothing from an empty pool.
pub open spec fn pro_rata(yield_amount: int, share: int, total: int) -> int {
    if total == 0 {
        0
    } else {
        yield_amount * share / total
    }
}

/// The part of the pool's `yield_amount` owed to the delegate's `share` of
/// `total`. Fails with ArithmeticOverflow when it does not fit a `u64`, which
/// needs a share larger than the total.
pub fn pro_rata_yield(yield_amount: u64, share: u64, total: u64) -> (r: Result<u64, ProgramError>)
    ensures
        r is Ok <==> pro_rata(yield_amount as int, share as int, total as int) <= u64::MAX,
        r matches Ok(v) ==> v == pro_rata(yield_amount as int, share as int, total as int),
        r is Err ==> r == Err::<u64, ProgramError>(ProgramError::ArithmeticOverflow),
        share <= total ==> r is Ok,
{
    if total == 0 {
        return Ok(0);
    }
    let y = yield_amount as u128;
    let s = share as u128;
    assert(y * s <= u64::MAX * u64::MAX) by (nonlinear_arith)
        requires y <= u64::MAX, s <= u64::MAX;
    let v: u128 = y * s / (total as u128);
    proof {
        if share <= total {
            assert(y * s / (total as int) <= y) by (nonlinear_arith)
                requires s <= total, total > 0, y >= 0, s >= 0;
        }
    }
    if v > u64::MAX as u128 {
        return Err(ProgramError::ArithmeticOverflow);
    }
    Ok(v as u64)
}

/// Credits an accepted mining submission: the balance grows by `amount` and
/// the hash and its time are recorded. On overflow nothing changes.
pub fn credit_proof(proof: &mut Proof, amount: u64, hash: [u8; 32], now: i64) -> (r: Result<
    (),
    ProgramError,
>)
    ensures
        r is Err <==> old(proof).balance + amount > u64::MAX,
        r is Err ==> r == Err::<(), ProgramError>(ProgramError::ArithmeticOverflow) && *final(proof)
            == *old(proof),
        r is Ok ==> *final(proof) == (Proof {
            balance: (old(proof).balance + amount) as u64,
            last_hash: hash,
            last_hash_at: now,
            ..*old(proof)
        }),
{
    match proof.balance.checked_add(amount) {
        Some(b) => {
            proof.balance = b;
            proof.last_hash = hash;
            proof.last_hash_at = now;
            Ok(())
        },
        None => Err(ProgramError::ArithmeticOverflow),
    }
}

/// Debits `amount` from the proof's balance; fails with InsufficientFunds,
/// changing nothing, when it exceeds the balance.
pub fn debit_proof(proof: &mut Proof, amount: u64) -> (r: Result<(), ProgramError>)
    ensures
        r is Err <==> amount > old(proof).balance,
        r is Err ==> r == Err::<(), ProgramError>(ProgramError::InsufficientFunds) && *final(proof)
            == *old(proof),
        r is Ok ==> *final(proof) == (Proof { balance: (old(proof).balance - amount) as u64, ..*old(proof) }),
{
    if amount > proof.balance {
        return Err(ProgramError::InsufficientFunds);
    }
    proof.balance = proof.balance - amount;
    Ok(())
}

} // verus!
