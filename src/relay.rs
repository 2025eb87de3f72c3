use vstd::prelude::*;

use crate::error::ProgramError;
use crate::pda::Pubkey;
use crate::state::{Escrow, Proof};

verus! {

/// The relay collects one part in this many of a proof's balance growth.
pub const COMMISSION: u64 = 10_000;

/// The commission owed and the escrow after observing `proof`: nothing and no
/// change while the proof's hash is the one last seen; otherwise the truncated
/// share of the growth since the last observation, which then becomes the last
/// one. A balance below the last observed one is an underflow.
pub open spec fn commission_step(escrow: Escrow, proof: Proof) -> (Result<u64, ProgramError>, Escrow) {
    if escrow.last_hash@ == proof.last_hash@ {
        (Ok(0), escrow)
    } else if proof.balance < escrow.last_balance {
        (Err(ProgramError::ArithmeticUnderflow), escrow)
    } else {
        (
            Ok(((proof.balance - escrow.last_balance) / COMMISSION as int) as u64),
            Escrow { last_hash: proof.last_hash, last_balance: proof.balance, ..escrow },
        )
    }
}

/// Observes `proof` on behalf of `escrow` and returns the commission to pay
/// the relay's authority.
pub fn collect_commission(escrow: &mut Escrow, proof: &Proof) -> (r: Result<u64, ProgramError>)
    ensures
        (r, *final(escrow)) == commission_step(*old(escrow), *proof),
{
    let seen = Pubkey::new_from_array(escrow.last_hash);
    let current = Pubkey::new_from_array(proof.last_hash);
    if seen.equals(&current) {
        return Ok(0);
    }
    if proof.balance < escrow.last_balance {
        return Err(ProgramError::ArithmeticUnderflow);
    }
    let commission = (proof.balance - escrow.last_balance) / COMMISSION;
    escrow.last_hash = proof.last_hash;
    escrow.last_balance = proof.balance;
    Ok(commission)
}

/// Collecting twice against a proof whose hash has not changed pays nothing
/// the second time and leaves the escrow as the first call left it.
pub proof fn lemma_commission_idempotent(escrow: Escrow, proof: Proof)
    requires
        commission_step(escrow, proof).0 is Ok,
    ensures
        commission_step(commission_step(escrow, proof).1, proof) == (
            Ok::<u64, ProgramError>(0),
            commission_step(escrow, proof).1,
        ),
{
}

} // verus!
