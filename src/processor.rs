use vstd::prelude::*;

use crate::accounting::{delegate_stake, withdraw_stake};
use crate::codec::{key_at, layout_ok, u64_at};
use crate::error::ProgramError;
use crate::instruction::{DelegateArgs, WithdrawArgs};
use crate::loaders::{
    load_mint, load_program, load_signer, load_system_account, load_sysvar,
    load_uninitialized_pda, mint_result, system_account_result, system_id,
    uninitialized_pda_result, AccountInfo, ProgramIds,
};
use crate::pda::{seeds2, Pubkey};
use crate::relay::{collect_commission, commission_step};
use crate::seeds::{
    proof_seed, proof_seed_spec, relayer_seed, relayer_seed_spec, stake_seed, stake_seed_spec,
};
use crate::state::{
    Delegate, Escrow, Pool, Proof, Relayer, Stake, DELEGATE_SIZE, DELEGATE_TAG, ESCROW_SIZE,
    ESCROW_TAG, POOL_SIZE, POOL_TAG, PROOF_SIZE, PROOF_TAG, RELAYER_SIZE, STAKE_SIZE,
};

verus! {

/// A call into another program that a transition asks the host to make,
/// within the same atomic unit.
#[derive(Clone, Copy, Debug, PartialEq)]
pub enum Invocation {
    /// Allocate `space` bytes at the derived `address`, owned by `owner`,
    /// funded by `payer`, signed with the address's seeds and `bump`.
    CreateAccount { payer: Pubkey, address: Pubkey, owner: Pubkey, space: u64, bump: u8 },
    /// Create the associated token account of `wallet` for `mint`.
    CreateAssociatedTokenAccount { funder: Pubkey, wallet: Pubkey, mint: Pubkey },
    /// Open a proof for `authority`, mined by `miner`, signed by the stake
    /// record's seeds and `bump`.
    OpenProof { authority: Pubkey, miner: Pubkey, bump: u8 },
    /// Move `amount` tokens from `source` to `destination`, authorized by
    /// `authority`.
    Transfer { source: Pubkey, destination: Pubkey, authority: Pubkey, amount: u64 },
    /// Claim `amount` from the `proof`, signed by the escrow that observes it,
    /// for the relay's `authority`.
    ClaimCommission { proof: Pubkey, escrow: Pubkey, authority: Pubkey, amount: u64 },
}

/// The arguments of opening a stake: the canonical bumps of its records.
#[derive(Clone, Copy, Debug, PartialEq, Eq, Structural)]
pub struct OpenStakeArgs {
    pub stake_bump: u8,
    pub proof_bump: u8,
}

/// The arguments of opening a relayer.
#[derive(Clone, Copy, Debug, PartialEq, Eq, Structural)]
pub struct OpenRelayerArgs {
    pub bump: u8,
}

/// The first failing check of opening a stake, in the order they run.
pub open spec fn initialize_checks(a: Seq<AccountInfo>, args: OpenStakeArgs, ids: ProgramIds) -> Result<
    (),
    ProgramError,
> {
    let proof_pda = uninitialized_pda_result(
        a[3],
        seq![proof_seed_spec(), a[4].key@],
        args.proof_bump,
        ids.ore@,
    );
    let stake_pda = uninitialized_pda_result(
        a[4],
        seq![stake_seed_spec(), a[0].key@],
        args.stake_bump,
        ids.stake@,
    );
    if !a[0].is_signer {
        Err(ProgramError::NotSigner)
    } else if system_account_result(a[1], false) is Err {
        system_account_result(a[1], false)
    } else if mint_result(a[2], ids.mint@, ids.token@, false) is Err {
        mint_result(a[2], ids.mint@, ids.token@, false)
    } else if proof_pda is Err {
        proof_pda
    } else if stake_pda is Err {
        stake_pda
    } else if system_account_result(a[5], true) is Err {
        system_account_result(a[5], true)
    } else if !(a[6].key@ == system_id() && a[6].executable) || !(a[7].key@ == ids.token@
        && a[7].executable) || !(a[8].key@ == ids.associated_token@ && a[8].executable) {
        Err(ProgramError::InvalidProgram)
    } else if a[9].key@ != ids.slot_hashes@ {
        Err(ProgramError::InvalidSysvar)
    } else {
        Ok(())
    }
}

/// The stake record that opening a stake writes.
pub open spec fn new_stake(authority: Pubkey, bump: u8) -> Stake {
    Stake { authority, bump: bump as u64, is_liquid: 0, is_open: 0, balance: 0 }
}

/// Opens a stake for the signer: checks the ten record slots in order, then
/// writes an empty stake record (no balance, neither liquid nor open) at its
/// canonical address, and asks for its token escrow and its proof. `data`
/// holds the stake bump and the proof bump. On an error nothing changes.
pub fn process_initialize(accounts: &mut Vec<AccountInfo>, data: &[u8], ids: &ProgramIds) -> (r:
    Result<Vec<Invocation>, ProgramError>)
    ensures
        r is Err ==> final(accounts)@ == old(accounts)@,
        data@.len() != 2 ==> r == Err::<Vec<Invocation>, ProgramError>(
            ProgramError::InvalidInstructionData,
        ),
        data@.len() == 2 && old(accounts)@.len() != 10 ==> r == Err::<
            Vec<Invocation>,
            ProgramError,
        >(ProgramError::NotEnoughAccountKeys),
        ({
            let a = old(accounts)@;
            let args = OpenStakeArgs { stake_bump: data@[0], proof_bump: data@[1] };
            data@.len() == 2 && a.len() == 10 ==> {
                &&& (r is Ok <==> initialize_checks(a, args, *ids) is Ok)
                &&& (r matches Err(e) ==> initialize_checks(a, args, *ids) == Err::<(), ProgramError>(e))
                &&& (r matches Ok(calls) ==> {
                    &&& final(accounts)@.len() == 10
                    &&& forall|i: int| 0 <= i < 10 && i != 4 ==> #[trigger] final(accounts)@[i] == a[i]
                    &&& final(accounts)@[4].key == a[4].key
                    &&& final(accounts)@[4].owner@ == ids.stake@
                    &&& final(accounts)@[4].data@ == Stake::encoded(new_stake(a[0].key, args.stake_bump))
                    &&& calls@ == seq![
                        Invocation::CreateAccount {
                            payer: a[0].key,
                            address: a[4].key,
                            owner: ids.stake,
                            space: (1 + STAKE_SIZE) as u64,
                            bump: args.stake_bump,
                        },
                        Invocation::CreateAssociatedTokenAccount {
                            funder: a[0].key,
                            wallet: a[4].key,
                            mint: a[2].key,
                        },
                        Invocation::OpenProof { authority: a[4].key, miner: a[1].key, bump: args.stake_bump },
                    ]
                })
            }
        }),
{
    if data.len() != 2 {
        return Err(ProgramError::InvalidInstructionData);
    }
    let args = OpenStakeArgs { stake_bump: data[0], proof_bump: data[1] };
    if accounts.len() != 10 {
        return Err(ProgramError::NotEnoughAccountKeys);
    }
    let system = Pubkey::zeroed();
    match load_signer(&accounts[0]) {
        Ok(()) => {},
        Err(e) => return Err(e),
    }
    match load_system_account(&accounts[1], false) {
        Ok(()) => {},
        Err(e) => return Err(e),
    }
    match load_mint(&accounts[2], &ids.mint, &ids.token, false) {
        Ok(()) => {},
        Err(e) => return Err(e),
    }
    match load_uninitialized_pda(&accounts[3], &seeds2(proof_seed(), accounts[4].key.to_vec()), args.proof_bump, &ids.ore) {
        Ok(()) => {},
        Err(e) => return Err(e),
    }
    match load_uninitialized_pda(&accounts[4], &seeds2(stake_seed(), accounts[0].key.to_vec()), args.stake_bump, &ids.stake) {
        Ok(()) => {},
        Err(e) => return Err(e),
    }
    match load_system_account(&accounts[5], true) {
        Ok(()) => {},
        Err(e) => return Err(e),
    }
    match load_program(&accounts[6], &system) {
        Ok(()) => {},
        Err(e) => return Err(e),
    }
    match load_program(&accounts[7], &ids.token) {
        Ok(()) => {},
        Err(e) => return Err(e),
    }
    match load_program(&accounts[8], &ids.associated_token) {
        Ok(()) => {},
        Err(e) => return Err(e),
    }
    match load_sysvar(&accounts[9], &ids.slot_hashes) {
        Ok(()) => {},
        Err(e) => return Err(e),
    }
    // Every check has passed: write the stake record.
    let stake = Stake {
        authority: accounts[0].key,
        bump: args.stake_bump as u64,
        is_liquid: 0,
        is_open: 0,
        balance: 0,
    };
    let record = AccountInfo {
        key: accounts[4].key,
        owner: ids.stake,
        lamports: accounts[4].lamports,
        data: stake.to_bytes(),
        is_signer: accounts[4].is_signer,
        is_writable: accounts[4].is_writable,
        executable: accounts[4].executable,
    };
    let signer = accounts[0].key;
    let miner = accounts[1].key;
    let mint = accounts[2].key;
    let stake_key = accounts[4].key;
    accounts.set(4, record);
    let mut calls: Vec<Invocation> = Vec::new();
    calls.push(
        Invocation::CreateAccount {
            payer: signer,
            address: stake_key,
            owner: ids.stake,
            space: (1 + STAKE_SIZE) as u64,
            bump: args.stake_bump,
        },
    );
    calls.push(Invocation::CreateAssociatedTokenAccount { funder: signer, wallet: stake_key, mint });
    calls.push(Invocation::OpenProof { authority: stake_key, miner, bump: args.stake_bump });
    assert(calls@ =~= seq![
        Invocation::CreateAccount {
            payer: signer,
            address: stake_key,
            owner: ids.stake,
            space: (1 + STAKE_SIZE) as u64,
            bump: args.stake_bump,
        },
        Invocation::CreateAssociatedTokenAccount { funder: signer, wallet: stake_key, mint },
        Invocation::OpenProof { authority: stake_key, miner, bump: args.stake_bump },
    ]);
    Ok(calls)
}

/// The first failing check of opening a relayer, in the order they run.
pub open spec fn open_relayer_checks(a: Seq<AccountInfo>, args: OpenRelayerArgs, ids: ProgramIds) -> Result<
    (),
    ProgramError,
> {
    let pda = uninitialized_pda_result(a[1], seq![relayer_seed_spec(), a[0].key@], args.bump, ids.relay@);
    if !a[0].is_signer {
        Err(ProgramError::NotSigner)
    } else if pda is Err {
        pda
    } else if !(a[2].key@ == system_id() && a[2].executable) {
        Err(ProgramError::InvalidProgram)
    } else {
        Ok(())
    }
}

/// Opens a relayer for the signer: checks the three record slots in order,
/// then writes the relayer record at its canonical address and asks for it to
/// be allocated. `data` holds the bump. On an error nothing changes.
pub fn process_open_relayer(accounts: &mut Vec<AccountInfo>, data: &[u8], ids: &ProgramIds) -> (r:
    Result<Vec<Invocation>, ProgramError>)
    ensures
        r is Err ==> final(accounts)@ == old(accounts)@,
        data@.len() != 1 ==> r == Err::<Vec<Invocation>, ProgramError>(
            ProgramError::InvalidInstructionData,
        ),
        data@.len() == 1 && old(accounts)@.len() != 3 ==> r == Err::<
            Vec<Invocation>,
            ProgramError,
        >(ProgramError::NotEnoughAccountKeys),
        ({
            let a = old(accounts)@;
            let args = OpenRelayerArgs { bump: data@[0] };
            data@.len() == 1 && a.len() == 3 ==> {
                &&& (r is Ok <==> open_relayer_checks(a, args, *ids) is Ok)
                &&& (r matches Err(e) ==> open_relayer_checks(a, args, *ids) == Err::<(), ProgramError>(e))
                &&& (r matches Ok(calls) ==> {
                    &&& final(accounts)@.len() == 3
                    &&& final(accounts)@[0] == a[0]
                    &&& final(accounts)@[2] == a[2]
                    &&& final(accounts)@[1].key == a[1].key
                    &&& final(accounts)@[1].owner@ == ids.relay@
                    &&& final(accounts)@[1].data@ == Relayer::encoded(
                        Relayer { authority: a[0].key, bump: args.bump as u64 },
                    )
                    &&& calls@ == seq![
                        Invocation::CreateAccount {
                            payer: a[0].key,
                            address: a[1].key,
                            owner: ids.relay,
                            space: (1 + RELAYER_SIZE) as u64,
                            bump: args.bump,
                        },
                    ]
                })
            }
        }),
{
    if data.len() != 1 {
        return Err(ProgramError::InvalidInstructionData);
    }
    let args = OpenRelayerArgs { bump: data[0] };
    if accounts.len() != 3 {
        return Err(ProgramError::NotEnoughAccountKeys);
    }
    let system = Pubkey::zeroed();
    match load_signer(&accounts[0]) {
        Ok(()) => {},
        Err(e) => return Err(e),
    }
    match load_uninitialized_pda(&accounts[1], &seeds2(relayer_seed(), accounts[0].key.to_vec()), args.bump, &ids.relay) {
        Ok(()) => {},
        Err(e) => return Err(e),
    }
    match load_program(&accounts[2], &system) {
        Ok(()) => {},
        Err(e) => return Err(e),
    }
    // Every check has passed: write the relayer record.
    let relayer = Relayer { authority: accounts[0].key, bump: args.bump as u64 };
    let record = AccountInfo {
        key: accounts[1].key,
        owner: ids.relay,
        lamports: accounts[1].lamports,
        data: relayer.to_bytes(),
        is_signer: accounts[1].is_signer,
        is_writable: accounts[1].is_writable,
        executable: accounts[1].executable,
    };
    let signer = accounts[0].key;
    let relayer_key = accounts[1].key;
    accounts.set(1, record);
    let mut calls: Vec<Invocation> = Vec::new();
    calls.push(
        Invocation::CreateAccount {
            payer: signer,
            address: relayer_key,
            owner: ids.relay,
            space: (1 + RELAYER_SIZE) as u64,
            bump: args.bump,
        },
    );
    assert(calls@ =~= seq![
        Invocation::CreateAccount {
            payer: signer,
            address: relayer_key,
            owner: ids.relay,
            space: (1 + RELAYER_SIZE) as u64,
            bump: args.bump,
        },
    ]);
    Ok(calls)
}

/// What `load_owned_record` returns.
pub open spec fn owned_record_result(info: AccountInfo, program: Seq<u8>) -> Result<(), ProgramError> {
    if info.owner@ != program {
        Err(ProgramError::InvalidOwner)
    } else if !info.is_writable {
        Err(ProgramError::NotWritable)
    } else {
        Ok(())
    }
}

/// Checks that `info` belongs to `program` and is writable.
pub fn load_owned_record(info: &AccountInfo, program: &Pubkey) -> (r: Result<(), ProgramError>)
    ensures
        r == owned_record_result(*info, program@),
{
    if !info.owner.equals(program) {
        return Err(ProgramError::InvalidOwner);
    }
    if !info.is_writable {
        return Err(ProgramError::NotWritable);
    }
    Ok(())
}

/// The first failing check of a pool request over the slots `[signer,
/// delegate, pool, pool tokens, counterparty tokens, token program]`: the
/// signer signed, both records belong to the pool program, are writable and
/// decode, the delegate is the signer's share of this pool, and the pool's
/// tokens are the escrow named.
pub open spec fn pool_request_checks(a: Seq<AccountInfo>, ids: ProgramIds) -> Result<(), ProgramError> {
    let delegate = a[1].data@;
    let pool = a[2].data@;
    if !a[0].is_signer {
        Err(ProgramError::NotSigner)
    } else if owned_record_result(a[1], ids.pool@) is Err {
        owned_record_result(a[1], ids.pool@)
    } else if owned_record_result(a[2], ids.pool@) is Err {
        owned_record_result(a[2], ids.pool@)
    } else if !layout_ok(delegate, DELEGATE_TAG, DELEGATE_SIZE as nat) || !layout_ok(
        pool,
        POOL_TAG,
        POOL_SIZE as nat,
    ) {
        Err(ProgramError::InvalidAccountData)
    } else if key_at(delegate, 1) != a[0].key@ {
        Err(ProgramError::InvalidOwner)
    } else if key_at(delegate, 33) != a[2].key@ || key_at(pool, 41) != a[3].key@ {
        Err(ProgramError::InvalidSeeds)
    } else if !(a[5].key@ == ids.token@ && a[5].executable) {
        Err(ProgramError::InvalidProgram)
    } else {
        Ok(())
    }
}

/// The delegate's share that a pool request reads.
pub open spec fn share_of(a: Seq<AccountInfo>) -> int {
    u64_at(a[1].data@, 65) as int
}

/// The pool's total that a pool request reads.
pub open spec fn total_of(a: Seq<AccountInfo>) -> int {
    u64_at(a[2].data@, 105) as int
}

/// Runs the checks of a pool request and decodes its two records.
fn load_pool_request(accounts: &Vec<AccountInfo>, ids: &ProgramIds) -> (r: Result<(Delegate, Pool), ProgramError>)
    requires
        accounts@.len() == 6,
    ensures
        r is Ok <==> pool_request_checks(accounts@, *ids) is Ok,
        r matches Err(e) ==> pool_request_checks(accounts@, *ids) == Err::<(), ProgramError>(e),
        r matches Ok((d, p)) ==> Delegate::decodes_to(accounts@[1].data@, d) && Pool::decodes_to(
            accounts@[2].data@,
            p,
        ) && d.balance == share_of(accounts@) && p.total_delegated == total_of(accounts@),
{
    match load_signer(&accounts[0]) {
        Ok(()) => {},
        Err(e) => return Err(e),
    }
    match load_owned_record(&accounts[1], &ids.pool) {
        Ok(()) => {},
        Err(e) => return Err(e),
    }
    match load_owned_record(&accounts[2], &ids.pool) {
        Ok(()) => {},
        Err(e) => return Err(e),
    }
    let delegate = match Delegate::from_bytes(accounts[1].data.as_slice()) {
        Ok(d) => d,
        Err(e) => return Err(e),
    };
    let pool = match Pool::from_bytes(accounts[2].data.as_slice()) {
        Ok(p) => p,
        Err(e) => return Err(e),
    };
    if !delegate.authority.equals(&accounts[0].key) {
        return Err(ProgramError::InvalidOwner);
    }
    if !delegate.pool.equals(&accounts[2].key) || !pool.tokens.equals(&accounts[3].key) {
        return Err(ProgramError::InvalidSeeds);
    }
    match load_program(&accounts[5], &ids.token) {
        Ok(()) => {},
        Err(e) => return Err(e),
    }
    Ok((delegate, pool))
}

/// Writes `data` into slot `i`, keeping the rest of the slot.
fn store(accounts: &mut Vec<AccountInfo>, i: usize, data: Vec<u8>)
    requires
        i < old(accounts)@.len(),
    ensures
        final(accounts)@.len() == old(accounts)@.len(),
        forall|j: int| 0 <= j < old(accounts)@.len() && j != i ==> #[trigger] final(accounts)@[j] == old(accounts)@[j],
        final(accounts)@[i as int].data@ == data@,
        final(accounts)@[i as int].key == old(accounts)@[i as int].key,
        final(accounts)@[i as int].owner == old(accounts)@[i as int].owner,
{
    let record = AccountInfo {
        key: accounts[i].key,
        owner: accounts[i].owner,
        lamports: accounts[i].lamports,
        data,
        is_signer: accounts[i].is_signer,
        is_writable: accounts[i].is_writable,
        executable: accounts[i].executable,
    };
    accounts.set(i, record);
}

/// Stakes `amount` into a pool: the slots are `[signer, delegate, pool, pool
/// tokens, sender tokens, token program]` and `data` holds the amount. Both
/// the pool's total and the delegate's share grow by the amount, and the
/// tokens move from the sender to the pool's escrow. On an error nothing
/// changes.
pub fn process_delegate(accounts: &mut Vec<AccountInfo>, data: &[u8], ids: &ProgramIds) -> (r:
    Result<Vec<Invocation>, ProgramError>)
    ensures
        r is Err ==> final(accounts)@ == old(accounts)@,
        data@.len() != 8 ==> r == Err::<Vec<Invocation>, ProgramError>(
            ProgramError::InvalidInstructionData,
        ),
        data@.len() == 8 && old(accounts)@.len() != 6 ==> r == Err::<
            Vec<Invocation>,
            ProgramError,
        >(ProgramError::NotEnoughAccountKeys),
        ({
            let a = old(accounts)@;
            let amount = u64_at(data@, 0);
            data@.len() == 8 && a.len() == 6 ==> {
                &&& (r is Ok <==> pool_request_checks(a, *ids) is Ok && total_of(a) + amount
                    <= u64::MAX && share_of(a) + amount <= u64::MAX)
                &&& (pool_request_checks(a, *ids) is Err ==> (r matches Err(e)
                    && pool_request_checks(a, *ids) == Err::<(), ProgramError>(e)))
                &&& (r matches Ok(calls) ==> {
                    &&& final(accounts)@.len() == 6
                    &&& forall|i: int| 0 <= i < 6 && i != 1 && i != 2 ==> #[trigger] final(accounts)@[i] == a[i]
                    &&& forall|d: Delegate| #[trigger] Delegate::decodes_to(a[1].data@, d) ==> final(accounts)@[1].data@
                        == Delegate::encoded(Delegate { balance: (d.balance + amount) as u64, ..d })
                    &&& forall|p: Pool| #[trigger] Pool::decodes_to(a[2].data@, p) ==> final(accounts)@[2].data@
                        == Pool::encoded(Pool { total_delegated: (p.total_delegated + amount) as u64, ..p })
                    &&& calls@ == seq![
                        Invocation::Transfer {
                            source: a[4].key,
                            destination: a[3].key,
                            authority: a[0].key,
                            amount,
                        },
                    ]
                })
            }
        }),
{
    let args = match DelegateArgs::try_from_bytes(data) {
        Ok(args) => args,
        Err(e) => return Err(e),
    };
    if accounts.len() != 6 {
        return Err(ProgramError::NotEnoughAccountKeys);
    }
    let (mut delegate, mut pool) = match load_pool_request(accounts, ids) {
        Ok(records) => records,
        Err(e) => return Err(e),
    };
    match delegate_stake(&mut pool, &mut delegate, args.amount) {
        Ok(()) => {},
        Err(e) => return Err(e),
    }
    let source = accounts[4].key;
    let destination = accounts[3].key;
    let authority = accounts[0].key;
    store(accounts, 1, delegate.to_bytes());
    store(accounts, 2, pool.to_bytes());
    let mut calls: Vec<Invocation> = Vec::new();
    calls.push(Invocation::Transfer { source, destination, authority, amount: args.amount });
    assert(calls@ =~= seq![Invocation::Transfer { source, destination, authority, amount: args.amount }]);
    Ok(calls)
}

/// Unstakes `amount` from a pool: the slots are `[signer, delegate, pool, pool
/// tokens, beneficiary tokens, token program]` and `data` holds the amount.
/// Fails with InsufficientFunds when the amount exceeds the delegate's share;
/// otherwise both the share and the pool's total shrink by it, and the tokens
/// move from the pool's escrow, signed by the pool, to the beneficiary. On an
/// error nothing changes.
pub fn process_withdraw(accounts: &mut Vec<AccountInfo>, data: &[u8], ids: &ProgramIds) -> (r:
    Result<Vec<Invocation>, ProgramError>)
    ensures
        r is Err ==> final(accounts)@ == old(accounts)@,
        data@.len() != 8 ==> r == Err::<Vec<Invocation>, ProgramError>(
            ProgramError::InvalidInstructionData,
        ),
        data@.len() == 8 && old(accounts)@.len() != 6 ==> r == Err::<
            Vec<Invocation>,
            ProgramError,
        >(ProgramError::NotEnoughAccountKeys),
        ({
            let a = old(accounts)@;
            let amount = u64_at(data@, 0);
            data@.len() == 8 && a.len() == 6 ==> {
                &&& (r is Ok <==> pool_request_checks(a, *ids) is Ok && amount <= share_of(a)
                    && amount <= total_of(a))
                &&& (pool_request_checks(a, *ids) is Err ==> (r matches Err(e)
                    && pool_request_checks(a, *ids) == Err::<(), ProgramError>(e)))
                &&& (pool_request_checks(a, *ids) is Ok && amount > share_of(a) ==> r == Err::<
                    Vec<Invocation>,
                    ProgramError,
                >(ProgramError::InsufficientFunds))
                &&& (r matches Ok(calls) ==> {
                    &&& final(accounts)@.len() == 6
                    &&& forall|i: int| 0 <= i < 6 && i != 1 && i != 2 ==> #[trigger] final(accounts)@[i] == a[i]
                    &&& forall|d: Delegate| #[trigger] Delegate::decodes_to(a[1].data@, d) ==> final(accounts)@[1].data@
                        == Delegate::encoded(Delegate { balance: (d.balance - amount) as u64, ..d })
                    &&& forall|p: Pool| #[trigger] Pool::decodes_to(a[2].data@, p) ==> final(accounts)@[2].data@
                        == Pool::encoded(Pool { total_delegated: (p.total_delegated - amount) as u64, ..p })
                    &&& calls@ == seq![
                        Invocation::Transfer {
                            source: a[3].key,
                            destination: a[4].key,
                            authority: a[2].key,
                            amount,
                        },
                    ]
                })
            }
        }),
{
    let args = match WithdrawArgs::try_from_bytes(data) {
        Ok(args) => args,
        Err(e) => return Err(e),
    };
    if accounts.len() != 6 {
        return Err(ProgramError::NotEnoughAccountKeys);
    }
    let (mut delegate, mut pool) = match load_pool_request(accounts, ids) {
        Ok(records) => records,
        Err(e) => return Err(e),
    };
    match withdraw_stake(&mut pool, &mut delegate, args.amount) {
        Ok(()) => {},
        Err(e) => return Err(e),
    }
    let source = accounts[3].key;
    let destination = accounts[4].key;
    let authority = accounts[2].key;
    store(accounts, 1, delegate.to_bytes());
    store(accounts, 2, pool.to_bytes());
    let mut calls: Vec<Invocation> = Vec::new();
    calls.push(Invocation::Transfer { source, destination, authority, amount: args.amount });
    assert(calls@ =~= seq![Invocation::Transfer { source, destination, authority, amount: args.amount }]);
    Ok(calls)
}

/// The first failing check of collecting commission over the slots
/// `[signer, escrow, proof]`: the signer signed and is the escrow's
/// authority, the escrow belongs to the relay program and is writable, the
/// proof belongs to the emission program, and both records decode.
pub open spec fn commission_checks(a: Seq<AccountInfo>, ids: ProgramIds) -> Result<(), ProgramError> {
    if !a[0].is_signer {
        Err(ProgramError::NotSigner)
    } else if owned_record_result(a[1], ids.relay@) is Err {
        owned_record_result(a[1], ids.relay@)
    } else if a[2].owner@ != ids.ore@ {
        Err(ProgramError::InvalidOwner)
    } else if !layout_ok(a[1].data@, ESCROW_TAG, ESCROW_SIZE as nat) || !layout_ok(
        a[2].data@,
        PROOF_TAG,
        PROOF_SIZE as nat,
    ) {
        Err(ProgramError::InvalidAccountData)
    } else if key_at(a[1].data@, 1) != a[0].key@ {
        Err(ProgramError::InvalidOwner)
    } else {
        Ok(())
    }
}

/// Collects the relay's commission on a proof: the slots are `[signer,
/// escrow, proof]`. The escrow's new observation is written back and, where
/// the commission is not zero, it is claimed from the proof for the signer.
/// On an error nothing changes.
pub fn process_collect_commission(accounts: &mut Vec<AccountInfo>, ids: &ProgramIds) -> (r: Result<
    Vec<Invocation>,
    ProgramError,
>)
    ensures
        r is Err ==> final(accounts)@ == old(accounts)@,
        old(accounts)@.len() != 3 ==> r == Err::<Vec<Invocation>, ProgramError>(
            ProgramError::NotEnoughAccountKeys,
        ),
        ({
            let a = old(accounts)@;
            a.len() == 3 ==> {
                &&& (commission_checks(a, *ids) is Err ==> (r matches Err(e) && commission_checks(
                    a,
                    *ids,
                ) == Err::<(), ProgramError>(e)))
                &&& forall|e: Escrow, p: Proof|
                    #![trigger Escrow::decodes_to(a[1].data@, e), Proof::decodes_to(a[2].data@, p)]
                    commission_checks(a, *ids) is Ok && Escrow::decodes_to(a[1].data@, e)
                        && Proof::decodes_to(a[2].data@, p) ==> {
                        let (outcome, next) = commission_step(e, p);
                        &&& (r is Ok <==> outcome is Ok)
                        &&& (outcome matches Err(x) ==> r == Err::<Vec<Invocation>, ProgramError>(x))
                        &&& (r matches Ok(calls) ==> {
                            &&& final(accounts)@.len() == 3
                            &&& final(accounts)@[0] == a[0]
                            &&& final(accounts)@[2] == a[2]
                            &&& final(accounts)@[1].key == a[1].key
                            &&& final(accounts)@[1].data@ == Escrow::encoded(next)
                            &&& calls@ == (if outcome == Ok::<u64, ProgramError>(0) {
                                Seq::empty()
                            } else {
                                seq![
                                    Invocation::ClaimCommission {
                                        proof: a[2].key,
                                        escrow: a[1].key,
                                        authority: a[0].key,
                                        amount: outcome->Ok_0,
                                    },
                                ]
                            })
                        })
                    }
            }
        }),
{
    if accounts.len() != 3 {
        return Err(ProgramError::NotEnoughAccountKeys);
    }
    match load_signer(&accounts[0]) {
        Ok(()) => {},
        Err(e) => return Err(e),
    }
    match load_owned_record(&accounts[1], &ids.relay) {
        Ok(()) => {},
        Err(e) => return Err(e),
    }
    if !accounts[2].owner.equals(&ids.ore) {
        return Err(ProgramError::InvalidOwner);
    }
    let mut escrow = match Escrow::from_bytes(accounts[1].data.as_slice()) {
        Ok(e) => e,
        Err(e) => return Err(e),
    };
    let proof = match Proof::from_bytes(accounts[2].data.as_slice()) {
        Ok(p) => p,
        Err(e) => return Err(e),
    };
    if !escrow.authority.equals(&accounts[0].key) {
        return Err(ProgramError::InvalidOwner);
    }
    let commission = match collect_commission(&mut escrow, &proof) {
        Ok(c) => c,
        Err(e) => return Err(e),
    };
    let proof_key = accounts[2].key;
    let escrow_key = accounts[1].key;
    let authority = accounts[0].key;
    store(accounts, 1, escrow.to_bytes());
    let mut calls: Vec<Invocation> = Vec::new();
    if commission != 0 {
        calls.push(
            Invocation::ClaimCommission {
                proof: proof_key,
                escrow: escrow_key,
                authority,
                amount: commission,
            },
        );
    }
    Ok(calls)
}

} // verus!
