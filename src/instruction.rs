use vstd::prelude::*;

use crate::codec::{le_bytes, read_u64, u64_at, write_u64};
use crate::error::ProgramError;
use crate::loaders::ProgramIds;
use crate::pda::{find_program_address, program_address, seeds2, Pubkey};
use crate::seeds::{mint_seed, mint_seed_spec, pool_seed, pool_seed_spec, proof_seed, proof_seed_spec};

verus! {

/// The requests of the liquid staking pool program.
#[derive(Clone, Copy, Debug, PartialEq, Eq, Structural)]
pub enum StakeInstruction {
    Initialize,
    Delegate,
    Withdraw,
}

impl StakeInstruction {
    /// The opcode byte of the request.
    pub open spec fn opcode(self) -> u8 {
        match self {
            StakeInstruction::Initialize => 0,
            StakeInstruction::Delegate => 2,
            StakeInstruction::Withdraw => 3,
        }
    }

    /// The request's opcode as the first byte of its data.
    pub fn to_vec(&self) -> (r: Vec<u8>)
        ensures
            r@ == seq![self.opcode()],
    {
        let b: u8 = match self {
            StakeInstruction::Initialize => 0,
            StakeInstruction::Delegate => 2,
            StakeInstruction::Withdraw => 3,
        };
        let r: Vec<u8> = vec![b];
        assert(r@ =~= seq![self.opcode()]);
        r
    }

    /// The request with opcode `b`, if there is one.
    pub fn try_from_opcode(b: u8) -> (r: Option<StakeInstruction>)
        ensures
            r matches Some(i) ==> i.opcode() == b,
            r is None <==> (b != 0 && b != 2 && b != 3),
    {
        if b == 0 {
            Some(StakeInstruction::Initialize)
        } else if b == 2 {
            Some(StakeInstruction::Delegate)
        } else if b == 3 {
            Some(StakeInstruction::Withdraw)
        } else {
            None
        }
    }
}

/// The arguments of `Initialize`: the canonical bumps of the records it creates.
#[derive(Clone, Copy, Debug, PartialEq, Eq, Structural)]
pub struct InitializeArgs {
    pub mint_bump: u8,
    pub pool_bump: u8,
    pub proof_bump: u8,
}

impl InitializeArgs {
    /// The three bump bytes in order.
    pub fn to_bytes(&self) -> (r: Vec<u8>)
        ensures
            r@ == seq![self.mint_bump, self.pool_bump, self.proof_bump],
    {
        let r: Vec<u8> = vec![self.mint_bump, self.pool_bump, self.proof_bump];
        assert(r@ =~= seq![self.mint_bump, self.pool_bump, self.proof_bump]);
        r
    }

    /// Reads the arguments; fails with InvalidInstructionData unless `data`
    /// holds exactly three bytes.
    pub fn try_from_bytes(data: &[u8]) -> (r: Result<InitializeArgs, ProgramError>)
        ensures
            r is Ok <==> data@.len() == 3,
            r is Err ==> r == Err::<InitializeArgs, ProgramError>(
                ProgramError::InvalidInstructionData,
            ),
            r matches Ok(a) ==> a == (InitializeArgs {
                mint_bump: data@[0],
                pool_bump: data@[1],
                proof_bump: data@[2],
            }),
    {
        if data.len() != 3 {
            return Err(ProgramError::InvalidInstructionData);
        }
        Ok(InitializeArgs { mint_bump: data[0], pool_bump: data[1], proof_bump: data[2] })
    }
}

/// The arguments of `Delegate`: the amount to stake.
#[derive(Clone, Copy, Debug, PartialEq, Eq, Structural)]
pub struct DelegateArgs {
    pub amount: u64,
}

impl DelegateArgs {
    /// The amount as eight little-endian bytes.
    pub fn to_bytes(&self) -> (r: Vec<u8>)
        ensures
            r@ == le_bytes(self.amount as nat, 8),
    {
        let mut r: Vec<u8> = Vec::new();
        write_u64(&mut r, self.amount);
        assert(r@ =~= le_bytes(self.amount as nat, 8));
        r
    }

    /// Reads the arguments; fails with InvalidInstructionData unless `data`
    /// holds exactly eight bytes.
    pub fn try_from_bytes(data: &[u8]) -> (r: Result<DelegateArgs, ProgramError>)
        ensures
            r is Ok <==> data@.len() == 8,
            r is Err ==> r == Err::<DelegateArgs, ProgramError>(
                ProgramError::InvalidInstructionData,
            ),
            r matches Ok(a) ==> a.amount == u64_at(data@, 0),
    {
        if data.len() != 8 {
            return Err(ProgramError::InvalidInstructionData);
        }
        Ok(DelegateArgs { amount: read_u64(data, 0) })
    }
}

/// The arguments of `Withdraw`: the amount to unstake.
#[derive(Clone, Copy, Debug, PartialEq, Eq, Structural)]
pub struct WithdrawArgs {
    pub amount: u64,
}

impl WithdrawArgs {
    /// The amount as eight little-endian bytes.
    pub fn to_bytes(&self) -> (r: Vec<u8>)
        ensures
            r@ == le_bytes(self.amount as nat, 8),
    {
        let mut r: Vec<u8> = Vec::new();
        write_u64(&mut r, self.amount);
        assert(r@ =~= le_bytes(self.amount as nat, 8));
        r
    }

    /// Reads the arguments; fails with InvalidInstructionData unless `data`
    /// holds exactly eight bytes.
    pub fn try_from_bytes(data: &[u8]) -> (r: Result<WithdrawArgs, ProgramError>)
        ensures
            r is Ok <==> data@.len() == 8,
            r is Err ==> r == Err::<WithdrawArgs, ProgramError>(
                ProgramError::InvalidInstructionData,
            ),
            r matches Ok(a) ==> a.amount == u64_at(data@, 0),
    {
        if data.len() != 8 {
            return Err(ProgramError::InvalidInstructionData);
        }
        Ok(WithdrawArgs { amount: read_u64(data, 0) })
    }
}

/// One record slot of a request.
#[derive(Clone, Copy, Debug)]
pub struct AccountMeta {
    pub pubkey: Pubkey,
    pub is_signer: bool,
    pub is_writable: bool,
}

/// A request to a program: its id, its record slots and its data.
#[derive(Clone, Debug)]
pub struct Instruction {
    pub program_id: Pubkey,
    pub accounts: Vec<AccountMeta>,
    pub data: Vec<u8>,
}

/// Whether `m` names `key` with the given flags.
pub open spec fn meta_is(m: AccountMeta, key: Seq<u8>, is_signer: bool, is_writable: bool) -> bool {
    m.pubkey@ == key && m.is_signer == is_signer && m.is_writable == is_writable
}

/// The address of the associated token account of `wallet` for `mint`.
pub open spec fn associated_token_address(wallet: Seq<u8>, mint: Seq<u8>, ids: ProgramIds) -> Seq<u8> {
    program_address(seq![wallet, ids.token@, mint], ids.associated_token@).0
}

/// Derives the associated token account of `wallet` for `mint`.
pub fn get_associated_token_address(wallet: &Pubkey, mint: &Pubkey, ids: &ProgramIds) -> (r: Pubkey)
    ensures
        r@ == associated_token_address(wallet@, mint@, *ids),
{
    let mut seeds: Vec<Vec<u8>> = Vec::new();
    seeds.push(wallet.to_vec());
    seeds.push(ids.token.to_vec());
    seeds.push(mint.to_vec());
    assert(crate::pda::seed_view(seeds@) =~= seq![wallet@, ids.token@, mint@]);
    find_program_address(&seeds, &ids.associated_token).0
}

/// Builds the request that creates the pool of `signer`, mined by `miner`.
pub fn initialize(signer: Pubkey, miner: Pubkey, ids: &ProgramIds) -> (r: Instruction)
    ensures
        ({
            let pool = program_address(seq![pool_seed_spec(), signer@], ids.pool@);
            let proof = program_address(seq![proof_seed_spec(), pool.0], ids.ore@);
            let mint = program_address(seq![mint_seed_spec(), pool.0], ids.pool@);
            &&& r.program_id@ == ids.pool@
            &&& r.accounts@.len() == 12
            &&& meta_is(r.accounts@[0], signer@, true, true)
            &&& meta_is(r.accounts@[1], miner@, false, false)
            &&& meta_is(r.accounts@[2], mint.0, false, true)
            &&& meta_is(r.accounts@[3], ids.mint@, false, false)
            &&& meta_is(r.accounts@[4], pool.0, false, true)
            &&& meta_is(
                r.accounts@[5],
                associated_token_address(pool.0, ids.mint@, *ids),
                false,
                true,
            )
            &&& meta_is(r.accounts@[6], proof.0, false, true)
            &&& meta_is(r.accounts@[7], Seq::new(32, |i: int| 0u8), false, false)
            &&& meta_is(r.accounts@[8], ids.token@, false, false)
            &&& meta_is(r.accounts@[9], ids.associated_token@, false, false)
            &&& meta_is(r.accounts@[10], ids.rent@, false, false)
            &&& meta_is(r.accounts@[11], ids.slot_hashes@, false, false)
            &&& r.data@ == seq![
                StakeInstruction::Initialize.opcode(),
                mint.1,
                pool.1,
                proof.1,
            ]
        }),
{
    let pool_pda = find_program_address(&seeds2(pool_seed(), signer.to_vec()), &ids.pool);
    let proof_pda = find_program_address(&seeds2(proof_seed(), pool_pda.0.to_vec()), &ids.ore);
    let mint_pda = find_program_address(&seeds2(mint_seed(), pool_pda.0.to_vec()), &ids.pool);
    let pool_tokens = get_associated_token_address(&pool_pda.0, &ids.mint, ids);
    let mut accounts: Vec<AccountMeta> = Vec::new();
    accounts.push(AccountMeta { pubkey: signer, is_signer: true, is_writable: true });
    accounts.push(AccountMeta { pubkey: miner, is_signer: false, is_writable: false });
    accounts.push(AccountMeta { pubkey: mint_pda.0, is_signer: false, is_writable: true });
    accounts.push(AccountMeta { pubkey: ids.mint, is_signer: false, is_writable: false });
    accounts.push(AccountMeta { pubkey: pool_pda.0, is_signer: false, is_writable: true });
    accounts.push(AccountMeta { pubkey: pool_tokens, is_signer: false, is_writable: true });
    accounts.push(AccountMeta { pubkey: proof_pda.0, is_signer: false, is_writable: true });
    accounts.push(AccountMeta { pubkey: Pubkey::zeroed(), is_signer: false, is_writable: false });
    accounts.push(AccountMeta { pubkey: ids.token, is_signer: false, is_writable: false });
    accounts.push(
        AccountMeta { pubkey: ids.associated_token, is_signer: false, is_writable: false },
    );
    accounts.push(AccountMeta { pubkey: ids.rent, is_signer: false, is_writable: false });
    accounts.push(AccountMeta { pubkey: ids.slot_hashes, is_signer: false, is_writable: false });
    let mut data = StakeInstruction::Initialize.to_vec();
    let args = InitializeArgs {
        mint_bump: mint_pda.1,
        pool_bump: pool_pda.1,
        proof_bump: proof_pda.1,
    };
    let mut arg_bytes = args.to_bytes();
    data.append(&mut arg_bytes);
    assert(data@ =~= seq![StakeInstruction::Initialize.opcode(), mint_pda.1, pool_pda.1, proof_pda.1]);
    Instruction { program_id: ids.pool, accounts, data }
}

} // verus!
