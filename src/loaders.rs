use vstd::prelude::*;

use crate::error::ProgramError;
use crate::pda::{find_program_address, program_address, seed_view, Pubkey};

verus! {

/// A record handle as a transition sees it.
#[derive(Clone, Debug)]
pub struct AccountInfo {
    pub key: Pubkey,
    pub owner: Pubkey,
    pub lamports: u64,
    pub data: Vec<u8>,
    pub is_signer: bool,
    pub is_writable: bool,
    pub executable: bool,
}

/// The addresses of the programs and records that transitions check against.
#[derive(Clone, Copy, Debug)]
pub struct ProgramIds {
    /// The emission program, which owns proofs.
    pub ore: Pubkey,
    /// The staking program.
    pub stake: Pubkey,
    /// The liquid staking pool program.
    pub pool: Pubkey,
    /// The relay program.
    pub relay: Pubkey,
    /// The token program.
    pub token: Pubkey,
    /// The associated token account program.
    pub associated_token: Pubkey,
    /// The slot hashes sysvar.
    pub slot_hashes: Pubkey,
    /// The rent sysvar.
    pub rent: Pubkey,
    /// The token mint.
    pub mint: Pubkey,
}

/// The system program's address: all zero bytes.
pub open spec fn system_id() -> Seq<u8> {
    Seq::new(32, |i: int| 0u8)
}

/// Fails with NotSigner unless the record signed the transition.
pub fn load_signer(info: &AccountInfo) -> (r: Result<(), ProgramError>)
    ensures
        r == (if info.is_signer { Ok(()) } else { Err(ProgramError::NotSigner) }),
{
    if !info.is_signer {
        return Err(ProgramError::NotSigner);
    }
    Ok(())
}

/// Fails with NotWritable unless the record was declared writable.
pub fn load_writable(info: &AccountInfo) -> (r: Result<(), ProgramError>)
    ensures
        r == (if info.is_writable { Ok(()) } else { Err(ProgramError::NotWritable) }),
{
    if !info.is_writable {
        return Err(ProgramError::NotWritable);
    }
    Ok(())
}

/// What `load_system_account` returns.
pub open spec fn system_account_result(info: AccountInfo, is_writable: bool) -> Result<
    (),
    ProgramError,
> {
    if info.owner@ != system_id() {
        Err(ProgramError::InvalidOwner)
    } else if info.data@.len() != 0 {
        Err(ProgramError::AlreadyInitialized)
    } else if is_writable && !info.is_writable {
        Err(ProgramError::NotWritable)
    } else {
        Ok(())
    }
}

/// Checks that the record belongs to the system program and holds no data,
/// and, where asked, that it is writable.
pub fn load_system_account(info: &AccountInfo, is_writable: bool) -> (r: Result<(), ProgramError>)
    ensures
        r == system_account_result(*info, is_writable),
{
    let system = Pubkey::zeroed();
    if !info.owner.equals(&system) {
        return Err(ProgramError::InvalidOwner);
    }
    if info.data.len() != 0 {
        return Err(ProgramError::AlreadyInitialized);
    }
    if is_writable && !info.is_writable {
        return Err(ProgramError::NotWritable);
    }
    Ok(())
}

/// What `load_uninitialized_pda` returns: the record must stand at the address
/// derived from `seeds`, `bump` must be the canonical bump, and the record must
/// still be an empty, writable system account.
pub open spec fn uninitialized_pda_result(
    info: AccountInfo,
    seeds: Seq<Seq<u8>>,
    bump: u8,
    program_id: Seq<u8>,
) -> Result<(), ProgramError> {
    let (address, canonical) = program_address(seeds, program_id);
    if info.key@ != address || bump != canonical {
        Err(ProgramError::InvalidSeeds)
    } else {
        system_account_result(info, true)
    }
}

/// Only the canonical bump is accepted: any other bump is refused with
/// InvalidSeeds, whatever address it would give.
pub proof fn lemma_only_canonical_bump_accepted(
    info: AccountInfo,
    seeds: Seq<Seq<u8>>,
    bump: u8,
    program_id: Seq<u8>,
)
    requires
        bump != program_address(seeds, program_id).1,
    ensures
        uninitialized_pda_result(info, seeds, bump, program_id) == Err::<(), ProgramError>(
            ProgramError::InvalidSeeds,
        ),
{
}

/// Checks that `info` is the not yet created record derived from `seeds` with
/// the canonical `bump` under `program_id`.
pub fn load_uninitialized_pda(
    info: &AccountInfo,
    seeds: &Vec<Vec<u8>>,
    bump: u8,
    program_id: &Pubkey,
) -> (r: Result<(), ProgramError>)
    ensures
        r == uninitialized_pda_result(*info, seed_view(seeds@), bump, program_id@),
        bump != program_address(seed_view(seeds@), program_id@).1 ==> r == Err::<(), ProgramError>(
            ProgramError::InvalidSeeds,
        ),
{
    let (address, canonical) = find_program_address(seeds, program_id);
    if !info.key.equals(&address) {
        return Err(ProgramError::InvalidSeeds);
    }
    if bump != canonical {
        return Err(ProgramError::InvalidSeeds);
    }
    load_system_account(info, true)
}

/// Fails with InvalidProgram unless `info` is the executable program `key`.
pub fn load_program(info: &AccountInfo, key: &Pubkey) -> (r: Result<(), ProgramError>)
    ensures
        r == (if info.key@ == key@ && info.executable {
            Ok(())
        } else {
            Err(ProgramError::InvalidProgram)
        }),
{
    if !info.key.equals(key) || !info.executable {
        return Err(ProgramError::InvalidProgram);
    }
    Ok(())
}

/// Fails with InvalidSysvar unless `info` is the sysvar `key`.
pub fn load_sysvar(info: &AccountInfo, key: &Pubkey) -> (r: Result<(), ProgramError>)
    ensures
        r == (if info.key@ == key@ { Ok(()) } else { Err(ProgramError::InvalidSysvar) }),
{
    if !info.key.equals(key) {
        return Err(ProgramError::InvalidSysvar);
    }
    Ok(())
}

/// The size of a token mint record.
pub const MINT_LEN: usize = 82;

/// What `load_mint` returns.
pub open spec fn mint_result(info: AccountInfo, address: Seq<u8>, token: Seq<u8>, is_writable: bool) -> Result<
    (),
    ProgramError,
> {
    if info.owner@ != token {
        Err(ProgramError::InvalidOwner)
    } else if info.key@ != address || info.data@.len() != MINT_LEN || info.data@[45] != 1u8 {
        Err(ProgramError::InvalidMint)
    } else if is_writable && !info.is_writable {
        Err(ProgramError::NotWritable)
    } else {
        Ok(())
    }
}

/// Checks that `info` is the initialized mint at `address`, owned by the token
/// program, and writable where asked.
pub fn load_mint(info: &AccountInfo, address: &Pubkey, token: &Pubkey, is_writable: bool) -> (r:
    Result<(), ProgramError>)
    ensures
        r == mint_result(*info, address@, token@, is_writable),
{
    if !info.owner.equals(token) {
        return Err(ProgramError::InvalidOwner);
    }
    if !info.key.equals(address) || info.data.len() != MINT_LEN || info.data[45] != 1u8 {
        return Err(ProgramError::InvalidMint);
    }
    if is_writable && !info.is_writable {
        return Err(ProgramError::NotWritable);
    }
    Ok(())
}

} // verus!
