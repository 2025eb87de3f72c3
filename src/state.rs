use vstd::prelude::*;

use crate::codec::{
    check_layout, key_at, layout_ok, lemma_le_bytes_len_8, le_bytes, read_bytes32, read_key, read_u64,
    u64_at, write_bytes32, write_u64,
};
use crate::error::ProgramError;
use crate::pda::Pubkey;

verus! {

/// The tag of a bus record.
pub const BUS_TAG: u8 = 100;

/// The size of a bus record's body.
pub const BUS_SIZE: usize = 24;

/// A shard of the emission budget.
#[derive(Clone, Copy, Debug, PartialEq, Eq, Structural)]
pub struct Bus {
    /// The index of this bus.
    pub id: u64,
    /// What this bus may still issue in the current epoch.
    pub remaining: u64,
    /// What this bus has issued in the current epoch.
    pub accumulated: u64,
}

impl Bus {
    /// The tag that marks a bus record.
    pub fn discriminator() -> (r: u8)
        ensures
            r == BUS_TAG,
    {
        BUS_TAG
    }

    /// The bytes of `r` as it is stored: its tag, then its fields in order.
    pub open spec fn encoded(r: Bus) -> Seq<u8> {
        seq![BUS_TAG] + le_bytes(r.id as nat, 8) + le_bytes(r.remaining as nat, 8) + le_bytes(r.accumulated as nat, 8)
    }

    /// Whether `r` is what the record bytes `data` hold.
    pub open spec fn decodes_to(data: Seq<u8>, r: Bus) -> bool {
        &&& r.id == u64_at(data, 1)
        &&& r.remaining == u64_at(data, 9)
        &&& r.accumulated == u64_at(data, 17)
    }

    /// Decodes a record: fails with InvalidAccountData unless `data` is the
    /// tag followed by exactly one record body.
    pub fn from_bytes(data: &[u8]) -> (r: Result<Bus, ProgramError>)
        ensures
            r is Ok <==> layout_ok(data@, BUS_TAG, BUS_SIZE as nat),
            r is Err ==> r == Err::<Bus, ProgramError>(ProgramError::InvalidAccountData),
            r matches Ok(v) ==> Self::decodes_to(data@, v),
    {
        match check_layout(data, BUS_TAG, BUS_SIZE) {
            Ok(()) => {},
            Err(e) => return Err(e),
        }
        let id = read_u64(data, 1);
        let remaining = read_u64(data, 9);
        let accumulated = read_u64(data, 17);
        Ok(Bus { id, remaining, accumulated })
    }

    /// Encodes the record: its tag, then its fields in order.
    pub fn to_bytes(&self) -> (r: Vec<u8>)
        ensures
            r@ == Self::encoded(*self),
            r@.len() == 1 + BUS_SIZE,
    {
        let mut out: Vec<u8> = Vec::new();
        out.push(BUS_TAG);
        write_u64(&mut out, self.id);
        write_u64(&mut out, self.remaining);
        write_u64(&mut out, self.accumulated);
        proof {
            lemma_le_bytes_len_8();
            assert(out@ =~= Self::encoded(*self));
        }
        out
    }
}

/// The tag of a config record.
pub const CONFIG_TAG: u8 = 101;

/// The size of a config record's body.
pub const CONFIG_SIZE: usize = 32;

/// The global emission parameters.
#[derive(Clone, Copy, Debug, PartialEq, Eq, Structural)]
pub struct Config {
    /// The reward paid for a hash of the minimum difficulty.
    pub base_reward_rate: u64,
    /// The timestamp of the last epoch reset.
    pub last_reset_at: i64,
    /// The minimum difficulty a submitted hash must meet.
    pub min_difficulty: u64,
    /// All tokens issued over every closed epoch.
    pub total_rewards: u64,
}

impl Config {
    /// The tag that marks a config record.
    pub fn discriminator() -> (r: u8)
        ensures
            r == CONFIG_TAG,
    {
        CONFIG_TAG
    }

    /// The bytes of `r` as it is stored: its tag, then its fields in order.
    pub open spec fn encoded(r: Config) -> Seq<u8> {
        seq![CONFIG_TAG] + le_bytes(r.base_reward_rate as nat, 8) + le_bytes(r.last_reset_at as u64 as nat, 8) + le_bytes(r.min_difficulty as nat, 8) + le_bytes(r.total_rewards as nat, 8)
    }

    /// Whether `r` is what the record bytes `data` hold.
    pub open spec fn decodes_to(data: Seq<u8>, r: Config) -> bool {
        &&& r.base_reward_rate == u64_at(data, 1)
        &&& r.last_reset_at == u64_at(data, 9) as i64
        &&& r.min_difficulty == u64_at(data, 17)
        &&& r.total_rewards == u64_at(data, 25)
    }

    /// Decodes a record: fails with InvalidAccountData unless `data` is the
    /// tag followed by exactly one record body.
    pub fn from_bytes(data: &[u8]) -> (r: Result<Config, ProgramError>)
        ensures
            r is Ok <==> layout_ok(data@, CONFIG_TAG, CONFIG_SIZE as nat),
            r is Err ==> r == Err::<Config, ProgramError>(ProgramError::InvalidAccountData),
            r matches Ok(v) ==> Self::decodes_to(data@, v),
    {
        match check_layout(data, CONFIG_TAG, CONFIG_SIZE) {
            Ok(()) => {},
            Err(e) => return Err(e),
        }
        let base_reward_rate = read_u64(data, 1);
        let last_reset_at = read_u64(data, 9) as i64;
        let min_difficulty = read_u64(data, 17);
        let total_rewards = read_u64(data, 25);
        Ok(Config { base_reward_rate, last_reset_at, min_difficulty, total_rewards })
    }

    /// Encodes the record: its tag, then its fields in order.
    pub fn to_bytes(&self) -> (r: Vec<u8>)
        ensures
            r@ == Self::encoded(*self),
            r@.len() == 1 + CONFIG_SIZE,
    {
        let mut out: Vec<u8> = Vec::new();
        out.push(CONFIG_TAG);
        write_u64(&mut out, self.base_reward_rate);
        write_u64(&mut out, self.last_reset_at as u64);
        write_u64(&mut out, self.min_difficulty);
        write_u64(&mut out, self.total_rewards);
        proof {
            lemma_le_bytes_len_8();
            assert(out@ =~= Self::encoded(*self));
        }
        out
    }
}

/// The tag of a proof record.
pub const PROOF_TAG: u8 = 102;

/// The size of a proof record's body.
pub const PROOF_SIZE: usize = 88;

/// A participant's mining record.
#[derive(Clone, Copy, Debug, PartialEq)]
pub struct Proof {
    /// The owner of this proof.
    pub authority: Pubkey,
    /// The claimable balance.
    pub balance: u64,
    /// The last accepted hash.
    pub last_hash: [u8; 32],
    /// When the last hash was accepted.
    pub last_hash_at: i64,
    /// The stake multiplier.
    pub multiplier: u64,
}

impl Proof {
    /// The tag that marks a proof record.
    pub fn discriminator() -> (r: u8)
        ensures
            r == PROOF_TAG,
    {
        PROOF_TAG
    }

    /// The bytes of `r` as it is stored: its tag, then its fields in order.
    pub open spec fn encoded(r: Proof) -> Seq<u8> {
        seq![PROOF_TAG] + r.authority@ + le_bytes(r.balance as nat, 8) + r.last_hash@ + le_bytes(r.last_hash_at as u64 as nat, 8) + le_bytes(r.multiplier as nat, 8)
    }

    /// Whether `r` is what the record bytes `data` hold.
    pub open spec fn decodes_to(data: Seq<u8>, r: Proof) -> bool {
        &&& r.authority@ == key_at(data, 1)
        &&& r.balance == u64_at(data, 33)
        &&& r.last_hash@ == key_at(data, 41)
        &&& r.last_hash_at == u64_at(data, 73) as i64
        &&& r.multiplier == u64_at(data, 81)
    }

    /// Decodes a record: fails with InvalidAccountData unless `data` is the
    /// tag followed by exactly one record body.
    pub fn from_bytes(data: &[u8]) -> (r: Result<Proof, ProgramError>)
        ensures
            r is Ok <==> layout_ok(data@, PROOF_TAG, PROOF_SIZE as nat),
            r is Err ==> r == Err::<Proof, ProgramError>(ProgramError::InvalidAccountData),
            r matches Ok(v) ==> Self::decodes_to(data@, v),
    {
        match check_layout(data, PROOF_TAG, PROOF_SIZE) {
            Ok(()) => {},
            Err(e) => return Err(e),
        }
        let authority = read_key(data, 1);
        let balance = read_u64(data, 33);
        let last_hash = read_bytes32(data, 41);
        let last_hash_at = read_u64(data, 73) as i64;
        let multiplier = read_u64(data, 81);
        Ok(Proof { authority, balance, last_hash, last_hash_at, multiplier })
    }

    /// Encodes the record: its tag, then its fields in order.
    pub fn to_bytes(&self) -> (r: Vec<u8>)
        ensures
            r@ == Self::encoded(*self),
            r@.len() == 1 + PROOF_SIZE,
    {
        let mut out: Vec<u8> = Vec::new();
        out.push(PROOF_TAG);
        write_bytes32(&mut out, &self.authority.bytes);
        write_u64(&mut out, self.balance);
        write_bytes32(&mut out, &self.last_hash);
        write_u64(&mut out, self.last_hash_at as u64);
        write_u64(&mut out, self.multiplier);
        proof {
            lemma_le_bytes_len_8();
            assert(out@ =~= Self::encoded(*self));
        }
        out
    }
}

/// The tag of a escrow record.
pub const ESCROW_TAG: u8 = 103;

/// The size of a escrow record's body.
pub const ESCROW_SIZE: usize = 80;

/// A relay's commission record.
#[derive(Clone, Copy, Debug, PartialEq)]
pub struct Escrow {
    /// The signer authorized to use this relay account.
    pub authority: Pubkey,
    /// The bump used for signing cross-program calls.
    pub bump: u64,
    /// The last hash this relayer has collected commission on.
    pub last_hash: [u8; 32],
    /// The last observed balance of the escrowed proof account.
    pub last_balance: u64,
}

impl Escrow {
    /// The tag that marks a escrow record.
    pub fn discriminator() -> (r: u8)
        ensures
            r == ESCROW_TAG,
    {
        ESCROW_TAG
    }

    /// The bytes of `r` as it is stored: its tag, then its fields in order.
    pub open spec fn encoded(r: Escrow) -> Seq<u8> {
        seq![ESCROW_TAG] + r.authority@ + le_bytes(r.bump as nat, 8) + r.last_hash@ + le_bytes(r.last_balance as nat, 8)
    }

    /// Whether `r` is what the record bytes `data` hold.
    pub open spec fn decodes_to(data: Seq<u8>, r: Escrow) -> bool {
        &&& r.authority@ == key_at(data, 1)
        &&& r.bump == u64_at(data, 33)
        &&& r.last_hash@ == key_at(data, 41)
        &&& r.last_balance == u64_at(data, 73)
    }

    /// Decodes a record: fails with InvalidAccountData unless `data` is the
    /// tag followed by exactly one record body.
    pub fn from_bytes(data: &[u8]) -> (r: Result<Escrow, ProgramError>)
        ensures
            r is Ok <==> layout_ok(data@, ESCROW_TAG, ESCROW_SIZE as nat),
            r is Err ==> r == Err::<Escrow, ProgramError>(ProgramError::InvalidAccountData),
            r matches Ok(v) ==> Self::decodes_to(data@, v),
    {
        match check_layout(data, ESCROW_TAG, ESCROW_SIZE) {
            Ok(()) => {},
            Err(e) => return Err(e),
        }
        let authority = read_key(data, 1);
        let bump = read_u64(data, 33);
        let last_hash = read_bytes32(data, 41);
        let last_balance = read_u64(data, 73);
        Ok(Escrow { authority, bump, last_hash, last_balance })
    }

    /// Encodes the record: its tag, then its fields in order.
    pub fn to_bytes(&self) -> (r: Vec<u8>)
        ensures
            r@ == Self::encoded(*self),
            r@.len() == 1 + ESCROW_SIZE,
    {
        let mut out: Vec<u8> = Vec::new();
        out.push(ESCROW_TAG);
        write_bytes32(&mut out, &self.authority.bytes);
        write_u64(&mut out, self.bump);
        write_bytes32(&mut out, &self.last_hash);
        write_u64(&mut out, self.last_balance);
        proof {
            lemma_le_bytes_len_8();
            assert(out@ =~= Self::encoded(*self));
        }
        out
    }
}

/// The tag of a stake record.
pub const STAKE_TAG: u8 = 104;

/// The size of a stake record's body.
pub const STAKE_SIZE: usize = 64;

/// A participant's staking record.
#[derive(Clone, Copy, Debug, PartialEq)]
pub struct Stake {
    /// The owner of this stake.
    pub authority: Pubkey,
    /// The canonical bump of this record's address.
    pub bump: u64,
    /// Nonzero when the stake is pooled.
    pub is_liquid: u64,
    /// Nonzero when the stake accepts deposits.
    pub is_open: u64,
    /// The staked amount.
    pub balance: u64,
}

impl Stake {
    /// The tag that marks a stake record.
    pub fn discriminator() -> (r: u8)
        ensures
            r == STAKE_TAG,
    {
        STAKE_TAG
    }

    /// The bytes of `r` as it is stored: its tag, then its fields in order.
    pub open spec fn encoded(r: Stake) -> Seq<u8> {
        seq![STAKE_TAG] + r.authority@ + le_bytes(r.bump as nat, 8) + le_bytes(r.is_liquid as nat, 8) + le_bytes(r.is_open as nat, 8) + le_bytes(r.balance as nat, 8)
    }

    /// Whether `r` is what the record bytes `data` hold.
    pub open spec fn decodes_to(data: Seq<u8>, r: Stake) -> bool {
        &&& r.authority@ == key_at(data, 1)
        &&& r.bump == u64_at(data, 33)
        &&& r.is_liquid == u64_at(data, 41)
        &&& r.is_open == u64_at(data, 49)
        &&& r.balance == u64_at(data, 57)
    }

    /// Decodes a record: fails with InvalidAccountData unless `data` is the
    /// tag followed by exactly one record body.
    pub fn from_bytes(data: &[u8]) -> (r: Result<Stake, ProgramError>)
        ensures
            r is Ok <==> layout_ok(data@, STAKE_TAG, STAKE_SIZE as nat),
            r is Err ==> r == Err::<Stake, ProgramError>(ProgramError::InvalidAccountData),
            r matches Ok(v) ==> Self::decodes_to(data@, v),
    {
        match check_layout(data, STAKE_TAG, STAKE_SIZE) {
            Ok(()) => {},
            Err(e) => return Err(e),
        }
        let authority = read_key(data, 1);
        let bump = read_u64(data, 33);
        let is_liquid = read_u64(data, 41);
        let is_open = read_u64(data, 49);
        let balance = read_u64(data, 57);
        Ok(Stake { authority, bump, is_liquid, is_open, balance })
    }

    /// Encodes the record: its tag, then its fields in order.
    pub fn to_bytes(&self) -> (r: Vec<u8>)
        ensures
            r@ == Self::encoded(*self),
            r@.len() == 1 + STAKE_SIZE,
    {
        let mut out: Vec<u8> = Vec::new();
        out.push(STAKE_TAG);
        write_bytes32(&mut out, &self.authority.bytes);
        write_u64(&mut out, self.bump);
        write_u64(&mut out, self.is_liquid);
        write_u64(&mut out, self.is_open);
        write_u64(&mut out, self.balance);
        proof {
            lemma_le_bytes_len_8();
            assert(out@ =~= Self::encoded(*self));
        }
        out
    }
}

/// The tag of a pool record.
pub const POOL_TAG: u8 = 105;

/// The size of a pool record's body.
pub const POOL_SIZE: usize = 112;

/// A liquid staking pool.
#[derive(Clone, Copy, Debug, PartialEq)]
pub struct Pool {
    /// The pool's authority.
    pub authority: Pubkey,
    /// The canonical bump of this record's address.
    pub bump: u64,
    /// The token escrow holding the pool's stake.
    pub tokens: Pubkey,
    /// The pool's proof record.
    pub proof: Pubkey,
    /// The sum of every delegate's share.
    pub total_delegated: u64,
}

impl Pool {
    /// The tag that marks a pool record.
    pub fn discriminator() -> (r: u8)
        ensures
            r == POOL_TAG,
    {
        POOL_TAG
    }

    /// The bytes of `r` as it is stored: its tag, then its fields in order.
    pub open spec fn encoded(r: Pool) -> Seq<u8> {
        seq![POOL_TAG] + r.authority@ + le_bytes(r.bump as nat, 8) + r.tokens@ + r.proof@ + le_bytes(r.total_delegated as nat, 8)
    }

    /// Whether `r` is what the record bytes `data` hold.
    pub open spec fn decodes_to(data: Seq<u8>, r: Pool) -> bool {
        &&& r.authority@ == key_at(data, 1)
        &&& r.bump == u64_at(data, 33)
        &&& r.tokens@ == key_at(data, 41)
        &&& r.proof@ == key_at(data, 73)
        &&& r.total_delegated == u64_at(data, 105)
    }

    /// Decodes a record: fails with InvalidAccountData unless `data` is the
    /// tag followed by exactly one record body.
    pub fn from_bytes(data: &[u8]) -> (r: Result<Pool, ProgramError>)
        ensures
            r is Ok <==> layout_ok(data@, POOL_TAG, POOL_SIZE as nat),
            r is Err ==> r == Err::<Pool, ProgramError>(ProgramError::InvalidAccountData),
            r matches Ok(v) ==> Self::decodes_to(data@, v),
    {
        match check_layout(data, POOL_TAG, POOL_SIZE) {
            Ok(()) => {},
            Err(e) => return Err(e),
        }
        let authority = read_key(data, 1);
        let bump = read_u64(data, 33);
        let tokens = read_key(data, 41);
        let proof = read_key(data, 73);
        let total_delegated = read_u64(data, 105);
        Ok(Pool { authority, bump, tokens, proof, total_delegated })
    }

    /// Encodes the record: its tag, then its fields in order.
    pub fn to_bytes(&self) -> (r: Vec<u8>)
        ensures
            r@ == Self::encoded(*self),
            r@.len() == 1 + POOL_SIZE,
    {
        let mut out: Vec<u8> = Vec::new();
        out.push(POOL_TAG);
        write_bytes32(&mut out, &self.authority.bytes);
        write_u64(&mut out, self.bump);
        write_bytes32(&mut out, &self.tokens.bytes);
        write_bytes32(&mut out, &self.proof.bytes);
        write_u64(&mut out, self.total_delegated);
        proof {
            lemma_le_bytes_len_8();
            assert(out@ =~= Self::encoded(*self));
        }
        out
    }
}

/// The tag of a delegate record.
pub const DELEGATE_TAG: u8 = 106;

/// The size of a delegate record's body.
pub const DELEGATE_SIZE: usize = 72;

/// A delegate's share of a pool.
#[derive(Clone, Copy, Debug, PartialEq)]
pub struct Delegate {
    /// The owner of this share.
    pub authority: Pubkey,
    /// The pool this share belongs to.
    pub pool: Pubkey,
    /// The delegated amount.
    pub balance: u64,
}

impl Delegate {
    /// The tag that marks a delegate record.
    pub fn discriminator() -> (r: u8)
        ensures
            r == DELEGATE_TAG,
    {
        DELEGATE_TAG
    }

    /// The bytes of `r` as it is stored: its tag, then its fields in order.
    pub open spec fn encoded(r: Delegate) -> Seq<u8> {
        seq![DELEGATE_TAG] + r.authority@ + r.pool@ + le_bytes(r.balance as nat, 8)
    }

    /// Whether `r` is what the record bytes `data` hold.
    pub open spec fn decodes_to(data: Seq<u8>, r: Delegate) -> bool {
        &&& r.authority@ == key_at(data, 1)
        &&& r.pool@ == key_at(data, 33)
        &&& r.balance == u64_at(data, 65)
    }

    /// Decodes a record: fails with InvalidAccountData unless `data` is the
    /// tag followed by exactly one record body.
    pub fn from_bytes(data: &[u8]) -> (r: Result<Delegate, ProgramError>)
        ensures
            r is Ok <==> layout_ok(data@, DELEGATE_TAG, DELEGATE_SIZE as nat),
            r is Err ==> r == Err::<Delegate, ProgramError>(ProgramError::InvalidAccountData),
            r matches Ok(v) ==> Self::decodes_to(data@, v),
    {
        match check_layout(data, DELEGATE_TAG, DELEGATE_SIZE) {
            Ok(()) => {},
            Err(e) => return Err(e),
        }
        let authority = read_key(data, 1);
        let pool = read_key(data, 33);
        let balance = read_u64(data, 65);
        Ok(Delegate { authority, pool, balance })
    }

    /// Encodes the record: its tag, then its fields in order.
    pub fn to_bytes(&self) -> (r: Vec<u8>)
        ensures
            r@ == Self::encoded(*self),
            r@.len() == 1 + DELEGATE_SIZE,
    {
        let mut out: Vec<u8> = Vec::new();
        out.push(DELEGATE_TAG);
        write_bytes32(&mut out, &self.authority.bytes);
        write_bytes32(&mut out, &self.pool.bytes);
        write_u64(&mut out, self.balance);
        proof {
            lemma_le_bytes_len_8();
            assert(out@ =~= Self::encoded(*self));
        }
        out
    }
}

/// The tag of a relayer record.
pub const RELAYER_TAG: u8 = 107;

/// The size of a relayer record's body.
pub const RELAYER_SIZE: usize = 40;

/// A relay operator's record.
#[derive(Clone, Copy, Debug, PartialEq)]
pub struct Relayer {
    /// The signer authorized to use this relayer.
    pub authority: Pubkey,
    /// The canonical bump of this record's address.
    pub bump: u64,
}

impl Relayer {
    /// The tag that marks a relayer record.
    pub fn discriminator() -> (r: u8)
        ensures
            r == RELAYER_TAG,
    {
        RELAYER_TAG
    }

    /// The bytes of `r` as it is stored: its tag, then its fields in order.
    pub open spec fn encoded(r: Relayer) -> Seq<u8> {
        seq![RELAYER_TAG] + r.authority@ + le_bytes(r.bump as nat, 8)
    }

    /// Whether `r` is what the record bytes `data` hold.
    pub open spec fn decodes_to(data: Seq<u8>, r: Relayer) -> bool {
        &&& r.authority@ == key_at(data, 1)
        &&& r.bump == u64_at(data, 33)
    }

    /// Decodes a record: fails with InvalidAccountData unless `data` is the
    /// tag followed by exactly one record body.
    pub fn from_bytes(data: &[u8]) -> (r: Result<Relayer, ProgramError>)
        ensures
            r is Ok <==> layout_ok(data@, RELAYER_TAG, RELAYER_SIZE as nat),
            r is Err ==> r == Err::<Relayer, ProgramError>(ProgramError::InvalidAccountData),
            r matches Ok(v) ==> Self::decodes_to(data@, v),
    {
        match check_layout(data, RELAYER_TAG, RELAYER_SIZE) {
            Ok(()) => {},
            Err(e) => return Err(e),
        }
        let authority = read_key(data, 1);
        let bump = read_u64(data, 33);
        Ok(Relayer { authority, bump })
    }

    /// Encodes the record: its tag, then its fields in order.
    pub fn to_bytes(&self) -> (r: Vec<u8>)
        ensures
            r@ == Self::encoded(*self),
            r@.len() == 1 + RELAYER_SIZE,
    {
        let mut out: Vec<u8> = Vec::new();
        out.push(RELAYER_TAG);
        write_bytes32(&mut out, &self.authority.bytes);
        write_u64(&mut out, self.bump);
        proof {
            lemma_le_bytes_len_8();
            assert(out@ =~= Self::encoded(*self));
        }
        out
    }
}

impl Default for Escrow {
    /// The escrow with every field zero.
    fn default() -> (r: Escrow)
        ensures
            r.authority@ == Seq::new(32, |i: int| 0u8),
            r.bump == 0,
            r.last_hash@ == Seq::new(32, |i: int| 0u8),
            r.last_balance == 0,
    {
        let r = Escrow {
            authority: Pubkey::new_from_array([0u8; 32]),
            bump: 0,
            last_hash: [0u8; 32],
            last_balance: 0,
        };
        assert(r.authority@ =~= Seq::new(32, |i: int| 0u8));
        assert(r.last_hash@ =~= Seq::new(32, |i: int| 0u8));
        r
    }
}

} // verus!
