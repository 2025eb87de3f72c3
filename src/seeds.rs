use vstd::prelude::*;

use crate::emission::BUS_COUNT;
use crate::pda::{find_program_address, program_address, seeds1, seeds2, Pubkey};

verus! {

/// The seed of the bus records: `bus`.
pub open spec fn bus_seed_spec() -> Seq<u8> {
    seq![98u8, 117, 115]
}

/// The seed of the bus records.
pub fn bus_seed() -> (r: Vec<u8>)
    ensures
        r@ == bus_seed_spec(),
{
    let r: Vec<u8> = vec![98, 117, 115];
    assert(r@ =~= bus_seed_spec());
    r
}

/// The seed of the config record: `config`.
pub open spec fn config_seed_spec() -> Seq<u8> {
    seq![99u8, 111, 110, 102, 105, 103]
}

/// The seed of the config record.
pub fn config_seed() -> (r: Vec<u8>)
    ensures
        r@ == config_seed_spec(),
{
    let r: Vec<u8> = vec![99, 111, 110, 102, 105, 103];
    assert(r@ =~= config_seed_spec());
    r
}

/// The seed of proof records: `proof`.
pub open spec fn proof_seed_spec() -> Seq<u8> {
    seq![112u8, 114, 111, 111, 102]
}

/// The seed of proof records.
pub fn proof_seed() -> (r: Vec<u8>)
    ensures
        r@ == proof_seed_spec(),
{
    let r: Vec<u8> = vec![112, 114, 111, 111, 102];
    assert(r@ =~= proof_seed_spec());
    r
}

/// The seed of stake records: `stake`.
pub open spec fn stake_seed_spec() -> Seq<u8> {
    seq![115u8, 116, 97, 107, 101]
}

/// The seed of stake records.
pub fn stake_seed() -> (r: Vec<u8>)
    ensures
        r@ == stake_seed_spec(),
{
    let r: Vec<u8> = vec![115, 116, 97, 107, 101];
    assert(r@ =~= stake_seed_spec());
    r
}

/// The seed of pool records: `pool`.
pub open spec fn pool_seed_spec() -> Seq<u8> {
    seq![112u8, 111, 111, 108]
}

/// The seed of pool records.
pub fn pool_seed() -> (r: Vec<u8>)
    ensures
        r@ == pool_seed_spec(),
{
    let r: Vec<u8> = vec![112, 111, 111, 108];
    assert(r@ =~= pool_seed_spec());
    r
}

/// The seed of relay escrow records: `escrow`.
pub open spec fn escrow_seed_spec() -> Seq<u8> {
    seq![101u8, 115, 99, 114, 111, 119]
}

/// The seed of relay escrow records.
pub fn escrow_seed() -> (r: Vec<u8>)
    ensures
        r@ == escrow_seed_spec(),
{
    let r: Vec<u8> = vec![101, 115, 99, 114, 111, 119];
    assert(r@ =~= escrow_seed_spec());
    r
}

/// The seed of relayer records: `relayer`.
pub open spec fn relayer_seed_spec() -> Seq<u8> {
    seq![114u8, 101, 108, 97, 121, 101, 114]
}

/// The seed of relayer records.
pub fn relayer_seed() -> (r: Vec<u8>)
    ensures
        r@ == relayer_seed_spec(),
{
    let r: Vec<u8> = vec![114, 101, 108, 97, 121, 101, 114];
    assert(r@ =~= relayer_seed_spec());
    r
}

/// The seed of pool share mints: `mint`.
pub open spec fn mint_seed_spec() -> Seq<u8> {
    seq![109u8, 105, 110, 116]
}

/// The seed of pool share mints.
pub fn mint_seed() -> (r: Vec<u8>)
    ensures
        r@ == mint_seed_spec(),
{
    let r: Vec<u8> = vec![109, 105, 110, 116];
    assert(r@ =~= mint_seed_spec());
    r
}

/// The seed of delegate records: `delegate`.
pub open spec fn delegate_seed_spec() -> Seq<u8> {
    seq![100u8, 101, 108, 101, 103, 97, 116, 101]
}

/// The seed of delegate records.
pub fn delegate_seed() -> (r: Vec<u8>)
    ensures
        r@ == delegate_seed_spec(),
{
    let r: Vec<u8> = vec![100, 101, 108, 101, 103, 97, 116, 101];
    assert(r@ =~= delegate_seed_spec());
    r
}

/// The seed of the treasury record: `treasury`.
pub open spec fn treasury_seed_spec() -> Seq<u8> {
    seq![116u8, 114, 101, 97, 115, 117, 114, 121]
}

/// The seed of the treasury record.
pub fn treasury_seed() -> (r: Vec<u8>)
    ensures
        r@ == treasury_seed_spec(),
{
    let r: Vec<u8> = vec![116, 114, 101, 97, 115, 117, 114, 121];
    assert(r@ =~= treasury_seed_spec());
    r
}

/// The noise that, with the mint seed, derives the token mint.
pub open spec fn mint_noise_spec() -> Seq<u8> {
    seq![166u8, 199, 85, 221, 225, 119, 21, 185, 160, 82, 242, 237, 194, 84, 250, 252]
}

/// The noise that, with the mint seed, derives the token mint.
pub fn mint_noise() -> (r: Vec<u8>)
    ensures
        r@ == mint_noise_spec(),
{
    let r: Vec<u8> = vec![166, 199, 85, 221, 225, 119, 21, 185, 160, 82, 242, 237, 194, 84, 250, 252];
    assert(r@ =~= mint_noise_spec());
    r
}

/// The address and canonical bump of the token mint under `program`.
pub fn mint_address(program: &Pubkey) -> (r: (Pubkey, u8))
    ensures
        (r.0@, r.1) == program_address(seq![mint_seed_spec(), mint_noise_spec()], program@),
{
    find_program_address(&seeds2(mint_seed(), mint_noise()), program)
}

/// The address and canonical bump of the treasury under `program`.
pub fn treasury_address(program: &Pubkey) -> (r: (Pubkey, u8))
    ensures
        (r.0@, r.1) == program_address(seq![treasury_seed_spec()], program@),
{
    find_program_address(&seeds1(treasury_seed()), program)
}

/// The address and canonical bump of bus `i` under `program`.
pub fn bus_address(i: u8, program: &Pubkey) -> (r: (Pubkey, u8))
    ensures
        (r.0@, r.1) == program_address(seq![bus_seed_spec(), seq![i]], program@),
{
    let index: Vec<u8> = vec![i];
    assert(index@ =~= seq![i]);
    find_program_address(&seeds2(bus_seed(), index), program)
}

/// The addresses of every bus under `program`, in order.
pub fn bus_addresses(program: &Pubkey) -> (r: Vec<Pubkey>)
    ensures
        r@.len() == BUS_COUNT,
        forall|i: int|
            0 <= i < BUS_COUNT ==> (#[trigger] r@[i])@ == program_address(
                seq![bus_seed_spec(), seq![i as u8]],
                program@,
            ).0,
{
    let mut r: Vec<Pubkey> = Vec::new();
    let mut i: usize = 0;
    while i < BUS_COUNT
        invariant
            i <= BUS_COUNT,
            r@.len() == i,
            forall|j: int|
                0 <= j < i ==> (#[trigger] r@[j])@ == program_address(
                    seq![bus_seed_spec(), seq![j as u8]],
                    program@,
                ).0,
        decreases BUS_COUNT - i,
    {
        let (address, _) = bus_address(i as u8, program);
        r.push(address);
        i = i + 1;
    }
    r
}

/// The address and canonical bump of the config record under `program`.
pub fn config_address(program: &Pubkey) -> (r: (Pubkey, u8))
    ensures
        (r.0@, r.1) == program_address(seq![config_seed_spec()], program@),
{
    find_program_address(&seeds1(config_seed()), program)
}

} // verus!
