use ore_ledger::accounting::{
    credit_proof, debit_proof, delegate_stake, pro_rata_yield, withdraw_stake,
};
use ore_ledger::emission::{
    calculate_new_min_difficulty, calculate_new_reward_rate, claim, reset_epoch,
    BUS_EPOCH_REWARDS, MAX_EPOCH_REWARDS, MIN_DIFFICULTY, SMOOTHING_FACTOR,
};
use ore_ledger::error::ProgramError;
use ore_ledger::instruction::{
    initialize, DelegateArgs, InitializeArgs, StakeInstruction, WithdrawArgs,
};
use ore_ledger::loaders::{
    load_mint, load_program, load_signer, load_system_account, load_sysvar,
    load_uninitialized_pda, load_writable, AccountInfo, ProgramIds, MINT_LEN,
};
use ore_ledger::pda::{find_program_address, Pubkey};
use ore_ledger::processor::{
    process_collect_commission, process_delegate, process_initialize, process_open_relayer,
    process_withdraw, Invocation,
};
use ore_ledger::relay::collect_commission;
use ore_ledger::seeds::{bus_addresses, config_address, proof_seed, relayer_seed, stake_seed};
use ore_ledger::state::{
    Bus, Config, Delegate, Escrow, Pool, Proof, Relayer, Stake, BUS_SIZE, CONFIG_SIZE,
    DELEGATE_SIZE, ESCROW_SIZE, ESCROW_TAG, POOL_SIZE, PROOF_SIZE, RELAYER_SIZE, STAKE_SIZE,
    STAKE_TAG,
};

fn key(b: u8) -> Pubkey {
    Pubkey::new_from_array([b; 32])
}

fn ids() -> ProgramIds {
    ProgramIds {
        ore: key(1),
        stake: key(2),
        pool: key(3),
        relay: key(4),
        token: key(5),
        associated_token: key(6),
        slot_hashes: key(7),
        rent: key(8),
        mint: key(9),
    }
}

fn account(k: Pubkey, owner: Pubkey) -> AccountInfo {
    AccountInfo {
        key: k,
        owner,
        lamports: 0,
        data: vec![],
        is_signer: false,
        is_writable: true,
        executable: false,
    }
}

fn program(k: Pubkey) -> AccountInfo {
    AccountInfo { executable: true, is_writable: false, ..account(k, Pubkey::zeroed()) }
}

fn seeds(a: Vec<u8>, b: &Pubkey) -> Vec<Vec<u8>> {
    vec![a, b.bytes.to_vec()]
}

fn full_buses() -> Vec<Bus> {
    (0..8).map(|i| Bus { id: i, remaining: BUS_EPOCH_REWARDS, accumulated: 0 }).collect()
}

fn config(rate: u64) -> Config {
    Config { base_reward_rate: rate, last_reset_at: 0, min_difficulty: 20, total_rewards: 0 }
}

#[test]
fn claim_grants_at_most_the_remaining_budget() {
    let mut bus = Bus { id: 3, remaining: 100, accumulated: 0 };
    assert_eq!(claim(&mut bus, 150), Ok(100));
    assert_eq!(bus, Bus { id: 3, remaining: 0, accumulated: 100 });
    assert_eq!(claim(&mut bus, 5), Ok(0));
    assert_eq!(bus.accumulated, 100);
}

#[test]
fn claim_grants_the_full_amount_when_budget_allows() {
    let mut bus = Bus { id: 0, remaining: 1000, accumulated: 7 };
    assert_eq!(claim(&mut bus, 400), Ok(400));
    assert_eq!(bus, Bus { id: 0, remaining: 600, accumulated: 407 });
}

#[test]
fn claim_overflow_changes_nothing() {
    let mut bus = Bus { id: 0, remaining: 10, accumulated: u64::MAX - 5 };
    assert_eq!(claim(&mut bus, 10), Err(ProgramError::ArithmeticOverflow));
    assert_eq!(bus, Bus { id: 0, remaining: 10, accumulated: u64::MAX - 5 });
}

#[test]
fn reset_refills_every_bus_to_the_epoch_maximum() {
    let mut buses = full_buses();
    for (i, b) in buses.iter_mut().enumerate() {
        assert!(claim(b, 1_000 * (i as u64 + 1)).is_ok());
    }
    let mut cfg = config(1000);
    assert_eq!(reset_epoch(&mut cfg, &mut buses, 60), Ok(true));
    let total: u64 = buses.iter().map(|b| b.remaining).sum();
    assert_eq!(total, MAX_EPOCH_REWARDS);
    assert_eq!(MAX_EPOCH_REWARDS % 8, 0);
    assert!(buses.iter().all(|b| b.accumulated == 0 && b.remaining == BUS_EPOCH_REWARDS));
    assert_eq!(buses.iter().map(|b| b.id).collect::<Vec<_>>(), (0..8).collect::<Vec<u64>>());
    assert_eq!(cfg.last_reset_at, 60);
    assert_eq!(cfg.total_rewards, 36_000);
}

#[test]
fn reset_not_due_changes_nothing() {
    let mut buses = full_buses();
    assert!(claim(&mut buses[0], 5).is_ok());
    let mut cfg = config(1000);
    cfg.last_reset_at = 100;
    assert_eq!(reset_epoch(&mut cfg, &mut buses, 159), Ok(false));
    assert_eq!(cfg, {
        let mut c = config(1000);
        c.last_reset_at = 100;
        c
    });
    assert_eq!(buses[0].accumulated, 5);
}

#[test]
fn reset_rate_stays_within_smoothing_bounds() {
    // Little issued: the rate rises, but at most by the smoothing factor.
    let mut buses = full_buses();
    assert!(claim(&mut buses[0], 1).is_ok());
    let mut cfg = config(1000);
    assert_eq!(reset_epoch(&mut cfg, &mut buses, 60), Ok(true));
    assert_eq!(cfg.base_reward_rate, 1000 * SMOOTHING_FACTOR);
    // Everything issued: the rate falls, but at most by the smoothing factor.
    for b in buses.iter_mut() {
        assert!(claim(b, BUS_EPOCH_REWARDS).is_ok());
    }
    assert_eq!(reset_epoch(&mut cfg, &mut buses, 120), Ok(true));
    assert_eq!(cfg.base_reward_rate, 1000);
    assert!(cfg.base_reward_rate >= 2000 / SMOOTHING_FACTOR);
}

#[test]
fn reset_overflowing_rate_changes_nothing() {
    let mut buses = full_buses();
    let mut cfg = config(u64::MAX);
    assert_eq!(reset_epoch(&mut cfg, &mut buses, 60), Err(ProgramError::ArithmeticOverflow));
    assert_eq!(cfg, config(u64::MAX));
    assert_eq!(buses, full_buses());
}

#[test]
fn new_reward_rate_exact_values() {
    // Exactly the target issued: the rate holds.
    assert_eq!(calculate_new_reward_rate(1000, 100_000_000_000), 1000);
    // Half the target issued: the rate doubles.
    assert_eq!(calculate_new_reward_rate(1000, 50_000_000_000), 2000);
    // A quarter: clamped to double.
    assert_eq!(calculate_new_reward_rate(1000, 25_000_000_000), 2000);
    // 1.25 times the target: scaled down to 800.
    assert_eq!(calculate_new_reward_rate(1000, 125_000_000_000), 800);
    // Nothing issued: the largest step up.
    assert_eq!(calculate_new_reward_rate(7, 0), 14);
    // Far above target: clamped to half.
    assert_eq!(calculate_new_reward_rate(1000, 1_600_000_000_000), 500);
}

#[test]
fn new_min_difficulty_steps_by_one() {
    assert_eq!(calculate_new_min_difficulty(20, 150_000_000_000), Ok(21));
    assert_eq!(calculate_new_min_difficulty(20, 50_000_000_000), Ok(19));
    assert_eq!(calculate_new_min_difficulty(MIN_DIFFICULTY, 0), Ok(MIN_DIFFICULTY));
    assert_eq!(calculate_new_min_difficulty(20, 100_000_000_000), Ok(20));
    assert_eq!(
        calculate_new_min_difficulty(u64::MAX, 150_000_000_000),
        Err(ProgramError::ArithmeticOverflow)
    );
}

#[test]
fn derivation_is_deterministic() {
    let program = key(42);
    let a = find_program_address(&seeds(stake_seed(), &key(11)), &program);
    let b = find_program_address(&seeds(stake_seed(), &key(11)), &program);
    assert_eq!(a.0.bytes, b.0.bytes);
    assert_eq!(a.1, b.1);
    let c = find_program_address(&seeds(stake_seed(), &key(12)), &program);
    assert_ne!(a.0.bytes, c.0.bytes);
    assert_ne!(a.0.bytes, program.bytes);
}

#[test]
fn bus_addresses_are_distinct_and_match_config_derivation() {
    let program = key(1);
    let buses = bus_addresses(&program);
    assert_eq!(buses.len(), 8);
    for i in 0..8 {
        for j in (i + 1)..8 {
            assert_ne!(buses[i].bytes, buses[j].bytes);
        }
    }
    let (cfg, _) = config_address(&program);
    assert!(buses.iter().all(|b| b.bytes != cfg.bytes));
}

#[test]
fn uninitialized_pda_accepts_only_canonical_bump() {
    let program = key(2);
    let s = seeds(stake_seed(), &key(11));
    let (address, bump) = find_program_address(&s, &program);
    let info = account(address, Pubkey::zeroed());
    assert_eq!(load_uninitialized_pda(&info, &s, bump, &program), Ok(()));
    assert_eq!(
        load_uninitialized_pda(&info, &s, bump.wrapping_sub(1), &program),
        Err(ProgramError::InvalidSeeds)
    );
    let elsewhere = account(key(77), Pubkey::zeroed());
    assert_eq!(
        load_uninitialized_pda(&elsewhere, &s, bump, &program),
        Err(ProgramError::InvalidSeeds)
    );
    let filled = AccountInfo { data: vec![1], ..account(address, Pubkey::zeroed()) };
    assert_eq!(
        load_uninitialized_pda(&filled, &s, bump, &program),
        Err(ProgramError::AlreadyInitialized)
    );
}

#[test]
fn single_property_checks_report_their_error() {
    let mut info = account(key(3), key(9));
    assert_eq!(load_signer(&info), Err(ProgramError::NotSigner));
    info.is_signer = true;
    assert_eq!(load_signer(&info), Ok(()));
    info.is_writable = false;
    assert_eq!(load_writable(&info), Err(ProgramError::NotWritable));
    assert_eq!(load_system_account(&info, false), Err(ProgramError::InvalidOwner));
    info.owner = Pubkey::zeroed();
    assert_eq!(load_system_account(&info, false), Ok(()));
    assert_eq!(load_system_account(&info, true), Err(ProgramError::NotWritable));
    assert_eq!(load_program(&info, &key(3)), Err(ProgramError::InvalidProgram));
    assert_eq!(load_program(&program(key(3)), &key(3)), Ok(()));
    assert_eq!(load_sysvar(&info, &key(4)), Err(ProgramError::InvalidSysvar));
    assert_eq!(load_sysvar(&info, &key(3)), Ok(()));
}

#[test]
fn mint_check_requires_owner_address_and_initialized_layout() {
    let ids = ids();
    let mut data = vec![0u8; MINT_LEN];
    data[45] = 1;
    let mint = AccountInfo { data: data.clone(), ..account(ids.mint, ids.token) };
    assert_eq!(load_mint(&mint, &ids.mint, &ids.token, false), Ok(()));
    let foreign = AccountInfo { data: data.clone(), ..account(ids.mint, key(50)) };
    assert_eq!(load_mint(&foreign, &ids.mint, &ids.token, false), Err(ProgramError::InvalidOwner));
    let other = AccountInfo { data: data.clone(), ..account(key(51), ids.token) };
    assert_eq!(load_mint(&other, &ids.mint, &ids.token, false), Err(ProgramError::InvalidMint));
    let empty = account(ids.mint, ids.token);
    assert_eq!(load_mint(&empty, &ids.mint, &ids.token, false), Err(ProgramError::InvalidMint));
}

#[test]
fn decoding_rejects_wrong_length_or_tag_for_every_record() {
    fn check<T>(size: usize, tag: u8, decode: fn(&[u8]) -> Result<T, ProgramError>) {
        let mut good = vec![0u8; size + 1];
        good[0] = tag;
        assert!(decode(&good).is_ok());
        let mut wrong_tag = good.clone();
        wrong_tag[0] = tag.wrapping_add(1);
        assert!(matches!(decode(&wrong_tag), Err(ProgramError::InvalidAccountData)));
        assert!(matches!(decode(&good[..size]), Err(ProgramError::InvalidAccountData)));
        let mut long = good.clone();
        long.push(0);
        assert!(matches!(decode(&long), Err(ProgramError::InvalidAccountData)));
        assert!(matches!(decode(&[]), Err(ProgramError::InvalidAccountData)));
    }
    check(BUS_SIZE, Bus::discriminator(), Bus::from_bytes);
    check(CONFIG_SIZE, Config::discriminator(), Config::from_bytes);
    check(PROOF_SIZE, Proof::discriminator(), Proof::from_bytes);
    check(ESCROW_SIZE, Escrow::discriminator(), Escrow::from_bytes);
    check(STAKE_SIZE, Stake::discriminator(), Stake::from_bytes);
    check(POOL_SIZE, Pool::discriminator(), Pool::from_bytes);
    check(DELEGATE_SIZE, Delegate::discriminator(), Delegate::from_bytes);
    check(RELAYER_SIZE, Relayer::discriminator(), Relayer::from_bytes);
}

#[test]
fn escrow_encoding_round_trips() {
    let e = Escrow { authority: key(5), bump: 254, last_hash: [9; 32], last_balance: 0x0102030405060708 };
    let bytes = e.to_bytes();
    assert_eq!(bytes.len(), 1 + ESCROW_SIZE);
    assert_eq!(bytes[0], ESCROW_TAG);
    assert_eq!(&bytes[33..41], &[254, 0, 0, 0, 0, 0, 0, 0]);
    assert_eq!(&bytes[73..81], &[8, 7, 6, 5, 4, 3, 2, 1]);
    let d = Escrow::from_bytes(&bytes).unwrap();
    assert_eq!(d, e);
}

#[test]
fn config_encoding_keeps_negative_timestamps() {
    let c = Config { base_reward_rate: 3, last_reset_at: -60, min_difficulty: 12, total_rewards: 9 };
    assert_eq!(Config::from_bytes(&c.to_bytes()), Ok(c));
}

#[test]
fn escrow_default_is_all_zero() {
    let e = Escrow::default();
    assert_eq!(e.to_bytes()[1..], [0u8; ESCROW_SIZE]);
}

fn proof_with(balance: u64, hash: u8) -> Proof {
    Proof { authority: key(1), balance, last_hash: [hash; 32], last_hash_at: 0, multiplier: 1 }
}

#[test]
fn commission_is_truncated_share_of_growth() {
    let mut escrow = Escrow { authority: key(2), bump: 1, last_hash: [0; 32], last_balance: 1_000_000 };
    let proof = proof_with(1_100_000, 7);
    assert_eq!(collect_commission(&mut escrow, &proof), Ok(10));
    assert_eq!(escrow.last_balance, 1_100_000);
    assert_eq!(escrow.last_hash, [7; 32]);
}

#[test]
fn commission_twice_on_same_hash_pays_nothing() {
    let mut escrow = Escrow { authority: key(2), bump: 1, last_hash: [0; 32], last_balance: 0 };
    let proof = proof_with(123_456, 3);
    assert_eq!(collect_commission(&mut escrow, &proof), Ok(12));
    let after_first = escrow;
    assert_eq!(collect_commission(&mut escrow, &proof), Ok(0));
    assert_eq!(escrow, after_first);
}

#[test]
fn commission_on_shrunken_balance_underflows() {
    let mut escrow = Escrow { authority: key(2), bump: 1, last_hash: [0; 32], last_balance: 50 };
    let before = escrow;
    assert_eq!(collect_commission(&mut escrow, &proof_with(40, 1)), Err(ProgramError::ArithmeticUnderflow));
    assert_eq!(escrow, before);
}

fn pool(total: u64) -> Pool {
    Pool { authority: key(1), bump: 255, tokens: key(2), proof: key(3), total_delegated: total }
}

fn delegate(balance: u64) -> Delegate {
    Delegate { authority: key(4), pool: key(5), balance }
}

#[test]
fn withdraw_above_share_fails_and_keeps_totals() {
    let mut p = pool(1_000);
    let mut d = delegate(100);
    assert_eq!(withdraw_stake(&mut p, &mut d, 101), Err(ProgramError::InsufficientFunds));
    assert_eq!(p, pool(1_000));
    assert_eq!(d, delegate(100));
}

#[test]
fn delegate_then_withdraw_moves_amounts() {
    let mut p = pool(1_000);
    let mut d = delegate(100);
    assert_eq!(delegate_stake(&mut p, &mut d, 50), Ok(()));
    assert_eq!((p.total_delegated, d.balance), (1_050, 150));
    assert_eq!(withdraw_stake(&mut p, &mut d, 150), Ok(()));
    assert_eq!((p.total_delegated, d.balance), (900, 0));
    let mut full = pool(u64::MAX);
    assert_eq!(delegate_stake(&mut full, &mut d, 1), Err(ProgramError::ArithmeticOverflow));
    assert_eq!(full, pool(u64::MAX));
    let mut thin = pool(10);
    let mut rich = delegate(20);
    assert_eq!(withdraw_stake(&mut thin, &mut rich, 15), Err(ProgramError::ArithmeticUnderflow));
}

#[test]
fn proof_credit_and_debit() {
    let mut p = proof_with(10, 0);
    assert_eq!(credit_proof(&mut p, 5, [8; 32], 77), Ok(()));
    assert_eq!((p.balance, p.last_hash, p.last_hash_at), (15, [8; 32], 77));
    assert_eq!(debit_proof(&mut p, 16), Err(ProgramError::InsufficientFunds));
    assert_eq!(p.balance, 15);
    assert_eq!(debit_proof(&mut p, 15), Ok(()));
    assert_eq!(p.balance, 0);
    let mut big = proof_with(u64::MAX, 0);
    assert_eq!(credit_proof(&mut big, 1, [1; 32], 1), Err(ProgramError::ArithmeticOverflow));
}

#[test]
fn instruction_opcodes_and_arguments() {
    assert_eq!(StakeInstruction::Initialize.to_vec(), vec![0]);
    assert_eq!(StakeInstruction::Delegate.to_vec(), vec![2]);
    assert_eq!(StakeInstruction::Withdraw.to_vec(), vec![3]);
    assert_eq!(StakeInstruction::try_from_opcode(2), Some(StakeInstruction::Delegate));
    assert_eq!(StakeInstruction::try_from_opcode(1), None);
    let args = InitializeArgs { mint_bump: 1, pool_bump: 2, proof_bump: 3 };
    assert_eq!(InitializeArgs::try_from_bytes(&args.to_bytes()), Ok(args));
    assert_eq!(InitializeArgs::try_from_bytes(&[1, 2]), Err(ProgramError::InvalidInstructionData));
    let d = DelegateArgs { amount: 258 };
    assert_eq!(d.to_bytes(), vec![2, 1, 0, 0, 0, 0, 0, 0]);
    assert_eq!(DelegateArgs::try_from_bytes(&d.to_bytes()), Ok(d));
    let w = WithdrawArgs { amount: u64::MAX };
    assert_eq!(WithdrawArgs::try_from_bytes(&w.to_bytes()), Ok(w));
    assert_eq!(WithdrawArgs::try_from_bytes(&[0; 7]), Err(ProgramError::InvalidInstructionData));
}

#[test]
fn initialize_builds_request_with_derived_records() {
    let ids = ids();
    let ix = initialize(key(20), key(21), &ids);
    assert_eq!(ix.program_id.bytes, ids.pool.bytes);
    assert_eq!(ix.accounts.len(), 12);
    let (pool_pda, pool_bump) = find_program_address(&seeds(b"pool".to_vec(), &key(20)), &ids.pool);
    let (proof_pda, proof_bump) = find_program_address(&seeds(proof_seed(), &pool_pda), &ids.ore);
    let (mint_pda, mint_bump) = find_program_address(&seeds(b"mint".to_vec(), &pool_pda), &ids.pool);
    assert_eq!(ix.data, vec![0, mint_bump, pool_bump, proof_bump]);
    assert_eq!(ix.accounts[4].pubkey.bytes, pool_pda.bytes);
    assert_eq!(ix.accounts[6].pubkey.bytes, proof_pda.bytes);
    assert_eq!(ix.accounts[2].pubkey.bytes, mint_pda.bytes);
    assert!(ix.accounts[0].is_signer && ix.accounts[0].is_writable);
    assert!(!ix.accounts[1].is_signer && !ix.accounts[1].is_writable);
    assert_eq!(ix.accounts[7].pubkey.bytes, [0; 32]);
}

fn stake_accounts(ids: &ProgramIds, signer: Pubkey, bump_shift: u8) -> (Vec<AccountInfo>, Vec<u8>) {
    let (stake_pda, stake_bump) = find_program_address(&seeds(stake_seed(), &signer), &ids.stake);
    let (proof_pda, proof_bump) = find_program_address(&seeds(proof_seed(), &stake_pda), &ids.ore);
    let mut mint_data = vec![0u8; MINT_LEN];
    mint_data[45] = 1;
    let accounts = vec![
        AccountInfo { is_signer: true, ..account(signer, Pubkey::zeroed()) },
        account(key(30), Pubkey::zeroed()),
        AccountInfo { data: mint_data, ..account(ids.mint, ids.token) },
        account(proof_pda, Pubkey::zeroed()),
        account(stake_pda, Pubkey::zeroed()),
        account(key(31), Pubkey::zeroed()),
        program(Pubkey::zeroed()),
        program(ids.token),
        program(ids.associated_token),
        account(ids.slot_hashes, key(32)),
    ];
    (accounts, vec![stake_bump.wrapping_sub(bump_shift), proof_bump])
}

#[test]
fn initialize_stake_with_canonical_bump_creates_empty_record() {
    let ids = ids();
    let signer = key(20);
    let (mut accounts, data) = stake_accounts(&ids, signer, 0);
    let calls = process_initialize(&mut accounts, &data, &ids).unwrap();
    let stake = Stake::from_bytes(&accounts[4].data).unwrap();
    assert_eq!(accounts[4].data[0], STAKE_TAG);
    assert_eq!(stake.authority.bytes, signer.bytes);
    assert_eq!(stake.bump, data[0] as u64);
    assert_eq!((stake.balance, stake.is_liquid, stake.is_open), (0, 0, 0));
    assert_eq!(accounts[4].owner.bytes, ids.stake.bytes);
    assert_eq!(calls.len(), 3);
    assert!(matches!(calls[0], Invocation::CreateAccount { space, .. } if space == 1 + STAKE_SIZE as u64));
    assert!(matches!(calls[2], Invocation::OpenProof { .. }));
}

#[test]
fn initialize_stake_with_off_by_one_bump_fails() {
    let ids = ids();
    let (mut accounts, data) = stake_accounts(&ids, key(20), 1);
    assert_eq!(process_initialize(&mut accounts, &data, &ids), Err(ProgramError::InvalidSeeds));
    assert!(accounts[4].data.is_empty());
}

#[test]
fn initialize_stake_rejects_short_input() {
    let ids = ids();
    let (mut accounts, data) = stake_accounts(&ids, key(20), 0);
    assert_eq!(process_initialize(&mut accounts, &data[..1], &ids), Err(ProgramError::InvalidInstructionData));
    accounts.pop();
    assert_eq!(process_initialize(&mut accounts, &data, &ids), Err(ProgramError::NotEnoughAccountKeys));
    let (mut unsigned, data) = stake_accounts(&ids, key(20), 0);
    unsigned[0].is_signer = false;
    assert_eq!(process_initialize(&mut unsigned, &data, &ids), Err(ProgramError::NotSigner));
}

#[test]
fn open_relayer_writes_record() {
    let ids = ids();
    let signer = key(40);
    let (pda, bump) = find_program_address(&seeds(relayer_seed(), &signer), &ids.relay);
    let mut accounts = vec![
        AccountInfo { is_signer: true, ..account(signer, Pubkey::zeroed()) },
        account(pda, Pubkey::zeroed()),
        program(Pubkey::zeroed()),
    ];
    let calls = process_open_relayer(&mut accounts, &[bump], &ids).unwrap();
    assert_eq!(calls.len(), 1);
    let relayer = Relayer::from_bytes(&accounts[1].data).unwrap();
    assert_eq!(relayer.authority.bytes, signer.bytes);
    assert_eq!(relayer.bump, bump as u64);
    let mut again = vec![
        AccountInfo { is_signer: true, ..account(signer, Pubkey::zeroed()) },
        account(pda, Pubkey::zeroed()),
        program(Pubkey::zeroed()),
    ];
    assert_eq!(
        process_open_relayer(&mut again, &[bump.wrapping_add(1)], &ids),
        Err(ProgramError::InvalidSeeds)
    );
}

#[test]
fn pool_yield_is_split_pro_rata() {
    assert_eq!(pro_rata_yield(1_000, 250, 1_000), Ok(250));
    assert_eq!(pro_rata_yield(999, 1, 3), Ok(333));
    assert_eq!(pro_rata_yield(500, 7, 0), Ok(0));
    assert_eq!(pro_rata_yield(u64::MAX, u64::MAX, u64::MAX), Ok(u64::MAX));
    assert_eq!(pro_rata_yield(u64::MAX, 2, 1), Err(ProgramError::ArithmeticOverflow));
}

fn pool_request(ids: &ProgramIds, share: u64, total: u64) -> Vec<AccountInfo> {
    let signer = key(60);
    let pool_key = key(61);
    let tokens = key(62);
    let d = Delegate { authority: signer, pool: pool_key, balance: share };
    let p = Pool { authority: key(63), bump: 250, tokens, proof: key(64), total_delegated: total };
    vec![
        AccountInfo { is_signer: true, ..account(signer, Pubkey::zeroed()) },
        AccountInfo { data: d.to_bytes(), ..account(key(65), ids.pool) },
        AccountInfo { data: p.to_bytes(), ..account(pool_key, ids.pool) },
        account(tokens, ids.token),
        account(key(66), ids.token),
        program(ids.token),
    ]
}

#[test]
fn withdraw_request_above_share_keeps_pool_totals() {
    let ids = ids();
    let mut accounts = pool_request(&ids, 100, 1_000);
    let before = accounts.clone();
    let data = WithdrawArgs { amount: 101 }.to_bytes();
    assert_eq!(process_withdraw(&mut accounts, &data, &ids), Err(ProgramError::InsufficientFunds));
    assert_eq!(accounts[2].data, before[2].data);
    assert_eq!(Pool::from_bytes(&accounts[2].data).unwrap().total_delegated, 1_000);
    assert_eq!(accounts[1].data, before[1].data);
}

#[test]
fn withdraw_request_moves_share_out_of_pool() {
    let ids = ids();
    let mut accounts = pool_request(&ids, 100, 1_000);
    let data = WithdrawArgs { amount: 40 }.to_bytes();
    let calls = process_withdraw(&mut accounts, &data, &ids).unwrap();
    assert_eq!(Pool::from_bytes(&accounts[2].data).unwrap().total_delegated, 960);
    assert_eq!(Delegate::from_bytes(&accounts[1].data).unwrap().balance, 60);
    assert_eq!(
        calls,
        vec![Invocation::Transfer { source: key(62), destination: key(66), authority: key(61), amount: 40 }]
    );
}

#[test]
fn delegate_request_grows_share_and_pool() {
    let ids = ids();
    let mut accounts = pool_request(&ids, 100, 1_000);
    let data = DelegateArgs { amount: 25 }.to_bytes();
    let calls = process_delegate(&mut accounts, &data, &ids).unwrap();
    assert_eq!(Pool::from_bytes(&accounts[2].data).unwrap().total_delegated, 1_025);
    assert_eq!(Delegate::from_bytes(&accounts[1].data).unwrap().balance, 125);
    assert_eq!(
        calls,
        vec![Invocation::Transfer { source: key(66), destination: key(62), authority: key(60), amount: 25 }]
    );
}

#[test]
fn pool_request_checks_report_first_failure() {
    let ids = ids();
    let data = DelegateArgs { amount: 1 }.to_bytes();
    let mut unsigned = pool_request(&ids, 1, 1);
    unsigned[0].is_signer = false;
    assert_eq!(process_delegate(&mut unsigned, &data, &ids), Err(ProgramError::NotSigner));
    let mut foreign = pool_request(&ids, 1, 1);
    foreign[2].owner = key(99);
    assert_eq!(process_delegate(&mut foreign, &data, &ids), Err(ProgramError::InvalidOwner));
    let mut garbled = pool_request(&ids, 1, 1);
    garbled[1].data[0] = 0;
    assert_eq!(process_delegate(&mut garbled, &data, &ids), Err(ProgramError::InvalidAccountData));
    let mut stranger = pool_request(&ids, 1, 1);
    stranger[0].key = key(98);
    assert_eq!(process_delegate(&mut stranger, &data, &ids), Err(ProgramError::InvalidOwner));
    let mut wrong_escrow = pool_request(&ids, 1, 1);
    wrong_escrow[3].key = key(97);
    assert_eq!(process_delegate(&mut wrong_escrow, &data, &ids), Err(ProgramError::InvalidSeeds));
    let mut short = pool_request(&ids, 1, 1);
    short.pop();
    assert_eq!(process_delegate(&mut short, &data, &ids), Err(ProgramError::NotEnoughAccountKeys));
    let mut full = pool_request(&ids, 1, u64::MAX);
    assert_eq!(process_delegate(&mut full, &data, &ids), Err(ProgramError::ArithmeticOverflow));
}

fn commission_request(ids: &ProgramIds, escrow_hash: u8, proof_hash: u8) -> Vec<AccountInfo> {
    let signer = key(70);
    let e = Escrow { authority: signer, bump: 3, last_hash: [escrow_hash; 32], last_balance: 1_000_000 };
    let p = Proof { authority: key(71), balance: 1_100_000, last_hash: [proof_hash; 32], last_hash_at: 5, multiplier: 1 };
    vec![
        AccountInfo { is_signer: true, ..account(signer, Pubkey::zeroed()) },
        AccountInfo { data: e.to_bytes(), ..account(key(72), ids.relay) },
        AccountInfo { data: p.to_bytes(), ..account(key(73), ids.ore) },
    ]
}

#[test]
fn commission_request_claims_share_then_nothing() {
    let ids = ids();
    let mut accounts = commission_request(&ids, 1, 2);
    let calls = process_collect_commission(&mut accounts, &ids).unwrap();
    assert_eq!(
        calls,
        vec![Invocation::ClaimCommission { proof: key(73), escrow: key(72), authority: key(70), amount: 10 }]
    );
    let escrow = Escrow::from_bytes(&accounts[1].data).unwrap();
    assert_eq!((escrow.last_balance, escrow.last_hash), (1_100_000, [2; 32]));
    let after_first = accounts.clone();
    assert_eq!(process_collect_commission(&mut accounts, &ids), Ok(vec![]));
    assert_eq!(accounts[1].data, after_first[1].data);
}

#[test]
fn commission_request_refuses_other_signer() {
    let ids = ids();
    let mut accounts = commission_request(&ids, 1, 2);
    accounts[0].key = key(74);
    assert_eq!(process_collect_commission(&mut accounts, &ids), Err(ProgramError::InvalidOwner));
    let mut unsigned = commission_request(&ids, 1, 2);
    unsigned[0].is_signer = false;
    assert_eq!(process_collect_commission(&mut unsigned, &ids), Err(ProgramError::NotSigner));
}
