use vstd::prelude::*;

use crate::error::ProgramError;
use crate::state::{Bus, Config};

verus! {

/// The number of bus accounts, for parallelizing mine operations.
pub const BUS_COUNT: usize = 8;

/// One token, denominated in indivisible units (eleven decimals).
pub const ONE_ORE: u64 = 100_000_000_000;

/// The target quantity of tokens to be mined per epoch.
pub const TARGET_EPOCH_REWARDS: u64 = 100_000_000_000;

/// The maximum quantity of tokens that can be mined per epoch.
pub const MAX_EPOCH_REWARDS: u64 = 200_000_000_000;

/// The quantity of tokens each bus is allowed to issue per epoch.
pub const BUS_EPOCH_REWARDS: u64 = 25_000_000_000;

/// The reward rate cannot change by more than this factor from one epoch to the next.
pub const SMOOTHING_FACTOR: u64 = 2;

/// The reward rate to initialize the program with.
pub const INITIAL_BASE_REWARD_RATE: u64 = 1000;

/// The spam/liveness tolerance to initialize the program with.
pub const INITIAL_TOLERANCE: i64 = 5;

/// The minimum difficulty required of all submitted hashes.
pub const MIN_DIFFICULTY: u64 = 12;

/// The duration of one minute, in seconds.
pub const ONE_MINUTE: i64 = 60;

/// The length of an epoch, in seconds.
pub const EPOCH_DURATION: i64 = 60;

pub open spec fn min_int(a: int, b: int) -> int {
    if a <= b { a } else { b }
}

pub open spec fn clamp(x: int, lo: int, hi: int) -> int {
    if x < lo { lo } else if x > hi { hi } else { x }
}

/// Sum of the remaining budgets of a sequence of buses.
pub open spec fn sum_remaining(s: Seq<Bus>) -> int
    decreases s.len(),
{
    if s.len() == 0 { 0 } else { sum_remaining(s.drop_last()) + s.last().remaining }
}

/// Sum of what a sequence of buses issued this epoch.
pub open spec fn sum_accumulated(s: Seq<Bus>) -> int
    decreases s.len(),
{
    if s.len() == 0 { 0 } else { sum_accumulated(s.drop_last()) + s.last().accumulated }
}

/// The base rate after an epoch that issued `emitted` at rate `prior`: scaled
/// towards the target, and kept within a factor of `SMOOTHING_FACTOR` of `prior`.
pub open spec fn next_reward_rate(prior: int, emitted: int) -> int {
    let raw = if emitted == 0 {
        prior * SMOOTHING_FACTOR
    } else {
        prior * TARGET_EPOCH_REWARDS / emitted
    };
    clamp(raw, prior / SMOOTHING_FACTOR as int, prior * SMOOTHING_FACTOR)
}

/// The minimum difficulty after an epoch that issued `emitted`: one step up
/// after an epoch above target, one step down (never below `MIN_DIFFICULTY`)
/// after an epoch below it.
pub open spec fn next_min_difficulty(prior: int, emitted: int) -> int {
    if emitted > TARGET_EPOCH_REWARDS {
        prior + 1
    } else if emitted < TARGET_EPOCH_REWARDS && prior > MIN_DIFFICULTY {
        prior - 1
    } else {
        prior
    }
}

/// The rate after any epoch stays within a factor of `SMOOTHING_FACTOR` of
/// the rate before it.
pub proof fn lemma_rate_within_smoothing(prior: u64, emitted: nat)
    ensures
        prior as int / SMOOTHING_FACTOR as int <= next_reward_rate(prior as int, emitted as int)
            <= prior * SMOOTHING_FACTOR,
{
}

/// Whether an epoch reset is due at time `now`.
pub open spec fn reset_due(config: Config, now: int) -> bool {
    now >= config.last_reset_at + EPOCH_DURATION
}

/// Grants from `bus` the smaller of `amount` and its remaining budget, and
/// returns what was granted.
pub fn claim(bus: &mut Bus, amount: u64) -> (r: Result<u64, ProgramError>)
    ensures
        old(bus).accumulated + min_int(amount as int, old(bus).remaining as int) > u64::MAX
            <==> r is Err,
        r is Err ==> r == Err::<u64, ProgramError>(ProgramError::ArithmeticOverflow) && *final(bus)
            == *old(bus),
        r matches Ok(granted) ==> {
            &&& granted == min_int(amount as int, old(bus).remaining as int)
            &&& final(bus).remaining == old(bus).remaining - granted
            &&& final(bus).accumulated == old(bus).accumulated + granted
            &&& final(bus).id == old(bus).id
        },
{
    let granted: u64 = if amount <= bus.remaining { amount } else { bus.remaining };
    match bus.accumulated.checked_add(granted) {
        Some(acc) => {
            bus.remaining = bus.remaining - granted;
            bus.accumulated = acc;
            Ok(granted)
        },
        None => Err(ProgramError::ArithmeticOverflow),
    }
}

proof fn lemma_sum_accumulated_bound(s: Seq<Bus>)
    ensures
        0 <= sum_accumulated(s) <= s.len() * u64::MAX,
    decreases s.len(),
{
    if s.len() > 0 {
        lemma_sum_accumulated_bound(s.drop_last());
    }
}

proof fn lemma_sum_remaining_refilled(s: Seq<Bus>)
    requires
        forall|i: int| 0 <= i < s.len() ==> #[trigger] s[i].remaining == BUS_EPOCH_REWARDS,
    ensures
        sum_remaining(s) == s.len() * BUS_EPOCH_REWARDS,
    decreases s.len(),
{
    if s.len() > 0 {
        lemma_sum_remaining_refilled(s.drop_last());
        assert(s.last() == s[s.len() - 1]);
    }
}

/// The per-bus budget divides the epoch budget evenly: refilling every bus
/// restores exactly the epoch's maximum.
pub proof fn lemma_budget_divides_evenly()
    ensures
        MAX_EPOCH_REWARDS % (BUS_COUNT as u64) == 0,
        BUS_EPOCH_REWARDS == MAX_EPOCH_REWARDS / (BUS_COUNT as u64),
        BUS_EPOCH_REWARDS * BUS_COUNT == MAX_EPOCH_REWARDS,
{
    assert(200_000_000_000u64 % 8u64 == 0) by (nonlinear_arith);
}

/// Buses that each hold their full share hold exactly the epoch's maximum
/// between them.
pub proof fn lemma_refilled_buses_hold_epoch_maximum(buses: Seq<Bus>)
    requires
        buses.len() == BUS_COUNT,
        forall|i: int| 0 <= i < buses.len() ==> #[trigger] buses[i].remaining == BUS_EPOCH_REWARDS,
    ensures
        sum_remaining(buses) == MAX_EPOCH_REWARDS,
{
    lemma_sum_remaining_refilled(buses);
}

/// Sums what the buses issued this epoch.
fn total_accumulated(buses: &Vec<Bus>) -> (r: u128)
    requires
        buses@.len() == BUS_COUNT,
    ensures
        r == sum_accumulated(buses@),
{
    let mut total: u128 = 0;
    let mut i: usize = 0;
    while i < buses.len()
        invariant
            i <= buses@.len() == BUS_COUNT,
            total == sum_accumulated(buses@.subrange(0, i as int)),
        decreases buses@.len() - i,
    {
        proof {
            lemma_sum_accumulated_bound(buses@.subrange(0, i as int));
            assert(buses@.subrange(0, i as int + 1).drop_last() == buses@.subrange(0, i as int));
        }
        total = total + buses[i].accumulated as u128;
        i = i + 1;
    }
    assert(buses@.subrange(0, i as int) == buses@);
    total
}

/// The base rate after an epoch that issued `emitted` at rate `prior`.
pub fn calculate_new_reward_rate(prior: u64, emitted: u128) -> (r: u128)
    requires
        emitted <= BUS_COUNT * u64::MAX,
    ensures
        r == next_reward_rate(prior as int, emitted as int),
        prior as int / SMOOTHING_FACTOR as int <= r <= prior * SMOOTHING_FACTOR,
{
    let p = prior as u128;
    let max_smooth: u128 = p * (SMOOTHING_FACTOR as u128);
    let min_smooth: u128 = p / (SMOOTHING_FACTOR as u128);
    assert(min_smooth <= max_smooth) by (nonlinear_arith)
        requires
            max_smooth == p * 2,
            min_smooth == p / 2,
    ;
    let raw: u128 = if emitted == 0 {
        max_smooth
    } else {
        assert(p * (TARGET_EPOCH_REWARDS as u128) <= u64::MAX * TARGET_EPOCH_REWARDS) by (nonlinear_arith)
            requires p <= u64::MAX;
        p * (TARGET_EPOCH_REWARDS as u128) / emitted
    };
    if raw < min_smooth {
        min_smooth
    } else if raw > max_smooth {
        max_smooth
    } else {
        raw
    }
}

/// The minimum difficulty after an epoch that issued `emitted`.
pub fn calculate_new_min_difficulty(prior: u64, emitted: u128) -> (r: Result<u64, ProgramError>)
    ensures
        next_min_difficulty(prior as int, emitted as int) > u64::MAX
            <==> r == Err::<u64, ProgramError>(ProgramError::ArithmeticOverflow),
        r matches Ok(d) ==> d == next_min_difficulty(prior as int, emitted as int),
        r matches Err(e) ==> e == ProgramError::ArithmeticOverflow,
{
    if emitted > TARGET_EPOCH_REWARDS as u128 {
        match prior.checked_add(1) {
            Some(d) => Ok(d),
            None => Err(ProgramError::ArithmeticOverflow),
        }
    } else if emitted < TARGET_EPOCH_REWARDS as u128 && prior > MIN_DIFFICULTY {
        Ok(prior - 1)
    } else {
        Ok(prior)
    }
}

/// Closes the epoch if one is due at `now`: adjusts the rate and difficulty to
/// what the closing epoch issued, refills every bus to its share of the epoch
/// budget, clears what they issued and records the time. Returns whether a
/// reset took place. On an error nothing changes.
pub fn reset_epoch(config: &mut Config, buses: &mut Vec<Bus>, now: i64) -> (r: Result<
    bool,
    ProgramError,
>)
    requires
        old(buses)@.len() == BUS_COUNT,
    ensures
        final(buses)@.len() == BUS_COUNT,
        r is Err ==> r == Err::<bool, ProgramError>(ProgramError::ArithmeticOverflow)
            && *final(config) == *old(config) && final(buses)@ == old(buses)@,
        r == Ok::<bool, ProgramError>(false) <==> !reset_due(*old(config), now as int),
        r == Ok::<bool, ProgramError>(false) ==> *final(config) == *old(config) && final(buses)@
            == old(buses)@,
        ({
            let emitted = sum_accumulated(old(buses)@);
            let rate = next_reward_rate(old(config).base_reward_rate as int, emitted);
            let diff = next_min_difficulty(old(config).min_difficulty as int, emitted);
            let total = old(config).total_rewards + emitted;
            reset_due(*old(config), now as int) ==> {
                &&& (rate > u64::MAX || diff > u64::MAX || total > u64::MAX)
                    <==> r == Err::<bool, ProgramError>(ProgramError::ArithmeticOverflow)
                &&& r == Ok::<bool, ProgramError>(true) ==> {
                    &&& final(config).base_reward_rate == rate
                    &&& final(config).min_difficulty == diff
                    &&& final(config).total_rewards == total
                    &&& final(config).last_reset_at == now
                    &&& forall|i: int|
                        0 <= i < BUS_COUNT ==> {
                            &&& (#[trigger] final(buses)@[i]).remaining == BUS_EPOCH_REWARDS
                            &&& final(buses)@[i].accumulated == 0
                            &&& final(buses)@[i].id == old(buses)@[i].id
                        }
                    &&& sum_remaining(final(buses)@) == MAX_EPOCH_REWARDS
                    &&& sum_accumulated(final(buses)@) == 0
                    &&& old(config).base_reward_rate as int / SMOOTHING_FACTOR as int
                        <= final(config).base_reward_rate
                        <= old(config).base_reward_rate * SMOOTHING_FACTOR
                }
            }
        }),
{
    if (now as i128) < (config.last_reset_at as i128) + (EPOCH_DURATION as i128) {
        return Ok(false);
    }
    let emitted = total_accumulated(buses);
    proof {
        lemma_sum_accumulated_bound(buses@);
    }
    let rate = calculate_new_reward_rate(config.base_reward_rate, emitted);
    if rate > u64::MAX as u128 {
        return Err(ProgramError::ArithmeticOverflow);
    }
    let difficulty = match calculate_new_min_difficulty(config.min_difficulty, emitted) {
        Ok(d) => d,
        Err(e) => return Err(e),
    };
    if emitted > (u64::MAX - config.total_rewards) as u128 {
        return Err(ProgramError::ArithmeticOverflow);
    }
    // Every check has passed: apply the whole reset at once.
    config.base_reward_rate = rate as u64;
    config.min_difficulty = difficulty;
    config.total_rewards = config.total_rewards + emitted as u64;
    config.last_reset_at = now;
    let ghost prior = buses@;
    let mut i: usize = 0;
    while i < buses.len()
        invariant
            i <= buses@.len() == BUS_COUNT,
            prior.len() == BUS_COUNT,
            forall|j: int|
                0 <= j < i ==> {
                    &&& (#[trigger] buses@[j]).remaining == BUS_EPOCH_REWARDS
                    &&& buses@[j].accumulated == 0
                    &&& buses@[j].id == prior[j].id
                },
            forall|j: int| i <= j < BUS_COUNT ==> #[trigger] buses@[j] == prior[j],
        decreases buses@.len() - i,
    {
        let id = buses[i].id;
        buses.set(i, Bus { id, remaining: BUS_EPOCH_REWARDS, accumulated: 0 });
        i = i + 1;
    }
    proof {
        lemma_refilled_buses_hold_epoch_maximum(buses@);
        lemma_sum_accumulated_cleared(buses@);
    }
    Ok(true)
}

proof fn lemma_sum_accumulated_cleared(s: Seq<Bus>)
    requires
        forall|i: int| 0 <= i < s.len() ==> #[trigger] s[i].accumulated == 0,
    ensures
        sum_accumulated(s) == 0,
    decreases s.len(),
{
    if s.len() > 0 {
        lemma_sum_accumulated_cleared(s.drop_last());
        assert(s.last() == s[s.len() - 1]);
    }
}

} // verus!
