use vstd::prelude::*;
use vstd::arithmetic::div_mod::lemma_div_is_ordered;
use vstd::arithmetic::mul::lemma_mul_inequality;
use vstd::arithmetic::mul::lemma_mul_is_commutative;
use vstd::arithmetic::mul::lemma_mul_upper_bound;

verus! {

/// Length in seconds of one reward accrual period.
pub const REWARD_PERIOD_SECONDS: u64 = 60;

/// Rate divisor of the reward policy: every full accrual period locked earns
/// one part in `REWARD_RATE_DIVISOR` of the principal.
pub const REWARD_RATE_DIVISOR: u64 = 1000;

/// The reward owed for `amount` base units locked for `duration_seconds`.
///
/// The policy is fixed here: one part in a thousand of the principal for
/// every full minute of lock time, rounded down once at the end. The exact
/// rate is a parameter of the system; any replacement must stay deterministic,
/// integer-only, zero at zero principal, and monotone in both arguments.
pub open spec fn spec_reward(amount: nat, duration_seconds: nat) -> nat {
    (amount * (duration_seconds / (REWARD_PERIOD_SECONDS as nat))) / (REWARD_RATE_DIVISOR as nat)
}

/// Computes the reward for a principal locked for a duration.
///
/// Returns `None` exactly when the reward does not fit in 64 bits; the
/// result is never silently truncated.
pub fn reward(amount: u64, duration_seconds: u64) -> (r: Option<u64>)
    ensures
        match r {
            Some(v) => v == spec_reward(amount as nat, duration_seconds as nat),
            None => spec_reward(amount as nat, duration_seconds as nat) > u64::MAX,
        },
{
    let periods: u64 = duration_seconds / REWARD_PERIOD_SECONDS;
    proof {
        lemma_div_is_ordered(
            duration_seconds as int,
            u64::MAX as int,
            REWARD_PERIOD_SECONDS as int,
        );
        lemma_mul_upper_bound(
            amount as int,
            u64::MAX as int,
            periods as int,
            u64::MAX as int / REWARD_PERIOD_SECONDS as int,
        );
    }
    let wide: u128 = (amount as u128) * (periods as u128);
    let value: u128 = wide / (REWARD_RATE_DIVISOR as u128);
    if value > u64::MAX as u128 {
        None
    } else {
        Some(value as u64)
    }
}

/// The reward vanishes with the principal: zero staked earns zero, whatever
/// the duration.
pub proof fn lemma_reward_zero_amount(duration_seconds: nat)
    ensures
        spec_reward(0, duration_seconds) == 0,
{
    assert(0 * (duration_seconds / (REWARD_PERIOD_SECONDS as nat)) == 0);
}

/// Longer locks never earn less: for a fixed principal the reward is
/// monotone in the duration.
pub proof fn lemma_reward_monotone_duration(amount: nat, d1: nat, d2: nat)
    requires
        d1 <= d2,
    ensures
        spec_reward(amount, d1) <= spec_reward(amount, d2),
{
    let p1 = d1 / (REWARD_PERIOD_SECONDS as nat);
    let p2 = d2 / (REWARD_PERIOD_SECONDS as nat);
    lemma_div_is_ordered(d1 as int, d2 as int, REWARD_PERIOD_SECONDS as int);
    lemma_mul_inequality(p1 as int, p2 as int, amount as int);
    lemma_mul_is_commutative(p1 as int, amount as int);
    lemma_mul_is_commutative(p2 as int, amount as int);
    lemma_div_is_ordered(
        (amount * p1) as int,
        (amount * p2) as int,
        REWARD_RATE_DIVISOR as int,
    );
}

/// A larger principal never earns less: for a fixed duration the reward is
/// monotone in the amount staked.
pub proof fn lemma_reward_monotone_amount(a1: nat, a2: nat, duration_seconds: nat)
    requires
        a1 <= a2,
    ensures
        spec_reward(a1, duration_seconds) <= spec_reward(a2, duration_seconds),
{
    let p = duration_seconds / (REWARD_PERIOD_SECONDS as nat);
    lemma_mul_inequality(a1 as int, a2 as int, p as int);
    lemma_div_is_ordered((a1 * p) as int, (a2 * p) as int, REWARD_RATE_DIVISOR as int);
}

} // verus!
