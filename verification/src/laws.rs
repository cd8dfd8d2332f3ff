use vstd::prelude::*;
use crate::identity::AccountId;
use crate::reward::spec_reward;
use crate::stake::StakeAccount;
use crate::stake::StakingError;
use crate::stake::spec_initialize;
use crate::stake::spec_new_record;
use crate::stake::spec_unstake;
use crate::stake::terms_fit;

verus! {

/// A freshly initiated stake can be finalized by its owner at the maturity
/// instant itself, and pays out exactly principal plus reward: for every
/// request whose terms are valid and whose payout fits 64 bits, initiation
/// yields a record that a finalization at `end_time` consumes, returning
/// `amount + reward(amount, duration)`.
pub proof fn lemma_stake_then_finalize_at_maturity(
    user: AccountId,
    amount: u64,
    duration_minutes: u64,
    current_time: i64,
)
    requires
        duration_minutes > 0,
        terms_fit(duration_minutes, current_time),
        amount + spec_reward(amount as nat, (duration_minutes * 60) as nat) <= u64::MAX,
    ensures
        ({
            let rec = spec_new_record(user, amount, duration_minutes, current_time);
            let payout = (amount + spec_reward(amount as nat, (duration_minutes * 60) as nat)) as u64;
            &&& spec_initialize(user, amount, duration_minutes, current_time)
                == Ok::<StakeAccount, StakingError>(rec)
            &&& spec_unstake(rec, user, rec.end_time) == (
                Ok::<u64, StakingError>(payout),
                (StakeAccount { withdrawn: true, ..rec }),
            )
        }),
{
    let rec = spec_new_record(user, amount, duration_minutes, current_time);
    assert(rec.duration() == duration_minutes * 60);
}

/// Maturity is a hard gate: finalizing an unconsumed stake at any time
/// strictly before `end_time` fails with `StakeLocked` and changes nothing.
pub proof fn lemma_finalize_before_maturity(rec: StakeAccount, current_time: i64)
    requires
        !rec.withdrawn,
        current_time < rec.end_time,
    ensures
        spec_unstake(rec, rec.owner, current_time) == (
            Err::<u64, StakingError>(StakingError::StakeLocked),
            rec,
        ),
{
}

/// A stake is single-use: a first finalization at maturity succeeds, and a
/// second — at any time whatsoever — fails with `AlreadyWithdrawn` and
/// changes nothing further.
pub proof fn lemma_finalize_twice(rec: StakeAccount, t1: i64, t2: i64)
    requires
        !rec.withdrawn,
        t1 >= rec.end_time,
        rec.payout() <= u64::MAX,
    ensures
        ({
            let first = spec_unstake(rec, rec.owner, t1);
            &&& first.0 == Ok::<u64, StakingError>(rec.payout() as u64)
            &&& spec_unstake(first.1, rec.owner, t2) == (
                Err::<u64, StakingError>(StakingError::AlreadyWithdrawn),
                first.1,
            )
        }),
{
}

/// Only the recorded owner can finalize: any other identity fails with
/// `InvalidOwner` at any time, in any record state, and changes nothing.
pub proof fn lemma_finalize_wrong_owner(rec: StakeAccount, caller: AccountId, current_time: i64)
    requires
        caller != rec.owner,
    ensures
        spec_unstake(rec, caller, current_time) == (
            Err::<u64, StakingError>(StakingError::InvalidOwner),
            rec,
        ),
{
}

} // verus!
