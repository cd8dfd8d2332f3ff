use vstd::prelude::*;
use crate::identity::AccountId;
use crate::reward::reward;
use crate::reward::spec_reward;

verus! {

/// Everything a staking operation can refuse or fail with.
#[derive(Clone, Copy, PartialEq, Eq, Structural, Debug)]
pub enum StakingError {
    /// The stake has not reached maturity yet.
    StakeLocked,
    /// The stake was already withdrawn once.
    AlreadyWithdrawn,
    /// The presented identity does not own the stake.
    InvalidOwner,
    /// Time or amount arithmetic would leave the 64-bit range.
    Overflow,
    /// A stake must run for at least one full minute.
    InvalidDuration,
    /// The owner already holds a stake record.
    DuplicateStake,
    /// The escrow vault does not hold enough to pay the withdrawal.
    InsufficientFunds,
}

impl StakingError {
    /// A short human-readable description of the error.
    pub fn message(&self) -> (r: &'static str)
        ensures
            self is StakeLocked ==> r@ == "Stake is still locked"@,
            self is AlreadyWithdrawn ==> r@ == "Stake already withdrawn"@,
            self is InvalidOwner ==> r@ == "Invalid stake owner"@,
    {
        match self {
            StakingError::StakeLocked => "Stake is still locked",
            StakingError::AlreadyWithdrawn => "Stake already withdrawn",
            StakingError::InvalidOwner => "Invalid stake owner",
            StakingError::Overflow => "Arithmetic overflow",
            StakingError::InvalidDuration => "Stake duration must be positive",
            StakingError::DuplicateStake => "Owner already has a stake",
            StakingError::InsufficientFunds => "Insufficient vault balance",
        }
    }
}

/// The per-owner stake record: one active stake per owner at a time.
#[derive(Clone, Copy, PartialEq, Eq, Structural, Debug)]
pub struct StakeAccount {
    /// The depositing principal; the only identity that may unstake.
    pub owner: AccountId,
    /// Principal deposited, in base token units; immutable after creation.
    pub amount: u64,
    /// Time of stake creation, in seconds since the epoch.
    pub start_time: i64,
    /// Maturity instant: `start_time` plus the lock duration.
    pub end_time: i64,
    /// One-shot consumption flag; set irreversibly by a withdrawal.
    pub withdrawn: bool,
}

impl StakeAccount {
    /// A well-formed record locks for a strictly positive duration.
    pub open spec fn wf(self) -> bool {
        self.start_time < self.end_time
    }

    /// The lock duration in seconds.
    pub open spec fn duration(self) -> nat {
        (self.end_time - self.start_time) as nat
    }

    /// Principal plus reward owed at maturity (mathematical, unbounded).
    pub open spec fn payout(self) -> nat {
        self.amount as nat + spec_reward(self.amount as nat, self.duration())
    }
}

/// Whether the maturity instant of a stake request fits a 64-bit signed
/// second count.
pub open spec fn terms_fit(duration_minutes: u64, current_time: i64) -> bool {
    current_time + duration_minutes * 60 <= i64::MAX
}

/// The record a valid stake request creates.
pub open spec fn spec_new_record(
    user: AccountId,
    amount: u64,
    duration_minutes: u64,
    current_time: i64,
) -> StakeAccount {
    StakeAccount {
        owner: user,
        amount: amount,
        start_time: current_time,
        end_time: (current_time + duration_minutes * 60) as i64,
        withdrawn: false,
    }
}

/// What `initialize_stake` returns for each request.
pub open spec fn spec_initialize(
    user: AccountId,
    amount: u64,
    duration_minutes: u64,
    current_time: i64,
) -> Result<StakeAccount, StakingError> {
    if duration_minutes == 0 {
        Err(StakingError::InvalidDuration)
    } else if !terms_fit(duration_minutes, current_time) {
        Err(StakingError::Overflow)
    } else {
        Ok(spec_new_record(user, amount, duration_minutes, current_time))
    }
}

/// Validates a stake request and builds its record.
///
/// A zero duration is rejected, and so is a maturity instant beyond the
/// 64-bit second range; otherwise the returned record carries the request's
/// terms with `withdrawn` clear. Funding the escrow with `amount` is the
/// host's transfer primitive, invoked atomically with persisting the record;
/// this core only fixes the terms.
pub fn initialize_stake(
    user: AccountId,
    amount: u64,
    duration_minutes: u64,
    current_time: i64,
) -> (r: Result<StakeAccount, StakingError>)
    ensures
        r == spec_initialize(user, amount, duration_minutes, current_time),
        r matches Ok(rec) ==> rec.wf() && rec == spec_new_record(
            user,
            amount,
            duration_minutes,
            current_time,
        ),
{
    if duration_minutes == 0 {
        return Err(StakingError::InvalidDuration);
    }
    let duration_seconds: u128 = (duration_minutes as u128) * 60;
    let end_wide: i128 = (current_time as i128) + (duration_seconds as i128);
    if end_wide > i64::MAX as i128 {
        return Err(StakingError::Overflow);
    }
    Ok(StakeAccount {
        owner: user,
        amount: amount,
        start_time: current_time,
        end_time: end_wide as i64,
        withdrawn: false,
    })
}

/// What `unstake` decides for a record, a presented identity and a time:
/// the returned value (or error) together with the record as it stands
/// afterwards. Errors leave the record untouched.
pub open spec fn spec_unstake(
    rec: StakeAccount,
    caller: AccountId,
    current_time: i64,
) -> (Result<u64, StakingError>, StakeAccount) {
    if caller != rec.owner {
        (Err(StakingError::InvalidOwner), rec)
    } else if rec.withdrawn {
        (Err(StakingError::AlreadyWithdrawn), rec)
    } else if current_time < rec.end_time {
        (Err(StakingError::StakeLocked), rec)
    } else if rec.payout() > u64::MAX {
        (Err(StakingError::Overflow), rec)
    } else {
        (
            Ok(rec.payout() as u64),
            StakeAccount { withdrawn: true, ..rec },
        )
    }
}

/// Finalizes a stake held in `record`.
///
/// The checks run in order: the caller must be the recorded owner, the
/// record must not be consumed, and the maturity instant must have been
/// reached (the instant itself is withdrawable). On success the payout —
/// principal plus reward over the full lock duration — is returned and the
/// record is irreversibly marked withdrawn; paying it out of the vault is
/// the host's transfer primitive, invoked atomically with this update.
/// Every error leaves the record exactly as it was.
pub fn unstake(record: &mut StakeAccount, caller: AccountId, current_time: i64) -> (r: Result<
    u64,
    StakingError,
>)
    requires
        old(record).wf(),
    ensures
        (r, *final(record)) == spec_unstake(*old(record), caller, current_time),
        final(record).wf(),
        r is Ok ==> final(record).withdrawn,
        r is Err ==> *final(record) == *old(record),
{
    if caller != record.owner {
        return Err(StakingError::InvalidOwner);
    }
    if record.withdrawn {
        return Err(StakingError::AlreadyWithdrawn);
    }
    if current_time < record.end_time {
        return Err(StakingError::StakeLocked);
    }
    let duration_wide: i128 = (record.end_time as i128) - (record.start_time as i128);
    let duration_seconds: u64 = duration_wide as u64;
    assert(duration_seconds == record.duration());
    let total_wide: u128 = match reward(record.amount, duration_seconds) {
        Some(earned) => (record.amount as u128) + (earned as u128),
        None => {
            return Err(StakingError::Overflow);
        },
    };
    if total_wide > u64::MAX as u128 {
        return Err(StakingError::Overflow);
    }
    record.withdrawn = true;
    Ok(total_wide as u64)
}

} // verus!
