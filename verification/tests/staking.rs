use tribify_staking::identity::AccountId;
use tribify_staking::layout::decode_record;
use tribify_staking::layout::encode_record;
use tribify_staking::pool::StakePool;
use tribify_staking::reward::reward;
use tribify_staking::stake::initialize_stake;
use tribify_staking::stake::unstake;
use tribify_staking::stake::StakeAccount;
use tribify_staking::stake::StakingError;

fn alice() -> AccountId {
    AccountId::new(1, 2, 3, 4)
}

fn bob() -> AccountId {
    AccountId::new(5, 6, 7, 8)
}

fn record(owner: AccountId, amount: u64, start: i64, end: i64) -> StakeAccount {
    StakeAccount {
        owner,
        amount,
        start_time: start,
        end_time: end,
        withdrawn: false,
    }
}

#[test]
fn initialize_populates_record() {
    let rec = initialize_stake(alice(), 1000, 10, 0).unwrap();
    assert_eq!(rec.owner, alice());
    assert_eq!(rec.amount, 1000);
    assert_eq!(rec.start_time, 0);
    assert_eq!(rec.end_time, 600);
    assert!(!rec.withdrawn);
}

#[test]
fn initialize_rejects_zero_duration() {
    assert_eq!(
        initialize_stake(alice(), 1000, 0, 0),
        Err(StakingError::InvalidDuration)
    );
}

#[test]
fn initialize_rejects_time_overflow() {
    assert_eq!(
        initialize_stake(alice(), 1000, 1, i64::MAX),
        Err(StakingError::Overflow)
    );
    assert_eq!(
        initialize_stake(alice(), 1000, u64::MAX, 0),
        Err(StakingError::Overflow)
    );
}

#[test]
fn finalize_before_maturity_is_locked() {
    let mut rec = record(alice(), 1000, 0, 600);
    assert_eq!(unstake(&mut rec, alice(), 599), Err(StakingError::StakeLocked));
    assert!(!rec.withdrawn);
}

#[test]
fn finalize_at_maturity_pays_principal_plus_reward() {
    let mut rec = record(alice(), 1000, 0, 600);
    assert_eq!(unstake(&mut rec, alice(), 600), Ok(1010));
    assert!(rec.withdrawn);
}

#[test]
fn finalize_twice_fails_already_withdrawn() {
    let mut rec = record(alice(), 1000, 0, 600);
    assert_eq!(unstake(&mut rec, alice(), 600), Ok(1010));
    assert_eq!(
        unstake(&mut rec, alice(), 1000),
        Err(StakingError::AlreadyWithdrawn)
    );
    assert!(rec.withdrawn);
}

#[test]
fn finalize_by_stranger_fails_invalid_owner() {
    let mut rec = record(alice(), 1000, 0, 600);
    assert_eq!(unstake(&mut rec, bob(), 600), Err(StakingError::InvalidOwner));
    assert!(!rec.withdrawn);
    assert_eq!(unstake(&mut rec, bob(), 100_000), Err(StakingError::InvalidOwner));
}

#[test]
fn finalize_overflowing_payout_fails() {
    let mut rec = record(alice(), u64::MAX, 0, 600);
    assert_eq!(unstake(&mut rec, alice(), 600), Err(StakingError::Overflow));
    assert!(!rec.withdrawn);
}

#[test]
fn reward_exact_values() {
    assert_eq!(reward(1000, 600), Some(10));
    assert_eq!(reward(1000, 60), Some(1));
    assert_eq!(reward(1000, 59), Some(0));
    assert_eq!(reward(999, 60), Some(0));
    assert_eq!(reward(2000, 659), Some(20));
}

#[test]
fn reward_zero_amount_is_zero() {
    assert_eq!(reward(0, 0), Some(0));
    assert_eq!(reward(0, 600), Some(0));
    assert_eq!(reward(0, u64::MAX), Some(0));
}

#[test]
fn reward_monotone_in_duration() {
    let short = reward(123_456, 60).unwrap();
    let long = reward(123_456, 6_000).unwrap();
    assert!(short <= long);
}

#[test]
fn reward_overflow_is_reported() {
    assert_eq!(reward(u64::MAX, 60_060), None);
}

#[test]
fn pool_full_lifecycle() {
    let mut pool = StakePool::new(100);
    assert_eq!(pool.stake(alice(), 1000, 10, 0), Ok(()));
    assert_eq!(pool.vault_balance, 1100);
    assert_eq!(pool.unstake(alice(), 599), Err(StakingError::StakeLocked));
    assert_eq!(pool.unstake(alice(), 600), Ok(1010));
    assert_eq!(pool.vault_balance, 90);
    assert_eq!(
        pool.unstake(alice(), 1000),
        Err(StakingError::AlreadyWithdrawn)
    );
}

#[test]
fn pool_rejects_duplicate_stake() {
    let mut pool = StakePool::new(0);
    assert_eq!(pool.stake(alice(), 1000, 10, 0), Ok(()));
    assert_eq!(
        pool.stake(alice(), 500, 5, 100),
        Err(StakingError::DuplicateStake)
    );
    assert_eq!(pool.stake(bob(), 500, 5, 100), Ok(()));
}

#[test]
fn pool_rejects_unknown_owner() {
    let mut pool = StakePool::new(0);
    assert_eq!(pool.stake(alice(), 1000, 10, 0), Ok(()));
    assert_eq!(pool.unstake(bob(), 600), Err(StakingError::InvalidOwner));
}

#[test]
fn pool_unfunded_reward_is_insufficient() {
    let mut pool = StakePool::new(0);
    assert_eq!(pool.stake(alice(), 1000, 10, 0), Ok(()));
    assert_eq!(
        pool.unstake(alice(), 600),
        Err(StakingError::InsufficientFunds)
    );
    assert_eq!(pool.vault_balance, 1000);
}

#[test]
fn record_storage_round_trip() {
    let rec = record(alice(), 1000, -120, 480);
    let bytes = encode_record(&rec);
    assert_eq!(bytes.len(), 57);
    assert_eq!(decode_record(&bytes), Some(rec));

    let mut consumed = record(bob(), u64::MAX, i64::MIN, i64::MAX);
    consumed.withdrawn = true;
    let bytes = encode_record(&consumed);
    assert_eq!(decode_record(&bytes), Some(consumed));
}

#[test]
fn record_storage_layout() {
    let rec = record(alice(), 0x0102030405060708, 0, 600);
    let bytes = encode_record(&rec);
    assert_eq!(bytes[0], 1);
    assert_eq!(&bytes[32..40], &[8, 7, 6, 5, 4, 3, 2, 1]);
    assert_eq!(bytes[40], 0);
    assert_eq!(bytes[48], 0x58);
    assert_eq!(bytes[49], 0x02);
    assert_eq!(bytes[56], 0);
}

#[test]
fn decode_rejects_malformed_records() {
    assert_eq!(decode_record(&[0u8; 56]), None);
    assert_eq!(decode_record(&[0u8; 58]), None);
    let mut bytes = encode_record(&record(alice(), 1, 0, 60));
    bytes[56] = 2;
    assert_eq!(decode_record(&bytes), None);
}

#[test]
fn error_messages() {
    assert_eq!(StakingError::StakeLocked.message(), "Stake is still locked");
    assert_eq!(
        StakingError::AlreadyWithdrawn.message(),
        "Stake already withdrawn"
    );
    assert_eq!(StakingError::InvalidOwner.message(), "Invalid stake owner");
}

#[test]
fn pool_conservation_across_history() {
    // The vault starts with a pre-funded surplus of 50 for rewards; at
    // every step the outstanding principal stays covered by the vault.
    let mut pool = StakePool::new(50);

    assert_eq!(pool.stake(alice(), 1000, 10, 0), Ok(()));
    assert_eq!(pool.vault_balance, 1050);

    assert_eq!(pool.stake(bob(), 2000, 1, 0), Ok(()));
    assert_eq!(pool.vault_balance, 3050);

    // reward(2000, 60) == 2, so bob's payout is 2002.
    assert_eq!(pool.unstake(bob(), 60), Ok(2002));
    assert_eq!(pool.vault_balance, 1048);

    // reward(1000, 600) == 10, so alice's payout is 1010.
    assert_eq!(pool.unstake(alice(), 600), Ok(1010));
    assert_eq!(pool.vault_balance, 38);
}
