use vstd::prelude::*;
use crate::identity::AccountId;
use crate::stake::StakeAccount;
use crate::stake::StakingError;
use crate::stake::spec_initialize;
use crate::stake::spec_unstake;
use crate::stake::initialize_stake;

verus! {

/// Sum of the principal still outstanding — held by records not yet
/// withdrawn — over a sequence of stake records.
pub open spec fn sum_outstanding(s: Seq<StakeAccount>) -> int
    decreases s.len(),
{
    if s.len() == 0 {
        0
    } else {
        sum_outstanding(s.drop_last()) + if s.last().withdrawn {
            0int
        } else {
            s.last().amount as int
        }
    }
}

/// Whether some record in the sequence belongs to `owner`.
pub open spec fn has_owner(s: Seq<StakeAccount>, owner: AccountId) -> bool {
    exists|i: int| 0 <= i < s.len() && s[i].owner == owner
}

/// The index of the record belonging to `owner`; meaningful only under
/// `has_owner`, and unique when no two records share an owner.
pub open spec fn owner_index(s: Seq<StakeAccount>, owner: AccountId) -> int {
    choose|i: int| 0 <= i < s.len() && s[i].owner == owner
}

/// The pooled escrow: every stake record together with the vault balance
/// that backs them. One vault holds all staked principal across all owners.
pub struct StakePool {
    /// All stake records ever created, one per owner; consumed records
    /// remain as an audit trail.
    pub records: Vec<StakeAccount>,
    /// Base token units the escrow vault currently holds.
    pub vault_balance: u64,
}

impl StakePool {
    /// Structural well-formedness: every record locks for a positive
    /// duration, and no two records share an owner.
    pub open spec fn wf(self) -> bool {
        &&& forall|i: int| 0 <= i < self.records@.len() ==> self.records@[i].wf()
        &&& forall|i: int, j: int|
            0 <= i < j < self.records@.len() ==> self.records@[i].owner != self.records@[j].owner
    }

    /// Conservation: the principal still outstanding never exceeds what the
    /// vault actually holds.
    pub open spec fn conserved(self) -> bool {
        sum_outstanding(self.records@) <= self.vault_balance
    }

    /// The pool invariant: well formed and conserved.
    pub open spec fn inv(self) -> bool {
        self.wf() && self.conserved()
    }

    /// Opens a pool over a vault already holding `vault_balance` units
    /// (any pre-funded reward surplus included) and no records yet.
    pub fn new(vault_balance: u64) -> (p: StakePool)
        ensures
            p.inv(),
            p.records@.len() == 0,
            p.vault_balance == vault_balance,
    {
        StakePool { records: Vec::new(), vault_balance }
    }

    /// Handles a stake request against the pool.
    ///
    /// A request from an owner that already holds a record — consumed or
    /// not — is refused, as reusing the one storage slot per owner must be;
    /// then the terms are validated as in `initialize_stake`, and the vault
    /// must be able to absorb the principal. On success the new record is
    /// appended and the vault is credited with the principal that the
    /// host's transfer primitive moved in; conservation is preserved
    /// unconditionally.
    pub fn stake(
        &mut self,
        user: AccountId,
        amount: u64,
        duration_minutes: u64,
        current_time: i64,
    ) -> (r: Result<(), StakingError>)
        requires
            old(self).inv(),
        ensures
            final(self).inv(),
            has_owner(old(self).records@, user) ==> r == Err::<(), StakingError>(
                StakingError::DuplicateStake,
            ) && *final(self) == *old(self),
            !has_owner(old(self).records@, user) ==> ({
                let init = spec_initialize(user, amount, duration_minutes, current_time);
                &&& init matches Err(e) ==> r == Err::<(), StakingError>(e) && *final(self)
                    == *old(self)
                &&& init matches Ok(rec) ==> if old(self).vault_balance + amount > u64::MAX {
                    r == Err::<(), StakingError>(StakingError::Overflow) && *final(self) == *old(
                        self,
                    )
                } else {
                    r == Ok::<(), StakingError>(()) && final(self).records@ == old(
                        self,
                    ).records@.push(rec) && final(self).vault_balance == old(self).vault_balance
                        + amount
                }
            }),
    {
        if find_owner_index(&self.records, user).is_some() {
            return Err(StakingError::DuplicateStake);
        }
        let rec = match initialize_stake(user, amount, duration_minutes, current_time) {
            Ok(rec) => rec,
            Err(e) => {
                return Err(e);
            },
        };
        if self.vault_balance > u64::MAX - amount {
            return Err(StakingError::Overflow);
        }
        proof {
            let s = self.records@;
            assert(s.push(rec).drop_last() =~= s);
            assert(sum_outstanding(s.push(rec)) == sum_outstanding(s) + amount);
        }
        self.records.push(rec);
        self.vault_balance = self.vault_balance + amount;
        Ok(())
    }

    /// Finalizes the caller's stake against the pool.
    ///
    /// A caller without a record fails with the owner check, whatever
    /// record of another owner it may point at. Otherwise the record's own
    /// checks run — single use, then maturity — and on success the payout
    /// leaves the vault, which must hold at least that much, and the record
    /// is marked withdrawn. Every error leaves the pool untouched.
    ///
    /// Conservation carries over whenever the vault's surplus beyond the
    /// outstanding principal covers the reward being paid; the principal
    /// part of the payout always remains covered.
    pub fn unstake(&mut self, caller: AccountId, current_time: i64) -> (r: Result<
        u64,
        StakingError,
    >)
        requires
            old(self).inv(),
        ensures
            final(self).wf(),
            r is Err ==> *final(self) == *old(self),
            !has_owner(old(self).records@, caller) ==> r == Err::<u64, StakingError>(
                StakingError::InvalidOwner,
            ),
            has_owner(old(self).records@, caller) ==> ({
                let idx = owner_index(old(self).records@, caller);
                let rec = old(self).records@[idx];
                let step = spec_unstake(rec, caller, current_time);
                &&& step.0 matches Err(e) ==> r == Err::<u64, StakingError>(e)
                &&& step.0 matches Ok(total) ==> if old(self).vault_balance < total {
                    r == Err::<u64, StakingError>(StakingError::InsufficientFunds)
                } else {
                    r == Ok::<u64, StakingError>(total)
                        && final(self).records@ == old(self).records@.update(idx, step.1)
                        && final(self).vault_balance == old(self).vault_balance - total
                }
            }),
            r matches Ok(total) ==> ({
                let idx = owner_index(old(self).records@, caller);
                let rec = old(self).records@[idx];
                sum_outstanding(final(self).records@) == sum_outstanding(old(self).records@)
                    - rec.amount
                    && (old(self).vault_balance >= sum_outstanding(old(self).records@) + (
                total - rec.amount) ==> final(self).conserved())
            }),
    {
        let i: usize = match find_owner_index(&self.records, caller) {
            Some(i) => i,
            None => {
                return Err(StakingError::InvalidOwner);
            },
        };
        proof {
            let s = self.records@;
            assert(has_owner(s, caller));
            let idx = owner_index(s, caller);
            assert(0 <= idx < s.len() && s[idx].owner == caller);
            if idx != i as int {
                assert(s[idx].owner != s[i as int].owner);
            }
        }
        let mut rec: StakeAccount = self.records[i];
        let total: u64 = match crate::stake::unstake(&mut rec, caller, current_time) {
            Ok(total) => total,
            Err(e) => {
                return Err(e);
            },
        };
        if self.vault_balance < total {
            return Err(StakingError::InsufficientFunds);
        }
        proof {
            lemma_sum_outstanding_consume(self.records@, i as int, rec);
        }
        self.records[i] = rec;
        self.vault_balance = self.vault_balance - total;
        Ok(total)
    }
}

/// Finds the record that belongs to `owner`, if any.
fn find_owner_index(records: &Vec<StakeAccount>, owner: AccountId) -> (r: Option<usize>)
    ensures
        match r {
            Some(i) => i < records@.len() && records@[i as int].owner == owner,
            None => !has_owner(records@, owner),
        },
{
    let n: usize = records.len();
    let mut i: usize = 0;
    while i < n
        invariant
            0 <= i <= n,
            n == records@.len(),
            forall|j: int| 0 <= j < i ==> records@[j].owner != owner,
        decreases n - i,
    {
        if records[i].owner == owner {
            return Some(i);
        }
        i += 1;
    }
    None
}

/// Consuming one outstanding record lowers the outstanding sum by exactly
/// that record's principal.
proof fn lemma_sum_outstanding_consume(s: Seq<StakeAccount>, i: int, r: StakeAccount)
    requires
        0 <= i < s.len(),
        !s[i].withdrawn,
        r.withdrawn,
        r.amount == s[i].amount,
    ensures
        sum_outstanding(s.update(i, r)) == sum_outstanding(s) - s[i].amount,
    decreases s.len(),
{
    if i == s.len() - 1 {
        assert(s.update(i, r).drop_last() =~= s.drop_last());
        assert(s.update(i, r).last() == r);
    } else {
        assert(s.update(i, r).drop_last() =~= s.drop_last().update(i, r));
        assert(s.update(i, r).last() == s.last());
        lemma_sum_outstanding_consume(s.drop_last(), i, r);
    }
}

} // verus!
