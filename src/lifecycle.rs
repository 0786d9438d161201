//! The stake lifecycle: adding principal, requesting a withdrawal, completing
//! it after the cooldown, and settling rewards whenever principal changes.
use vstd::prelude::*;

use crate::error::StakingError;
use crate::math::{mul_div, scaled_mul_div, WAD};
use crate::state::{keys_equal, AccountView, StakingPool, UserStake};

verus! {

/// Growth of the accumulator since the position's snapshot.
pub open spec fn snapshot_gap(pos: UserStake, acc: u128) -> int {
    if acc >= pos.reward_snapshot {
        acc - pos.reward_snapshot
    } else {
        0
    }
}

/// Reward owed to a position: `amount * (acc - snapshot) / WAD`.
pub open spec fn claimable(pos: UserStake, acc: u128) -> int {
    mul_div(snapshot_gap(pos, acc), pos.amount as int, WAD as int)
}

/// The reward owed to a position, or the overflow error where the scaled
/// product or the reward itself does not fit.
pub open spec fn reward_owed(pos: UserStake, acc: u128) -> Result<u64, StakingError> {
    if snapshot_gap(pos, acc) * pos.amount > u128::MAX || claimable(pos, acc) > u64::MAX {
        Err(StakingError::ArithmeticOverflow)
    } else {
        Ok(claimable(pos, acc) as u64)
    }
}

/// Whether the lock period since the last stake is still running at `now`.
pub open spec fn is_locked(pos: UserStake, lock_duration: u64, now: i64) -> bool {
    lock_duration > 0 && now - pos.last_stake_time < lock_duration
}

/// The position after a withdrawal request of `amount` at `now`.
pub open spec fn request_outcome(pos: UserStake, amount: u64, lock_duration: u64, now: i64) -> Result<
    UserStake,
    StakingError,
> {
    if amount == 0 {
        Err(StakingError::ZeroAmount)
    } else if pos.has_pending_request() {
        Err(StakingError::PendingUnstakeRequestExists)
    } else if pos.amount < amount {
        Err(StakingError::InsufficientStakeBalance)
    } else if is_locked(pos, lock_duration, now) {
        Err(StakingError::StakeLocked)
    } else {
        Ok(UserStake { unstake_request_amount: amount, unstake_request_time: now, ..pos })
    }
}

/// The pool and the position after adding `amount` of principal at `now`,
/// with the reward settled on the way.
pub open spec fn stake_outcome(pool: StakingPool, pos: UserStake, amount: u64, now: i64) -> Result<
    (StakingPool, UserStake, u64),
    StakingError,
> {
    if amount == 0 {
        Err(StakingError::ZeroAmount)
    } else if amount < pool.min_stake_amount {
        Err(StakingError::BelowMinimumStake)
    } else if pos.amount + amount > u64::MAX || pool.total_staked + amount > u64::MAX {
        Err(StakingError::ArithmeticOverflow)
    } else {
        match reward_owed(pos, pool.acc_reward_per_weighted_share) {
            Err(e) => Err(e),
            Ok(reward) => Ok(
                (
                    StakingPool { total_staked: (pool.total_staked + amount) as u64, ..pool },
                    UserStake {
                        amount: (pos.amount + amount) as u64,
                        last_stake_time: now,
                        reward_snapshot: pool.acc_reward_per_weighted_share,
                        ..pos
                    },
                    reward,
                ),
            ),
        }
    }
}

/// The pool and the position after completing the pending withdrawal at
/// `now`, with the released principal and the settled reward.
pub open spec fn complete_outcome(pool: StakingPool, pos: UserStake, now: i64) -> Result<
    (StakingPool, UserStake, u64, u64),
    StakingError,
> {
    let req = pos.unstake_request_amount;
    if !pos.has_pending_request() {
        Err(StakingError::NoPendingUnstakeRequest)
    } else if now - pos.unstake_request_time < pool.unstake_cooldown_seconds {
        Err(StakingError::CooldownNotElapsed)
    } else if pos.amount < req || pool.total_staked < req {
        Err(StakingError::InsufficientStakeBalance)
    } else {
        match reward_owed(pos, pool.acc_reward_per_weighted_share) {
            Err(e) => Err(e),
            Ok(reward) => Ok(
                (
                    StakingPool { total_staked: (pool.total_staked - req) as u64, ..pool },
                    UserStake {
                        amount: (pos.amount - req) as u64,
                        reward_snapshot: pool.acc_reward_per_weighted_share,
                        unstake_request_amount: 0,
                        unstake_request_time: 0,
                        ..pos
                    },
                    req,
                    reward,
                ),
            ),
        }
    }
}

impl UserStake {
    /// The reward owed to this position at accumulator value `acc`.
    pub fn pending_reward(&self, acc: u128) -> (r: Result<u64, StakingError>)
        ensures
            r == reward_owed(*self, acc),
    {
        let gap = acc.saturating_sub(self.reward_snapshot);
        match scaled_mul_div(gap, self.amount as u128, WAD) {
            Err(e) => Err(e),
            Ok(q) => {
                if q > u64::MAX as u128 {
                    Err(StakingError::ArithmeticOverflow)
                } else {
                    Ok(q as u64)
                }
            },
        }
    }

    /// Starts the cooldown for a withdrawal of `amount`. The principal stays
    /// staked and keeps earning until the withdrawal completes.
    pub fn request_unstake(&mut self, amount: u64, lock_duration: u64, now: i64) -> (r: Result<
        (),
        StakingError,
    >)
        ensures
            match request_outcome(*old(self), amount, lock_duration, now) {
                Ok(p) => r is Ok && *final(self) == p,
                Err(e) => r == Err::<(), StakingError>(e) && *final(self) == *old(self),
            },
    {
        if amount == 0 {
            return Err(StakingError::ZeroAmount);
        }
        if self.has_pending_unstake_request() {
            return Err(StakingError::PendingUnstakeRequestExists);
        }
        if self.amount < amount {
            return Err(StakingError::InsufficientStakeBalance);
        }
        if lock_duration > 0 {
            let elapsed: i128 = now as i128 - self.last_stake_time as i128;
            if elapsed < lock_duration as i128 {
                return Err(StakingError::StakeLocked);
            }
        }
        self.unstake_request_amount = amount;
        self.unstake_request_time = now;
        Ok(())
    }

    /// Adds `amount` of principal to the position and to the pool's total,
    /// settling the reward owed so far. Returns that reward.
    pub fn stake(&mut self, pool: &mut StakingPool, amount: u64, now: i64) -> (r: Result<
        u64,
        StakingError,
    >)
        ensures
            match stake_outcome(*old(pool), *old(self), amount, now) {
                Ok((p, s, reward)) => r == Ok::<u64, StakingError>(reward) && *final(pool) == p
                    && *final(self) == s,
                Err(e) => r == Err::<u64, StakingError>(e) && *final(pool) == *old(pool)
                    && *final(self) == *old(self),
            },
    {
        if amount == 0 {
            return Err(StakingError::ZeroAmount);
        }
        if amount < pool.min_stake_amount {
            return Err(StakingError::BelowMinimumStake);
        }
        let new_amount = match self.amount.checked_add(amount) {
            None => {
                return Err(StakingError::ArithmeticOverflow);
            },
            Some(v) => v,
        };
        let new_total = match pool.total_staked.checked_add(amount) {
            None => {
                return Err(StakingError::ArithmeticOverflow);
            },
            Some(v) => v,
        };
        let reward = match self.pending_reward(pool.acc_reward_per_weighted_share) {
            Err(e) => {
                return Err(e);
            },
            Ok(v) => v,
        };
        pool.total_staked = new_total;
        self.amount = new_amount;
        self.last_stake_time = now;
        self.reward_snapshot = pool.acc_reward_per_weighted_share;
        Ok(reward)
    }

    /// Completes the pending withdrawal once the cooldown has elapsed: the
    /// requested principal leaves the position and the pool's total, the
    /// request is cleared and the reward is settled. Returns the released
    /// principal and the reward.
    pub fn complete_unstake(&mut self, pool: &mut StakingPool, now: i64) -> (r: Result<
        (u64, u64),
        StakingError,
    >)
        ensures
            match complete_outcome(*old(pool), *old(self), now) {
                Ok((p, s, principal, reward)) => r == Ok::<(u64, u64), StakingError>(
                    (principal, reward),
                ) && *final(pool) == p && *final(self) == s,
                Err(e) => r == Err::<(u64, u64), StakingError>(e) && *final(pool) == *old(pool)
                    && *final(self) == *old(self),
            },
    {
        if !self.has_pending_unstake_request() {
            return Err(StakingError::NoPendingUnstakeRequest);
        }
        let elapsed: i128 = now as i128 - self.unstake_request_time as i128;
        if elapsed < pool.unstake_cooldown_seconds as i128 {
            return Err(StakingError::CooldownNotElapsed);
        }
        let req = self.unstake_request_amount;
        if self.amount < req || pool.total_staked < req {
            return Err(StakingError::InsufficientStakeBalance);
        }
        let reward = match self.pending_reward(pool.acc_reward_per_weighted_share) {
            Err(e) => {
                return Err(e);
            },
            Ok(v) => v,
        };
        pool.total_staked = pool.total_staked - req;
        self.amount = self.amount - req;
        self.reward_snapshot = pool.acc_reward_per_weighted_share;
        self.unstake_request_amount = 0;
        self.unstake_request_time = 0;
        Ok((req, reward))
    }
}

/// The outcome of a withdrawal-request instruction, from its accounts.
pub open spec fn request_instruction_outcome(
    program_id: Seq<u8>,
    pool_account: AccountView,
    stake_account: AccountView,
    user: AccountView,
    pool: StakingPool,
    pos: UserStake,
    amount: u64,
    now: i64,
) -> Result<UserStake, StakingError> {
    if amount == 0 {
        Err(StakingError::ZeroAmount)
    } else if !user.is_signer {
        Err(StakingError::MissingRequiredSigner)
    } else if pool_account.owner@ != program_id {
        Err(StakingError::InvalidAccountOwner)
    } else if !pool.initialized {
        Err(StakingError::NotInitialized)
    } else if stake_account.owner@ != program_id {
        Err(StakingError::InvalidAccountOwner)
    } else if !pos.initialized {
        Err(StakingError::NotInitialized)
    } else if pos.owner@ != user.key@ {
        Err(StakingError::InvalidOwner)
    } else if pos.pool@ != pool_account.key@ {
        Err(StakingError::InvalidPool)
    } else {
        request_outcome(pos, amount, pool.lock_duration_seconds, now)
    }
}

/// Requests a withdrawal of `amount` from the position in `stake_account`,
/// signed by `user`. `pool` and `stake` are the records decoded from the two
/// accounts. On success the caller writes `stake` back; on an error nothing is
/// changed.
pub fn process_request_unstake(
    program_id: &[u8; 32],
    pool_account: &AccountView,
    stake_account: &AccountView,
    user: &AccountView,
    pool: &StakingPool,
    stake: &mut UserStake,
    amount: u64,
    now: i64,
) -> (r: Result<(), StakingError>)
    ensures
        match request_instruction_outcome(
            program_id@,
            *pool_account,
            *stake_account,
            *user,
            *pool,
            *old(stake),
            amount,
            now,
        ) {
            Ok(s) => r is Ok && *final(stake) == s,
            Err(e) => r == Err::<(), StakingError>(e) && *final(stake) == *old(stake),
        },
{
    if amount == 0 {
        return Err(StakingError::ZeroAmount);
    }
    if !user.is_signer {
        return Err(StakingError::MissingRequiredSigner);
    }
    if !keys_equal(&pool_account.owner, program_id) {
        return Err(StakingError::InvalidAccountOwner);
    }
    if !pool.is_initialized() {
        return Err(StakingError::NotInitialized);
    }
    if !keys_equal(&stake_account.owner, program_id) {
        return Err(StakingError::InvalidAccountOwner);
    }
    if !stake.is_initialized() {
        return Err(StakingError::NotInitialized);
    }
    if !keys_equal(&stake.owner, &user.key) {
        return Err(StakingError::InvalidOwner);
    }
    if !keys_equal(&stake.pool, &pool_account.key) {
        return Err(StakingError::InvalidPool);
    }
    stake.request_unstake(amount, pool.lock_duration_seconds, now)
}

} // verus!
