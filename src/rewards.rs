//! The reward distribution engine: folds newly observed reward currency into
//! the pool's accumulator, from an explicit deposit or from a sync.
use vstd::prelude::*;

use crate::error::StakingError;
use crate::math::{mul_div, scaled_mul_div, WAD};
use crate::state::{pool_account_error, pool_address, validate_pool_account, AccountView, StakingPool};

verus! {

/// The reward currency a balance holds above the operating reserve floor.
pub open spec fn available(lamports: int, floor: int) -> int {
    if lamports > floor {
        lamports - floor
    } else {
        0
    }
}

/// Reward currency held but not yet folded into the accumulator.
pub open spec fn unaccounted(pool: StakingPool, avail: int) -> int {
    if avail > pool.last_synced_lamports {
        avail - pool.last_synced_lamports
    } else {
        0
    }
}

/// The accumulator increase for `amount` spread over `total_staked` units.
pub open spec fn reward_per_share(amount: int, total_staked: int) -> int {
    mul_div(amount, WAD as int, total_staked)
}

/// The pool after `amount` is distributed at time `now`, with `synced` as the
/// newly accounted balance.
pub open spec fn accrue(pool: StakingPool, amount: int, now: i64, synced: int) -> Result<
    StakingPool,
    StakingError,
> {
    let acc = pool.acc_reward_per_weighted_share + reward_per_share(
        amount,
        pool.total_staked as int,
    );
    if acc > u128::MAX {
        Err(StakingError::ArithmeticOverflow)
    } else {
        Ok(
            StakingPool {
                acc_reward_per_weighted_share: acc as u128,
                last_update_time: now,
                last_synced_lamports: synced as u64,
                ..pool
            },
        )
    }
}

/// The pool after a sync, given the reserve's balance and its floor.
pub open spec fn sync_outcome(pool: StakingPool, lamports: u64, floor: u64, now: i64) -> Result<
    StakingPool,
    StakingError,
> {
    let avail = available(lamports as int, floor as int);
    let fresh = unaccounted(pool, avail);
    if fresh == 0 || pool.total_staked == 0 {
        Ok(pool)
    } else {
        accrue(pool, fresh, now, avail)
    }
}

/// The pool after a deposit of `amount`, given the reserve's balance before
/// the transfer and its floor.
pub open spec fn deposit_outcome(
    pool: StakingPool,
    amount: u64,
    lamports: u64,
    floor: u64,
    now: i64,
) -> Result<StakingPool, StakingError> {
    if amount == 0 {
        Err(StakingError::ZeroAmount)
    } else if pool.total_staked == 0 {
        Ok(pool)
    } else if lamports + amount > u64::MAX {
        Err(StakingError::ArithmeticOverflow)
    } else {
        accrue(
            pool,
            amount + unaccounted(pool, available(lamports as int, floor as int)),
            now,
            available(lamports + amount, floor as int),
        )
    }
}

/// Whether the accumulator moves in a sync.
pub open spec fn sync_distributes(pool: StakingPool, lamports: u64, floor: u64) -> bool {
    unaccounted(pool, available(lamports as int, floor as int)) > 0 && pool.total_staked > 0
}

/// `lamports - floor`, or zero where the balance is below the floor.
pub fn available_balance(lamports: u64, floor: u64) -> (r: u64)
    ensures
        r == available(lamports as int, floor as int),
{
    lamports.saturating_sub(floor)
}

impl StakingPool {
    /// Folds `amount` into the accumulator over the current total stake.
    pub fn distribute(&mut self, amount: u64, now: i64, synced: u64) -> (r: Result<(), StakingError>)
        requires
            old(self).total_staked > 0,
        ensures
            match accrue(*old(self), amount as int, now, synced as int) {
                Ok(p) => r is Ok && *final(self) == p,
                Err(e) => r == Err::<(), StakingError>(e) && *final(self) == *old(self),
            },
    {
        proof {
            assert(amount as int * WAD as int <= u128::MAX) by (nonlinear_arith)
                requires
                    amount <= u64::MAX,
                    WAD == 1_000_000_000_000_000_000u128,
            ;
        }
        let rps = match scaled_mul_div(amount as u128, WAD, self.total_staked as u128) {
            Ok(v) => v,
            Err(e) => {
                return Err(e);
            },
        };
        match self.acc_reward_per_weighted_share.checked_add(rps) {
            None => Err(StakingError::ArithmeticOverflow),
            Some(acc) => {
                self.acc_reward_per_weighted_share = acc;
                self.last_update_time = now;
                self.last_synced_lamports = synced;
                Ok(())
            },
        }
    }

    /// Distributes reward currency that reached the reserve outside a deposit.
    /// Returns whether the ledger changed.
    pub fn sync_rewards(&mut self, lamports: u64, floor: u64, now: i64) -> (r: Result<
        bool,
        StakingError,
    >)
        ensures
            match sync_outcome(*old(self), lamports, floor, now) {
                Ok(p) => r == Ok::<bool, StakingError>(sync_distributes(*old(self), lamports, floor))
                    && *final(self) == p,
                Err(e) => r == Err::<bool, StakingError>(e) && *final(self) == *old(self),
            },
    {
        let current_available = available_balance(lamports, floor);
        let fresh = current_available.saturating_sub(self.last_synced_lamports);
        if fresh == 0 || self.total_staked == 0 {
            return Ok(false);
        }
        match self.distribute(fresh, now, current_available) {
            Ok(()) => Ok(true),
            Err(e) => Err(e),
        }
    }

    /// Distributes a deposit of `amount`, together with any reward currency
    /// not yet accounted, given the reserve's balance before the transfer.
    /// With nothing staked the ledger is left as it is and the deposit stays
    /// pending. Returns whether the ledger changed.
    pub fn deposit_rewards(&mut self, amount: u64, lamports: u64, floor: u64, now: i64) -> (r:
        Result<bool, StakingError>)
        ensures
            match deposit_outcome(*old(self), amount, lamports, floor, now) {
                Ok(p) => r == Ok::<bool, StakingError>(old(self).total_staked > 0) && *final(self)
                    == p,
                Err(e) => r == Err::<bool, StakingError>(e) && *final(self) == *old(self),
            },
    {
        if amount == 0 {
            return Err(StakingError::ZeroAmount);
        }
        if self.total_staked == 0 {
            return Ok(false);
        }
        let after = match lamports.checked_add(amount) {
            None => {
                return Err(StakingError::ArithmeticOverflow);
            },
            Some(v) => v,
        };
        let current_available = available_balance(lamports, floor);
        let undistributed = current_available.saturating_sub(self.last_synced_lamports);
        let total_new = amount.saturating_add(undistributed);
        let synced = available_balance(after, floor);
        match self.distribute(total_new, now, synced) {
            Ok(()) => Ok(true),
            Err(e) => Err(e),
        }
    }
}

/// The outcome of a deposit instruction, from its accounts and arguments.
pub open spec fn deposit_instruction_outcome(
    program_id: Seq<u8>,
    pool_account: AccountView,
    depositor: AccountView,
    pool: StakingPool,
    amount: u64,
    now: i64,
    floor: u64,
) -> Result<StakingPool, StakingError> {
    if amount == 0 {
        Err(StakingError::ZeroAmount)
    } else if !depositor.is_signer {
        Err(StakingError::MissingRequiredSigner)
    } else {
        match pool_account_error(
            program_id,
            pool_account,
            pool,
            pool_address(pool.mint@, program_id),
        ) {
            Some(e) => Err(e),
            None => deposit_outcome(pool, amount, pool_account.lamports, floor, now),
        }
    }
}

/// The outcome of a sync instruction, from its accounts.
pub open spec fn sync_instruction_outcome(
    program_id: Seq<u8>,
    pool_account: AccountView,
    pool: StakingPool,
    now: i64,
    floor: u64,
) -> Result<StakingPool, StakingError> {
    match pool_account_error(program_id, pool_account, pool, pool_address(pool.mint@, program_id)) {
        Some(e) => Err(e),
        None => sync_outcome(pool, pool_account.lamports, floor, now),
    }
}

/// Deposits `amount` of reward currency into the pool (permissionless).
///
/// `pool` is the record decoded from `pool_account`, `floor` the reserve the
/// pool account must keep. On success the caller moves `amount` from the
/// depositor to the pool account, and writes `pool` back where the result is
/// `true`. On an error nothing is changed.
pub fn process_deposit_rewards(
    program_id: &[u8; 32],
    pool_account: &AccountView,
    depositor: &AccountView,
    pool: &mut StakingPool,
    amount: u64,
    now: i64,
    floor: u64,
) -> (r: Result<bool, StakingError>)
    ensures
        match deposit_instruction_outcome(
            program_id@,
            *pool_account,
            *depositor,
            *old(pool),
            amount,
            now,
            floor,
        ) {
            Ok(p) => r == Ok::<bool, StakingError>(old(pool).total_staked > 0) && *final(pool) == p,
            Err(e) => r == Err::<bool, StakingError>(e) && *final(pool) == *old(pool),
        },
{
    if amount == 0 {
        return Err(StakingError::ZeroAmount);
    }
    if !depositor.is_signer {
        return Err(StakingError::MissingRequiredSigner);
    }
    match validate_pool_account(program_id, pool_account, pool) {
        Err(e) => Err(e),
        Ok(()) => pool.deposit_rewards(amount, pool_account.lamports, floor, now),
    }
}

/// Distributes reward currency sent to the pool account outside a deposit
/// (permissionless). The caller writes `pool` back where the result is `true`.
/// On an error nothing is changed.
pub fn process_sync_rewards(
    program_id: &[u8; 32],
    pool_account: &AccountView,
    pool: &mut StakingPool,
    now: i64,
    floor: u64,
) -> (r: Result<bool, StakingError>)
    ensures
        match sync_instruction_outcome(program_id@, *pool_account, *old(pool), now, floor) {
            Ok(p) => r == Ok::<bool, StakingError>(
                sync_distributes(*old(pool), pool_account.lamports, floor),
            ) && *final(pool) == p,
            Err(e) => r == Err::<bool, StakingError>(e) && *final(pool) == *old(pool),
        },
{
    match validate_pool_account(program_id, pool_account, pool) {
        Err(e) => Err(e),
        Ok(()) => pool.sync_rewards(pool_account.lamports, floor, now),
    }
}

} // verus!
