//! Properties that relate several operations of the pool.
use vstd::prelude::*;

use crate::error::StakingError;
use crate::lifecycle::{claimable, complete_outcome, request_outcome, snapshot_gap, stake_outcome};
use crate::math::{mul_div, WAD};
use crate::rewards::{available, deposit_outcome, reward_per_share, sync_outcome, unaccounted};
use crate::state::{StakingPool, UserStake};

verus! {

/// A call that brings reward currency to the pool or folds it in.
pub enum RewardCall {
    /// An explicit deposit of the amount.
    Deposit(u64),
    /// A transfer of the amount to the pool account outside the program.
    Transfer(u64),
    /// A sync.
    Sync,
}

/// The ledger and the pool account's balance after one call. A call that
/// fails changes neither.
pub open spec fn step(pool: StakingPool, lamports: u64, floor: u64, now: i64, call: RewardCall) -> (
    StakingPool,
    u64,
) {
    match call {
        RewardCall::Deposit(a) => match deposit_outcome(pool, a, lamports, floor, now) {
            Ok(p) => if lamports + a <= u64::MAX {
                (p, (lamports + a) as u64)
            } else {
                (pool, lamports)
            },
            Err(_) => (pool, lamports),
        },
        RewardCall::Transfer(x) => if lamports + x <= u64::MAX {
            (pool, (lamports + x) as u64)
        } else {
            (pool, lamports)
        },
        RewardCall::Sync => match sync_outcome(pool, lamports, floor, now) {
            Ok(p) => (p, lamports),
            Err(_) => (pool, lamports),
        },
    }
}

/// The ledger and the balance after a sequence of calls.
pub open spec fn run(pool: StakingPool, lamports: u64, floor: u64, now: i64, calls: Seq<RewardCall>) -> (
    StakingPool,
    u64,
)
    decreases calls.len(),
{
    if calls.len() == 0 {
        (pool, lamports)
    } else {
        let (p, l) = step(pool, lamports, floor, now, calls[0]);
        run(p, l, floor, now, calls.subrange(1, calls.len() as int))
    }
}

/// The reward currency a sequence of calls brings to the pool account.
pub open spec fn injected(pool: StakingPool, lamports: u64, floor: u64, now: i64, calls: Seq<RewardCall>) -> int
    decreases calls.len(),
{
    if calls.len() == 0 {
        0
    } else {
        let (p, l) = step(pool, lamports, floor, now, calls[0]);
        (l - lamports) + injected(p, l, floor, now, calls.subrange(1, calls.len() as int))
    }
}

/// Rounding a share down loses less than one part in `total_staked`.
pub proof fn lemma_share_rounding(amount: int, total_staked: int)
    requires
        amount >= 0,
        total_staked > 0,
    ensures
        reward_per_share(amount, total_staked) >= 0,
        reward_per_share(amount, total_staked) * total_staked <= amount * WAD,
        amount * WAD - reward_per_share(amount, total_staked) * total_staked <= total_staked - 1,
{
    let m = amount * WAD;
    vstd::arithmetic::mul::lemma_mul_nonnegative(amount, WAD as int);
    vstd::arithmetic::div_mod::lemma_fundamental_div_mod(m, total_staked);
    vstd::arithmetic::div_mod::lemma_mod_bound(m, total_staked);
    vstd::arithmetic::div_mod::lemma_div_pos_is_pos(m, total_staked);
    assert(reward_per_share(amount, total_staked) == m / total_staked);
    assert(total_staked * (m / total_staked) == (m / total_staked) * total_staked) by (nonlinear_arith);
}

/// What one call does to the accounting, with the stake held fixed.
proof fn lemma_step(pool: StakingPool, lamports: u64, floor: u64, now: i64, call: RewardCall)
    requires
        pool.total_staked > 0,
        lamports >= floor,
        pool.last_synced_lamports <= available(lamports as int, floor as int),
    ensures
        ({
            let (p, l) = step(pool, lamports, floor, now, call);
            let d = p.acc_reward_per_weighted_share - pool.acc_reward_per_weighted_share;
            let s = p.last_synced_lamports - pool.last_synced_lamports;
            &&& p.total_staked == pool.total_staked
            &&& l >= lamports
            &&& p.last_synced_lamports <= available(l as int, floor as int)
            &&& d >= 0
            &&& s >= 0
            &&& d * pool.total_staked <= s * WAD
            &&& s * WAD - d * pool.total_staked <= pool.total_staked - 1
        }),
{
    let t = pool.total_staked as int;
    let (p, l) = step(pool, lamports, floor, now, call);
    if p == pool {
        let d = p.acc_reward_per_weighted_share - pool.acc_reward_per_weighted_share;
        let sy = p.last_synced_lamports - pool.last_synced_lamports;
        assert(d * t <= sy * WAD && sy * WAD - d * t <= t - 1) by (nonlinear_arith)
            requires
                d == 0,
                sy == 0,
                t > 0,
        ;
    }
    match call {
        RewardCall::Deposit(a) => {
            if a > 0 && lamports + a <= u64::MAX {
                let fresh = a + unaccounted(pool, available(lamports as int, floor as int));
                lemma_share_rounding(fresh, t);
                assert(available(lamports + a, floor as int) == fresh + pool.last_synced_lamports);
                match deposit_outcome(pool, a, lamports, floor, now) {
                    Ok(p) => {
                        assert(p.last_synced_lamports == fresh + pool.last_synced_lamports);
                        let d = p.acc_reward_per_weighted_share - pool.acc_reward_per_weighted_share;
                        let sy = p.last_synced_lamports - pool.last_synced_lamports;
                        assert(d == reward_per_share(fresh, t));
                        assert(sy == fresh);
                        assert(d * t == reward_per_share(fresh, t) * t);
                        assert(sy * WAD == fresh * WAD);
                    },
                    Err(_) => {},
                }
            }
        },
        RewardCall::Transfer(x) => {},
        RewardCall::Sync => {
            let fresh = unaccounted(pool, available(lamports as int, floor as int));
            if fresh > 0 {
                lemma_share_rounding(fresh, t);
            }
        },
    }
}

/// Deposits and syncs in any number and order, against a fixed stake, never
/// distribute more than arrives. Every unit of reward currency that arrives is
/// folded in once: the accumulator grows by the newly accounted currency
/// spread over the stake, less a rounding loss under one share per call; the
/// accounted currency never exceeds the balance above the reserve floor; and
/// once everything is accounted, the newly accounted currency is exactly what
/// the calls brought in.
pub proof fn lemma_distribution_conserves(
    pool: StakingPool,
    lamports: u64,
    floor: u64,
    now: i64,
    calls: Seq<RewardCall>,
)
    requires
        pool.total_staked > 0,
        lamports >= floor,
        pool.last_synced_lamports <= available(lamports as int, floor as int),
    ensures
        ({
            let (p, l) = run(pool, lamports, floor, now, calls);
            let t = pool.total_staked as int;
            let d = p.acc_reward_per_weighted_share - pool.acc_reward_per_weighted_share;
            let s = p.last_synced_lamports - pool.last_synced_lamports;
            &&& p.total_staked == pool.total_staked
            &&& injected(pool, lamports, floor, now, calls) >= 0
            &&& l == lamports + injected(pool, lamports, floor, now, calls)
            &&& p.last_synced_lamports <= available(l as int, floor as int)
            &&& d >= 0
            &&& d * t <= s * WAD
            &&& s * WAD - d * t <= calls.len() * (t - 1)
            &&& (pool.last_synced_lamports == available(lamports as int, floor as int)
                && p.last_synced_lamports == available(l as int, floor as int)) ==> s
                == injected(pool, lamports, floor, now, calls)
        }),
    decreases calls.len(),
{
    if calls.len() > 0 {
        let t = pool.total_staked as int;
        let (p1, l1) = step(pool, lamports, floor, now, calls[0]);
        let rest = calls.subrange(1, calls.len() as int);
        lemma_step(pool, lamports, floor, now, calls[0]);
        lemma_distribution_conserves(p1, l1, floor, now, rest);
        let (p, l) = run(p1, l1, floor, now, rest);
        let d1 = p1.acc_reward_per_weighted_share - pool.acc_reward_per_weighted_share;
        let s1 = p1.last_synced_lamports - pool.last_synced_lamports;
        let d2 = p.acc_reward_per_weighted_share - p1.acc_reward_per_weighted_share;
        let s2 = p.last_synced_lamports - p1.last_synced_lamports;
        let n = rest.len() as int;
        let d = p.acc_reward_per_weighted_share - pool.acc_reward_per_weighted_share;
        let s = p.last_synced_lamports - pool.last_synced_lamports;
        assert(d == d1 + d2);
        assert(s == s1 + s2);
        assert(d * t <= s * WAD) by (nonlinear_arith)
            requires
                d == d1 + d2,
                s == s1 + s2,
                d1 * t <= s1 * WAD,
                d2 * t <= s2 * WAD,
        ;
        assert((d1 + d2) * t == d1 * t + d2 * t) by (nonlinear_arith);
        assert((s1 + s2) * WAD == s1 * WAD + s2 * WAD) by (nonlinear_arith);
        assert((n + 1) * (t - 1) == n * (t - 1) + (t - 1)) by (nonlinear_arith);
    }
}

/// Two deposits into a pool with nothing pending give the same ledger in
/// either order.
pub proof fn lemma_deposits_commute(
    pool: StakingPool,
    a: u64,
    b: u64,
    lamports: u64,
    floor: u64,
    now: i64,
)
    requires
        pool.total_staked > 0,
        a > 0,
        b > 0,
        lamports + a + b <= u64::MAX,
        unaccounted(pool, available(lamports as int, floor as int)) == 0,
    ensures
        (match deposit_outcome(pool, a, lamports, floor, now) {
            Ok(p) => deposit_outcome(p, b, (lamports + a) as u64, floor, now),
            Err(e) => Err(e),
        }) == (match deposit_outcome(pool, b, lamports, floor, now) {
            Ok(p) => deposit_outcome(p, a, (lamports + b) as u64, floor, now),
            Err(e) => Err(e),
        }),
{
    let t = pool.total_staked as int;
    lemma_share_rounding(a as int, t);
    lemma_share_rounding(b as int, t);
}

/// A sync right after a sync, with nothing arriving in between, changes
/// nothing.
pub proof fn lemma_sync_twice(pool: StakingPool, lamports: u64, floor: u64, now: i64, later: i64)
    requires
        sync_outcome(pool, lamports, floor, now) is Ok,
    ensures
        sync_outcome(sync_outcome(pool, lamports, floor, now).unwrap(), lamports, floor, later)
            == sync_outcome(pool, lamports, floor, now),
{
}

/// A deposit made while nothing is staked moves no accumulator; after a first
/// stake, a sync distributes the whole deposit over it, and the new staker may
/// claim all of it but for rounding.
pub proof fn lemma_deferred_deposit(
    pool: StakingPool,
    pos: UserStake,
    deposit: u64,
    stake: u64,
    lamports: u64,
    floor: u64,
    t1: i64,
    t2: i64,
    t3: i64,
)
    requires
        pool.total_staked == 0,
        pool.last_synced_lamports == available(lamports as int, floor as int),
        lamports >= floor,
        lamports + deposit <= u64::MAX,
        deposit > 0,
        pos.amount == 0,
        stake > 0,
        stake >= pool.min_stake_amount,
        pool.acc_reward_per_weighted_share + reward_per_share(deposit as int, stake as int)
            <= u128::MAX,
    ensures
        deposit_outcome(pool, deposit, lamports, floor, t1) == Ok::<StakingPool, StakingError>(pool),
        ({
            let (p2, s2, reward) = stake_outcome(pool, pos, stake, t2).unwrap();
            let p3 = sync_outcome(p2, (lamports + deposit) as u64, floor, t3).unwrap();
            &&& stake_outcome(pool, pos, stake, t2) is Ok
            &&& reward == 0
            &&& sync_outcome(p2, (lamports + deposit) as u64, floor, t3) is Ok
            &&& p3.acc_reward_per_weighted_share == pool.acc_reward_per_weighted_share
                + reward_per_share(deposit as int, stake as int)
            &&& claimable(s2, p3.acc_reward_per_weighted_share) <= deposit
            &&& stake <= WAD ==> claimable(s2, p3.acc_reward_per_weighted_share) >= deposit - 1
        }),
{
    let q = reward_per_share(deposit as int, stake as int);
    lemma_share_rounding(deposit as int, stake as int);
    assert(snapshot_gap(pos, pool.acc_reward_per_weighted_share) * pos.amount == 0);
    assert(mul_div(snapshot_gap(pos, pool.acc_reward_per_weighted_share), 0, WAD as int) == 0);
    let (p2, s2, reward) = stake_outcome(pool, pos, stake, t2).unwrap();
    let p3 = sync_outcome(p2, (lamports + deposit) as u64, floor, t3).unwrap();
    assert(snapshot_gap(s2, p3.acc_reward_per_weighted_share) == q);
    let c = q * stake / WAD as int;
    assert(claimable(s2, p3.acc_reward_per_weighted_share) == c);
    vstd::arithmetic::div_mod::lemma_div_is_ordered(q * stake, deposit * WAD, WAD as int);
    vstd::arithmetic::div_mod::lemma_div_multiples_vanish(deposit as int, WAD as int);
    assert(deposit * WAD / WAD as int == deposit) by (nonlinear_arith)
        requires
            (WAD as int) * (deposit as int) / (WAD as int) == deposit,
    ;
    if stake <= WAD {
        assert(q * stake >= (deposit - 1) * WAD) by (nonlinear_arith)
            requires
                deposit * WAD - q * stake <= stake - 1,
                stake <= WAD,
        ;
        vstd::arithmetic::div_mod::lemma_div_is_ordered((deposit - 1) * WAD, q * stake, WAD as int);
        vstd::arithmetic::div_mod::lemma_div_multiples_vanish(deposit - 1, WAD as int);
        assert((deposit - 1) * WAD / WAD as int == deposit - 1) by (nonlinear_arith)
            requires
                (WAD as int) * (deposit - 1) / (WAD as int) == deposit - 1,
        ;
    }
}

/// A withdrawal request fails as locked while the lock period since the last
/// stake runs, and succeeds once exactly that period has passed.
pub proof fn lemma_lock_gate(pos: UserStake, amount: u64, lock_duration: u64, now: i64)
    requires
        amount > 0,
        amount <= pos.amount,
        !pos.has_pending_request(),
    ensures
        lock_duration > 0 && now - pos.last_stake_time < lock_duration ==> request_outcome(
            pos,
            amount,
            lock_duration,
            now,
        ) == Err::<UserStake, StakingError>(StakingError::StakeLocked),
        now - pos.last_stake_time == lock_duration ==> request_outcome(
            pos,
            amount,
            lock_duration,
            now,
        ) is Ok,
{
}

/// After a successful withdrawal request, a second request for any positive
/// amount fails because a request is pending.
pub proof fn lemma_single_pending_request(
    pos: UserStake,
    first: u64,
    second: u64,
    lock_duration: u64,
    now: i64,
    later: i64,
)
    requires
        request_outcome(pos, first, lock_duration, now) is Ok,
        second > 0,
    ensures
        request_outcome(request_outcome(pos, first, lock_duration, now).unwrap(), second, lock_duration, later)
            == Err::<UserStake, StakingError>(StakingError::PendingUnstakeRequestExists),
{
}

/// Neither a deposit nor a sync ever lowers the accumulator.
pub proof fn lemma_accumulator_never_decreases(
    pool: StakingPool,
    amount: u64,
    lamports: u64,
    floor: u64,
    now: i64,
)
    ensures
        deposit_outcome(pool, amount, lamports, floor, now) is Ok ==> deposit_outcome(
            pool,
            amount,
            lamports,
            floor,
            now,
        ).unwrap().acc_reward_per_weighted_share >= pool.acc_reward_per_weighted_share,
        sync_outcome(pool, lamports, floor, now) is Ok ==> sync_outcome(
            pool,
            lamports,
            floor,
            now,
        ).unwrap().acc_reward_per_weighted_share >= pool.acc_reward_per_weighted_share,
{
    if pool.total_staked > 0 {
        let avail = available(lamports as int, floor as int);
        lemma_share_rounding(unaccounted(pool, avail), pool.total_staked as int);
        lemma_share_rounding(amount + unaccounted(pool, avail), pool.total_staked as int);
    }
}

/// While nothing is staked, deposits and syncs leave the ledger as it is: the
/// reward currency stays unaccounted until a stake exists.
pub proof fn lemma_no_stake_no_accrual(
    pool: StakingPool,
    amount: u64,
    lamports: u64,
    floor: u64,
    now: i64,
)
    requires
        pool.total_staked == 0,
    ensures
        amount > 0 ==> deposit_outcome(pool, amount, lamports, floor, now) == Ok::<
            StakingPool,
            StakingError,
        >(pool),
        sync_outcome(pool, lamports, floor, now) == Ok::<StakingPool, StakingError>(pool),
{
}

/// A withdrawal request, a stake and a completed withdrawal each keep the
/// requested amount within the staked principal.
pub proof fn lemma_request_within_principal(
    pool: StakingPool,
    pos: UserStake,
    amount: u64,
    lock_duration: u64,
    now: i64,
)
    requires
        pos.wf(),
    ensures
        request_outcome(pos, amount, lock_duration, now) is Ok ==> request_outcome(
            pos,
            amount,
            lock_duration,
            now,
        ).unwrap().wf(),
        stake_outcome(pool, pos, amount, now) is Ok ==> stake_outcome(
            pool,
            pos,
            amount,
            now,
        ).unwrap().1.wf(),
        complete_outcome(pool, pos, now) is Ok ==> complete_outcome(pool, pos, now).unwrap().1.wf(),
{
}

/// A deposit whose share would carry the accumulator past 128 bits fails
/// with the overflow error.
pub proof fn lemma_deposit_overflow(pool: StakingPool, amount: u64, lamports: u64, floor: u64, now: i64)
    requires
        pool.total_staked > 0,
        amount > 0,
        lamports + amount <= u64::MAX,
        pool.acc_reward_per_weighted_share + reward_per_share(
            amount + unaccounted(pool, available(lamports as int, floor as int)),
            pool.total_staked as int,
        ) > u128::MAX,
    ensures
        deposit_outcome(pool, amount, lamports, floor, now) == Err::<StakingPool, StakingError>(
            StakingError::ArithmeticOverflow,
        ),
{
}

} // verus!
