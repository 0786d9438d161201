//! The pool ledger, the stake position, and the accounts they live in.
use vstd::prelude::*;

use crate::error::StakingError;

verus! {

/// Seed of the pool ledger's address: the bytes of `"pool"`.
pub const POOL_SEED: [u8; 4] = [112, 111, 111, 108];

/// Seed of the token vault's address: the bytes of `"token_vault"`.
pub const TOKEN_VAULT_SEED: [u8; 11] = [116, 111, 107, 101, 110, 95, 118, 97, 117, 108, 116];

/// The address derived from `seed`, `base` and `program_id`, with its bump,
/// or `None` where no bump gives an address off the curve.
pub uninterp spec fn program_address(seed: Seq<u8>, base: Seq<u8>, program_id: Seq<u8>) -> Option<
    (Seq<u8>, u8),
>;

/// Relies on `solana_program::pubkey::Pubkey::try_find_program_address` with
/// the seeds `[seed, base]`: the result depends on the seeds and the program
/// alone.
#[verifier::external_body]
pub(crate) fn find_program_address(seed: &[u8], base: &[u8; 32], program_id: &[u8; 32]) -> (r:
    Option<([u8; 32], u8)>)
    ensures
        match r {
            Some((key, bump)) => program_address(seed@, base@, program_id@) == Some((key@, bump)),
            None => program_address(seed@, base@, program_id@) is None,
        },
{
    let program = solana_program::pubkey::Pubkey::new_from_array(*program_id);
    match solana_program::pubkey::Pubkey::try_find_program_address(&[seed, base], &program) {
        Some((key, bump)) => Some((key.to_bytes(), bump)),
        None => None,
    }
}

/// Whether two account keys are the same.
pub fn keys_equal(a: &[u8; 32], b: &[u8; 32]) -> (r: bool)
    ensures
        r == (a@ == b@),
{
    let mut i: usize = 0;
    while i < 32
        invariant
            0 <= i <= 32,
            a@.len() == 32,
            b@.len() == 32,
            forall|j: int| 0 <= j < i ==> a@[j] == b@[j],
        decreases 32 - i,
    {
        if a[i] != b[i] {
            return false;
        }
        i = i + 1;
    }
    assert(a@ =~= b@);
    true
}

/// What an operation reads of an account it is handed: its key, the program
/// that owns it, its balance, and whether it signed.
#[derive(Clone, Copy, Debug)]
pub struct AccountView {
    pub key: [u8; 32],
    pub owner: [u8; 32],
    pub lamports: u64,
    pub is_signer: bool,
}

/// The shared record of one pool.
#[derive(Clone, Copy, Debug)]
pub struct StakingPool {
    /// The staked asset.
    pub mint: [u8; 32],
    /// The account holding the staked asset.
    pub token_vault: [u8; 32],
    /// The account holding the reward currency.
    pub reward_vault: [u8; 32],
    /// The principal allowed to change the configuration.
    pub authority: [u8; 32],
    /// Sum of all positions' principal.
    pub total_staked: u64,
    /// Cumulative reward per staked unit, scaled by `WAD`; never decreases.
    pub acc_reward_per_weighted_share: u128,
    /// Time of the last accumulator update.
    pub last_update_time: i64,
    /// Reward currency already folded into the accumulator.
    pub last_synced_lamports: u64,
    pub min_stake_amount: u64,
    pub lock_duration_seconds: u64,
    pub unstake_cooldown_seconds: u64,
    /// Maturation period, fixed at creation.
    pub tau_seconds: u64,
    pub initialized: bool,
    pub authority_renounced: bool,
    /// Bump of the pool's derived address.
    pub bump: u8,
}

/// One participant's stake in one pool.
#[derive(Clone, Copy, Debug)]
pub struct UserStake {
    pub owner: [u8; 32],
    pub pool: [u8; 32],
    /// Staked principal.
    pub amount: u64,
    /// Time principal was last added; the lock period runs from it.
    pub last_stake_time: i64,
    /// The pool's accumulator at the position's last settlement.
    pub reward_snapshot: u128,
    /// Principal reserved by a pending withdrawal request; zero when none.
    pub unstake_request_amount: u64,
    /// Time of the pending withdrawal request.
    pub unstake_request_time: i64,
    pub initialized: bool,
}

impl StakingPool {
    pub fn is_initialized(&self) -> (r: bool)
        ensures
            r == self.initialized,
    {
        self.initialized
    }

    pub fn is_authority_renounced(&self) -> (r: bool)
        ensures
            r == self.authority_renounced,
    {
        self.authority_renounced
    }
}

impl UserStake {
    pub fn is_initialized(&self) -> (r: bool)
        ensures
            r == self.initialized,
    {
        self.initialized
    }

    /// A pending request never reserves more than the staked principal.
    pub open spec fn wf(&self) -> bool {
        self.unstake_request_amount <= self.amount
    }

    pub open spec fn has_pending_request(&self) -> bool {
        self.unstake_request_amount > 0
    }

    pub fn has_pending_unstake_request(&self) -> (r: bool)
        ensures
            r == self.has_pending_request(),
    {
        self.unstake_request_amount > 0
    }
}

/// The pool ledger address derived for `mint`, if one exists.
pub open spec fn pool_address(mint: Seq<u8>, program_id: Seq<u8>) -> Option<Seq<u8>> {
    match program_address(POOL_SEED@, mint, program_id) {
        Some((key, _)) => Some(key),
        None => None,
    }
}

/// Why a pool account, its decoded record and its derived address are not a
/// valid ledger of this program, if they are not.
pub open spec fn pool_account_error(
    program_id: Seq<u8>,
    account: AccountView,
    pool: StakingPool,
    derived: Option<Seq<u8>>,
) -> Option<StakingError> {
    if account.owner@ != program_id {
        Some(StakingError::InvalidAccountOwner)
    } else if !pool.initialized {
        Some(StakingError::NotInitialized)
    } else if derived != Some(account.key@) {
        Some(StakingError::InvalidPoolAddress)
    } else {
        None
    }
}

/// Checks a pool account against the address derived from its asset.
pub fn check_pool_account(
    program_id: &[u8; 32],
    account: &AccountView,
    pool: &StakingPool,
    derived: Option<[u8; 32]>,
) -> (r: Result<(), StakingError>)
    ensures
        r == match pool_account_error(
            program_id@,
            *account,
            *pool,
            match derived {
                Some(k) => Some(k@),
                None => None,
            },
        ) {
            Some(e) => Err::<(), StakingError>(e),
            None => Ok(()),
        },
{
    if !keys_equal(&account.owner, program_id) {
        return Err(StakingError::InvalidAccountOwner);
    }
    if !pool.is_initialized() {
        return Err(StakingError::NotInitialized);
    }
    match derived {
        Some(k) => {
            if !keys_equal(&k, &account.key) {
                return Err(StakingError::InvalidPoolAddress);
            }
        },
        None => {
            return Err(StakingError::InvalidPoolAddress);
        },
    }
    Ok(())
}

/// Loads the pool's derived address and checks the pool account against it.
pub fn validate_pool_account(program_id: &[u8; 32], account: &AccountView, pool: &StakingPool) -> (r:
    Result<(), StakingError>)
    ensures
        r == match pool_account_error(program_id@, *account, *pool, pool_address(pool.mint@, program_id@)) {
            Some(e) => Err::<(), StakingError>(e),
            None => Ok(()),
        },
{
    let seed: [u8; 4] = POOL_SEED;
    let derived = match find_program_address(seed.as_slice(), &pool.mint, program_id) {
        Some((key, _)) => Some(key),
        None => None,
    };
    check_pool_account(program_id, account, pool, derived)
}

} // verus!
