//! Creating a pool ledger, and changing its configuration.
use spl_token_2022::extension::permanent_delegate::PermanentDelegate;
use spl_token_2022::extension::transfer_fee::TransferFeeConfig;
use spl_token_2022::extension::transfer_hook::TransferHook;
use spl_token_2022::extension::{BaseStateWithExtensions, StateWithExtensions};
use spl_token_2022::state::Mint;
use vstd::prelude::*;

use crate::error::StakingError;
use crate::state::{
    find_program_address, keys_equal, program_address, AccountView, StakingPool, POOL_SEED,
    TOKEN_VAULT_SEED,
};

verus! {

/// Shortest allowed maturation period, in seconds.
pub const MIN_TAU_SECONDS: u64 = 60;

/// Longest allowed maturation period (about ten years), in seconds.
pub const MAX_TAU_SECONDS: u64 = 315_360_000;

/// The token program that pools work with
/// (`TokenzQdBNbLqP5VEhdkAS6EPFLC1PHnBqCXEpPxuEb`).
pub const TOKEN_2022_PROGRAM_ID: [u8; 32] = [
    6, 221, 246, 225, 238, 117, 143, 222, 24, 66, 93, 188, 228, 108, 205, 218,
    182, 26, 252, 77, 131, 185, 13, 39, 254, 189, 249, 40, 216, 161, 139, 252,
];

/// Relies on `spl_token_2022::id()`: the address the token program declares,
/// `TokenzQdBNbLqP5VEhdkAS6EPFLC1PHnBqCXEpPxuEb`.
#[verifier::external_body]
fn token_2022_program_id() -> (r: [u8; 32])
    ensures
        r@ == TOKEN_2022_PROGRAM_ID@,
{
    spl_token_2022::id().to_bytes()
}

/// The extensions of a staked asset that bear on the ledger's accounting.
#[derive(Clone, Copy, Debug)]
pub struct MintExtensions {
    /// Transfers deduct a fee, so the vault receives less than was sent.
    pub transfer_fee: bool,
    /// A third party may move tokens out of any account.
    pub permanent_delegate: bool,
    /// Every transfer runs arbitrary code.
    pub transfer_hook: bool,
}

/// Whether a mint account's data carries a transfer fee, a permanent
/// delegate and a transfer hook, as the token program reads it; `None` where
/// the data does not unpack as an initialized mint.
pub uninterp spec fn mint_extensions_of(data: Seq<u8>) -> Option<(bool, bool, bool)>;

/// The extension flags in the library's type.
pub open spec fn as_extensions(flags: Option<(bool, bool, bool)>) -> Option<MintExtensions> {
    match flags {
        Some((fee, delegate, hook)) => Some(
            MintExtensions { transfer_fee: fee, permanent_delegate: delegate, transfer_hook: hook },
        ),
        None => None,
    }
}

/// Relies on `spl_token_2022::extension::StateWithExtensions::<Mint>::unpack`
/// and on its `get_extension` for `TransferFeeConfig`, `PermanentDelegate` and
/// `TransferHook`: what is found depends on the data alone.
#[verifier::external_body]
fn read_mint_extensions(data: &[u8]) -> (r: Option<MintExtensions>)
    ensures
        r == as_extensions(mint_extensions_of(data@)),
{
    match StateWithExtensions::<Mint>::unpack(data) {
        Err(_) => None,
        Ok(state) => Some(MintExtensions {
            transfer_fee: state.get_extension::<TransferFeeConfig>().is_ok(),
            permanent_delegate: state.get_extension::<PermanentDelegate>().is_ok(),
            transfer_hook: state.get_extension::<TransferHook>().is_ok(),
        }),
    }
}

/// The ledger of a newly created pool.
pub open spec fn new_pool(
    mint: [u8; 32],
    token_vault: [u8; 32],
    reward_vault: [u8; 32],
    authority: [u8; 32],
    tau_seconds: u64,
    now: i64,
    bump: u8,
) -> StakingPool {
    StakingPool {
        mint,
        token_vault,
        reward_vault,
        authority,
        total_staked: 0,
        acc_reward_per_weighted_share: 0,
        last_update_time: now,
        last_synced_lamports: 0,
        min_stake_amount: 0,
        lock_duration_seconds: 0,
        unstake_cooldown_seconds: 0,
        tau_seconds,
        initialized: true,
        authority_renounced: false,
        bump,
    }
}

impl StakingPool {
    /// A fresh ledger: nothing staked, accumulator and synced balance at zero.
    pub fn new(
        mint: [u8; 32],
        token_vault: [u8; 32],
        reward_vault: [u8; 32],
        authority: [u8; 32],
        tau_seconds: u64,
        now: i64,
        bump: u8,
    ) -> (r: StakingPool)
        ensures
            r == new_pool(mint, token_vault, reward_vault, authority, tau_seconds, now, bump),
    {
        StakingPool {
            mint,
            token_vault,
            reward_vault,
            authority,
            total_staked: 0,
            acc_reward_per_weighted_share: 0,
            last_update_time: now,
            last_synced_lamports: 0,
            min_stake_amount: 0,
            lock_duration_seconds: 0,
            unstake_cooldown_seconds: 0,
            tau_seconds,
            initialized: true,
            authority_renounced: false,
            bump,
        }
    }
}

/// The outcome of creating a pool, from its accounts and arguments: the new
/// ledger and the bump of the vault's address. `extensions` is `None` where
/// the asset account does not hold a mint.
pub open spec fn initialize_outcome(
    program_id: Seq<u8>,
    pool_account: AccountView,
    mint_account: AccountView,
    vault_account: AccountView,
    authority: AccountView,
    token_program: Seq<u8>,
    extensions: Option<MintExtensions>,
    tau_seconds: u64,
    now: i64,
) -> Result<(StakingPool, u8), StakingError> {
    let token_2022_id = TOKEN_2022_PROGRAM_ID@;
    if token_program != token_2022_id {
        Err(StakingError::InvalidTokenProgram)
    } else if !authority.is_signer {
        Err(StakingError::MissingRequiredSigner)
    } else if tau_seconds < MIN_TAU_SECONDS || tau_seconds > MAX_TAU_SECONDS {
        Err(StakingError::InvalidConfiguration)
    } else if mint_account.owner@ != token_2022_id {
        Err(StakingError::InvalidMintProgram)
    } else {
        match extensions {
            None => Err(StakingError::InvalidMintData),
            Some(ext) => if ext.transfer_fee || ext.permanent_delegate || ext.transfer_hook {
                Err(StakingError::UnsupportedAssetBehavior)
            } else {
                match program_address(POOL_SEED@, mint_account.key@, program_id) {
                    None => Err(StakingError::InvalidPoolAddress),
                    Some((pool_key, bump)) => if pool_key != pool_account.key@ {
                        Err(StakingError::InvalidPoolAddress)
                    } else {
                        match program_address(TOKEN_VAULT_SEED@, pool_account.key@, program_id) {
                            None => Err(StakingError::InvalidVaultAddress),
                            Some((vault_key, vault_bump)) => if vault_key != vault_account.key@ {
                                Err(StakingError::InvalidVaultAddress)
                            } else if pool_account.owner@ == program_id {
                                Err(StakingError::AlreadyInitialized)
                            } else {
                                Ok(
                                    (
                                        new_pool(
                                            mint_account.key,
                                            vault_account.key,
                                            pool_account.key,
                                            authority.key,
                                            tau_seconds,
                                            now,
                                            bump,
                                        ),
                                        vault_bump,
                                    ),
                                )
                            },
                        }
                    },
                }
            },
        }
    }
}

/// Checks the accounts and arguments of a new pool, given the extensions read
/// from its asset, and returns its ledger with the bump of the vault's
/// address. The pool itself holds the reward currency.
pub fn create_pool_ledger(
    program_id: &[u8; 32],
    pool_account: &AccountView,
    mint_account: &AccountView,
    vault_account: &AccountView,
    authority: &AccountView,
    token_program: &[u8; 32],
    extensions: Option<MintExtensions>,
    tau_seconds: u64,
    now: i64,
) -> (r: Result<(StakingPool, u8), StakingError>)
    ensures
        r == initialize_outcome(
            program_id@,
            *pool_account,
            *mint_account,
            *vault_account,
            *authority,
            token_program@,
            extensions,
            tau_seconds,
            now,
        ),
{
    let token_2022_id = token_2022_program_id();
    if !keys_equal(token_program, &token_2022_id) {
        return Err(StakingError::InvalidTokenProgram);
    }
    if !authority.is_signer {
        return Err(StakingError::MissingRequiredSigner);
    }
    if tau_seconds < MIN_TAU_SECONDS || tau_seconds > MAX_TAU_SECONDS {
        return Err(StakingError::InvalidConfiguration);
    }
    if !keys_equal(&mint_account.owner, &token_2022_id) {
        return Err(StakingError::InvalidMintProgram);
    }
    let ext = match extensions {
        None => {
            return Err(StakingError::InvalidMintData);
        },
        Some(e) => e,
    };
    if ext.transfer_fee || ext.permanent_delegate || ext.transfer_hook {
        return Err(StakingError::UnsupportedAssetBehavior);
    }
    let pool_seed: [u8; 4] = POOL_SEED;
    let (pool_key, bump) = match find_program_address(
        pool_seed.as_slice(),
        &mint_account.key,
        program_id,
    ) {
        None => {
            return Err(StakingError::InvalidPoolAddress);
        },
        Some(found) => found,
    };
    if !keys_equal(&pool_key, &pool_account.key) {
        return Err(StakingError::InvalidPoolAddress);
    }
    let vault_seed: [u8; 11] = TOKEN_VAULT_SEED;
    let vault_bump = match find_program_address(
        vault_seed.as_slice(),
        &pool_account.key,
        program_id,
    ) {
        None => {
            return Err(StakingError::InvalidVaultAddress);
        },
        Some((vault_key, vault_bump)) => {
            if !keys_equal(&vault_key, &vault_account.key) {
                return Err(StakingError::InvalidVaultAddress);
            }
            vault_bump
        },
    };
    if keys_equal(&pool_account.owner, program_id) {
        return Err(StakingError::AlreadyInitialized);
    }
    let pool = StakingPool::new(
        mint_account.key,
        vault_account.key,
        pool_account.key,
        authority.key,
        tau_seconds,
        now,
        bump,
    );
    Ok((pool, vault_bump))
}

/// Checks the accounts and arguments of a new pool, reading the extensions
/// from `mint_data`, the asset account's data, and returns its ledger with the
/// bump of the vault's address. The caller creates the two accounts and writes
/// the ledger.
pub fn process_initialize_pool(
    program_id: &[u8; 32],
    pool_account: &AccountView,
    mint_account: &AccountView,
    vault_account: &AccountView,
    authority: &AccountView,
    token_program: &[u8; 32],
    mint_data: &[u8],
    tau_seconds: u64,
    now: i64,
) -> (r: Result<(StakingPool, u8), StakingError>)
    ensures
        r == initialize_outcome(
            program_id@,
            *pool_account,
            *mint_account,
            *vault_account,
            *authority,
            token_program@,
            as_extensions(mint_extensions_of(mint_data@)),
            tau_seconds,
            now,
        ),
{
    let extensions = read_mint_extensions(mint_data);
    create_pool_ledger(
        program_id,
        pool_account,
        mint_account,
        vault_account,
        authority,
        token_program,
        extensions,
        tau_seconds,
        now,
    )
}

/// `value` where it is given, else `current`.
pub open spec fn setting(current: u64, value: Option<u64>) -> u64 {
    match value {
        Some(v) => v,
        None => current,
    }
}

/// The outcome of a settings update, from its accounts and arguments.
pub open spec fn settings_outcome(
    program_id: Seq<u8>,
    pool_account: AccountView,
    authority: AccountView,
    pool: StakingPool,
    min_stake_amount: Option<u64>,
    lock_duration_seconds: Option<u64>,
    unstake_cooldown_seconds: Option<u64>,
) -> Result<StakingPool, StakingError> {
    if !authority.is_signer {
        Err(StakingError::MissingRequiredSigner)
    } else if pool_account.owner@ != program_id {
        Err(StakingError::InvalidAccountOwner)
    } else if !pool.initialized {
        Err(StakingError::NotInitialized)
    } else if pool.authority_renounced {
        Err(StakingError::AuthorityRenounced)
    } else if pool.authority@ != authority.key@ {
        Err(StakingError::InvalidAuthority)
    } else {
        Ok(
            StakingPool {
                min_stake_amount: setting(pool.min_stake_amount, min_stake_amount),
                lock_duration_seconds: setting(pool.lock_duration_seconds, lock_duration_seconds),
                unstake_cooldown_seconds: setting(
                    pool.unstake_cooldown_seconds,
                    unstake_cooldown_seconds,
                ),
                ..pool
            },
        )
    }
}

/// Sets each given policy parameter, signed by the pool's authority. On
/// success the caller writes `pool` back; on an error nothing is changed.
pub fn process_update_pool_settings(
    program_id: &[u8; 32],
    pool_account: &AccountView,
    authority: &AccountView,
    pool: &mut StakingPool,
    min_stake_amount: Option<u64>,
    lock_duration_seconds: Option<u64>,
    unstake_cooldown_seconds: Option<u64>,
) -> (r: Result<(), StakingError>)
    ensures
        match settings_outcome(
            program_id@,
            *pool_account,
            *authority,
            *old(pool),
            min_stake_amount,
            lock_duration_seconds,
            unstake_cooldown_seconds,
        ) {
            Ok(p) => r is Ok && *final(pool) == p,
            Err(e) => r == Err::<(), StakingError>(e) && *final(pool) == *old(pool),
        },
{
    if !authority.is_signer {
        return Err(StakingError::MissingRequiredSigner);
    }
    if !keys_equal(&pool_account.owner, program_id) {
        return Err(StakingError::InvalidAccountOwner);
    }
    if !pool.is_initialized() {
        return Err(StakingError::NotInitialized);
    }
    if pool.is_authority_renounced() {
        return Err(StakingError::AuthorityRenounced);
    }
    if !keys_equal(&pool.authority, &authority.key) {
        return Err(StakingError::InvalidAuthority);
    }
    if let Some(v) = min_stake_amount {
        pool.min_stake_amount = v;
    }
    if let Some(v) = lock_duration_seconds {
        pool.lock_duration_seconds = v;
    }
    if let Some(v) = unstake_cooldown_seconds {
        pool.unstake_cooldown_seconds = v;
    }
    Ok(())
}

} // verus!
