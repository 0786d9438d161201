use chiefstaker::error::StakingError;
use chiefstaker::fee::{process_take_fee_ownership, PFEE_PROGRAM_ID};
use chiefstaker::lifecycle::process_request_unstake;
use chiefstaker::math::WAD;
use chiefstaker::setup::{
    create_pool_ledger, process_initialize_pool, process_update_pool_settings, MintExtensions,
};
use chiefstaker::state::{AccountView, StakingPool, UserStake};
use solana_program::program_option::COption;
use solana_program::pubkey::Pubkey;
use spl_token_2022::extension::transfer_hook::TransferHook;
use spl_token_2022::extension::{BaseStateWithExtensionsMut, ExtensionType, StateWithExtensionsMut};
use spl_token_2022::state::Mint;

const PROGRAM: [u8; 32] = [7u8; 32];
const MINT: [u8; 32] = [9u8; 32];
const OWNER: [u8; 32] = [3u8; 32];
const AUTHORITY: [u8; 32] = [2u8; 32];

fn derived(seed: &[u8], base: &[u8; 32]) -> ([u8; 32], u8) {
    let (key, bump) = Pubkey::find_program_address(&[seed, base], &Pubkey::new_from_array(PROGRAM));
    (key.to_bytes(), bump)
}

fn token_2022() -> [u8; 32] {
    spl_token_2022::id().to_bytes()
}

fn pool_key() -> [u8; 32] {
    derived(b"pool", &MINT).0
}

fn account(key: [u8; 32], owner: [u8; 32], is_signer: bool) -> AccountView {
    AccountView { key, owner, lamports: 0, is_signer }
}

fn pool(lock: u64, cooldown: u64) -> StakingPool {
    let mut p = StakingPool::new(MINT, [1u8; 32], pool_key(), AUTHORITY, 3600, 0, 255);
    p.total_staked = 1000;
    p.lock_duration_seconds = lock;
    p.unstake_cooldown_seconds = cooldown;
    p
}

fn position(amount: u64, last_stake_time: i64) -> UserStake {
    UserStake {
        owner: OWNER,
        pool: pool_key(),
        amount,
        last_stake_time,
        reward_snapshot: 0,
        unstake_request_amount: 0,
        unstake_request_time: 0,
        initialized: true,
    }
}

fn request(p: &StakingPool, s: &mut UserStake, amount: u64, now: i64) -> Result<(), StakingError> {
    process_request_unstake(
        &PROGRAM,
        &account(pool_key(), PROGRAM, false),
        &account([5u8; 32], PROGRAM, false),
        &account(OWNER, [0u8; 32], true),
        p,
        s,
        amount,
        now,
    )
}

#[test]
fn request_blocked_until_lock_elapses() {
    let p = pool(100, 0);
    let mut s = position(50, 1000);
    assert_eq!(request(&p, &mut s, 10, 1099), Err(StakingError::StakeLocked));
    assert_eq!(s.unstake_request_amount, 0);
    assert_eq!(request(&p, &mut s, 10, 1100), Ok(()));
    assert_eq!(s.unstake_request_amount, 10);
    assert_eq!(s.unstake_request_time, 1100);
    assert_eq!(s.amount, 50);
}

#[test]
fn request_before_last_stake_time_is_locked() {
    let p = pool(100, 0);
    let mut s = position(50, 1000);
    assert_eq!(request(&p, &mut s, 10, 900), Err(StakingError::StakeLocked));
}

#[test]
fn request_without_lock_is_immediate() {
    let p = pool(0, 0);
    let mut s = position(50, 1000);
    assert_eq!(request(&p, &mut s, 50, 1000), Ok(()));
}

#[test]
fn second_request_fails_while_pending() {
    let p = pool(0, 0);
    let mut s = position(50, 0);
    assert_eq!(request(&p, &mut s, 10, 5), Ok(()));
    assert_eq!(request(&p, &mut s, 10, 6), Err(StakingError::PendingUnstakeRequestExists));
    assert_eq!(request(&p, &mut s, 40, 7), Err(StakingError::PendingUnstakeRequestExists));
    assert_eq!(request(&p, &mut s, 1000, 7), Err(StakingError::PendingUnstakeRequestExists));
    assert_eq!(s.unstake_request_amount, 10);
    assert_eq!(s.unstake_request_time, 5);
}

#[test]
fn request_errors() {
    let p = pool(0, 0);
    let mut s = position(50, 0);
    assert_eq!(request(&p, &mut s, 0, 5), Err(StakingError::ZeroAmount));
    assert_eq!(request(&p, &mut s, 51, 5), Err(StakingError::InsufficientStakeBalance));
    let mut other = position(50, 0);
    other.owner = [4u8; 32];
    assert_eq!(request(&p, &mut other, 5, 5), Err(StakingError::InvalidOwner));
    let mut elsewhere = position(50, 0);
    elsewhere.pool = [4u8; 32];
    assert_eq!(request(&p, &mut elsewhere, 5, 5), Err(StakingError::InvalidPool));
    let mut blank = position(50, 0);
    blank.initialized = false;
    assert_eq!(request(&p, &mut blank, 5, 5), Err(StakingError::NotInitialized));
    let r = process_request_unstake(
        &PROGRAM,
        &account(pool_key(), PROGRAM, false),
        &account([5u8; 32], [8u8; 32], false),
        &account(OWNER, [0u8; 32], true),
        &p,
        &mut s,
        5,
        5,
    );
    assert_eq!(r, Err(StakingError::InvalidAccountOwner));
    let r = process_request_unstake(
        &PROGRAM,
        &account(pool_key(), PROGRAM, false),
        &account([5u8; 32], PROGRAM, false),
        &account(OWNER, [0u8; 32], false),
        &p,
        &mut s,
        5,
        5,
    );
    assert_eq!(r, Err(StakingError::MissingRequiredSigner));
}

#[test]
fn complete_unstake_after_cooldown() {
    let mut p = pool(0, 60);
    p.acc_reward_per_weighted_share = 2 * WAD;
    let mut s = position(50, 0);
    assert_eq!(s.complete_unstake(&mut p, 10), Err(StakingError::NoPendingUnstakeRequest));
    assert_eq!(s.request_unstake(20, 0, 100), Ok(()));
    assert_eq!(s.complete_unstake(&mut p, 159), Err(StakingError::CooldownNotElapsed));
    assert_eq!(s.amount, 50);
    assert_eq!(s.complete_unstake(&mut p, 160), Ok((20, 100)));
    assert_eq!(s.amount, 30);
    assert_eq!(s.unstake_request_amount, 0);
    assert_eq!(s.reward_snapshot, 2 * WAD);
    assert_eq!(p.total_staked, 980);
}

#[test]
fn stake_settles_reward_and_moves_snapshot() {
    let mut p = pool(0, 0);
    p.acc_reward_per_weighted_share = WAD / 4;
    let mut s = position(40, 0);
    assert_eq!(s.stake(&mut p, 60, 9), Ok(10));
    assert_eq!(s.amount, 100);
    assert_eq!(s.reward_snapshot, WAD / 4);
    assert_eq!(s.last_stake_time, 9);
    assert_eq!(p.total_staked, 1060);
    assert_eq!(s.pending_reward(WAD / 4), Ok(0));
}

#[test]
fn pending_reward_overflow() {
    let s = position(u64::MAX, 0);
    assert_eq!(s.pending_reward(u128::MAX), Err(StakingError::ArithmeticOverflow));
}

fn init(
    pool_account: AccountView,
    vault_key: [u8; 32],
    mint_owner: [u8; 32],
    token_program: [u8; 32],
    ext: Option<MintExtensions>,
    tau: u64,
) -> Result<(StakingPool, u8), StakingError> {
    create_pool_ledger(
        &PROGRAM,
        &pool_account,
        &account(MINT, mint_owner, false),
        &account(vault_key, [0u8; 32], false),
        &account(AUTHORITY, [0u8; 32], true),
        &token_program,
        ext,
        tau,
        77,
    )
}

fn plain() -> Option<MintExtensions> {
    Some(MintExtensions { transfer_fee: false, permanent_delegate: false, transfer_hook: false })
}

#[test]
fn initialize_creates_empty_ledger() {
    let (pool_addr, bump) = derived(b"pool", &MINT);
    let (vault, vault_bump) = derived(b"token_vault", &pool_addr);
    let fresh = account(pool_addr, [0u8; 32], false);
    let (p, got_vault_bump) = init(fresh, vault, token_2022(), token_2022(), plain(), 60).unwrap();
    assert_eq!(got_vault_bump, vault_bump);
    assert_eq!(p.mint, MINT);
    assert_eq!(p.token_vault, vault);
    assert_eq!(p.reward_vault, pool_addr);
    assert_eq!(p.authority, AUTHORITY);
    assert_eq!(p.total_staked, 0);
    assert_eq!(p.acc_reward_per_weighted_share, 0);
    assert_eq!(p.last_synced_lamports, 0);
    assert_eq!(p.last_update_time, 77);
    assert_eq!(p.tau_seconds, 60);
    assert_eq!(p.bump, bump);
    assert!(p.is_initialized());
    assert!(!p.is_authority_renounced());
    assert!(init(fresh, vault, token_2022(), token_2022(), plain(), 315_360_000).is_ok());
}

#[test]
fn initialize_errors() {
    let (pool_addr, _) = derived(b"pool", &MINT);
    let vault = derived(b"token_vault", &pool_addr).0;
    let fresh = account(pool_addr, [0u8; 32], false);
    assert_eq!(
        init(fresh, vault, token_2022(), [1u8; 32], plain(), 60).unwrap_err(),
        StakingError::InvalidTokenProgram
    );
    assert_eq!(
        init(fresh, vault, token_2022(), token_2022(), plain(), 59).unwrap_err(),
        StakingError::InvalidConfiguration
    );
    assert_eq!(
        init(fresh, vault, token_2022(), token_2022(), plain(), 315_360_001).unwrap_err(),
        StakingError::InvalidConfiguration
    );
    assert_eq!(
        init(fresh, vault, [1u8; 32], token_2022(), plain(), 60).unwrap_err(),
        StakingError::InvalidMintProgram
    );
    assert_eq!(
        init(fresh, vault, token_2022(), token_2022(), None, 60).unwrap_err(),
        StakingError::InvalidMintData
    );
    let hooked = Some(MintExtensions { transfer_fee: false, permanent_delegate: false, transfer_hook: true });
    assert_eq!(
        init(fresh, vault, token_2022(), token_2022(), hooked, 60).unwrap_err(),
        StakingError::UnsupportedAssetBehavior
    );
    let fee = Some(MintExtensions { transfer_fee: true, permanent_delegate: false, transfer_hook: false });
    assert_eq!(
        init(fresh, vault, token_2022(), token_2022(), fee, 60).unwrap_err(),
        StakingError::UnsupportedAssetBehavior
    );
    let delegate = Some(MintExtensions { transfer_fee: false, permanent_delegate: true, transfer_hook: false });
    assert_eq!(
        init(fresh, vault, token_2022(), token_2022(), delegate, 60).unwrap_err(),
        StakingError::UnsupportedAssetBehavior
    );
    assert_eq!(
        init(account(MINT, [0u8; 32], false), vault, token_2022(), token_2022(), plain(), 60).unwrap_err(),
        StakingError::InvalidPoolAddress
    );
    assert_eq!(
        init(fresh, [1u8; 32], token_2022(), token_2022(), plain(), 60).unwrap_err(),
        StakingError::InvalidVaultAddress
    );
    assert_eq!(
        init(account(pool_addr, PROGRAM, false), vault, token_2022(), token_2022(), plain(), 60).unwrap_err(),
        StakingError::AlreadyInitialized
    );
}

#[test]
fn settings_update_by_authority() {
    let mut p = pool(5, 6);
    let pa = account(pool_key(), PROGRAM, false);
    let auth = account(AUTHORITY, [0u8; 32], true);
    assert_eq!(process_update_pool_settings(&PROGRAM, &pa, &auth, &mut p, Some(10), None, Some(99)), Ok(()));
    assert_eq!(p.min_stake_amount, 10);
    assert_eq!(p.lock_duration_seconds, 5);
    assert_eq!(p.unstake_cooldown_seconds, 99);

    let stranger = account([4u8; 32], [0u8; 32], true);
    assert_eq!(
        process_update_pool_settings(&PROGRAM, &pa, &stranger, &mut p, Some(1), None, None),
        Err(StakingError::InvalidAuthority)
    );
    let unsigned = account(AUTHORITY, [0u8; 32], false);
    assert_eq!(
        process_update_pool_settings(&PROGRAM, &pa, &unsigned, &mut p, Some(1), None, None),
        Err(StakingError::MissingRequiredSigner)
    );
    p.authority_renounced = true;
    assert_eq!(
        process_update_pool_settings(&PROGRAM, &pa, &auth, &mut p, Some(1), None, None),
        Err(StakingError::AuthorityRenounced)
    );
    assert_eq!(p.min_stake_amount, 10);
}

#[test]
fn take_fee_ownership_payloads() {
    let p = pool(0, 0);
    let pa = account(pool_key(), PROGRAM, false);
    let calls = process_take_fee_ownership(&PROGRAM, &pa, &MINT, &PFEE_PROGRAM_ID, &p).unwrap();
    let mut expected = vec![189u8, 13, 136, 99, 187, 164, 237, 35, 1, 0, 0, 0];
    expected.extend_from_slice(&pool_key());
    expected.extend_from_slice(&10000u16.to_le_bytes());
    assert_eq!(calls.update_fee_shares, expected);
    assert_eq!(calls.update_fee_shares.len(), 46);
    assert_eq!(calls.revoke_authority, vec![18u8, 233, 158, 39, 185, 207, 58, 104]);
    assert_eq!(
        process_take_fee_ownership(&PROGRAM, &pa, &[1u8; 32], &PFEE_PROGRAM_ID, &p).unwrap_err(),
        StakingError::InvalidPoolMint
    );
    assert_eq!(
        process_take_fee_ownership(&PROGRAM, &pa, &MINT, &[1u8; 32], &p).unwrap_err(),
        StakingError::IncorrectProgramId
    );
    let pfee = Pubkey::new_from_array(PFEE_PROGRAM_ID).to_string();
    assert_eq!(pfee, "pfeeUxB6jkeY1Hxd7CsFCAjcbHA9rWtchMGdZ6VojVZ");
}

fn mint_data(with_hook: bool) -> Vec<u8> {
    let kinds: Vec<ExtensionType> =
        if with_hook { vec![ExtensionType::TransferHook] } else { vec![] };
    let len = ExtensionType::try_calculate_account_len::<Mint>(&kinds).unwrap();
    let mut data = vec![0u8; len];
    let mut state = StateWithExtensionsMut::<Mint>::unpack_uninitialized(&mut data).unwrap();
    if with_hook {
        state.init_extension::<TransferHook>(true).unwrap();
    }
    state.base = Mint {
        mint_authority: COption::None,
        supply: 0,
        decimals: 6,
        is_initialized: true,
        freeze_authority: COption::None,
    };
    state.pack_base();
    state.init_account_type().unwrap();
    data
}

fn init_from_data(data: &[u8]) -> Result<(StakingPool, u8), StakingError> {
    let (pool_addr, _) = derived(b"pool", &MINT);
    let vault = derived(b"token_vault", &pool_addr).0;
    process_initialize_pool(
        &PROGRAM,
        &account(pool_addr, [0u8; 32], false),
        &account(MINT, token_2022(), false),
        &account(vault, [0u8; 32], false),
        &account(AUTHORITY, [0u8; 32], true),
        &token_2022(),
        data,
        600,
        1,
    )
}

#[test]
fn initialize_reads_mint_extensions() {
    let (p, _) = init_from_data(&mint_data(false)).unwrap();
    assert_eq!(p.tau_seconds, 600);
    assert_eq!(init_from_data(&mint_data(true)).unwrap_err(), StakingError::UnsupportedAssetBehavior);
    assert_eq!(init_from_data(&[1u8; 10]).unwrap_err(), StakingError::InvalidMintData);
    let uninitialized = vec![0u8; 82];
    assert_eq!(init_from_data(&uninitialized).unwrap_err(), StakingError::InvalidMintData);
}

#[test]
fn token_program_id_matches_declared_id() {
    assert_eq!(chiefstaker::setup::TOKEN_2022_PROGRAM_ID, spl_token_2022::id().to_bytes());
}
