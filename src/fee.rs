//! Handing the asset's trading-fee revenue to the pool: the checks, and the
//! payloads of the two calls into the fee-sharing program.
use vstd::prelude::*;

use crate::error::StakingError;
use crate::state::{
    keys_equal, pool_account_error, pool_address, validate_pool_account, AccountView, StakingPool,
};

verus! {

/// The fee-sharing program (`pfeeUxB6jkeY1Hxd7CsFCAjcbHA9rWtchMGdZ6VojVZ`).
pub const PFEE_PROGRAM_ID: [u8; 32] = [
    0x0c, 0x35, 0xff, 0xa9, 0x05, 0x5a, 0x8e, 0x56,
    0x8d, 0xa8, 0xf7, 0xbc, 0x07, 0x56, 0x15, 0x27,
    0x4c, 0xf1, 0xc9, 0x2c, 0xa4, 0x1f, 0x40, 0x00,
    0x9c, 0x51, 0x6a, 0xa4, 0x14, 0xc2, 0x7c, 0x70,
];

/// Discriminator of the fee-sharing program's `update_fee_shares`.
pub const UPDATE_FEE_SHARES_DISC: [u8; 8] = [189, 13, 136, 99, 187, 164, 237, 35];

/// Discriminator of the fee-sharing program's `revoke_fee_sharing_authority`.
pub const REVOKE_FEE_SHARING_AUTHORITY_DISC: [u8; 8] = [18, 233, 158, 39, 185, 207, 58, 104];

/// The payloads of the two calls that make the pool the sole fee recipient
/// and then give up the fee-sharing authority.
#[derive(Debug)]
pub struct FeeOwnershipCalls {
    pub update_fee_shares: Vec<u8>,
    pub revoke_authority: Vec<u8>,
}

/// `update_fee_shares` with one shareholder, the pool, at 10000 basis points:
/// discriminator, a vector length of one, the pool's key, the share.
pub open spec fn update_fee_shares_data(pool_key: Seq<u8>) -> Seq<u8> {
    UPDATE_FEE_SHARES_DISC@ + seq![1u8, 0u8, 0u8, 0u8] + pool_key + seq![0x10u8, 0x27u8]
}

/// The outcome of taking fee ownership, from its accounts.
pub open spec fn take_fee_outcome(
    program_id: Seq<u8>,
    pool_account: AccountView,
    mint: Seq<u8>,
    pfee_program: Seq<u8>,
    pool: StakingPool,
) -> Result<(Seq<u8>, Seq<u8>), StakingError> {
    match pool_account_error(program_id, pool_account, pool, pool_address(pool.mint@, program_id)) {
        Some(e) => Err(e),
        None => if pool.mint@ != mint {
            Err(StakingError::InvalidPoolMint)
        } else if pfee_program != PFEE_PROGRAM_ID@ {
            Err(StakingError::IncorrectProgramId)
        } else {
            Ok((update_fee_shares_data(pool_account.key@), REVOKE_FEE_SHARING_AUTHORITY_DISC@))
        },
    }
}

/// Appends `bytes` to `out`.
fn push_all(out: &mut Vec<u8>, bytes: &[u8])
    ensures
        final(out)@ == old(out)@ + bytes@,
{
    let mut i: usize = 0;
    while i < bytes.len()
        invariant
            0 <= i <= bytes@.len(),
            out@ == old(out)@ + bytes@.subrange(0, i as int),
        decreases bytes@.len() - i,
    {
        out.push(bytes[i]);
        i = i + 1;
        assert(bytes@.subrange(0, i as int) =~= bytes@.subrange(0, i - 1) + seq![bytes@[i - 1]]);
    }
    assert(bytes@.subrange(0, bytes@.len() as int) =~= bytes@);
}

/// Checks the pool and the fee-sharing program, and builds the payloads of
/// the two calls, which the caller signs with the pool's address seeds.
pub fn process_take_fee_ownership(
    program_id: &[u8; 32],
    pool_account: &AccountView,
    mint: &[u8; 32],
    pfee_program: &[u8; 32],
    pool: &StakingPool,
) -> (r: Result<FeeOwnershipCalls, StakingError>)
    ensures
        match take_fee_outcome(program_id@, *pool_account, mint@, pfee_program@, *pool) {
            Ok((update, revoke)) => r is Ok && r.unwrap().update_fee_shares@ == update
                && r.unwrap().revoke_authority@ == revoke,
            Err(e) => r is Err && r.unwrap_err() == e,
        },
{
    if let Err(e) = validate_pool_account(program_id, pool_account, pool) {
        return Err(e);
    }
    if !keys_equal(&pool.mint, mint) {
        return Err(StakingError::InvalidPoolMint);
    }
    let pfee: [u8; 32] = PFEE_PROGRAM_ID;
    if !keys_equal(pfee_program, &pfee) {
        return Err(StakingError::IncorrectProgramId);
    }
    let update_disc: [u8; 8] = UPDATE_FEE_SHARES_DISC;
    let count: [u8; 4] = [1, 0, 0, 0];
    let share: [u8; 2] = [0x10, 0x27];
    let mut update: Vec<u8> = Vec::new();
    push_all(&mut update, update_disc.as_slice());
    push_all(&mut update, count.as_slice());
    push_all(&mut update, pool_account.key.as_slice());
    push_all(&mut update, share.as_slice());
    assert(count@ =~= seq![1u8, 0u8, 0u8, 0u8]);
    assert(share@ =~= seq![0x10u8, 0x27u8]);
    let revoke_disc: [u8; 8] = REVOKE_FEE_SHARING_AUTHORITY_DISC;
    let mut revoke: Vec<u8> = Vec::new();
    push_all(&mut revoke, revoke_disc.as_slice());
    assert(revoke@ =~= REVOKE_FEE_SHARING_AUTHORITY_DISC@);
    Ok(FeeOwnershipCalls { update_fee_shares: update, revoke_authority: revoke })
}

} // verus!
