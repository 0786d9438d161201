use vstd::prelude::*;

verus! {

/// Every way an operation of the pool can be refused.
#[derive(Clone, Copy, Debug, PartialEq, Eq, Structural)]
pub enum StakingError {
    /// An amount of zero was given where a positive amount is required.
    ZeroAmount,
    /// An account that must sign the operation did not.
    MissingRequiredSigner,
    /// An account is not owned by this program.
    InvalidAccountOwner,
    /// A record has not been initialized.
    NotInitialized,
    /// A record exists already where a new one is to be created.
    AlreadyInitialized,
    /// The pool account is not the one derived from the pool's asset.
    InvalidPoolAddress,
    /// The token vault is not the one derived from the pool.
    InvalidVaultAddress,
    /// A scaled product or a sum does not fit the arithmetic width.
    ArithmeticOverflow,
    /// A configuration value lies outside its allowed range.
    InvalidConfiguration,
    /// The staked asset has a behaviour under which its balance could diverge
    /// from the ledger.
    UnsupportedAssetBehavior,
    /// The token program named is not the one the pool works with.
    InvalidTokenProgram,
    /// The asset is not owned by the expected token program.
    InvalidMintProgram,
    /// The asset account does not hold a valid mint.
    InvalidMintData,
    /// The asset named does not match the pool's asset.
    InvalidPoolMint,
    /// An external program named is not the expected one.
    IncorrectProgramId,
    /// The signer is not the owner of the stake position.
    InvalidOwner,
    /// The stake position belongs to another pool.
    InvalidPool,
    /// A withdrawal request is already pending on the position.
    PendingUnstakeRequestExists,
    /// No withdrawal request is pending on the position.
    NoPendingUnstakeRequest,
    /// The requested amount exceeds the staked principal.
    InsufficientStakeBalance,
    /// The lock period since the last stake has not elapsed.
    StakeLocked,
    /// The cooldown period since the withdrawal request has not elapsed.
    CooldownNotElapsed,
    /// A stake below the pool's minimum stake amount.
    BelowMinimumStake,
    /// The pool's authority has been renounced.
    AuthorityRenounced,
    /// The signer is not the pool's authority.
    InvalidAuthority,
}

} // verus!
