use vstd::prelude::*;

verus! {

/// Every way an operation of the vault or of a lock wallet fails. Any error
/// aborts the whole transaction.
#[derive(Debug)]
pub enum ContractError {
    /// The sender is neither the owner nor, where allowed, whitelisted.
    Unauthorized,
    /// Not exactly one coin was sent, or its amount is zero.
    InvalidFunds,
    /// A swap step failed or answered without a usable payload.
    SwapError { val: String },
    /// A pool join failed or answered without a usable payload.
    AddLiquidityError { val: String },
    /// A pool exit failed or answered without a usable payload.
    RemoveLiquidityError { val: String },
    /// A deposit below the minimum, an unknown duration, a bad amount.
    ValidationError { val: String },
    /// No wallet is registered for the (owner, pool, duration) key.
    WalletNotFound,
    /// The stored contract name does not allow the upgrade.
    MigrationError { val: String },
    /// A version text is not a SemVer version.
    SemVer { val: String },
    /// Anything else, such as a reply with an unknown tag.
    CustomError { val: String },
}

} // verus!
