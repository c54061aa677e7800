use vstd::prelude::*;

verus! {

/// An account identity, as delivered by the host with each call.
#[derive(Clone, Copy, PartialEq, Eq, Structural, Debug, Hash)]
pub struct Address(pub u64);

/// Failure kinds of the engine; every failure leaves the state untouched.
#[derive(Clone, Copy, PartialEq, Eq, Structural, Debug)]
pub enum VaultError {
    /// A zero amount where a positive one is required.
    InvalidAmount,
    /// The attached deposit is under the vault's floor.
    BelowMinimum,
    /// Sender and recipient are the same identity.
    SelfTransfer,
    /// Owner and spender are the same identity.
    SelfApproval,
    /// The holder's balance is smaller than the amount.
    InsufficientBalance,
    /// The approved amount is smaller than the amount.
    InsufficientAllowance,
    /// Compounding was asked for with no yield.
    ZeroYield,
    /// The performance fee is above the allowed maximum.
    FeeTooHigh,
    /// The caller is not the owner of the vault.
    Unauthorized,
    /// The vault is paused.
    Paused,
    /// No withdrawal request has this id.
    NotFound,
    /// The caller did not make this withdrawal request.
    NotOwner,
    /// The withdrawal request was claimed already.
    AlreadyClaimed,
    /// The unbonding period of the request has not ended.
    StillLocked,
    /// The liquid part of the custody cannot cover the payout.
    InsufficientLiquidity,
    /// An amount would not fit in its integer type.
    Overflow,
    /// A conversion would divide by a zero exchange rate.
    ZeroRate,
}

} // verus!
