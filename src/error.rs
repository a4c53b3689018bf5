use vstd::prelude::*;

verus! {

/// Every way in which a swap can be aborted. Any of them leaves all accounts
/// and the pool exactly as they were.
#[derive(Clone, Copy, Debug, PartialEq, Eq, Structural)]
pub enum ErrorCode {
    /// The pool's open time has not yet strictly passed.
    PoolNotOpen,
    /// A mint's fee configuration charges 100% or more.
    InvalidFeeConfig,
    /// The pricing engine would have crossed the price limit.
    PriceLimitExceeded,
    /// The pricing engine ran out of liquidity.
    InsufficientLiquidity,
    /// A transfer's source holds less than the amount to move.
    InsufficientBalance,
    /// An amount or a balance would leave the range of `u64`.
    AmountOverflow,
    /// An exact-input swap paid out less than the caller's minimum.
    TooLittleOutputReceived,
    /// An exact-output swap took more than the caller's maximum.
    TooMuchInputPaid,
}

} // verus!
