use vstd::prelude::*;

use crate::state::{PoolState, Pubkey};

verus! {

/// Which of the pool's tokens the swap sells.
///
/// The user's input account is always debited and the input vault credited;
/// the direction only decides how the two sides are ordered by the pool's
/// token index (for pricing and for the event).
#[derive(Clone, Copy, Debug, PartialEq, Eq, Structural)]
pub enum SwapDirection {
    /// Token 0 in, token 1 out.
    ZeroForOne,
    /// Token 1 in, token 0 out.
    OneForZero,
}

impl SwapDirection {
    pub open spec fn spec_is_zero_for_one(self) -> bool {
        self == SwapDirection::ZeroForOne
    }

    /// The pair (token 0 side, token 1 side) for the given input and output
    /// sides.
    pub open spec fn spec_order<T>(self, input_side: T, output_side: T) -> (T, T) {
        if self.spec_is_zero_for_one() {
            (input_side, output_side)
        } else {
            (output_side, input_side)
        }
    }

    pub fn is_zero_for_one(&self) -> (r: bool)
        ensures
            r == self.spec_is_zero_for_one(),
    {
        match self {
            SwapDirection::ZeroForOne => true,
            SwapDirection::OneForZero => false,
        }
    }

    /// Orders an input-side and an output-side value by token index.
    pub fn order<T>(&self, input_side: T, output_side: T) -> (r: (T, T))
        ensures
            r == self.spec_order(input_side, output_side),
    {
        match self {
            SwapDirection::ZeroForOne => (input_side, output_side),
            SwapDirection::OneForZero => (output_side, input_side),
        }
    }
}

pub open spec fn spec_resolve_direction(input_mint: Pubkey, pool: PoolState) -> SwapDirection {
    if input_mint == pool.token_mint_0 {
        SwapDirection::ZeroForOne
    } else {
        SwapDirection::OneForZero
    }
}

/// The swap sells token 0 exactly when the input vault holds the pool's
/// first mint.
pub fn resolve_direction(input_mint: Pubkey, pool: &PoolState) -> (r: SwapDirection)
    ensures
        r == spec_resolve_direction(input_mint, *pool),
{
    if input_mint == pool.token_mint_0 {
        SwapDirection::ZeroForOne
    } else {
        SwapDirection::OneForZero
    }
}

} // verus!
