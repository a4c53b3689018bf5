use vstd::prelude::*;

verus! {

/// A 32-byte account address, held as its high and low halves.
#[derive(Clone, Copy, Debug, PartialEq, Eq, Structural)]
pub struct Pubkey {
    pub hi: u128,
    pub lo: u128,
}

/// Fee-on-transfer parameters of a mint: a rate in basis points and a cap.
#[derive(Clone, Copy, Debug, PartialEq, Eq, Structural)]
pub struct TransferFeeConfig {
    pub transfer_fee_basis_points: u16,
    pub maximum_fee: u64,
}

/// A token mint; without a fee configuration its transfers are free.
#[derive(Clone, Copy, Debug, PartialEq, Eq, Structural)]
pub struct Mint {
    pub key: Pubkey,
    pub transfer_fee: Option<TransferFeeConfig>,
}

/// A token balance held by a user or by one of the pool's vaults.
#[derive(Clone, Copy, Debug, PartialEq, Eq, Structural)]
pub struct TokenAccount {
    pub key: Pubkey,
    pub mint: Pubkey,
    pub amount: u64,
}

/// The part of a pool that a swap reads or changes.
#[derive(Clone, Copy, Debug, PartialEq, Eq, Structural)]
pub struct PoolState {
    pub key: Pubkey,
    pub token_mint_0: Pubkey,
    pub token_mint_1: Pubkey,
    /// Swaps are accepted only strictly after this instant.
    pub open_time: u64,
    /// Square root of the price, Q64.64.
    pub sqrt_price_x64: u128,
    pub liquidity: u128,
    pub tick_current: i32,
}

/// What the pricing engine returns for a request: the counter amount and the
/// pool's price, liquidity and tick after the swap.
#[derive(Clone, Copy, Debug, PartialEq, Eq, Structural)]
pub struct PriceQuote {
    pub amount_other: u64,
    pub sqrt_price_x64: u128,
    pub liquidity: u128,
    pub tick_current: i32,
}

/// What the pricing engine is asked: sell token 0 (`zero_for_one`) or
/// token 1, for a fee-adjusted amount that is the input when
/// `is_base_input` and the output otherwise, within a price limit.
#[derive(Clone, Copy, Debug, PartialEq, Eq, Structural)]
pub struct PriceRequest {
    pub zero_for_one: bool,
    pub amount: u64,
    pub sqrt_price_limit_x64: u128,
    pub is_base_input: bool,
}

/// The record of one executed swap, ordered by the pool's token index.
#[derive(Clone, Copy, Debug, PartialEq, Eq, Structural)]
pub struct SwapEvent {
    pub pool_state: Pubkey,
    pub sender: Pubkey,
    pub token_account_0: Pubkey,
    pub token_account_1: Pubkey,
    pub amount_0: u64,
    pub transfer_fee_0: u64,
    pub amount_1: u64,
    pub transfer_fee_1: u64,
    pub zero_for_one: bool,
    pub sqrt_price_x64: u128,
    pub liquidity: u128,
    pub tick: i32,
}

impl SwapEvent {
    /// The fee of the leg that paid into the pool.
    pub open spec fn spec_fee_of_input_leg(self) -> u64 {
        if self.zero_for_one { self.transfer_fee_0 } else { self.transfer_fee_1 }
    }

    /// The fee of the leg that paid out of the pool.
    pub open spec fn spec_fee_of_output_leg(self) -> u64 {
        if self.zero_for_one { self.transfer_fee_1 } else { self.transfer_fee_0 }
    }
}

/// What a settled swap hands back: the realized amount and the event to emit.
#[derive(Clone, Copy, Debug, PartialEq, Eq, Structural)]
pub struct SwapOutcome {
    pub amount: u64,
    pub event: SwapEvent,
}

/// The accounts of one swap: the payer, the pool, the user's two token
/// accounts, the pool's two vaults and the vaults' mints.
#[derive(Clone, Copy, Debug, PartialEq, Eq, Structural)]
pub struct SwapSingleV2 {
    pub payer: Pubkey,
    pub pool_state: PoolState,
    pub input_token_account: TokenAccount,
    pub output_token_account: TokenAccount,
    pub input_vault: TokenAccount,
    pub output_vault: TokenAccount,
    pub input_vault_mint: Mint,
    pub output_vault_mint: Mint,
}

} // verus!
