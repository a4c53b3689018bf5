use amm::direction::{resolve_direction, SwapDirection};
use amm::error::ErrorCode;
use amm::state::{
    Mint, PoolState, PriceQuote, Pubkey, SwapSingleV2, TokenAccount, TransferFeeConfig,
};
use amm::swap_v2::{check_slippage, exact_internal_v2, prepare_swap, swap_v2, validate_fee_config};

fn key(lo: u128) -> Pubkey {
    Pubkey { hi: 0, lo }
}

const MINT_0: u128 = 10;
const MINT_1: u128 = 11;
const USER_0: u128 = 20;
const USER_1: u128 = 21;
const VAULT_0: u128 = 30;
const VAULT_1: u128 = 31;
const OPEN_TIME: u64 = 50;
const NOW: u64 = 100;

fn fee(bps: u16, max: u64) -> Option<TransferFeeConfig> {
    Some(TransferFeeConfig { transfer_fee_basis_points: bps, maximum_fee: max })
}

fn pool() -> PoolState {
    PoolState {
        key: key(1),
        token_mint_0: key(MINT_0),
        token_mint_1: key(MINT_1),
        open_time: OPEN_TIME,
        sqrt_price_x64: 1 << 64,
        liquidity: 1_000_000,
        tick_current: 0,
    }
}

/// Accounts for a swap that sells token 0 when `zero_for_one`, token 1
/// otherwise; the user holds `user_in` of the input token and nothing of the
/// output token, each vault holds 10_000.
fn accounts(
    zero_for_one: bool,
    user_in: u64,
    fee_in: Option<TransferFeeConfig>,
    fee_out: Option<TransferFeeConfig>,
) -> SwapSingleV2 {
    let (mint_in, mint_out, user_in_key, user_out_key, vault_in, vault_out) = if zero_for_one {
        (MINT_0, MINT_1, USER_0, USER_1, VAULT_0, VAULT_1)
    } else {
        (MINT_1, MINT_0, USER_1, USER_0, VAULT_1, VAULT_0)
    };
    SwapSingleV2 {
        payer: key(2),
        pool_state: pool(),
        input_token_account: TokenAccount { key: key(user_in_key), mint: key(mint_in), amount: user_in },
        output_token_account: TokenAccount { key: key(user_out_key), mint: key(mint_out), amount: 0 },
        input_vault: TokenAccount { key: key(vault_in), mint: key(mint_in), amount: 10_000 },
        output_vault: TokenAccount { key: key(vault_out), mint: key(mint_out), amount: 10_000 },
        input_vault_mint: Mint { key: key(mint_in), transfer_fee: fee_in },
        output_vault_mint: Mint { key: key(mint_out), transfer_fee: fee_out },
    }
}

fn quote(amount_other: u64) -> Result<PriceQuote, ErrorCode> {
    Ok(PriceQuote { amount_other, sqrt_price_x64: 12345, liquidity: 777, tick_current: -3 })
}

#[test]
fn zero_fee_exact_input_realizes_counter_amount() {
    let mut ctx = accounts(true, 5000, None, None);
    let event = swap_v2(&mut ctx, NOW, 1000, 990, 0, true, quote(990)).unwrap();
    assert_eq!(ctx.output_token_account.amount, 990);
    assert_eq!(ctx.input_token_account.amount, 4000);
    assert_eq!(event.amount_0, 1000);
    assert_eq!(event.amount_1, 990);
}

#[test]
fn zero_fee_exact_input_below_threshold_fails() {
    let mut ctx = accounts(true, 5000, None, None);
    let before = ctx;
    let r = swap_v2(&mut ctx, NOW, 1000, 991, 0, true, quote(990));
    assert_eq!(r, Err(ErrorCode::TooLittleOutputReceived));
    assert_eq!(ctx, before);
}

#[test]
fn one_percent_input_fee_reduces_priced_amount() {
    let ctx = accounts(true, 5000, fee(100, 100), None);
    let req = prepare_swap(&ctx, NOW, 1000, 0, true).unwrap();
    assert_eq!(req.amount, 990);
    assert!(req.zero_for_one);
    assert!(req.is_base_input);
}

#[test]
fn exact_input_with_fees_on_both_legs() {
    let mut ctx = accounts(true, 5000, fee(100, 100), fee(200, 1000));
    let out = exact_internal_v2(&mut ctx, NOW, 1000, 0, true, quote(500)).unwrap();
    assert_eq!(ctx.input_token_account.amount, 4000);
    assert_eq!(ctx.input_vault.amount, 10_000 + 990);
    assert_eq!(ctx.output_vault.amount, 10_000 - 500);
    assert_eq!(ctx.output_token_account.amount, 490);
    assert_eq!(out.amount, 490);
    assert_eq!(out.event.transfer_fee_0, 10);
    assert_eq!(out.event.transfer_fee_1, 10);
}

#[test]
fn exact_output_delivers_specified_amount() {
    let mut ctx = accounts(true, 5000, fee(100, 100), fee(100, 100));
    let req = prepare_swap(&ctx, NOW, 990, 0, false).unwrap();
    assert_eq!(req.amount, 999);
    // The pool must receive 500; 500 + 5 loses 5 on the way in.
    let out = exact_internal_v2(&mut ctx, NOW, 990, 0, false, quote(500)).unwrap();
    assert_eq!(ctx.output_token_account.amount, 990);
    assert_eq!(ctx.output_vault.amount, 10_000 - 999);
    assert_eq!(ctx.input_vault.amount, 10_000 + 500);
    assert_eq!(ctx.input_token_account.amount, 5000 - 505);
    assert_eq!(out.amount, 5000 - 505);
    assert_eq!(out.event.amount_0, 505);
    assert_eq!(out.event.amount_1, 999);
}

#[test]
fn exact_output_above_threshold_fails() {
    let mut ctx = accounts(true, 5000, None, None);
    let before = ctx;
    // The realized amount is the input account's balance afterwards: 4500.
    let r = swap_v2(&mut ctx, NOW, 100, 4499, 0, false, quote(500));
    assert_eq!(r, Err(ErrorCode::TooMuchInputPaid));
    assert_eq!(ctx, before);
    let r = swap_v2(&mut ctx, NOW, 100, 4500, 0, false, quote(500));
    assert!(r.is_ok());
    assert_eq!(ctx.input_token_account.amount, 4500);
    assert_eq!(ctx.output_token_account.amount, 100);
}

#[test]
fn zero_for_one_debits_input_and_credits_output() {
    let mut ctx = accounts(true, 5000, None, None);
    let event = swap_v2(&mut ctx, NOW, 1000, 0, 0, true, quote(800)).unwrap();
    assert!(event.zero_for_one);
    assert_eq!(ctx.input_token_account.key, key(USER_0));
    assert_eq!(ctx.input_token_account.amount, 4000);
    assert_eq!(ctx.output_token_account.amount, 800);
    assert_eq!(ctx.input_vault.amount, 11_000);
    assert_eq!(ctx.output_vault.amount, 9_200);
    assert_eq!(event.token_account_0, key(USER_0));
    assert_eq!(event.token_account_1, key(USER_1));
    assert_eq!((event.amount_0, event.amount_1), (1000, 800));
}

#[test]
fn one_for_zero_debits_input_and_credits_output() {
    let mut ctx = accounts(false, 5000, None, None);
    assert_eq!(resolve_direction(ctx.input_vault.mint, &ctx.pool_state), SwapDirection::OneForZero);
    let event = swap_v2(&mut ctx, NOW, 1000, 0, 0, true, quote(800)).unwrap();
    assert!(!event.zero_for_one);
    // The account that the caller named as input is still the one debited.
    assert_eq!(ctx.input_token_account.key, key(USER_1));
    assert_eq!(ctx.input_token_account.amount, 4000);
    assert_eq!(ctx.output_token_account.amount, 800);
    assert_eq!(ctx.input_vault.amount, 11_000);
    assert_eq!(ctx.output_vault.amount, 9_200);
    // The event orders by token index.
    assert_eq!(event.token_account_0, key(USER_0));
    assert_eq!(event.token_account_1, key(USER_1));
    assert_eq!((event.amount_0, event.amount_1), (800, 1000));
}

#[test]
fn direction_orders_pairs() {
    assert_eq!(SwapDirection::ZeroForOne.order(1, 2), (1, 2));
    assert_eq!(SwapDirection::OneForZero.order(1, 2), (2, 1));
    assert!(SwapDirection::ZeroForOne.is_zero_for_one());
    assert!(!SwapDirection::OneForZero.is_zero_for_one());
}

#[test]
fn pool_takes_quoted_state() {
    let mut ctx = accounts(true, 5000, None, None);
    let event = swap_v2(&mut ctx, NOW, 1000, 0, 0, true, quote(800)).unwrap();
    assert_eq!(ctx.pool_state.sqrt_price_x64, 12345);
    assert_eq!(ctx.pool_state.liquidity, 777);
    assert_eq!(ctx.pool_state.tick_current, -3);
    assert_eq!((event.sqrt_price_x64, event.liquidity, event.tick), (12345, 777, -3));
    assert_eq!(event.pool_state, key(1));
    assert_eq!(event.sender, key(2));
}

#[test]
fn swap_at_open_time_fails() {
    let mut ctx = accounts(true, 5000, None, None);
    let before = ctx;
    assert_eq!(swap_v2(&mut ctx, OPEN_TIME, 1000, 0, 0, true, quote(800)), Err(ErrorCode::PoolNotOpen));
    assert_eq!(swap_v2(&mut ctx, OPEN_TIME - 1, 1000, 0, 0, true, quote(800)), Err(ErrorCode::PoolNotOpen));
    assert_eq!(ctx, before);
    assert!(swap_v2(&mut ctx, OPEN_TIME + 1, 1000, 0, 0, true, quote(800)).is_ok());
}

#[test]
fn invalid_fee_config_fails() {
    let mut ctx = accounts(true, 5000, None, fee(10000, 1));
    let before = ctx;
    assert_eq!(validate_fee_config(&ctx.output_vault_mint), Err(ErrorCode::InvalidFeeConfig));
    assert_eq!(validate_fee_config(&ctx.input_vault_mint), Ok(()));
    assert_eq!(swap_v2(&mut ctx, NOW, 1000, 0, 0, true, quote(800)), Err(ErrorCode::InvalidFeeConfig));
    assert_eq!(ctx, before);
}

#[test]
fn pricing_errors_propagate() {
    let mut ctx = accounts(true, 5000, None, None);
    let before = ctx;
    let r = exact_internal_v2(&mut ctx, NOW, 1000, 0, true, Err(ErrorCode::PriceLimitExceeded));
    assert_eq!(r, Err(ErrorCode::PriceLimitExceeded));
    let r = exact_internal_v2(&mut ctx, NOW, 1000, 0, true, Err(ErrorCode::InsufficientLiquidity));
    assert_eq!(r, Err(ErrorCode::InsufficientLiquidity));
    assert_eq!(ctx, before);
}

#[test]
fn user_short_of_input_fails() {
    let mut ctx = accounts(true, 999, None, None);
    let before = ctx;
    let r = exact_internal_v2(&mut ctx, NOW, 1000, 0, true, quote(800));
    assert_eq!(r, Err(ErrorCode::InsufficientBalance));
    assert_eq!(ctx, before);
}

#[test]
fn failed_outbound_leg_undoes_inbound_leg() {
    let mut ctx = accounts(true, 5000, None, None);
    let before = ctx;
    // The output vault holds 10_000 and cannot pay 10_001.
    let r = exact_internal_v2(&mut ctx, NOW, 1000, 0, true, quote(10_001));
    assert_eq!(r, Err(ErrorCode::InsufficientBalance));
    assert_eq!(ctx, before);
}

#[test]
fn amount_overflow_fails() {
    // The exact-output amount plus its inverse fee leaves u64.
    let ctx = accounts(true, 5000, None, fee(100, 100));
    assert_eq!(prepare_swap(&ctx, NOW, u64::MAX, 0, false), Err(ErrorCode::AmountOverflow));
    // The vault's balance would leave u64.
    let mut ctx = accounts(true, u64::MAX, None, None);
    ctx.input_vault.amount = u64::MAX - 10;
    let before = ctx;
    let r = exact_internal_v2(&mut ctx, NOW, 11, 0, true, quote(1));
    assert_eq!(r, Err(ErrorCode::AmountOverflow));
    assert_eq!(ctx, before);
}

#[test]
fn slippage_guard_boundaries() {
    assert_eq!(check_slippage(true, 990, 990), Ok(()));
    assert_eq!(check_slippage(true, 990, 991), Err(ErrorCode::TooLittleOutputReceived));
    assert_eq!(check_slippage(false, 990, 990), Ok(()));
    assert_eq!(check_slippage(false, 991, 990), Err(ErrorCode::TooMuchInputPaid));
}
