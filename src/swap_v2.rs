use vstd::prelude::*;

use crate::direction::{resolve_direction, spec_resolve_direction, SwapDirection};
use crate::error::ErrorCode;
use crate::fee::{
    get_transfer_fee, get_transfer_inverse_fee, lemma_fee_bounded, lemma_inverse_fee_round_trip,
    mint_fee, mint_inverse_fee, mint_max_fee, mint_valid,
};
use crate::state::{
    Mint, PoolState, PriceQuote, PriceRequest, SwapEvent, SwapOutcome, SwapSingleV2, TokenAccount,
};

verus! {

pub open spec fn spec_direction(ctx: SwapSingleV2) -> SwapDirection {
    spec_resolve_direction(ctx.input_vault.mint, ctx.pool_state)
}

/// The amount handed to pricing: for an exact input, the specified amount
/// less the fee that the inbound transfer withholds; for an exact output,
/// the specified amount plus the fee that the outbound transfer withholds.
pub open spec fn spec_adjusted_amount(ctx: SwapSingleV2, amount: u64, is_base_input: bool) -> int {
    if is_base_input {
        amount - mint_fee(ctx.input_vault_mint, amount as nat)
    } else {
        amount + mint_inverse_fee(ctx.output_vault_mint, amount as nat)
    }
}

/// The request to the pricing engine, or why the swap stops before it.
pub open spec fn spec_prepare(
    ctx: SwapSingleV2,
    now: u64,
    amount: u64,
    sqrt_price_limit_x64: u128,
    is_base_input: bool,
) -> Result<PriceRequest, ErrorCode> {
    if now <= ctx.pool_state.open_time {
        Err(ErrorCode::PoolNotOpen)
    } else if !mint_valid(ctx.input_vault_mint) || !mint_valid(ctx.output_vault_mint) {
        Err(ErrorCode::InvalidFeeConfig)
    } else if spec_adjusted_amount(ctx, amount, is_base_input) > u64::MAX {
        Err(ErrorCode::AmountOverflow)
    } else {
        Ok(
            PriceRequest {
                zero_for_one: spec_direction(ctx).spec_is_zero_for_one(),
                amount: spec_adjusted_amount(ctx, amount, is_base_input) as u64,
                sqrt_price_limit_x64,
                is_base_input,
            },
        )
    }
}

/// The gross amount pulled from the user's input account: the specified
/// amount for an exact input; for an exact output, what the pool must
/// receive plus the fee that the inbound transfer withholds from it.
pub open spec fn spec_gross_in(ctx: SwapSingleV2, amount: u64, is_base_input: bool, q: PriceQuote) -> int {
    if is_base_input {
        amount as int
    } else {
        q.amount_other + mint_inverse_fee(ctx.input_vault_mint, q.amount_other as nat)
    }
}

/// The gross amount moved out of the output vault: the engine's counter
/// amount for an exact input, the adjusted specified amount otherwise.
pub open spec fn spec_gross_out(ctx: SwapSingleV2, amount: u64, is_base_input: bool, q: PriceQuote) -> int {
    if is_base_input {
        q.amount_other as int
    } else {
        spec_adjusted_amount(ctx, amount, is_base_input)
    }
}

pub open spec fn spec_fee_in(ctx: SwapSingleV2, amount: u64, is_base_input: bool, q: PriceQuote) -> int {
    mint_fee(ctx.input_vault_mint, spec_gross_in(ctx, amount, is_base_input, q) as nat) as int
}

pub open spec fn spec_fee_out(ctx: SwapSingleV2, amount: u64, is_base_input: bool, q: PriceQuote) -> int {
    mint_fee(ctx.output_vault_mint, spec_gross_out(ctx, amount, is_base_input, q) as nat) as int
}

/// Why settlement of a quote fails, in the order the checks are made:
/// the inbound leg (amount, user's balance, vault's room), then the
/// outbound leg (vault's balance, user's room).
pub open spec fn spec_settle_error(
    ctx: SwapSingleV2,
    amount: u64,
    is_base_input: bool,
    q: PriceQuote,
) -> Option<ErrorCode> {
    let gross_in = spec_gross_in(ctx, amount, is_base_input, q);
    let gross_out = spec_gross_out(ctx, amount, is_base_input, q);
    let fee_in = spec_fee_in(ctx, amount, is_base_input, q);
    let fee_out = spec_fee_out(ctx, amount, is_base_input, q);
    if gross_in > u64::MAX {
        Some(ErrorCode::AmountOverflow)
    } else if ctx.input_token_account.amount < gross_in {
        Some(ErrorCode::InsufficientBalance)
    } else if ctx.input_vault.amount + gross_in - fee_in > u64::MAX {
        Some(ErrorCode::AmountOverflow)
    } else if ctx.output_vault.amount < gross_out {
        Some(ErrorCode::InsufficientBalance)
    } else if ctx.output_token_account.amount + gross_out - fee_out > u64::MAX {
        Some(ErrorCode::AmountOverflow)
    } else {
        None
    }
}

/// Why a swap fails, if it does: before pricing, in pricing, or in settlement.
pub open spec fn spec_swap_error(
    ctx: SwapSingleV2,
    now: u64,
    amount: u64,
    sqrt_price_limit_x64: u128,
    is_base_input: bool,
    quote: Result<PriceQuote, ErrorCode>,
) -> Option<ErrorCode> {
    match spec_prepare(ctx, now, amount, sqrt_price_limit_x64, is_base_input) {
        Err(e) => Some(e),
        Ok(_) => match quote {
            Err(e) => Some(e),
            Ok(q) => spec_settle_error(ctx, amount, is_base_input, q),
        },
    }
}

/// The accounts after a settled swap: both transfers applied, each credit
/// reduced by its leg's fee, and the pool moved to the quoted state.
pub open spec fn spec_settled(ctx: SwapSingleV2, amount: u64, is_base_input: bool, q: PriceQuote) -> SwapSingleV2 {
    let gross_in = spec_gross_in(ctx, amount, is_base_input, q);
    let gross_out = spec_gross_out(ctx, amount, is_base_input, q);
    let fee_in = spec_fee_in(ctx, amount, is_base_input, q);
    let fee_out = spec_fee_out(ctx, amount, is_base_input, q);
    SwapSingleV2 {
        input_token_account: TokenAccount {
            amount: (ctx.input_token_account.amount - gross_in) as u64,
            ..ctx.input_token_account
        },
        input_vault: TokenAccount {
            amount: (ctx.input_vault.amount + gross_in - fee_in) as u64,
            ..ctx.input_vault
        },
        output_vault: TokenAccount {
            amount: (ctx.output_vault.amount - gross_out) as u64,
            ..ctx.output_vault
        },
        output_token_account: TokenAccount {
            amount: (ctx.output_token_account.amount + gross_out - fee_out) as u64,
            ..ctx.output_token_account
        },
        pool_state: PoolState {
            sqrt_price_x64: q.sqrt_price_x64,
            liquidity: q.liquidity,
            tick_current: q.tick_current,
            ..ctx.pool_state
        },
        ..ctx
    }
}

/// The realized amount and the event of a settled swap. The realized amount
/// is read back from the accounts: the output account's balance for an exact
/// input, the input account's balance for an exact output.
pub open spec fn spec_outcome(ctx: SwapSingleV2, amount: u64, is_base_input: bool, q: PriceQuote) -> SwapOutcome {
    let post = spec_settled(ctx, amount, is_base_input, q);
    let dir = spec_direction(ctx);
    let accounts = dir.spec_order(ctx.input_token_account.key, ctx.output_token_account.key);
    let amounts = dir.spec_order(
        spec_gross_in(ctx, amount, is_base_input, q) as u64,
        spec_gross_out(ctx, amount, is_base_input, q) as u64,
    );
    let fees = dir.spec_order(
        spec_fee_in(ctx, amount, is_base_input, q) as u64,
        spec_fee_out(ctx, amount, is_base_input, q) as u64,
    );
    SwapOutcome {
        amount: if is_base_input {
            post.output_token_account.amount
        } else {
            post.input_token_account.amount
        },
        event: SwapEvent {
            pool_state: ctx.pool_state.key,
            sender: ctx.payer,
            token_account_0: accounts.0,
            token_account_1: accounts.1,
            amount_0: amounts.0,
            transfer_fee_0: fees.0,
            amount_1: amounts.1,
            transfer_fee_1: fees.1,
            zero_for_one: dir.spec_is_zero_for_one(),
            sqrt_price_x64: q.sqrt_price_x64,
            liquidity: q.liquidity,
            tick: q.tick_current,
        },
    }
}

/// The slippage bound: an exact input must realize at least the threshold,
/// an exact output at most the threshold.
pub open spec fn spec_slippage_error(is_base_input: bool, realized: u64, threshold: u64) -> Option<ErrorCode> {
    if is_base_input {
        if realized >= threshold { None } else { Some(ErrorCode::TooLittleOutputReceived) }
    } else {
        if threshold >= realized { None } else { Some(ErrorCode::TooMuchInputPaid) }
    }
}

/// Fails with `InvalidFeeConfig` exactly when the mint's fee configuration
/// charges 100% or more.
pub fn validate_fee_config(mint: &Mint) -> (r: Result<(), ErrorCode>)
    ensures
        r is Ok <==> mint_valid(*mint),
        r is Err ==> r == Err::<(), ErrorCode>(ErrorCode::InvalidFeeConfig),
{
    match get_transfer_fee(mint, 0) {
        Ok(_) => Ok(()),
        Err(e) => Err(e),
    }
}

/// Validates the time and the fee configurations, adjusts the specified
/// amount for the transfer fee on the specified side, and resolves the
/// direction: the request to hand to the pricing engine.
pub fn prepare_swap(
    ctx: &SwapSingleV2,
    now: u64,
    amount_specified: u64,
    sqrt_price_limit_x64: u128,
    is_base_input: bool,
) -> (r: Result<PriceRequest, ErrorCode>)
    ensures
        r == spec_prepare(*ctx, now, amount_specified, sqrt_price_limit_x64, is_base_input),
        now <= ctx.pool_state.open_time ==> r == Err::<PriceRequest, ErrorCode>(
            ErrorCode::PoolNotOpen,
        ),
{
    if now <= ctx.pool_state.open_time {
        return Err(ErrorCode::PoolNotOpen);
    }
    match validate_fee_config(&ctx.input_vault_mint) {
        Ok(()) => {},
        Err(e) => return Err(e),
    }
    match validate_fee_config(&ctx.output_vault_mint) {
        Ok(()) => {},
        Err(e) => return Err(e),
    }
    let amount: u64 = if is_base_input {
        let fee = match get_transfer_fee(&ctx.input_vault_mint, amount_specified) {
            Ok(f) => f,
            Err(e) => return Err(e),
        };
        proof {
            lemma_fee_bounded(ctx.input_vault_mint, amount_specified as nat);
        }
        amount_specified - fee
    } else {
        let fee = match get_transfer_inverse_fee(&ctx.output_vault_mint, amount_specified) {
            Ok(f) => f,
            Err(e) => return Err(e),
        };
        if fee > u64::MAX - amount_specified {
            return Err(ErrorCode::AmountOverflow);
        }
        amount_specified + fee
    };
    let direction = resolve_direction(ctx.input_vault.mint, &ctx.pool_state);
    Ok(
        PriceRequest {
            zero_for_one: direction.is_zero_for_one(),
            amount,
            sqrt_price_limit_x64,
            is_base_input,
        },
    )
}

/// Performs a single exact-input or exact-output swap, given the pricing
/// engine's answer `quote` to the request of `prepare_swap`.
///
/// The user's input account pays the inbound leg into the input vault, then
/// the output vault pays the outbound leg into the user's output account;
/// each credit is the gross amount less its mint's transfer fee. Either both
/// legs and the pool's new state are applied, or nothing is. The realized
/// amount is the output account's balance for an exact input and the input
/// account's balance for an exact output.
pub fn exact_internal_v2(
    ctx: &mut SwapSingleV2,
    now: u64,
    amount_specified: u64,
    sqrt_price_limit_x64: u128,
    is_base_input: bool,
    quote: Result<PriceQuote, ErrorCode>,
) -> (r: Result<SwapOutcome, ErrorCode>)
    ensures
        match spec_swap_error(
            *old(ctx),
            now,
            amount_specified,
            sqrt_price_limit_x64,
            is_base_input,
            quote,
        ) {
            Some(e) => r == Err::<SwapOutcome, ErrorCode>(e),
            None => {
                &&& r == Ok::<SwapOutcome, ErrorCode>(
                    spec_outcome(*old(ctx), amount_specified, is_base_input, quote->Ok_0),
                )
                &&& *final(ctx) == spec_settled(
                    *old(ctx),
                    amount_specified,
                    is_base_input,
                    quote->Ok_0,
                )
            },
        },
        r is Err ==> *final(ctx) == *old(ctx),
        now <= old(ctx).pool_state.open_time ==> r == Err::<SwapOutcome, ErrorCode>(
            ErrorCode::PoolNotOpen,
        ),
        r is Ok ==> ({
            let q = quote->Ok_0;
            let fee_in = r->Ok_0.event.spec_fee_of_input_leg();
            let fee_out = r->Ok_0.event.spec_fee_of_output_leg();
            &&& old(ctx).input_token_account.amount - final(ctx).input_token_account.amount
                == spec_gross_in(*old(ctx), amount_specified, is_base_input, q)
            &&& final(ctx).input_vault.amount - old(ctx).input_vault.amount
                == spec_gross_in(*old(ctx), amount_specified, is_base_input, q) - fee_in
            &&& old(ctx).output_vault.amount - final(ctx).output_vault.amount
                == spec_gross_out(*old(ctx), amount_specified, is_base_input, q)
            &&& final(ctx).output_token_account.amount - old(ctx).output_token_account.amount
                == spec_gross_out(*old(ctx), amount_specified, is_base_input, q) - fee_out
            &&& fee_in <= mint_max_fee(old(ctx).input_vault_mint)
            &&& fee_out <= mint_max_fee(old(ctx).output_vault_mint)
            &&& is_base_input ==> old(ctx).input_token_account.amount
                - final(ctx).input_token_account.amount == amount_specified
            &&& !is_base_input ==> final(ctx).output_token_account.amount
                - old(ctx).output_token_account.amount == amount_specified
            &&& !is_base_input ==> final(ctx).input_vault.amount - old(ctx).input_vault.amount
                == q.amount_other
        }),
{
    let request = match prepare_swap(
        ctx,
        now,
        amount_specified,
        sqrt_price_limit_x64,
        is_base_input,
    ) {
        Ok(req) => req,
        Err(e) => return Err(e),
    };
    let q = match quote {
        Ok(q) => q,
        Err(e) => return Err(e),
    };
    let (gross_in, gross_out): (u64, u64) = if is_base_input {
        (amount_specified, q.amount_other)
    } else {
        let inverse_in = match get_transfer_inverse_fee(&ctx.input_vault_mint, q.amount_other) {
            Ok(f) => f,
            Err(e) => return Err(e),
        };
        if inverse_in > u64::MAX - q.amount_other {
            return Err(ErrorCode::AmountOverflow);
        }
        (q.amount_other + inverse_in, request.amount)
    };
    let fee_in = match get_transfer_fee(&ctx.input_vault_mint, gross_in) {
        Ok(f) => f,
        Err(e) => return Err(e),
    };
    let fee_out = match get_transfer_fee(&ctx.output_vault_mint, gross_out) {
        Ok(f) => f,
        Err(e) => return Err(e),
    };
    proof {
        lemma_fee_bounded(ctx.input_vault_mint, gross_in as nat);
        lemma_fee_bounded(ctx.output_vault_mint, gross_out as nat);
        lemma_inverse_fee_round_trip(ctx.input_vault_mint, q.amount_other as nat);
        lemma_inverse_fee_round_trip(ctx.output_vault_mint, amount_specified as nat);
    }
    // Inbound leg: the user pays, the vault receives less the fee.
    if ctx.input_token_account.amount < gross_in {
        return Err(ErrorCode::InsufficientBalance);
    }
    let credit_in = gross_in - fee_in;
    if ctx.input_vault.amount > u64::MAX - credit_in {
        return Err(ErrorCode::AmountOverflow);
    }
    // Outbound leg: the vault pays, the user receives less the fee.
    if ctx.output_vault.amount < gross_out {
        return Err(ErrorCode::InsufficientBalance);
    }
    let credit_out = gross_out - fee_out;
    if ctx.output_token_account.amount > u64::MAX - credit_out {
        return Err(ErrorCode::AmountOverflow);
    }
    // Every check has passed: commit both legs and the pool's new state.
    ctx.input_token_account.amount = ctx.input_token_account.amount - gross_in;
    ctx.input_vault.amount = ctx.input_vault.amount + credit_in;
    ctx.output_vault.amount = ctx.output_vault.amount - gross_out;
    ctx.output_token_account.amount = ctx.output_token_account.amount + credit_out;
    ctx.pool_state.sqrt_price_x64 = q.sqrt_price_x64;
    ctx.pool_state.liquidity = q.liquidity;
    ctx.pool_state.tick_current = q.tick_current;

    let direction = resolve_direction(ctx.input_vault.mint, &ctx.pool_state);
    let (token_account_0, token_account_1) = direction.order(
        ctx.input_token_account.key,
        ctx.output_token_account.key,
    );
    let (amount_0, amount_1) = direction.order(gross_in, gross_out);
    let (transfer_fee_0, transfer_fee_1) = direction.order(fee_in, fee_out);
    let event = SwapEvent {
        pool_state: ctx.pool_state.key,
        sender: ctx.payer,
        token_account_0,
        token_account_1,
        amount_0,
        transfer_fee_0,
        amount_1,
        transfer_fee_1,
        zero_for_one: direction.is_zero_for_one(),
        sqrt_price_x64: ctx.pool_state.sqrt_price_x64,
        liquidity: ctx.pool_state.liquidity,
        tick: ctx.pool_state.tick_current,
    };
    let amount = if is_base_input {
        ctx.output_token_account.amount
    } else {
        ctx.input_token_account.amount
    };
    Ok(SwapOutcome { amount, event })
}

/// Enforces the caller's slippage bound on a realized amount.
pub fn check_slippage(is_base_input: bool, realized: u64, threshold: u64) -> (r: Result<(), ErrorCode>)
    ensures
        match spec_slippage_error(is_base_input, realized, threshold) {
            Some(e) => r == Err::<(), ErrorCode>(e),
            None => r is Ok,
        },
{
    if is_base_input {
        if realized >= threshold {
            Ok(())
        } else {
            Err(ErrorCode::TooLittleOutputReceived)
        }
    } else {
        if threshold >= realized {
            Ok(())
        } else {
            Err(ErrorCode::TooMuchInputPaid)
        }
    }
}

/// Performs a swap and enforces the caller's slippage bound
/// `other_amount_threshold` (a minimum output for an exact input, a maximum
/// input for an exact output). On success the accounts are settled and the
/// event to emit is returned; on any error nothing has changed.
pub fn swap_v2(
    ctx: &mut SwapSingleV2,
    now: u64,
    amount: u64,
    other_amount_threshold: u64,
    sqrt_price_limit_x64: u128,
    is_base_input: bool,
    quote: Result<PriceQuote, ErrorCode>,
) -> (r: Result<SwapEvent, ErrorCode>)
    ensures
        match spec_swap_error(*old(ctx), now, amount, sqrt_price_limit_x64, is_base_input, quote) {
            Some(e) => r == Err::<SwapEvent, ErrorCode>(e),
            None => {
                let o = spec_outcome(*old(ctx), amount, is_base_input, quote->Ok_0);
                match spec_slippage_error(is_base_input, o.amount, other_amount_threshold) {
                    Some(e) => r == Err::<SwapEvent, ErrorCode>(e),
                    None => {
                        &&& r == Ok::<SwapEvent, ErrorCode>(o.event)
                        &&& *final(ctx) == spec_settled(
                            *old(ctx),
                            amount,
                            is_base_input,
                            quote->Ok_0,
                        )
                    },
                }
            },
        },
        r is Err ==> *final(ctx) == *old(ctx),
        now <= old(ctx).pool_state.open_time ==> r == Err::<SwapEvent, ErrorCode>(
            ErrorCode::PoolNotOpen,
        ),
        spec_swap_error(*old(ctx), now, amount, sqrt_price_limit_x64, is_base_input, quote) is None
            ==> ({
            let realized = spec_outcome(*old(ctx), amount, is_base_input, quote->Ok_0).amount;
            &&& is_base_input && realized < other_amount_threshold ==> r
                == Err::<SwapEvent, ErrorCode>(ErrorCode::TooLittleOutputReceived)
            &&& !is_base_input && realized > other_amount_threshold ==> r
                == Err::<SwapEvent, ErrorCode>(ErrorCode::TooMuchInputPaid)
        }),
{
    let mut work = *ctx;
    let outcome = match exact_internal_v2(
        &mut work,
        now,
        amount,
        sqrt_price_limit_x64,
        is_base_input,
        quote,
    ) {
        Ok(o) => o,
        Err(e) => return Err(e),
    };
    match check_slippage(is_base_input, outcome.amount, other_amount_threshold) {
        Ok(()) => {},
        Err(e) => return Err(e),
    }
    *ctx = work;
    Ok(outcome.event)
}

} // verus!
