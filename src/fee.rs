use vstd::prelude::*;

use crate::error::ErrorCode;
use crate::state::{Mint, TransferFeeConfig};

verus! {

/// One hundred percent, in basis points.
pub const MAX_FEE_BASIS_POINTS: u16 = 10000;

/// A configuration is usable when it charges less than everything.
pub open spec fn config_valid(c: TransferFeeConfig) -> bool {
    c.transfer_fee_basis_points < MAX_FEE_BASIS_POINTS
}

pub open spec fn mint_valid(m: Mint) -> bool {
    match m.transfer_fee {
        None => true,
        Some(c) => config_valid(c),
    }
}

/// The rate applied to `amount`, rounded down, before the cap.
pub open spec fn fee_before_cap(bps: nat, amount: nat) -> nat {
    amount * bps / 10000
}

/// The fee withheld when `amount` is moved: the rate, rounded down, capped.
pub open spec fn capped_fee(c: TransferFeeConfig, amount: nat) -> nat {
    let raw = fee_before_cap(c.transfer_fee_basis_points as nat, amount);
    if raw > c.maximum_fee { c.maximum_fee as nat } else { raw }
}

/// The least fee `f` with `fee_before_cap(bps, net + f) == f`: zero when the
/// rate takes less than one unit of `net`, else the least `f` for which
/// `net * bps < 10000 + f * (10000 - bps)`.
pub open spec fn inverse_before_cap(bps: nat, net: nat) -> nat {
    if net * bps < 10000 {
        0
    } else {
        ((net * bps - 10000) as nat / (10000 - bps) as nat + 1) as nat
    }
}

/// The fee to add on top of `net` so that what arrives after the transfer's
/// own fee is `net`, capped.
pub open spec fn capped_inverse_fee(c: TransferFeeConfig, net: nat) -> nat {
    let raw = inverse_before_cap(c.transfer_fee_basis_points as nat, net);
    if raw > c.maximum_fee { c.maximum_fee as nat } else { raw }
}

pub open spec fn mint_fee(m: Mint, amount: nat) -> nat {
    match m.transfer_fee {
        None => 0,
        Some(c) => capped_fee(c, amount),
    }
}

pub open spec fn mint_inverse_fee(m: Mint, net: nat) -> nat {
    match m.transfer_fee {
        None => 0,
        Some(c) => capped_inverse_fee(c, net),
    }
}

pub open spec fn mint_max_fee(m: Mint) -> nat {
    match m.transfer_fee {
        None => 0,
        Some(c) => c.maximum_fee as nat,
    }
}

/// The fee is at most the amount moved and at most the mint's cap.
pub proof fn lemma_fee_bounded(m: Mint, amount: nat)
    requires
        mint_valid(m),
    ensures
        mint_fee(m, amount) <= amount,
        mint_fee(m, amount) <= mint_max_fee(m),
{
    if let Some(c) = m.transfer_fee {
        let bps = c.transfer_fee_basis_points as nat;
        assert(amount * bps <= amount * 10000) by (nonlinear_arith)
            requires bps < 10000;
        assert(amount * bps / 10000 <= amount) by (nonlinear_arith)
            requires amount * bps <= amount * 10000;
    }
}

/// The fee never decreases as the amount moved grows, for a fixed mint.
pub proof fn lemma_fee_monotonic(m: Mint, a: nat, b: nat)
    requires
        a <= b,
    ensures
        mint_fee(m, a) <= mint_fee(m, b),
{
    if let Some(c) = m.transfer_fee {
        let bps = c.transfer_fee_basis_points as nat;
        assert(a * bps <= b * bps) by (nonlinear_arith)
            requires a <= b;
        assert(a * bps / 10000 <= b * bps / 10000) by (nonlinear_arith)
            requires a * bps <= b * bps;
    }
}

/// Without the cap, the inverse fee is a fixed point: moving
/// `net + inverse_before_cap(bps, net)` withholds exactly that fee.
proof fn lemma_inverse_before_cap_fixed_point(bps: nat, net: nat)
    requires
        bps < 10000,
    ensures
        fee_before_cap(bps, net + inverse_before_cap(bps, net)) == inverse_before_cap(bps, net),
{
    let f = inverse_before_cap(bps, net);
    let d: int = 10000 - bps;
    if net * bps < 10000 {
        assert(net * bps / 10000 == 0) by (nonlinear_arith)
            requires net * bps < 10000;
    } else {
        let q: int = (net * bps - 10000) / d;
        assert(q * d <= net * bps - 10000 < (q + 1) * d) by (nonlinear_arith)
            requires q == (net * bps - 10000) / d, d > 0, net * bps >= 10000;
        assert(f == q + 1);
        assert(f * 10000 <= (net + f) * bps < (f + 1) * 10000) by (nonlinear_arith)
            requires
                q * d <= net * bps - 10000 < (q + 1) * d,
                f == q + 1,
                d == 10000 - bps,
                bps < 10000;
        assert((net + f) * bps / 10000 == f) by (nonlinear_arith)
            requires f * 10000 <= (net + f) * bps < (f + 1) * 10000;
    }
}

/// Below the uncapped inverse fee, the rate on `net + g` still exceeds `g`.
proof fn lemma_below_inverse(bps: nat, net: nat, g: nat)
    requires
        bps < 10000,
        g < inverse_before_cap(bps, net),
    ensures
        fee_before_cap(bps, net + g) >= g,
{
    let d: int = 10000 - bps;
    let q: int = (net * bps - 10000) / d;
    assert(net * bps >= 10000);
    assert(q * d <= net * bps - 10000) by (nonlinear_arith)
        requires q == (net * bps - 10000) / d, d > 0, net * bps >= 10000;
    assert(g <= q);
    assert(g * d <= q * d) by (nonlinear_arith)
        requires g <= q, d > 0;
    assert(g * 10000 <= (net + g) * bps) by (nonlinear_arith)
        requires g * d <= net * bps - 10000, d == 10000 - bps;
    assert((net + g) * bps / 10000 >= g) by (nonlinear_arith)
        requires g * 10000 <= (net + g) * bps;
}

/// Adding the inverse fee to a net amount and moving the sum withholds that
/// same fee, so exactly the net amount arrives; this holds with the cap too.
pub proof fn lemma_inverse_fee_round_trip(m: Mint, net: nat)
    requires
        mint_valid(m),
    ensures
        mint_fee(m, net + mint_inverse_fee(m, net)) == mint_inverse_fee(m, net),
{
    if let Some(c) = m.transfer_fee {
        let bps = c.transfer_fee_basis_points as nat;
        let raw = inverse_before_cap(bps, net);
        lemma_inverse_before_cap_fixed_point(bps, net);
        if raw > c.maximum_fee {
            lemma_below_inverse(bps, net, c.maximum_fee as nat);
        }
    }
}

/// The fee withheld when `amount` of `mint` is moved.
pub fn get_transfer_fee(mint: &Mint, amount: u64) -> (r: Result<u64, ErrorCode>)
    ensures
        match r {
            Ok(fee) => mint_valid(*mint) && fee == mint_fee(*mint, amount as nat),
            Err(e) => !mint_valid(*mint) && e == ErrorCode::InvalidFeeConfig,
        },
{
    match mint.transfer_fee {
        None => Ok(0),
        Some(c) => {
            if c.transfer_fee_basis_points >= MAX_FEE_BASIS_POINTS {
                return Err(ErrorCode::InvalidFeeConfig);
            }
            let bps = c.transfer_fee_basis_points as u128;
            let a = amount as u128;
            assert(a * bps < 0x1_0000_0000_0000_0000_0000) by (nonlinear_arith)
                requires a < 0x1_0000_0000_0000_0000, bps < 0x1_0000;
            let raw: u128 = a * bps / 10000;
            if raw > c.maximum_fee as u128 {
                Ok(c.maximum_fee)
            } else {
                Ok(raw as u64)
            }
        },
    }
}

/// The fee to add on top of `net_amount` of `mint` so that, once the
/// transfer withholds its fee, `net_amount` arrives.
pub fn get_transfer_inverse_fee(mint: &Mint, net_amount: u64) -> (r: Result<u64, ErrorCode>)
    ensures
        match r {
            Ok(fee) => mint_valid(*mint) && fee == mint_inverse_fee(*mint, net_amount as nat),
            Err(e) => !mint_valid(*mint) && e == ErrorCode::InvalidFeeConfig,
        },
{
    match mint.transfer_fee {
        None => Ok(0),
        Some(c) => {
            if c.transfer_fee_basis_points >= MAX_FEE_BASIS_POINTS {
                return Err(ErrorCode::InvalidFeeConfig);
            }
            let bps = c.transfer_fee_basis_points as u128;
            let n = net_amount as u128;
            assert(n * bps < 0x1_0000_0000_0000_0000_0000) by (nonlinear_arith)
                requires n < 0x1_0000_0000_0000_0000, bps < 0x1_0000;
            let product: u128 = n * bps;
            let raw: u128 = if product < 10000 {
                0
            } else {
                (product - 10000) / (10000 - bps) + 1
            };
            if raw > c.maximum_fee as u128 {
                Ok(c.maximum_fee)
            } else {
                Ok(raw as u64)
            }
        },
    }
}

} // verus!
