use vstd::prelude::*;
use crate::errors::ErrorCode;

verus! {

/// What a constant-product pool pays for one trade.
#[derive(Clone, Copy, Debug, PartialEq, Eq)]
pub struct Trade {
    /// The reserve of the currency paid in, after the trade.
    pub reserve_in_after: u128,
    /// The reserve of the currency paid out, after the trade and before the
    /// fee is kept back.
    pub reserve_out_after: u64,
    /// What leaves the curve.
    pub gross_out: u64,
    /// The part of `gross_out` that the pool keeps.
    pub fee: u64,
    /// What the trader receives.
    pub net_out: u64,
}

/// The product of the two reserves, which a trade keeps from growing.
pub open spec fn spec_invariant_k(reserve_in: u64, reserve_out: u64) -> int {
    reserve_in * reserve_out
}

/// The reserve of the outgoing currency after `amount_in` has come in: the
/// product of the reserves divided by the new incoming reserve, rounded down.
pub open spec fn spec_reserve_out_after(reserve_in: u64, reserve_out: u64, amount_in: u64) -> int {
    spec_invariant_k(reserve_in, reserve_out) / (reserve_in + amount_in)
}

/// What leaves the curve for `amount_in`.
pub open spec fn spec_gross_out(reserve_in: u64, reserve_out: u64, amount_in: u64) -> int {
    reserve_out - spec_reserve_out_after(reserve_in, reserve_out, amount_in)
}

/// The fee on an outgoing amount at `fee_bps` basis points, rounded down.
pub open spec fn spec_trade_fee(gross_out: int, fee_bps: u16) -> int {
    gross_out * fee_bps / 10000
}

/// The trade that the pool makes for `amount_in`. `MathError` when nothing
/// stands on the incoming side after the trade, or the fee exceeds what
/// leaves the curve.
pub open spec fn spec_trade(reserve_in: u64, reserve_out: u64, amount_in: u64, fee_bps: u16) -> Result<
    Trade,
    ErrorCode,
> {
    let gross = spec_gross_out(reserve_in, reserve_out, amount_in);
    let fee = spec_trade_fee(gross, fee_bps);
    if reserve_in + amount_in == 0 {
        Err(ErrorCode::MathError)
    } else if fee > gross {
        Err(ErrorCode::MathError)
    } else {
        Ok(
            Trade {
                reserve_in_after: (reserve_in + amount_in) as u128,
                reserve_out_after: spec_reserve_out_after(reserve_in, reserve_out, amount_in) as u64,
                gross_out: gross as u64,
                fee: fee as u64,
                net_out: (gross - fee) as u64,
            },
        )
    }
}

/// The outgoing reserve never grows in a trade and never turns negative.
pub proof fn lemma_reserve_out_bounds(reserve_in: u64, reserve_out: u64, amount_in: u64)
    requires
        reserve_in + amount_in > 0,
    ensures
        0 <= spec_reserve_out_after(reserve_in, reserve_out, amount_in) <= reserve_out,
{
    let k = spec_invariant_k(reserve_in, reserve_out);
    let d = reserve_in + amount_in;
    assert(0 <= k <= reserve_out * d) by (nonlinear_arith)
        requires
            k == reserve_in * reserve_out,
            d == reserve_in + amount_in,
            reserve_in >= 0,
            reserve_out >= 0,
            amount_in >= 0,
    ;
    assert(0 <= k / d <= reserve_out) by (nonlinear_arith)
        requires
            d > 0,
            0 <= k <= reserve_out * d,
    ;
}

/// After a trade the product of the curve's reserves is at most what it was
/// before, and falls short of it by less than the new incoming reserve.
pub proof fn lemma_product_never_grows(reserve_in: u64, reserve_out: u64, amount_in: u64)
    requires
        reserve_in + amount_in > 0,
    ensures
        spec_reserve_out_after(reserve_in, reserve_out, amount_in) * (reserve_in + amount_in)
            <= spec_invariant_k(reserve_in, reserve_out),
        spec_invariant_k(reserve_in, reserve_out) < (spec_reserve_out_after(
            reserve_in,
            reserve_out,
            amount_in,
        ) + 1) * (reserve_in + amount_in),
{
    let k = spec_invariant_k(reserve_in, reserve_out);
    let d = reserve_in + amount_in;
    assert((k / d) * d <= k < (k / d + 1) * d) by (nonlinear_arith)
        requires
            d > 0,
    ;
}

/// A trade that brings something in takes something out, unless the
/// outgoing reserve is empty.
pub proof fn lemma_trade_pays_out(reserve_in: u64, reserve_out: u64, amount_in: u64)
    requires
        amount_in > 0,
    ensures
        reserve_out > 0 ==> spec_gross_out(reserve_in, reserve_out, amount_in) >= 1,
        reserve_out == 0 ==> spec_gross_out(reserve_in, reserve_out, amount_in) == 0,
{
    let k = spec_invariant_k(reserve_in, reserve_out);
    let d = reserve_in + amount_in;
    lemma_reserve_out_bounds(reserve_in, reserve_out, amount_in);
    if reserve_out > 0 {
        assert(k < reserve_out * d) by (nonlinear_arith)
            requires
                k == reserve_in * reserve_out,
                d == reserve_in + amount_in,
                reserve_out > 0,
                amount_in > 0,
                reserve_in >= 0,
        ;
        assert(k / d < reserve_out) by (nonlinear_arith)
            requires
                d > 0,
                k < reserve_out * d,
        ;
    }
}

/// Where the pool keeps a fee of at least one unit, the product of what the
/// pool really holds after the trade is above the product before it.
pub proof fn lemma_fee_keeps_product(reserve_in: u64, reserve_out: u64, amount_in: u64, fee_bps: u16)
    requires
        spec_trade(reserve_in, reserve_out, amount_in, fee_bps) is Ok,
        spec_trade(reserve_in, reserve_out, amount_in, fee_bps).unwrap().fee >= 1,
    ensures
        (reserve_out - spec_trade(reserve_in, reserve_out, amount_in, fee_bps).unwrap().net_out) * (
        reserve_in + amount_in) > spec_invariant_k(reserve_in, reserve_out),
{
    let k = spec_invariant_k(reserve_in, reserve_out);
    let d = reserve_in + amount_in;
    let after = spec_reserve_out_after(reserve_in, reserve_out, amount_in);
    let gross = spec_gross_out(reserve_in, reserve_out, amount_in);
    let fee = spec_trade_fee(gross, fee_bps);
    lemma_reserve_out_bounds(reserve_in, reserve_out, amount_in);
    lemma_product_never_grows(reserve_in, reserve_out, amount_in);
    assert(fee >= 0) by (nonlinear_arith)
        requires
            fee == gross * fee_bps / 10000,
            gross >= 0,
            fee_bps >= 0,
    ;
    let held = reserve_out - (gross - fee);
    assert(held == after + fee);
    assert(held * d >= (after + 1) * d) by (nonlinear_arith)
        requires
            held >= after + 1,
            d > 0,
    ;
}

/// Computes the trade that the pool makes for `amount_in`.
pub fn trade(reserve_in: u64, reserve_out: u64, amount_in: u64, fee_bps: u16) -> (r: Result<
    Trade,
    ErrorCode,
>)
    ensures
        r == spec_trade(reserve_in, reserve_out, amount_in, fee_bps),
        reserve_in + amount_in > 0 && fee_bps <= 10000 ==> r is Ok,
        r matches Ok(t) ==> t.net_out + t.fee == t.gross_out && t.gross_out + t.reserve_out_after
            == reserve_out && t.reserve_in_after == reserve_in + amount_in,
        r matches Ok(t) ==> t.reserve_in_after * t.reserve_out_after <= reserve_in * reserve_out,
{
    let reserve_in_after: u128 = reserve_in as u128 + amount_in as u128;
    if reserve_in_after == 0 {
        return Err(ErrorCode::MathError);
    }
    assert((reserve_in as u128) * (reserve_out as u128) <= 0xffff_ffff_ffff_ffff
        * 0xffff_ffff_ffff_ffff) by (nonlinear_arith)
        requires
            reserve_in <= 0xffff_ffff_ffff_ffff,
            reserve_out <= 0xffff_ffff_ffff_ffff,
    ;
    let k: u128 = (reserve_in as u128) * (reserve_out as u128);
    let reserve_out_after: u128 = k / reserve_in_after;
    proof {
        lemma_reserve_out_bounds(reserve_in, reserve_out, amount_in);
        lemma_product_never_grows(reserve_in, reserve_out, amount_in);
        assert(reserve_in_after * reserve_out_after == reserve_out_after * reserve_in_after)
            by (nonlinear_arith);
    }
    let gross: u128 = reserve_out as u128 - reserve_out_after;
    assert(gross * (fee_bps as u128) <= 0xffff_ffff_ffff_ffff * 0xffff) by (nonlinear_arith)
        requires
            gross <= 0xffff_ffff_ffff_ffff,
            fee_bps <= 0xffff,
    ;
    let fee: u128 = gross * (fee_bps as u128) / 10000;
    assert(fee_bps <= 10000 ==> gross * (fee_bps as u128) / 10000 <= gross) by (nonlinear_arith)
        requires
            gross >= 0,
            fee_bps >= 0,
    ;
    if fee > gross {
        return Err(ErrorCode::MathError);
    }
    Ok(
        Trade {
            reserve_in_after,
            reserve_out_after: reserve_out_after as u64,
            gross_out: gross as u64,
            fee: fee as u64,
            net_out: (gross - fee) as u64,
        },
    )
}

/// The price of the base currency in quote units, scaled by 1_000_000 and
/// rounded down; 0 for an empty base reserve.
pub open spec fn spec_pool_price(quote_reserve: int, base_reserve: int) -> int {
    if base_reserve > 0 {
        quote_reserve * 1_000_000 / base_reserve
    } else {
        0
    }
}

/// The price that the pool reports, where it fits 64 bits.
pub open spec fn spec_reported_price(quote_reserve: int, base_reserve: int) -> Result<u64, ErrorCode> {
    if spec_pool_price(quote_reserve, base_reserve) <= u64::MAX {
        Ok(spec_pool_price(quote_reserve, base_reserve) as u64)
    } else {
        Err(ErrorCode::MathError)
    }
}

/// Computes the price that the pool reports. `MathError` when the price does
/// not fit 64 bits.
pub(crate) fn pool_price(quote_reserve: u128, base_reserve: u128) -> (r: Result<u64, ErrorCode>)
    requires
        quote_reserve <= 0x2_0000_0000_0000_0000,
    ensures
        r == spec_reported_price(quote_reserve as int, base_reserve as int),
{
    if base_reserve == 0 {
        return Ok(0);
    }
    let price: u128 = quote_reserve * 1_000_000 / base_reserve;
    if price <= u64::MAX as u128 {
        Ok(price as u64)
    } else {
        Err(ErrorCode::MathError)
    }
}

} // verus!
