use vstd::prelude::*;
use crate::amm::{pool_price, spec_reported_price, spec_trade, trade};
use crate::errors::ErrorCode;
use crate::events::SwapExecuted;
use crate::identity::Identity;
use crate::state::{PlayerState, Treasury};

verus! {

/// What a sale of `credits_in` credits for base currency comes to, by the
/// treasury's rules and the reserves read from its two vaults: the
/// notification, whose `quote_out` is what the user receives in base units,
/// or the reason for the refusal. The checks stand in the order in which
/// they are made; the first that fails names the error.
pub open spec fn spec_swap_credits_for_wealth(
    treasury: Treasury,
    credits: u64,
    user: Identity,
    base_reserve: u64,
    quote_reserve: u64,
    credits_in: u64,
    min_wealth_out: u64,
    now: i64,
) -> Result<SwapExecuted, ErrorCode> {
    if treasury.paused {
        Err(ErrorCode::TreasuryPaused)
    } else if credits_in == 0 {
        Err(ErrorCode::ZeroAmount)
    } else if credits < credits_in {
        Err(ErrorCode::InsufficientCredits)
    } else if credits_in > treasury.max_trade_units {
        Err(ErrorCode::TradeTooLarge)
    } else if base_reserve < treasury.min_base_liquidity || quote_reserve
        < treasury.min_quote_liquidity {
        Err(ErrorCode::PoolNotReady)
    } else {
        match spec_trade(quote_reserve, base_reserve, credits_in, treasury.fee_bps) {
            Err(e) => Err(e),
            Ok(t) => if t.gross_out == 0 {
                Err(ErrorCode::InsufficientLiquidity)
            } else if t.net_out < min_wealth_out {
                Err(ErrorCode::SlippageExceeded)
            } else {
                match (
                    spec_reported_price(quote_reserve as int, base_reserve as int),
                    spec_reported_price(t.reserve_in_after as int, t.reserve_out_after as int),
                ) {
                    (Ok(price_before), Ok(price_after)) => Ok(
                        SwapExecuted {
                            user,
                            base_in: 0,
                            quote_out: t.net_out,
                            fee_paid: t.fee,
                            price_before,
                            price_after,
                            timestamp: now,
                        },
                    ),
                    _ => Err(ErrorCode::MathError),
                }
            },
        }
    }
}

/// Sells `credits_in` of the player's credits to the pool for base currency.
///
/// `base_reserve` and `quote_reserve` are the balances of the treasury's two
/// vaults as read for this trade. On success the player's credits fall by
/// `credits_in`, and the caller owes the user `quote_out` base units from the
/// base vault, as the returned notification says. On failure the player is
/// left as it was.
pub fn swap_credits_for_wealth(
    treasury: &Treasury,
    player: &mut PlayerState,
    user: Identity,
    base_reserve: u64,
    quote_reserve: u64,
    credits_in: u64,
    min_wealth_out: u64,
    now: i64,
) -> (r: Result<SwapExecuted, ErrorCode>)
    ensures
        r == spec_swap_credits_for_wealth(
            *treasury,
            old(player).credits,
            user,
            base_reserve,
            quote_reserve,
            credits_in,
            min_wealth_out,
            now,
        ),
        r is Ok ==> *final(player) == (PlayerState {
            credits: (old(player).credits - credits_in) as u64,
            ..*old(player)
        }),
        r is Err ==> *final(player) == *old(player),
        old(player).wf() ==> final(player).wf(),
{
    if treasury.paused {
        return Err(ErrorCode::TreasuryPaused);
    }
    if credits_in == 0 {
        return Err(ErrorCode::ZeroAmount);
    }
    if player.credits < credits_in {
        return Err(ErrorCode::InsufficientCredits);
    }
    if credits_in > treasury.max_trade_units {
        return Err(ErrorCode::TradeTooLarge);
    }
    if base_reserve < treasury.min_base_liquidity || quote_reserve < treasury.min_quote_liquidity {
        return Err(ErrorCode::PoolNotReady);
    }
    let t = match trade(quote_reserve, base_reserve, credits_in, treasury.fee_bps) {
        Ok(t) => t,
        Err(e) => {
            return Err(e);
        },
    };
    if t.gross_out == 0 {
        return Err(ErrorCode::InsufficientLiquidity);
    }
    if t.net_out < min_wealth_out {
        return Err(ErrorCode::SlippageExceeded);
    }
    let price_before = match pool_price(quote_reserve as u128, base_reserve as u128) {
        Ok(p) => p,
        Err(e) => {
            return Err(e);
        },
    };
    let price_after = match pool_price(t.reserve_in_after, t.reserve_out_after as u128) {
        Ok(p) => p,
        Err(e) => {
            return Err(e);
        },
    };
    player.credits = player.credits - credits_in;
    Ok(
        SwapExecuted {
            user,
            base_in: 0,
            quote_out: t.net_out,
            fee_paid: t.fee,
            price_before,
            price_after,
            timestamp: now,
        },
    )
}

} // verus!
