use vstd::prelude::*;
use crate::amm::{pool_price, spec_reported_price, spec_trade, trade};
use crate::errors::ErrorCode;
use crate::events::SwapExecuted;
use crate::identity::Identity;
use crate::state::{PlayerState, Treasury};

verus! {

/// What a sale of `wealth_in` base units for credits comes to, by the
/// treasury's rules and the balances read for the trade: the credits that
/// the player receives and the notification, or the reason for the refusal.
/// The checks stand in the order in which they are made; the first that
/// fails names the error.
pub open spec fn spec_swap_wealth_for_credits(
    treasury: Treasury,
    credits: u64,
    user: Identity,
    user_base_balance: u64,
    base_reserve: u64,
    quote_reserve: u64,
    wealth_in: u64,
    min_credits_out: u64,
    now: i64,
) -> Result<(u64, SwapExecuted), ErrorCode> {
    if treasury.paused {
        Err(ErrorCode::TreasuryPaused)
    } else if wealth_in == 0 {
        Err(ErrorCode::ZeroAmount)
    } else if wealth_in > treasury.max_trade_units {
        Err(ErrorCode::TradeTooLarge)
    } else if user_base_balance < wealth_in {
        Err(ErrorCode::InsufficientFunds)
    } else if base_reserve < treasury.min_base_liquidity || quote_reserve
        < treasury.min_quote_liquidity {
        Err(ErrorCode::PoolNotReady)
    } else {
        match spec_trade(base_reserve, quote_reserve, wealth_in, treasury.fee_bps) {
            Err(e) => Err(e),
            Ok(t) => if t.gross_out == 0 {
                Err(ErrorCode::InsufficientLiquidity)
            } else if t.net_out < min_credits_out {
                Err(ErrorCode::SlippageExceeded)
            } else {
                match (
                    spec_reported_price(quote_reserve as int, base_reserve as int),
                    spec_reported_price(t.reserve_out_after as int, t.reserve_in_after as int),
                ) {
                    (Ok(price_before), Ok(price_after)) => if credits + t.net_out > u64::MAX {
                        Err(ErrorCode::MathError)
                    } else {
                        Ok(
                            (
                                t.net_out,
                                SwapExecuted {
                                    user,
                                    base_in: wealth_in,
                                    quote_out: 0,
                                    fee_paid: t.fee,
                                    price_before,
                                    price_after,
                                    timestamp: now,
                                },
                            ),
                        )
                    },
                    _ => Err(ErrorCode::MathError),
                }
            },
        }
    }
}

/// Sells `wealth_in` base units of the user to the pool for credits.
///
/// `user_base_balance` is the user's base-currency balance, and
/// `base_reserve` and `quote_reserve` are the balances of the treasury's two
/// vaults, all as read for this trade. On success the player's credits rise
/// by what the pool pays after its fee, and the caller owes the base vault
/// `wealth_in` base units from the user. On failure the player is left as it
/// was.
pub fn swap_wealth_for_credits(
    treasury: &Treasury,
    player: &mut PlayerState,
    user: Identity,
    user_base_balance: u64,
    base_reserve: u64,
    quote_reserve: u64,
    wealth_in: u64,
    min_credits_out: u64,
    now: i64,
) -> (r: Result<SwapExecuted, ErrorCode>)
    ensures
        match spec_swap_wealth_for_credits(
            *treasury,
            old(player).credits,
            user,
            user_base_balance,
            base_reserve,
            quote_reserve,
            wealth_in,
            min_credits_out,
            now,
        ) {
            Ok((credits_out, event)) => {
                &&& r == Ok::<SwapExecuted, ErrorCode>(event)
                &&& *final(player) == (PlayerState {
                    credits: (old(player).credits + credits_out) as u64,
                    ..*old(player)
                })
            },
            Err(e) => {
                &&& r == Err::<SwapExecuted, ErrorCode>(e)
                &&& *final(player) == *old(player)
            },
        },
        old(player).wf() ==> final(player).wf(),
{
    if treasury.paused {
        return Err(ErrorCode::TreasuryPaused);
    }
    if wealth_in == 0 {
        return Err(ErrorCode::ZeroAmount);
    }
    if wealth_in > treasury.max_trade_units {
        return Err(ErrorCode::TradeTooLarge);
    }
    if user_base_balance < wealth_in {
        return Err(ErrorCode::InsufficientFunds);
    }
    if base_reserve < treasury.min_base_liquidity || quote_reserve < treasury.min_quote_liquidity {
        return Err(ErrorCode::PoolNotReady);
    }
    let t = match trade(base_reserve, quote_reserve, wealth_in, treasury.fee_bps) {
        Ok(t) => t,
        Err(e) => {
            return Err(e);
        },
    };
    if t.gross_out == 0 {
        return Err(ErrorCode::InsufficientLiquidity);
    }
    if t.net_out < min_credits_out {
        return Err(ErrorCode::SlippageExceeded);
    }
    let price_before = match pool_price(quote_reserve as u128, base_reserve as u128) {
        Ok(p) => p,
        Err(e) => {
            return Err(e);
        },
    };
    let price_after = match pool_price(t.reserve_out_after as u128, t.reserve_in_after) {
        Ok(p) => p,
        Err(e) => {
            return Err(e);
        },
    };
    let credits = match player.credits.checked_add(t.net_out) {
        Some(c) => c,
        None => {
            return Err(ErrorCode::MathError);
        },
    };
    player.credits = credits;
    Ok(
        SwapExecuted {
            user,
            base_in: wealth_in,
            quote_out: 0,
            fee_paid: t.fee,
            price_before,
            price_after,
            timestamp: now,
        },
    )
}

} // verus!
