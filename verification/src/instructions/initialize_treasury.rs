use vstd::prelude::*;
use crate::errors::ErrorCode;
use crate::events::TreasuryInitialized;
use crate::identity::Identity;
use crate::state::{Treasury, MAX_FEE_BPS};

verus! {

/// The base reserve below which a new treasury does not trade.
pub const MIN_BASE_LIQUIDITY: u64 = 1000000;

/// The quote reserve below which a new treasury does not trade.
pub const MIN_QUOTE_LIQUIDITY: u64 = 100000;

/// Sets up the treasury. It starts paused, with the two liquidity floors,
/// and `admin` as the authority over its parameters. `FeeTooHigh` when the
/// fee exceeds ten percent.
pub fn initialize_treasury(
    admin: Identity,
    base_mint: Identity,
    quote_mint: Identity,
    base_vault: Identity,
    quote_vault: Identity,
    fee_bps: u16,
    max_trade_units: u64,
    bump: u8,
    slot: u64,
    now: i64,
) -> (r: Result<(Treasury, TreasuryInitialized), ErrorCode>)
    ensures
        fee_bps > MAX_FEE_BPS ==> r == Err::<(Treasury, TreasuryInitialized), ErrorCode>(
            ErrorCode::FeeTooHigh,
        ),
        fee_bps <= MAX_FEE_BPS ==> r == Ok::<(Treasury, TreasuryInitialized), ErrorCode>(
            (
                Treasury {
                    bump,
                    base_mint,
                    quote_mint,
                    base_vault,
                    quote_vault,
                    fee_bps,
                    max_trade_units,
                    paused: true,
                    min_base_liquidity: MIN_BASE_LIQUIDITY,
                    min_quote_liquidity: MIN_QUOTE_LIQUIDITY,
                    last_params_slot: slot,
                    params_authority: admin,
                },
                TreasuryInitialized { base_mint, quote_mint, fee_bps, timestamp: now },
            ),
        ),
        r matches Ok((treasury, _)) ==> treasury.wf(),
{
    if fee_bps > MAX_FEE_BPS {
        return Err(ErrorCode::FeeTooHigh);
    }
    let treasury = Treasury {
        bump,
        base_mint,
        quote_mint,
        base_vault,
        quote_vault,
        fee_bps,
        max_trade_units,
        paused: true,
        min_base_liquidity: MIN_BASE_LIQUIDITY,
        min_quote_liquidity: MIN_QUOTE_LIQUIDITY,
        last_params_slot: slot,
        params_authority: admin,
    };
    Ok((treasury, TreasuryInitialized { base_mint, quote_mint, fee_bps, timestamp: now }))
}

} // verus!
