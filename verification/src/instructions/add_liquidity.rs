use vstd::prelude::*;
use crate::events::LiquidityAdded;

verus! {

/// Reports a deposit into the pool: `base_amount` newly issued base units
/// into the base vault and `quote_amount` quote units from the depositor
/// into the quote vault. The caller moves the tokens; `total_base_reserve`
/// and `total_quote_reserve` are the balances of the two vaults as the caller
/// has read them.
pub fn add_liquidity(
    base_amount: u64,
    quote_amount: u64,
    total_base_reserve: u64,
    total_quote_reserve: u64,
    now: i64,
) -> (event: LiquidityAdded)
    ensures
        event == (LiquidityAdded {
            base_amount,
            quote_amount,
            total_base_reserve,
            total_quote_reserve,
            timestamp: now,
        }),
{
    LiquidityAdded {
        base_amount,
        quote_amount,
        total_base_reserve,
        total_quote_reserve,
        timestamp: now,
    }
}

} // verus!
