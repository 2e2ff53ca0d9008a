use vstd::prelude::*;
use crate::errors::ErrorCode;
use crate::events::AssetBought;
use crate::identity::Identity;
use crate::math::{price_for_level, spec_level_charge, with_fee};
use crate::state::{AssetClass, GameConfig, Holding, Player};

verus! {

/// The holding that a purchase at `now` creates: level 1, no shield, no
/// risk, no pending upgrade, and every clock set to `now`.
pub open spec fn spec_new_holding(buyer: Identity, class: Identity, bump: u8, now: i64) -> Holding {
    Holding {
        player: buyer,
        class,
        level: 1,
        shield: 0,
        last_claim_ts: now,
        upgrade_end_ts: 0,
        last_defend_ts: now,
        last_risk_ts: now,
        risk_score: 0,
        bump,
    }
}

/// What a purchase comes to. The checks stand in the order in which they are
/// made; the first that fails names the error.
pub open spec fn spec_buy_asset(
    buyer: Identity,
    player: Player,
    game_config: GameConfig,
    asset_class: AssetClass,
    class: Identity,
    buyer_balance: u64,
    bump: u8,
    now: i64,
) -> Result<(Holding, AssetBought), ErrorCode> {
    if player.authority != buyer {
        Err(ErrorCode::Unauthorized)
    } else if game_config.paused {
        Err(ErrorCode::GamePaused)
    } else {
        match spec_level_charge(asset_class, game_config, 1) {
            Err(e) => Err(e),
            Ok(total_cost) => if buyer_balance < total_cost {
                Err(ErrorCode::InsufficientFunds)
            } else {
                Ok(
                    (
                        spec_new_holding(buyer, class, bump, now),
                        AssetBought { player: buyer, class, price: total_cost, level: 1 },
                    ),
                )
            },
        }
    }
}

/// Buys an asset of `asset_class` for `buyer` at level 1.
///
/// `class` is the identity of the asset class record, `buyer_balance` the
/// buyer's token balance as read for this action, and `bump` the addressing
/// byte of the new holding. On success the caller owes the game's vault the
/// `price` of the returned notification from the buyer, and stores the
/// returned holding.
pub fn buy_asset(
    buyer: Identity,
    player: &Player,
    game_config: &GameConfig,
    asset_class: &AssetClass,
    class: Identity,
    buyer_balance: u64,
    bump: u8,
    now: i64,
) -> (r: Result<(Holding, AssetBought), ErrorCode>)
    ensures
        r == spec_buy_asset(
            buyer,
            *player,
            *game_config,
            *asset_class,
            class,
            buyer_balance,
            bump,
            now,
        ),
        r matches Ok((holding, _)) ==> holding.wf() && !holding.upgrade_pending(),
{
    if player.authority != buyer {
        return Err(ErrorCode::Unauthorized);
    }
    if game_config.paused {
        return Err(ErrorCode::GamePaused);
    }
    let price = match price_for_level(
        asset_class.base_price,
        asset_class.price_scale_num,
        asset_class.price_scale_den,
        1,
    ) {
        Ok(p) => p,
        Err(e) => {
            return Err(e);
        },
    };
    let total_cost = match with_fee(price, game_config.fee_bps) {
        Ok(t) => t,
        Err(e) => {
            return Err(e);
        },
    };
    if buyer_balance < total_cost {
        return Err(ErrorCode::InsufficientFunds);
    }
    let holding = Holding {
        player: buyer,
        class,
        level: 1,
        shield: 0,
        last_claim_ts: now,
        upgrade_end_ts: 0,
        last_defend_ts: now,
        last_risk_ts: now,
        risk_score: 0,
        bump,
    };
    Ok((holding, AssetBought { player: buyer, class, price: total_cost, level: 1 }))
}

} // verus!
