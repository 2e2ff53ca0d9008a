use vstd::prelude::*;
use crate::errors::ErrorCode;
use crate::identity::Identity;
use crate::state::{AssetClass, GameConfig};

verus! {

/// What defines a new asset class.
#[derive(Clone, Copy, Debug, PartialEq, Eq)]
pub struct AddAssetClassParams {
    pub class_id: u64,
    pub base_price: u64,
    pub price_scale_num: u64,
    pub price_scale_den: u64,
    pub base_yield: u64,
    pub upgrade_cd: i64,
    pub defend_cd: i64,
    pub base_risk_growth_per_sec: u32,
}

/// The record of a new asset class. Only the game's admin may add one
/// (`Unauthorized`), and only while the game is not paused (`GamePaused`).
pub fn add_asset_class(
    game_config: &GameConfig,
    admin: Identity,
    params: AddAssetClassParams,
    bump: u8,
) -> (r: Result<AssetClass, ErrorCode>)
    ensures
        r == if game_config.admin != admin {
            Err::<AssetClass, ErrorCode>(ErrorCode::Unauthorized)
        } else if game_config.paused {
            Err::<AssetClass, ErrorCode>(ErrorCode::GamePaused)
        } else {
            Ok::<AssetClass, ErrorCode>(
                AssetClass {
                    class_id: params.class_id,
                    base_price: params.base_price,
                    price_scale_num: params.price_scale_num,
                    price_scale_den: params.price_scale_den,
                    base_yield: params.base_yield,
                    upgrade_cd: params.upgrade_cd,
                    defend_cd: params.defend_cd,
                    base_risk_growth_per_sec: params.base_risk_growth_per_sec,
                    bump,
                },
            )
        },
{
    if game_config.admin != admin {
        return Err(ErrorCode::Unauthorized);
    }
    if game_config.paused {
        return Err(ErrorCode::GamePaused);
    }
    Ok(
        AssetClass {
            class_id: params.class_id,
            base_price: params.base_price,
            price_scale_num: params.price_scale_num,
            price_scale_den: params.price_scale_den,
            base_yield: params.base_yield,
            upgrade_cd: params.upgrade_cd,
            defend_cd: params.defend_cd,
            base_risk_growth_per_sec: params.base_risk_growth_per_sec,
            bump,
        },
    )
}

} // verus!
