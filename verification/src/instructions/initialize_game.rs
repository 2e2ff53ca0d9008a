use vstd::prelude::*;
use crate::identity::Identity;
use crate::state::GameConfig;

verus! {

/// The parameters that a new game starts with.
#[derive(Clone, Copy, Debug, PartialEq, Eq)]
pub struct InitializeGameParams {
    pub fee_bps: u16,
    pub default_upgrade_cd: i64,
    pub default_defend_cd: i64,
    pub risk_threshold: u32,
    pub risk_growth_per_sec: u32,
    pub defend_risk_reduction_per_token: u32,
}

/// The configuration of a new game: run by `admin`, not paused, with the
/// given parameters.
pub fn initialize_game(
    admin: Identity,
    wealth_mint: Identity,
    treasury_vault: Identity,
    bump_config: u8,
    bump_vault: u8,
    params: InitializeGameParams,
) -> (config: GameConfig)
    ensures
        config == (GameConfig {
            admin,
            wealth_mint,
            treasury_vault,
            fee_bps: params.fee_bps,
            paused: false,
            bump_config,
            bump_vault,
            default_upgrade_cd: params.default_upgrade_cd,
            default_defend_cd: params.default_defend_cd,
            risk_threshold: params.risk_threshold,
            risk_growth_per_sec: params.risk_growth_per_sec,
            defend_risk_reduction_per_token: params.defend_risk_reduction_per_token,
        }),
{
    GameConfig {
        admin,
        wealth_mint,
        treasury_vault,
        fee_bps: params.fee_bps,
        paused: false,
        bump_config,
        bump_vault,
        default_upgrade_cd: params.default_upgrade_cd,
        default_defend_cd: params.default_defend_cd,
        risk_threshold: params.risk_threshold,
        risk_growth_per_sec: params.risk_growth_per_sec,
        defend_risk_reduction_per_token: params.defend_risk_reduction_per_token,
    }
}

} // verus!
