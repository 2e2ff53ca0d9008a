use vstd::prelude::*;
use crate::errors::ErrorCode;
use crate::identity::Identity;
use crate::state::GameConfig;

verus! {

/// New values for the game's parameters; a parameter left at `None` keeps
/// its value.
#[derive(Clone, Copy, Debug, PartialEq, Eq)]
pub struct SetParamsArgs {
    pub fee_bps: Option<u16>,
    pub default_upgrade_cd: Option<i64>,
    pub default_defend_cd: Option<i64>,
    pub risk_threshold: Option<u32>,
    pub risk_growth_per_sec: Option<u32>,
    pub defend_risk_reduction_per_token: Option<u32>,
}

/// The configuration after a change of parameters: each parameter that is
/// given replaces the old one, each that is not stays.
pub open spec fn spec_set_params(config: GameConfig, args: SetParamsArgs) -> GameConfig {
    GameConfig {
        fee_bps: match args.fee_bps {
            Some(v) => v,
            None => config.fee_bps,
        },
        default_upgrade_cd: match args.default_upgrade_cd {
            Some(v) => v,
            None => config.default_upgrade_cd,
        },
        default_defend_cd: match args.default_defend_cd {
            Some(v) => v,
            None => config.default_defend_cd,
        },
        risk_threshold: match args.risk_threshold {
            Some(v) => v,
            None => config.risk_threshold,
        },
        risk_growth_per_sec: match args.risk_growth_per_sec {
            Some(v) => v,
            None => config.risk_growth_per_sec,
        },
        defend_risk_reduction_per_token: match args.defend_risk_reduction_per_token {
            Some(v) => v,
            None => config.defend_risk_reduction_per_token,
        },
        ..config
    }
}

/// Changes the game's parameters, each where a new value is given. Only the
/// game's admin may do so: `Unauthorized` for anyone else, with the
/// configuration left as it was. A paused game takes the change too.
pub fn set_params(game_config: &mut GameConfig, admin: Identity, args: SetParamsArgs) -> (r: Result<
    (),
    ErrorCode,
>)
    ensures
        old(game_config).admin != admin ==> r == Err::<(), ErrorCode>(ErrorCode::Unauthorized)
            && *final(game_config) == *old(game_config),
        old(game_config).admin == admin ==> r is Ok && *final(game_config) == spec_set_params(
            *old(game_config),
            args,
        ),
{
    if game_config.admin != admin {
        return Err(ErrorCode::Unauthorized);
    }
    match args.fee_bps {
        Some(fee_bps) => {
            game_config.fee_bps = fee_bps;
        },
        None => {},
    }
    match args.default_upgrade_cd {
        Some(default_upgrade_cd) => {
            game_config.default_upgrade_cd = default_upgrade_cd;
        },
        None => {},
    }
    match args.default_defend_cd {
        Some(default_defend_cd) => {
            game_config.default_defend_cd = default_defend_cd;
        },
        None => {},
    }
    match args.risk_threshold {
        Some(risk_threshold) => {
            game_config.risk_threshold = risk_threshold;
        },
        None => {},
    }
    match args.risk_growth_per_sec {
        Some(risk_growth_per_sec) => {
            game_config.risk_growth_per_sec = risk_growth_per_sec;
        },
        None => {},
    }
    match args.defend_risk_reduction_per_token {
        Some(defend_risk_reduction_per_token) => {
            game_config.defend_risk_reduction_per_token = defend_risk_reduction_per_token;
        },
        None => {},
    }
    Ok(())
}

/// Pauses the game or lets it run again. Only the game's admin may do so:
/// `Unauthorized` for anyone else, with the configuration left as it was.
pub fn pause(game_config: &mut GameConfig, admin: Identity, paused: bool) -> (r: Result<
    (),
    ErrorCode,
>)
    ensures
        old(game_config).admin != admin ==> r == Err::<(), ErrorCode>(ErrorCode::Unauthorized)
            && *final(game_config) == *old(game_config),
        old(game_config).admin == admin ==> r is Ok && *final(game_config) == (GameConfig {
            paused,
            ..*old(game_config)
        }),
{
    if game_config.admin != admin {
        return Err(ErrorCode::Unauthorized);
    }
    game_config.paused = paused;
    Ok(())
}

} // verus!
