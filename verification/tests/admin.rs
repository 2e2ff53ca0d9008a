use wwars::errors::ErrorCode;
use wwars::events::PlayerJoined;
use wwars::identity::Identity;
use wwars::instructions::{
    add_asset_class, initialize_game, initialize_player, join_game, pause, set_params,
    AddAssetClassParams, InitializeGameParams, SetParamsArgs,
};
use wwars::state::{AssetClass, GameConfig, Player, PlayerState};

fn admin() -> Identity {
    Identity::new([9; 32])
}

fn stranger() -> Identity {
    Identity::new([4; 32])
}

fn game() -> GameConfig {
    initialize_game(
        admin(),
        Identity::new([8; 32]),
        Identity::new([7; 32]),
        255,
        254,
        InitializeGameParams {
            fee_bps: 250,
            default_upgrade_cd: 3600,
            default_defend_cd: 600,
            risk_threshold: 1000,
            risk_growth_per_sec: 2,
            defend_risk_reduction_per_token: 4,
        },
    )
}

fn no_change() -> SetParamsArgs {
    SetParamsArgs {
        fee_bps: None,
        default_upgrade_cd: None,
        default_defend_cd: None,
        risk_threshold: None,
        risk_growth_per_sec: None,
        defend_risk_reduction_per_token: None,
    }
}

fn class_params() -> AddAssetClassParams {
    AddAssetClassParams {
        class_id: 7,
        base_price: 1000,
        price_scale_num: 3,
        price_scale_den: 2,
        base_yield: 5,
        upgrade_cd: 0,
        defend_cd: 60,
        base_risk_growth_per_sec: 3,
    }
}

#[test]
fn identity_equality_is_by_bytes() {
    let mut bytes = [0u8; 32];
    assert_eq!(Identity::new(bytes), Identity::new([0; 32]));
    bytes[31] = 1;
    assert_ne!(Identity::new(bytes), Identity::new([0; 32]));
    assert_eq!(Identity::new(bytes).to_bytes(), bytes);
    bytes[31] = 0;
    bytes[0] = 1;
    assert_ne!(Identity::new(bytes), Identity::new([0; 32]));
    assert!(Identity { bytes } == Identity::new(bytes));
}

#[test]
fn initialize_game_sets_every_field() {
    assert_eq!(
        game(),
        GameConfig {
            admin: admin(),
            wealth_mint: Identity::new([8; 32]),
            treasury_vault: Identity::new([7; 32]),
            fee_bps: 250,
            paused: false,
            bump_config: 255,
            bump_vault: 254,
            default_upgrade_cd: 3600,
            default_defend_cd: 600,
            risk_threshold: 1000,
            risk_growth_per_sec: 2,
            defend_risk_reduction_per_token: 4,
        }
    );
}

#[test]
fn join_game_starts_defend_clock() {
    assert_eq!(
        join_game(stranger(), 3, 1234),
        (
            Player { authority: stranger(), last_defend_ts: 1234, bump: 3 },
            PlayerJoined { player: stranger() },
        )
    );
}

#[test]
fn initialize_player_starts_with_thousand_credits() {
    assert_eq!(
        initialize_player(stranger(), 3, 1234),
        PlayerState {
            owner: stranger(),
            last_work_timestamp: 0,
            streak_count: 0,
            work_frequency_level: 0,
            total_work_actions: 0,
            credits: 1000,
            wealth_tokens: 0,
            businesses_owned: vec![],
            active_business_slots: vec![],
            last_streak_check: 1234,
            cooldown_hours: 24,
            bump: 3,
        }
    );
}

#[test]
fn add_asset_class_copies_params() {
    assert_eq!(
        add_asset_class(&game(), admin(), class_params(), 200),
        Ok(AssetClass {
            class_id: 7,
            base_price: 1000,
            price_scale_num: 3,
            price_scale_den: 2,
            base_yield: 5,
            upgrade_cd: 0,
            defend_cd: 60,
            base_risk_growth_per_sec: 3,
            bump: 200,
        })
    );
}

#[test]
fn add_asset_class_refusals() {
    assert_eq!(add_asset_class(&game(), stranger(), class_params(), 200), Err(ErrorCode::Unauthorized));
    let paused = GameConfig { paused: true, ..game() };
    assert_eq!(add_asset_class(&paused, admin(), class_params(), 200), Err(ErrorCode::GamePaused));
    assert_eq!(add_asset_class(&paused, stranger(), class_params(), 200), Err(ErrorCode::Unauthorized));
}

#[test]
fn set_params_updates_only_given_fields() {
    let mut config = game();
    let args = SetParamsArgs { fee_bps: Some(300), risk_threshold: Some(5), ..no_change() };
    assert_eq!(set_params(&mut config, admin(), args), Ok(()));
    assert_eq!(config, GameConfig { fee_bps: 300, risk_threshold: 5, ..game() });

    let args = SetParamsArgs {
        fee_bps: Some(1),
        default_upgrade_cd: Some(2),
        default_defend_cd: Some(3),
        risk_threshold: Some(4),
        risk_growth_per_sec: Some(5),
        defend_risk_reduction_per_token: Some(6),
    };
    assert_eq!(set_params(&mut config, admin(), args), Ok(()));
    assert_eq!(
        config,
        GameConfig {
            fee_bps: 1,
            default_upgrade_cd: 2,
            default_defend_cd: 3,
            risk_threshold: 4,
            risk_growth_per_sec: 5,
            defend_risk_reduction_per_token: 6,
            ..game()
        }
    );
    assert_eq!(set_params(&mut config, admin(), no_change()), Ok(()));
    assert_eq!(config.fee_bps, 1);
}

#[test]
fn set_params_by_stranger_fails() {
    let mut config = game();
    let args = SetParamsArgs { fee_bps: Some(300), ..no_change() };
    assert_eq!(set_params(&mut config, stranger(), args), Err(ErrorCode::Unauthorized));
    assert_eq!(config, game());
}

#[test]
fn set_params_works_while_paused() {
    let mut config = game();
    assert_eq!(pause(&mut config, admin(), true), Ok(()));
    let args = SetParamsArgs { default_defend_cd: Some(1), ..no_change() };
    assert_eq!(set_params(&mut config, admin(), args), Ok(()));
    assert_eq!(config, GameConfig { paused: true, default_defend_cd: 1, ..game() });
}

#[test]
fn pause_and_resume() {
    let mut config = game();
    assert_eq!(pause(&mut config, admin(), true), Ok(()));
    assert_eq!(config, GameConfig { paused: true, ..game() });
    assert_eq!(pause(&mut config, stranger(), false), Err(ErrorCode::Unauthorized));
    assert!(config.paused);
    assert_eq!(pause(&mut config, admin(), false), Ok(()));
    assert_eq!(config, game());
}
