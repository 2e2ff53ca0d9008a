use wwars::errors::ErrorCode;
use wwars::math::{cooldown, defend_cd, price_for_level, scaled, takeover_cost, upgrade_cd, with_fee};
use wwars::identity::Identity;
use wwars::state::{AssetClass, GameConfig};

fn class_with_cooldowns(upgrade: i64, defend: i64) -> AssetClass {
    AssetClass {
        class_id: 1,
        base_price: 1000,
        price_scale_num: 3,
        price_scale_den: 2,
        base_yield: 0,
        upgrade_cd: upgrade,
        defend_cd: defend,
        base_risk_growth_per_sec: 0,
        bump: 0,
    }
}

fn config_with_cooldowns(upgrade: i64, defend: i64) -> GameConfig {
    GameConfig {
        admin: Identity::new([9; 32]),
        wealth_mint: Identity::new([8; 32]),
        treasury_vault: Identity::new([7; 32]),
        fee_bps: 0,
        paused: false,
        bump_config: 0,
        bump_vault: 0,
        default_upgrade_cd: upgrade,
        default_defend_cd: defend,
        risk_threshold: 0,
        risk_growth_per_sec: 0,
        defend_risk_reduction_per_token: 0,
    }
}

#[test]
fn scaled_power_zero_is_identity() {
    assert_eq!(scaled(12345, 7, 3, 0), Some(12345));
}

#[test]
fn scaled_applies_each_step_with_floor() {
    assert_eq!(scaled(100, 3, 2, 1), Some(150));
    assert_eq!(scaled(100, 3, 2, 2), Some(225));
    assert_eq!(scaled(5, 3, 2, 3), Some(15));
    assert_eq!(scaled(7, 0, 5, 3), Some(0));
}

#[test]
fn scaled_zero_denominator_is_none() {
    assert_eq!(scaled(1, 1, 0, 0), None);
    assert_eq!(scaled(1, 1, 0, 4), None);
}

#[test]
fn scaled_overflow_is_none() {
    assert_eq!(scaled(u128::MAX, 2, 1, 1), None);
    assert_eq!(scaled(u128::MAX, 2, 2, 1), None);
    assert_eq!(scaled(u128::MAX, 1, 1, 9), Some(u128::MAX));
}

#[test]
fn price_at_levels_zero_and_one_is_base_price() {
    assert_eq!(price_for_level(1000, 3, 2, 0), Ok(1000));
    assert_eq!(price_for_level(1000, 3, 2, 1), Ok(1000));
    assert_eq!(price_for_level(u64::MAX, 7, 7, 1), Ok(u64::MAX));
}

#[test]
fn price_grows_by_ratio_per_level() {
    assert_eq!(price_for_level(1000, 3, 2, 2), Ok(1500));
    assert_eq!(price_for_level(1000, 3, 2, 3), Ok(2250));
    assert_eq!(price_for_level(1000, 3, 2, 4), Ok(3375));
    assert_eq!(price_for_level(1000, 3, 2, 5), Ok(5062));
    assert_eq!(price_for_level(1000, 3, 2, 6), Ok(7593));
}

#[test]
fn price_step_relation_holds_on_values() {
    for level in 2u16..40 {
        let here = price_for_level(977, 11, 10, level).unwrap();
        let below = price_for_level(977, 11, 10, level - 1).unwrap();
        assert_eq!(here as u128, below as u128 * 11 / 10);
    }
}

#[test]
fn price_rounds_at_every_step() {
    // 5 * (3/2)^3 is 16.875; step by step it is 7, 10, 15.
    assert_eq!(price_for_level(5, 3, 2, 2), Ok(7));
    assert_eq!(price_for_level(5, 3, 2, 3), Ok(10));
    assert_eq!(price_for_level(5, 3, 2, 4), Ok(15));
}

#[test]
fn price_with_falling_ratio() {
    assert_eq!(price_for_level(1000, 1, 2, 2), Ok(500));
    assert_eq!(price_for_level(1000, 1, 2, 11), Ok(0));
    assert_eq!(price_for_level(1000, 0, 2, 2), Ok(0));
}

#[test]
fn price_zero_denominator_fails_above_level_zero() {
    assert_eq!(price_for_level(1000, 3, 0, 0), Ok(1000));
    assert_eq!(price_for_level(1000, 3, 0, 1), Err(ErrorCode::MathOverflow));
    assert_eq!(price_for_level(1000, 3, 0, 2), Err(ErrorCode::MathOverflow));
}

#[test]
fn price_beyond_64_bits_fails() {
    assert_eq!(price_for_level(u64::MAX, 2, 1, 2), Err(ErrorCode::MathOverflow));
    assert_eq!(price_for_level(u64::MAX, 1, 1, u16::MAX), Ok(u64::MAX));
}

#[test]
fn price_intermediate_overflow_fails() {
    assert_eq!(price_for_level(u64::MAX, u64::MAX, u64::MAX, 2), Ok(u64::MAX));
    assert_eq!(price_for_level(u64::MAX, u64::MAX, 1, 3), Err(ErrorCode::MathOverflow));
    assert_eq!(price_for_level(2, 2, 1, 200), Err(ErrorCode::MathOverflow));
}

#[test]
fn takeover_cost_is_five_quarters_of_price() {
    assert_eq!(takeover_cost(1000, 3, 2, 1), Ok(1250));
    assert_eq!(takeover_cost(1000, 3, 2, 3), Ok(2812));
    assert_eq!(takeover_cost(3, 1, 1, 1), Ok(3));
    assert_eq!(takeover_cost(0, 1, 1, 1), Ok(0));
}

#[test]
fn takeover_cost_matches_price_on_values() {
    for level in 0u16..30 {
        let price = price_for_level(813, 5, 4, level).unwrap();
        assert_eq!(takeover_cost(813, 5, 4, level), Ok((price as u128 * 5 / 4) as u64));
    }
}

#[test]
fn takeover_cost_overflow_fails() {
    assert_eq!(takeover_cost(u64::MAX, 1, 1, 0), Err(ErrorCode::MathOverflow));
    assert_eq!(takeover_cost(1000, 3, 0, 1), Err(ErrorCode::MathOverflow));
    // four fifths of the largest value is the largest price that still has a cost
    let limit = u64::MAX / 5 * 4;
    assert_eq!(takeover_cost(limit, 1, 1, 1), Ok(limit / 4 * 5));
}

#[test]
fn with_fee_adds_floor_of_fee() {
    assert_eq!(with_fee(1000, 250), Ok(1025));
    assert_eq!(with_fee(999, 250), Ok(1023));
    assert_eq!(with_fee(1000, 0), Ok(1000));
    assert_eq!(with_fee(0, 10000), Ok(0));
    assert_eq!(with_fee(1, 9999), Ok(1));
    assert_eq!(with_fee(1, 10000), Ok(2));
}

#[test]
fn with_fee_overflow_fails() {
    assert_eq!(with_fee(u64::MAX, 1), Err(ErrorCode::MathOverflow));
    assert_eq!(with_fee(u64::MAX, 0), Ok(u64::MAX));
    assert_eq!(with_fee(u64::MAX, u16::MAX), Err(ErrorCode::MathOverflow));
    assert_eq!(with_fee(u64::MAX / 2 + 1, 10000), Err(ErrorCode::MathOverflow));
}

#[test]
fn cooldown_prefers_class_value_unless_zero() {
    assert_eq!(cooldown(0, 50), 50);
    assert_eq!(cooldown(30, 50), 30);
    assert_eq!(cooldown(-5, 50), -5);
    assert_eq!(cooldown(0, 0), 0);
}

#[test]
fn upgrade_and_defend_cooldowns_are_independent() {
    let config = config_with_cooldowns(3600, 600);
    assert_eq!(upgrade_cd(&class_with_cooldowns(0, 0), &config), 3600);
    assert_eq!(defend_cd(&class_with_cooldowns(0, 0), &config), 600);
    assert_eq!(upgrade_cd(&class_with_cooldowns(120, 0), &config), 120);
    assert_eq!(defend_cd(&class_with_cooldowns(120, 0), &config), 600);
    assert_eq!(upgrade_cd(&class_with_cooldowns(0, 45), &config), 3600);
    assert_eq!(defend_cd(&class_with_cooldowns(0, 45), &config), 45);
}
