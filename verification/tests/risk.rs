use wwars::identity::Identity;
use wwars::math::update_risk;
use wwars::state::{AssetClass, GameConfig, Holding};

fn class_growing(base_risk_growth_per_sec: u32) -> AssetClass {
    AssetClass {
        class_id: 1,
        base_price: 1000,
        price_scale_num: 3,
        price_scale_den: 2,
        base_yield: 0,
        upgrade_cd: 0,
        defend_cd: 0,
        base_risk_growth_per_sec,
        bump: 0,
    }
}

fn config_growing(risk_growth_per_sec: u32) -> GameConfig {
    GameConfig {
        admin: Identity::new([9; 32]),
        wealth_mint: Identity::new([8; 32]),
        treasury_vault: Identity::new([7; 32]),
        fee_bps: 0,
        paused: false,
        bump_config: 0,
        bump_vault: 0,
        default_upgrade_cd: 0,
        default_defend_cd: 0,
        risk_threshold: 1000,
        risk_growth_per_sec,
        defend_risk_reduction_per_token: 1,
    }
}

fn holding_at(risk_score: u32, last_risk_ts: i64) -> Holding {
    Holding {
        player: Identity::new([1; 32]),
        class: Identity::new([2; 32]),
        level: 1,
        shield: 0,
        last_claim_ts: 0,
        upgrade_end_ts: 0,
        last_defend_ts: 0,
        last_risk_ts,
        risk_score,
        bump: 0,
    }
}

#[test]
fn risk_accrues_linearly() {
    let mut h = holding_at(10, 100);
    update_risk(&mut h, &class_growing(3), &config_growing(2), 130);
    assert_eq!(h, Holding { risk_score: 160, last_risk_ts: 130, ..holding_at(10, 100) });
}

#[test]
fn risk_unchanged_when_no_time_passed() {
    let mut h = holding_at(10, 100);
    update_risk(&mut h, &class_growing(3), &config_growing(2), 100);
    assert_eq!(h, holding_at(10, 100));
    update_risk(&mut h, &class_growing(3), &config_growing(2), 40);
    assert_eq!(h, holding_at(10, 100));
}

#[test]
fn risk_timestamp_moves_even_without_growth() {
    let mut h = holding_at(10, 100);
    update_risk(&mut h, &class_growing(0), &config_growing(0), 500);
    assert_eq!(h, holding_at(10, 500));
}

#[test]
fn risk_caps_at_ceiling() {
    let mut h = holding_at(u32::MAX - 5, 0);
    update_risk(&mut h, &class_growing(1), &config_growing(1), 10);
    assert_eq!(h.risk_score, u32::MAX);
    assert_eq!(h.last_risk_ts, 10);
}

#[test]
fn risk_caps_instead_of_wrapping_on_large_increase() {
    // the increase is 2^32 + 5, which is 5 after wrapping to 32 bits
    let mut h = holding_at(7, 0);
    update_risk(&mut h, &class_growing(1), &config_growing(0), (1i64 << 32) + 5);
    assert_eq!(h.risk_score, u32::MAX);

    let mut h = holding_at(0, i64::MIN);
    update_risk(&mut h, &class_growing(u32::MAX), &config_growing(u32::MAX), i64::MAX);
    assert_eq!(h.risk_score, u32::MAX);
    assert_eq!(h.last_risk_ts, i64::MAX);
}

#[test]
fn risk_over_extreme_span_without_growth() {
    let mut h = holding_at(3, i64::MIN);
    update_risk(&mut h, &class_growing(0), &config_growing(0), i64::MAX);
    assert_eq!(h, holding_at(3, i64::MAX));
}

#[test]
fn risk_split_interval_equals_whole() {
    let class = class_growing(4);
    let config = config_growing(3);
    for (start, t1, t2) in [(0i64, 10i64, 25i64), (100, 100, 250), (5, 90, 90), (-50, 0, 1000)] {
        let mut whole = holding_at(17, start);
        update_risk(&mut whole, &class, &config, t2);
        let mut split = holding_at(17, start);
        update_risk(&mut split, &class, &config, t1);
        update_risk(&mut split, &class, &config, t2);
        assert_eq!(whole, split);
    }
}

#[test]
fn risk_split_interval_equals_whole_at_ceiling() {
    let class = class_growing(u32::MAX);
    let config = config_growing(7);
    let mut whole = holding_at(17, 0);
    update_risk(&mut whole, &class, &config, 3);
    let mut split = holding_at(17, 0);
    update_risk(&mut split, &class, &config, 1);
    update_risk(&mut split, &class, &config, 3);
    assert_eq!(whole, split);
    assert_eq!(whole.risk_score, u32::MAX);
}

#[test]
fn risk_never_decreases() {
    let class = class_growing(2);
    let config = config_growing(1);
    let mut h = holding_at(50, 0);
    let mut last = h.risk_score;
    for now in [0i64, 1, 1, 7, 3, 100, 99, 1_000_000] {
        update_risk(&mut h, &class, &config, now);
        assert!(h.risk_score >= last);
        last = h.risk_score;
    }
    assert_eq!(h.risk_score, 50 + 3 * 1_000_000);
}
