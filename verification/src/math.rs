use vstd::prelude::*;
use crate::errors::ErrorCode;
use crate::state::{AssetClass, GameConfig, Holding};

verus! {

/// `val` scaled `power` times by `num / den`: each step multiplies by `num`
/// and then divides by `den`, rounding down. `None` when `den` is zero or a
/// product exceeds 128 bits.
pub open spec fn spec_scaled(val: u128, num: u128, den: u128, power: nat) -> Option<u128>
    decreases power,
{
    if den == 0 {
        None
    } else if power == 0 {
        Some(val)
    } else {
        match spec_scaled(val, num, den, (power - 1) as nat) {
            Some(prev) => if prev * num <= u128::MAX {
                Some((prev * num / (den as int)) as u128)
            } else {
                None
            },
            None => None,
        }
    }
}

/// Scales `val` by `num / den`, `power` times over, rounding down after
/// every step.
pub fn scaled(val: u128, num: u128, den: u128, power: u16) -> (r: Option<u128>)
    ensures
        r == spec_scaled(val, num, den, power as nat),
{
    if den == 0 {
        return None;
    }
    let mut result: u128 = val;
    let mut step: u16 = 0;
    while step < power
        invariant
            den != 0,
            step <= power,
            spec_scaled(val, num, den, step as nat) == Some(result),
        decreases power - step,
    {
        let product = match result.checked_mul(num) {
            Some(p) => p,
            None => {
                proof {
                    lemma_scaled_stays_none(val, num, den, (step + 1) as nat, power as nat);
                }
                return None;
            },
        };
        result = product / den;
        step = step + 1;
    }
    Some(result)
}

/// Once a step overflows, every later step is `None` too.
proof fn lemma_scaled_stays_none(val: u128, num: u128, den: u128, from: nat, to: nat)
    requires
        from <= to,
        spec_scaled(val, num, den, from) is None,
    ensures
        spec_scaled(val, num, den, to) is None,
    decreases to,
{
    if from < to {
        lemma_scaled_stays_none(val, num, den, from, (to - 1) as nat);
    }
}

/// The price of an asset at `level`: the base price at levels 0 and 1, and
/// one more scaling by `num / den` for each level above 1. `MathOverflow`
/// when a scaling step fails or the price exceeds 64 bits.
pub open spec fn spec_price_for_level(base_price: u64, num: u64, den: u64, level: u16) -> Result<
    u64,
    ErrorCode,
> {
    if level == 0 {
        Ok(base_price)
    } else {
        match spec_scaled(base_price as u128, num as u128, den as u128, (level - 1) as nat) {
            Some(v) => if v <= u64::MAX {
                Ok(v as u64)
            } else {
                Err(ErrorCode::MathOverflow)
            },
            None => Err(ErrorCode::MathOverflow),
        }
    }
}

/// The price of an asset at `level`.
pub fn price_for_level(base_price: u64, num: u64, den: u64, level: u16) -> (r: Result<
    u64,
    ErrorCode,
>)
    ensures
        r == spec_price_for_level(base_price, num, den, level),
{
    if level == 0 {
        return Ok(base_price);
    }
    match scaled(base_price as u128, num as u128, den as u128, level - 1) {
        Some(v) => {
            if v <= u64::MAX as u128 {
                Ok(v as u64)
            } else {
                Err(ErrorCode::MathOverflow)
            }
        },
        None => Err(ErrorCode::MathOverflow),
    }
}

/// What a takeover of an asset at `level` costs before the fee: five
/// quarters of its price, rounded down.
pub open spec fn spec_takeover_cost(base_price: u64, num: u64, den: u64, level: u16) -> Result<
    u64,
    ErrorCode,
> {
    match spec_price_for_level(base_price, num, den, level) {
        Ok(price) => if price * 5 / 4 <= u64::MAX {
            Ok((price * 5 / 4) as u64)
        } else {
            Err(ErrorCode::MathOverflow)
        },
        Err(e) => Err(e),
    }
}

/// What a takeover of an asset at `level` costs before the fee: a quarter
/// more than its price.
pub fn takeover_cost(base_price: u64, num: u64, den: u64, level: u16) -> (r: Result<
    u64,
    ErrorCode,
>)
    ensures
        r == spec_takeover_cost(base_price, num, den, level),
        r matches Ok(cost) ==> spec_price_for_level(base_price, num, den, level) matches Ok(price)
            && cost == price * 5 / 4,
{
    let buy_price = match price_for_level(base_price, num, den, level) {
        Ok(p) => p,
        Err(e) => {
            return Err(e);
        },
    };
    let cost: u128 = (buy_price as u128) * 5 / 4;
    if cost <= u64::MAX as u128 {
        Ok(cost as u64)
    } else {
        Err(ErrorCode::MathOverflow)
    }
}

/// The fee on `amount` at `fee_bps` basis points, rounded down.
pub open spec fn spec_fee(amount: u64, fee_bps: u16) -> int {
    amount * fee_bps / 10000
}

/// `amount` plus its fee; `MathOverflow` when the sum exceeds 64 bits.
pub open spec fn spec_with_fee(amount: u64, fee_bps: u16) -> Result<u64, ErrorCode> {
    if amount + spec_fee(amount, fee_bps) <= u64::MAX {
        Ok((amount + spec_fee(amount, fee_bps)) as u64)
    } else {
        Err(ErrorCode::MathOverflow)
    }
}

/// What a payer is charged for `amount`: the amount and the fee on it.
pub fn with_fee(amount: u64, fee_bps: u16) -> (r: Result<u64, ErrorCode>)
    ensures
        r == spec_with_fee(amount, fee_bps),
{
    assert((amount as u128) * (fee_bps as u128) <= 0xffff_ffff_ffff_ffff * 0xffff) by (nonlinear_arith)
        requires
            amount <= 0xffff_ffff_ffff_ffff,
            fee_bps <= 0xffff,
    ;
    let fee: u128 = (amount as u128) * (fee_bps as u128) / 10000;
    let total: u128 = amount as u128 + fee;
    if total <= u64::MAX as u128 {
        Ok(total as u64)
    } else {
        Err(ErrorCode::MathOverflow)
    }
}

/// What a payer is charged for an asset of `class` at `level`: its price and
/// the game's fee on it.
pub open spec fn spec_level_charge(class: AssetClass, config: GameConfig, level: u16) -> Result<
    u64,
    ErrorCode,
> {
    match spec_price_for_level(
        class.base_price,
        class.price_scale_num,
        class.price_scale_den,
        level,
    ) {
        Ok(price) => spec_with_fee(price, config.fee_bps),
        Err(e) => Err(e),
    }
}

/// What an attacker is charged for taking over an asset of `class` at
/// `level`: the takeover cost and the game's fee on it.
pub open spec fn spec_takeover_charge(class: AssetClass, config: GameConfig, level: u16) -> Result<
    u64,
    ErrorCode,
> {
    match spec_takeover_cost(
        class.base_price,
        class.price_scale_num,
        class.price_scale_den,
        level,
    ) {
        Ok(cost) => spec_with_fee(cost, config.fee_bps),
        Err(e) => Err(e),
    }
}

/// The cooldown that applies: the class's own value where it is set, the
/// game-wide default where the class leaves it at zero.
pub open spec fn spec_cooldown(class_override: i64, global_default: i64) -> i64 {
    if class_override != 0 {
        class_override
    } else {
        global_default
    }
}

/// The cooldown that applies, of a class's own value and the game-wide
/// default.
pub fn cooldown(class_override: i64, global_default: i64) -> (cd: i64)
    ensures
        cd == spec_cooldown(class_override, global_default),
{
    if class_override != 0 {
        class_override
    } else {
        global_default
    }
}

/// How long an upgrade of this class takes.
pub fn upgrade_cd(class: &AssetClass, config: &GameConfig) -> (cd: i64)
    ensures
        cd == spec_cooldown(class.upgrade_cd, config.default_upgrade_cd),
{
    cooldown(class.upgrade_cd, config.default_upgrade_cd)
}

/// How long a player waits between two defends, by this class.
pub fn defend_cd(class: &AssetClass, config: &GameConfig) -> (cd: i64)
    ensures
        cd == spec_cooldown(class.defend_cd, config.default_defend_cd),
{
    cooldown(class.defend_cd, config.default_defend_cd)
}

/// `value` where it fits 32 bits; otherwise the nearest value that does: 0
/// below the range, the largest 32-bit value above it.
pub open spec fn saturating_u32(value: int) -> u32 {
    if value > u32::MAX {
        u32::MAX
    } else if value < 0 {
        0
    } else {
        value as u32
    }
}

/// Risk gained per second by a holding of `class`.
pub open spec fn spec_risk_growth(class: AssetClass, config: GameConfig) -> int {
    config.risk_growth_per_sec + class.base_risk_growth_per_sec
}

/// The holding with its risk brought up to `now`: risk grows linearly with
/// the time since it was last brought up to date, and stops at the largest
/// 32-bit value. A `now` that is not later leaves the holding as it is.
pub open spec fn spec_update_risk(
    holding: Holding,
    class: AssetClass,
    config: GameConfig,
    now: i64,
) -> Holding {
    if now > holding.last_risk_ts {
        Holding {
            risk_score: saturating_u32(
                holding.risk_score + spec_risk_growth(class, config) * (now
                    - holding.last_risk_ts),
            ),
            last_risk_ts: now,
            ..holding
        }
    } else {
        holding
    }
}

/// Brings the holding's risk up to `now`. Call it before the risk is compared
/// with the threshold or reduced by a defence, so that neither works on a
/// stale value.
pub fn update_risk(
    holding: &mut Holding,
    asset_class: &AssetClass,
    game_config: &GameConfig,
    now: i64,
)
    ensures
        *final(holding) == spec_update_risk(*old(holding), *asset_class, *game_config, now),
        final(holding).risk_score >= old(holding).risk_score,
{
    let elapsed: i128 = now as i128 - holding.last_risk_ts as i128;
    if elapsed > 0 {
        let growth: u128 = game_config.risk_growth_per_sec as u128
            + asset_class.base_risk_growth_per_sec as u128;
        let seconds: u128 = elapsed as u128;
        assert(growth * seconds <= 0x2_0000_0000 * 0x1_0000_0000_0000_0000) by (nonlinear_arith)
            requires
                growth <= 0x2_0000_0000,
                seconds <= 0x1_0000_0000_0000_0000,
        ;
        assert(growth * seconds >= 0) by (nonlinear_arith)
            requires
                growth >= 0,
                seconds >= 0,
        ;
        let risen: u128 = holding.risk_score as u128 + growth * seconds;
        holding.risk_score = if risen > u32::MAX as u128 {
            u32::MAX
        } else {
            risen as u32
        };
        holding.last_risk_ts = now;
    }
}

/// Scaling by a ratio of at least one never lowers a value, and scaling by a
/// ratio below one never raises it.
proof fn lemma_scaled_direction(val: u128, num: u128, den: u128, power: nat)
    requires
        spec_scaled(val, num, den, power) is Some,
    ensures
        num >= den ==> spec_scaled(val, num, den, power).unwrap() >= val,
        num < den ==> spec_scaled(val, num, den, power).unwrap() <= val,
    decreases power,
{
    if power > 0 {
        let prev = spec_scaled(val, num, den, (power - 1) as nat).unwrap();
        lemma_scaled_direction(val, num, den, (power - 1) as nat);
        lemma_step_direction(prev as int, num as int, den as int);
    }
}

/// One scaling step moves a value in the direction of the ratio.
proof fn lemma_step_direction(prev: int, num: int, den: int)
    requires
        prev >= 0,
        num >= 0,
        den > 0,
    ensures
        num >= den ==> prev * num / den >= prev,
        num < den ==> prev * num / den <= prev,
{
    assert(num >= den ==> prev * num >= prev * den) by (nonlinear_arith)
        requires
            prev >= 0,
            den > 0,
    ;
    assert(num < den ==> prev * num <= prev * den) by (nonlinear_arith)
        requires
            prev >= 0,
            num >= 0,
    ;
    assert(prev * den / den == prev) by (nonlinear_arith)
        requires
            den > 0,
    ;
    assert(num >= den ==> prev * num / den >= prev * den / den) by (nonlinear_arith)
        requires
            den > 0,
            num >= den ==> prev * num >= prev * den,
    ;
    assert(num < den ==> prev * num / den <= prev * den / den) by (nonlinear_arith)
        requires
            den > 0,
            num < den ==> prev * num <= prev * den,
    ;
}

/// At levels 0 and 1 an asset costs its base price, whatever the ratio, as
/// long as the denominator is not zero.
pub proof fn lemma_price_at_base(base_price: u64, num: u64, den: u64, level: u16)
    requires
        den > 0,
        level <= 1,
    ensures
        spec_price_for_level(base_price, num, den, level) == Ok::<u64, ErrorCode>(base_price),
{
}

/// From level 2 on, wherever the price of a level can be computed, so can
/// the price of the level below, and the price is that lower price times
/// `num`, divided by `den` and rounded down.
pub proof fn lemma_price_step(base_price: u64, num: u64, den: u64, level: u16)
    requires
        den > 0,
        level >= 2,
        spec_price_for_level(base_price, num, den, level) is Ok,
    ensures
        spec_price_for_level(base_price, num, den, (level - 1) as u16) is Ok,
        spec_price_for_level(base_price, num, den, level).unwrap() == spec_price_for_level(
            base_price,
            num,
            den,
            (level - 1) as u16,
        ).unwrap() * num / (den as int),
{
    let below = spec_scaled(base_price as u128, num as u128, den as u128, (level - 2) as nat);
    assert(below is Some);
    let prev = below.unwrap();
    lemma_scaled_direction(base_price as u128, num as u128, den as u128, (level - 2) as nat);
    lemma_step_direction(prev as int, num as int, den as int);
}

/// Bringing the risk up to date at `t1` and then at `t2` gives the same
/// holding as bringing it up to date at `t2` alone, for any `t1` between the
/// last update and `t2`: no second is counted twice and none is lost.
pub proof fn lemma_update_risk_additive(
    holding: Holding,
    class: AssetClass,
    config: GameConfig,
    t1: i64,
    t2: i64,
)
    requires
        holding.last_risk_ts <= t1 <= t2,
    ensures
        spec_update_risk(spec_update_risk(holding, class, config, t1), class, config, t2)
            == spec_update_risk(holding, class, config, t2),
{
    let g = spec_risk_growth(class, config);
    let a = t1 - holding.last_risk_ts;
    let b = t2 - t1;
    assert(g * (a + b) == g * a + g * b) by (nonlinear_arith);
    assert(g * a >= 0 && g * b >= 0) by (nonlinear_arith)
        requires
            g >= 0,
            a >= 0,
            b >= 0,
    ;
}

/// Risk never falls when it is brought up to date, and a later moment never
/// gives a lower risk than an earlier one.
pub proof fn lemma_update_risk_monotonic(
    holding: Holding,
    class: AssetClass,
    config: GameConfig,
    t1: i64,
    t2: i64,
)
    requires
        t1 <= t2,
    ensures
        holding.risk_score <= spec_update_risk(holding, class, config, t1).risk_score,
        spec_update_risk(holding, class, config, t1).risk_score <= spec_update_risk(
            holding,
            class,
            config,
            t2,
        ).risk_score,
{
    let g = spec_risk_growth(class, config);
    let a = t1 - holding.last_risk_ts;
    let b = t2 - holding.last_risk_ts;
    assert(a > 0 ==> g * a >= 0) by (nonlinear_arith)
        requires
            g >= 0,
    ;
    assert(b > 0 ==> g * b >= 0) by (nonlinear_arith)
        requires
            g >= 0,
    ;
    assert(a > 0 ==> g * a <= g * b) by (nonlinear_arith)
        requires
            g >= 0,
            a <= b,
    ;
}

} // verus!
