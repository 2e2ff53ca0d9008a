use vstd::prelude::*;
use crate::errors::ErrorCode;
use crate::events::UpgradeFinished;
use crate::identity::Identity;
use crate::state::{GameConfig, Holding, Player};

verus! {

/// What finishing an upgrade comes to: the holding one level up with no
/// upgrade pending, or the reason for the refusal. The checks stand in the
/// order in which they are made; the first that fails names the error.
pub open spec fn spec_finish_upgrade(
    holding: Holding,
    owner: Identity,
    player: Player,
    game_config: GameConfig,
    now: i64,
) -> Result<Holding, ErrorCode> {
    if player.authority != owner {
        Err(ErrorCode::Unauthorized)
    } else if game_config.paused {
        Err(ErrorCode::GamePaused)
    } else if holding.player != owner {
        Err(ErrorCode::Unauthorized)
    } else if !holding.upgrade_pending() {
        Err(ErrorCode::InvalidParameters)
    } else if now < holding.upgrade_end_ts {
        Err(ErrorCode::InvalidParameters)
    } else if holding.level == u16::MAX {
        Err(ErrorCode::MathOverflow)
    } else {
        Ok(Holding { level: (holding.level + 1) as u16, upgrade_end_ts: 0, ..holding })
    }
}

/// Completes the pending upgrade of a holding, once its time has come. On
/// failure the holding is left as it was.
pub fn finish_upgrade(
    holding: &mut Holding,
    owner: Identity,
    player: &Player,
    game_config: &GameConfig,
    now: i64,
) -> (r: Result<UpgradeFinished, ErrorCode>)
    ensures
        match spec_finish_upgrade(*old(holding), owner, *player, *game_config, now) {
            Ok(upgraded) => {
                &&& *final(holding) == upgraded
                &&& r == Ok::<UpgradeFinished, ErrorCode>(
                    UpgradeFinished {
                        player: upgraded.player,
                        class: upgraded.class,
                        new_level: upgraded.level,
                    },
                )
            },
            Err(e) => {
                &&& *final(holding) == *old(holding)
                &&& r == Err::<UpgradeFinished, ErrorCode>(e)
            },
        },
        final(holding).level >= old(holding).level,
        old(holding).wf() ==> final(holding).wf(),
        r is Ok ==> !final(holding).upgrade_pending(),
{
    if player.authority != owner {
        return Err(ErrorCode::Unauthorized);
    }
    if game_config.paused {
        return Err(ErrorCode::GamePaused);
    }
    if holding.player != owner {
        return Err(ErrorCode::Unauthorized);
    }
    if holding.upgrade_end_ts == 0 {
        return Err(ErrorCode::InvalidParameters);
    }
    if now < holding.upgrade_end_ts {
        return Err(ErrorCode::InvalidParameters);
    }
    let new_level = match holding.level.checked_add(1) {
        Some(l) => l,
        None => {
            return Err(ErrorCode::MathOverflow);
        },
    };
    holding.level = new_level;
    holding.upgrade_end_ts = 0;
    Ok(UpgradeFinished { player: holding.player, class: holding.class, new_level })
}

} // verus!
