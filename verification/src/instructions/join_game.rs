use vstd::prelude::*;
use crate::events::PlayerJoined;
use crate::identity::Identity;
use crate::state::Player;

verus! {

/// The record of a participant who joins the asset game at `now`. The
/// defend cooldown runs from the moment of joining.
pub fn join_game(authority: Identity, bump: u8, now: i64) -> (r: (Player, PlayerJoined))
    ensures
        r.0 == (Player { authority, last_defend_ts: now, bump }),
        r.1 == (PlayerJoined { player: authority }),
{
    (Player { authority, last_defend_ts: now, bump }, PlayerJoined { player: authority })
}

} // verus!
