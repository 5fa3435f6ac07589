//! Vines, which kill the player on touch.

use vstd::prelude::*;
use crate::death_anim::PlayerDeath;

verus! {

/// Reacts to something touching what kills the player: the player dies of
/// it, nothing else does.
pub fn on_collision_kills_player(is_player: bool) -> (death: Option<PlayerDeath>)
    ensures
        death == if is_player {
            Some(PlayerDeath)
        } else {
            None
        },
{
    if is_player {
        Some(PlayerDeath)
    } else {
        None
    }
}

/// Reacts to something touching a vine, see [`on_collision_kills_player`].
pub fn on_vine_collide(is_player: bool) -> (death: Option<PlayerDeath>)
    ensures
        death == if is_player {
            Some(PlayerDeath)
        } else {
            None
        },
{
    on_collision_kills_player(is_player)
}

} // verus!
