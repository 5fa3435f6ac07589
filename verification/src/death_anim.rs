//! The death of the player: a pause for the animation, then the menu.

use vstd::prelude::*;
use crate::timer::Timer;
use crate::timer::TimerMode;

verus! {

/// How long the player is shown dying before the menu comes up, in seconds.
pub const DYING_SECONDS: u64 = 3;

/// The player has died.
#[derive(Clone, Copy, Debug, PartialEq, Eq, Structural)]
pub struct PlayerDeath;

/// Counts down from the death of the player to the menu.
#[derive(Clone, Copy, Debug, PartialEq, Eq, Structural)]
pub struct DyingTimer(pub Timer);

/// The player is shown dying.
#[derive(Clone, Copy, Debug, PartialEq, Eq, Structural)]
pub struct PlayerDying;

/// The corners of a cross of two slanted bars, and the triangles that fill
/// it, three corners each.
#[derive(Debug, PartialEq, Eq)]
pub struct CrossMesh {
    pub positions: Vec<[i32; 3]>,
    pub indices: Vec<u32>,
}

/// Reacts to the death of the player: unless the player is shown dying
/// already, it is from now on, for [`DYING_SECONDS`].
pub fn handle_player_death(death_event: Option<PlayerDeath>, player_dying: Option<PlayerDying>) -> (
    begun: Option<(PlayerDying, DyingTimer)>
)
    ensures
        begun == if death_event is Some && player_dying is None {
            Some((PlayerDying, DyingTimer(Timer::spec_new(3_000_000_000, TimerMode::Once))))
        } else {
            None
        },
{
    if death_event.is_some() && player_dying.is_none() {
        Some((PlayerDying, DyingTimer(Timer::from_seconds(DYING_SECONDS, TimerMode::Once))))
    } else {
        None
    }
}

/// The corners of the cross that replaces the eyes of a dead player.
pub open spec fn spec_cross_positions() -> Seq<[i32; 3]> {
    seq![
        [(-10) as i32, 6, 0],
        [(-6) as i32, 10, 0],
        [10, (-6) as i32, 0],
        [6, (-10) as i32, 0],
        [6, 10, 0],
        [10, 6, 0],
        [(-6) as i32, (-10) as i32, 0],
        [(-10) as i32, (-6) as i32, 0],
    ]
}

/// The triangles of the cross, by the numbers of their corners.
pub open spec fn spec_cross_indices() -> Seq<u32> {
    seq![0, 1, 2, 2, 3, 0, 4, 5, 6, 6, 7, 4]
}

/// Makes the cross that replaces the eyes of a dead player: two bars, from
/// corner to corner, of two triangles each.
pub fn generate_cross_mesh() -> (cross_mesh: CrossMesh)
    ensures
        cross_mesh.positions@ == spec_cross_positions(),
        cross_mesh.indices@ == spec_cross_indices(),
{
    let mut positions: Vec<[i32; 3]> = Vec::new();
    positions.push([-10, 6, 0]);
    positions.push([-6, 10, 0]);
    positions.push([10, -6, 0]);
    positions.push([6, -10, 0]);
    positions.push([6, 10, 0]);
    positions.push([10, 6, 0]);
    positions.push([-6, -10, 0]);
    positions.push([-10, -6, 0]);
    let mut indices: Vec<u32> = Vec::new();
    indices.push(0);
    indices.push(1);
    indices.push(2);
    indices.push(2);
    indices.push(3);
    indices.push(0);
    indices.push(4);
    indices.push(5);
    indices.push(6);
    indices.push(6);
    indices.push(7);
    indices.push(4);
    CrossMesh { positions, indices }
}

/// Advances the countdown to the menu by a frame of `delta` nanoseconds,
/// and tells whether the menu comes up: it does in the frame in which the
/// countdown finishes.
pub fn handle_player_death_timer(timer: &mut DyingTimer, delta: u64) -> (show_menu: bool)
    ensures
        final(timer).0 == old(timer).0.spec_tick(delta),
        show_menu == final(timer).0.just_finished,
{
    timer.0.tick(delta);
    timer.0.just_finished()
}

/// Ends the death of the player: it is no longer shown dying, and the menu
/// is no longer due.
pub fn reset_death(player_dying: &mut Option<PlayerDying>, show_player_death_menu: &mut bool)
    ensures
        *final(player_dying) is None,
        !*final(show_player_death_menu),
{
    *player_dying = None;
    *show_player_death_menu = false;
}

} // verus!
