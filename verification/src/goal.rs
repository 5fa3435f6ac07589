//! The goal of a level.

use vstd::prelude::*;
use crate::end_sequence::StartEndSequenceEvent;

verus! {

/// Number of the last level.
pub const LAST_LEVEL: usize = 2;

/// What reaching the goal leads to.
#[derive(Clone, Copy, Debug, PartialEq, Eq, Structural)]
pub enum GoalReached {
    /// Nothing: it was not the player that touched the goal.
    Nothing,
    /// The level of this number begins.
    Level(usize),
    /// The game ends.
    End(StartEndSequenceEvent),
}

/// Reacts to something touching the open goal of the level number `level`:
/// the player moves on to the next level, or ends the game on the last one.
pub fn goal_observer(is_player: bool, level: usize) -> (reached: GoalReached)
    ensures
        reached == if !is_player {
            GoalReached::Nothing
        } else if level < LAST_LEVEL {
            GoalReached::Level((level + 1) as usize)
        } else {
            GoalReached::End(StartEndSequenceEvent)
        },
{
    if is_player {
        if level < LAST_LEVEL {
            GoalReached::Level(level + 1)
        } else {
            GoalReached::End(StartEndSequenceEvent)
        }
    } else {
        GoalReached::Nothing
    }
}

} // verus!
