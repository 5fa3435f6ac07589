//! Boxes to collect: the goal opens when the player has them all.

use vstd::prelude::*;
use crate::physics::Entity;

verus! {

/// How many boxes the player has collected, and how many there are.
#[derive(Clone, Copy, Debug, PartialEq, Eq, Structural)]
pub struct BoxInfo {
    pub collected: u32,
    pub total: u32,
}

/// What follows from a box having been touched.
#[derive(Clone, Copy, Debug, PartialEq, Eq, Structural)]
pub struct BoxCollected {
    /// The box to remove.
    pub despawn: Option<Entity>,
    /// The goal opens.
    pub enable_goal: bool,
}

/// One more than `count`, or `count` itself where a `u32` ends.
pub open spec fn spec_one_more(count: u32) -> u32 {
    if count < u32::MAX {
        (count + 1) as u32
    } else {
        count
    }
}

/// Counts a box that has come into the world.
pub fn process_boxes(box_info: &mut BoxInfo)
    ensures
        *final(box_info) == (BoxInfo {
            total: spec_one_more(old(box_info).total),
            ..*old(box_info)
        }),
{
    box_info.total = box_info.total.saturating_add(1);
}

/// Reacts to something touching a box. When it is the player and the box
/// is still there, the box is collected and removed, and the goal opens if
/// that was the last one. Anything else changes nothing.
pub fn on_box_collect(is_player: bool, box_entity: Option<Entity>, box_info: &mut BoxInfo) -> (outcome:
    BoxCollected)
    ensures
        match box_entity {
            Some(entity) if is_player => {
                &&& *final(box_info) == (BoxInfo {
                    collected: spec_one_more(old(box_info).collected),
                    ..*old(box_info)
                })
                &&& outcome == (BoxCollected {
                    despawn: Some(entity),
                    enable_goal: final(box_info).collected >= final(box_info).total,
                })
            },
            _ => *final(box_info) == *old(box_info) && outcome == (BoxCollected {
                despawn: None,
                enable_goal: false,
            }),
        },
{
    if is_player {
        if let Some(entity) = box_entity {
            box_info.collected = box_info.collected.saturating_add(1);
            return BoxCollected {
                despawn: Some(entity),
                enable_goal: box_info.collected >= box_info.total,
            };
        }
    }
    BoxCollected { despawn: None, enable_goal: false }
}

} // verus!
