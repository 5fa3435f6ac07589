//! Frame-by-frame animation of a sprite sheet.

use vstd::prelude::*;
use crate::timer::Timer;

verus! {

/// Paces the frames of an animation.
#[derive(Clone, Copy, Debug, PartialEq, Eq, Structural)]
pub struct AnimationTimer(pub Timer);

/// The frames of an animation, from `first` to `last` on the sprite sheet.
#[derive(Clone, Copy, Debug, PartialEq, Eq, Structural)]
pub struct AnimationIndices {
    pub first: usize,
    pub last: usize,
}

impl AnimationIndices {
    pub fn new(first: usize, last: usize) -> (indices: AnimationIndices)
        ensures
            indices == (AnimationIndices { first, last }),
    {
        AnimationIndices { first, last }
    }

    /// An animation of the one frame `index`.
    pub fn single(index: usize) -> (indices: AnimationIndices)
        ensures
            indices == (AnimationIndices { first: index, last: index }),
    {
        AnimationIndices { first: index, last: index }
    }

    /// The frame that follows `index`: the first one again after the last
    /// or anything beyond it, else the next one.
    pub open spec fn spec_next(self, index: usize) -> usize {
        if index >= self.last {
            self.first
        } else {
            (index + 1) as usize
        }
    }

    pub fn next(&self, index: usize) -> (next: usize)
        ensures
            next == self.spec_next(index),
    {
        if index >= self.last {
            self.first
        } else {
            index + 1
        }
    }
}

/// Advances an animation by a frame of `delta` nanoseconds: the timer
/// ticks, and a sprite that shows the frame `index` of a sheet moves on to
/// the next frame when the timer has just finished. A sprite without a sheet
/// shows nothing to move on from.
pub fn animate_sprite(
    delta: u64,
    index: Option<usize>,
    timer: &mut AnimationTimer,
    indices: &AnimationIndices,
) -> (shown: Option<usize>)
    ensures
        final(timer).0 == old(timer).0.spec_tick(delta),
        shown == match index {
            Some(current) if final(timer).0.just_finished => Some(indices.spec_next(current)),
            _ => index,
        },
{
    timer.0.tick(delta);
    if timer.0.just_finished() {
        if let Some(current) = index {
            return Some(indices.next(current));
        }
    }
    index
}

} // verus!
