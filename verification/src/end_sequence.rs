//! The end of the game: a fire that starts at the goal and spreads over a
//! grid, one neighbouring cell at a time.

use vstd::prelude::*;
use crate::animated_sprite::AnimationIndices;
use crate::animated_sprite::AnimationTimer;
use crate::math::clamp_coordinate;
use crate::math::clamp_to_coordinate;
use crate::math::Vec2;
use crate::random::random_below;
use crate::timer::Timer;
use crate::timer::TimerMode;

verus! {

/// Distance between two neighbouring fires, in thousandths of a unit.
pub const FIRE_SPREAD_OFFSET: i64 = 40_000;

/// Number of frames that show a fire.
pub const FIRE_INDICES: usize = 4;

/// Number of cells along each side of the grid of fires.
pub const MAX_FIRE_INDEX: usize = 100;

/// How long the fire burns before the game is over, in seconds.
pub const END_SECONDS: u64 = 10;

/// A request to start the end of the game.
#[derive(Clone, Copy, Debug, PartialEq, Eq, Structural)]
pub struct StartEndSequenceEvent;

/// The end of the game has begun.
#[derive(Clone, Copy, Debug, PartialEq, Eq, Structural)]
pub struct EndSequence;

/// A side to which a fire can spread.
#[derive(Clone, Copy, Debug, PartialEq, Eq, Structural)]
pub enum SpreadDirection {
    Left,
    Right,
    Up,
    Down,
}

/// Counts down to the end of the game.
#[derive(Clone, Copy, Debug, PartialEq, Eq, Structural)]
pub struct EndTimer(pub Timer);

/// The cells that burn.
#[derive(Clone, Debug, PartialEq, Eq)]
pub struct FireGrid {
    pub fire_grid: [[bool; 100]; 100],
}

/// A fire: the sides it has not spread to yet, the pace at which it
/// spreads, and its cell.
#[derive(Debug, PartialEq, Eq)]
pub struct FireSpread {
    pub directions_left: Vec<SpreadDirection>,
    pub timer: Timer,
    pub x_index: usize,
    pub y_index: usize,
}

/// What makes an entity a fire.
#[derive(Debug, PartialEq, Eq)]
pub struct FireBundle {
    pub fire_spread: FireSpread,
    pub animation_timer: AnimationTimer,
    pub animation_indices: AnimationIndices,
    pub translation: Vec2,
}

/// What the end of the game begins with.
#[derive(Debug, PartialEq, Eq)]
pub struct EndSequenceStart {
    pub state: EndSequence,
    pub fire_grid: FireGrid,
    pub fire: FireBundle,
    pub end_timer: EndTimer,
}

/// The cell after `value` along one side of the grid, if there is one.
pub open spec fn spec_checked_add_one(value: usize) -> Option<usize> {
    if value >= MAX_FIRE_INDEX - 1 {
        None
    } else {
        Some((value + 1) as usize)
    }
}

/// Computes the cell after `value`, see [`spec_checked_add_one`].
pub fn checked_add_one(value: usize) -> (next: Option<usize>)
    ensures
        next == spec_checked_add_one(value),
{
    if value >= MAX_FIRE_INDEX - 1 {
        None
    } else {
        Some(value + 1)
    }
}

/// The four sides, in the order in which a new fire holds them.
pub open spec fn spec_all_directions() -> Seq<SpreadDirection> {
    seq![
        SpreadDirection::Left,
        SpreadDirection::Right,
        SpreadDirection::Up,
        SpreadDirection::Down,
    ]
}

impl SpreadDirection {
    /// One unit toward the side.
    pub open spec fn spec_to_vec2(self) -> Vec2 {
        match self {
            SpreadDirection::Left => Vec2 { x: (-1000) as i32, y: 0 },
            SpreadDirection::Right => Vec2 { x: 1000, y: 0 },
            SpreadDirection::Up => Vec2 { x: 0, y: 1000 },
            SpreadDirection::Down => Vec2 { x: 0, y: (-1000) as i32 },
        }
    }

    /// The cell next to `(x_index, y_index)` on the side, if the grid has
    /// one there.
    pub open spec fn spec_to_indices(self, x_index: usize, y_index: usize) -> Option<
        (usize, usize),
    > {
        match self {
            SpreadDirection::Left => if x_index >= 1 {
                Some(((x_index - 1) as usize, y_index))
            } else {
                None
            },
            SpreadDirection::Right => match spec_checked_add_one(x_index) {
                Some(x) => Some((x, y_index)),
                None => None,
            },
            SpreadDirection::Up => if y_index >= 1 {
                Some((x_index, (y_index - 1) as usize))
            } else {
                None
            },
            SpreadDirection::Down => match spec_checked_add_one(y_index) {
                Some(y) => Some((x_index, y)),
                None => None,
            },
        }
    }

    pub fn all() -> (directions: Vec<SpreadDirection>)
        ensures
            directions@ == spec_all_directions(),
    {
        let mut directions: Vec<SpreadDirection> = Vec::new();
        directions.push(SpreadDirection::Left);
        directions.push(SpreadDirection::Right);
        directions.push(SpreadDirection::Up);
        directions.push(SpreadDirection::Down);
        directions
    }

    pub fn to_vec2(&self) -> (step: Vec2)
        ensures
            step == self.spec_to_vec2(),
    {
        match self {
            SpreadDirection::Left => Vec2::new(-1000, 0),
            SpreadDirection::Right => Vec2::new(1000, 0),
            SpreadDirection::Up => Vec2::new(0, 1000),
            SpreadDirection::Down => Vec2::new(0, -1000),
        }
    }

    pub fn to_indices(&self, x_index: usize, y_index: usize) -> (indices: Option<(usize, usize)>)
        ensures
            indices == self.spec_to_indices(x_index, y_index),
    {
        match self {
            SpreadDirection::Left => match x_index.checked_sub(1) {
                Some(x) => Some((x, y_index)),
                None => None,
            },
            SpreadDirection::Right => match checked_add_one(x_index) {
                Some(x) => Some((x, y_index)),
                None => None,
            },
            SpreadDirection::Up => match y_index.checked_sub(1) {
                Some(y) => Some((x_index, y)),
                None => None,
            },
            SpreadDirection::Down => match checked_add_one(y_index) {
                Some(y) => Some((x_index, y)),
                None => None,
            },
        }
    }
}

impl FireGrid {
    /// The cell `(x_index, y_index)` burns.
    pub open spec fn spec_get_value(self, x_index: int, y_index: int) -> bool {
        self.fire_grid[y_index][x_index]
    }

    /// A grid on which nothing burns.
    pub fn new() -> (grid: FireGrid)
        ensures
            forall|x: int, y: int|
                0 <= x < MAX_FIRE_INDEX && 0 <= y < MAX_FIRE_INDEX ==> !grid.spec_get_value(x, y),
    {
        FireGrid { fire_grid: [[false; 100]; 100] }
    }

    pub fn get_value(&self, x_index: usize, y_index: usize) -> (value: bool)
        requires
            x_index < MAX_FIRE_INDEX,
            y_index < MAX_FIRE_INDEX,
        ensures
            value == self.spec_get_value(x_index as int, y_index as int),
    {
        self.fire_grid[y_index][x_index]
    }

    /// Sets the cell `(x_index, y_index)` on fire.
    pub fn set_value(&mut self, x_index: usize, y_index: usize)
        requires
            x_index < MAX_FIRE_INDEX,
            y_index < MAX_FIRE_INDEX,
        ensures
            final(self).spec_get_value(x_index as int, y_index as int),
            forall|x: int, y: int|
                0 <= x < MAX_FIRE_INDEX && 0 <= y < MAX_FIRE_INDEX && !(x == x_index && y
                    == y_index) ==> final(self).spec_get_value(x, y) == old(self).spec_get_value(
                    x,
                    y,
                ),
    {
        self.fire_grid[y_index][x_index] = true;
    }
}

/// `fire` is a new fire at `position`, in the cell `(x_index, y_index)`: it
/// has spread to no side yet, spreads once a second, and shows its frames
/// five times a second.
pub open spec fn spec_is_new_fire(
    fire: FireBundle,
    position: Vec2,
    x_index: usize,
    y_index: usize,
) -> bool {
    &&& fire.fire_spread.directions_left@ == spec_all_directions()
    &&& fire.fire_spread.timer == Timer::spec_new(1_000_000_000, TimerMode::Repeating)
    &&& fire.fire_spread.x_index == x_index
    &&& fire.fire_spread.y_index == y_index
    &&& fire.animation_timer == AnimationTimer(Timer::spec_new(200_000_000, TimerMode::Repeating))
    &&& fire.animation_indices == (AnimationIndices { first: 0, last: 3 })
    &&& fire.translation == position
}

/// Makes a new fire, see [`spec_is_new_fire`].
pub fn create_fire(position: Vec2, x_index: usize, y_index: usize) -> (fire: FireBundle)
    ensures
        spec_is_new_fire(fire, position, x_index, y_index),
{
    FireBundle {
        fire_spread: FireSpread {
            directions_left: SpreadDirection::all(),
            timer: Timer::from_seconds(1, TimerMode::Repeating),
            x_index,
            y_index,
        },
        animation_timer: AnimationTimer(Timer::new(200_000_000, TimerMode::Repeating)),
        animation_indices: AnimationIndices::new(0, FIRE_INDICES - 1),
        translation: position,
    }
}

/// Where a fire at `translation` spreads to on the side `direction`:
/// [`FIRE_SPREAD_OFFSET`] away, no farther than the representable plane
/// goes.
pub open spec fn spec_spread_position(translation: Vec2, direction: SpreadDirection) -> Vec2 {
    Vec2 {
        x: clamp_coordinate(translation.x + (direction.spec_to_vec2().x / 1000) * FIRE_SPREAD_OFFSET)
            as i32,
        y: clamp_coordinate(translation.y + (direction.spec_to_vec2().y / 1000) * FIRE_SPREAD_OFFSET)
            as i32,
    }
}

/// What it means for a fire at `translation` to spread to the side that it
/// holds at `index`: the side is taken off its list, and if the grid has a
/// cell on that side that does not burn yet, the cell is set on fire and a
/// new fire is made for it. Otherwise the grid stays as it is and no fire is
/// made.
pub open spec fn spec_spreads(
    before: FireSpread,
    grid_before: FireGrid,
    index: int,
    translation: Vec2,
    after: FireSpread,
    grid_after: FireGrid,
    created: Option<FireBundle>,
) -> bool {
    let direction = before.directions_left[index];
    &&& after.directions_left@ == before.directions_left@.remove(index)
    &&& after.timer == before.timer
    &&& after.x_index == before.x_index
    &&& after.y_index == before.y_index
    &&& match direction.spec_to_indices(before.x_index, before.y_index) {
        Some((x, y)) if !grid_before.spec_get_value(x as int, y as int) => {
            &&& grid_after.spec_get_value(x as int, y as int)
            &&& forall|i: int, j: int|
                0 <= i < MAX_FIRE_INDEX && 0 <= j < MAX_FIRE_INDEX && !(i == x && j == y)
                    ==> grid_after.spec_get_value(i, j) == grid_before.spec_get_value(i, j)
            &&& created matches Some(fire) && spec_is_new_fire(
                fire,
                spec_spread_position(translation, direction),
                x,
                y,
            )
        },
        _ => grid_after == grid_before && created is None,
    }
}

impl FireSpread {
    /// The fire's cell lies on the grid.
    pub open spec fn wf(self) -> bool {
        self.x_index < MAX_FIRE_INDEX && self.y_index < MAX_FIRE_INDEX
    }

    /// The fire after its timer ticked for a frame of `delta` nanoseconds.
    pub open spec fn spec_ticked(self, delta: u64) -> FireSpread {
        FireSpread { timer: self.timer.spec_tick(delta), ..self }
    }

    /// Lets the fire spread to the side that it holds at `index`, see
    /// [`spec_spreads`].
    pub fn spread(&mut self, index: usize, translation: Vec2, fire_grid: &mut FireGrid) -> (created:
        Option<FireBundle>)
        requires
            old(self).wf(),
            index < old(self).directions_left.len(),
        ensures
            final(self).wf(),
            spec_spreads(
                *old(self),
                *old(fire_grid),
                index as int,
                translation,
                *final(self),
                *final(fire_grid),
                created,
            ),
            created matches Some(fire) ==> fire.fire_spread.wf(),
    {
        let direction = self.directions_left.remove(index);
        let step = direction.to_vec2();
        let position = Vec2::new(
            clamp_to_coordinate(
                (translation.x as i64 + (step.x as i64 / 1000) * FIRE_SPREAD_OFFSET) as i128,
            ),
            clamp_to_coordinate(
                (translation.y as i64 + (step.y as i64 / 1000) * FIRE_SPREAD_OFFSET) as i128,
            ),
        );
        let new_indices = direction.to_indices(self.x_index, self.y_index);
        if let Some(new_indices) = new_indices {
            if !fire_grid.get_value(new_indices.0, new_indices.1) {
                fire_grid.set_value(new_indices.0, new_indices.1);
                return Some(create_fire(position, new_indices.0, new_indices.1));
            }
        }
        None
    }
}

/// Advances a fire at `fire_translation` by a frame of `delta`
/// nanoseconds. Its timer ticks. If the timer has just finished and the fire
/// has sides left, it spreads to one of them, drawn by chance, see
/// [`spec_spreads`]; else nothing more happens.
pub fn process_fire_spread(
    fire_spread: &mut FireSpread,
    fire_translation: Vec2,
    fire_grid: &mut FireGrid,
    delta: u64,
) -> (created: Option<FireBundle>)
    requires
        old(fire_spread).wf(),
    ensures
        final(fire_spread).wf(),
        created matches Some(fire) ==> fire.fire_spread.wf(),
        final(fire_spread).timer == old(fire_spread).timer.spec_tick(delta),
        if final(fire_spread).timer.just_finished && old(fire_spread).directions_left.len() > 0 {
            exists|index: int|
                0 <= index < old(fire_spread).directions_left.len() && #[trigger] spec_spreads(
                    old(fire_spread).spec_ticked(delta),
                    *old(fire_grid),
                    index,
                    fire_translation,
                    *final(fire_spread),
                    *final(fire_grid),
                    created,
                )
        } else {
            &&& final(fire_spread).directions_left == old(fire_spread).directions_left
            &&& final(fire_spread).x_index == old(fire_spread).x_index
            &&& final(fire_spread).y_index == old(fire_spread).y_index
            &&& *final(fire_grid) == *old(fire_grid)
            &&& created is None
        },
{
    fire_spread.timer.tick(delta);
    if fire_spread.timer.just_finished() {
        if fire_spread.directions_left.len() > 0 {
            let index = random_below(fire_spread.directions_left.len());
            let ghost ticked = *fire_spread;
            let created = fire_spread.spread(index, fire_translation, fire_grid);
            assert(spec_spreads(
                ticked,
                *old(fire_grid),
                index as int,
                fire_translation,
                *fire_spread,
                *fire_grid,
                created,
            ));
            return created;
        }
    }
    None
}

/// Begins the end of the game when asked to: the cell in the middle of a
/// fresh grid burns, a fire stands at `goal_pos` in that cell, and the game
/// is over [`END_SECONDS`] from now. Nothing begins without a request.
pub fn start_end_sequence(event: Option<StartEndSequenceEvent>, goal_pos: Vec2) -> (start: Option<
    EndSequenceStart,
>)
    ensures
        start is Some <==> event is Some,
        start matches Some(begun) ==> {
            &&& begun.fire_grid.spec_get_value(50, 50)
            &&& forall|x: int, y: int|
                0 <= x < MAX_FIRE_INDEX && 0 <= y < MAX_FIRE_INDEX && !(x == 50 && y == 50)
                    ==> !begun.fire_grid.spec_get_value(x, y)
            &&& spec_is_new_fire(begun.fire, goal_pos, 50, 50)
            &&& begun.end_timer == EndTimer(Timer::spec_new(10_000_000_000, TimerMode::Once))
        },
{
    if event.is_some() {
        let mut fire_grid = FireGrid::new();
        fire_grid.set_value(MAX_FIRE_INDEX / 2, MAX_FIRE_INDEX / 2);
        let fire = create_fire(goal_pos, MAX_FIRE_INDEX / 2, MAX_FIRE_INDEX / 2);
        Some(
            EndSequenceStart {
                state: EndSequence,
                fire_grid,
                fire,
                end_timer: EndTimer(Timer::from_seconds(END_SECONDS, TimerMode::Once)),
            },
        )
    } else {
        None
    }
}

/// Advances the countdown to the end of the game by a frame of `delta`
/// nanoseconds, and tells whether the game is over: it is in the frame in
/// which the countdown finishes.
pub fn handle_end_timer(end_timer: &mut EndTimer, delta: u64) -> (game_over: bool)
    ensures
        final(end_timer).0 == old(end_timer).0.spec_tick(delta),
        game_over == final(end_timer).0.just_finished,
{
    end_timer.0.tick(delta);
    end_timer.0.just_finished()
}

} // verus!
