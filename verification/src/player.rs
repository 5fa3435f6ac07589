//! The player: what it is doing, which way it faces, and where its eyes
//! sit.

use vstd::prelude::*;
use crate::animated_sprite::AnimationIndices;
use crate::math::clamp_coordinate;
use crate::math::clamp_to_coordinate;
use crate::math::Vec2;
use crate::random::random_below;

verus! {

/// Frame of the sprite sheet that shows the player standing.
pub const IDLE_INDEX: usize = 0;

/// First frame of the sprite sheet that shows the player running.
pub const RUN_FIRST_INDEX: usize = 1;

/// Last frame of the sprite sheet that shows the player running.
pub const RUN_LAST_INDEX: usize = 4;

/// Frame of the sprite sheet that shows the player in the air.
pub const JUMP_INDEX: usize = 5;

/// Side of the drawing that the player was made from, in its own units.
pub const INKSCAPE_SCALE: i32 = 500;

/// Size of the player over the size of its drawing, in thousandths.
pub const PLAYER_SCALE: i32 = 400;

/// What the player is doing.
#[derive(Clone, Copy, Debug, PartialEq, Eq, Structural)]
pub enum PlayerState {
    Idle,
    Running,
    Jumping,
}

/// Which way the player faces.
#[derive(Clone, Copy, Debug, PartialEq, Eq, Structural)]
pub enum Direction {
    Left,
    Right,
}

/// A request to face the other way.
#[derive(Clone, Copy, Debug, PartialEq, Eq, Structural)]
pub enum ChangePlayerDirection {
    TurnLeft,
    TurnRight,
}

/// A request to do something else.
#[derive(Clone, Copy, Debug, PartialEq, Eq, Structural)]
pub enum ChangePlayerState {
    Running,
    Idle,
    Jumping,
}

/// How far an eye is off its place at the moment, on its way to bobbing
/// somewhere else.
#[derive(Clone, Copy, Debug, PartialEq, Eq, Structural)]
pub struct PlayerEyeBobble(pub Vec2);

/// How fast an eye moves, in thousandths of a unit per second.
pub const EYE_MOVEMENT_SPEED: u64 = 10_000;

/// Width of the range in which an eye bobs sideways, in thousandths of a
/// unit.
pub const EYE_X_OFFSET: usize = 8_000;

/// Height of the range in which an eye bobs up and down, in thousandths of
/// a unit.
pub const EYE_Y_OFFSET: usize = 16_000;

/// One of the player's eyes.
#[derive(Clone, Copy, Debug, PartialEq, Eq, Structural)]
pub enum PlayerEye {
    Left,
    Right,
}

/// A point of the drawing, given from its top left corner, as a distance
/// from the centre of the player, in thousandths of a unit. `scale` is in
/// thousandths and may be negative to flip an axis.
pub open spec fn spec_convert_pos(pos: i32, scale: i32) -> int {
    scale * (pos - INKSCAPE_SCALE / 2)
}

/// Converts a coordinate of the drawing, see [`spec_convert_pos`].
pub fn convert_pos(pos: i32, scale: i32) -> (converted: i64)
    ensures
        converted == spec_convert_pos(pos, scale),
{
    let from_centre: i64 = pos as i64 - (INKSCAPE_SCALE / 2) as i64;
    assert(-0x8000_0000 * 0x8000_00fa <= scale * from_centre <= 0x8000_0000 * 0x8000_00fa)
        by (nonlinear_arith)
        requires
            -0x8000_0000 <= scale <= 0x7fff_ffff,
            -0x8000_00fa <= from_centre <= 0x7fff_ffff,
    ;
    scale as i64 * from_centre
}

impl ChangePlayerDirection {
    pub open spec fn spec_as_direction(self) -> Direction {
        match self {
            ChangePlayerDirection::TurnLeft => Direction::Left,
            ChangePlayerDirection::TurnRight => Direction::Right,
        }
    }

    /// The way the player faces once the request is met.
    pub fn as_direction(&self) -> (direction: Direction)
        ensures
            direction == self.spec_as_direction(),
    {
        match self {
            ChangePlayerDirection::TurnLeft => Direction::Left,
            ChangePlayerDirection::TurnRight => Direction::Right,
        }
    }

    /// Whether the picture of the player is mirrored once the request is met.
    pub fn flip_x(&self) -> (flip: bool)
        ensures
            flip == (*self == ChangePlayerDirection::TurnLeft),
    {
        match self {
            ChangePlayerDirection::TurnLeft => true,
            ChangePlayerDirection::TurnRight => false,
        }
    }
}

impl ChangePlayerState {
    pub open spec fn spec_as_state(self) -> PlayerState {
        match self {
            ChangePlayerState::Running => PlayerState::Running,
            ChangePlayerState::Idle => PlayerState::Idle,
            ChangePlayerState::Jumping => PlayerState::Jumping,
        }
    }

    pub open spec fn spec_as_indices(self) -> AnimationIndices {
        match self {
            ChangePlayerState::Running => AnimationIndices {
                first: RUN_FIRST_INDEX,
                last: RUN_LAST_INDEX,
            },
            ChangePlayerState::Idle => AnimationIndices { first: IDLE_INDEX, last: IDLE_INDEX },
            ChangePlayerState::Jumping => AnimationIndices { first: JUMP_INDEX, last: JUMP_INDEX },
        }
    }

    /// What the player does once the request is met.
    pub fn as_state(&self) -> (state: PlayerState)
        ensures
            state == self.spec_as_state(),
    {
        match self {
            ChangePlayerState::Running => PlayerState::Running,
            ChangePlayerState::Idle => PlayerState::Idle,
            ChangePlayerState::Jumping => PlayerState::Jumping,
        }
    }

    /// The frames that show what the player does once the request is met.
    pub fn as_indices(&self) -> (indices: AnimationIndices)
        ensures
            indices == self.spec_as_indices(),
    {
        match self {
            ChangePlayerState::Running => AnimationIndices::new(RUN_FIRST_INDEX, RUN_LAST_INDEX),
            ChangePlayerState::Idle => AnimationIndices::single(IDLE_INDEX),
            ChangePlayerState::Jumping => AnimationIndices::single(JUMP_INDEX),
        }
    }
}

impl PlayerEye {
    /// Where the eye sits on a player that faces right, from the centre of
    /// the player.
    pub open spec fn spec_get_pos(self) -> Vec2 {
        match self {
            PlayerEye::Left => Vec2 { x: 5_200, y: 37_200 },
            PlayerEye::Right => Vec2 { x: 54_000, y: 38_000 },
        }
    }

    /// Where the eye sits on a player that faces `direction`: mirrored when
    /// the player faces left.
    pub open spec fn spec_get_pos_with_dir(self, direction: Direction) -> Vec2 {
        let pos = self.spec_get_pos();
        if direction == Direction::Left {
            Vec2 { x: (-pos.x) as i32, y: pos.y }
        } else {
            pos
        }
    }

    pub fn get_pos(&self) -> (pos: Vec2)
        ensures
            pos == self.spec_get_pos(),
    {
        match self {
            PlayerEye::Left => Vec2::new(
                convert_pos(263, PLAYER_SCALE) as i32,
                convert_pos(157, -PLAYER_SCALE) as i32,
            ),
            PlayerEye::Right => Vec2::new(
                convert_pos(385, PLAYER_SCALE) as i32,
                convert_pos(155, -PLAYER_SCALE) as i32,
            ),
        }
    }

    pub fn get_pos_with_dir(&self, direction: Direction) -> (pos: Vec2)
        ensures
            pos == self.spec_get_pos_with_dir(direction),
    {
        let pos = self.get_pos();
        if direction == Direction::Left {
            Vec2::new(-pos.x, pos.y)
        } else {
            Vec2::new(pos.x, pos.y)
        }
    }
}

/// Where an eye goes when the player turns: its place for the new way the
/// player faces, moved by as much as the eye was off its place before.
/// Coordinates stop at the border of the representable plane.
pub open spec fn spec_turned_eye(
    eye: PlayerEye,
    translation: Vec2,
    existing_direction: Direction,
    new_direction: Direction,
) -> Vec2 {
    let old_pos = eye.spec_get_pos_with_dir(existing_direction);
    let new_pos = eye.spec_get_pos_with_dir(new_direction);
    Vec2 {
        x: clamp_coordinate(new_pos.x + (translation.x - old_pos.x)) as i32,
        y: clamp_coordinate(new_pos.y + (translation.y - old_pos.y)) as i32,
    }
}

/// Turns the player as `event` asks: its direction and the mirroring of its
/// picture follow the request, and the eye at `eye_translation` moves to
/// the other side, see [`spec_turned_eye`].
pub fn change_player_direction(
    direction: &mut Direction,
    flip_x: &mut bool,
    eye: PlayerEye,
    eye_translation: Vec2,
    event: ChangePlayerDirection,
) -> (position: Vec2)
    ensures
        *final(direction) == event.spec_as_direction(),
        *final(flip_x) == (event == ChangePlayerDirection::TurnLeft),
        position == spec_turned_eye(
            eye,
            eye_translation,
            *old(direction),
            event.spec_as_direction(),
        ),
{
    let existing_direction = *direction;
    *direction = event.as_direction();
    *flip_x = event.flip_x();
    let old_pos = eye.get_pos_with_dir(existing_direction);
    let new_pos = eye.get_pos_with_dir(event.as_direction());
    let x = new_pos.x as i64 + (eye_translation.x as i64 - old_pos.x as i64);
    let y = new_pos.y as i64 + (eye_translation.y as i64 - old_pos.y as i64);
    Vec2::new(clamp_to_coordinate(x as i128), clamp_to_coordinate(y as i128))
}

/// Makes the player do what `event` asks, and show it.
pub fn change_player_state(
    state: &mut PlayerState,
    indices: &mut AnimationIndices,
    event: ChangePlayerState,
)
    ensures
        *final(state) == event.spec_as_state(),
        *final(indices) == event.spec_as_indices(),
{
    *state = event.as_state();
    *indices = event.as_indices();
}

/// Where an eye is headed: off its place by its bobble.
pub open spec fn spec_eye_target(eye: PlayerEye, direction: Direction, bobble: PlayerEyeBobble) -> Vec2 {
    let place = eye.spec_get_pos_with_dir(direction);
    Vec2 {
        x: clamp_coordinate(place.x - bobble.0.x) as i32,
        y: clamp_coordinate(place.y - bobble.0.y) as i32,
    }
}

/// How far an eye moves in `delta` nanoseconds, in thousandths of a unit,
/// rounded down.
pub open spec fn spec_eye_step(delta: u64) -> u64 {
    (delta / 100_000) as u64
}

/// Where an eye at `translation` is after a frame of `delta` nanoseconds,
/// and whether it has arrived where it was headed. It arrives when the way
/// left is no longer than what it moves in the frame; else it moves that
/// much straight toward where it is headed.
pub open spec fn spec_eye_bobble_step(
    delta: u64,
    bobble: PlayerEyeBobble,
    translation: Vec2,
    eye: PlayerEye,
    direction: Direction,
) -> (Vec2, bool) {
    let target = spec_eye_target(eye, direction, bobble);
    let step = spec_eye_step(delta);
    match translation.spec_direction_to(target) {
        Some(heading) => if step * step >= translation.spec_distance_squared(target) {
            (target, true)
        } else {
            (translation.spec_advance(heading, step as nat), false)
        },
        None => (translation, true),
    }
}

/// Moves an eye for one frame, see [`spec_eye_bobble_step`].
pub fn eye_bobble_step(
    delta: u64,
    bobble: PlayerEyeBobble,
    translation: Vec2,
    eye: PlayerEye,
    direction: Direction,
) -> (moved: (Vec2, bool))
    ensures
        moved == spec_eye_bobble_step(delta, bobble, translation, eye, direction),
{
    let place = eye.get_pos_with_dir(direction);
    let target = Vec2::new(
        clamp_to_coordinate((place.x as i64 - bobble.0.x as i64) as i128),
        clamp_to_coordinate((place.y as i64 - bobble.0.y as i64) as i128),
    );
    let step = delta / 100_000;
    match translation.direction_to(target) {
        Some(heading) => {
            assert(step * step <= u64::MAX * u64::MAX) by (nonlinear_arith)
                requires
                    step <= u64::MAX,
            ;
            if (step as u128) * (step as u128) >= translation.distance_squared(target) {
                (target, true)
            } else {
                (translation.advance(heading, step), false)
            }
        },
        None => (translation, true),
    }
}

/// The bobble that chance chose with the two numbers `x_draw` and
/// `y_draw`: up to half of [`EYE_X_OFFSET`] to either side and half of
/// [`EYE_Y_OFFSET`] up or down.
pub open spec fn spec_eye_offset(x_draw: usize, y_draw: usize) -> Vec2 {
    Vec2 {
        x: clamp_coordinate(x_draw - 4_000) as i32,
        y: clamp_coordinate(y_draw - 8_000) as i32,
    }
}

/// Computes the bobble for two numbers that chance chose, see
/// [`spec_eye_offset`].
pub fn eye_offset(x_draw: usize, y_draw: usize) -> (offset: Vec2)
    ensures
        offset == spec_eye_offset(x_draw, y_draw),
{
    Vec2::new(
        clamp_to_coordinate(x_draw as i128 - 4_000),
        clamp_to_coordinate(y_draw as i128 - 8_000),
    )
}

/// Draws a new bobble for an eye, see [`spec_eye_offset`].
pub fn generate_random_eye_offset() -> (offset: Vec2)
    ensures
        exists|x_draw: usize, y_draw: usize|
            x_draw < EYE_X_OFFSET && y_draw < EYE_Y_OFFSET && offset == #[trigger] spec_eye_offset(
                x_draw,
                y_draw,
            ),
        -4_000 <= offset.x < 4_000,
        -8_000 <= offset.y < 8_000,
{
    let x_draw = random_below(EYE_X_OFFSET);
    let y_draw = random_below(EYE_Y_OFFSET);
    eye_offset(x_draw, y_draw)
}

/// Lets an eye bob for a frame of `delta` nanoseconds: it moves toward
/// where it is headed, see [`spec_eye_bobble_step`], and once it has arrived
/// it is headed somewhere else, which chance chooses.
pub fn handle_eye_bobble(
    delta: u64,
    bobble: &mut PlayerEyeBobble,
    translation: &mut Vec2,
    eye: PlayerEye,
    player_direction: Direction,
)
    ensures
        *final(translation) == spec_eye_bobble_step(
            delta,
            *old(bobble),
            *old(translation),
            eye,
            player_direction,
        ).0,
        if spec_eye_bobble_step(delta, *old(bobble), *old(translation), eye, player_direction).1 {
            -4_000 <= final(bobble).0.x < 4_000 && -8_000 <= final(bobble).0.y < 8_000
        } else {
            *final(bobble) == *old(bobble)
        },
{
    let moved = eye_bobble_step(delta, *bobble, *translation, eye, player_direction);
    *translation = moved.0;
    if moved.1 {
        *bobble = PlayerEyeBobble(generate_random_eye_offset());
    }
}

/// Tells whether a player on the level number `level` can shoot a grapple:
/// on every level but the first.
pub fn can_shoot_chain(level: usize) -> (can_shoot: bool)
    ensures
        can_shoot == (level > 0),
{
    level > 0
}

} // verus!
