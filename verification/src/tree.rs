//! Trees, which drop apples toward the player.

use vstd::prelude::*;
use crate::chain_movement::GameLayer;
use crate::death_anim::PlayerDeath;
use crate::math::clamp_coordinate;
use crate::math::clamp_to_coordinate;
use crate::math::Vec2;
use crate::physics::Collider;
use crate::physics::CollisionLayers;
use crate::physics::LayerMask;
use crate::physics::LinearVelocity;
use crate::random::random_below;
use crate::timer::Timer;
use crate::timer::TimerMode;

verus! {

/// Time between two apples of a tree, in seconds.
pub const APPLE_SECONDS: u64 = 5;

/// Width and height of the square around a tree in which its apples
/// appear, in thousandths of a unit.
pub const APPLE_SPREAD: usize = 6_000;

/// Greatest sideways speed of an apple, in thousandths of a unit per second.
pub const APPLE_MAX_SPEED: i64 = 3_000_000;

/// Upward speed of an apple, in thousandths of a unit per second.
pub const APPLE_RISE: i64 = 140_000;

/// Paces the apples of a tree.
#[derive(Clone, Copy, Debug, PartialEq, Eq, Structural)]
pub struct AppleTimer(pub Timer);

/// What a tree is given when it comes into the world.
#[derive(Clone, Copy, Debug, PartialEq, Eq, Structural)]
pub struct TreeParts {
    pub collider: Collider,
    pub apple_timer: AppleTimer,
    pub layers: CollisionLayers,
}

/// Where an apple appears and how it flies.
#[derive(Clone, Copy, Debug, PartialEq, Eq, Structural)]
pub struct AppleSpawn {
    pub position: Vec2,
    pub linear_velocity: LinearVelocity,
    pub layers: CollisionLayers,
}

/// What an apple does to what it touches.
#[derive(Clone, Copy, Debug, PartialEq, Eq, Structural)]
pub enum AppleHit {
    /// It kills the player.
    Kill(PlayerDeath),
    /// It is gone.
    Despawn,
    /// Nothing: it touched a tree.
    Nothing,
}

/// Gives a tree its box, its pace of [`APPLE_SECONDS`], and the layer of
/// trees, on which it meets the default layer only.
pub fn process_tree() -> (parts: TreeParts)
    ensures
        parts == (TreeParts {
            collider: Collider { width: 80_000, height: 80_000 },
            apple_timer: AppleTimer(Timer::spec_new(5_000_000_000, TimerMode::Repeating)),
            layers: CollisionLayers {
                memberships: LayerMask(GameLayer::TreeLayer.spec_to_bits()),
                filters: LayerMask::spec_default(),
            },
        }),
{
    TreeParts {
        collider: Collider { width: 80_000, height: 80_000 },
        apple_timer: AppleTimer(Timer::from_seconds(APPLE_SECONDS, TimerMode::Repeating)),
        layers: CollisionLayers::new(
            LayerMask(GameLayer::TreeLayer.to_bits()),
            LayerMask::default_layer(),
        ),
    }
}

/// The apple that a tree at `tree` drops for a player at `player`, given
/// the two numbers below [`APPLE_SPREAD`] that chance chose. It appears in
/// the square around a point five units above the tree, flies sideways as
/// fast as it is far from the player, to the right at [`APPLE_MAX_SPEED`] at
/// most, and rises at [`APPLE_RISE`]. It is on the default layer and does
/// not meet trees.
pub open spec fn spec_apple_spawn(tree: Vec2, player: Vec2, x_draw: usize, y_draw: usize) -> AppleSpawn {
    let position = Vec2 {
        x: clamp_coordinate(tree.x + x_draw - 3_000) as i32,
        y: clamp_coordinate(tree.y + y_draw - 3_000 + 5_000) as i32,
    };
    AppleSpawn {
        position,
        linear_velocity: LinearVelocity {
            x: if player.x - position.x < APPLE_MAX_SPEED {
                (player.x - position.x) as i64
            } else {
                APPLE_MAX_SPEED
            },
            y: APPLE_RISE,
        },
        layers: CollisionLayers {
            memberships: LayerMask::spec_default(),
            filters: LayerMask::spec_default().spec_without(GameLayer::TreeLayer.spec_to_bits()),
        },
    }
}

/// Computes the apple that a tree drops, see [`spec_apple_spawn`].
pub fn apple_spawn(tree: Vec2, player: Vec2, x_draw: usize, y_draw: usize) -> (apple: AppleSpawn)
    ensures
        apple == spec_apple_spawn(tree, player, x_draw, y_draw),
{
    let position = Vec2::new(
        clamp_to_coordinate(tree.x as i128 + x_draw as i128 - 3_000),
        clamp_to_coordinate(tree.y as i128 + y_draw as i128 - 3_000 + 5_000),
    );
    let direction_x = player.x as i64 - position.x as i64;
    let x_velocity = if direction_x < APPLE_MAX_SPEED {
        direction_x
    } else {
        APPLE_MAX_SPEED
    };
    AppleSpawn {
        position,
        linear_velocity: LinearVelocity { x: x_velocity, y: APPLE_RISE },
        layers: CollisionLayers::new(
            LayerMask::default_layer(),
            LayerMask::default_layer().without(GameLayer::TreeLayer.to_bits()),
        ),
    }
}

/// Advances the pace of a tree at `tree` by a frame of `delta`
/// nanoseconds. When the timer has just finished, the tree drops an apple
/// for the player at `player`, at a place that chance chooses, see
/// [`spec_apple_spawn`].
pub fn process_apple_timer(apple_timer: &mut AppleTimer, delta: u64, tree: Vec2, player: Vec2) -> (apple:
    Option<AppleSpawn>)
    ensures
        final(apple_timer).0 == old(apple_timer).0.spec_tick(delta),
        apple is Some <==> final(apple_timer).0.just_finished,
        apple matches Some(dropped) ==> exists|x_draw: usize, y_draw: usize|
            x_draw < APPLE_SPREAD && y_draw < APPLE_SPREAD && dropped == #[trigger] spec_apple_spawn(
                tree,
                player,
                x_draw,
                y_draw,
            ),
{
    apple_timer.0.tick(delta);
    if apple_timer.0.just_finished() {
        let x_draw = random_below(APPLE_SPREAD);
        let y_draw = random_below(APPLE_SPREAD);
        Some(apple_spawn(tree, player, x_draw, y_draw))
    } else {
        None
    }
}

/// Reacts to an apple touching something: it kills the player, passes
/// through trees, and is gone on anything else.
pub fn on_apple_collision(is_player: bool, is_tree: bool) -> (hit: AppleHit)
    ensures
        hit == if is_player {
            AppleHit::Kill(PlayerDeath)
        } else if !is_tree {
            AppleHit::Despawn
        } else {
            AppleHit::Nothing
        },
{
    if is_player {
        AppleHit::Kill(PlayerDeath)
    } else if !is_tree {
        AppleHit::Despawn
    } else {
        AppleHit::Nothing
    }
}

} // verus!
