//! Moving a character: how input turns into velocity, and how the chain a
//! character hangs from changes that.

use vstd::prelude::*;
use crate::physics::LinearVelocity;
use crate::player::ChangePlayerDirection;
use crate::player::ChangePlayerState;
use crate::player::PlayerState;

verus! {

/// Thousandths in a whole.
pub const WHOLE: u64 = 1000;

/// How much of its push a character keeps in the air, in thousandths.
pub const AIR_DAMPER: u64 = 600;

/// How much of its push a character keeps on a chain, in thousandths.
pub const CHAIN_DAMPER: u64 = 600;

/// Speed below which a running character counts as standing, in thousandths
/// of a unit per second.
pub const IDLE_SPEED: i64 = 300;

/// Acceleration of a character that is told to move, in thousandths of a
/// unit per second squared.
#[derive(Clone, Copy, Debug, PartialEq, Eq, Structural)]
pub struct MovementAcceleration(pub u32);

/// Greatest speed that a character reaches by being told to move, in
/// thousandths of a unit per second.
#[derive(Clone, Copy, Debug, PartialEq, Eq, Structural)]
pub struct MaxPlayerVelocity(pub u32);

/// How much of its speed a character keeps from frame to frame, in
/// thousandths.
#[derive(Clone, Copy, Debug, PartialEq, Eq, Structural)]
pub struct MovementDampingFactor(pub u32);

/// Upward speed of a jump, in thousandths of a unit per second.
#[derive(Clone, Copy, Debug, PartialEq, Eq, Structural)]
pub struct JumpImpulse(pub u32);

/// Steepest slope that still counts as ground, in thousandths of a radian.
#[derive(Clone, Copy, Debug, PartialEq, Eq, Structural)]
pub struct MaxSlopeAngle(pub u32);

/// The numbers that say how a character moves.
#[derive(Clone, Copy, Debug, PartialEq, Eq, Structural)]
pub struct MovementBundle {
    pub acceleration: MovementAcceleration,
    pub damping: MovementDampingFactor,
    pub jump_impulse: JumpImpulse,
    pub max_slope_angle: MaxSlopeAngle,
    pub max_player_velocity: MaxPlayerVelocity,
}

/// What a character is told to do.
#[derive(Clone, Copy, Debug, PartialEq, Eq, Structural)]
pub enum MovementAction {
    /// Move sideways: to the right when positive, to the left when negative,
    /// with a strength in thousandths.
    Move(i32),
    Jump,
}

/// What moving a character asks of the player that it shows.
#[derive(Clone, Copy, Debug, PartialEq, Eq, Structural)]
pub struct MovementOutcome {
    pub state: Option<ChangePlayerState>,
    pub direction: Option<ChangePlayerDirection>,
}

impl MovementBundle {
    pub fn new(
        acceleration: u32,
        damping: u32,
        jump_impulse: u32,
        max_slope_angle: u32,
        max_player_velocity: u32,
    ) -> (bundle: MovementBundle)
        ensures
            bundle == (MovementBundle {
                acceleration: MovementAcceleration(acceleration),
                damping: MovementDampingFactor(damping),
                jump_impulse: JumpImpulse(jump_impulse),
                max_slope_angle: MaxSlopeAngle(max_slope_angle),
                max_player_velocity: MaxPlayerVelocity(max_player_velocity),
            }),
    {
        MovementBundle {
            acceleration: MovementAcceleration(acceleration),
            damping: MovementDampingFactor(damping),
            jump_impulse: JumpImpulse(jump_impulse),
            max_slope_angle: MaxSlopeAngle(max_slope_angle),
            max_player_velocity: MaxPlayerVelocity(max_player_velocity),
        }
    }
}

impl Default for MovementBundle {
    /// The movement of the player: quick to speed up, slow to lose speed,
    /// able to stand on slopes of up to 81 degrees.
    fn default() -> (bundle: MovementBundle)
        ensures
            bundle == (MovementBundle {
                acceleration: MovementAcceleration(2_000_000),
                damping: MovementDampingFactor(950),
                jump_impulse: JumpImpulse(300_000),
                max_slope_angle: MaxSlopeAngle(1_414),
                max_player_velocity: MaxPlayerVelocity(300_000),
            }),
    {
        MovementBundle::new(2_000_000, 950, 300_000, 1_414, 300_000)
    }
}

/// How much of its push a character keeps, in thousandths: all of it on the
/// ground, [`AIR_DAMPER`] of it in the air, and [`CHAIN_DAMPER`] of that
/// when it hangs from a chain.
pub open spec fn spec_damper(is_grounded: bool, is_on_chain: bool) -> u64 {
    let jump_damper = if is_grounded {
        WHOLE
    } else {
        AIR_DAMPER
    };
    let chain_damper = if is_on_chain {
        CHAIN_DAMPER
    } else {
        WHOLE
    };
    ((chain_damper * jump_damper) / WHOLE as int) as u64
}

/// Computes how much of its push a character keeps, see [`spec_damper`].
pub fn damper(is_grounded: bool, is_on_chain: bool) -> (damper: u64)
    ensures
        damper == spec_damper(is_grounded, is_on_chain),
        damper <= WHOLE,
{
    let jump_damper = if is_grounded {
        WHOLE
    } else {
        AIR_DAMPER
    };
    let chain_damper = if is_on_chain {
        CHAIN_DAMPER
    } else {
        WHOLE
    };
    chain_damper * jump_damper / WHOLE
}

/// Limits an exact speed to what a velocity holds.
pub open spec fn clamp_speed(value: int) -> int {
    if value < i64::MIN {
        i64::MIN as int
    } else if value > i64::MAX {
        i64::MAX as int
    } else {
        value
    }
}

/// The speed that a push of strength `direction` adds in `delta`
/// nanoseconds, in thousandths of a unit per second: the acceleration is
/// scaled by the damper and the strength, rounded toward zero, then by the
/// time, rounded toward zero.
pub open spec fn spec_speed_gain(damper: u64, direction: i32, acceleration: u32, delta: u64) -> int {
    let magnitude = if direction < 0 {
        -direction
    } else {
        direction as int
    };
    let effective = (damper * magnitude * acceleration) / 1_000_000;
    let gain = (effective * delta) / 1_000_000_000;
    if direction < 0 {
        -gain
    } else {
        gain
    }
}

/// What a character is told to do by the keys that are held: to move right
/// or left when exactly one of the two is held, and to jump when the key for
/// it has just been pressed, in this order.
pub open spec fn spec_keyboard_input(left: bool, right: bool, jump: bool) -> Seq<MovementAction> {
    let horizontal: Seq<MovementAction> = if right && !left {
        seq![MovementAction::Move(1000)]
    } else if left && !right {
        seq![MovementAction::Move((-1000) as i32)]
    } else {
        seq![]
    };
    if jump {
        horizontal.push(MovementAction::Jump)
    } else {
        horizontal
    }
}

/// Turns the keys that are held into what the character is told to do, see
/// [`spec_keyboard_input`].
pub fn handle_keyboard_input(left: bool, right: bool, jump: bool) -> (actions: Vec<MovementAction>)
    ensures
        actions@ == spec_keyboard_input(left, right, jump),
{
    let mut actions: Vec<MovementAction> = Vec::new();
    let horizontal: i32 = if right && !left {
        1
    } else if left && !right {
        -1
    } else {
        0
    };
    if horizontal != 0 {
        actions.push(MovementAction::Move(horizontal * 1000));
    }
    if jump {
        actions.push(MovementAction::Jump);
    }
    actions
}

/// The velocity of a character after it was told to do `event`.
///
/// Told to move, it gains speed toward that side unless it is already as
/// fast as it may get that way; how much it gains is given by
/// [`spec_speed_gain`]. Told to jump, it leaves the ground at the speed of
/// its jump, scaled by the damper; in the air nothing happens.
pub open spec fn spec_control_velocity(
    event: MovementAction,
    delta: u64,
    movement_acceleration: MovementAcceleration,
    jump_impulse: JumpImpulse,
    linear_velocity: LinearVelocity,
    max_velocity: MaxPlayerVelocity,
    is_grounded: bool,
    is_on_chain: bool,
) -> LinearVelocity {
    let damper = spec_damper(is_grounded, is_on_chain);
    match event {
        MovementAction::Move(direction) => if direction > 0 && linear_velocity.x < max_velocity.0
            || direction < 0 && linear_velocity.x > -max_velocity.0 {
            LinearVelocity {
                x: clamp_speed(
                    linear_velocity.x + spec_speed_gain(
                        damper,
                        direction,
                        movement_acceleration.0,
                        delta,
                    ),
                ) as i64,
                ..linear_velocity
            }
        } else {
            linear_velocity
        },
        MovementAction::Jump => if is_grounded {
            LinearVelocity {
                y: ((jump_impulse.0 * damper) / WHOLE as int) as i64,
                ..linear_velocity
            }
        } else {
            linear_velocity
        },
    }
}

/// What the player is to show after its character was told to do `event`:
/// running and facing the side it was told to move to, or jumping if it
/// left the ground.
pub open spec fn spec_control_outcome(event: MovementAction, is_grounded: bool) -> MovementOutcome {
    match event {
        MovementAction::Move(direction) => MovementOutcome {
            state: Some(ChangePlayerState::Running),
            direction: Some(
                if direction < 0 {
                    ChangePlayerDirection::TurnLeft
                } else {
                    ChangePlayerDirection::TurnRight
                },
            ),
        },
        MovementAction::Jump => MovementOutcome {
            state: if is_grounded {
                Some(ChangePlayerState::Jumping)
            } else {
                None
            },
            direction: None,
        },
    }
}

/// Does what a character was told to do, see [`spec_control_velocity`] and
/// [`spec_control_outcome`].
pub fn control_movement(
    event: MovementAction,
    delta: u64,
    movement_acceleration: MovementAcceleration,
    jump_impulse: JumpImpulse,
    linear_velocity: &mut LinearVelocity,
    max_velocity: MaxPlayerVelocity,
    is_grounded: bool,
    is_on_chain: bool,
) -> (outcome: MovementOutcome)
    ensures
        *final(linear_velocity) == spec_control_velocity(
            event,
            delta,
            movement_acceleration,
            jump_impulse,
            *old(linear_velocity),
            max_velocity,
            is_grounded,
            is_on_chain,
        ),
        outcome == spec_control_outcome(event, is_grounded),
{
    let damper = damper(is_grounded, is_on_chain);
    match event {
        MovementAction::Move(direction) => {
            if direction > 0 && linear_velocity.x < max_velocity.0 as i64 || direction < 0
                && linear_velocity.x > -(max_velocity.0 as i64) {
                let gain = speed_gain(damper, direction, movement_acceleration.0, delta);
                let speed = linear_velocity.x as i128 + gain;
                linear_velocity.x = if speed < i64::MIN as i128 {
                    i64::MIN
                } else if speed > i64::MAX as i128 {
                    i64::MAX
                } else {
                    speed as i64
                };
            }
            let new_direction = if direction < 0 {
                ChangePlayerDirection::TurnLeft
            } else {
                ChangePlayerDirection::TurnRight
            };
            MovementOutcome {
                state: Some(ChangePlayerState::Running),
                direction: Some(new_direction),
            }
        },
        MovementAction::Jump => {
            if is_grounded {
                assert(jump_impulse.0 * damper <= 0xffff_ffff * 1000) by (nonlinear_arith)
                    requires
                        jump_impulse.0 <= 0xffff_ffffu32,
                        damper <= 1000,
                ;
                linear_velocity.y = (jump_impulse.0 as u64 * damper / WHOLE) as i64;
                MovementOutcome { state: Some(ChangePlayerState::Jumping), direction: None }
            } else {
                MovementOutcome { state: None, direction: None }
            }
        },
    }
}

/// Computes the speed that a push adds, see [`spec_speed_gain`].
fn speed_gain(damper: u64, direction: i32, acceleration: u32, delta: u64) -> (gain: i128)
    requires
        damper <= WHOLE,
    ensures
        gain == spec_speed_gain(damper, direction, acceleration, delta),
        -0x1_0000_0000_0000_0000_0000_0000_0000 <= gain <= 0x1_0000_0000_0000_0000_0000_0000_0000,
{
    let magnitude: u128 = if direction < 0 {
        (-(direction as i64)) as u128
    } else {
        direction as u128
    };
    assert(damper * magnitude <= 1000 * 0x8000_0000) by (nonlinear_arith)
        requires
            damper <= 1000,
            magnitude <= 0x8000_0000u128,
    ;
    let pushed: u128 = damper as u128 * magnitude;
    assert(pushed * acceleration <= 1000 * 0x8000_0000 * 0x1_0000_0000) by (nonlinear_arith)
        requires
            pushed <= 1000 * 0x8000_0000,
            acceleration <= 0xffff_ffffu32,
    ;
    let effective: u128 = (pushed * acceleration as u128) / 1_000_000;
    assert(effective * delta <= 0x40_0000_0000_0000 * 0x1_0000_0000_0000_0000) by (nonlinear_arith)
        requires
            effective <= 0x40_0000_0000_0000u128,
            delta <= u64::MAX,
    ;
    let gain: u128 = (effective * delta as u128) / 1_000_000_000;
    if direction < 0 {
        -(gain as i128)
    } else {
        gain as i128
    }
}

/// Tells whether a character stands on the ground: it does when something
/// below it slopes by no more than `max_slope_angle`, or is there at all
/// where no slope is too steep. `slopes` holds the slope of each thing below
/// the character, in thousandths of a radian.
pub open spec fn spec_is_grounded(slopes: Seq<u32>, max_slope_angle: Option<MaxSlopeAngle>) -> bool {
    match max_slope_angle {
        Some(angle) => exists|i: int| 0 <= i < slopes.len() && #[trigger] slopes[i] <= angle.0,
        None => slopes.len() > 0,
    }
}

/// Finds out whether a character stands on the ground, see
/// [`spec_is_grounded`], and asks a player that was jumping and has landed
/// to stand.
pub fn update_grounded(
    slopes: &Vec<u32>,
    player_state: PlayerState,
    max_slope_angle: Option<MaxSlopeAngle>,
) -> (result: (bool, Option<ChangePlayerState>))
    ensures
        result.0 == spec_is_grounded(slopes@, max_slope_angle),
        result.1 == if result.0 && player_state == PlayerState::Jumping {
            Some(ChangePlayerState::Idle)
        } else {
            None
        },
{
    let mut is_grounded = false;
    let mut i: usize = 0;
    while i < slopes.len()
        invariant
            i <= slopes.len(),
            is_grounded ==> spec_is_grounded(slopes@, max_slope_angle),
            !is_grounded ==> match max_slope_angle {
                Some(angle) => forall|k: int| 0 <= k < i ==> !(#[trigger] slopes[k] <= angle.0),
                None => i == 0,
            },
        decreases slopes.len() - i,
    {
        let flat = match max_slope_angle {
            Some(angle) => slopes[i] <= angle.0,
            None => true,
        };
        if flat {
            is_grounded = true;
        }
        i += 1;
    }
    let event = if is_grounded && player_state == PlayerState::Jumping {
        Some(ChangePlayerState::Idle)
    } else {
        None
    };
    (is_grounded, event)
}

/// Asks a running player that hardly moves any more to stand.
pub fn update_idle(velocity: LinearVelocity, player_state: PlayerState) -> (event: Option<
    ChangePlayerState,
>)
    ensures
        event == if player_state == PlayerState::Running && -IDLE_SPEED < velocity.x
            < IDLE_SPEED {
            Some(ChangePlayerState::Idle)
        } else {
            None
        },
{
    if player_state == PlayerState::Running && -IDLE_SPEED < velocity.x && velocity.x
        < IDLE_SPEED {
        Some(ChangePlayerState::Idle)
    } else {
        None
    }
}

/// The sideways speed of a character after one frame of slowing down,
/// rounded toward zero and limited to what a velocity holds. A character on
/// a chain is not slowed down: it hangs, it does not stand.
pub open spec fn spec_damped_speed(
    damping_factor: MovementDampingFactor,
    speed: i64,
    connected_chain: bool,
) -> i64 {
    if connected_chain {
        speed
    } else if speed < 0 {
        clamp_speed(-(((-speed) * damping_factor.0) / WHOLE as int)) as i64
    } else {
        clamp_speed((speed * damping_factor.0) / WHOLE as int) as i64
    }
}

/// Slows a character down sideways, see [`spec_damped_speed`].
pub fn apply_movement_damping(
    damping_factor: MovementDampingFactor,
    linear_velocity: &mut LinearVelocity,
    connected_chain: bool,
)
    ensures
        *final(linear_velocity) == (LinearVelocity {
            x: spec_damped_speed(damping_factor, old(linear_velocity).x, connected_chain),
            ..*old(linear_velocity)
        }),
{
    if connected_chain {
        return ;
    }
    let speed = linear_velocity.x;
    let magnitude: u128 = if speed < 0 {
        (-(speed as i128)) as u128
    } else {
        speed as u128
    };
    assert(magnitude * damping_factor.0 <= 0x8000_0000_0000_0000 * 0x1_0000_0000)
        by (nonlinear_arith)
        requires
            magnitude <= 0x8000_0000_0000_0000u128,
            damping_factor.0 <= 0xffff_ffffu32,
    ;
    let damped: u128 = magnitude * damping_factor.0 as u128 / 1000;
    let signed: i128 = if speed < 0 {
        -(damped as i128)
    } else {
        damped as i128
    };
    linear_velocity.x = if signed < i64::MIN as i128 {
        i64::MIN
    } else if signed > i64::MAX as i128 {
        i64::MAX
    } else {
        signed as i64
    };
}

} // verus!
