use chain_game::movement::apply_movement_damping;
use chain_game::movement::control_movement;
use chain_game::movement::damper;
use chain_game::movement::handle_keyboard_input;
use chain_game::movement::update_grounded;
use chain_game::movement::update_idle;
use chain_game::movement::JumpImpulse;
use chain_game::movement::MaxPlayerVelocity;
use chain_game::movement::MaxSlopeAngle;
use chain_game::movement::MovementAcceleration;
use chain_game::movement::MovementAction;
use chain_game::movement::MovementBundle;
use chain_game::movement::MovementDampingFactor;
use chain_game::movement::MovementOutcome;
use chain_game::physics::LinearVelocity;
use chain_game::player::ChangePlayerDirection;
use chain_game::player::ChangePlayerState;
use chain_game::player::PlayerState;

const SECOND: u64 = 1_000_000_000;
const ACCELERATION: MovementAcceleration = MovementAcceleration(2_000_000);
const JUMP: JumpImpulse = JumpImpulse(300_000);
const MAX: MaxPlayerVelocity = MaxPlayerVelocity(300_000);

#[test]
fn damper_on_the_ground_in_the_air_and_on_a_chain() {
    assert_eq!(damper(true, false), 1000);
    assert_eq!(damper(false, false), 600);
    assert_eq!(damper(true, true), 600);
    assert_eq!(damper(false, true), 360);
}

#[test]
fn default_movement_of_the_player() {
    let bundle = MovementBundle::default();
    assert_eq!(bundle, MovementBundle::new(2_000_000, 950, 300_000, 1_414, 300_000));
    assert_eq!(bundle.acceleration, MovementAcceleration(2_000_000));
    assert_eq!(bundle.damping, MovementDampingFactor(950));
    assert_eq!(bundle.jump_impulse, JumpImpulse(300_000));
    assert_eq!(bundle.max_slope_angle, MaxSlopeAngle(1_414));
    assert_eq!(bundle.max_player_velocity, MaxPlayerVelocity(300_000));
}

#[test]
fn keys_turn_into_actions() {
    assert_eq!(handle_keyboard_input(false, true, false), vec![MovementAction::Move(1000)]);
    assert_eq!(handle_keyboard_input(true, false, false), vec![MovementAction::Move(-1000)]);
    assert_eq!(handle_keyboard_input(true, true, false), vec![]);
    assert_eq!(handle_keyboard_input(false, false, false), vec![]);
    assert_eq!(handle_keyboard_input(false, false, true), vec![MovementAction::Jump]);
    assert_eq!(
        handle_keyboard_input(true, false, true),
        vec![MovementAction::Move(-1000), MovementAction::Jump]
    );
}

#[test]
fn moving_on_the_ground_gains_the_full_push() {
    let mut velocity = LinearVelocity { x: 0, y: -5 };
    let outcome = control_movement(
        MovementAction::Move(1000),
        SECOND / 100,
        ACCELERATION,
        JUMP,
        &mut velocity,
        MAX,
        true,
        false,
    );
    // 2000 units a second squared for a hundredth of a second
    assert_eq!(velocity, LinearVelocity { x: 20_000, y: -5 });
    assert_eq!(
        outcome,
        MovementOutcome {
            state: Some(ChangePlayerState::Running),
            direction: Some(ChangePlayerDirection::TurnRight),
        }
    );
}

#[test]
fn moving_on_a_chain_gains_less() {
    let mut on_chain = LinearVelocity { x: 0, y: 0 };
    control_movement(MovementAction::Move(-1000), SECOND / 100, ACCELERATION, JUMP, &mut on_chain, MAX, true, true);
    assert_eq!(on_chain, LinearVelocity { x: -12_000, y: 0 });

    let mut in_the_air = LinearVelocity { x: 0, y: 0 };
    control_movement(MovementAction::Move(-1000), SECOND / 100, ACCELERATION, JUMP, &mut in_the_air, MAX, false, false);
    assert_eq!(in_the_air, LinearVelocity { x: -12_000, y: 0 });

    let mut hanging = LinearVelocity { x: 0, y: 0 };
    let outcome =
        control_movement(MovementAction::Move(-1000), SECOND / 100, ACCELERATION, JUMP, &mut hanging, MAX, false, true);
    assert_eq!(hanging, LinearVelocity { x: -7_200, y: 0 });
    assert_eq!(outcome.direction, Some(ChangePlayerDirection::TurnLeft));
    assert_eq!(outcome.state, Some(ChangePlayerState::Running));
}

#[test]
fn moving_is_capped_by_the_greatest_speed() {
    let mut fast = LinearVelocity { x: 300_000, y: 0 };
    let outcome = control_movement(MovementAction::Move(1000), SECOND, ACCELERATION, JUMP, &mut fast, MAX, true, false);
    assert_eq!(fast.x, 300_000);
    assert_eq!(outcome.state, Some(ChangePlayerState::Running));

    // just below the cap the whole push is still added
    let mut almost = LinearVelocity { x: 299_999, y: 0 };
    control_movement(MovementAction::Move(1000), SECOND / 100, ACCELERATION, JUMP, &mut almost, MAX, true, false);
    assert_eq!(almost.x, 319_999);

    // the cap holds for each side on its own
    let mut back = LinearVelocity { x: 300_000, y: 0 };
    control_movement(MovementAction::Move(-1000), SECOND / 100, ACCELERATION, JUMP, &mut back, MAX, true, false);
    assert_eq!(back.x, 280_000);
    let mut fast_left = LinearVelocity { x: -300_000, y: 0 };
    control_movement(MovementAction::Move(-1000), SECOND, ACCELERATION, JUMP, &mut fast_left, MAX, true, false);
    assert_eq!(fast_left.x, -300_000);
}

#[test]
fn moving_with_no_strength_changes_no_speed() {
    let mut velocity = LinearVelocity { x: 7, y: 8 };
    let outcome = control_movement(MovementAction::Move(0), SECOND, ACCELERATION, JUMP, &mut velocity, MAX, true, false);
    assert_eq!(velocity, LinearVelocity { x: 7, y: 8 });
    assert_eq!(outcome.direction, Some(ChangePlayerDirection::TurnRight));
}

#[test]
fn speed_stops_at_what_a_velocity_holds() {
    let mut velocity = LinearVelocity { x: i64::MIN + 5, y: 0 };
    control_movement(
        MovementAction::Move(i32::MIN),
        u64::MAX,
        MovementAcceleration(u32::MAX),
        JUMP,
        &mut velocity,
        MaxPlayerVelocity(u32::MAX),
        true,
        false,
    );
    assert_eq!(velocity.x, i64::MIN + 5);
    let mut slow = LinearVelocity { x: 0, y: 0 };
    control_movement(
        MovementAction::Move(i32::MAX),
        u64::MAX,
        MovementAcceleration(u32::MAX),
        JUMP,
        &mut slow,
        MaxPlayerVelocity(u32::MAX),
        true,
        false,
    );
    assert_eq!(slow.x, i64::MAX);
}

#[test]
fn jumping_needs_ground() {
    let mut velocity = LinearVelocity { x: 3, y: -40 };
    let outcome = control_movement(MovementAction::Jump, SECOND / 60, ACCELERATION, JUMP, &mut velocity, MAX, true, false);
    assert_eq!(velocity, LinearVelocity { x: 3, y: 300_000 });
    assert_eq!(outcome, MovementOutcome { state: Some(ChangePlayerState::Jumping), direction: None });

    let mut on_chain = LinearVelocity { x: 3, y: -40 };
    control_movement(MovementAction::Jump, SECOND / 60, ACCELERATION, JUMP, &mut on_chain, MAX, true, true);
    assert_eq!(on_chain, LinearVelocity { x: 3, y: 180_000 });

    let mut in_the_air = LinearVelocity { x: 3, y: -40 };
    let outcome =
        control_movement(MovementAction::Jump, SECOND / 60, ACCELERATION, JUMP, &mut in_the_air, MAX, false, true);
    assert_eq!(in_the_air, LinearVelocity { x: 3, y: -40 });
    assert_eq!(outcome, MovementOutcome { state: None, direction: None });
}

#[test]
fn damping_slows_down_off_the_chain_only() {
    let factor = MovementDampingFactor(950);
    let mut velocity = LinearVelocity { x: 1000, y: 77 };
    apply_movement_damping(factor, &mut velocity, false);
    assert_eq!(velocity, LinearVelocity { x: 950, y: 77 });
    let mut left = LinearVelocity { x: -1001, y: 77 };
    apply_movement_damping(factor, &mut left, false);
    // 950.95 rounds toward zero
    assert_eq!(left, LinearVelocity { x: -950, y: 77 });
    let mut on_chain = LinearVelocity { x: 1000, y: 77 };
    apply_movement_damping(factor, &mut on_chain, true);
    assert_eq!(on_chain, LinearVelocity { x: 1000, y: 77 });
    let mut huge = LinearVelocity { x: i64::MIN, y: 0 };
    apply_movement_damping(MovementDampingFactor(u32::MAX), &mut huge, false);
    assert_eq!(huge.x, i64::MIN);
    let mut edge = LinearVelocity { x: i64::MIN, y: 0 };
    apply_movement_damping(MovementDampingFactor(1000), &mut edge, false);
    assert_eq!(edge.x, i64::MIN);
}

#[test]
fn slow_runner_stands() {
    assert_eq!(
        update_idle(LinearVelocity { x: 299, y: 0 }, PlayerState::Running),
        Some(ChangePlayerState::Idle)
    );
    assert_eq!(
        update_idle(LinearVelocity { x: -299, y: 9_000 }, PlayerState::Running),
        Some(ChangePlayerState::Idle)
    );
    assert_eq!(update_idle(LinearVelocity { x: 300, y: 0 }, PlayerState::Running), None);
    assert_eq!(update_idle(LinearVelocity { x: -300, y: 0 }, PlayerState::Running), None);
    assert_eq!(update_idle(LinearVelocity { x: 0, y: 0 }, PlayerState::Jumping), None);
    assert_eq!(update_idle(LinearVelocity { x: 0, y: 0 }, PlayerState::Idle), None);
}

#[test]
fn ground_is_what_is_flat_enough() {
    let limit = Some(MaxSlopeAngle(1_414));
    assert_eq!(update_grounded(&vec![], PlayerState::Jumping, limit), (false, None));
    assert_eq!(update_grounded(&vec![1_500, 1_415], PlayerState::Jumping, limit), (false, None));
    assert_eq!(
        update_grounded(&vec![1_500, 1_414], PlayerState::Jumping, limit),
        (true, Some(ChangePlayerState::Idle))
    );
    assert_eq!(update_grounded(&vec![0], PlayerState::Running, limit), (true, None));
    assert_eq!(update_grounded(&vec![3_000], PlayerState::Idle, None), (true, None));
    assert_eq!(update_grounded(&vec![], PlayerState::Idle, None), (false, None));
}
