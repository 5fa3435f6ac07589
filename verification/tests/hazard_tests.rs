use chain_game::boxes::on_box_collect;
use chain_game::boxes::process_boxes;
use chain_game::boxes::BoxCollected;
use chain_game::boxes::BoxInfo;
use chain_game::death_anim::generate_cross_mesh;
use chain_game::death_anim::handle_player_death;
use chain_game::death_anim::handle_player_death_timer;
use chain_game::death_anim::reset_death;
use chain_game::death_anim::DyingTimer;
use chain_game::death_anim::PlayerDeath;
use chain_game::death_anim::PlayerDying;
use chain_game::end_sequence::StartEndSequenceEvent;
use chain_game::goal::goal_observer;
use chain_game::goal::GoalReached;
use chain_game::math::Vec2;
use chain_game::physics::Collider;
use chain_game::physics::CollisionLayers;
use chain_game::physics::LayerMask;
use chain_game::physics::LinearVelocity;
use chain_game::timer::Timer;
use chain_game::timer::TimerMode;
use chain_game::tree::apple_spawn;
use chain_game::tree::on_apple_collision;
use chain_game::tree::process_apple_timer;
use chain_game::tree::process_tree;
use chain_game::tree::AppleHit;
use chain_game::tree::AppleTimer;
use chain_game::vines::on_collision_kills_player;
use chain_game::vines::on_vine_collide;

const SECOND: u64 = 1_000_000_000;

#[test]
fn death_starts_the_dying_once() {
    assert_eq!(
        handle_player_death(Some(PlayerDeath), None),
        Some((PlayerDying, DyingTimer(Timer::new(3 * SECOND, TimerMode::Once))))
    );
    assert_eq!(handle_player_death(Some(PlayerDeath), Some(PlayerDying)), None);
    assert_eq!(handle_player_death(None, None), None);
    assert_eq!(handle_player_death(None, Some(PlayerDying)), None);
}

#[test]
fn death_menu_comes_up_after_three_seconds() {
    let mut timer = DyingTimer(Timer::new(3 * SECOND, TimerMode::Once));
    assert!(!handle_player_death_timer(&mut timer, SECOND));
    assert!(!handle_player_death_timer(&mut timer, SECOND));
    assert!(handle_player_death_timer(&mut timer, SECOND));
    assert!(!handle_player_death_timer(&mut timer, SECOND));
}

#[test]
fn reset_ends_the_dying() {
    let mut dying = Some(PlayerDying);
    let mut menu = true;
    reset_death(&mut dying, &mut menu);
    assert_eq!(dying, None);
    assert!(!menu);
}

#[test]
fn cross_has_eight_corners_and_four_triangles() {
    let cross = generate_cross_mesh();
    assert_eq!(
        cross.positions,
        vec![
            [-10, 6, 0],
            [-6, 10, 0],
            [10, -6, 0],
            [6, -10, 0],
            [6, 10, 0],
            [10, 6, 0],
            [-6, -10, 0],
            [-10, -6, 0],
        ]
    );
    assert_eq!(cross.indices, vec![0, 1, 2, 2, 3, 0, 4, 5, 6, 6, 7, 4]);
}

#[test]
fn boxes_are_counted_and_collected() {
    let mut info = BoxInfo { collected: 0, total: 0 };
    process_boxes(&mut info);
    process_boxes(&mut info);
    assert_eq!(info, BoxInfo { collected: 0, total: 2 });

    assert_eq!(
        on_box_collect(false, Some(9), &mut info),
        BoxCollected { despawn: None, enable_goal: false }
    );
    assert_eq!(on_box_collect(true, None, &mut info), BoxCollected { despawn: None, enable_goal: false });
    assert_eq!(info, BoxInfo { collected: 0, total: 2 });

    assert_eq!(
        on_box_collect(true, Some(9), &mut info),
        BoxCollected { despawn: Some(9), enable_goal: false }
    );
    assert_eq!(
        on_box_collect(true, Some(10), &mut info),
        BoxCollected { despawn: Some(10), enable_goal: true }
    );
    assert_eq!(info, BoxInfo { collected: 2, total: 2 });
}

#[test]
fn box_counts_stop_where_their_numbers_end() {
    let mut info = BoxInfo { collected: u32::MAX, total: u32::MAX };
    process_boxes(&mut info);
    assert_eq!(info.total, u32::MAX);
    let outcome = on_box_collect(true, Some(1), &mut info);
    assert_eq!(info.collected, u32::MAX);
    assert!(outcome.enable_goal);
}

#[test]
fn goal_leads_to_the_next_level_or_the_end() {
    assert_eq!(goal_observer(true, 0), GoalReached::Level(1));
    assert_eq!(goal_observer(true, 1), GoalReached::Level(2));
    assert_eq!(goal_observer(true, 2), GoalReached::End(StartEndSequenceEvent));
    assert_eq!(goal_observer(true, 7), GoalReached::End(StartEndSequenceEvent));
    assert_eq!(goal_observer(false, 0), GoalReached::Nothing);
    assert_eq!(goal_observer(false, 2), GoalReached::Nothing);
}

#[test]
fn vines_kill_the_player_only() {
    assert_eq!(on_vine_collide(true), Some(PlayerDeath));
    assert_eq!(on_vine_collide(false), None);
    assert_eq!(on_collision_kills_player(true), Some(PlayerDeath));
    assert_eq!(on_collision_kills_player(false), None);
}

#[test]
fn tree_parts() {
    let parts = process_tree();
    assert_eq!(parts.collider, Collider { width: 80_000, height: 80_000 });
    assert_eq!(parts.apple_timer, AppleTimer(Timer::new(5 * SECOND, TimerMode::Repeating)));
    assert_eq!(parts.layers, CollisionLayers { memberships: LayerMask(4), filters: LayerMask(1) });
}

#[test]
fn apple_appears_above_the_tree_and_flies_toward_the_player() {
    let tree = Vec2::new(100_000, 50_000);
    let player = Vec2::new(40_000, 0);
    let apple = apple_spawn(tree, player, 0, 0);
    assert_eq!(apple.position, Vec2::new(97_000, 52_000));
    assert_eq!(apple.linear_velocity, LinearVelocity { x: -57_000, y: 140_000 });
    assert_eq!(apple.layers, CollisionLayers { memberships: LayerMask(1), filters: LayerMask(1) });

    let apple = apple_spawn(tree, player, 5_999, 3_000);
    assert_eq!(apple.position, Vec2::new(102_999, 55_000));
    assert_eq!(apple.linear_velocity.x, -62_999);
}

#[test]
fn apple_is_no_faster_than_its_greatest_speed_to_the_right() {
    let apple = apple_spawn(Vec2::new(-2_000_000_000, 0), Vec2::new(2_000_000_000, 0), 3_000, 3_000);
    assert_eq!(apple.position, Vec2::new(-2_000_000_000, 5_000));
    assert_eq!(apple.linear_velocity, LinearVelocity { x: 3_000_000, y: 140_000 });
    let apple = apple_spawn(Vec2::new(2_000_000_000, 0), Vec2::new(-2_000_000_000, 0), 3_000, 3_000);
    assert_eq!(apple.linear_velocity.x, -4_000_000_000);
}

#[test]
fn tree_drops_an_apple_every_five_seconds() {
    let mut timer = AppleTimer(Timer::new(5 * SECOND, TimerMode::Repeating));
    let tree = Vec2::new(0, 0);
    let player = Vec2::new(-10_000, 0);
    assert_eq!(process_apple_timer(&mut timer, 4 * SECOND, tree, player), None);
    for _ in 0..200 {
        let apple = process_apple_timer(&mut timer, 5 * SECOND, tree, player).unwrap();
        assert!(-3_000 <= apple.position.x && apple.position.x < 3_000);
        assert!(2_000 <= apple.position.y && apple.position.y < 8_000);
        assert_eq!(apple.linear_velocity.x, -10_000 - apple.position.x as i64);
        assert_eq!(apple.linear_velocity.y, 140_000);
    }
    // four seconds have been counted since the last apple
    assert_eq!(process_apple_timer(&mut timer, SECOND / 2, tree, player), None);
    assert!(process_apple_timer(&mut timer, SECOND / 2, tree, player).is_some());
}

#[test]
fn apple_kills_the_player_and_breaks_on_the_rest() {
    assert_eq!(on_apple_collision(true, false), AppleHit::Kill(PlayerDeath));
    assert_eq!(on_apple_collision(true, true), AppleHit::Kill(PlayerDeath));
    assert_eq!(on_apple_collision(false, true), AppleHit::Nothing);
    assert_eq!(on_apple_collision(false, false), AppleHit::Despawn);
}
