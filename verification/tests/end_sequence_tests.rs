use chain_game::animated_sprite::AnimationIndices;
use chain_game::animated_sprite::AnimationTimer;
use chain_game::end_sequence::checked_add_one;
use chain_game::end_sequence::create_fire;
use chain_game::end_sequence::handle_end_timer;
use chain_game::end_sequence::process_fire_spread;
use chain_game::end_sequence::start_end_sequence;
use chain_game::end_sequence::EndTimer;
use chain_game::end_sequence::FireGrid;
use chain_game::end_sequence::FireSpread;
use chain_game::end_sequence::SpreadDirection;
use chain_game::end_sequence::StartEndSequenceEvent;
use chain_game::end_sequence::FIRE_INDICES;
use chain_game::end_sequence::MAX_FIRE_INDEX;
use chain_game::math::Vec2;
use chain_game::timer::Timer;
use chain_game::timer::TimerMode;

const SECOND: u64 = 1_000_000_000;

fn burning(grid: &FireGrid) -> usize {
    let mut count = 0;
    for y in 0..MAX_FIRE_INDEX {
        for x in 0..MAX_FIRE_INDEX {
            if grid.get_value(x, y) {
                count += 1;
            }
        }
    }
    count
}

#[test]
fn cell_after_the_last_one_does_not_exist() {
    assert_eq!(checked_add_one(0), Some(1));
    assert_eq!(checked_add_one(97), Some(98));
    assert_eq!(checked_add_one(98), Some(99));
    assert_eq!(checked_add_one(99), None);
    assert_eq!(checked_add_one(100), None);
    assert_eq!(checked_add_one(usize::MAX), None);
}

#[test]
fn all_directions_in_order() {
    assert_eq!(
        SpreadDirection::all(),
        vec![SpreadDirection::Left, SpreadDirection::Right, SpreadDirection::Up, SpreadDirection::Down]
    );
}

#[test]
fn directions_as_steps() {
    assert_eq!(SpreadDirection::Left.to_vec2(), Vec2::new(-1000, 0));
    assert_eq!(SpreadDirection::Right.to_vec2(), Vec2::new(1000, 0));
    assert_eq!(SpreadDirection::Up.to_vec2(), Vec2::new(0, 1000));
    assert_eq!(SpreadDirection::Down.to_vec2(), Vec2::new(0, -1000));
}

#[test]
fn directions_as_neighbouring_cells() {
    assert_eq!(SpreadDirection::Left.to_indices(50, 50), Some((49, 50)));
    assert_eq!(SpreadDirection::Right.to_indices(50, 50), Some((51, 50)));
    assert_eq!(SpreadDirection::Up.to_indices(50, 50), Some((50, 49)));
    assert_eq!(SpreadDirection::Down.to_indices(50, 50), Some((50, 51)));
}

#[test]
fn grid_ends_at_its_border() {
    assert_eq!(SpreadDirection::Left.to_indices(0, 7), None);
    assert_eq!(SpreadDirection::Up.to_indices(7, 0), None);
    assert_eq!(SpreadDirection::Right.to_indices(99, 7), None);
    assert_eq!(SpreadDirection::Down.to_indices(7, 99), None);
    assert_eq!(SpreadDirection::Right.to_indices(98, 7), Some((99, 7)));
    assert_eq!(SpreadDirection::Left.to_indices(1, 7), Some((0, 7)));
}

#[test]
fn fire_grid_remembers_what_burns() {
    let mut grid = FireGrid::new();
    assert_eq!(burning(&grid), 0);
    grid.set_value(3, 9);
    assert!(grid.get_value(3, 9));
    assert!(!grid.get_value(9, 3));
    grid.set_value(99, 0);
    grid.set_value(3, 9);
    assert!(grid.get_value(99, 0));
    assert_eq!(burning(&grid), 2);
}

#[test]
fn new_fire() {
    let fire = create_fire(Vec2::new(1, 2), 50, 51);
    assert_eq!(fire.fire_spread.directions_left, SpreadDirection::all());
    assert_eq!(fire.fire_spread.timer, Timer::new(SECOND, TimerMode::Repeating));
    assert_eq!(fire.fire_spread.x_index, 50);
    assert_eq!(fire.fire_spread.y_index, 51);
    assert_eq!(fire.animation_timer, AnimationTimer(Timer::new(SECOND / 5, TimerMode::Repeating)));
    assert_eq!(fire.animation_indices, AnimationIndices::new(0, FIRE_INDICES - 1));
    assert_eq!(fire.translation, Vec2::new(1, 2));
}

#[test]
fn fire_spreads_to_a_free_neighbour() {
    let mut grid = FireGrid::new();
    grid.set_value(50, 50);
    let mut fire = create_fire(Vec2::new(0, 0), 50, 50).fire_spread;
    // the side at index 1 is the right one
    let created = fire.spread(1, Vec2::new(7_000, 8_000), &mut grid).unwrap();
    assert_eq!(
        fire.directions_left,
        vec![SpreadDirection::Left, SpreadDirection::Up, SpreadDirection::Down]
    );
    assert!(grid.get_value(51, 50));
    assert_eq!(burning(&grid), 2);
    assert_eq!(created.translation, Vec2::new(47_000, 8_000));
    assert_eq!(created.fire_spread.x_index, 51);
    assert_eq!(created.fire_spread.y_index, 50);
    assert_eq!(created.fire_spread.directions_left, SpreadDirection::all());

    // the side at index 2 is now the lower one
    let below = fire.spread(2, Vec2::new(7_000, 8_000), &mut grid).unwrap();
    assert_eq!(below.translation, Vec2::new(7_000, -32_000));
    assert_eq!((below.fire_spread.x_index, below.fire_spread.y_index), (50, 51));
    assert_eq!(fire.directions_left, vec![SpreadDirection::Left, SpreadDirection::Up]);
}

#[test]
fn fire_does_not_spread_to_what_burns_or_off_the_grid() {
    let mut grid = FireGrid::new();
    grid.set_value(0, 0);
    grid.set_value(1, 0);
    let mut fire = FireSpread {
        directions_left: SpreadDirection::all(),
        timer: Timer::new(SECOND, TimerMode::Repeating),
        x_index: 0,
        y_index: 0,
    };
    // to the left there is no cell
    assert_eq!(fire.spread(0, Vec2::new(0, 0), &mut grid), None);
    // to the right it burns already
    assert_eq!(fire.spread(0, Vec2::new(0, 0), &mut grid), None);
    // above there is no cell
    assert_eq!(fire.spread(0, Vec2::new(0, 0), &mut grid), None);
    assert_eq!(burning(&grid), 2);
    assert_eq!(fire.directions_left, vec![SpreadDirection::Down]);
    let created = fire.spread(0, Vec2::new(0, 0), &mut grid).unwrap();
    assert_eq!((created.fire_spread.x_index, created.fire_spread.y_index), (0, 1));
    assert!(fire.directions_left.is_empty());
    assert_eq!(burning(&grid), 3);
}

#[test]
fn fire_spreads_once_a_second_to_every_side() {
    let mut grid = FireGrid::new();
    grid.set_value(50, 50);
    let mut fire = create_fire(Vec2::new(0, 0), 50, 50).fire_spread;
    assert_eq!(process_fire_spread(&mut fire, Vec2::new(0, 0), &mut grid, SECOND / 2), None);
    assert_eq!(fire.directions_left.len(), 4);
    assert_eq!(burning(&grid), 1);

    let mut cells = Vec::new();
    for left in (0..4).rev() {
        let created = process_fire_spread(&mut fire, Vec2::new(0, 0), &mut grid, SECOND).unwrap();
        assert_eq!(fire.directions_left.len(), left);
        let cell = (created.fire_spread.x_index, created.fire_spread.y_index);
        assert!(grid.get_value(cell.0, cell.1));
        let expected = Vec2::new((cell.0 as i32 - 50) * 40_000, (50 - cell.1 as i32) * 40_000);
        assert_eq!(created.translation, expected);
        cells.push(cell);
    }
    cells.sort();
    assert_eq!(cells, vec![(49, 50), (50, 49), (50, 51), (51, 50)]);
    assert_eq!(burning(&grid), 5);

    // nothing is left to spread to
    assert_eq!(process_fire_spread(&mut fire, Vec2::new(0, 0), &mut grid, SECOND), None);
    assert!(fire.timer.just_finished());
    assert_eq!(burning(&grid), 5);
}

#[test]
fn fire_draws_its_sides_by_chance() {
    let mut first_sides = Vec::new();
    for _ in 0..200 {
        let mut grid = FireGrid::new();
        let mut fire = create_fire(Vec2::new(0, 0), 50, 50).fire_spread;
        let created = process_fire_spread(&mut fire, Vec2::new(0, 0), &mut grid, SECOND).unwrap();
        let cell = (created.fire_spread.x_index, created.fire_spread.y_index);
        if !first_sides.contains(&cell) {
            first_sides.push(cell);
        }
    }
    for cell in first_sides.iter() {
        assert!([(49, 50), (50, 49), (50, 51), (51, 50)].contains(cell));
    }
    assert!(first_sides.len() > 1);
}

#[test]
fn end_of_the_game_begins_with_a_fire_at_the_goal() {
    assert_eq!(start_end_sequence(None, Vec2::new(0, 0)), None);
    let begun = start_end_sequence(Some(StartEndSequenceEvent), Vec2::new(120_000, -30_000)).unwrap();
    assert_eq!(burning(&begun.fire_grid), 1);
    assert!(begun.fire_grid.get_value(50, 50));
    assert_eq!(begun.fire.translation, Vec2::new(120_000, -30_000));
    assert_eq!((begun.fire.fire_spread.x_index, begun.fire.fire_spread.y_index), (50, 50));
    assert_eq!(begun.end_timer, EndTimer(Timer::new(10 * SECOND, TimerMode::Once)));
}

#[test]
fn game_is_over_when_the_end_timer_finishes() {
    let mut timer = EndTimer(Timer::new(10 * SECOND, TimerMode::Once));
    assert!(!handle_end_timer(&mut timer, 9 * SECOND));
    assert!(handle_end_timer(&mut timer, SECOND));
    assert!(!handle_end_timer(&mut timer, SECOND));
    assert!(timer.0.finished());
}
