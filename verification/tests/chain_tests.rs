use chain_game::chain::segment_count;
use chain_game::chain::ChainBundle;
use chain_game::chain::ChainImage;
use chain_game::chain::ChainImmunity;
use chain_game::chain::ChainPart;
use chain_game::chain::Sprite;
use chain_game::chain::CHAIN_IMAGE_SIZE;
use chain_game::chain::CHAIN_SIZE;
use chain_game::chain::CHAIN_STEP;
use chain_game::chain::INTENDED_CHAIN_SIZE;
use chain_game::math::Dir2;
use chain_game::math::Vec2;
use chain_game::physics::AngleLimit;
use chain_game::physics::Collider;
use chain_game::physics::CollisionLayers;
use chain_game::physics::LayerMask;
use chain_game::physics::MassPropertiesBundle;
use chain_game::physics::RigidBody;
use chain_game::physics::Rotation;
use chain_game::physics::Transform;
use chain_game::timer::Timer;
use chain_game::timer::TimerMode;
use chain_game::world::World;

fn milli(units: f64) -> i32 {
    (units * 1000.0).round() as i32
}

fn tag(text: &str) -> ChainPart {
    ChainPart(text.to_string())
}

#[test]
fn chain_constants_agree() {
    assert_eq!(CHAIN_SIZE, 160);
    assert_eq!(CHAIN_STEP, (CHAIN_SIZE * CHAIN_IMAGE_SIZE) as u64);
    assert_eq!(INTENDED_CHAIN_SIZE, 100);
}

#[test]
fn segment_count_rounds_the_distance_up() {
    let start = Vec2::new(0, 0);
    // 1.0 / 0.16 = 6.25
    assert_eq!(segment_count(start, Vec2::new(0, milli(-1.0))), 7);
    // 1.5 / 0.16 = 9.375
    assert_eq!(segment_count(start, Vec2::new(0, milli(-1.5))), 10);
    // 1.6 / 0.16 = 10 exactly
    assert_eq!(segment_count(start, Vec2::new(milli(1.6), 0)), 10);
    assert_eq!(segment_count(start, Vec2::new(milli(1.601), 0)), 11);
    assert_eq!(segment_count(start, Vec2::new(1, 0)), 1);
    assert_eq!(segment_count(start, Vec2::new(160, 0)), 1);
    assert_eq!(segment_count(start, Vec2::new(161, 0)), 2);
    // a 3-4-5 triangle with a distance of 0.8: 0.8 / 0.16 = 5 exactly
    assert_eq!(segment_count(start, Vec2::new(480, 640)), 5);
    assert_eq!(segment_count(start, Vec2::new(481, 640)), 6);
}

#[test]
fn segment_count_of_no_distance_is_zero() {
    let point = Vec2::new(-7, 12);
    assert_eq!(segment_count(point, point), 0);
}

#[test]
fn segment_count_across_the_whole_plane() {
    let a = Vec2::new(i32::MIN, i32::MIN);
    let b = Vec2::new(i32::MAX, i32::MAX);
    // the diagonal is 4294967295 * sqrt(2) = 6074000998.3 long; over 160 that is 37962506.2
    assert_eq!(segment_count(a, b), 37_962_507);
}

#[test]
fn chain_of_one_unit_has_seven_links() {
    let mut world = World::new();
    let start = Vec2::new(milli(0.0), milli(0.0));
    let end = Vec2::new(milli(0.0), milli(-1.0));
    world.convert_chain_to_parts(start, end, &tag("test"), false);

    assert_eq!(world.segments.len(), 7);
    assert_eq!(world.joints.len(), 6);
    assert_eq!(world.next_entity, 7);

    let first = &world.segments[0];
    assert!(first.pivot);
    assert_eq!(first.bundle.rigid_body, RigidBody::Kinematic);
    assert_eq!(first.bundle.transform.translation, Vec2::new(0, 0));
    assert_eq!(first.bundle.sprite.image, ChainImage::Pivot);

    let last = &world.segments[6];
    assert!(!last.pivot);
    assert_eq!(last.bundle.rigid_body, RigidBody::Dynamic);
    // 6 * 0.16 * 100 = 96 units below the start
    assert_eq!(last.bundle.transform.translation, Vec2::new(0, milli(-0.96 * 100.0)));
    assert_eq!(last.bundle.transform.translation, Vec2::new(0, -96_000));
    assert_eq!(last.bundle.sprite.image, ChainImage::Final);

    for (index, segment) in world.segments.iter().enumerate() {
        assert_eq!(segment.entity, index as u64);
        assert_eq!(segment.pivot, index == 0);
        assert_eq!(segment.bundle.chain_part, tag("test"));
        assert!(!segment.generated);
        assert_eq!(segment.despawn_timer, None);
        assert_eq!(segment.bundle.transform.translation, Vec2::new(0, -16_000 * index as i32));
        assert_eq!(segment.bundle.transform.scale, 160);
        assert_eq!(
            segment.bundle.transform.rotation,
            Rotation { from: Dir2::neg_y(), to: Dir2 { x: 0, y: -1_000_000_000 } }
        );
    }
    for index in 1..6 {
        assert_eq!(world.segments[index].bundle.sprite.image, ChainImage::Chain);
    }
}

#[test]
fn chain_has_one_pivot_and_joints_between_neighbours() {
    let mut world = World::new();
    let start = Vec2::new(5_000, 7_000);
    let end = Vec2::new(5_000 + 1_200, 7_000 - 1_600);
    // the distance is 2.0, and 2.0 / 0.16 = 12.5
    world.convert_chain_to_parts(start, end, &tag("slanted"), false);

    assert_eq!(world.segments.len(), 13);
    assert_eq!(world.joints.len(), 12);
    let pivots = world.segments.iter().filter(|segment| segment.pivot).count();
    assert_eq!(pivots, 1);
    assert!(world.segments[0].pivot);
    let kinematic = world
        .segments
        .iter()
        .filter(|segment| segment.bundle.rigid_body == RigidBody::Kinematic)
        .count();
    assert_eq!(kinematic, 1);

    for (index, joint) in world.joints.iter().enumerate() {
        assert_eq!(joint.joint.entity1, world.segments[index].entity);
        assert_eq!(joint.joint.entity2, world.segments[index + 1].entity);
        assert_eq!(joint.joint.local_anchor2, Vec2::new(0, 16_000));
        assert_eq!(joint.joint.angle_limit, Some(AngleLimit { min: -10, max: 10 }));
        assert_eq!(joint.joint.compliance, 1_000);
        assert_eq!(joint.chain_part, tag("slanted"));
        assert!(!joint.generated);
    }

    // the direction is (0.6, -0.8): each link is 9.6 to the right and 12.8 below the one before
    for (index, segment) in world.segments.iter().enumerate() {
        let step = index as i32;
        assert_eq!(
            segment.bundle.transform.translation,
            Vec2::new(5_000 + 9_600 * step, 7_000 - 12_800 * step)
        );
        assert_eq!(
            segment.bundle.transform.rotation.to,
            Dir2 { x: 600_000_000, y: -800_000_000 }
        );
    }
}

#[test]
fn chain_between_equal_points_adds_nothing() {
    let mut world = World::new();
    let point = Vec2::new(40, 40);
    world.convert_chain_to_parts(point, point, &tag("none"), true);
    assert_eq!(world.segments.len(), 0);
    assert_eq!(world.joints.len(), 0);
    assert_eq!(world.next_entity, 0);
}

#[test]
fn chain_of_one_link_is_a_lone_pivot() {
    let mut world = World::new();
    world.convert_chain_to_parts(Vec2::new(0, 0), Vec2::new(100, 0), &tag("short"), true);
    assert_eq!(world.segments.len(), 1);
    assert_eq!(world.joints.len(), 0);
    assert!(world.segments[0].pivot);
    assert!(world.segments[0].generated);
    assert_eq!(world.segments[0].bundle.sprite.image, ChainImage::Pivot);
}

#[test]
fn chains_are_added_after_what_is_there() {
    let mut world = World::new();
    world.convert_chain_to_parts(Vec2::new(0, 0), Vec2::new(0, -320), &tag("a"), false);
    world.convert_chain_to_parts(Vec2::new(9, 9), Vec2::new(9, -471), &tag("b"), true);
    assert_eq!(world.segments.len(), 2 + 3);
    assert_eq!(world.joints.len(), 1 + 2);
    assert_eq!(world.next_entity, 5);
    assert_eq!(world.segments[1].bundle.chain_part, tag("a"));
    assert_eq!(world.segments[2].bundle.chain_part, tag("b"));
    assert!(world.segments[2].pivot);
    assert!(world.segments[2].generated);
    assert_eq!(world.segments[2].entity, 2);
    assert_eq!(world.joints[1].joint.entity1, 2);
    assert_eq!(world.joints[1].joint.entity2, 3);
    assert!(world.joints[1].generated);
    assert!(!world.joints[0].generated);
}

#[test]
fn chain_is_not_built_when_the_world_has_no_entities_left() {
    let mut world = World::new();
    world.next_entity = u64::MAX - 1;
    world.convert_chain_to_parts(Vec2::new(0, 0), Vec2::new(0, -320), &tag("late"), false);
    assert_eq!(world.segments.len(), 0);
    assert_eq!(world.joints.len(), 0);
    assert_eq!(world.next_entity, u64::MAX - 1);
    world.next_entity = u64::MAX - 2;
    world.convert_chain_to_parts(Vec2::new(0, 0), Vec2::new(0, -320), &tag("late"), false);
    assert_eq!(world.segments.len(), 2);
    assert_eq!(world.next_entity, u64::MAX);
}

#[test]
fn chain_bundle_has_the_body_of_a_link() {
    let transform = Transform {
        translation: Vec2::new(1, 2),
        rotation: Rotation::identity(),
        scale: 160,
    };
    let bundle = ChainBundle::new(ChainImage::Chain, RigidBody::Dynamic, transform, tag("x"));
    assert_eq!(
        bundle.sprite,
        Sprite { image: ChainImage::Chain, custom_size: Vec2::new(100_000, 100_000), tiled: false }
    );
    assert_eq!(bundle.rigid_body, RigidBody::Dynamic);
    assert_eq!(bundle.collider, Collider { width: 1_600, height: 8_000 });
    assert_eq!(bundle.transform, transform);
    assert_eq!(
        bundle.mass_properties_bundle,
        MassPropertiesBundle { width: 10_000, height: 50_000, density: 20 }
    );
    assert_eq!(bundle.chain_part, tag("x"));
    assert_eq!(
        bundle.chain_layer,
        CollisionLayers { memberships: LayerMask(2), filters: LayerMask(0xffff_ffff) }
    );
    assert_eq!(bundle.clone(), bundle);
}

#[test]
fn chain_immunity_keeps_its_parts() {
    let timer = Timer::new(1_000_000_000, TimerMode::Once);
    let immunity = ChainImmunity::new(timer, "vine".to_string());
    assert_eq!(immunity.timer, timer);
    assert_eq!(immunity.chain_id, "vine");
    assert_eq!(immunity.clone(), immunity);
}

#[test]
fn map_chain_hangs_down_from_above_its_entry() {
    let mut world = World::new();
    // an entry of scale 1.0 at (10, 20): the chain starts 50 above and is 1.5 long
    world.process_chain(Vec2::new(milli(10.0), milli(20.0)), 1000, &tag("iid-1"));
    // 1.5 / 0.16 = 9.375
    assert_eq!(world.segments.len(), 10);
    assert_eq!(world.joints.len(), 9);
    assert_eq!(world.segments[0].bundle.transform.translation, Vec2::new(10_000, 70_000));
    assert_eq!(world.segments[9].bundle.transform.translation, Vec2::new(10_000, 70_000 - 9 * 16_000));
    for segment in world.segments.iter() {
        assert!(!segment.generated);
        assert_eq!(segment.bundle.chain_part, tag("iid-1"));
        assert_eq!(segment.bundle.transform.rotation.to, Dir2::neg_y());
    }
}

#[test]
fn map_chain_of_no_scale_is_not_built() {
    let mut world = World::new();
    world.process_chain(Vec2::new(0, 0), 0, &tag("flat"));
    assert_eq!(world.segments.len(), 0);
}

#[test]
fn map_chain_at_the_border_of_the_plane() {
    let mut world = World::new();
    world.process_chain(Vec2::new(0, i32::MAX), 1000, &tag("high"));
    assert_eq!(world.segments[0].bundle.transform.translation, Vec2::new(0, i32::MAX));
    assert_eq!(world.segments.len(), 10);
}
