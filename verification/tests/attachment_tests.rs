use chain_game::chain::Attachment;
use chain_game::chain::CanAttachChain;
use chain_game::chain::ChainImmunity;
use chain_game::chain::ChainPart;
use chain_game::chain::ConnectedChain;
use chain_game::chain_movement::handle_keyboard_input;
use chain_game::chain_movement::PlayerChainEvent;
use chain_game::math::Dir2;
use chain_game::math::Vec2;
use chain_game::physics::CollisionLayers;
use chain_game::physics::DistanceJoint;
use chain_game::physics::DistanceLimit;
use chain_game::physics::GravityScale;
use chain_game::physics::LayerMask;
use chain_game::physics::Rotation;
use chain_game::player_chain::CanShootChain;
use chain_game::schedule::Collision;
use chain_game::timer::Timer;
use chain_game::timer::TimerMode;
use chain_game::world::World;

const SECOND: u64 = 1_000_000_000;

fn tag(text: &str) -> ChainPart {
    ChainPart(text.to_string())
}

/// A world with the chains "a" (entities 0 to 2) and "b" (entities 3 to 5) and one rider (entity 6).
fn world_with_two_chains() -> (World, u64) {
    let mut world = World::new();
    world.convert_chain_to_parts(Vec2::new(0, 0), Vec2::new(0, -400), &tag("a"), false);
    world.convert_chain_to_parts(Vec2::new(900, 0), Vec2::new(900, -400), &tag("b"), false);
    let rider = world.spawn_rider(Some(CanAttachChain), Some(CanShootChain)).unwrap();
    assert_eq!(world.segments.len(), 6);
    assert_eq!(rider, 6);
    (world, rider)
}

fn tethers_of(world: &World, entity: u64) -> usize {
    world.tethers.iter().filter(|joint| joint.references(entity)).count()
}

#[test]
fn new_rider_is_free() {
    let (world, rider) = world_with_two_chains();
    let record = &world.riders[0];
    assert_eq!(record.entity, rider);
    assert_eq!(record.can_attach, Some(CanAttachChain));
    assert_eq!(record.can_shoot, Some(CanShootChain));
    assert_eq!(record.attachment, Attachment::Unattached);
    assert_eq!(record.gravity_scale, GravityScale(2_000));
    assert_eq!(record.layers, CollisionLayers::default_layers());
    assert_eq!(record.rotation, Rotation::identity());
    assert!(!record.grounded);
    assert!(!record.jumping);
    assert_eq!(world.next_entity, 7);
}

#[test]
fn world_without_entities_left_takes_no_rider() {
    let mut world = World::new();
    world.next_entity = u64::MAX;
    assert_eq!(world.spawn_rider(Some(CanAttachChain), None), None);
    assert_eq!(world.riders.len(), 0);
    assert_eq!(world.next_entity, u64::MAX);
}

#[test]
fn free_rider_attaches_on_collision() {
    let (mut world, rider) = world_with_two_chains();
    world.observe_chain_collision(1, rider);

    let record = &world.riders[0];
    assert_eq!(record.attachment, Attachment::Attached(ConnectedChain("a".to_string())));
    assert_eq!(record.gravity_scale, GravityScale(1_000));
    assert_eq!(
        record.layers,
        CollisionLayers { memberships: LayerMask(1), filters: LayerMask(0xffff_fffd) }
    );
    assert_eq!(
        world.tethers,
        vec![DistanceJoint {
            entity1: 1,
            entity2: rider,
            length_limits: Some(DistanceLimit { min: 1_000, max: 5_000 }),
        }]
    );
    assert_eq!(tethers_of(&world, rider), 1);
}

#[test]
fn attached_rider_ignores_further_collisions() {
    let (mut world, rider) = world_with_two_chains();
    world.observe_chain_collision(1, rider);
    let riders = world.riders.clone();
    let tethers = world.tethers.clone();

    // another link of the same chain
    world.observe_chain_collision(2, rider);
    assert_eq!(world.riders, riders);
    assert_eq!(world.tethers, tethers);
    // the same link again
    world.observe_chain_collision(1, rider);
    assert_eq!(world.riders, riders);
    assert_eq!(world.tethers, tethers);
    // a link of another chain
    world.observe_chain_collision(4, rider);
    assert_eq!(world.riders, riders);
    assert_eq!(world.tethers, tethers);
    assert_eq!(tethers_of(&world, rider), 1);
}

#[test]
fn collision_with_something_that_cannot_attach_changes_nothing() {
    let (mut world, _) = world_with_two_chains();
    let bystander = world.spawn_rider(None, None).unwrap();
    assert_eq!(world.riders[1].can_attach, None);
    assert_eq!(world.riders[1].can_shoot, None);
    world.observe_chain_collision(1, bystander);
    assert_eq!(world.riders[1].attachment, Attachment::Unattached);
    assert!(world.tethers.is_empty());
}

#[test]
fn collision_of_unknown_entities_changes_nothing() {
    let (mut world, rider) = world_with_two_chains();
    // no such rider
    world.observe_chain_collision(1, 99);
    // no such link
    world.observe_chain_collision(99, rider);
    // a rider is no link
    world.observe_chain_collision(rider, rider);
    // a link is no rider
    world.observe_chain_collision(1, 2);
    assert_eq!(world.riders[0].attachment, Attachment::Unattached);
    assert!(world.tethers.is_empty());
}

#[test]
fn leaving_a_chain_starts_the_immunity() {
    let (mut world, rider) = world_with_two_chains();
    world.observe_chain_collision(1, rider);
    world.sync_rider(rider, Rotation::arc(Dir2::y(), Dir2 { x: 600_000_000, y: 800_000_000 }), true, true);
    world.handle_player_chain_event(PlayerChainEvent::LeaveChain, rider);

    let record = &world.riders[0];
    assert_eq!(
        record.attachment,
        Attachment::Immune(ChainImmunity {
            timer: Timer::new(SECOND, TimerMode::Once),
            chain_id: "a".to_string(),
        })
    );
    assert_eq!(record.rotation, Rotation::identity());
    assert_eq!(record.gravity_scale, GravityScale(2_000));
    assert_eq!(record.layers, CollisionLayers::default_layers());
    assert!(!record.grounded);
    assert!(!record.jumping);
    assert!(world.tethers.is_empty());
    assert_eq!(tethers_of(&world, rider), 0);
}

#[test]
fn leaving_removes_only_the_tethers_of_the_rider() {
    let (mut world, rider) = world_with_two_chains();
    let other = world.spawn_rider(Some(CanAttachChain), None).unwrap();
    world.observe_chain_collision(4, other);
    world.observe_chain_collision(1, rider);
    assert_eq!(world.tethers.len(), 2);
    world.handle_player_chain_event(PlayerChainEvent::LeaveChain, rider);
    assert_eq!(world.tethers.len(), 1);
    assert_eq!(world.tethers[0].entity1, 4);
    assert_eq!(world.tethers[0].entity2, other);
    assert_eq!(world.riders[1].attachment, Attachment::Attached(ConnectedChain("b".to_string())));
    assert_eq!(tethers_of(&world, rider), 0);
    assert_eq!(tethers_of(&world, other), 1);
}

#[test]
fn leaving_without_a_chain_changes_nothing() {
    let (mut world, rider) = world_with_two_chains();
    let riders = world.riders.clone();
    world.handle_player_chain_event(PlayerChainEvent::LeaveChain, rider);
    assert_eq!(world.riders, riders);
    world.handle_player_chain_event(PlayerChainEvent::LeaveChain, 99);
    assert_eq!(world.riders, riders);

    // an immune rider has no chain to leave either
    world.observe_chain_collision(1, rider);
    world.handle_player_chain_event(PlayerChainEvent::LeaveChain, rider);
    world.process_chain_immunity_timer(SECOND / 4);
    let riders = world.riders.clone();
    world.handle_player_chain_event(PlayerChainEvent::LeaveChain, rider);
    assert_eq!(world.riders, riders);
}

#[test]
fn immune_rider_does_not_attach_to_the_chain_it_left() {
    let (mut world, rider) = world_with_two_chains();
    world.observe_chain_collision(1, rider);
    world.handle_player_chain_event(PlayerChainEvent::LeaveChain, rider);
    world.process_chain_immunity_timer(SECOND / 2);
    let riders = world.riders.clone();

    world.observe_chain_collision(1, rider);
    world.observe_chain_collision(0, rider);
    world.observe_chain_collision(2, rider);
    assert_eq!(world.riders, riders);
    assert!(world.tethers.is_empty());
}

#[test]
fn immune_rider_attaches_to_another_chain() {
    let (mut world, rider) = world_with_two_chains();
    world.observe_chain_collision(1, rider);
    world.handle_player_chain_event(PlayerChainEvent::LeaveChain, rider);
    world.process_chain_immunity_timer(SECOND / 2);

    world.observe_chain_collision(4, rider);
    assert_eq!(world.riders[0].attachment, Attachment::Attached(ConnectedChain("b".to_string())));
    assert_eq!(world.tethers.len(), 1);
    assert_eq!(world.tethers[0].entity1, 4);
    assert_eq!(tethers_of(&world, rider), 1);
}

#[test]
fn immunity_ends_after_one_second() {
    let (mut world, rider) = world_with_two_chains();
    world.observe_chain_collision(1, rider);
    world.handle_player_chain_event(PlayerChainEvent::LeaveChain, rider);

    world.process_chain_immunity_timer(SECOND / 2);
    assert_eq!(
        world.riders[0].attachment,
        Attachment::Immune(ChainImmunity {
            timer: Timer {
                duration: SECOND,
                elapsed: SECOND / 2,
                mode: TimerMode::Once,
                finished: false,
                just_finished: false,
            },
            chain_id: "a".to_string(),
        })
    );
    world.process_chain_immunity_timer(SECOND / 2 - 1);
    assert!(matches!(world.riders[0].attachment, Attachment::Immune(_)));
    world.process_chain_immunity_timer(1);
    assert_eq!(world.riders[0].attachment, Attachment::Unattached);
    // what leaving set stays as it is
    assert_eq!(world.riders[0].gravity_scale, GravityScale(2_000));
    assert_eq!(world.riders[0].rotation, Rotation::identity());

    // free again, the rider takes hold of the chain it had left
    world.observe_chain_collision(1, rider);
    assert_eq!(world.riders[0].attachment, Attachment::Attached(ConnectedChain("a".to_string())));
}

#[test]
fn immunity_ends_in_one_long_frame() {
    let (mut world, rider) = world_with_two_chains();
    world.observe_chain_collision(1, rider);
    world.handle_player_chain_event(PlayerChainEvent::LeaveChain, rider);
    world.process_chain_immunity_timer(5 * SECOND);
    assert_eq!(world.riders[0].attachment, Attachment::Unattached);
}

#[test]
fn immunity_timer_leaves_other_riders_alone() {
    let (mut world, rider) = world_with_two_chains();
    let other = world.spawn_rider(Some(CanAttachChain), None).unwrap();
    world.observe_chain_collision(4, other);
    world.process_chain_immunity_timer(3 * SECOND);
    assert_eq!(world.riders[0].attachment, Attachment::Unattached);
    assert_eq!(world.riders[1].attachment, Attachment::Attached(ConnectedChain("b".to_string())));
    assert_eq!(world.riders[0].entity, rider);
}

#[test]
fn leaving_comes_before_attaching_in_a_frame() {
    let (mut world, rider) = world_with_two_chains();
    world.observe_chain_collision(1, rider);
    let collisions = vec![
        Collision { chain_entity: 1, other_entity: rider },
        Collision { chain_entity: 2, other_entity: rider },
    ];
    world.handle_commands(SECOND / 60, Some(rider), None);
    world.handle_reactions(SECOND / 60, None, &collisions);
    assert!(matches!(world.riders[0].attachment, Attachment::Immune(_)));
    assert!(world.tethers.is_empty());
}

#[test]
fn collisions_of_a_frame_are_looked_at_in_order() {
    let (mut world, rider) = world_with_two_chains();
    let collisions = vec![
        Collision { chain_entity: 4, other_entity: rider },
        Collision { chain_entity: 1, other_entity: rider },
    ];
    world.observe_chain_collisions(&collisions);
    assert_eq!(world.riders[0].attachment, Attachment::Attached(ConnectedChain("b".to_string())));
    assert_eq!(world.tethers.len(), 1);
    assert_eq!(world.tethers[0].entity1, 4);
}

#[test]
fn leave_key_counts_only_on_a_chain() {
    assert_eq!(handle_keyboard_input(true, true), Some(PlayerChainEvent::LeaveChain));
    assert_eq!(handle_keyboard_input(true, false), None);
    assert_eq!(handle_keyboard_input(false, true), None);
    assert_eq!(handle_keyboard_input(false, false), None);
}

#[test]
fn sync_rider_takes_note_of_what_the_host_saw() {
    let (mut world, rider) = world_with_two_chains();
    let turned = Rotation::arc(Dir2::y(), Dir2::neg_y());
    world.sync_rider(rider, turned, true, false);
    assert_eq!(world.riders[0].rotation, turned);
    assert!(world.riders[0].grounded);
    assert!(!world.riders[0].jumping);
    assert_eq!(world.riders[0].attachment, Attachment::Unattached);
    let riders = world.riders.clone();
    world.sync_rider(99, Rotation::identity(), false, true);
    assert_eq!(world.riders, riders);
}

#[test]
fn find_segment_and_rider() {
    let (world, rider) = world_with_two_chains();
    assert_eq!(world.find_segment(0), Some(0));
    assert_eq!(world.find_segment(5), Some(5));
    assert_eq!(world.find_segment(rider), None);
    assert_eq!(world.find_rider(rider), Some(0));
    assert_eq!(world.find_rider(0), None);
}

#[test]
fn links_are_found_by_the_tag_of_their_chain() {
    let (world, _) = world_with_two_chains();
    assert_eq!(world.segments_of(&tag("a")), vec![0, 1, 2]);
    assert_eq!(world.segments_of(&tag("b")), vec![3, 4, 5]);
    assert_eq!(world.segments_of(&tag("c")), Vec::<u64>::new());
    assert!(world.generated_joints().is_empty());
}
