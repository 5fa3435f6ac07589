//! What holds of the mechanic whatever the host does with it, proved from
//! the descriptions of its steps.

use vstd::prelude::*;
use crate::chain::Attachment;
use crate::chain::CHAIN_SIZE;
use crate::chain::ChainImmunity;
use crate::chain::ChainPart;
use crate::chain::ConnectedChain;
use crate::chain::IMMUNITY_SECONDS;
use crate::chain::is_segment_count;
use crate::chain::spec_segment_count;
use crate::chain::spec_segment_transform;
use crate::chain::spec_tether;
use crate::chain_movement::PlayerChainEvent;
use crate::math::Vec2;
use crate::physics::DistanceJoint;
use crate::physics::Entity;
use crate::physics::RigidBody;
use crate::physics::Rotation;
use crate::player_chain::ChainHitEnd;
use crate::player_chain::ChainLength;
use crate::player_chain::DESPAWN_SECONDS;
use crate::player_chain::DespawnTimer;
use crate::player_chain::ShootChain;
use crate::player_chain::ShootingChainBundle;
use crate::player_chain::spec_is_shooting;
use crate::player_chain::spec_shot_range;
use crate::timer::Timer;
use crate::timer::TimerMode;
use crate::world::ChainSegment;
use crate::world::count_tethers;
use crate::world::find_rider_from;
use crate::world::find_segment_from;
use crate::world::Rider;
use crate::world::SegmentJoint;
use crate::world::WorldState;

verus! {

/// Every distance has a length in links that is at most `bound`, if only
/// `bound` links are long enough.
proof fn lemma_segment_count_below(length_squared: nat, bound: nat) -> (count: nat)
    requires
        (bound * CHAIN_SIZE) * (bound * CHAIN_SIZE) >= length_squared,
    ensures
        count <= bound,
        is_segment_count(length_squared, count),
    decreases bound,
{
    if bound > 0 && ((bound - 1) * CHAIN_SIZE) * ((bound - 1) * CHAIN_SIZE) >= length_squared {
        lemma_segment_count_below(length_squared, (bound - 1) as nat)
    } else {
        bound
    }
}

/// The number of links of a chain is the distance between its ends over the
/// length of a link, rounded up: that many links are long enough, and one
/// fewer would not be. It is zero only for a chain of no length.
pub proof fn lemma_segment_count_is_ceiling(start: Vec2, end: Vec2)
    ensures
        is_segment_count(start.spec_distance_squared(end), spec_segment_count(start, end)),
        spec_segment_count(start, end) == 0 <==> start == end,
{
    let length_squared = start.spec_distance_squared(end);
    assert((length_squared * CHAIN_SIZE) * (length_squared * CHAIN_SIZE) >= length_squared)
        by (nonlinear_arith);
    let count = lemma_segment_count_below(length_squared, length_squared);
    let chosen = spec_segment_count(start, end);
    assert(is_segment_count(length_squared, chosen));
    let dx = end.x - start.x;
    let dy = end.y - start.y;
    assert(dx * dx >= 0 && dy * dy >= 0 && (dx * dx == 0 <==> dx == 0) && (dy * dy == 0 <==> dy
        == 0)) by (nonlinear_arith);
    assert(chosen > 0 ==> ((chosen - 1) * CHAIN_SIZE) * ((chosen - 1) * CHAIN_SIZE) >= 0)
        by (nonlinear_arith);
    assert(chosen == 0 ==> (chosen * CHAIN_SIZE) * (chosen * CHAIN_SIZE) == 0)
        by (nonlinear_arith);
}

/// Laying out a chain between two different points adds as many links as
/// the distance over the length of a link, rounded up. Exactly one of them
/// is a pivot, the first, which stands at the start and is held in place; the
/// others swing. One hinge fewer than links is added, and the hinges join
/// each link to the next, in order. What the world held before stays.
///
/// The world must have entities left for the links.
pub proof fn lemma_chain_topology(
    world: WorldState,
    start: Vec2,
    end: Vec2,
    chain_id: ChainPart,
    generated: bool,
)
    requires
        start != end,
        world.has_room(spec_segment_count(start, end)),
    ensures
        ({
            let after = world.convert_chain_to_parts(start, end, chain_id, generated);
            let count = spec_segment_count(start, end);
            let links = world.segments.len() as int;
            let hinges = world.joints.len() as int;
            &&& is_segment_count(start.spec_distance_squared(end), count)
            &&& count >= 1
            &&& after.segments.len() == links + count
            &&& after.joints.len() == hinges + count - 1
            &&& after.segments.take(links) == world.segments
            &&& after.joints.take(hinges) == world.joints
            &&& after.segments[links].pivot
            &&& after.segments[links].bundle.rigid_body == RigidBody::Kinematic
            &&& after.segments[links].bundle.transform.translation == start
            &&& forall|i: int|
                1 <= i < count ==> !(#[trigger] after.segments[links + i]).pivot
                    && after.segments[links + i].bundle.rigid_body == RigidBody::Dynamic
            &&& forall|i: int|
                0 <= i < count ==> (#[trigger] after.segments[links + i]).bundle.chain_part
                    == chain_id && after.segments[links + i].generated == generated
                    && after.segments[links + i].despawn_timer is None
            &&& forall|i: int|
                0 <= i < count - 1 ==> (#[trigger] after.joints[hinges + i]).joint.entity1
                    == after.segments[links + i].entity && after.joints[hinges + i].joint.entity2
                    == after.segments[links + i + 1].entity && after.joints[hinges
                    + i].chain_part == chain_id && after.joints[hinges + i].generated
                    == generated
        }),
{
    lemma_segment_count_is_ceiling(start, end);
    let after = world.convert_chain_to_parts(start, end, chain_id, generated);
    let links = world.segments.len() as int;
    let hinges = world.joints.len() as int;
    let direction = start.spec_direction_to(end)->Some_0;
    assert(after.segments.take(links) =~= world.segments);
    assert(after.joints.take(hinges) =~= world.joints);
    assert(spec_segment_transform(start, direction, 0).translation == start) by {
        assert(0nat * crate::chain::CHAIN_STEP as nat == 0);
    }
}

/// A rider that is free and can attach takes hold of the chain whose link
/// it touches: it is then attached to that chain, and exactly one tether is
/// added, between the link and the rider. While it is attached, touching a
/// link, of this chain or another, changes nothing.
pub proof fn lemma_collision_attaches(world: WorldState, chain_entity: Entity, other_entity: Entity)
    requires
        world.find_rider(other_entity) is Some,
        world.find_segment(chain_entity) is Some,
        world.riders[world.find_rider(other_entity)->Some_0].can_attach is Some,
        world.riders[world.find_rider(other_entity)->Some_0].attachment is Unattached,
    ensures
        ({
            let after = world.observe_chain_collision(chain_entity, other_entity);
            let rider = world.find_rider(other_entity)->Some_0;
            let segment = world.find_segment(chain_entity)->Some_0;
            &&& after.riders[rider].attachment == Attachment::Attached(
                ConnectedChain(world.segments[segment].bundle.chain_part.0),
            )
            &&& after.tethers == world.tethers.push(spec_tether(chain_entity, other_entity))
            &&& count_tethers(after.tethers, other_entity) == count_tethers(
                world.tethers,
                other_entity,
            ) + 1
            &&& forall|link: Entity| #[trigger]
                after.observe_chain_collision(link, other_entity) == after
        }),
{
    let after = world.observe_chain_collision(chain_entity, other_entity);
    let rider = world.find_rider(other_entity)->Some_0;
    lemma_find_rider_first(world.riders, other_entity, 0);
    lemma_find_segment_first(world.segments, chain_entity, 0);
    lemma_find_rider_update(world.riders, other_entity, rider, after.riders[rider]);
    world.tethers.lemma_filter_push(
        spec_tether(chain_entity, other_entity),
        |joint: DistanceJoint| joint.spec_references(other_entity),
    );
}

/// A search for a link finds the first link that is the entity searched
/// for, and nothing if no link is.
pub proof fn lemma_find_segment_first(segments: Seq<ChainSegment>, entity: Entity, from: int)
    requires
        0 <= from,
    ensures
        match find_segment_from(segments, entity, from) {
            Some(index) => from <= index < segments.len() && segments[index].entity == entity
                && forall|j: int| from <= j < index ==> (#[trigger] segments[j]).entity != entity,
            None => forall|j: int|
                from <= j < segments.len() ==> (#[trigger] segments[j]).entity != entity,
        },
    decreases segments.len() - from,
{
    if from < segments.len() && segments[from].entity != entity {
        lemma_find_segment_first(segments, entity, from + 1);
    }
}

/// A search for a rider finds the first rider that is the entity searched
/// for, and nothing if no rider is.
pub proof fn lemma_find_rider_first(riders: Seq<Rider>, entity: Entity, from: int)
    requires
        0 <= from,
    ensures
        match find_rider_from(riders, entity, from) {
            Some(index) => from <= index < riders.len() && riders[index].entity == entity
                && forall|j: int| from <= j < index ==> (#[trigger] riders[j]).entity != entity,
            None => forall|j: int|
                from <= j < riders.len() ==> (#[trigger] riders[j]).entity != entity,
        },
    decreases riders.len() - from,
{
    if from < riders.len() && riders[from].entity != entity {
        lemma_find_rider_first(riders, entity, from + 1);
    }
}

/// Changing a rider, but not which entity it is, changes no search.
pub proof fn lemma_find_rider_update(riders: Seq<Rider>, entity: Entity, index: int, rider: Rider)
    requires
        0 <= index < riders.len(),
        rider.entity == riders[index].entity,
    ensures
        forall|from: int|
            0 <= from ==> #[trigger] find_rider_from(riders.update(index, rider), entity, from)
                == find_rider_from(riders, entity, from),
{
    assert forall|from: int| 0 <= from implies #[trigger] find_rider_from(
        riders.update(index, rider),
        entity,
        from,
    ) == find_rider_from(riders, entity, from) by {
        lemma_find_rider_update_from(riders, entity, index, rider, from);
    }
}

proof fn lemma_find_rider_update_from(
    riders: Seq<Rider>,
    entity: Entity,
    index: int,
    rider: Rider,
    from: int,
)
    requires
        0 <= index < riders.len(),
        rider.entity == riders[index].entity,
        0 <= from,
    ensures
        find_rider_from(riders.update(index, rider), entity, from) == find_rider_from(
            riders,
            entity,
            from,
        ),
    decreases riders.len() - from,
{
    if from < riders.len() {
        lemma_find_rider_update_from(riders, entity, index, rider, from + 1);
    }
}

/// A rider that has let go of a chain does not take hold of that chain
/// again while its immunity lasts, but takes hold of any other chain it
/// touches.
pub proof fn lemma_immunity_is_per_chain(
    world: WorldState,
    chain_entity: Entity,
    other_entity: Entity,
)
    requires
        world.find_rider(other_entity) is Some,
        world.find_segment(chain_entity) is Some,
        world.riders[world.find_rider(other_entity)->Some_0].can_attach is Some,
        world.riders[world.find_rider(other_entity)->Some_0].attachment is Immune,
    ensures
        ({
            let after = world.observe_chain_collision(chain_entity, other_entity);
            let rider = world.find_rider(other_entity)->Some_0;
            let segment = world.find_segment(chain_entity)->Some_0;
            let immunity = world.riders[rider].attachment->Immune_0;
            let chain_id = world.segments[segment].bundle.chain_part.0;
            &&& immunity.chain_id@ == chain_id@ ==> after == world
            &&& immunity.chain_id@ != chain_id@ ==> after.riders[rider].attachment
                == Attachment::Attached(ConnectedChain(chain_id)) && after.tethers
                == world.tethers.push(spec_tether(chain_entity, other_entity))
        }),
{
    lemma_find_rider_first(world.riders, other_entity, 0);
    lemma_find_segment_first(world.segments, chain_entity, 0);
}

/// A player that hangs from a chain and lets go is held by no tether any
/// more, stands upright, and is immune to the chain it left for
/// [`IMMUNITY_SECONDS`], counted from now.
pub proof fn lemma_leave_chain(world: WorldState, player: Entity)
    requires
        world.find_rider(player) is Some,
        world.riders[world.find_rider(player)->Some_0].attachment is Attached,
    ensures
        ({
            let after = world.handle_player_chain_event(PlayerChainEvent::LeaveChain, player);
            let rider = world.find_rider(player)->Some_0;
            let connected = world.riders[rider].attachment->Attached_0;
            &&& count_tethers(after.tethers, player) == 0
            &&& forall|i: int|
                0 <= i < after.tethers.len() ==> !(#[trigger] after.tethers[i]).spec_references(
                    player,
                )
            &&& after.riders[rider].rotation == Rotation::spec_identity()
            &&& after.riders[rider].attachment == Attachment::Immune(
                ChainImmunity {
                    timer: Timer::spec_new(1_000_000_000, TimerMode::Once),
                    chain_id: connected.0,
                },
            )
            &&& after.riders[rider].entity == player
        }),
{
    let after = world.handle_player_chain_event(PlayerChainEvent::LeaveChain, player);
    let rider = world.find_rider(player)->Some_0;
    lemma_find_rider_first(world.riders, player, 0);
    let leaves = |joint: DistanceJoint| !joint.spec_references(player);
    let holds = |joint: DistanceJoint| joint.spec_references(player);
    assert forall|i: int| 0 <= i < after.tethers.len() implies !(
    #[trigger] after.tethers[i]).spec_references(player) by {
        world.tethers.lemma_filter_pred(leaves, i);
    }
    assert(after.tethers.all(|joint: DistanceJoint| !holds(joint)));
    after.tethers.lemma_all_neg_filter_empty(holds);
}

/// The sum of the times of some frames.
pub open spec fn total_time(deltas: Seq<u64>) -> nat
    decreases deltas.len(),
{
    if deltas.len() == 0 {
        0
    } else {
        total_time(deltas.drop_last()) + deltas.last() as nat
    }
}

/// The world after frames of the given times, in each of which the
/// immunities were advanced.
pub open spec fn after_immunity_frames(world: WorldState, deltas: Seq<u64>) -> WorldState
    decreases deltas.len(),
{
    if deltas.len() == 0 {
        world
    } else {
        after_immunity_frames(world, deltas.drop_last()).process_chain_immunity_timer(
            deltas.last(),
        )
    }
}

/// Frame by frame, a running immunity lasts until the time since it began
/// reaches its duration: before that the rider is immune to the same chain,
/// from then on it is free. Nothing else about the rider changes.
pub proof fn lemma_immunity_runs_out(world: WorldState, rider: int, deltas: Seq<u64>)
    requires
        0 <= rider < world.riders.len(),
        world.riders[rider].attachment is Immune,
        world.riders[rider].attachment->Immune_0.timer.mode == TimerMode::Once,
        !world.riders[rider].attachment->Immune_0.timer.finished,
        !world.riders[rider].attachment->Immune_0.timer.just_finished,
        world.riders[rider].attachment->Immune_0.timer.elapsed
            < world.riders[rider].attachment->Immune_0.timer.duration,
    ensures
        ({
            let after = after_immunity_frames(world, deltas);
            let immunity = world.riders[rider].attachment->Immune_0;
            &&& after.riders.len() == world.riders.len()
            &&& immunity.timer.elapsed + total_time(deltas) >= immunity.timer.duration
                ==> after.riders[rider] == (Rider {
                attachment: Attachment::Unattached,
                ..world.riders[rider]
            })
            &&& immunity.timer.elapsed + total_time(deltas) < immunity.timer.duration
                ==> after.riders[rider] == (Rider {
                attachment: Attachment::Immune(
                    ChainImmunity {
                        timer: Timer {
                            elapsed: (immunity.timer.elapsed + total_time(deltas)) as u64,
                            ..immunity.timer
                        },
                        chain_id: immunity.chain_id,
                    },
                ),
                ..world.riders[rider]
            })
        }),
    decreases deltas.len(),
{
    if deltas.len() > 0 {
        let earlier = deltas.drop_last();
        lemma_immunity_runs_out(world, rider, earlier);
        let before = after_immunity_frames(world, earlier);
        let after = after_immunity_frames(world, deltas);
        assert(total_time(deltas) == total_time(earlier) + deltas.last());
        assert(after.riders[rider] == before.riders[rider].spec_tick_immunity(deltas.last()));
    }
}

/// A grapple never gets shorter, and keeps its target and its owner while
/// it grows.
pub proof fn lemma_grapple_grows(chain: ShootingChainBundle, delta: u64)
    ensures
        chain.spec_grow(delta).current_length.0 >= chain.current_length.0,
        chain.spec_grow(delta).spec_reach() >= chain.spec_reach(),
        chain.spec_grow(delta).shooting_chain == chain.shooting_chain,
        chain.spec_grow(delta).attached_entity == chain.attached_entity,
        chain.current_length.0 + crate::player_chain::CHAIN_SPEED * delta <= u64::MAX
            ==> chain.spec_grow(delta).current_length.0 == chain.current_length.0
            + crate::player_chain::CHAIN_SPEED * delta,
{
    let before = chain.current_length.0;
    let after = chain.spec_grow(delta).current_length.0;
    assert((before * 16_000) / 1_000_000_000 <= (after * 16_000) / 1_000_000_000)
        by (nonlinear_arith)
        requires
            before <= after,
    ;
}

/// A shot at a point away from the shooter leaves the shooter with exactly
/// one grapple in flight: a new one of no length, which flies to where the
/// ray of the shot ends.
pub proof fn lemma_shot_starts_grapple(
    world: WorldState,
    shot: ShootChain,
    player: Entity,
    origin_point: Vec2,
    hit: Option<u64>,
)
    requires
        origin_point != shot.0,
    ensures
        ({
            let after = world.read_shoot_chain_event(Some(shot), player, origin_point, hit);
            let direction = origin_point.spec_direction_to(shot.0)->Some_0;
            let owned = |chain: ShootingChainBundle| chain.attached_entity.0 == player;
            &&& after.shooting_chains.filter(owned).len() == 1
            &&& after.shooting_chains.last().attached_entity.0 == player
            &&& after.shooting_chains.last().current_length == ChainLength(0)
            &&& after.shooting_chains.last().shooting_chain.end_position
                == origin_point.spec_advance(direction, spec_shot_range(hit) as nat)
            &&& spec_is_shooting(after.shooting_chains, player)
        }),
{
    let after = world.read_shoot_chain_event(Some(shot), player, origin_point, hit);
    let owned = |chain: ShootingChainBundle| chain.attached_entity.0 == player;
    let others = |chain: ShootingChainBundle| chain.attached_entity.0 != player;
    let kept = world.shooting_chains.filter(others);
    assert forall|i: int| 0 <= i < kept.len() implies !owned(#[trigger] kept[i]) by {
        world.shooting_chains.lemma_filter_pred(others, i);
    }
    assert(kept.all(|chain: ShootingChainBundle| !owned(chain)));
    kept.lemma_all_neg_filter_empty(owned);
    kept.lemma_filter_push(after.shooting_chains.last(), owned);
    assert(after.shooting_chains[after.shooting_chains.len() - 1].attached_entity.0 == player);
}

/// A hit of a grapple's ray is an impact exactly when the grapple has
/// grown as far as what was hit, and the shooter does not stand on the
/// grapple's target. The chain of an impact starts at the point that was
/// hit.
pub proof fn lemma_grapple_impact(chain: ShootingChainBundle, origin_position: Vec2, hit_distance: u64)
    ensures
        chain.spec_chain_hit_end(origin_position, hit_distance) is Some <==> hit_distance
            <= chain.spec_reach() && origin_position != chain.shooting_chain.end_position,
        chain.spec_chain_hit_end(origin_position, hit_distance) matches Some(event) ==> {
            &&& event.attached_entity == chain.attached_entity.0
            &&& event.start_pos == origin_position.spec_advance(
                origin_position.spec_direction_to(chain.shooting_chain.end_position)->Some_0,
                hit_distance as nat,
            )
        },
{
}

/// An impact is answered once: it takes the grapple out of flight, so that
/// the same impact, reported again, changes nothing.
pub proof fn lemma_impact_fires_once(world: WorldState, event: ChainHitEnd)
    ensures
        !spec_is_shooting(world.convert_chain(Some(event)).shooting_chains, event.attached_entity),
        world.convert_chain(Some(event)).convert_chain(Some(event)) == world.convert_chain(
            Some(event),
        ),
{
    let after = world.convert_chain(Some(event));
    if spec_is_shooting(world.shooting_chains, event.attached_entity) {
        let others = |chain: ShootingChainBundle| chain.attached_entity.0 != event.attached_entity;
        let kept = world.shooting_chains.filter(others);
        assert(after.shooting_chains == kept);
        assert forall|i: int| 0 <= i < kept.len() implies (#[trigger] kept[i]).attached_entity.0
            != event.attached_entity by {
            world.shooting_chains.lemma_filter_pred(others, i);
        }
    }
}

/// The chain that an impact leaves hangs from the point that was hit: its
/// pivot stands there, held in place, and its links are those of a chain
/// from there toward the other end that the impact names.
///
/// The two ends must differ, and the world must have entities left for the
/// links.
pub proof fn lemma_impact_builds_chain(world: WorldState, event: ChainHitEnd)
    requires
        spec_is_shooting(world.shooting_chains, event.attached_entity),
        event.start_pos != event.end_pos,
        world.has_room(spec_segment_count(event.start_pos, event.end_pos)),
    ensures
        ({
            let after = world.convert_chain(Some(event));
            let count = spec_segment_count(event.start_pos, event.end_pos);
            let links = world.segments.len() as int;
            &&& count >= 1
            &&& after.segments.len() == links + count
            &&& after.segments[links].pivot
            &&& after.segments[links].bundle.rigid_body == RigidBody::Kinematic
            &&& after.segments[links].bundle.transform.translation == event.start_pos
            &&& after.next_entity == world.next_entity + count
        }),
{
    let retired = (WorldState {
        shooting_chains: world.shooting_chains.filter(
            |chain: ShootingChainBundle| chain.attached_entity.0 != event.attached_entity,
        ),
        ..world
    }).retire_generated();
    lemma_chain_topology(retired, event.start_pos, event.end_pos, world.player_chain, true);
}

/// When a grapple lands, the chains of earlier grapples are on their way
/// out and the new chain alone is in use: every link that was there before
/// is still there, with [`DESPAWN_SECONDS`] left if it came from a grapple;
/// every hinge that came from a grapple before is gone; and the links and
/// hinges added are those of the new chain, tagged as the player's, with no
/// time limit.
pub proof fn lemma_impact_retires_generated(world: WorldState, event: ChainHitEnd)
    requires
        spec_is_shooting(world.shooting_chains, event.attached_entity),
    ensures
        ({
            let after = world.convert_chain(Some(event));
            let links = world.segments.len() as int;
            let kept = world.joints.filter(|joint: SegmentJoint| !joint.generated);
            &&& after.segments.len() >= links
            &&& forall|i: int|
                0 <= i < links ==> #[trigger] after.segments[i] == world.segments[i].spec_retire()
            &&& forall|i: int|
                0 <= i < links && world.segments[i].generated ==> (
                #[trigger] after.segments[i]).despawn_timer == Some(
                    DespawnTimer(Timer::spec_new(3_000_000_000, TimerMode::Once)),
                )
            &&& forall|i: int|
                links <= i < after.segments.len() ==> (#[trigger] after.segments[i]).generated
                    && after.segments[i].despawn_timer is None
                    && after.segments[i].bundle.chain_part == world.player_chain
                    && after.segments[i].entity >= world.next_entity
            &&& after.joints.len() >= kept.len()
            &&& after.joints.take(kept.len() as int) == kept
            &&& forall|i: int|
                0 <= i < kept.len() ==> !(#[trigger] after.joints[i]).generated
            &&& forall|i: int|
                kept.len() <= i < after.joints.len() ==> (#[trigger] after.joints[i]).generated
                    && after.joints[i].joint.entity1 >= world.next_entity
                    && after.joints[i].joint.entity2 >= world.next_entity
        }),
{
    let after = world.convert_chain(Some(event));
    let keep = |joint: SegmentJoint| !joint.generated;
    let kept = world.joints.filter(keep);
    let mid = (WorldState {
        shooting_chains: world.shooting_chains.filter(
            |chain: ShootingChainBundle| chain.attached_entity.0 != event.attached_entity,
        ),
        ..world
    }).retire_generated();
    assert(mid.joints == kept);
    assert(after == mid.convert_chain_to_parts(
        event.start_pos,
        event.end_pos,
        world.player_chain,
        true,
    ));
    assert(after.joints.take(kept.len() as int) =~= kept);
    assert forall|i: int| 0 <= i < kept.len() implies !(#[trigger] after.joints[i]).generated by {
        world.joints.lemma_filter_pred(keep, i);
    }
    let count = spec_segment_count(event.start_pos, event.end_pos);
    lemma_segment_count_is_ceiling(event.start_pos, event.end_pos);
    assert forall|i: int| kept.len() <= i < after.joints.len() implies (
    #[trigger] after.joints[i]).joint.entity1 >= world.next_entity && after.joints[i].joint.entity2
        >= world.next_entity by {
        let index = (i - kept.len() + 1) as nat;
        assert(mid.joints.len() == kept.len());
        assert(event.start_pos.spec_direction_to(event.end_pos) is Some && mid.has_room(count));
        assert(after.joints.len() == kept.len() + count - 1);
        assert(after.joints[i] == crate::chain::spec_chain_joint(
            world.player_chain,
            true,
            world.next_entity,
            index,
        ));
        assert(world.next_entity + index <= u64::MAX);
    }
}

/// Two grapples landing one after the other leave the chain of the second
/// alone in use. `first` lands in `world`; then `player` shoots again, and
/// that grapple lands as `second`. Afterwards every link that came from a
/// grapple before the second landing, those of the first chain among them,
/// has [`DESPAWN_SECONDS`] left; the links that came from a grapple and have
/// no time limit are exactly those of the second chain; and no hinge that
/// came from a grapple joins links of the first chain.
pub proof fn lemma_second_grapple_retires_first(
    world: WorldState,
    first: ChainHitEnd,
    shot: ShootChain,
    player: Entity,
    origin_point: Vec2,
    hit: Option<u64>,
    second: ChainHitEnd,
)
    requires
        origin_point != shot.0,
        second.attached_entity == player,
    ensures
        ({
            let landed = world.convert_chain(Some(first));
            let flying = landed.read_shoot_chain_event(Some(shot), player, origin_point, hit);
            let after = flying.convert_chain(Some(second));
            let links = landed.segments.len() as int;
            &&& after.segments.len() >= links
            &&& forall|i: int|
                0 <= i < links && landed.segments[i].generated ==> (
                #[trigger] after.segments[i]).despawn_timer == Some(
                    DespawnTimer(Timer::spec_new(3_000_000_000, TimerMode::Once)),
                ) && after.segments[i].entity == landed.segments[i].entity
            &&& forall|i: int|
                0 <= i < after.segments.len() ==> ((#[trigger] after.segments[i]).generated
                    && after.segments[i].despawn_timer is None <==> i >= links)
            &&& forall|i: int|
                0 <= i < after.joints.len() && (#[trigger] after.joints[i]).generated
                    ==> after.joints[i].joint.entity1 >= landed.next_entity
                    && after.joints[i].joint.entity2 >= landed.next_entity
        }),
{
    let landed = world.convert_chain(Some(first));
    let flying = landed.read_shoot_chain_event(Some(shot), player, origin_point, hit);
    let after = flying.convert_chain(Some(second));
    lemma_shot_starts_grapple(landed, shot, player, origin_point, hit);
    lemma_impact_retires_generated(flying, second);
    let kept = flying.joints.filter(|joint: SegmentJoint| !joint.generated);
    assert forall|i: int|
        0 <= i < after.joints.len() && (
        #[trigger] after.joints[i]).generated implies after.joints[i].joint.entity1
        >= landed.next_entity && after.joints[i].joint.entity2 >= landed.next_entity by {
        if i < kept.len() {
            assert(!after.joints[i].generated);
        }
    }
}

/// The grapple after frames of the given times, in each of which it grew.
pub open spec fn after_growth_frames(chain: ShootingChainBundle, deltas: Seq<u64>) -> ShootingChainBundle
    decreases deltas.len(),
{
    if deltas.len() == 0 {
        chain
    } else {
        after_growth_frames(chain, deltas.drop_last()).spec_grow(deltas.last())
    }
}

/// Frame by frame, a grapple gains [`CHAIN_SPEED`](crate::player_chain::CHAIN_SPEED)
/// billionths of its width for every nanosecond, up to what a `u64` holds;
/// its target and its owner stay.
pub proof fn lemma_grapple_length_after_frames(chain: ShootingChainBundle, deltas: Seq<u64>)
    ensures
        ({
            let after = after_growth_frames(chain, deltas);
            let exact = chain.current_length.0 + crate::player_chain::CHAIN_SPEED * total_time(
                deltas,
            );
            &&& after.current_length.0 == if exact > u64::MAX {
                u64::MAX as int
            } else {
                exact
            }
            &&& after.shooting_chain == chain.shooting_chain
            &&& after.attached_entity == chain.attached_entity
            &&& after.sprite == chain.sprite
        }),
    decreases deltas.len(),
{
    if deltas.len() > 0 {
        lemma_grapple_length_after_frames(chain, deltas.drop_last());
        assert(total_time(deltas) == total_time(deltas.drop_last()) + deltas.last());
    }
}

/// The world after frames of the given times, in each of which the links on
/// their way out were advanced.
pub open spec fn after_despawn_frames(world: WorldState, deltas: Seq<u64>) -> WorldState
    decreases deltas.len(),
{
    if deltas.len() == 0 {
        world
    } else {
        after_despawn_frames(world, deltas.drop_last()).handle_despawn_timer(deltas.last())
    }
}

/// Every link on its way out has a running one-shot timer with no more than
/// `time` left.
pub open spec fn leaving_within(segments: Seq<ChainSegment>, time: int) -> bool {
    forall|i: int|
        0 <= i < segments.len() ==> match (#[trigger] segments[i]).despawn_timer {
            Some(timer) => timer.0.mode == TimerMode::Once && !timer.0.finished
                && !timer.0.just_finished && timer.0.duration - timer.0.elapsed <= time,
            None => true,
        }
}

/// Right after a grapple has landed, every link on its way out has a
/// running timer with [`DESPAWN_SECONDS`] left, whatever it had left before.
pub proof fn lemma_impact_restarts_countdowns(world: WorldState, event: ChainHitEnd)
    requires
        spec_is_shooting(world.shooting_chains, event.attached_entity),
        forall|i: int|
            0 <= i < world.segments.len() && !(#[trigger] world.segments[i]).generated
                ==> world.segments[i].despawn_timer is None,
    ensures
        leaving_within(world.convert_chain(Some(event)).segments, 3_000_000_000),
        forall|i: int|
            0 <= i < world.convert_chain(Some(event)).segments.len() && !(
            #[trigger] world.convert_chain(Some(event)).segments[i]).generated
                ==> world.convert_chain(Some(event)).segments[i].despawn_timer is None,
{
    lemma_impact_retires_generated(world, event);
    let after = world.convert_chain(Some(event));
    let links = world.segments.len() as int;
    assert forall|i: int| 0 <= i < after.segments.len() implies match (
    #[trigger] after.segments[i]).despawn_timer {
        Some(timer) => timer.0.mode == TimerMode::Once && !timer.0.finished
            && !timer.0.just_finished && timer.0.duration - timer.0.elapsed <= 3_000_000_000,
        None => true,
    } by {
        if i < links {
            assert(after.segments[i] == world.segments[i].spec_retire());
        }
    }
    assert forall|i: int|
        0 <= i < after.segments.len() && !(
        #[trigger] after.segments[i]).generated implies after.segments[i].despawn_timer is None by {
        if i < links {
            assert(after.segments[i] == world.segments[i].spec_retire());
        }
    }
}

/// Links on their way out are gone once their time is up: after one frame
/// or more, which together last at least as long as any of them has left,
/// only links without a time limit remain, and all of those remain, in their
/// order.
pub proof fn lemma_retired_links_disappear(world: WorldState, deltas: Seq<u64>)
    requires
        deltas.len() > 0,
        leaving_within(world.segments, total_time(deltas) as int),
    ensures
        after_despawn_frames(world, deltas).segments == world.segments.filter(
            |segment: ChainSegment| segment.despawn_timer is None,
        ),
{
    lemma_despawn_frames(world, deltas, total_time(deltas) as int);
    let outlasts = |segment: ChainSegment| spec_outlasts(segment, total_time(deltas));
    let aged = |segment: ChainSegment| spec_aged(segment, total_time(deltas));
    let unlimited = |segment: ChainSegment| segment.despawn_timer is None;
    lemma_filter_same(world.segments, outlasts, unlimited);
    let kept = world.segments.filter(unlimited);
    assert forall|i: int| 0 <= i < kept.len() implies aged(#[trigger] kept[i]) == kept[i] by {
        world.segments.lemma_filter_pred(unlimited, i);
    }
    assert(kept.map_values(aged) =~= kept);
}

/// What one frame or more of advancing the links on their way out leave:
/// the links without a time limit, and the links whose time is not up, with
/// that much less time left.
pub proof fn lemma_despawn_frames(world: WorldState, deltas: Seq<u64>, time: int)
    requires
        deltas.len() > 0,
        leaving_within(world.segments, time),
    ensures
        after_despawn_frames(world, deltas).segments == world.segments.filter(
            |segment: ChainSegment| spec_outlasts(segment, total_time(deltas)),
        ).map_values(|segment: ChainSegment| spec_aged(segment, total_time(deltas))),
    decreases deltas.len(),
{
    let earlier = deltas.drop_last();
    let delta = deltas.last();
    assert(total_time(deltas) == total_time(earlier) + delta);
    if earlier.len() == 0 {
        assert(total_time(earlier) == 0);
        assert(after_despawn_frames(world, earlier) == world);
        lemma_despawn_first(world.segments, delta, time);
    } else {
        lemma_despawn_frames(world, earlier, time);
        lemma_despawn_step(world.segments, total_time(earlier), delta, time);
    }
}

/// The first frame of advancing links on their way out.
proof fn lemma_despawn_first(segments: Seq<ChainSegment>, delta: u64, limit: int)
    requires
        leaving_within(segments, limit),
    ensures
        segments.map_values(|segment: ChainSegment| segment.spec_tick_despawn(delta)).filter(
            |segment: ChainSegment| segment.spec_stays(),
        ) == segments.filter(|segment: ChainSegment| spec_outlasts(segment, delta as nat)).map_values(
            |segment: ChainSegment| spec_aged(segment, delta as nat),
        ),
    decreases segments.len(),
{
    let tick = |segment: ChainSegment| segment.spec_tick_despawn(delta);
    let stays = |segment: ChainSegment| segment.spec_stays();
    let outlasts = |segment: ChainSegment| spec_outlasts(segment, delta as nat);
    let aged = |segment: ChainSegment| spec_aged(segment, delta as nat);
    if segments.len() == 0 {
        assert(segments.map_values(tick) =~= Seq::<ChainSegment>::empty());
        assert(segments.filter(outlasts) =~= Seq::<ChainSegment>::empty());
        assert(Seq::<ChainSegment>::empty().filter(stays) =~= Seq::<ChainSegment>::empty());
        assert(Seq::<ChainSegment>::empty().map_values(aged) =~= Seq::<ChainSegment>::empty());
    } else {
        let rest = segments.drop_last();
        let last = segments.last();
        assert(leaving_within(rest, limit)) by {
            assert forall|i: int| 0 <= i < rest.len() implies match (
            #[trigger] rest[i]).despawn_timer {
                Some(timer) => timer.0.mode == TimerMode::Once && !timer.0.finished
                    && !timer.0.just_finished && timer.0.duration - timer.0.elapsed <= limit,
                None => true,
            } by {
                assert(rest[i] == segments[i]);
            }
        }
        lemma_despawn_first(rest, delta, limit);
        assert(rest.push(last) =~= segments);
        assert(segments.map_values(tick) =~= rest.map_values(tick).push(tick(last)));
        rest.map_values(tick).lemma_filter_push(tick(last), stays);
        rest.lemma_filter_push(last, outlasts);
        if outlasts(last) {
            assert(rest.filter(outlasts).push(last).map_values(aged) =~= rest.filter(
                outlasts,
            ).map_values(aged).push(aged(last)));
            assert(tick(last) == aged(last));
        }
    }
}

/// The link's time is not up after `time` more nanoseconds.
pub open spec fn spec_outlasts(segment: ChainSegment, time: nat) -> bool {
    match segment.despawn_timer {
        Some(timer) => timer.0.elapsed + time < timer.0.duration,
        None => true,
    }
}

/// The link after `time` more nanoseconds that did not end its time.
pub open spec fn spec_aged(segment: ChainSegment, time: nat) -> ChainSegment {
    match segment.despawn_timer {
        Some(timer) => ChainSegment {
            despawn_timer: Some(
                DespawnTimer(
                    Timer {
                        elapsed: (timer.0.elapsed + time) as u64,
                        finished: false,
                        just_finished: false,
                        ..timer.0
                    },
                ),
            ),
            ..segment
        },
        None => segment,
    }
}

/// A filter that every element passes keeps the sequence.
proof fn lemma_filter_all<A>(s: Seq<A>, pred: spec_fn(A) -> bool)
    requires
        forall|i: int| 0 <= i < s.len() ==> pred(#[trigger] s[i]),
    ensures
        s.filter(pred) == s,
    decreases s.len(),
{
    reveal_with_fuel(Seq::filter, 2);
    if s.len() > 0 {
        lemma_filter_all(s.drop_last(), pred);
        assert(s.drop_last().push(s.last()) =~= s);
    }
}

/// Two filters that agree on every element of a sequence keep the same.
proof fn lemma_filter_same<A>(s: Seq<A>, first: spec_fn(A) -> bool, second: spec_fn(A) -> bool)
    requires
        forall|i: int| 0 <= i < s.len() ==> first(#[trigger] s[i]) == second(s[i]),
    ensures
        s.filter(first) == s.filter(second),
    decreases s.len(),
{
    reveal_with_fuel(Seq::filter, 2);
    if s.len() > 0 {
        lemma_filter_same(s.drop_last(), first, second);
    }
}

/// One more frame of advancing links that have aged by `time` already.
proof fn lemma_despawn_step(segments: Seq<ChainSegment>, time: nat, delta: u64, limit: int)
    requires
        leaving_within(segments, limit),
    ensures
        segments.filter(|segment: ChainSegment| spec_outlasts(segment, time)).map_values(
            |segment: ChainSegment| spec_aged(segment, time),
        ).map_values(|segment: ChainSegment| segment.spec_tick_despawn(delta)).filter(
            |segment: ChainSegment| segment.spec_stays(),
        ) == segments.filter(
            |segment: ChainSegment| spec_outlasts(segment, time + delta as nat),
        ).map_values(|segment: ChainSegment| spec_aged(segment, time + delta as nat)),
    decreases segments.len(),
{
    let outlasts = |segment: ChainSegment| spec_outlasts(segment, time);
    let aged = |segment: ChainSegment| spec_aged(segment, time);
    let tick = |segment: ChainSegment| segment.spec_tick_despawn(delta);
    let stays = |segment: ChainSegment| segment.spec_stays();
    let outlasts_later = |segment: ChainSegment| spec_outlasts(segment, time + delta as nat);
    let aged_later = |segment: ChainSegment| spec_aged(segment, time + delta as nat);
    if segments.len() == 0 {
        assert(segments.filter(outlasts) =~= Seq::<ChainSegment>::empty());
        assert(segments.filter(outlasts_later) =~= Seq::<ChainSegment>::empty());
        assert(Seq::<ChainSegment>::empty().map_values(aged).map_values(tick)
            =~= Seq::<ChainSegment>::empty());
        assert(Seq::<ChainSegment>::empty().filter(stays) =~= Seq::<ChainSegment>::empty());
        assert(Seq::<ChainSegment>::empty().map_values(aged_later)
            =~= Seq::<ChainSegment>::empty());
    } else {
        let rest = segments.drop_last();
        let last = segments.last();
        assert(leaving_within(rest, limit)) by {
            assert forall|i: int| 0 <= i < rest.len() implies match (#[trigger] rest[i]).despawn_timer {
                Some(timer) => timer.0.mode == TimerMode::Once && !timer.0.finished
                    && !timer.0.just_finished && timer.0.duration - timer.0.elapsed <= limit,
                None => true,
            } by {
                assert(rest[i] == segments[i]);
            }
        }
        lemma_despawn_step(rest, time, delta, limit);
        assert(rest.push(last) =~= segments);
        rest.lemma_filter_push(last, outlasts);
        rest.lemma_filter_push(last, outlasts_later);
        let before = rest.filter(outlasts);
        if outlasts(last) {
            assert(before.push(last).map_values(aged).map_values(tick) =~= before.map_values(
                aged,
            ).map_values(tick).push(tick(aged(last))));
            before.map_values(aged).map_values(tick).lemma_filter_push(tick(aged(last)), stays);
            if outlasts_later(last) {
                assert(rest.filter(outlasts_later).push(last).map_values(aged_later)
                    =~= rest.filter(outlasts_later).map_values(aged_later).push(aged_later(last)));
                assert(tick(aged(last)) == aged_later(last));
            }
        }
    }
}

} // verus!
