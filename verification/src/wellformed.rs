//! Every step of the mechanic keeps a well-formed world well-formed.

use vstd::prelude::*;
use crate::chain::CanAttachChain;
use crate::chain::ChainPart;
use crate::chain::spec_chain_segment;
use crate::chain::spec_segment_count;
use crate::chain::spec_tether;
use crate::chain_movement::PlayerChainEvent;
use crate::laws::lemma_find_rider_first;
use crate::laws::lemma_find_segment_first;
use crate::math::Vec2;
use crate::physics::DistanceJoint;
use crate::physics::Entity;
use crate::physics::Rotation;
use crate::player_chain::CanShootChain;
use crate::player_chain::ChainHitEnd;
use crate::player_chain::ShootChain;
use crate::player_chain::ShootingChainBundle;
use crate::world::ChainSegment;
use crate::world::count_segments;
use crate::world::count_shooting_chains;
use crate::world::count_tethers;
use crate::world::WorldState;

verus! {

/// Two filters can be applied in either order.
pub proof fn lemma_filter_commutes<A>(s: Seq<A>, first: spec_fn(A) -> bool, second: spec_fn(A) -> bool)
    ensures
        s.filter(first).filter(second) == s.filter(second).filter(first),
    decreases s.len(),
{
    if s.len() == 0 {
        assert(s.filter(first) =~= Seq::<A>::empty()) by {
            reveal_with_fuel(Seq::filter, 1);
        }
        assert(s.filter(second) =~= Seq::<A>::empty()) by {
            reveal_with_fuel(Seq::filter, 1);
        }
    } else {
        let rest = s.drop_last();
        let last = s.last();
        lemma_filter_commutes(rest, first, second);
        assert(rest.push(last) =~= s);
        rest.lemma_filter_push(last, first);
        rest.lemma_filter_push(last, second);
        rest.filter(first).lemma_filter_push(last, second);
        rest.filter(second).lemma_filter_push(last, first);
    }
}

/// A filter that lets through all that a second filter lets through does
/// not change what the second one leaves.
pub proof fn lemma_filter_absorbs<A>(s: Seq<A>, wide: spec_fn(A) -> bool, narrow: spec_fn(A) -> bool)
    requires
        forall|i: int| 0 <= i < s.len() && narrow(#[trigger] s[i]) ==> wide(s[i]),
    ensures
        s.filter(wide).filter(narrow) == s.filter(narrow),
    decreases s.len(),
{
    if s.len() == 0 {
        assert(s.filter(wide) =~= Seq::<A>::empty()) by {
            reveal_with_fuel(Seq::filter, 1);
        }
    } else {
        let rest = s.drop_last();
        let last = s.last();
        assert forall|i: int| 0 <= i < rest.len() && narrow(#[trigger] rest[i]) implies wide(
            rest[i],
        ) by {
            assert(rest[i] == s[i]);
        }
        lemma_filter_absorbs(rest, wide, narrow);
        assert(rest.push(last) =~= s);
        rest.lemma_filter_push(last, wide);
        rest.lemma_filter_push(last, narrow);
        rest.filter(wide).lemma_filter_push(last, narrow);
    }
}

/// Changing the elements of a sequence in a way that a filter does not
/// notice, and filtering, can be done in either order.
pub proof fn lemma_filter_of_map<A>(s: Seq<A>, change: spec_fn(A) -> A, pred: spec_fn(A) -> bool)
    requires
        forall|i: int| 0 <= i < s.len() ==> pred(change(#[trigger] s[i])) == pred(s[i]),
    ensures
        s.map_values(change).filter(pred) == s.filter(pred).map_values(change),
    decreases s.len(),
{
    if s.len() == 0 {
        assert(s.map_values(change) =~= Seq::<A>::empty());
        assert(s.filter(pred) =~= Seq::<A>::empty()) by {
            reveal_with_fuel(Seq::filter, 1);
        }
        assert(Seq::<A>::empty().filter(pred) =~= Seq::<A>::empty()) by {
            reveal_with_fuel(Seq::filter, 1);
        }
        assert(Seq::<A>::empty().map_values(change) =~= Seq::<A>::empty());
    } else {
        let rest = s.drop_last();
        let last = s.last();
        assert forall|i: int| 0 <= i < rest.len() implies pred(change(#[trigger] rest[i])) == pred(
            rest[i],
        ) by {
            assert(rest[i] == s[i]);
        }
        lemma_filter_of_map(rest, change, pred);
        assert(rest.push(last) =~= s);
        assert(s.map_values(change) =~= rest.map_values(change).push(change(last)));
        rest.map_values(change).lemma_filter_push(change(last), pred);
        rest.lemma_filter_push(last, pred);
        if pred(last) {
            assert(rest.filter(pred).push(last).map_values(change) =~= rest.filter(
                pred,
            ).map_values(change).push(change(last)));
        }
    }
}

/// Filtering a sequence that was filtered before leaves no more than
/// filtering the whole sequence.
pub proof fn lemma_filter_of_filter_len<A>(s: Seq<A>, first: spec_fn(A) -> bool, second: spec_fn(A) -> bool)
    ensures
        s.filter(first).filter(second).len() <= s.filter(second).len(),
{
    lemma_filter_commutes(s, first, second);
    s.filter(second).lemma_filter_len(first);
}

/// A sequence in which nothing passes a filter is filtered to nothing.
pub proof fn lemma_filter_none<A>(s: Seq<A>, pred: spec_fn(A) -> bool)
    requires
        forall|i: int| 0 <= i < s.len() ==> !pred(#[trigger] s[i]),
    ensures
        s.filter(pred).len() == 0,
{
    assert(s.all(|x: A| !pred(x)));
    s.lemma_all_neg_filter_empty(pred);
}

/// Every element of a filtered sequence is an element of the sequence.
pub proof fn lemma_filter_elements<A>(s: Seq<A>, pred: spec_fn(A) -> bool)
    ensures
        forall|i: int|
            0 <= i < s.filter(pred).len() ==> pred(#[trigger] s.filter(pred)[i]) && s.contains(
                s.filter(pred)[i],
            ),
{
    assert forall|i: int| 0 <= i < s.filter(pred).len() implies pred(#[trigger] s.filter(pred)[i])
        && s.contains(s.filter(pred)[i]) by {
        s.lemma_filter_pred(pred, i);
        assert(s.filter(pred).contains(s.filter(pred)[i]));
        s.lemma_filter_contains_rev(pred, s.filter(pred)[i]);
    }
}

/// Laying out a chain keeps the world well-formed.
pub proof fn lemma_convert_chain_to_parts_preserves_wf(
    world: WorldState,
    start: Vec2,
    end: Vec2,
    chain_id: ChainPart,
    generated: bool,
)
    requires
        world.wf(),
    ensures
        world.convert_chain_to_parts(start, end, chain_id, generated).wf(),
{
    let after = world.convert_chain_to_parts(start, end, chain_id, generated);
    let count = spec_segment_count(start, end);
    if start.spec_direction_to(end) is Some && world.has_room(count) {
        let direction = start.spec_direction_to(end)->Some_0;
        let links = world.segments.len() as int;
        let added = Seq::new(
            count,
            |index: int|
                spec_chain_segment(
                    start,
                    direction,
                    chain_id,
                    generated,
                    count,
                    world.next_entity,
                    index as nat,
                ),
        );
        assert(after.segments == world.segments + added);
        assert forall|i: int| 0 <= i < after.segments.len() implies (
        #[trigger] after.segments[i]).entity < after.next_entity by {
            if i >= links {
                assert(after.segments[i] == added[i - links]);
            }
        }
        assert forall|i: int, j: int|
            0 <= i < after.segments.len() && 0 <= j < after.riders.len() implies (
        #[trigger] after.segments[i]).entity != (#[trigger] after.riders[j]).entity by {
            if i >= links {
                assert(after.segments[i] == added[i - links]);
            }
        }
        assert forall|entity: Entity| #[trigger] count_segments(after.segments, entity) <= 1 by {
            lemma_count_added_segments(world, added, entity);
        }
    }
}

/// Links with fresh entities, each its own, add to the count of no entity
/// that is in use and make the count of no entity more than one.
proof fn lemma_count_added_segments(world: WorldState, added: Seq<ChainSegment>, entity: Entity)
    requires
        world.wf(),
        forall|i: int| 0 <= i < added.len() ==> (#[trigger] added[i]).entity == world.next_entity + i,
    ensures
        count_segments(world.segments + added, entity) <= 1,
    decreases added.len(),
{
    let is_entity = |segment: ChainSegment| segment.entity == entity;
    Seq::filter_distributes_over_add(world.segments, added, is_entity);
    assert(count_segments(world.segments, entity) <= 1);
    if entity < world.next_entity {
        lemma_filter_none(added, is_entity);
    } else {
        lemma_filter_none(world.segments, is_entity);
        lemma_count_fresh(added, world.next_entity as int, entity);
    }
}

/// Among links that are numbered in order, no number occurs twice.
proof fn lemma_count_fresh(added: Seq<ChainSegment>, first: int, entity: Entity)
    requires
        forall|i: int| 0 <= i < added.len() ==> (#[trigger] added[i]).entity == first + i,
    ensures
        added.filter(|segment: ChainSegment| segment.entity == entity).len() <= 1,
        entity >= first + added.len() ==> added.filter(
            |segment: ChainSegment| segment.entity == entity,
        ).len() == 0,
    decreases added.len(),
{
    let is_entity = |segment: ChainSegment| segment.entity == entity;
    if added.len() == 0 {
        assert(added.filter(is_entity) =~= Seq::<ChainSegment>::empty()) by {
            reveal_with_fuel(Seq::filter, 1);
        }
    } else {
        let rest = added.drop_last();
        let last = added.last();
        assert forall|i: int| 0 <= i < rest.len() implies (#[trigger] rest[i]).entity == first
            + i by {
            assert(rest[i] == added[i]);
        }
        lemma_count_fresh(rest, first, entity);
        assert(rest.push(last) =~= added);
        rest.lemma_filter_push(last, is_entity);
    }
}

/// Laying out the chain of a map entry keeps the world well-formed.
pub proof fn lemma_process_chain_preserves_wf(
    world: WorldState,
    translation: Vec2,
    scale_y: u32,
    chain_id: ChainPart,
)
    requires
        world.wf(),
    ensures
        world.process_chain(translation, scale_y, chain_id).wf(),
{
    lemma_convert_chain_to_parts_preserves_wf(
        world,
        crate::chain::spec_import_start(translation, scale_y),
        crate::chain::spec_import_end(translation, scale_y),
        chain_id,
        false,
    );
}

/// Adding a rider keeps the world well-formed.
pub proof fn lemma_spawn_rider_preserves_wf(
    world: WorldState,
    can_attach: Option<CanAttachChain>,
    can_shoot: Option<CanShootChain>,
)
    requires
        world.wf(),
    ensures
        world.spawn_rider(can_attach, can_shoot).wf(),
{
    let after = world.spawn_rider(can_attach, can_shoot);
    if world.has_room(1) {
        let holds = |joint: DistanceJoint| joint.spec_references(world.next_entity);
        lemma_filter_none(world.tethers, holds);
        assert forall|i: int| 0 <= i < after.riders.len() implies count_tethers(
            after.tethers,
            (#[trigger] after.riders[i]).entity,
        ) == if after.riders[i].attachment is Attached {
            1nat
        } else {
            0nat
        } by {
            if i < world.riders.len() {
                assert(after.riders[i] == world.riders[i]);
            }
        }
    }
}

/// Taking note of what the host has seen of a rider keeps the world
/// well-formed.
pub proof fn lemma_sync_rider_preserves_wf(
    world: WorldState,
    entity: Entity,
    rotation: Rotation,
    grounded: bool,
    jumping: bool,
)
    requires
        world.wf(),
    ensures
        world.sync_rider(entity, rotation, grounded, jumping).wf(),
{
    let after = world.sync_rider(entity, rotation, grounded, jumping);
    lemma_find_rider_first(world.riders, entity, 0);
    assert forall|i: int| 0 <= i < after.riders.len() implies (#[trigger] after.riders[i]).entity
        == world.riders[i].entity && (after.riders[i].attachment is Attached)
        == (world.riders[i].attachment is Attached) by {}
}

/// A collision of a link with an entity keeps the world well-formed.
pub proof fn lemma_observe_chain_collision_preserves_wf(
    world: WorldState,
    chain_entity: Entity,
    other_entity: Entity,
)
    requires
        world.wf(),
    ensures
        world.observe_chain_collision(chain_entity, other_entity).wf(),
{
    let after = world.observe_chain_collision(chain_entity, other_entity);
    lemma_find_rider_first(world.riders, other_entity, 0);
    lemma_find_segment_first(world.segments, chain_entity, 0);
    if let Some((rider, segment)) = world.attaching(chain_entity, other_entity) {
        let tether = spec_tether(chain_entity, other_entity);
        assert(world.segments[segment].entity == chain_entity);
        assert(world.riders[rider].entity == other_entity);
        assert forall|i: int| 0 <= i < after.riders.len() implies (
        #[trigger] after.riders[i]).entity == world.riders[i].entity by {}
        assert forall|i: int| 0 <= i < after.tethers.len() implies (
        #[trigger] after.tethers[i]).entity1 < after.next_entity && after.tethers[i].entity2
            < after.next_entity by {
            if i < world.tethers.len() {
                assert(after.tethers[i] == world.tethers[i]);
            }
        }
        assert forall|i: int, j: int|
            0 <= i < after.tethers.len() && 0 <= j < after.riders.len() implies (
        #[trigger] after.tethers[i]).entity1 != (#[trigger] after.riders[j]).entity by {
            if i < world.tethers.len() {
                assert(after.tethers[i] == world.tethers[i]);
            }
            assert(after.riders[j].entity == world.riders[j].entity);
        }
        assert forall|i: int| 0 <= i < after.riders.len() implies count_tethers(
            after.tethers,
            (#[trigger] after.riders[i]).entity,
        ) == if after.riders[i].attachment is Attached {
            1nat
        } else {
            0nat
        } by {
            let entity = after.riders[i].entity;
            let holds = |joint: DistanceJoint| joint.spec_references(entity);
            world.tethers.lemma_filter_push(tether, holds);
            assert(entity == world.riders[i].entity);
            if i != rider {
                assert(after.riders[i] == world.riders[i]);
                assert(world.riders[i].entity != world.riders[rider].entity);
            }
        }
    }
}

/// Advancing the immunities keeps the world well-formed.
pub proof fn lemma_process_chain_immunity_timer_preserves_wf(world: WorldState, delta: u64)
    requires
        world.wf(),
    ensures
        world.process_chain_immunity_timer(delta).wf(),
{
    let after = world.process_chain_immunity_timer(delta);
    assert forall|i: int| 0 <= i < after.riders.len() implies (#[trigger] after.riders[i]).entity
        == world.riders[i].entity && (after.riders[i].attachment is Attached)
        == (world.riders[i].attachment is Attached) by {}
}

/// Letting go of a chain keeps the world well-formed.
pub proof fn lemma_handle_player_chain_event_preserves_wf(
    world: WorldState,
    event: PlayerChainEvent,
    player: Entity,
)
    requires
        world.wf(),
    ensures
        world.handle_player_chain_event(event, player).wf(),
{
    let after = world.handle_player_chain_event(event, player);
    lemma_find_rider_first(world.riders, player, 0);
    if world.find_rider(player) is Some
        && world.riders[world.find_rider(player)->Some_0].attachment is Attached {
        let rider = world.find_rider(player)->Some_0;
        let leaves = |joint: DistanceJoint| !joint.spec_references(player);
        lemma_filter_elements(world.tethers, leaves);
        assert forall|i: int| 0 <= i < after.riders.len() implies (
        #[trigger] after.riders[i]).entity == world.riders[i].entity by {}
        assert forall|i: int| 0 <= i < after.tethers.len() implies (
        #[trigger] after.tethers[i]).entity1 < after.next_entity && after.tethers[i].entity2
            < after.next_entity by {
            let k = choose|k: int|
                0 <= k < world.tethers.len() && world.tethers[k] == after.tethers[i];
            assert(world.tethers[k].entity1 < world.next_entity);
        }
        assert forall|i: int, j: int|
            0 <= i < after.tethers.len() && 0 <= j < after.riders.len() implies (
        #[trigger] after.tethers[i]).entity1 != (#[trigger] after.riders[j]).entity by {
            let k = choose|k: int|
                0 <= k < world.tethers.len() && world.tethers[k] == after.tethers[i];
            assert(world.tethers[k].entity1 != world.riders[j].entity);
            assert(after.riders[j].entity == world.riders[j].entity);
        }
        assert forall|i: int| 0 <= i < after.riders.len() implies count_tethers(
            after.tethers,
            (#[trigger] after.riders[i]).entity,
        ) == if after.riders[i].attachment is Attached {
            1nat
        } else {
            0nat
        } by {
            let entity = after.riders[i].entity;
            let holds = |joint: DistanceJoint| joint.spec_references(entity);
            assert(entity == world.riders[i].entity);
            if i == rider {
                lemma_filter_none(after.tethers, holds);
            } else {
                assert(after.riders[i] == world.riders[i]);
                assert(world.riders[i].entity != world.riders[rider].entity);
                assert forall|k: int|
                    0 <= k < world.tethers.len() && holds(#[trigger] world.tethers[k]) implies leaves(
                    world.tethers[k],
                ) by {
                    assert(world.tethers[k].entity1 != world.riders[i].entity);
                    assert(world.tethers[k].entity1 != world.riders[rider].entity);
                }
                lemma_filter_absorbs(world.tethers, leaves, holds);
            }
        }
    }
}

/// Shooting a grapple keeps the world well-formed.
pub proof fn lemma_read_shoot_chain_event_preserves_wf(
    world: WorldState,
    event: Option<ShootChain>,
    player: Entity,
    origin_point: Vec2,
    hit: Option<u64>,
)
    requires
        world.wf(),
    ensures
        world.read_shoot_chain_event(event, player, origin_point, hit).wf(),
{
    let after = world.read_shoot_chain_event(event, player, origin_point, hit);
    if event is Some && origin_point.spec_direction_to(event->Some_0.0) is Some {
        let others = |chain: ShootingChainBundle| chain.attached_entity.0 != player;
        let kept = world.shooting_chains.filter(others);
        let shot = after.shooting_chains.last();
        assert(after.shooting_chains == kept.push(shot));
        assert forall|entity: Entity| #[trigger]
            count_shooting_chains(after.shooting_chains, entity) <= 1 by {
            let owned = |chain: ShootingChainBundle| chain.attached_entity.0 == entity;
            kept.lemma_filter_push(shot, owned);
            assert(count_shooting_chains(world.shooting_chains, entity) <= 1);
            if entity == player {
                lemma_filter_elements(world.shooting_chains, others);
                lemma_filter_none(kept, owned);
            } else {
                lemma_filter_of_filter_len(world.shooting_chains, others, owned);
            }
        }
    }
}

/// Letting the grapples grow keeps the world well-formed.
pub proof fn lemma_update_shooting_chain_preserves_wf(world: WorldState, delta: u64)
    requires
        world.wf(),
    ensures
        world.update_shooting_chain(delta).wf(),
{
    let after = world.update_shooting_chain(delta);
    let grow = |chain: ShootingChainBundle| chain.spec_grow(delta);
    assert forall|entity: Entity| #[trigger]
        count_shooting_chains(after.shooting_chains, entity) <= 1 by {
        let owned = |chain: ShootingChainBundle| chain.attached_entity.0 == entity;
        lemma_filter_of_map(world.shooting_chains, grow, owned);
        assert(count_shooting_chains(world.shooting_chains, entity) <= 1);
    }
}

/// Turning a grapple into a chain keeps the world well-formed.
pub proof fn lemma_convert_chain_preserves_wf(world: WorldState, event: Option<ChainHitEnd>)
    requires
        world.wf(),
    ensures
        world.convert_chain(event).wf(),
{
    if event is Some && crate::player_chain::spec_is_shooting(
        world.shooting_chains,
        event->Some_0.attached_entity,
    ) {
        let hit = event->Some_0;
        let others = |chain: ShootingChainBundle| chain.attached_entity.0 != hit.attached_entity;
        let landed = WorldState { shooting_chains: world.shooting_chains.filter(others), ..world };
        assert forall|entity: Entity| #[trigger]
            count_shooting_chains(landed.shooting_chains, entity) <= 1 by {
            let owned = |chain: ShootingChainBundle| chain.attached_entity.0 == entity;
            lemma_filter_of_filter_len(world.shooting_chains, others, owned);
            assert(count_shooting_chains(world.shooting_chains, entity) <= 1);
        }
        assert(landed.wf());
        let retired = landed.retire_generated();
        let retire = |segment: ChainSegment| segment.spec_retire();
        assert forall|i: int| 0 <= i < retired.segments.len() implies (
        #[trigger] retired.segments[i]).entity == landed.segments[i].entity by {}
        assert forall|entity: Entity| #[trigger] count_segments(retired.segments, entity) <= 1 by {
            let is_entity = |segment: ChainSegment| segment.entity == entity;
            lemma_filter_of_map(landed.segments, retire, is_entity);
            assert(count_segments(landed.segments, entity) <= 1);
        }
        assert(retired.wf());
        lemma_convert_chain_to_parts_preserves_wf(
            retired,
            hit.start_pos,
            hit.end_pos,
            world.player_chain,
            true,
        );
    }
}

/// Advancing the links on their way out keeps the world well-formed.
pub proof fn lemma_handle_despawn_timer_preserves_wf(world: WorldState, delta: u64)
    requires
        world.wf(),
    ensures
        world.handle_despawn_timer(delta).wf(),
{
    let after = world.handle_despawn_timer(delta);
    let tick = |segment: ChainSegment| segment.spec_tick_despawn(delta);
    let stays = |segment: ChainSegment| segment.spec_stays();
    let ticked = world.segments.map_values(tick);
    lemma_filter_elements(ticked, stays);
    assert forall|i: int| 0 <= i < after.segments.len() implies exists|k: int|
        0 <= k < world.segments.len() && (#[trigger] after.segments[i]).entity
            == world.segments[k].entity by {
        let k = choose|k: int| 0 <= k < ticked.len() && ticked[k] == after.segments[i];
        assert(ticked[k].entity == world.segments[k].entity);
    }
    assert forall|i: int| 0 <= i < after.segments.len() implies (
    #[trigger] after.segments[i]).entity < after.next_entity by {
        let k = choose|k: int|
            0 <= k < world.segments.len() && after.segments[i].entity == world.segments[k].entity;
        assert(world.segments[k].entity < world.next_entity);
    }
    assert forall|i: int, j: int|
        0 <= i < after.segments.len() && 0 <= j < after.riders.len() implies (
    #[trigger] after.segments[i]).entity != (#[trigger] after.riders[j]).entity by {
        let k = choose|k: int|
            0 <= k < world.segments.len() && after.segments[i].entity == world.segments[k].entity;
        assert(world.segments[k].entity != world.riders[j].entity);
    }
    assert forall|entity: Entity| #[trigger] count_segments(after.segments, entity) <= 1 by {
        let is_entity = |segment: ChainSegment| segment.entity == entity;
        lemma_filter_of_filter_len(ticked, stays, is_entity);
        lemma_filter_of_map(world.segments, tick, is_entity);
        assert(count_segments(world.segments, entity) <= 1);
    }
}

} // verus!
