//! The order of a frame: what the player asked for comes first, then what
//! the physics backend reported, then the timers. A rider that lets go and
//! touches its chain in the same frame has let go by the time the touch is
//! looked at.

use vstd::prelude::*;
use crate::chain_movement::PlayerChainEvent;
use crate::laws::lemma_find_rider_first;
use crate::laws::lemma_find_rider_update;
use crate::laws::lemma_find_segment_first;
use crate::math::Vec2;
use crate::physics::Entity;
use crate::player_chain::ChainHitEnd;
use crate::player_chain::ShootChain;
use crate::world::World;
use crate::world::WorldState;

verus! {

/// A link and another entity have begun to touch.
#[derive(Clone, Copy, Debug, PartialEq, Eq, Structural)]
pub struct Collision {
    pub chain_entity: Entity,
    pub other_entity: Entity,
}

/// A shot, with what the host found out for it: where the shooter stands,
/// and how far a ray from there toward the point aimed at goes before it
/// hits something.
#[derive(Clone, Copy, Debug, PartialEq, Eq, Structural)]
pub struct Shot {
    pub event: ShootChain,
    pub player: Entity,
    pub origin_point: Vec2,
    pub hit: Option<u64>,
}

impl WorldState {
    /// The world after the collisions of a frame, looked at in the order in
    /// which they were reported.
    pub open spec fn observe_chain_collisions(self, collisions: Seq<Collision>) -> WorldState
        decreases collisions.len(),
    {
        if collisions.len() == 0 {
            self
        } else {
            self.observe_chain_collisions(collisions.drop_last()).observe_chain_collision(
                collisions.last().chain_entity,
                collisions.last().other_entity,
            )
        }
    }

    /// The world after the first half of a frame of `delta` nanoseconds:
    /// the player that asked to let go has let go, a shot has been answered,
    /// and the grapples in flight have grown.
    pub open spec fn handle_commands(
        self,
        delta: u64,
        leave: Option<Entity>,
        shot: Option<Shot>,
    ) -> WorldState {
        let left = match leave {
            Some(player) => self.handle_player_chain_event(PlayerChainEvent::LeaveChain, player),
            None => self,
        };
        let shooting = match shot {
            Some(shot) => left.read_shoot_chain_event(
                Some(shot.event),
                shot.player,
                shot.origin_point,
                shot.hit,
            ),
            None => left,
        };
        shooting.update_shooting_chain(delta)
    }

    /// The world after the second half of a frame of `delta` nanoseconds:
    /// an impact has turned its grapple into a chain, the collisions have
    /// been looked at, and the timers have been advanced.
    pub open spec fn handle_reactions(
        self,
        delta: u64,
        impact: Option<ChainHitEnd>,
        collisions: Seq<Collision>,
    ) -> WorldState {
        self.convert_chain(impact).observe_chain_collisions(
            collisions,
        ).process_chain_immunity_timer(delta).handle_despawn_timer(delta)
    }
}

impl World {
    /// Looks at the collisions of a frame, in the order in which they were
    /// reported, see [`WorldState::observe_chain_collisions`].
    pub fn observe_chain_collisions(&mut self, collisions: &Vec<Collision>)
        ensures
            final(self)@ == old(self)@.observe_chain_collisions(collisions@),
            old(self)@.wf() ==> final(self)@.wf(),
    {
        let mut i: usize = 0;
        while i < collisions.len()
            invariant
                i <= collisions.len(),
                self@ == old(self)@.observe_chain_collisions(collisions@.take(i as int)),
                old(self)@.wf() ==> self@.wf(),
            decreases collisions.len() - i,
        {
            assert(collisions@.take(i + 1).drop_last() =~= collisions@.take(i as int));
            self.observe_chain_collision(collisions[i].chain_entity, collisions[i].other_entity);
            i += 1;
        }
        assert(collisions@.take(collisions.len() as int) =~= collisions@);
    }

    /// Runs the first half of a frame, see [`WorldState::handle_commands`].
    /// The host casts its rays between the two halves.
    pub fn handle_commands(&mut self, delta: u64, leave: Option<Entity>, shot: Option<Shot>)
        ensures
            final(self)@ == old(self)@.handle_commands(delta, leave, shot),
            old(self)@.wf() ==> final(self)@.wf(),
    {
        if let Some(player) = leave {
            self.handle_player_chain_event(PlayerChainEvent::LeaveChain, player);
        }
        if let Some(shot) = shot {
            self.read_shoot_chain_event(Some(shot.event), shot.player, shot.origin_point, shot.hit);
        }
        self.update_shooting_chain(delta);
    }

    /// Runs the second half of a frame, see
    /// [`WorldState::handle_reactions`].
    pub fn handle_reactions(
        &mut self,
        delta: u64,
        impact: Option<ChainHitEnd>,
        collisions: &Vec<Collision>,
    )
        ensures
            final(self)@ == old(self)@.handle_reactions(delta, impact, collisions@),
            old(self)@.wf() ==> final(self)@.wf(),
    {
        self.convert_chain(impact);
        self.observe_chain_collisions(collisions);
        self.process_chain_immunity_timer(delta);
        self.handle_despawn_timer(delta);
    }
}

/// A rider that is immune to the chain of a link does not take hold of it,
/// however often the two touch.
pub proof fn lemma_immune_rider_stays_off(world: WorldState, collisions: Seq<Collision>, rider: int)
    requires
        0 <= rider < world.riders.len(),
        world.find_rider(world.riders[rider].entity) == Some(rider),
        world.riders[rider].attachment is Immune,
        forall|i: int|
            0 <= i < collisions.len() ==> (#[trigger] collisions[i]).other_entity
                == world.riders[rider].entity && match world.find_segment(
                collisions[i].chain_entity,
            ) {
                Some(segment) => world.segments[segment].bundle.chain_part.0@
                    == world.riders[rider].attachment->Immune_0.chain_id@,
                None => true,
            },
    ensures
        world.observe_chain_collisions(collisions) == world,
    decreases collisions.len(),
{
    if collisions.len() > 0 {
        let earlier = collisions.drop_last();
        assert forall|i: int| 0 <= i < earlier.len() implies (#[trigger] earlier[i]).other_entity
            == world.riders[rider].entity && match world.find_segment(earlier[i].chain_entity) {
            Some(segment) => world.segments[segment].bundle.chain_part.0@
                == world.riders[rider].attachment->Immune_0.chain_id@,
            None => true,
        } by {
            assert(earlier[i] == collisions[i]);
        }
        lemma_immune_rider_stays_off(world, earlier, rider);
        assert(collisions.last() == collisions[collisions.len() - 1]);
        lemma_find_segment_first(world.segments, collisions.last().chain_entity, 0);
    }
}

/// Letting go comes before taking hold: a player that hangs from a chain,
/// asks to let go and touches links of that chain in the same frame is
/// immune to the chain when the touches are looked at, and so does not take
/// hold of it again.
pub proof fn lemma_detach_before_attach(
    world: WorldState,
    delta: u64,
    player: Entity,
    collisions: Seq<Collision>,
)
    requires
        world.find_rider(player) is Some,
        world.riders[world.find_rider(player)->Some_0].attachment is Attached,
        forall|i: int|
            0 <= i < collisions.len() ==> (#[trigger] collisions[i]).other_entity == player
                && match world.find_segment(collisions[i].chain_entity) {
                Some(segment) => world.segments[segment].bundle.chain_part.0@
                    == world.riders[world.find_rider(
                    player,
                )->Some_0].attachment->Attached_0.0@,
                None => true,
            },
    ensures
        ({
            let left = world.handle_player_chain_event(PlayerChainEvent::LeaveChain, player);
            let after = world.handle_commands(delta, Some(player), None).observe_chain_collisions(
                collisions,
            );
            &&& after.riders == left.riders
            &&& after.tethers == left.tethers
            &&& after.riders[world.find_rider(player)->Some_0].attachment is Immune
        }),
{
    let rider = world.find_rider(player)->Some_0;
    lemma_find_rider_first(world.riders, player, 0);
    let left = world.handle_player_chain_event(PlayerChainEvent::LeaveChain, player);
    let grown = left.update_shooting_chain(delta);
    lemma_find_rider_update(world.riders, player, rider, left.riders[rider]);
    assert(grown.find_rider(player) == Some(rider));
    assert(grown.segments == world.segments);
    lemma_immune_rider_stays_off(grown, collisions, rider);
}

} // verus!
