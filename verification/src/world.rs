//! The state of the rope mechanic: chain segments, the joints between them,
//! the riders and their tethers, and the grapples in flight.
//!
//! The host owns bodies, collisions and rays. It tells the world what
//! happened, and mirrors what the world holds into its physics backend.

use vstd::prelude::*;
use crate::chain::Attachment;
use crate::chain::CanAttachChain;
use crate::chain::ChainBundle;
use crate::chain::ChainPart;
use crate::physics::CollisionLayers;
use crate::physics::DistanceJoint;
use crate::physics::Entity;
use crate::physics::GravityScale;
use crate::physics::RevoluteJoint;
use crate::physics::Rotation;
use crate::player_chain::CanShootChain;
use crate::player_chain::DespawnTimer;
use crate::player_chain::ShootingChainBundle;

verus! {

/// One link of a chain.
#[derive(Debug, PartialEq, Eq)]
pub struct ChainSegment {
    pub entity: Entity,
    pub bundle: ChainBundle,
    /// The link is the anchor that its chain hangs from.
    pub pivot: bool,
    /// The link came from a grapple, not from the map.
    pub generated: bool,
    /// Set once the link is on its way out.
    pub despawn_timer: Option<DespawnTimer>,
}

/// The hinge that hangs a link from the link before it.
#[derive(Debug, PartialEq, Eq)]
pub struct SegmentJoint {
    pub joint: RevoluteJoint,
    pub chain_part: ChainPart,
    /// The hinge came from a grapple, not from the map.
    pub generated: bool,
}

/// An entity that chains can carry.
#[derive(Debug, PartialEq, Eq)]
pub struct Rider {
    pub entity: Entity,
    /// Set for a rider that takes hold of chains it touches.
    pub can_attach: Option<CanAttachChain>,
    /// Set for a rider that can shoot a grapple.
    pub can_shoot: Option<CanShootChain>,
    pub attachment: Attachment,
    pub gravity_scale: GravityScale,
    pub layers: CollisionLayers,
    pub rotation: Rotation,
    pub grounded: bool,
    pub jumping: bool,
}

/// Everything the mechanic keeps track of.
#[derive(Debug, PartialEq, Eq)]
pub struct World {
    /// The next entity to hand out; every entity of the world is below it.
    pub next_entity: Entity,
    /// The tag of chains that a grapple leaves behind.
    pub player_chain: ChainPart,
    pub segments: Vec<ChainSegment>,
    pub joints: Vec<SegmentJoint>,
    /// The joints that hold riders to the links they grabbed.
    pub tethers: Vec<DistanceJoint>,
    pub riders: Vec<Rider>,
    pub shooting_chains: Vec<ShootingChainBundle>,
}

/// The world as a mathematical value.
pub struct WorldState {
    pub next_entity: Entity,
    pub player_chain: ChainPart,
    pub segments: Seq<ChainSegment>,
    pub joints: Seq<SegmentJoint>,
    pub tethers: Seq<DistanceJoint>,
    pub riders: Seq<Rider>,
    pub shooting_chains: Seq<ShootingChainBundle>,
}

impl View for World {
    type V = WorldState;

    open spec fn view(&self) -> WorldState {
        WorldState {
            next_entity: self.next_entity,
            player_chain: self.player_chain,
            segments: self.segments@,
            joints: self.joints@,
            tethers: self.tethers@,
            riders: self.riders@,
            shooting_chains: self.shooting_chains@,
        }
    }
}

/// The text of the tag that grapple chains carry.
pub open spec fn player_chain_id() -> Seq<char> {
    "player_chain"@
}

/// Index of the first segment that is `entity`, from `from` on.
pub open spec fn find_segment_from(segments: Seq<ChainSegment>, entity: Entity, from: int) -> Option<
    int,
>
    decreases segments.len() - from,
{
    if from < 0 || from >= segments.len() {
        None
    } else if segments[from].entity == entity {
        Some(from)
    } else {
        find_segment_from(segments, entity, from + 1)
    }
}

/// Index of the first rider that is `entity`, from `from` on.
pub open spec fn find_rider_from(riders: Seq<Rider>, entity: Entity, from: int) -> Option<int>
    decreases riders.len() - from,
{
    if from < 0 || from >= riders.len() {
        None
    } else if riders[from].entity == entity {
        Some(from)
    } else {
        find_rider_from(riders, entity, from + 1)
    }
}

/// Number of segments that are `entity`.
pub open spec fn count_segments(segments: Seq<ChainSegment>, entity: Entity) -> nat {
    segments.filter(|segment: ChainSegment| segment.entity == entity).len()
}

/// Number of grapples in flight that `entity` shot.
pub open spec fn count_shooting_chains(chains: Seq<ShootingChainBundle>, entity: Entity) -> nat {
    chains.filter(|chain: ShootingChainBundle| chain.attached_entity.0 == entity).len()
}

/// Number of tethers that hold `entity`.
pub open spec fn count_tethers(tethers: Seq<DistanceJoint>, entity: Entity) -> nat {
    tethers.filter(|joint: DistanceJoint| joint.spec_references(entity)).len()
}

impl WorldState {
    /// Index of the segment that is `entity`.
    pub open spec fn find_segment(self, entity: Entity) -> Option<int> {
        find_segment_from(self.segments, entity, 0)
    }

    /// Index of the rider that is `entity`.
    pub open spec fn find_rider(self, entity: Entity) -> Option<int> {
        find_rider_from(self.riders, entity, 0)
    }

    /// The entities of the links of the chain tagged `chain_id`, in the
    /// order in which the world holds them.
    pub open spec fn segments_of(self, chain_id: Seq<char>) -> Seq<Entity> {
        self.segments.filter(
            |segment: ChainSegment| segment.bundle.chain_part.0@ == chain_id,
        ).map_values(|segment: ChainSegment| segment.entity)
    }

    /// The hinges that came from a grapple, in the order in which the world
    /// holds them.
    pub open spec fn generated_joints(self) -> Seq<RevoluteJoint> {
        self.joints.filter(|joint: SegmentJoint| joint.generated).map_values(
            |joint: SegmentJoint| joint.joint,
        )
    }

    /// The grapple that `entity` has in flight, if it has one.
    pub open spec fn shooting_chain_of(self, entity: Entity) -> Option<ShootingChainBundle> {
        let owned = self.shooting_chains.filter(
            |chain: ShootingChainBundle| chain.attached_entity.0 == entity,
        );
        if owned.len() > 0 {
            Some(owned[0])
        } else {
            None
        }
    }

    /// The world can still hand out `count` entities.
    pub open spec fn has_room(self, count: nat) -> bool {
        self.next_entity + count <= u64::MAX
    }

    /// What holds of every world that grew out of an empty one: entities are
    /// told apart by their identifiers; a rider is held by exactly one
    /// tether while it is attached and by none otherwise; an attached rider is
    /// under the gravity and on the layers of riding; and nobody has two
    /// grapples in flight.
    pub open spec fn wf(self) -> bool {
        &&& self.player_chain.0@ == player_chain_id()
        &&& forall|i: int|
            0 <= i < self.segments.len() ==> (#[trigger] self.segments[i]).entity
                < self.next_entity
        &&& forall|i: int|
            0 <= i < self.riders.len() ==> (#[trigger] self.riders[i]).entity < self.next_entity
        &&& forall|entity: Entity| #[trigger] count_segments(self.segments, entity) <= 1
        &&& forall|i: int, j: int|
            0 <= i < j < self.riders.len() ==> (#[trigger] self.riders[i]).entity != (
            #[trigger] self.riders[j]).entity
        &&& forall|i: int, j: int|
            0 <= i < self.segments.len() && 0 <= j < self.riders.len() ==> (
            #[trigger] self.segments[i]).entity != (#[trigger] self.riders[j]).entity
        &&& forall|i: int|
            0 <= i < self.tethers.len() ==> (#[trigger] self.tethers[i]).entity1
                < self.next_entity && self.tethers[i].entity2 < self.next_entity
        &&& forall|i: int, j: int|
            0 <= i < self.tethers.len() && 0 <= j < self.riders.len() ==> (
            #[trigger] self.tethers[i]).entity1 != (#[trigger] self.riders[j]).entity
        &&& forall|i: int|
            0 <= i < self.riders.len() ==> count_tethers(
                self.tethers,
                (#[trigger] self.riders[i]).entity,
            ) == if self.riders[i].attachment is Attached {
                1nat
            } else {
                0nat
            }
        &&& forall|i: int|
            0 <= i < self.riders.len() && (#[trigger] self.riders[i]).attachment is Attached
                ==> self.riders[i].gravity_scale == GravityScale(1_000) && self.riders[i].layers
                == crate::chain::spec_riding_layers()
        &&& forall|entity: Entity| #[trigger]
            count_shooting_chains(self.shooting_chains, entity) <= 1
    }

    /// The world with one more rider, free and upright, under the gravity of
    /// a falling body, on the default layers. Nothing is added when the world
    /// has no entity left for it.
    pub open spec fn spawn_rider(
        self,
        can_attach: Option<CanAttachChain>,
        can_shoot: Option<CanShootChain>,
    ) -> WorldState {
        if self.has_room(1) {
            WorldState {
                next_entity: (self.next_entity + 1) as Entity,
                riders: self.riders.push(
                    Rider {
                        entity: self.next_entity,
                        can_attach,
                        can_shoot,
                        attachment: Attachment::Unattached,
                        gravity_scale: GravityScale(2_000),
                        layers: CollisionLayers::spec_default(),
                        rotation: Rotation::spec_identity(),
                        grounded: false,
                        jumping: false,
                    },
                ),
                ..self
            }
        } else {
            self
        }
    }

    /// The world in which the host has seen the rider `entity` turned by
    /// `rotation`, on the ground or not, jumping or not. A world without that
    /// rider stays as it is.
    pub open spec fn sync_rider(
        self,
        entity: Entity,
        rotation: Rotation,
        grounded: bool,
        jumping: bool,
    ) -> WorldState {
        match self.find_rider(entity) {
            Some(rider) => WorldState {
                riders: self.riders.update(
                    rider,
                    Rider { rotation, grounded, jumping, ..self.riders[rider] },
                ),
                ..self
            },
            None => self,
        }
    }
}

impl World {
    /// An empty world.
    pub fn new() -> (world: World)
        ensures
            world@.next_entity == 0,
            world@.player_chain.0@ == player_chain_id(),
            world@.segments.len() == 0,
            world@.joints.len() == 0,
            world@.tethers.len() == 0,
            world@.riders.len() == 0,
            world@.shooting_chains.len() == 0,
            world@.wf(),
    {
        World {
            next_entity: 0,
            player_chain: ChainPart("player_chain".to_string()),
            segments: Vec::new(),
            joints: Vec::new(),
            tethers: Vec::new(),
            riders: Vec::new(),
            shooting_chains: Vec::new(),
        }
    }

    /// Adds a rider to the world and returns its entity, see
    /// [`WorldState::spawn_rider`].
    pub fn spawn_rider(
        &mut self,
        can_attach: Option<CanAttachChain>,
        can_shoot: Option<CanShootChain>,
    ) -> (entity: Option<Entity>)
        ensures
            final(self)@ == old(self)@.spawn_rider(can_attach, can_shoot),
            old(self)@.wf() ==> final(self)@.wf(),
            entity == if old(self)@.has_room(1) {
                Some(old(self)@.next_entity)
            } else {
                None
            },
    {
        proof {
            if old(self)@.wf() {
                crate::wellformed::lemma_spawn_rider_preserves_wf(old(self)@, can_attach, can_shoot);
            }
        }
        if self.next_entity == u64::MAX {
            return None;
        }
        let entity = self.next_entity;
        self.riders.push(
            Rider {
                entity,
                can_attach,
                can_shoot,
                attachment: Attachment::Unattached,
                gravity_scale: GravityScale(2_000),
                layers: CollisionLayers::default_layers(),
                rotation: Rotation::identity(),
                grounded: false,
                jumping: false,
            },
        );
        self.next_entity = entity + 1;
        Some(entity)
    }

    /// Takes note of what the host has seen of a rider, see
    /// [`WorldState::sync_rider`].
    pub fn sync_rider(&mut self, entity: Entity, rotation: Rotation, grounded: bool, jumping: bool)
        ensures
            final(self)@ == old(self)@.sync_rider(entity, rotation, grounded, jumping),
            old(self)@.wf() ==> final(self)@.wf(),
    {
        proof {
            if old(self)@.wf() {
                crate::wellformed::lemma_sync_rider_preserves_wf(
                    old(self)@,
                    entity,
                    rotation,
                    grounded,
                    jumping,
                );
            }
        }
        if let Some(rider) = self.find_rider(entity) {
            let old_rider = &self.riders[rider];
            let new_rider = Rider {
                entity: old_rider.entity,
                can_attach: old_rider.can_attach,
                can_shoot: old_rider.can_shoot,
                attachment: old_rider.attachment.clone(),
                gravity_scale: old_rider.gravity_scale,
                layers: old_rider.layers,
                rotation,
                grounded,
                jumping,
            };
            self.riders.set(rider, new_rider);
        }
    }

    /// Lists the entities of the links of the chain tagged `chain_id`, see
    /// [`WorldState::segments_of`].
    pub fn segments_of(&self, chain_id: &ChainPart) -> (entities: Vec<Entity>)
        ensures
            entities@ == self@.segments_of(chain_id.0@),
    {
        let ghost tagged = |segment: ChainSegment| segment.bundle.chain_part.0@ == chain_id.0@;
        let ghost entity_of = |segment: ChainSegment| segment.entity;
        let mut entities: Vec<Entity> = Vec::new();
        let mut i: usize = 0;
        while i < self.segments.len()
            invariant
                i <= self.segments.len(),
                tagged == |segment: ChainSegment| segment.bundle.chain_part.0@ == chain_id.0@,
                entity_of == |segment: ChainSegment| segment.entity,
                entities@ == self.segments@.take(i as int).filter(tagged).map_values(entity_of),
            decreases self.segments.len() - i,
        {
            proof {
                lemma_take_push(self.segments@, i as int);
                self.segments@.take(i as int).lemma_filter_push(self.segments@[i as int], tagged);
                assert(self.segments@.take(i as int).filter(tagged).push(
                    self.segments@[i as int],
                ).map_values(entity_of) =~= self.segments@.take(i as int).filter(
                    tagged,
                ).map_values(entity_of).push(self.segments@[i as int].entity));
            }
            if self.segments[i].bundle.chain_part.0 == chain_id.0 {
                entities.push(self.segments[i].entity);
            }
            i += 1;
        }
        assert(self.segments@.take(self.segments.len() as int) =~= self.segments@);
        entities
    }

    /// Lists the hinges that came from a grapple, see
    /// [`WorldState::generated_joints`].
    pub fn generated_joints(&self) -> (joints: Vec<RevoluteJoint>)
        ensures
            joints@ == self@.generated_joints(),
    {
        let ghost generated = |joint: SegmentJoint| joint.generated;
        let ghost joint_of = |joint: SegmentJoint| joint.joint;
        let mut joints: Vec<RevoluteJoint> = Vec::new();
        let mut i: usize = 0;
        while i < self.joints.len()
            invariant
                i <= self.joints.len(),
                generated == |joint: SegmentJoint| joint.generated,
                joint_of == |joint: SegmentJoint| joint.joint,
                joints@ == self.joints@.take(i as int).filter(generated).map_values(joint_of),
            decreases self.joints.len() - i,
        {
            proof {
                lemma_take_push(self.joints@, i as int);
                self.joints@.take(i as int).lemma_filter_push(self.joints@[i as int], generated);
                assert(self.joints@.take(i as int).filter(generated).push(
                    self.joints@[i as int],
                ).map_values(joint_of) =~= self.joints@.take(i as int).filter(
                    generated,
                ).map_values(joint_of).push(self.joints@[i as int].joint));
            }
            if self.joints[i].generated {
                joints.push(self.joints[i].joint);
            }
            i += 1;
        }
        assert(self.joints@.take(self.joints.len() as int) =~= self.joints@);
        joints
    }

    /// Looks up the grapple that `entity` has in flight, see
    /// [`WorldState::shooting_chain_of`].
    pub fn shooting_chain_of(&self, entity: Entity) -> (chain: Option<ShootingChainBundle>)
        ensures
            chain == self@.shooting_chain_of(entity),
    {
        let ghost owned = |chain: ShootingChainBundle| chain.attached_entity.0 == entity;
        let mut i: usize = 0;
        while i < self.shooting_chains.len()
            invariant
                i <= self.shooting_chains.len(),
                owned == |chain: ShootingChainBundle| chain.attached_entity.0 == entity,
                self.shooting_chains@.take(i as int).filter(owned).len() == 0,
            decreases self.shooting_chains.len() - i,
        {
            proof {
                lemma_take_push(self.shooting_chains@, i as int);
                self.shooting_chains@.take(i as int).lemma_filter_push(
                    self.shooting_chains@[i as int],
                    owned,
                );
            }
            if self.shooting_chains[i].attached_entity.0 == entity {
                proof {
                    let found = self.shooting_chains@.take(i as int).push(
                        self.shooting_chains@[i as int],
                    );
                    let rest = self.shooting_chains@.skip(i as int + 1);
                    assert(found + rest =~= self.shooting_chains@);
                    Seq::filter_distributes_over_add(found, rest, owned);
                    assert(found.filter(owned) =~= seq![self.shooting_chains@[i as int]]);
                }
                return Some(self.shooting_chains[i]);
            }
            i += 1;
        }
        assert(self.shooting_chains@.take(self.shooting_chains.len() as int)
            =~= self.shooting_chains@);
        None
    }

    /// Looks up the segment that is `entity`.
    pub fn find_segment(&self, entity: Entity) -> (index: Option<usize>)
        ensures
            index.is_some() == self@.find_segment(entity).is_some(),
            index matches Some(i) ==> self@.find_segment(entity) == Some(i as int) && i
                < self.segments.len() && self.segments[i as int].entity == entity,
    {
        let mut i: usize = 0;
        while i < self.segments.len()
            invariant
                i <= self.segments.len(),
                find_segment_from(self.segments@, entity, 0) == find_segment_from(
                    self.segments@,
                    entity,
                    i as int,
                ),
            decreases self.segments.len() - i,
        {
            if self.segments[i].entity == entity {
                return Some(i);
            }
            i += 1;
        }
        None
    }

    /// Looks up the rider that is `entity`.
    pub fn find_rider(&self, entity: Entity) -> (index: Option<usize>)
        ensures
            index.is_some() == self@.find_rider(entity).is_some(),
            index matches Some(i) ==> self@.find_rider(entity) == Some(i as int) && i
                < self.riders.len() && self.riders[i as int].entity == entity,
    {
        let mut i: usize = 0;
        while i < self.riders.len()
            invariant
                i <= self.riders.len(),
                find_rider_from(self.riders@, entity, 0) == find_rider_from(
                    self.riders@,
                    entity,
                    i as int,
                ),
            decreases self.riders.len() - i,
        {
            if self.riders[i].entity == entity {
                return Some(i);
            }
            i += 1;
        }
        None
    }
}

} // verus!

verus! {

/// The first `i + 1` elements of a sequence are its first `i` and the next.
pub proof fn lemma_take_push<A>(s: Seq<A>, i: int)
    requires
        0 <= i < s.len(),
    ensures
        s.take(i + 1) == s.take(i).push(s[i]),
{
    assert(s.take(i + 1) =~= s.take(i).push(s[i]));
}

impl Clone for ChainSegment {
    fn clone(&self) -> (copy: ChainSegment)
        ensures
            copy == *self,
    {
        ChainSegment {
            entity: self.entity,
            bundle: self.bundle.clone(),
            pivot: self.pivot,
            generated: self.generated,
            despawn_timer: self.despawn_timer,
        }
    }
}

impl Clone for SegmentJoint {
    fn clone(&self) -> (copy: SegmentJoint)
        ensures
            copy == *self,
    {
        SegmentJoint {
            joint: self.joint,
            chain_part: self.chain_part.clone(),
            generated: self.generated,
        }
    }
}

impl Clone for Rider {
    fn clone(&self) -> (copy: Rider)
        ensures
            copy == *self,
    {
        Rider {
            entity: self.entity,
            can_attach: self.can_attach,
            can_shoot: self.can_shoot,
            attachment: self.attachment.clone(),
            gravity_scale: self.gravity_scale,
            layers: self.layers,
            rotation: self.rotation,
            grounded: self.grounded,
            jumping: self.jumping,
        }
    }
}

} // verus!
