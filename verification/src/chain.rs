//! Chains: how one is laid out between two points, how a rider takes hold of
//! one, and how long a rider that let go stays clear of it.

use vstd::prelude::*;
use crate::chain_movement::GameLayer;
use crate::math::clamp_coordinate;
use crate::math::clamp_to_coordinate;
use crate::math::Dir2;
use crate::math::Vec2;
use crate::physics::AngleLimit;
use crate::physics::Collider;
use crate::physics::CollisionEventsEnabled;
use crate::physics::CollisionLayers;
use crate::physics::DistanceJoint;
use crate::physics::DistanceLimit;
use crate::physics::Entity;
use crate::physics::GravityScale;
use crate::physics::LayerMask;
use crate::physics::MassPropertiesBundle;
use crate::physics::RevoluteJoint;
use crate::physics::RigidBody;
use crate::physics::Rotation;
use crate::physics::Transform;
use crate::timer::Timer;
use crate::wellformed::lemma_convert_chain_to_parts_preserves_wf;
use crate::wellformed::lemma_observe_chain_collision_preserves_wf;
use crate::wellformed::lemma_process_chain_immunity_timer_preserves_wf;
use crate::wellformed::lemma_process_chain_preserves_wf;
use crate::world::ChainSegment;
use crate::world::Rider;
use crate::world::SegmentJoint;
use crate::world::World;
use crate::world::WorldState;

verus! {

/// Length of a chain that makes one link, in thousandths of a unit.
pub const CHAIN_SIZE: u32 = 160;

/// How much larger than its scale the picture of a link is drawn.
pub const CHAIN_IMAGE_SIZE: u32 = 100;

/// Side of the picture of a link, in units.
pub const INTENDED_CHAIN_SIZE: u32 = 100;

/// Distance between two neighbouring links, in thousandths of a unit.
pub const CHAIN_STEP: u64 = 16_000;

/// How far a hinge between two links may turn either way, in thousandths of
/// a radian. Tuned for the backend in use: wide enough to swing, narrow
/// enough to keep the links in line.
pub const JOINT_ANGLE_LIMIT: i32 = 10;

/// Softness of a hinge between two links, in billionths. Tuned for the
/// backend in use: just enough give that the links do not fly apart.
pub const JOINT_COMPLIANCE: u32 = 1_000;

/// Least distance that a tether keeps between rider and link, in thousandths
/// of a unit.
pub const TETHER_MIN: u32 = 1_000;

/// Greatest distance that a tether allows between rider and link, in
/// thousandths of a unit.
pub const TETHER_MAX: u32 = 5_000;

/// Gravity on a rider that hangs from a chain, in thousandths.
pub const ATTACHED_GRAVITY_SCALE: u32 = 1_000;

/// For how long a rider that let go of a chain cannot grab it again, in
/// seconds.
pub const IMMUNITY_SECONDS: u64 = 1;

/// Marks an entity that takes hold of chains it touches.
#[derive(Clone, Copy, Debug, PartialEq, Eq, Structural)]
pub struct CanAttachChain;

/// The rider hangs from the chain of this tag, which moves it now.
#[derive(Debug, PartialEq, Eq)]
pub struct ConnectedChain(pub String);

/// The rider cannot attach to the chain of this tag until the timer has
/// finished.
#[derive(Debug, PartialEq, Eq)]
pub struct ChainImmunity {
    pub timer: Timer,
    pub chain_id: String,
}

/// Tag of the chain that an entity is part of.
#[derive(Debug, PartialEq, Eq)]
pub struct ChainPart(pub String);

/// Whether a rider is free, hangs from a chain, or has just let go of one.
#[derive(Debug, PartialEq, Eq)]
pub enum Attachment {
    Unattached,
    Attached(ConnectedChain),
    Immune(ChainImmunity),
}

/// Which picture a link is drawn with.
#[derive(Clone, Copy, Debug, PartialEq, Eq, Structural)]
pub enum ChainImage {
    Chain,
    Pivot,
    Final,
}

/// How an entity is drawn: its picture, the size it is stretched to in
/// thousandths of a unit, and whether the picture repeats along its length.
#[derive(Clone, Copy, Debug, PartialEq, Eq, Structural)]
pub struct Sprite {
    pub image: ChainImage,
    pub custom_size: Vec2,
    pub tiled: bool,
}

/// What makes an entity a link of a chain.
#[derive(Debug, PartialEq, Eq)]
pub struct ChainBundle {
    pub sprite: Sprite,
    pub rigid_body: RigidBody,
    pub collider: Collider,
    pub transform: Transform,
    pub mass_properties_bundle: MassPropertiesBundle,
    pub collision_event_enabled: CollisionEventsEnabled,
    pub chain_part: ChainPart,
    pub chain_layer: CollisionLayers,
}

impl Clone for ChainPart {
    fn clone(&self) -> (copy: ChainPart)
        ensures
            copy == *self,
    {
        ChainPart(self.0.clone())
    }
}

impl Clone for ConnectedChain {
    fn clone(&self) -> (copy: ConnectedChain)
        ensures
            copy == *self,
    {
        ConnectedChain(self.0.clone())
    }
}

impl Clone for ChainImmunity {
    fn clone(&self) -> (copy: ChainImmunity)
        ensures
            copy == *self,
    {
        ChainImmunity { timer: self.timer, chain_id: self.chain_id.clone() }
    }
}

impl Clone for Attachment {
    fn clone(&self) -> (copy: Attachment)
        ensures
            copy == *self,
    {
        match self {
            Attachment::Unattached => Attachment::Unattached,
            Attachment::Attached(connected) => Attachment::Attached(connected.clone()),
            Attachment::Immune(immunity) => Attachment::Immune(immunity.clone()),
        }
    }
}

impl Clone for ChainBundle {
    fn clone(&self) -> (copy: ChainBundle)
        ensures
            copy == *self,
    {
        ChainBundle {
            sprite: self.sprite,
            rigid_body: self.rigid_body,
            collider: self.collider,
            transform: self.transform,
            mass_properties_bundle: self.mass_properties_bundle,
            collision_event_enabled: self.collision_event_enabled,
            chain_part: self.chain_part.clone(),
            chain_layer: self.chain_layer,
        }
    }
}

impl ChainImmunity {
    pub fn new(timer: Timer, chain_id: String) -> (immunity: ChainImmunity)
        ensures
            immunity == (ChainImmunity { timer, chain_id }),
    {
        ChainImmunity { timer, chain_id }
    }
}

impl ChainBundle {
    /// The link that `new` makes of its arguments.
    pub open spec fn spec_new(
        image: ChainImage,
        rigid_body: RigidBody,
        transform: Transform,
        chain_part: ChainPart,
    ) -> ChainBundle {
        ChainBundle {
            sprite: Sprite {
                image,
                custom_size: Vec2 { x: 100_000, y: 100_000 },
                tiled: false,
            },
            rigid_body,
            collider: Collider { width: 1_600, height: 8_000 },
            transform,
            mass_properties_bundle: MassPropertiesBundle {
                width: 10_000,
                height: 50_000,
                density: 20,
            },
            collision_event_enabled: CollisionEventsEnabled,
            chain_part,
            chain_layer: CollisionLayers {
                memberships: LayerMask(GameLayer::ChainLayer.spec_to_bits()),
                filters: LayerMask::spec_all(),
            },
        }
    }

    /// A link with the given picture, body and place: a box ten times as
    /// wide and fifty times as high as a chain's scale, light, reporting its
    /// collisions, on the layer of chains.
    pub fn new(
        image_handle: ChainImage,
        rigid_body: RigidBody,
        transform: Transform,
        chain_part: ChainPart,
    ) -> (bundle: ChainBundle)
        ensures
            bundle == ChainBundle::spec_new(image_handle, rigid_body, transform, chain_part),
    {
        let sprite = Sprite {
            image: image_handle,
            custom_size: Vec2::new(
                (INTENDED_CHAIN_SIZE * 1000) as i32,
                (INTENDED_CHAIN_SIZE * 1000) as i32,
            ),
            tiled: false,
        };
        ChainBundle {
            sprite,
            rigid_body,
            collider: Collider { width: CHAIN_SIZE * 10, height: CHAIN_SIZE * 50 },
            transform,
            mass_properties_bundle: MassPropertiesBundle {
                width: 10_000,
                height: 50_000,
                density: 20,
            },
            collision_event_enabled: CollisionEventsEnabled,
            chain_part,
            chain_layer: CollisionLayers::new(
                LayerMask(GameLayer::ChainLayer.to_bits()),
                LayerMask::all(),
            ),
        }
    }
}

/// `count` is the length of a chain in links: the distance between its ends
/// over [`CHAIN_SIZE`], rounded up. `length_squared` is the square of that
/// distance.
pub open spec fn is_segment_count(length_squared: nat, count: nat) -> bool {
    &&& (count * CHAIN_SIZE) * (count * CHAIN_SIZE) >= length_squared
    &&& count > 0 ==> ((count - 1) * CHAIN_SIZE) * ((count - 1) * CHAIN_SIZE) < length_squared
}

/// Number of links of a chain from `start` to `end`.
pub open spec fn spec_segment_count(start: Vec2, end: Vec2) -> nat {
    choose|count: nat| is_segment_count(start.spec_distance_squared(end), count)
}

/// A distance has exactly one length in links.
pub proof fn lemma_segment_count_unique(length_squared: nat, a: nat, b: nat)
    requires
        is_segment_count(length_squared, a),
        is_segment_count(length_squared, b),
    ensures
        a == b,
{
    if a < b {
        assert((a * CHAIN_SIZE) * (a * CHAIN_SIZE) <= ((b - 1) * CHAIN_SIZE) * ((b - 1)
            * CHAIN_SIZE)) by (nonlinear_arith)
            requires
                a <= b - 1,
        ;
    } else if b < a {
        assert((b * CHAIN_SIZE) * (b * CHAIN_SIZE) <= ((a - 1) * CHAIN_SIZE) * ((a - 1)
            * CHAIN_SIZE)) by (nonlinear_arith)
            requires
                b <= a - 1,
        ;
    }
}

/// Counts the links of a chain from `start` to `end`: none when the two
/// coincide, else the distance over [`CHAIN_SIZE`], rounded up.
pub fn segment_count(start: Vec2, end: Vec2) -> (count: u64)
    ensures
        is_segment_count(start.spec_distance_squared(end), count as nat),
        count == spec_segment_count(start, end),
        count == 0 <==> start == end,
        count <= 0x1_0000_0000,
{
    let length_squared = start.distance_squared(end);
    let size: u128 = 160;
    let mut low: u128 = 0;
    let mut high: u128 = 0x1_0000_0000;
    assert((high * size) * (high * size) >= length_squared) by (nonlinear_arith)
        requires
            high == 0x1_0000_0000u128,
            size == 160u128,
            length_squared <= 0x2_0000_0000_0000_0000u128,
    ;
    while low < high
        invariant
            size == 160,
            low <= high <= 0x1_0000_0000,
            (high * size) * (high * size) >= length_squared,
            low > 0 ==> ((low - 1) * size) * ((low - 1) * size) < length_squared,
        decreases high - low,
    {
        let mid: u128 = low + (high - low) / 2;
        assert((mid * size) * (mid * size) <= u128::MAX) by (nonlinear_arith)
            requires
                mid <= 0x1_0000_0000u128,
                size == 160u128,
        ;
        if (mid * size) * (mid * size) >= length_squared {
            high = mid;
        } else {
            low = mid + 1;
        }
    }
    proof {
        let chosen = spec_segment_count(start, end);
        assert(is_segment_count(start.spec_distance_squared(end), low as nat));
        lemma_segment_count_unique(start.spec_distance_squared(end), low as nat, chosen);
        assert(low > 0 ==> ((low - 1) * size) * ((low - 1) * size) >= 0) by (nonlinear_arith);
        assert(low == 0 ==> (low * size) * (low * size) == 0) by (nonlinear_arith);
    }
    low as u64
}

/// Where the link number `index` of a chain is put: `index` steps from
/// `start` along the chain, turned so that its hanging end points along the
/// chain, at the scale of chains.
pub open spec fn spec_segment_transform(start: Vec2, direction: Dir2, index: nat) -> Transform {
    Transform {
        translation: start.spec_advance(direction, index * CHAIN_STEP as nat),
        rotation: Rotation { from: Dir2::spec_neg_y(), to: direction },
        scale: CHAIN_SIZE,
    }
}

/// The picture of the link number `index` of a chain of `count` links.
pub open spec fn spec_segment_image(index: nat, count: nat) -> ChainImage {
    if index == 0 {
        ChainImage::Pivot
    } else if index + 1 == count {
        ChainImage::Final
    } else {
        ChainImage::Chain
    }
}

/// The link number `index` of a chain of `count` links: the first is the
/// pivot, held in place; every other one is free to swing.
pub open spec fn spec_chain_segment(
    start: Vec2,
    direction: Dir2,
    chain_id: ChainPart,
    generated: bool,
    count: nat,
    first_entity: Entity,
    index: nat,
) -> ChainSegment {
    ChainSegment {
        entity: (first_entity + index) as Entity,
        bundle: ChainBundle::spec_new(
            spec_segment_image(index, count),
            if index == 0 {
                RigidBody::Kinematic
            } else {
                RigidBody::Dynamic
            },
            spec_segment_transform(start, direction, index),
            chain_id,
        ),
        pivot: index == 0,
        generated,
        despawn_timer: None,
    }
}

/// The hinge that hangs the link number `index` from the link before it,
/// anchored at the top of the link.
pub open spec fn spec_chain_joint(
    chain_id: ChainPart,
    generated: bool,
    first_entity: Entity,
    index: nat,
) -> SegmentJoint {
    SegmentJoint {
        joint: RevoluteJoint {
            entity1: (first_entity + index - 1) as Entity,
            entity2: (first_entity + index) as Entity,
            local_anchor2: Vec2 { x: 0, y: 16_000 },
            angle_limit: Some(
                AngleLimit { min: (-JOINT_ANGLE_LIMIT) as i32, max: JOINT_ANGLE_LIMIT },
            ),
            compliance: JOINT_COMPLIANCE,
        },
        chain_part: chain_id,
        generated,
    }
}

impl WorldState {
    /// The world with a chain laid out from `start` to `end`. Nothing is
    /// added when the two points coincide, or when the world has no
    /// entities left for the links.
    pub open spec fn convert_chain_to_parts(
        self,
        start: Vec2,
        end: Vec2,
        chain_id: ChainPart,
        generated: bool,
    ) -> WorldState {
        let count = spec_segment_count(start, end);
        match start.spec_direction_to(end) {
            Some(direction) if self.has_room(count) => WorldState {
                next_entity: (self.next_entity + count) as Entity,
                segments: self.segments + Seq::new(
                    count,
                    |index: int|
                        spec_chain_segment(
                            start,
                            direction,
                            chain_id,
                            generated,
                            count,
                            self.next_entity,
                            index as nat,
                        ),
                ),
                joints: self.joints + Seq::new(
                    (count - 1) as nat,
                    |index: int|
                        spec_chain_joint(chain_id, generated, self.next_entity, (index + 1) as nat),
                ),
                ..self
            },
            _ => self,
        }
    }
}

/// The layers of a rider while it hangs from a chain: it stays on the
/// default layer and no longer meets the layer of chains, so that it does
/// not keep colliding with the link it rides.
pub open spec fn spec_riding_layers() -> CollisionLayers {
    CollisionLayers {
        memberships: LayerMask::spec_default(),
        filters: LayerMask::spec_all().spec_without(GameLayer::ChainLayer.spec_to_bits()),
    }
}

/// The tether that holds `rider` to the link `chain_entity`.
pub open spec fn spec_tether(chain_entity: Entity, rider: Entity) -> DistanceJoint {
    DistanceJoint {
        entity1: chain_entity,
        entity2: rider,
        length_limits: Some(DistanceLimit { min: TETHER_MIN, max: TETHER_MAX }),
    }
}

/// Where the chain of a map entry starts: above the entry's place by half
/// its drawn height.
pub open spec fn spec_import_start(translation: Vec2, scale_y: u32) -> Vec2 {
    Vec2 {
        x: translation.x,
        y: clamp_coordinate(translation.y + scale_y * 50) as i32,
    }
}

/// Where the chain of a map entry ends: below its start by one and a half
/// times the entry's scale, rounded down.
pub open spec fn spec_import_end(translation: Vec2, scale_y: u32) -> Vec2 {
    let start = spec_import_start(translation, scale_y);
    Vec2 { x: start.x, y: clamp_coordinate(start.y - (scale_y * 3) / 2) as i32 }
}

impl Rider {
    /// The rider after a frame of `delta` nanoseconds of its immunity: free
    /// again once the time is up.
    pub open spec fn spec_tick_immunity(self, delta: u64) -> Rider {
        match self.attachment {
            Attachment::Immune(immunity) => {
                let timer = immunity.timer.spec_tick(delta);
                if timer.finished {
                    Rider { attachment: Attachment::Unattached, ..self }
                } else {
                    Rider {
                        attachment: Attachment::Immune(
                            ChainImmunity { timer, chain_id: immunity.chain_id },
                        ),
                        ..self
                    }
                }
            },
            _ => self,
        }
    }

    /// The rider cannot take hold of the chain tagged `chain_id`: it hangs
    /// from a chain already, or has let go of that very chain too recently.
    pub open spec fn spec_refuses(self, chain_id: Seq<char>) -> bool {
        match self.attachment {
            Attachment::Unattached => false,
            Attachment::Attached(_) => true,
            Attachment::Immune(immunity) => immunity.chain_id@ == chain_id,
        }
    }
}

impl WorldState {
    /// The rider and the link that a collision of `chain_entity` with
    /// `other_entity` brings together, by their indices; `None` when the
    /// collision is to be ignored.
    pub open spec fn attaching(self, chain_entity: Entity, other_entity: Entity) -> Option<
        (int, int),
    > {
        match (self.find_rider(other_entity), self.find_segment(chain_entity)) {
            (Some(rider), Some(segment)) => if self.riders[rider].can_attach is Some
                && !self.riders[rider].spec_refuses(self.segments[segment].bundle.chain_part.0@) {
                Some((rider, segment))
            } else {
                None
            },
            _ => None,
        }
    }

    /// The world after the link `chain_entity` and `other_entity` began to
    /// touch.
    pub open spec fn observe_chain_collision(
        self,
        chain_entity: Entity,
        other_entity: Entity,
    ) -> WorldState {
        match self.attaching(chain_entity, other_entity) {
            Some((rider, segment)) => WorldState {
                riders: self.riders.update(
                    rider,
                    Rider {
                        attachment: Attachment::Attached(
                            ConnectedChain(self.segments[segment].bundle.chain_part.0),
                        ),
                        gravity_scale: GravityScale(ATTACHED_GRAVITY_SCALE),
                        layers: spec_riding_layers(),
                        ..self.riders[rider]
                    },
                ),
                tethers: self.tethers.push(spec_tether(chain_entity, other_entity)),
                ..self
            },
            None => self,
        }
    }

    /// The world after a frame of `delta` nanoseconds of every immunity.
    pub open spec fn process_chain_immunity_timer(self, delta: u64) -> WorldState {
        WorldState {
            riders: self.riders.map_values(|rider: Rider| rider.spec_tick_immunity(delta)),
            ..self
        }
    }

    /// The world with the chain of a map entry laid out.
    pub open spec fn process_chain(
        self,
        translation: Vec2,
        scale_y: u32,
        chain_id: ChainPart,
    ) -> WorldState {
        self.convert_chain_to_parts(
            spec_import_start(translation, scale_y),
            spec_import_end(translation, scale_y),
            chain_id,
            false,
        )
    }
}

impl World {
    /// Lays out a chain from `start_chain` to `end_chain`: one link for
    /// every [`CHAIN_SIZE`] of distance, rounded up, [`CHAIN_STEP`] apart.
    /// The first link is the pivot; each later one hangs from the one before
    /// it by a hinge.
    pub fn convert_chain_to_parts(
        &mut self,
        start_chain: Vec2,
        end_chain: Vec2,
        chain_id: &ChainPart,
        generated_chain: bool,
    )
        ensures
            final(self)@ == old(self)@.convert_chain_to_parts(
                start_chain,
                end_chain,
                *chain_id,
                generated_chain,
            ),
            old(self)@.wf() ==> final(self)@.wf(),
    {
        proof {
            if old(self)@.wf() {
                lemma_convert_chain_to_parts_preserves_wf(
                    old(self)@,
                    start_chain,
                    end_chain,
                    *chain_id,
                    generated_chain,
                );
            }
        }
        let max_value = segment_count(start_chain, end_chain);
        let direction = match start_chain.direction_to(end_chain) {
            Some(direction) => direction,
            None => {
                return ;
            },
        };
        if max_value > u64::MAX - self.next_entity {
            return ;
        }
        let ghost before = self@;
        let first_entity = self.next_entity;
        let mut value: u64 = 0;
        while value < max_value
            invariant
                value <= max_value <= 0x1_0000_0000,
                max_value == spec_segment_count(start_chain, end_chain),
                max_value >= 1,
                first_entity + max_value <= u64::MAX,
                first_entity == before.next_entity,
                self.next_entity == before.next_entity,
                self.player_chain == before.player_chain,
                self.tethers@ == before.tethers,
                self.riders@ == before.riders,
                self.shooting_chains@ == before.shooting_chains,
                self.segments@ == before.segments + Seq::new(
                    value as nat,
                    |index: int|
                        spec_chain_segment(
                            start_chain,
                            direction,
                            *chain_id,
                            generated_chain,
                            max_value as nat,
                            first_entity,
                            index as nat,
                        ),
                ),
                self.joints@ == before.joints + Seq::new(
                    if value == 0 {
                        0nat
                    } else {
                        (value - 1) as nat
                    },
                    |index: int|
                        spec_chain_joint(
                            *chain_id,
                            generated_chain,
                            first_entity,
                            (index + 1) as nat,
                        ),
                ),
            decreases max_value - value,
        {
            let last = value == max_value - 1;
            let transform = Transform {
                translation: start_chain.advance(direction, value * CHAIN_STEP),
                rotation: Rotation::arc(Dir2::neg_y(), direction),
                scale: CHAIN_SIZE,
            };
            let entity = first_entity + value;
            if value > 0 {
                let image_handle = if last {
                    ChainImage::Final
                } else {
                    ChainImage::Chain
                };
                self.segments.push(
                    ChainSegment {
                        entity,
                        bundle: ChainBundle::new(
                            image_handle,
                            RigidBody::Dynamic,
                            transform,
                            chain_id.clone(),
                        ),
                        pivot: false,
                        generated: generated_chain,
                        despawn_timer: None,
                    },
                );
                self.joints.push(
                    SegmentJoint {
                        joint: RevoluteJoint::new(entity - 1, entity).with_local_anchor_2(
                            Vec2::new(0, (CHAIN_SIZE * INTENDED_CHAIN_SIZE) as i32),
                        ).with_angle_limits(-JOINT_ANGLE_LIMIT, JOINT_ANGLE_LIMIT).with_compliance(
                            JOINT_COMPLIANCE,
                        ),
                        chain_part: chain_id.clone(),
                        generated: generated_chain,
                    },
                );
            } else {
                self.segments.push(
                    ChainSegment {
                        entity,
                        bundle: ChainBundle::new(
                            ChainImage::Pivot,
                            RigidBody::Kinematic,
                            transform,
                            chain_id.clone(),
                        ),
                        pivot: true,
                        generated: generated_chain,
                        despawn_timer: None,
                    },
                );
            }
            value += 1;
        }
        self.next_entity = first_entity + max_value;
    }

    /// Lays out the chain of a map entry placed at `translation` with the
    /// vertical scale `scale_y`, in thousandths: it hangs straight down from
    /// above the entry and is not marked as generated.
    pub fn process_chain(&mut self, translation: Vec2, scale_y: u32, chain_entity_iid: &ChainPart)
        ensures
            final(self)@ == old(self)@.process_chain(translation, scale_y, *chain_entity_iid),
            old(self)@.wf() ==> final(self)@.wf(),
    {
        proof {
            if old(self)@.wf() {
                lemma_process_chain_preserves_wf(old(self)@, translation, scale_y, *chain_entity_iid);
            }
        }
        let start_y = clamp_to_coordinate(translation.y as i128 + scale_y as i128 * 50);
        let end_y = clamp_to_coordinate(start_y as i128 - (scale_y as i128 * 3) / 2);
        let start_pos = Vec2::new(translation.x, start_y);
        let end_pos = Vec2::new(translation.x, end_y);
        self.convert_chain_to_parts(start_pos, end_pos, chain_entity_iid, false);
    }

    /// Reacts to the link `chain_entity` and `other_entity` beginning to
    /// touch. A rider that can attach takes hold of the chain, unless it
    /// hangs from one already or is immune to this very chain: it is then
    /// attached to the chain, under normal gravity, no longer colliding with
    /// chains, and held to the link by one new tether. Any other collision
    /// changes nothing.
    pub fn observe_chain_collision(&mut self, chain_entity: Entity, other_entity: Entity)
        ensures
            final(self)@ == old(self)@.observe_chain_collision(chain_entity, other_entity),
            old(self)@.wf() ==> final(self)@.wf(),
    {
        proof {
            if old(self)@.wf() {
                lemma_observe_chain_collision_preserves_wf(old(self)@, chain_entity, other_entity);
            }
        }
        let rider = match self.find_rider(other_entity) {
            Some(rider) => rider,
            None => {
                return ;
            },
        };
        let segment = match self.find_segment(chain_entity) {
            Some(segment) => segment,
            None => {
                return ;
            },
        };
        if self.riders[rider].can_attach.is_none() {
            return ;
        }
        let refuses = match &self.riders[rider].attachment {
            Attachment::Unattached => false,
            Attachment::Attached(_) => true,
            Attachment::Immune(immunity) => immunity.chain_id
                == self.segments[segment].bundle.chain_part.0,
        };
        if refuses {
            return ;
        }
        // no collision with chains while riding one
        let filters = LayerMask::all().without(GameLayer::ChainLayer.to_bits());
        let ignore_chain_collision_layer = CollisionLayers::new(LayerMask::default_layer(), filters);
        let chain_id = self.segments[segment].bundle.chain_part.0.clone();
        let old_rider = &self.riders[rider];
        let new_rider = Rider {
            entity: old_rider.entity,
            can_attach: old_rider.can_attach,
            can_shoot: old_rider.can_shoot,
            attachment: Attachment::Attached(ConnectedChain(chain_id)),
            gravity_scale: GravityScale(ATTACHED_GRAVITY_SCALE),
            layers: ignore_chain_collision_layer,
            rotation: old_rider.rotation,
            grounded: old_rider.grounded,
            jumping: old_rider.jumping,
        };
        self.riders.set(rider, new_rider);
        self.tethers.push(
            DistanceJoint::new(chain_entity, other_entity).with_limits(TETHER_MIN, TETHER_MAX),
        );
    }

    /// Advances every immunity by a frame of `delta` nanoseconds; a rider
    /// whose immunity has run out is free again.
    pub fn process_chain_immunity_timer(&mut self, delta: u64)
        ensures
            final(self)@ == old(self)@.process_chain_immunity_timer(delta),
            old(self)@.wf() ==> final(self)@.wf(),
    {
        proof {
            if old(self)@.wf() {
                lemma_process_chain_immunity_timer_preserves_wf(old(self)@, delta);
            }
        }
        let ghost before = self@;
        let mut i: usize = 0;
        while i < self.riders.len()
            invariant
                i <= self.riders.len(),
                self.riders.len() == before.riders.len(),
                self@ == (WorldState { riders: self.riders@, ..before }),
                forall|k: int|
                    0 <= k < i ==> self.riders[k] == (#[trigger] before.riders[k]).spec_tick_immunity(
                        delta,
                    ),
                forall|k: int| i <= k < self.riders.len() ==> self.riders[k] == before.riders[k],
            decreases self.riders.len() - i,
        {
            let ticked = match &self.riders[i].attachment {
                Attachment::Immune(chain_immunity) => {
                    let mut timer = chain_immunity.timer;
                    timer.tick(delta);
                    if timer.finished() {
                        Some(Attachment::Unattached)
                    } else {
                        Some(
                            Attachment::Immune(
                                ChainImmunity::new(timer, chain_immunity.chain_id.clone()),
                            ),
                        )
                    }
                },
                _ => None,
            };
            if let Some(attachment) = ticked {
                let old_rider = &self.riders[i];
                let new_rider = Rider {
                    entity: old_rider.entity,
                    can_attach: old_rider.can_attach,
                    can_shoot: old_rider.can_shoot,
                    attachment,
                    gravity_scale: old_rider.gravity_scale,
                    layers: old_rider.layers,
                    rotation: old_rider.rotation,
                    grounded: old_rider.grounded,
                    jumping: old_rider.jumping,
                };
                self.riders.set(i, new_rider);
            }
            i += 1;
        }
        assert(self.riders@ =~= before.riders.map_values(
            |rider: Rider| rider.spec_tick_immunity(delta),
        ));
    }
}

} // verus!
