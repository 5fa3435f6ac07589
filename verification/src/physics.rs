//! What the mechanic asks of the physics backend: plain descriptions of
//! bodies, collision layers and joints, which the host turns into the
//! backend's own components.

use vstd::prelude::*;
use crate::math::Dir2;
use crate::math::Vec2;

verus! {

/// Identifier of an entity of the world.
pub type Entity = u64;

/// How a body takes part in the simulation.
#[derive(Clone, Copy, Debug, PartialEq, Eq, Structural)]
pub enum RigidBody {
    /// Moved by forces and contacts.
    Dynamic,
    /// Never moves.
    Static,
    /// Moved only by its owner; holds its place against forces.
    Kinematic,
}

/// A box collider, by its full width and height in thousandths of a unit.
#[derive(Clone, Copy, Debug, PartialEq, Eq, Structural)]
pub struct Collider {
    pub width: u32,
    pub height: u32,
}

/// Mass of a body, taken from a box of the given size and density. Sizes are
/// in thousandths of a unit, the density in thousandths.
#[derive(Clone, Copy, Debug, PartialEq, Eq, Structural)]
pub struct MassPropertiesBundle {
    pub width: u32,
    pub height: u32,
    pub density: u32,
}

/// Marks a body whose collisions are reported as events.
#[derive(Clone, Copy, Debug, PartialEq, Eq, Structural)]
pub struct CollisionEventsEnabled;

/// A set of collision layers, one bit each.
#[derive(Clone, Copy, Debug, PartialEq, Eq, Structural)]
pub struct LayerMask(pub u32);

/// The layers a body belongs to and the layers it interacts with.
#[derive(Clone, Copy, Debug, PartialEq, Eq, Structural)]
pub struct CollisionLayers {
    pub memberships: LayerMask,
    pub filters: LayerMask,
}

/// Factor on gravity for one body, in thousandths.
#[derive(Clone, Copy, Debug, PartialEq, Eq, Structural)]
pub struct GravityScale(pub u32);

/// A rotation of the plane, given as the arc that turns `from` into `to`.
#[derive(Clone, Copy, Debug, PartialEq, Eq, Structural)]
pub struct Rotation {
    pub from: Dir2,
    pub to: Dir2,
}

/// Place, rotation and uniform scale of an entity. The scale is in
/// thousandths.
#[derive(Clone, Copy, Debug, PartialEq, Eq, Structural)]
pub struct Transform {
    pub translation: Vec2,
    pub rotation: Rotation,
    pub scale: u32,
}

/// Velocity of a body, in thousandths of a unit per second.
#[derive(Clone, Copy, Debug, PartialEq, Eq, Structural)]
pub struct LinearVelocity {
    pub x: i64,
    pub y: i64,
}

/// Range of angles that a hinge may take, in thousandths of a radian.
#[derive(Clone, Copy, Debug, PartialEq, Eq, Structural)]
pub struct AngleLimit {
    pub min: i32,
    pub max: i32,
}

/// Range of distances that a joint allows, in thousandths of a unit.
#[derive(Clone, Copy, Debug, PartialEq, Eq, Structural)]
pub struct DistanceLimit {
    pub min: u32,
    pub max: u32,
}

/// A hinge between two bodies. The anchor is local to the second body, in
/// thousandths of a unit; compliance is in billionths.
#[derive(Clone, Copy, Debug, PartialEq, Eq, Structural)]
pub struct RevoluteJoint {
    pub entity1: Entity,
    pub entity2: Entity,
    pub local_anchor2: Vec2,
    pub angle_limit: Option<AngleLimit>,
    pub compliance: u32,
}

/// Keeps two bodies within a range of distances.
#[derive(Clone, Copy, Debug, PartialEq, Eq, Structural)]
pub struct DistanceJoint {
    pub entity1: Entity,
    pub entity2: Entity,
    pub length_limits: Option<DistanceLimit>,
}

/// A ray for the backend to cast: from `origin` along `direction`, no
/// farther than `max_distance`, ignoring the entity `excluded`.
#[derive(Clone, Copy, Debug, PartialEq, Eq, Structural)]
pub struct RayCast {
    pub origin: Vec2,
    pub direction: Dir2,
    pub max_distance: u64,
    pub excluded: Entity,
}

/// Bit of the layer that every body belongs to unless told otherwise.
pub const LAYER_DEFAULT: u32 = 1;

/// Bits of all layers.
pub const LAYER_ALL: u32 = 0xffff_ffff;

impl LayerMask {
    pub open spec fn spec_all() -> LayerMask {
        LayerMask(LAYER_ALL)
    }

    pub open spec fn spec_default() -> LayerMask {
        LayerMask(LAYER_DEFAULT)
    }

    /// Every layer.
    pub fn all() -> (mask: LayerMask)
        ensures
            mask == LayerMask::spec_all(),
    {
        LayerMask(LAYER_ALL)
    }

    /// The default layer alone.
    pub fn default_layer() -> (mask: LayerMask)
        ensures
            mask == LayerMask::spec_default(),
    {
        LayerMask(LAYER_DEFAULT)
    }

    /// The layers of `self` that are not among `bits`.
    pub open spec fn spec_without(self, bits: u32) -> LayerMask {
        LayerMask(self.0 & !bits)
    }

    /// Removes the layers `bits` from the mask.
    pub fn without(self, bits: u32) -> (mask: LayerMask)
        ensures
            mask == self.spec_without(bits),
    {
        LayerMask(self.0 & !bits)
    }

    /// The mask holds every layer of `bits`.
    pub open spec fn spec_contains(self, bits: u32) -> bool {
        self.0 & bits == bits
    }

    pub fn contains(self, bits: u32) -> (contains: bool)
        ensures
            contains == self.spec_contains(bits),
    {
        self.0 & bits == bits
    }
}

impl CollisionLayers {
    /// Member of the default layer, interacting with every layer.
    pub open spec fn spec_default() -> CollisionLayers {
        CollisionLayers { memberships: LayerMask::spec_default(), filters: LayerMask::spec_all() }
    }

    pub fn new(memberships: LayerMask, filters: LayerMask) -> (layers: CollisionLayers)
        ensures
            layers == (CollisionLayers { memberships, filters }),
    {
        CollisionLayers { memberships, filters }
    }

    pub fn default_layers() -> (layers: CollisionLayers)
        ensures
            layers == CollisionLayers::spec_default(),
    {
        CollisionLayers { memberships: LayerMask::default_layer(), filters: LayerMask::all() }
    }

    /// Two bodies interact when each belongs to a layer that the other one
    /// accepts.
    pub open spec fn spec_interacts_with(self, other: CollisionLayers) -> bool {
        (self.memberships.0 & other.filters.0) != 0 && (other.memberships.0 & self.filters.0)
            != 0
    }

    pub fn interacts_with(self, other: CollisionLayers) -> (interacts: bool)
        ensures
            interacts == self.spec_interacts_with(other),
    {
        (self.memberships.0 & other.filters.0) != 0 && (other.memberships.0 & self.filters.0)
            != 0
    }
}

impl Rotation {
    /// The rotation that turns nothing.
    pub open spec fn spec_identity() -> Rotation {
        Rotation { from: Dir2::spec_y(), to: Dir2::spec_y() }
    }

    pub fn identity() -> (rotation: Rotation)
        ensures
            rotation == Rotation::spec_identity(),
    {
        Rotation { from: Dir2::y(), to: Dir2::y() }
    }

    /// The rotation that turns `from` into `to`.
    pub fn arc(from: Dir2, to: Dir2) -> (rotation: Rotation)
        ensures
            rotation == (Rotation { from, to }),
    {
        Rotation { from, to }
    }
}

impl RevoluteJoint {
    /// A hinge between two bodies, anchored at the centre of the second,
    /// free to turn and rigid.
    pub fn new(entity1: Entity, entity2: Entity) -> (joint: RevoluteJoint)
        ensures
            joint == (RevoluteJoint {
                entity1,
                entity2,
                local_anchor2: Vec2 { x: 0, y: 0 },
                angle_limit: None,
                compliance: 0,
            }),
    {
        RevoluteJoint {
            entity1,
            entity2,
            local_anchor2: Vec2 { x: 0, y: 0 },
            angle_limit: None,
            compliance: 0,
        }
    }

    pub fn with_local_anchor_2(self, anchor: Vec2) -> (joint: RevoluteJoint)
        ensures
            joint == (RevoluteJoint { local_anchor2: anchor, ..self }),
    {
        RevoluteJoint { local_anchor2: anchor, ..self }
    }

    pub fn with_angle_limits(self, min: i32, max: i32) -> (joint: RevoluteJoint)
        ensures
            joint == (RevoluteJoint { angle_limit: Some(AngleLimit { min, max }), ..self }),
    {
        RevoluteJoint { angle_limit: Some(AngleLimit { min, max }), ..self }
    }

    pub fn with_compliance(self, compliance: u32) -> (joint: RevoluteJoint)
        ensures
            joint == (RevoluteJoint { compliance, ..self }),
    {
        RevoluteJoint { compliance, ..self }
    }
}

impl DistanceJoint {
    /// A joint between two bodies that does not limit their distance yet.
    pub fn new(entity1: Entity, entity2: Entity) -> (joint: DistanceJoint)
        ensures
            joint == (DistanceJoint { entity1, entity2, length_limits: None }),
    {
        DistanceJoint { entity1, entity2, length_limits: None }
    }

    pub fn with_limits(self, min: u32, max: u32) -> (joint: DistanceJoint)
        ensures
            joint == (DistanceJoint { length_limits: Some(DistanceLimit { min, max }), ..self }),
    {
        DistanceJoint { length_limits: Some(DistanceLimit { min, max }), ..self }
    }

    /// One of the joint's two ends is `entity`.
    pub open spec fn spec_references(self, entity: Entity) -> bool {
        self.entity1 == entity || self.entity2 == entity
    }

    pub fn references(&self, entity: Entity) -> (references: bool)
        ensures
            references == self.spec_references(entity),
    {
        self.entity1 == entity || self.entity2 == entity
    }
}

} // verus!
