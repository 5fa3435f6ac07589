//! The grapple: a tether that grows from an entity toward a target and, on
//! impact, is replaced by a chain.

use vstd::prelude::*;
use crate::chain::ChainBundle;
use crate::chain::ChainImage;
use crate::chain::CHAIN_SIZE;
use crate::chain::Sprite;
use crate::math::clamp_coordinate;
use crate::math::Dir2;
use crate::math::Vec2;
use crate::physics::Entity;
use crate::physics::RayCast;
use crate::physics::RigidBody;
use crate::physics::Rotation;
use crate::physics::Transform;
use crate::timer::Timer;
use crate::timer::TimerMode;
use crate::wellformed::lemma_convert_chain_preserves_wf;
use crate::wellformed::lemma_handle_despawn_timer_preserves_wf;
use crate::wellformed::lemma_read_shoot_chain_event_preserves_wf;
use crate::wellformed::lemma_update_shooting_chain_preserves_wf;
use crate::world::ChainSegment;
use crate::world::lemma_take_push;
use crate::world::SegmentJoint;
use crate::world::World;
use crate::world::WorldState;

verus! {

/// Width of a grapple, in thousandths of a unit.
pub const PLAYER_CHAIN_SIZE: u64 = 16_000;

/// How fast a grapple grows: its length gains this many widths a second.
pub const CHAIN_SPEED: u64 = 35;

/// How far a grapple flies when nothing is in its way, in thousandths of a
/// unit.
pub const MAX_CHAIN_DIST: u64 = 100_000_000;

/// For how long the links of a chain stay once a new grapple has landed, in
/// seconds: long enough for a rider still on it to fall with it.
pub const DESPAWN_SECONDS: u64 = 3;

/// Marks an entity that can shoot a grapple.
#[derive(Clone, Copy, Debug, PartialEq, Eq, Structural)]
pub struct CanShootChain;

/// A grapple in flight, by the point it flies to.
#[derive(Clone, Copy, Debug, PartialEq, Eq, Structural)]
pub struct ShootingChain {
    pub end_position: Vec2,
}

/// Counts down to the removal of an entity.
#[derive(Clone, Copy, Debug, PartialEq, Eq, Structural)]
pub struct DespawnTimer(pub Timer);

/// The entity that a grapple was shot from.
#[derive(Clone, Copy, Debug, PartialEq, Eq, Structural)]
pub struct AttachedEntity(pub Entity);

/// How far a grapple has grown, in billionths of its own width.
#[derive(Clone, Copy, Debug, PartialEq, Eq, Structural)]
pub struct ChainLength(pub u64);

/// What makes an entity a grapple in flight.
#[derive(Clone, Copy, Debug, PartialEq, Eq, Structural)]
pub struct ShootingChainBundle {
    pub shooting_chain: ShootingChain,
    pub attached_entity: AttachedEntity,
    pub current_length: ChainLength,
    pub sprite: Sprite,
}

/// A request to shoot a grapple at a point of the world.
#[derive(Clone, Copy, Debug, PartialEq, Eq, Structural)]
pub struct ShootChain(pub Vec2);

/// A grapple has hit something: a chain is to hang from `start_pos` in the
/// direction of `end_pos`, in place of the grapple that `attached_entity`
/// shot.
#[derive(Clone, Copy, Debug, PartialEq, Eq, Structural)]
pub struct ChainHitEnd {
    pub start_pos: Vec2,
    pub end_pos: Vec2,
    pub attached_entity: Entity,
}

/// How a grapple in flight is shown, and the ray that tells whether it has
/// hit something yet.
#[derive(Clone, Copy, Debug, PartialEq, Eq, Structural)]
pub struct ShootingChainAim {
    pub transform: Transform,
    pub custom_size: Vec2,
    pub ray: RayCast,
}

/// How far a shot reaches: to what it hits, and no farther than
/// [`MAX_CHAIN_DIST`] in any case.
pub open spec fn spec_shot_range(hit: Option<u64>) -> u64 {
    match hit {
        Some(distance) => if distance < MAX_CHAIN_DIST {
            distance
        } else {
            MAX_CHAIN_DIST
        },
        None => MAX_CHAIN_DIST,
    }
}

/// The picture of a grapple that has not grown yet: a square of the width
/// of a grapple, which the picture of a link fills by repeating.
pub open spec fn spec_shooting_sprite() -> Sprite {
    Sprite {
        image: ChainImage::Chain,
        custom_size: Vec2 { x: PLAYER_CHAIN_SIZE as i32, y: PLAYER_CHAIN_SIZE as i32 },
        tiled: true,
    }
}

impl ShootingChainBundle {
    /// The grapple after growing for `delta` nanoseconds, at
    /// [`CHAIN_SPEED`]; its length stops at what a `u64` holds.
    pub open spec fn spec_grow(self, delta: u64) -> ShootingChainBundle {
        ShootingChainBundle {
            current_length: ChainLength(
                if self.current_length.0 + CHAIN_SPEED * delta > u64::MAX {
                    u64::MAX
                } else {
                    (self.current_length.0 + CHAIN_SPEED * delta) as u64
                },
            ),
            ..self
        }
    }

    /// How far the grapple reaches from where it was shot, in thousandths of
    /// a unit, rounded down: its length in widths of [`PLAYER_CHAIN_SIZE`].
    pub open spec fn spec_reach(self) -> u64 {
        ((self.current_length.0 * PLAYER_CHAIN_SIZE) / 1_000_000_000) as u64
    }

    /// How the grapple is shown when the entity that shot it stands at
    /// `origin_position`, and the ray to cast for it. There is neither when
    /// the entity stands on the very point that the grapple flies to.
    pub open spec fn spec_aim(self, origin_position: Vec2) -> Option<ShootingChainAim> {
        match origin_position.spec_direction_to(self.shooting_chain.end_position) {
            Some(to_vector) => Some(
                ShootingChainAim {
                    transform: Transform {
                        translation: origin_position.spec_advance(
                            to_vector,
                            (self.spec_reach() / 2) as nat,
                        ),
                        rotation: Rotation { from: Dir2::spec_y(), to: to_vector },
                        scale: 1000,
                    },
                    custom_size: Vec2 {
                        x: PLAYER_CHAIN_SIZE as i32,
                        y: clamp_coordinate(self.spec_reach() as int) as i32,
                    },
                    ray: RayCast {
                        origin: origin_position,
                        direction: to_vector,
                        max_distance: self.spec_reach(),
                        excluded: self.attached_entity.0,
                    },
                },
            ),
            None => None,
        }
    }

    /// The impact of the grapple on something `hit_distance` away from
    /// `origin_position`, along its ray. What lies beyond the reach of the
    /// grapple is no impact. The chain to build hangs from the point that
    /// was hit; its other end lies back toward the origin, as far away as
    /// makes a chain of the length of the grapple: [`CHAIN_SIZE`] for every
    /// [`PLAYER_CHAIN_SIZE`] of the distance, rounded up.
    pub open spec fn spec_chain_hit_end(self, origin_position: Vec2, hit_distance: u64) -> Option<
        ChainHitEnd,
    > {
        match origin_position.spec_direction_to(self.shooting_chain.end_position) {
            Some(direction) if hit_distance <= self.spec_reach() => {
                let hit_point = origin_position.spec_advance(direction, hit_distance as nat);
                Some(
                    ChainHitEnd {
                        start_pos: hit_point,
                        end_pos: hit_point.spec_retreat(
                            direction,
                            ((hit_distance * CHAIN_SIZE + PLAYER_CHAIN_SIZE - 1)
                                / PLAYER_CHAIN_SIZE as int) as nat,
                        ),
                        attached_entity: self.attached_entity.0,
                    },
                )
            },
            _ => None,
        }
    }

    /// Computes how far the grapple reaches, see
    /// [`ShootingChainBundle::spec_reach`].
    pub fn reach(&self) -> (reach: u64)
        ensures
            reach == self.spec_reach(),
    {
        ((self.current_length.0 as u128 * PLAYER_CHAIN_SIZE as u128) / 1_000_000_000) as u64
    }

    /// Computes how the grapple is shown and the ray to cast for it, see
    /// [`ShootingChainBundle::spec_aim`].
    pub fn aim(&self, origin_position: Vec2) -> (aim: Option<ShootingChainAim>)
        ensures
            aim == self.spec_aim(origin_position),
    {
        let to_vector = match origin_position.direction_to(self.shooting_chain.end_position) {
            Some(to_vector) => to_vector,
            None => {
                return None;
            },
        };
        let reach = self.reach();
        let rotation_to_end_pos = Rotation::arc(Dir2::y(), to_vector);
        let chain_pos = origin_position.advance(to_vector, reach / 2);
        let length = if reach > i32::MAX as u64 {
            i32::MAX
        } else {
            reach as i32
        };
        Some(
            ShootingChainAim {
                transform: Transform {
                    translation: chain_pos,
                    rotation: rotation_to_end_pos,
                    scale: 1000,
                },
                custom_size: Vec2::new(PLAYER_CHAIN_SIZE as i32, length),
                ray: RayCast {
                    origin: origin_position,
                    direction: to_vector,
                    max_distance: reach,
                    excluded: self.attached_entity.0,
                },
            },
        )
    }

    /// Decides what a hit of the grapple's ray means, see
    /// [`ShootingChainBundle::spec_chain_hit_end`].
    pub fn chain_hit_end(&self, origin_position: Vec2, hit_distance: u64) -> (event: Option<
        ChainHitEnd,
    >)
        ensures
            event == self.spec_chain_hit_end(origin_position, hit_distance),
    {
        let direction = match origin_position.direction_to(self.shooting_chain.end_position) {
            Some(direction) => direction,
            None => {
                return None;
            },
        };
        if hit_distance > self.reach() {
            return None;
        }
        let hit_point = origin_position.advance(direction, hit_distance);
        let link: u128 = CHAIN_SIZE as u128;
        let width: u128 = PLAYER_CHAIN_SIZE as u128;
        let end_pos = hit_point.retreat(
            direction,
            ((hit_distance as u128 * link + width - 1) / width) as u64,
        );
        Some(ChainHitEnd { start_pos: hit_point, end_pos, attached_entity: self.attached_entity.0 })
    }
}

/// Decides whether a grapple is shot: it is when the player can shoot, the
/// button has just been pressed and the pointer is over the world.
pub fn handle_input(
    player_chain: Option<CanShootChain>,
    just_pressed: bool,
    world_pos: Option<Vec2>,
) -> (event: Option<ShootChain>)
    ensures
        event == match world_pos {
            Some(position) if player_chain is Some && just_pressed => Some(ShootChain(position)),
            _ => None,
        },
{
    if player_chain.is_none() {
        return None;
    }
    if just_pressed {
        if let Some(position) = world_pos {
            return Some(ShootChain(position));
        }
    }
    None
}

/// The ray to cast for a shot from `origin_point` by `player`: toward the
/// point aimed at, as far as a grapple flies, past the player itself. There
/// is none when the point aimed at is the origin.
pub fn shoot_ray(event: ShootChain, player: Entity, origin_point: Vec2) -> (ray: Option<RayCast>)
    ensures
        ray == match origin_point.spec_direction_to(event.0) {
            Some(direction) => Some(
                RayCast {
                    origin: origin_point,
                    direction,
                    max_distance: MAX_CHAIN_DIST,
                    excluded: player,
                },
            ),
            None => None,
        },
{
    match origin_point.direction_to(event.0) {
        Some(direction) => Some(
            RayCast {
                origin: origin_point,
                direction,
                max_distance: MAX_CHAIN_DIST,
                excluded: player,
            },
        ),
        None => None,
    }
}

impl ChainSegment {
    /// The link once a new grapple has landed: a link that came from a
    /// grapple starts its last [`DESPAWN_SECONDS`], and falls freely if it
    /// was a pivot. Links of the map stay as they are.
    pub open spec fn spec_retire(self) -> ChainSegment {
        if self.generated {
            ChainSegment {
                bundle: if self.pivot {
                    ChainBundle { rigid_body: RigidBody::Dynamic, ..self.bundle }
                } else {
                    self.bundle
                },
                despawn_timer: Some(
                    DespawnTimer(
                        Timer::spec_new((DESPAWN_SECONDS * 1_000_000_000) as u64, TimerMode::Once),
                    ),
                ),
                ..self
            }
        } else {
            self
        }
    }

    /// The link after a frame of `delta` nanoseconds of its last seconds.
    pub open spec fn spec_tick_despawn(self, delta: u64) -> ChainSegment {
        match self.despawn_timer {
            Some(timer) => ChainSegment {
                despawn_timer: Some(DespawnTimer(timer.0.spec_tick(delta))),
                ..self
            },
            None => self,
        }
    }

    /// The link's last seconds are not over.
    pub open spec fn spec_stays(self) -> bool {
        match self.despawn_timer {
            Some(timer) => !timer.0.just_finished,
            None => true,
        }
    }
}

/// A grapple that `entity` shot is in flight.
pub open spec fn spec_is_shooting(chains: Seq<ShootingChainBundle>, entity: Entity) -> bool {
    exists|i: int| 0 <= i < chains.len() && (#[trigger] chains[i]).attached_entity.0 == entity
}

impl WorldState {
    /// The world after `player`, standing at `origin_point`, answered a
    /// request to shoot. `hit` is how far a ray from there toward the point
    /// aimed at goes before it hits something. A grapple that the player
    /// had in flight is gone, and a new one of no length flies to where the
    /// ray ends. Nothing changes without a request, or when the point aimed
    /// at is the origin.
    pub open spec fn read_shoot_chain_event(
        self,
        event: Option<ShootChain>,
        player: Entity,
        origin_point: Vec2,
        hit: Option<u64>,
    ) -> WorldState {
        match event {
            Some(shot) => match origin_point.spec_direction_to(shot.0) {
                Some(direction) => WorldState {
                    shooting_chains: self.shooting_chains.filter(
                        |chain: ShootingChainBundle| chain.attached_entity.0 != player,
                    ).push(
                        ShootingChainBundle {
                            shooting_chain: ShootingChain {
                                end_position: origin_point.spec_advance(
                                    direction,
                                    spec_shot_range(hit) as nat,
                                ),
                            },
                            attached_entity: AttachedEntity(player),
                            current_length: ChainLength(0),
                            sprite: spec_shooting_sprite(),
                        },
                    ),
                    ..self
                },
                None => self,
            },
            None => self,
        }
    }

    /// The world after every grapple grew for `delta` nanoseconds.
    pub open spec fn update_shooting_chain(self, delta: u64) -> WorldState {
        WorldState {
            shooting_chains: self.shooting_chains.map_values(
                |chain: ShootingChainBundle| chain.spec_grow(delta),
            ),
            ..self
        }
    }

    /// The world with every chain that a grapple left behind on its way
    /// out: their hinges are gone at once, their links start their last
    /// seconds, and their pivots fall.
    pub open spec fn retire_generated(self) -> WorldState {
        WorldState {
            joints: self.joints.filter(|joint: SegmentJoint| !joint.generated),
            segments: self.segments.map_values(|segment: ChainSegment| segment.spec_retire()),
            ..self
        }
    }

    /// The world after the impact `event`. While the grapple of the event
    /// is still in flight, it is removed, the chains of earlier grapples are
    /// put on their way out, and a chain tagged as the player's is laid out
    /// from the point that was hit. An impact of a grapple that is no longer
    /// in flight changes nothing.
    pub open spec fn convert_chain(self, event: Option<ChainHitEnd>) -> WorldState {
        match event {
            Some(hit) if spec_is_shooting(self.shooting_chains, hit.attached_entity) => (WorldState {
                shooting_chains: self.shooting_chains.filter(
                    |chain: ShootingChainBundle| chain.attached_entity.0 != hit.attached_entity,
                ),
                ..self
            }).retire_generated().convert_chain_to_parts(
                hit.start_pos,
                hit.end_pos,
                self.player_chain,
                true,
            ),
            _ => self,
        }
    }

    /// The world after a frame of `delta` nanoseconds of every link on its
    /// way out: a link whose last seconds ended in this frame is gone.
    pub open spec fn handle_despawn_timer(self, delta: u64) -> WorldState {
        WorldState {
            segments: self.segments.map_values(
                |segment: ChainSegment| segment.spec_tick_despawn(delta),
            ).filter(|segment: ChainSegment| segment.spec_stays()),
            ..self
        }
    }
}

impl World {
    /// Removes the grapples that `entity` shot.
    fn despawn_shooting_chains(&mut self, entity: Entity)
        ensures
            final(self)@ == (WorldState {
                shooting_chains: old(self)@.shooting_chains.filter(
                    |chain: ShootingChainBundle| chain.attached_entity.0 != entity,
                ),
                ..old(self)@
            }),
    {
        let ghost chains = self.shooting_chains@;
        let ghost keep = |chain: ShootingChainBundle| chain.attached_entity.0 != entity;
        let mut kept: Vec<ShootingChainBundle> = Vec::new();
        let mut i: usize = 0;
        while i < self.shooting_chains.len()
            invariant
                i <= self.shooting_chains.len(),
                self.shooting_chains@ == chains,
                keep == |chain: ShootingChainBundle| chain.attached_entity.0 != entity,
                kept@ == chains.take(i as int).filter(keep),
            decreases self.shooting_chains.len() - i,
        {
            let existing_chain = self.shooting_chains[i];
            proof {
                lemma_take_push(chains, i as int);
                chains.take(i as int).lemma_filter_push(existing_chain, keep);
            }
            if existing_chain.attached_entity.0 != entity {
                kept.push(existing_chain);
            }
            i += 1;
        }
        assert(chains.take(chains.len() as int) =~= chains);
        self.shooting_chains = kept;
    }

    /// Tells whether a grapple that `entity` shot is in flight.
    pub fn is_shooting(&self, entity: Entity) -> (shooting: bool)
        ensures
            shooting == spec_is_shooting(self@.shooting_chains, entity),
    {
        let mut i: usize = 0;
        while i < self.shooting_chains.len()
            invariant
                i <= self.shooting_chains.len(),
                forall|k: int| 0 <= k < i ==> self.shooting_chains[k].attached_entity.0 != entity,
            decreases self.shooting_chains.len() - i,
        {
            if self.shooting_chains[i].attached_entity.0 == entity {
                return true;
            }
            i += 1;
        }
        false
    }

    /// Answers a request to shoot, see
    /// [`WorldState::read_shoot_chain_event`].
    pub fn read_shoot_chain_event(
        &mut self,
        event: Option<ShootChain>,
        player: Entity,
        origin_point: Vec2,
        hit: Option<u64>,
    )
        ensures
            final(self)@ == old(self)@.read_shoot_chain_event(event, player, origin_point, hit),
            old(self)@.wf() ==> final(self)@.wf(),
    {
        proof {
            if old(self)@.wf() {
                lemma_read_shoot_chain_event_preserves_wf(
                    old(self)@,
                    event,
                    player,
                    origin_point,
                    hit,
                );
            }
        }
        let shot = match event {
            Some(shot) => shot,
            None => {
                return ;
            },
        };
        let direction = match origin_point.direction_to(shot.0) {
            Some(direction) => direction,
            None => {
                return ;
            },
        };
        // at most one grapple in flight for each player
        self.despawn_shooting_chains(player);

        let range = match hit {
            Some(distance) => if distance < MAX_CHAIN_DIST {
                distance
            } else {
                MAX_CHAIN_DIST
            },
            None => MAX_CHAIN_DIST,
        };
        let end_position = origin_point.advance(direction, range);
        self.shooting_chains.push(
            ShootingChainBundle {
                shooting_chain: ShootingChain { end_position },
                attached_entity: AttachedEntity(player),
                current_length: ChainLength(0),
                sprite: Sprite {
                    image: ChainImage::Chain,
                    custom_size: Vec2::new(PLAYER_CHAIN_SIZE as i32, PLAYER_CHAIN_SIZE as i32),
                    tiled: true,
                },
            },
        );
    }

    /// Lets every grapple in flight grow for a frame of `delta`
    /// nanoseconds.
    pub fn update_shooting_chain(&mut self, delta: u64)
        ensures
            final(self)@ == old(self)@.update_shooting_chain(delta),
            old(self)@.wf() ==> final(self)@.wf(),
    {
        proof {
            if old(self)@.wf() {
                lemma_update_shooting_chain_preserves_wf(old(self)@, delta);
            }
        }
        let ghost before = self@;
        let growth = match CHAIN_SPEED.checked_mul(delta) {
            Some(growth) => growth,
            None => u64::MAX,
        };
        let mut i: usize = 0;
        while i < self.shooting_chains.len()
            invariant
                i <= self.shooting_chains.len(),
                self.shooting_chains.len() == before.shooting_chains.len(),
                self@ == (WorldState { shooting_chains: self.shooting_chains@, ..before }),
                growth == if CHAIN_SPEED * delta > u64::MAX {
                    u64::MAX
                } else {
                    (CHAIN_SPEED * delta) as u64
                },
                forall|k: int|
                    0 <= k < i ==> self.shooting_chains[k] == (
                    #[trigger] before.shooting_chains[k]).spec_grow(delta),
                forall|k: int|
                    i <= k < self.shooting_chains.len() ==> self.shooting_chains[k]
                        == before.shooting_chains[k],
            decreases self.shooting_chains.len() - i,
        {
            let chain = self.shooting_chains[i];
            let grown = ShootingChainBundle {
                shooting_chain: chain.shooting_chain,
                attached_entity: chain.attached_entity,
                current_length: ChainLength(chain.current_length.0.saturating_add(growth)),
                sprite: chain.sprite,
            };
            self.shooting_chains.set(i, grown);
            i += 1;
        }
        assert(self.shooting_chains@ =~= before.shooting_chains.map_values(
            |chain: ShootingChainBundle| chain.spec_grow(delta),
        ));
    }

    /// Puts every chain that a grapple left behind on its way out.
    fn retire_generated(&mut self)
        ensures
            final(self)@ == old(self)@.retire_generated(),
    {
        let ghost before = self@;
        let ghost keep = |joint: SegmentJoint| !joint.generated;
        let mut joints: Vec<SegmentJoint> = Vec::new();
        let mut i: usize = 0;
        while i < self.joints.len()
            invariant
                i <= self.joints.len(),
                self@ == before,
                keep == |joint: SegmentJoint| !joint.generated,
                joints@ == before.joints.take(i as int).filter(keep),
            decreases self.joints.len() - i,
        {
            proof {
                lemma_take_push(before.joints, i as int);
                before.joints.take(i as int).lemma_filter_push(before.joints[i as int], keep);
            }
            if !self.joints[i].generated {
                joints.push(self.joints[i].clone());
            }
            i += 1;
        }
        assert(before.joints.take(before.joints.len() as int) =~= before.joints);

        let mut segments: Vec<ChainSegment> = Vec::new();
        let mut k: usize = 0;
        while k < self.segments.len()
            invariant
                k <= self.segments.len(),
                self@ == before,
                segments.len() == k,
                forall|n: int|
                    0 <= n < k ==> segments[n] == (#[trigger] before.segments[n]).spec_retire(),
            decreases self.segments.len() - k,
        {
            let segment = &self.segments[k];
            if segment.generated {
                let mut bundle = segment.bundle.clone();
                if segment.pivot {
                    bundle.rigid_body = RigidBody::Dynamic;
                }
                segments.push(
                    ChainSegment {
                        entity: segment.entity,
                        bundle,
                        pivot: segment.pivot,
                        generated: segment.generated,
                        despawn_timer: Some(
                            DespawnTimer(Timer::from_seconds(DESPAWN_SECONDS, TimerMode::Once)),
                        ),
                    },
                );
            } else {
                segments.push(segment.clone());
            }
            k += 1;
        }
        assert(segments@ =~= before.segments.map_values(
            |segment: ChainSegment| segment.spec_retire(),
        ));
        self.joints = joints;
        self.segments = segments;
    }

    /// Turns the grapple of an impact into a chain, see
    /// [`WorldState::convert_chain`].
    pub fn convert_chain(&mut self, event: Option<ChainHitEnd>)
        ensures
            final(self)@ == old(self)@.convert_chain(event),
            old(self)@.wf() ==> final(self)@.wf(),
    {
        proof {
            if old(self)@.wf() {
                lemma_convert_chain_preserves_wf(old(self)@, event);
            }
        }
        if let Some(hit) = event {
            if self.is_shooting(hit.attached_entity) {
                self.despawn_shooting_chains(hit.attached_entity);
                self.retire_generated();
                let chain_id = self.player_chain.clone();
                self.convert_chain_to_parts(hit.start_pos, hit.end_pos, &chain_id, true);
            }
        }
    }

    /// Advances the last seconds of every link on its way out by a frame of
    /// `delta` nanoseconds, and removes the links whose time ended.
    pub fn handle_despawn_timer(&mut self, delta: u64)
        ensures
            final(self)@ == old(self)@.handle_despawn_timer(delta),
            old(self)@.wf() ==> final(self)@.wf(),
    {
        proof {
            if old(self)@.wf() {
                lemma_handle_despawn_timer_preserves_wf(old(self)@, delta);
            }
        }
        let ghost before = self@;
        let ghost tick = |segment: ChainSegment| segment.spec_tick_despawn(delta);
        let ghost stays = |segment: ChainSegment| segment.spec_stays();
        let mut segments: Vec<ChainSegment> = Vec::new();
        let mut i: usize = 0;
        while i < self.segments.len()
            invariant
                i <= self.segments.len(),
                self@ == before,
                tick == |segment: ChainSegment| segment.spec_tick_despawn(delta),
                stays == |segment: ChainSegment| segment.spec_stays(),
                segments@ == before.segments.take(i as int).map_values(tick).filter(stays),
            decreases self.segments.len() - i,
        {
            let mut segment = self.segments[i].clone();
            proof {
                lemma_take_push(before.segments, i as int);
                assert(before.segments.take(i as int).push(before.segments[i as int]).map_values(
                    tick,
                ) =~= before.segments.take(i as int).map_values(tick).push(
                    tick(before.segments[i as int]),
                ));
                before.segments.take(i as int).map_values(tick).lemma_filter_push(
                    tick(before.segments[i as int]),
                    stays,
                );
            }
            let stays_on = match segment.despawn_timer {
                Some(despawn_timer) => {
                    let mut timer = despawn_timer.0;
                    timer.tick(delta);
                    segment.despawn_timer = Some(DespawnTimer(timer));
                    !timer.just_finished()
                },
                None => true,
            };
            if stays_on {
                segments.push(segment);
            }
            i += 1;
        }
        assert(before.segments.take(before.segments.len() as int) =~= before.segments);
        self.segments = segments;
    }
}

} // verus!
