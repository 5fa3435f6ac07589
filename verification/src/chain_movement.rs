//! Letting go of a chain.

use vstd::prelude::*;
use crate::chain::Attachment;
use crate::chain::ChainImmunity;
use crate::chain::IMMUNITY_SECONDS;
use crate::physics::CollisionLayers;
use crate::physics::DistanceJoint;
use crate::physics::Entity;
use crate::physics::GravityScale;
use crate::physics::Rotation;
use crate::timer::Timer;
use crate::timer::TimerMode;
use crate::wellformed::lemma_handle_player_chain_event_preserves_wf;
use crate::world::lemma_take_push;
use crate::world::Rider;
use crate::world::World;
use crate::world::WorldState;

verus! {

/// Gravity on a rider that has let go of a chain, in thousandths: falling
/// feels heavier than hanging.
pub const DETACHED_GRAVITY_SCALE: u32 = 2_000;

/// The collision layers of the game.
#[derive(Clone, Copy, Debug, PartialEq, Eq, Structural)]
pub enum GameLayer {
    /// The layer that bodies are on unless told otherwise.
    Default,
    /// The layer of chains.
    ChainLayer,
    /// The layer of trees.
    TreeLayer,
}

/// What a player asks of the chain it hangs from.
#[derive(Clone, Copy, Debug, PartialEq, Eq, Structural)]
pub enum PlayerChainEvent {
    LeaveChain,
}

impl GameLayer {
    /// The bit of the layer: the default layer has the lowest, the others
    /// follow in order.
    pub open spec fn spec_to_bits(self) -> u32 {
        match self {
            GameLayer::Default => 1,
            GameLayer::ChainLayer => 2,
            GameLayer::TreeLayer => 4,
        }
    }

    pub fn to_bits(&self) -> (bits: u32)
        ensures
            bits == self.spec_to_bits(),
    {
        match self {
            GameLayer::Default => 1,
            GameLayer::ChainLayer => 2,
            GameLayer::TreeLayer => 4,
        }
    }

    /// The bits of all layers of the game.
    pub fn all_bits() -> (bits: u32)
        ensures
            bits == 7,
    {
        7
    }
}

/// Decides whether the player lets go: it does when it hangs from a chain
/// and the key for leaving has just been pressed.
pub fn handle_keyboard_input(connected_chain: bool, leave_chain: bool) -> (event: Option<
    PlayerChainEvent,
>)
    ensures
        event == if connected_chain && leave_chain {
            Some(PlayerChainEvent::LeaveChain)
        } else {
            None
        },
{
    if !connected_chain {
        return None;
    }
    if leave_chain {
        Some(PlayerChainEvent::LeaveChain)
    } else {
        None
    }
}

impl WorldState {
    /// The world after `player` was told to let go. A player that hangs from
    /// a chain becomes immune to that chain for [`IMMUNITY_SECONDS`], stands
    /// upright again, falls under heavier gravity on the default layers, is no
    /// longer grounded or jumping, and every tether that holds it is gone.
    /// A player that hangs from no chain is left alone.
    pub open spec fn handle_player_chain_event(
        self,
        event: PlayerChainEvent,
        player: Entity,
    ) -> WorldState {
        match self.find_rider(player) {
            Some(rider) => match self.riders[rider].attachment {
                Attachment::Attached(connected) => WorldState {
                    riders: self.riders.update(
                        rider,
                        Rider {
                            attachment: Attachment::Immune(
                                ChainImmunity {
                                    timer: Timer::spec_new(
                                        (IMMUNITY_SECONDS * 1_000_000_000) as u64,
                                        TimerMode::Once,
                                    ),
                                    chain_id: connected.0,
                                },
                            ),
                            gravity_scale: GravityScale(DETACHED_GRAVITY_SCALE),
                            layers: CollisionLayers::spec_default(),
                            rotation: Rotation::spec_identity(),
                            grounded: false,
                            jumping: false,
                            ..self.riders[rider]
                        },
                    ),
                    tethers: self.tethers.filter(
                        |joint: DistanceJoint| !joint.spec_references(player),
                    ),
                    ..self
                },
                _ => self,
            },
            None => self,
        }
    }
}

impl World {
    /// Carries out what `player` asked of its chain, see
    /// [`WorldState::handle_player_chain_event`].
    pub fn handle_player_chain_event(&mut self, chain_event: PlayerChainEvent, player: Entity)
        ensures
            final(self)@ == old(self)@.handle_player_chain_event(chain_event, player),
            old(self)@.wf() ==> final(self)@.wf(),
    {
        proof {
            if old(self)@.wf() {
                lemma_handle_player_chain_event_preserves_wf(old(self)@, chain_event, player);
            }
        }
        match chain_event {
            PlayerChainEvent::LeaveChain => {
                let rider = match self.find_rider(player) {
                    Some(rider) => rider,
                    None => {
                        return ;
                    },
                };
                let chain_id = match &self.riders[rider].attachment {
                    Attachment::Attached(connected) => connected.0.clone(),
                    _ => {
                        return ;
                    },
                };
                let old_rider = &self.riders[rider];
                let new_rider = Rider {
                    entity: old_rider.entity,
                    can_attach: old_rider.can_attach,
                    can_shoot: old_rider.can_shoot,
                    attachment: Attachment::Immune(
                        ChainImmunity::new(
                            Timer::from_seconds(IMMUNITY_SECONDS, TimerMode::Once),
                            chain_id,
                        ),
                    ),
                    gravity_scale: GravityScale(DETACHED_GRAVITY_SCALE),
                    layers: CollisionLayers::default_layers(),
                    rotation: Rotation::identity(),
                    grounded: false,
                    jumping: false,
                };
                self.riders.set(rider, new_rider);

                let ghost joints = self.tethers@;
                let ghost keep = |joint: DistanceJoint| !joint.spec_references(player);
                let mut kept: Vec<DistanceJoint> = Vec::new();
                let mut i: usize = 0;
                while i < self.tethers.len()
                    invariant
                        i <= self.tethers.len(),
                        self.tethers@ == joints,
                        keep == |joint: DistanceJoint| !joint.spec_references(player),
                        kept@ == joints.take(i as int).filter(keep),
                    decreases self.tethers.len() - i,
                {
                    let joint = self.tethers[i];
                    proof {
                        lemma_take_push(joints, i as int);
                        joints.take(i as int).lemma_filter_push(joint, keep);
                    }
                    if !joint.references(player) {
                        kept.push(joint);
                    }
                    i += 1;
                }
                assert(joints.take(joints.len() as int) =~= joints);
                self.tethers = kept;
            },
        }
    }
}

} // verus!
