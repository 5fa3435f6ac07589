use chain_game::chain_movement::GameLayer;
use chain_game::math::Dir2;
use chain_game::math::Vec2;
use chain_game::physics::AngleLimit;
use chain_game::physics::CollisionLayers;
use chain_game::physics::DistanceJoint;
use chain_game::physics::DistanceLimit;
use chain_game::physics::LayerMask;
use chain_game::physics::RevoluteJoint;
use chain_game::physics::Rotation;

#[test]
fn game_layers_have_one_bit_each() {
    assert_eq!(GameLayer::Default.to_bits(), 1);
    assert_eq!(GameLayer::ChainLayer.to_bits(), 2);
    assert_eq!(GameLayer::TreeLayer.to_bits(), 4);
    assert_eq!(GameLayer::all_bits(), 7);
}

#[test]
fn layer_masks() {
    assert_eq!(LayerMask::all(), LayerMask(0xffff_ffff));
    assert_eq!(LayerMask::default_layer(), LayerMask(1));
    assert_eq!(LayerMask::all().without(2), LayerMask(0xffff_fffd));
    assert_eq!(LayerMask(0b0110).without(0b0100), LayerMask(0b0010));
    assert!(LayerMask(0b0110).contains(0b0100));
    assert!(!LayerMask(0b0110).contains(0b0101));
}

#[test]
fn collision_layers_interact_when_both_sides_agree() {
    let chain = CollisionLayers::new(LayerMask(2), LayerMask::all());
    let rider = CollisionLayers::default_layers();
    assert_eq!(rider, CollisionLayers { memberships: LayerMask(1), filters: LayerMask(0xffff_ffff) });
    assert!(chain.interacts_with(rider));
    let riding = CollisionLayers::new(LayerMask(1), LayerMask::all().without(2));
    assert!(!chain.interacts_with(riding));
    assert!(!riding.interacts_with(chain));
    assert!(riding.interacts_with(rider));
}

#[test]
fn revolute_joint_builders() {
    let joint = RevoluteJoint::new(3, 4);
    assert_eq!(joint.entity1, 3);
    assert_eq!(joint.entity2, 4);
    assert_eq!(joint.local_anchor2, Vec2::new(0, 0));
    assert_eq!(joint.angle_limit, None);
    assert_eq!(joint.compliance, 0);
    let tuned = joint.with_local_anchor_2(Vec2::new(0, 16_000)).with_angle_limits(-10, 10).with_compliance(1000);
    assert_eq!(tuned.entity1, 3);
    assert_eq!(tuned.entity2, 4);
    assert_eq!(tuned.local_anchor2, Vec2::new(0, 16_000));
    assert_eq!(tuned.angle_limit, Some(AngleLimit { min: -10, max: 10 }));
    assert_eq!(tuned.compliance, 1000);
}

#[test]
fn distance_joint_builders() {
    let joint = DistanceJoint::new(7, 9);
    assert_eq!(joint.length_limits, None);
    let limited = joint.with_limits(1000, 5000);
    assert_eq!(limited, DistanceJoint { entity1: 7, entity2: 9, length_limits: Some(DistanceLimit { min: 1000, max: 5000 }) });
    assert!(limited.references(7));
    assert!(limited.references(9));
    assert!(!limited.references(8));
}

#[test]
fn rotations() {
    assert_eq!(Rotation::identity(), Rotation { from: Dir2::y(), to: Dir2::y() });
    let arc = Rotation::arc(Dir2::neg_y(), Dir2 { x: 600_000_000, y: 800_000_000 });
    assert_eq!(arc.from, Dir2 { x: 0, y: -1_000_000_000 });
    assert_eq!(arc.to, Dir2 { x: 600_000_000, y: 800_000_000 });
}
