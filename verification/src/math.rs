//! Fixed-point plane geometry.
//!
//! Positions are stored in thousandths of a world unit, directions as unit
//! vectors scaled by [`DIR_UNIT`]. Every operation is exact integer
//! arithmetic with a stated rounding, so that the rest of the crate can be
//! reasoned about without real numbers. Coordinates that would leave the
//! representable plane stop at its border.

use vstd::prelude::*;

verus! {

/// Length of a unit direction vector in its own fixed-point scale.
pub const DIR_UNIT: i32 = 1_000_000_000;

/// A position (or displacement) of the plane, in thousandths of a world unit.
#[derive(Clone, Copy, Debug, PartialEq, Eq, Structural)]
pub struct Vec2 {
    pub x: i32,
    pub y: i32,
}

/// A direction of the plane: a vector whose length is [`DIR_UNIT`], up to the
/// rounding of each component toward zero.
#[derive(Clone, Copy, Debug, PartialEq, Eq, Structural)]
pub struct Dir2 {
    pub x: i32,
    pub y: i32,
}

/// `root` is the integer square root of `n`, rounded down.
pub open spec fn is_sqrt_floor(n: nat, root: nat) -> bool {
    root * root <= n < (root + 1) * (root + 1)
}

/// The integer square root of `n`, rounded down.
pub open spec fn sqrt_floor(n: nat) -> nat {
    choose|root: nat| is_sqrt_floor(n, root)
}

/// Squares preserve the order of natural numbers.
pub proof fn lemma_square_monotonic(a: nat, b: nat)
    ensures
        a <= b ==> a * a <= b * b,
        a < b ==> a * a < b * b,
{
    assert(a <= b ==> a * a <= b * b) by (nonlinear_arith);
    assert(a < b ==> a * a < b * b) by (nonlinear_arith);
}

/// A number has exactly one rounded-down square root, which `sqrt_floor` names.
pub proof fn lemma_sqrt_floor_unique(n: nat, root: nat)
    requires
        is_sqrt_floor(n, root),
    ensures
        sqrt_floor(n) == root,
{
    let other = sqrt_floor(n);
    assert(is_sqrt_floor(n, other));
    if other < root {
        lemma_square_monotonic(other + 1, root);
    } else if root < other {
        lemma_square_monotonic(root + 1, other);
    }
}

/// The rounded-down square root never shrinks when its argument grows.
pub proof fn lemma_sqrt_floor_monotonic(a: nat, b: nat, root_a: nat, root_b: nat)
    requires
        a <= b,
        is_sqrt_floor(a, root_a),
        is_sqrt_floor(b, root_b),
    ensures
        root_a <= root_b,
{
    if root_b < root_a {
        lemma_square_monotonic(root_b + 1, root_a);
    }
}

/// Computes the integer square root of `n`, rounded down.
pub fn isqrt(n: u128) -> (root: u64)
    ensures
        is_sqrt_floor(n as nat, root as nat),
        root as nat == sqrt_floor(n as nat),
{
    let mut low: u128 = 0;
    let mut high: u128 = 0x1_0000_0000_0000_0000;
    assert(n < high * high) by (nonlinear_arith)
        requires
            n <= u128::MAX,
            high == 0x1_0000_0000_0000_0000u128,
    ;
    while high - low > 1
        invariant
            low < high <= 0x1_0000_0000_0000_0000,
            low * low <= n < high * high,
        decreases high - low,
    {
        let mid: u128 = low + (high - low) / 2;
        assert(mid * mid <= u128::MAX) by (nonlinear_arith)
            requires
                mid < 0x1_0000_0000_0000_0000u128,
        ;
        if mid * mid <= n {
            low = mid;
        } else {
            high = mid;
        }
    }
    proof {
        lemma_sqrt_floor_unique(n as nat, low as nat);
    }
    low as u64
}

/// Limits an exact coordinate to the representable plane.
pub open spec fn clamp_coordinate(value: int) -> int {
    if value < i32::MIN {
        i32::MIN as int
    } else if value > i32::MAX {
        i32::MAX as int
    } else {
        value
    }
}

/// One component of a direction: `delta` over the vector's length, in the
/// scale of [`DIR_UNIT`] and rounded toward zero. `length_squared` is the
/// squared length of the vector that `delta` belongs to.
pub open spec fn unit_component(delta: int, length_squared: nat) -> int {
    let magnitude = sqrt_floor(
        ((DIR_UNIT as nat * DIR_UNIT as nat) * (delta * delta) as nat) / length_squared,
    );
    if delta < 0 {
        -(magnitude as int)
    } else {
        magnitude as int
    }
}

/// One component of `length` steps along a direction: `length * component /
/// DIR_UNIT`, rounded to the nearest whole, a half away from zero.
pub open spec fn scaled_component(component: int, length: nat) -> int {
    if component < 0 {
        -((length * (-component) + DIR_UNIT / 2) / DIR_UNIT as int)
    } else {
        (length * component + DIR_UNIT / 2) / DIR_UNIT as int
    }
}

impl Vec2 {
    pub fn new(x: i32, y: i32) -> (point: Vec2)
        ensures
            point == (Vec2 { x, y }),
    {
        Vec2 { x, y }
    }

    /// The squared Euclidean distance between two points.
    pub open spec fn spec_distance_squared(self, other: Vec2) -> nat {
        ((other.x - self.x) * (other.x - self.x) + (other.y - self.y) * (other.y - self.y)) as nat
    }

    /// The direction from `self` to `target`, or `None` when no direction
    /// exists because the two points coincide.
    pub open spec fn spec_direction_to(self, target: Vec2) -> Option<Dir2> {
        if self == target {
            None
        } else {
            let length_squared = self.spec_distance_squared(target);
            Some(
                Dir2 {
                    x: unit_component(target.x - self.x, length_squared) as i32,
                    y: unit_component(target.y - self.y, length_squared) as i32,
                },
            )
        }
    }

    /// The point `length` steps from `self` along `direction`, each
    /// coordinate limited to the representable plane.
    pub open spec fn spec_advance(self, direction: Dir2, length: nat) -> Vec2 {
        Vec2 {
            x: clamp_coordinate(self.x + scaled_component(direction.x as int, length)) as i32,
            y: clamp_coordinate(self.y + scaled_component(direction.y as int, length)) as i32,
        }
    }

    /// The point `length` steps from `self` against `direction`.
    pub open spec fn spec_retreat(self, direction: Dir2, length: nat) -> Vec2 {
        Vec2 {
            x: clamp_coordinate(self.x - scaled_component(direction.x as int, length)) as i32,
            y: clamp_coordinate(self.y - scaled_component(direction.y as int, length)) as i32,
        }
    }

    /// Computes the squared Euclidean distance between two points.
    pub fn distance_squared(self, other: Vec2) -> (squared: u128)
        ensures
            squared == self.spec_distance_squared(other),
            squared <= 0x2_0000_0000_0000_0000,
            squared == 0 <==> self == other,
    {
        let dx: i64 = other.x as i64 - self.x as i64;
        let dy: i64 = other.y as i64 - self.y as i64;
        let ax: u128 = magnitude_of(dx);
        let ay: u128 = magnitude_of(dy);
        assert(ax * ax == dx * dx && ax * ax <= 0x1_0000_0000_0000_0000) by (nonlinear_arith)
            requires
                ax == dx || ax == -dx,
                ax <= 0x1_0000_0000u128,
        ;
        assert(ay * ay == dy * dy && ay * ay <= 0x1_0000_0000_0000_0000) by (nonlinear_arith)
            requires
                ay == dy || ay == -dy,
                ay <= 0x1_0000_0000u128,
        ;
        assert(ax * ax == 0 <==> ax == 0) by (nonlinear_arith);
        assert(ay * ay == 0 <==> ay == 0) by (nonlinear_arith);
        ax * ax + ay * ay
    }

    /// Computes the direction from `self` to `target`; there is none when the
    /// two points coincide.
    pub fn direction_to(self, target: Vec2) -> (direction: Option<Dir2>)
        ensures
            direction == self.spec_direction_to(target),
            direction is None <==> self == target,
    {
        let length_squared = self.distance_squared(target);
        if length_squared == 0 {
            return None;
        }
        proof {
            let dx = target.x - self.x;
            let dy = target.y - self.y;
            assert(dx * dx >= 0 && dy * dy >= 0) by (nonlinear_arith);
        }
        let x = unit_component_of(target.x as i64 - self.x as i64, length_squared);
        let y = unit_component_of(target.y as i64 - self.y as i64, length_squared);
        Some(Dir2 { x, y })
    }

    /// Computes the point `length` steps from `self` along `direction`.
    pub fn advance(self, direction: Dir2, length: u64) -> (point: Vec2)
        ensures
            point == self.spec_advance(direction, length as nat),
    {
        let x = clamp_to_coordinate(self.x as i128 + scaled_component_of(direction.x, length));
        let y = clamp_to_coordinate(self.y as i128 + scaled_component_of(direction.y, length));
        Vec2 { x, y }
    }

    /// Computes the point `length` steps from `self` against `direction`.
    pub fn retreat(self, direction: Dir2, length: u64) -> (point: Vec2)
        ensures
            point == self.spec_retreat(direction, length as nat),
    {
        let x = clamp_to_coordinate(self.x as i128 - scaled_component_of(direction.x, length));
        let y = clamp_to_coordinate(self.y as i128 - scaled_component_of(direction.y, length));
        Vec2 { x, y }
    }
}

impl Dir2 {
    /// The direction of decreasing `y`, along which chain links hang.
    pub open spec fn spec_neg_y() -> Dir2 {
        Dir2 { x: 0, y: (-DIR_UNIT) as i32 }
    }

    /// The direction of increasing `y`.
    pub open spec fn spec_y() -> Dir2 {
        Dir2 { x: 0, y: DIR_UNIT }
    }

    pub fn neg_y() -> (direction: Dir2)
        ensures
            direction == Dir2::spec_neg_y(),
    {
        Dir2 { x: 0, y: -DIR_UNIT }
    }

    pub fn y() -> (direction: Dir2)
        ensures
            direction == Dir2::spec_y(),
    {
        Dir2 { x: 0, y: DIR_UNIT }
    }
}

/// The absolute value of `value`.
fn magnitude_of(value: i64) -> (magnitude: u128)
    ensures
        magnitude == if value < 0 {
            -value
        } else {
            value as int
        },
{
    if value < 0 {
        (-(value as i128)) as u128
    } else {
        value as u128
    }
}

/// Computes one component of a direction, see [`unit_component`].
fn unit_component_of(delta: i64, length_squared: u128) -> (component: i32)
    requires
        -0x1_0000_0000 < delta < 0x1_0000_0000,
        delta * delta <= length_squared,
        length_squared > 0,
    ensures
        component == unit_component(delta as int, length_squared as nat),
        -DIR_UNIT <= component <= DIR_UNIT,
{
    let magnitude: u128 = magnitude_of(delta);
    let unit: u128 = 1_000_000_000;
    assert(magnitude * magnitude == delta * delta && magnitude * magnitude
        <= 0x1_0000_0000_0000_0000) by (nonlinear_arith)
        requires
            magnitude == delta || magnitude == -delta,
            magnitude <= 0x1_0000_0000u128,
    ;
    let square: u128 = magnitude * magnitude;
    assert((unit * unit) * square <= u128::MAX) by (nonlinear_arith)
        requires
            unit == 1_000_000_000u128,
            square <= 0x1_0000_0000_0000_0000u128,
    ;
    let scaled: u128 = (unit * unit) * square;
    let quotient: u128 = scaled / length_squared;
    assert(quotient <= unit * unit) by (nonlinear_arith)
        requires
            scaled == (unit * unit) * square,
            square <= length_squared,
            length_squared > 0,
            quotient == scaled / length_squared,
    ;
    let root = isqrt(quotient);
    proof {
        assert(is_sqrt_floor((unit * unit) as nat, unit as nat)) by (nonlinear_arith)
            requires
                unit == 1_000_000_000u128,
        ;
        lemma_sqrt_floor_monotonic(quotient as nat, (unit * unit) as nat, root as nat, unit as nat);
    }
    if delta < 0 {
        -(root as i32)
    } else {
        root as i32
    }
}

/// Computes one component of a displacement, see [`scaled_component`].
fn scaled_component_of(component: i32, length: u64) -> (offset: i128)
    ensures
        offset == scaled_component(component as int, length as nat),
        -0x1_0000_0000_0000_0000 * 4 <= offset <= 0x1_0000_0000_0000_0000 * 4,
{
    let magnitude: u128 = magnitude_of(component as i64);
    assert((length as u128) * magnitude <= 0x1_0000_0000_0000_0000 * 0x8000_0000) by (nonlinear_arith)
        requires
            length <= u64::MAX,
            magnitude <= 0x8000_0000u128,
    ;
    let product: u128 = (length as u128) * magnitude;
    let quotient: u128 = (product + 500_000_000) / 1_000_000_000;
    if component < 0 {
        -(quotient as i128)
    } else {
        quotient as i128
    }
}

/// Limits a coordinate to the representable plane, see [`clamp_coordinate`].
pub fn clamp_to_coordinate(value: i128) -> (coordinate: i32)
    ensures
        coordinate == clamp_coordinate(value as int),
{
    if value < i32::MIN as i128 {
        i32::MIN
    } else if value > i32::MAX as i128 {
        i32::MAX
    } else {
        value as i32
    }
}

} // verus!
