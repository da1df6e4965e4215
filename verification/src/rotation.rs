//! How far a sphere has turned about each axis at a given animation time.
//!
//! Time is counted in thousandths of a time unit and angles in thousandths
//! of a quarter turn, so that the angle about an axis is the plain product
//! of the time and the sphere's weight for that axis: after one whole time
//! unit a weight of 1 has turned the sphere by one quarter turn.

use vstd::prelude::*;

verus! {

/// Angle units in one quarter turn.
pub const QUARTER_TURN: i128 = 1000;

/// One of the three coordinate axes.
#[derive(Clone, Copy, Debug, PartialEq, Eq, Structural)]
pub enum Axis {
    X,
    Y,
    Z,
}

/// A sphere's relative angular velocity about each axis, in quarter turns
/// per time unit.
#[derive(Clone, Copy, Debug, PartialEq, Eq, Structural)]
pub struct Weights {
    pub x: i32,
    pub y: i32,
    pub z: i32,
}

impl Weights {
    /// The weights with the given values about X, Y and Z.
    pub open spec fn of(x: int, y: int, z: int) -> Weights {
        Weights { x: x as i32, y: y as i32, z: z as i32 }
    }
}

/// A turn about one axis by `angle` thousandths of a quarter turn.
#[derive(Clone, Copy, Debug, PartialEq, Eq, Structural)]
pub struct Turn {
    pub axis: Axis,
    pub angle: i128,
}

/// A rotation given by its angles about the X, Y and Z axes, each in
/// thousandths of a quarter turn. Angles are not reduced modulo a full turn.
///
/// The rotation is the product of the three elementary turns taken in the
/// order X, Y, Z, the turn about X standing leftmost.
#[derive(Clone, Copy, Debug, PartialEq, Eq, Structural)]
pub struct Rotation {
    pub x: i128,
    pub y: i128,
    pub z: i128,
}

/// The angle reached about one axis: time multiplied by weight.
pub open spec fn angle_at(time: int, weight: int) -> int {
    time * weight
}

/// Every product of a `u64` time and an `i32` weight fits an `i128`.
pub proof fn lemma_angle_fits(time: u64, weight: i32)
    ensures
        i128::MIN <= angle_at(time as int, weight as int) <= i128::MAX,
{
    let t: int = time as int;
    let w: int = weight as int;
    assert(-0x1_0000_0000_0000_0000 * 0x8000_0000 <= t * w <= 0x1_0000_0000_0000_0000
        * 0x8000_0000) by (nonlinear_arith)
        requires
            0 <= t <= 0x1_0000_0000_0000_0000,
            -0x8000_0000 <= w <= 0x8000_0000,
    ;
}

impl Rotation {
    /// The rotation reached at `time` by a sphere with the given weights.
    /// Every time that a `u64` clock can show gives angles that fit.
    pub open spec fn at(time: int, weights: Weights) -> Rotation {
        Rotation {
            x: angle_at(time, weights.x as int) as i128,
            y: angle_at(time, weights.y as int) as i128,
            z: angle_at(time, weights.z as int) as i128,
        }
    }

    /// No turn about any axis.
    pub open spec fn is_zero(self) -> bool {
        self.x == 0 && self.y == 0 && self.z == 0
    }

    /// The elementary turns in the order in which they are composed.
    pub open spec fn sequence(self) -> Seq<Turn> {
        seq![
            Turn { axis: Axis::X, angle: self.x },
            Turn { axis: Axis::Y, angle: self.y },
            Turn { axis: Axis::Z, angle: self.z },
        ]
    }

    /// Computes the rotation reached at `time`: about each axis the angle
    /// is `time` multiplied by that axis's weight.
    pub fn at_time(time: u64, weights: &Weights) -> (rotation: Rotation)
        ensures
            rotation == Rotation::at(time as int, *weights),
            rotation.x == time * weights.x,
            rotation.y == time * weights.y,
            rotation.z == time * weights.z,
            time == 0 ==> rotation.is_zero(),
    {
        proof {
            lemma_angle_fits(time, weights.x);
            lemma_angle_fits(time, weights.y);
            lemma_angle_fits(time, weights.z);
            if time == 0 {
                lemma_zero_rotation_at_start(*weights);
            }
        }
        let t: i128 = time as i128;
        Rotation {
            x: t * (weights.x as i128),
            y: t * (weights.y as i128),
            z: t * (weights.z as i128),
        }
    }

    /// Whether this is the rotation by zero angles.
    pub fn has_no_turn(&self) -> (zero: bool)
        ensures
            zero == self.is_zero(),
    {
        self.x == 0 && self.y == 0 && self.z == 0
    }

    /// The three elementary turns in composition order: X, then Y, then Z.
    pub fn turns(&self) -> (turns: Vec<Turn>)
        ensures
            turns@ == self.sequence(),
    {
        let mut turns: Vec<Turn> = Vec::new();
        turns.push(Turn { axis: Axis::X, angle: self.x });
        turns.push(Turn { axis: Axis::Y, angle: self.y });
        turns.push(Turn { axis: Axis::Z, angle: self.z });
        assert(turns@ =~= self.sequence());
        turns
    }
}

/// At time zero the rotation has a zero angle about every axis, whatever
/// the weights are.
pub proof fn lemma_zero_rotation_at_start(weights: Weights)
    ensures
        Rotation::at(0, weights).is_zero(),
{
}

} // verus!
