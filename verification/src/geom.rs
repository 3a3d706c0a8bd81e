//! Integer-valued geometry for the board and the cards.
//!
//! Every coordinate is measured in milli-units: one thousandth of a world
//! unit of the host renderer.  All the poses this crate ever produces are
//! rotated by whole multiples of an eighth of a turn, so a rotation is kept
//! as an axis together with a signed count of eighth turns.

use vstd::prelude::*;

verus! {

/// How many milli-units make one world unit.
pub const MILLI_PER_UNIT: i64 = 1000;

/// Extents handed to the layout functions are capped so that their
/// arithmetic stays far from overflow.
pub const MAX_EXTENT: i64 = 1000000000;

/// A point or translation, in milli-units.
#[derive(Clone, Copy, Debug, PartialEq, Eq, Structural)]
pub struct MilliVec3 {
    pub x: i64,
    pub y: i64,
    pub z: i64,
}

impl MilliVec3 {
    /// The origin.
    pub fn zero() -> (r: MilliVec3)
        ensures
            r == (MilliVec3 { x: 0, y: 0, z: 0 }),
    {
        MilliVec3 { x: 0, y: 0, z: 0 }
    }

    pub fn new(x: i64, y: i64, z: i64) -> (r: MilliVec3)
        ensures
            r == (MilliVec3 { x, y, z }),
    {
        MilliVec3 { x, y, z }
    }
}

/// A coordinate axis of the world.
#[derive(Clone, Copy, Debug, PartialEq, Eq, Structural)]
pub enum Axis {
    X,
    Y,
    Z,
}

/// A rotation about one axis by a whole number of eighth turns
/// (one eighth turn is 45 degrees).
#[derive(Clone, Copy, Debug, PartialEq, Eq, Structural)]
pub struct Rot8 {
    pub axis: Axis,
    pub eighth_turns: i8,
}

impl Rot8 {
    /// The identity rotation.
    pub fn none() -> (r: Rot8)
        ensures
            r == (Rot8 { axis: Axis::Z, eighth_turns: 0 }),
    {
        Rot8 { axis: Axis::Z, eighth_turns: 0 }
    }

    pub fn about(axis: Axis, eighth_turns: i8) -> (r: Rot8)
        ensures
            r == (Rot8 { axis, eighth_turns }),
    {
        Rot8 { axis, eighth_turns }
    }
}

/// A placement in the world: a translation and a rotation.
#[derive(Clone, Copy, Debug, PartialEq, Eq, Structural)]
pub struct Pose {
    pub translation: MilliVec3,
    pub rot: Rot8,
}

impl Pose {
    /// An unrotated pose at the given point.
    pub fn from_xyz(x: i64, y: i64, z: i64) -> (r: Pose)
        ensures
            r.translation == (MilliVec3 { x, y, z }),
            r.rot == (Rot8 { axis: Axis::Z, eighth_turns: 0 }),
    {
        Pose { translation: MilliVec3 { x, y, z }, rot: Rot8 { axis: Axis::Z, eighth_turns: 0 } }
    }

    /// The same pose with its rotation replaced.
    pub fn with_rotation(self, rot: Rot8) -> (r: Pose)
        ensures
            r.translation == self.translation,
            r.rot == rot,
    {
        Pose { translation: self.translation, rot }
    }
}

} // verus!
