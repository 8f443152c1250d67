//! Fixed-point 3-vectors and axis-aligned boxes.
//!
//! One world unit is `UNIT` steps; every coordinate the library handles is a
//! whole number of steps.
use vstd::prelude::*;

verus! {

/// Steps per world unit.
pub const UNIT: i64 = 1000;

/// Largest magnitude of a coordinate, velocity or extent that the library
/// accepts; keeps every intermediate sum and product inside `i64`.
pub const COORD_LIMIT: i64 = 1_000_000_000_000;

/// A point, offset or velocity, in steps (velocities in steps per second).
#[derive(Clone, Copy, Debug, PartialEq, Eq, Structural)]
pub struct Vec3 {
    pub x: i64,
    pub y: i64,
    pub z: i64,
}

pub open spec fn coord_ok(v: int) -> bool {
    -COORD_LIMIT <= v <= COORD_LIMIT
}

impl Vec3 {
    /// Every component lies within `COORD_LIMIT`.
    pub open spec fn bounded(self) -> bool {
        coord_ok(self.x as int) && coord_ok(self.y as int) && coord_ok(self.z as int)
    }

    pub fn is_bounded(&self) -> (r: bool)
        ensures
            r == self.bounded(),
    {
        -COORD_LIMIT <= self.x && self.x <= COORD_LIMIT && -COORD_LIMIT <= self.y && self.y
            <= COORD_LIMIT && -COORD_LIMIT <= self.z && self.z <= COORD_LIMIT
    }

    pub fn new(x: i64, y: i64, z: i64) -> (r: Vec3)
        ensures
            r == (Vec3 { x, y, z }),
    {
        Vec3 { x, y, z }
    }
}

} // verus!
