//! Fixed-point vectors.

use vstd::prelude::*;

verus! {

/// A vector that the engine hands in (an impulse, gravity): three components,
/// each a count of millionths.
#[derive(Clone, Copy, PartialEq, Eq, Structural, Debug)]
pub struct Vec3 {
    pub x: i32,
    pub y: i32,
    pub z: i32,
}

/// A place on or above the table: three coordinates, each a count of
/// millionths of a length unit.
#[derive(Clone, Copy, PartialEq, Eq, Structural, Debug)]
pub struct Position {
    pub x: i64,
    pub y: i64,
    pub z: i64,
}

} // verus!
