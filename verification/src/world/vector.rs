//! Three-component vectors.

use vstd::prelude::*;

verus! {

/// A vector of three components of one type.
#[derive(Clone, Copy, Debug, PartialEq, Eq)]
pub struct Vector3<T> {
    pub x: T,
    pub y: T,
    pub z: T,
}

impl<T> Vector3<T> {
    /// The vector with the components `x`, `y` and `z`.
    pub fn new(x: T, y: T, z: T) -> (v: Vector3<T>)
        ensures
            v == (Vector3 { x, y, z }),
    {
        Vector3 { x, y, z }
    }
}

} // verus!
