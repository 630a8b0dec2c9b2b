//! The surface-normal type.

use vstd::prelude::*;

verus! {

/// A numeric component type that has a zero. The geometric types are
/// generic over their component, and construction starts from the zero
/// vector, so the component must supply it.
pub trait NumericZero: Sized {
    /// The zero value of the component type.
    spec fn zero_spec() -> Self;

    /// Builds the zero value.
    fn zero() -> (r: Self)
        ensures
            r == Self::zero_spec(),
    ;
}

impl NumericZero for i32 {
    open spec fn zero_spec() -> i32 {
        0
    }

    fn zero() -> (r: i32) {
        0
    }
}

impl NumericZero for i64 {
    open spec fn zero_spec() -> i64 {
        0
    }

    fn zero() -> (r: i64) {
        0
    }
}

impl NumericZero for u32 {
    open spec fn zero_spec() -> u32 {
        0
    }

    fn zero() -> (r: u32) {
        0
    }
}

/// A three-component vector.
#[derive(Clone, Copy, Debug, PartialEq, Eq)]
pub struct Vector3<T> {
    pub x: T,
    pub y: T,
    pub z: T,
}

/// The Normal type is almost like a regular vector, but:
/// - you can't transform a point using a normal
/// - you can't compute the cross product of two normals
///
/// This is purely a "conceptual" type, here to remind you that a normal
/// isn't _quite_ a vector.
pub struct Normal3<T> {
    vec: Vector3<T>,
}

impl<T: NumericZero + Copy> Normal3<T> {
    /// The vector the normal wraps.
    pub closed spec fn vec_spec(&self) -> Vector3<T> {
        self.vec
    }

    /// Builds the zero normal.
    pub fn new() -> (r: Self)
        ensures
            r.vec_spec().x == T::zero_spec(),
            r.vec_spec().y == T::zero_spec(),
            r.vec_spec().z == T::zero_spec(),
    {
        Normal3 { vec: Vector3 { x: T::zero(), y: T::zero(), z: T::zero() } }
    }

    /// Copies a vector into a normal.
    pub fn from_vec(vector: &Vector3<T>) -> (r: Self)
        ensures
            r.vec_spec() == *vector,
    {
        let mut n = Normal3::new();
        n.vec = *vector;
        n
    }

    /// Constructs a normal from three component values.
    pub fn from_xyz(x: T, y: T, z: T) -> (r: Self)
        ensures
            r.vec_spec().x == x,
            r.vec_spec().y == y,
            r.vec_spec().z == z,
    {
        let mut n = Normal3::new();
        n.vec.x = x;
        n.vec.y = y;
        n.vec.z = z;
        n
    }

    /// The const vector accessor.
    pub fn vector(&self) -> (r: &Vector3<T>)
        ensures
            *r == self.vec_spec(),
    {
        &self.vec
    }
}

} // verus!
