//! A small 3-vector value type over a numeric scalar.
//!
//! Component order is fixed (x, y, z); all operations act component-wise,
//! are pure, and never fail.  Values have copy semantics, never shared
//! ownership.

use vstd::prelude::*;

use crate::types::Numeric;

verus! {

/// An immutable triple of numeric values: a position, velocity,
/// acceleration or displacement.
#[derive(Clone, Copy, PartialEq, Eq, Structural, Debug)]
pub struct Vec3<T> {
    pub x: T,
    pub y: T,
    pub z: T,
}

impl<T> Vec3<T> {
    /// Builds a vector from its three components given as an array in
    /// (x, y, z) order.
    pub fn new(data: [T; 3]) -> (r: Self) where T: Copy
        ensures
            r.x == data[0],
            r.y == data[1],
            r.z == data[2],
    {
        Self { x: data[0], y: data[1], z: data[2] }
    }

    /// Builds a vector from its three components.
    pub fn new_from_components(x: T, y: T, z: T) -> (r: Self)
        ensures
            r.x == x,
            r.y == y,
            r.z == z,
    {
        Self { x, y, z }
    }
}

impl<T: Numeric> Vec3<T> {
    /// The zero vector, as a specification value.
    pub open spec fn zero_spec() -> Self {
        Vec3 { x: T::zero_spec(), y: T::zero_spec(), z: T::zero_spec() }
    }

    /// Component-wise sum, as a specification value.
    pub open spec fn add_spec(a: Self, b: Self) -> Self {
        Vec3 { x: a.x.plus_spec(b.x), y: a.y.plus_spec(b.y), z: a.z.plus_spec(b.z) }
    }

    /// Component-wise difference, as a specification value.
    pub open spec fn sub_spec(a: Self, b: Self) -> Self {
        Vec3 { x: a.x.minus_spec(b.x), y: a.y.minus_spec(b.y), z: a.z.minus_spec(b.z) }
    }

    /// Component-wise scaling, as a specification value.
    pub open spec fn scale_spec(self, scalar: T) -> Self {
        Vec3 {
            x: self.x.times_spec(scalar),
            y: self.y.times_spec(scalar),
            z: self.z.times_spec(scalar),
        }
    }

    /// Sum of squared components, as a specification value.
    pub open spec fn length_sq_spec(self) -> T {
        self.x.times_spec(self.x).plus_spec(self.y.times_spec(self.y)).plus_spec(
            self.z.times_spec(self.z),
        )
    }

    /// Euclidean length, as a specification value.
    pub open spec fn length_spec(self) -> T {
        self.length_sq_spec().sqrt_spec()
    }

    /// The zero vector.
    pub fn zero() -> (r: Self)
        ensures
            r == Self::zero_spec(),
    {
        Self { x: T::zero(), y: T::zero(), z: T::zero() }
    }

    /// Component-wise vector addition.
    pub fn add_vec(v0: &Self, v1: &Self) -> (r: Self)
        ensures
            r == Self::add_spec(*v0, *v1),
    {
        Self { x: v0.x.plus(v1.x), y: v0.y.plus(v1.y), z: v0.z.plus(v1.z) }
    }

    /// Component-wise vector subtraction.
    pub fn sub_vec(v0: &Self, v1: &Self) -> (r: Self)
        ensures
            r == Self::sub_spec(*v0, *v1),
    {
        Self { x: v0.x.minus(v1.x), y: v0.y.minus(v1.y), z: v0.z.minus(v1.z) }
    }

    /// Multiplies every component by a scalar.
    pub fn scale(&self, scalar: T) -> (r: Self)
        ensures
            r == self.scale_spec(scalar),
    {
        Self { x: self.x.times(scalar), y: self.y.times(scalar), z: self.z.times(scalar) }
    }

    /// Sum of the squared components.  The kernel works with this directly
    /// wherever it can, to avoid redundant roots.
    pub fn length_sq(&self) -> (r: T)
        ensures
            r == self.length_sq_spec(),
    {
        self.x.times(self.x).plus(self.y.times(self.y)).plus(self.z.times(self.z))
    }

    /// Euclidean length: the square root of the sum of squared components.
    pub fn length(&self) -> (r: T)
        ensures
            r == self.length_spec(),
    {
        self.length_sq().sq_root()
    }
}

} // verus!
