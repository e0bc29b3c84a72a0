//! Default values for newly configured bodies.

use core::marker::PhantomData;
use vstd::prelude::*;

use crate::types::Numeric;
use crate::vec3::Vec3;

verus! {

/// Per-representation defaults, parameterized by the numeric type.
pub struct Defaults<TNum> {
    _type_marker: PhantomData<TNum>,
}

impl<TNum: Numeric> Defaults<TNum> {
    /// The zero vector.
    pub fn zero_vec() -> (r: Vec3<TNum>)
        ensures
            r == Vec3::<TNum>::zero_spec(),
    {
        Vec3::new([TNum::zero(), TNum::zero(), TNum::zero()])
    }

    /// A body's mass when the configuration gives none: the multiplicative
    /// identity.
    pub fn default_mass() -> (r: TNum)
        ensures
            r == TNum::one_spec(),
    {
        TNum::identity()
    }

    /// A body's position when the configuration gives none: the origin.
    pub fn default_position() -> (r: Vec3<TNum>)
        ensures
            r == Vec3::<TNum>::zero_spec(),
    {
        Self::zero_vec()
    }

    /// A body's velocity when the configuration gives none: at rest.
    pub fn default_velocity() -> (r: Vec3<TNum>)
        ensures
            r == Vec3::<TNum>::zero_spec(),
    {
        Self::zero_vec()
    }

    /// A body's acceleration when the configuration gives none: none.
    pub fn default_acceleration() -> (r: Vec3<TNum>)
        ensures
            r == Vec3::<TNum>::zero_spec(),
    {
        Self::zero_vec()
    }
}

} // verus!
