use vstd::prelude::*;

verus! {

/// A three-component vector of fixed-point integers.
///
/// The unit of a component depends on where the vector is used: positions,
/// anchors, impulses and joint parameters carry thousandths of a unit,
/// velocities carry millionths. The type itself is just an exact triple.
#[derive(Clone, Copy, PartialEq, Eq, Structural, Debug)]
pub struct Vec3 {
    pub x: i64,
    pub y: i64,
    pub z: i64,
}

impl Vec3 {
    /// Every component lies within `[-limit, limit]`.
    pub open spec fn spec_in_bounds(self, limit: i64) -> bool {
        &&& -limit <= self.x <= limit
        &&& -limit <= self.y <= limit
        &&& -limit <= self.z <= limit
    }

    /// The origin vector.
    pub open spec fn spec_zero() -> Vec3 {
        Vec3 { x: 0, y: 0, z: 0 }
    }

    #[verifier::when_used_as_spec(spec_zero)]
    pub fn zero() -> (v: Vec3)
        ensures
            v == (Vec3 { x: 0, y: 0, z: 0 }),
    {
        Vec3 { x: 0, y: 0, z: 0 }
    }

    pub fn in_bounds(&self, limit: i64) -> (r: bool)
        requires
            0 <= limit,
        ensures
            r == self.spec_in_bounds(limit),
    {
        -limit <= self.x && self.x <= limit && -limit <= self.y && self.y <= limit && -limit
            <= self.z && self.z <= limit
    }
}

} // verus!
