//! Where a camera stands and how it is turned.

use vstd::prelude::*;
use crate::scalar::Scalar;

verus! {

/// A position in world units.
#[derive(Clone, Copy, Debug, PartialEq, Eq, Structural)]
pub struct Translation {
    pub x: Scalar,
    pub y: Scalar,
    pub z: Scalar,
}

/// An orientation, as the four components of a quaternion.
#[derive(Clone, Copy, Debug, PartialEq, Eq, Structural)]
pub struct Rotation {
    pub x: Scalar,
    pub y: Scalar,
    pub z: Scalar,
    pub w: Scalar,
}

/// The pose of a camera. Two transforms are equal when every component has
/// the same encoding.
#[derive(Clone, Copy, Debug, PartialEq, Eq, Structural)]
pub struct Transform {
    pub translation: Translation,
    pub rotation: Rotation,
}

impl Transform {
    /// The pose that stands at `(x, y)` in the plane of the screen, keeps the
    /// depth of `self`, and is turned by `rotation`.
    pub open spec fn spec_moved_in_plane(self, x: Scalar, y: Scalar, rotation: Rotation) -> Transform {
        Transform { translation: Translation { x, y, z: self.translation.z }, rotation }
    }

    /// The pose that stands at `(x, y)` in the plane of the screen, keeps the
    /// depth of `self`, and is turned by `rotation`.
    #[verifier::when_used_as_spec(spec_moved_in_plane)]
    pub fn moved_in_plane(self, x: Scalar, y: Scalar, rotation: Rotation) -> (moved: Transform)
        ensures
            moved == self.spec_moved_in_plane(x, y, rotation),
    {
        Transform { translation: Translation { x, y, z: self.translation.z }, rotation }
    }
}

} // verus!
