//! The limits of a camera's shake.

use vstd::prelude::*;
use crate::scalar::Scalar;

verus! {

/// The shake settings of one camera.
#[derive(Clone, Copy, Debug, PartialEq, Eq, Structural)]
pub struct CameraShaker2d {
    /// Scales the whole shake; zero switches it off.
    pub shake: Scalar,
    /// The largest turn, in radians.
    pub max_angle: Scalar,
    /// The largest shift, in world units.
    pub max_offset: Scalar,
    /// Whether the camera is at present displaced from the pure pose.
    pub enabled: bool,
}

/// Named strengths of shake.
#[derive(Clone, Copy, Debug, PartialEq, Eq, Structural)]
pub enum CameraShakePreset {
    Earthquake,
    Punch,
    Custom,
}

impl CameraShaker2d {
    /// Neither limit is negative or NaN.
    pub open spec fn wf(self) -> bool {
        &&& !self.max_angle.is_nan() && !self.max_angle.is_negative()
        &&& !self.max_offset.is_nan() && !self.max_offset.is_negative()
    }

    /// Settings for a camera at rest: the three numbers as given, not enabled.
    pub fn new(shake: Scalar, max_angle: Scalar, max_offset: Scalar) -> (shaker: CameraShaker2d)
        ensures
            shaker == (CameraShaker2d { shake, max_angle, max_offset, enabled: false }),
    {
        CameraShaker2d { shake, max_angle, max_offset, enabled: false }
    }

    /// Whether neither limit is negative or NaN.
    pub fn is_valid(&self) -> (b: bool)
        ensures
            b == self.wf(),
    {
        !self.max_angle.is_nan() && !self.max_angle.is_negative() && !self.max_offset.is_nan()
            && !self.max_offset.is_negative()
    }
}

impl Default for CameraShaker2d {
    /// No shake at all, not enabled.
    fn default() -> (shaker: CameraShaker2d)
        ensures
            shaker == (CameraShaker2d {
                shake: Scalar::zero(),
                max_angle: Scalar::zero(),
                max_offset: Scalar::zero(),
                enabled: false,
            }),
    {
        CameraShaker2d {
            shake: Scalar::zero(),
            max_angle: Scalar::zero(),
            max_offset: Scalar::zero(),
            enabled: false,
        }
    }
}

} // verus!
