//! How shaken a camera is.

use vstd::prelude::*;
use crate::scalar::Scalar;

verus! {

/// How much "trauma" a camera has: the intensity that drives its shake.
///
/// The value is meant to lie in `[0, 1]`. It may leave that interval for a
/// moment, when an impact adds to it from outside; the next decay step brings
/// it back.
#[derive(Clone, Copy, Debug, PartialEq, Eq, Structural)]
pub struct Trauma {
    /// The current intensity.
    pub value: Scalar,
    /// How much intensity is lost per second.
    pub decay: Scalar,
}

impl Trauma {
    /// The value lies in `[0, 1]`.
    pub open spec fn wf(self) -> bool {
        self.value.in_unit_interval()
    }

    /// The record after a decay step whose subtraction came out as `lowered`.
    pub open spec fn decayed_to(self, lowered: Scalar) -> Trauma {
        Trauma { value: lowered.clamp_unit(), decay: self.decay }
    }

    /// A record with the given intensity and decay rate, both taken as they are.
    pub fn new(value: Scalar, decay: Scalar) -> (trauma: Trauma)
        ensures
            trauma == (Trauma { value, decay }),
    {
        Trauma { value, decay }
    }

    /// Finishes one decay step. `lowered` is the value less what has decayed
    /// since the last frame, `value - decay * dt`, as the caller's arithmetic
    /// rounded it; the record keeps it clamped to `[0, 1]`.
    ///
    /// Afterwards the value lies in `[0, 1]`, unless `lowered` is NaN.
    pub fn decay_to(&mut self, lowered: Scalar)
        ensures
            *final(self) == old(self).decayed_to(lowered),
            !lowered.is_nan() ==> final(self).wf(),
    {
        self.value = lowered.clamp_unit();
    }
}

impl Default for Trauma {
    /// No trauma, and none decays.
    fn default() -> (trauma: Trauma)
        ensures
            trauma == (Trauma { value: Scalar::zero(), decay: Scalar::zero() }),
    {
        Trauma { value: Scalar::zero(), decay: Scalar::zero() }
    }
}

/// A decay step that subtracts nothing from a value in `[0, 1]` leaves the
/// record as it was.
pub proof fn lemma_decay_to_own_value(trauma: Trauma)
    requires
        trauma.wf(),
    ensures
        trauma.decayed_to(trauma.value) == trauma,
{
}

/// Whatever the value was before, a decay step whose subtraction came out as a
/// number leaves a value in `[0, 1]`.
pub proof fn lemma_decay_restores_interval(trauma: Trauma, lowered: Scalar)
    requires
        !lowered.is_nan(),
    ensures
        trauma.decayed_to(lowered).wf(),
{
}

} // verus!
