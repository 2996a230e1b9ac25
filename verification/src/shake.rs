//! The shake step: what each shaky camera does in one frame.
//!
//! A camera whose trauma is above zero is enabled and gets the noise channels
//! from which its displacement is to be computed. A camera whose trauma is
//! zero is disabled and put onto the pure pose. A camera whose trauma is
//! neither (below zero, or NaN) is left where it is; if it is enabled it is to
//! be eased back towards the pure pose.

use vstd::prelude::*;
use crate::channels::NoiseChannels;
use crate::scalar::Scalar;
use crate::shaker::CameraShaker2d;
use crate::transform::{Rotation, Transform};
use crate::trauma::Trauma;

verus! {

/// A camera that shakes: its own pose, its trauma and its settings.
#[derive(Clone, Copy, Debug, PartialEq, Eq, Structural)]
pub struct ShakyCamera {
    pub transform: Transform,
    pub trauma: Trauma,
    pub shaker: CameraShaker2d,
}

/// What is left to do for a camera once the step has decided.
#[derive(Clone, Copy, Debug, PartialEq, Eq, Structural)]
pub enum ShakeAction {
    /// Sample the three channels and displace the camera from the pure pose.
    Displace(NoiseChannels),
    /// Nothing: the camera has been put onto the pure pose.
    Snap,
    /// Ease the camera back towards the pure pose.
    Relax,
    /// Nothing: the camera stays where it is.
    Hold,
}

/// Why the shake step could not run.
#[derive(Clone, Copy, Debug, PartialEq, Eq, Structural)]
pub enum ShakeError {
    /// There is no pure camera to follow.
    NoPureCamera,
    /// There is more than one pure camera, and no way to choose.
    MultiplePureCameras,
}

impl ShakyCamera {
    /// The camera after the shake step that follows the pose `pure`.
    pub open spec fn shaken(self, pure: Transform) -> ShakyCamera {
        if self.trauma.value.is_positive() {
            ShakyCamera { shaker: CameraShaker2d { enabled: true, ..self.shaker }, ..self }
        } else if self.trauma.value.is_zero() {
            ShakyCamera {
                transform: pure,
                shaker: CameraShaker2d { enabled: false, ..self.shaker },
                ..self
            }
        } else {
            self
        }
    }

    /// What the shake step leaves to do for the camera, if `seed` is the seed
    /// drawn for it. The seed matters only while the trauma is above zero.
    pub open spec fn action(self, seed: u32) -> ShakeAction {
        if self.trauma.value.is_positive() {
            ShakeAction::Displace(NoiseChannels::from_seed(seed))
        } else if self.trauma.value.is_zero() {
            ShakeAction::Snap
        } else if self.shaker.enabled {
            ShakeAction::Relax
        } else {
            ShakeAction::Hold
        }
    }

    /// `action` is what the shake step leaves to do for the camera, for some
    /// seed that can be drawn.
    pub open spec fn may_answer(self, action: ShakeAction) -> bool {
        exists|seed: u32| seed < u32::MAX && action == #[trigger] self.action(seed)
    }

    /// The camera displaced from the pose `pure`: it stands at `(x, y)`, keeps
    /// the depth of `pure`, and is turned by `rotation`.
    pub open spec fn displaced(self, pure: Transform, x: Scalar, y: Scalar, rotation: Rotation) -> ShakyCamera {
        ShakyCamera { transform: pure.moved_in_plane(x, y, rotation), ..self }
    }

    /// A camera with the given pose, trauma and settings.
    pub fn new(transform: Transform, trauma: Trauma, shaker: CameraShaker2d) -> (camera: ShakyCamera)
        ensures
            camera == (ShakyCamera { transform, trauma, shaker }),
    {
        ShakyCamera { transform, trauma, shaker }
    }

    /// The shake step for one camera, with the seed given.
    pub fn shake_with(&mut self, pure: &Transform, seed: u32) -> (action: ShakeAction)
        ensures
            *final(self) == old(self).shaken(*pure),
            action == old(self).action(seed),
    {
        if self.trauma.value.is_positive() {
            self.shaker.enabled = true;
            ShakeAction::Displace(NoiseChannels::from_seed(seed))
        } else if self.trauma.value.is_zero() {
            self.shaker.enabled = false;
            self.transform = *pure;
            ShakeAction::Snap
        } else if self.shaker.enabled {
            ShakeAction::Relax
        } else {
            ShakeAction::Hold
        }
    }

    /// The shake step for one camera. A seed is drawn only if the trauma is
    /// above zero.
    pub fn shake(&mut self, pure: &Transform) -> (action: ShakeAction)
        ensures
            *final(self) == old(self).shaken(*pure),
            old(self).may_answer(action),
            action matches ShakeAction::Displace(channels) ==> channels.seed < u32::MAX && channels
                == NoiseChannels::from_seed(channels.seed),
    {
        if self.trauma.value.is_positive() {
            let channels = NoiseChannels::draw();
            let action = self.shake_with(pure, channels.seed);
            assert(action == old(self).action(channels.seed));
            action
        } else {
            let action = self.shake_with(pure, 0);
            assert(action == old(self).action(0));
            action
        }
    }

    /// Displaces the camera from the pose `pure`. `x` and `y` are where the
    /// camera is to stand in the plane of the screen: the place of `pure` and
    /// the shift, added by the caller. The depth is that of `pure`: a shake
    /// never moves a camera towards the scene or away from it.
    pub fn displace(&mut self, pure: &Transform, x: Scalar, y: Scalar, rotation: Rotation)
        ensures
            *final(self) == old(self).displaced(*pure, x, y, rotation),
            final(self).transform.translation.z == pure.translation.z,
    {
        self.transform = pure.moved_in_plane(x, y, rotation);
    }
}

/// The single pure camera among those registered, or why there is none to
/// follow.
pub open spec fn single_pure(pure_cameras: Seq<Transform>) -> Result<Transform, ShakeError> {
    if pure_cameras.len() == 0 {
        Err(ShakeError::NoPureCamera)
    } else if pure_cameras.len() > 1 {
        Err(ShakeError::MultiplePureCameras)
    } else {
        Ok(pure_cameras[0])
    }
}

/// `after` and `actions` are what the shake step that follows `pure` makes of
/// the cameras `before`, one by one and in their order.
pub open spec fn stepped(
    before: Seq<ShakyCamera>,
    pure: Transform,
    after: Seq<ShakyCamera>,
    actions: Seq<ShakeAction>,
) -> bool {
    &&& after.len() == before.len()
    &&& actions.len() == before.len()
    &&& forall|i: int| 0 <= i < before.len() ==> #[trigger] after[i] == before[i].shaken(pure)
    &&& forall|i: int| 0 <= i < before.len() ==> before[i].may_answer(#[trigger] actions[i])
}

/// Picks the pure camera that the shaky cameras follow. There must be exactly
/// one.
pub fn find_pure(pure_cameras: &Vec<Transform>) -> (found: Result<Transform, ShakeError>)
    ensures
        found == single_pure(pure_cameras@),
{
    if pure_cameras.len() == 0 {
        Err(ShakeError::NoPureCamera)
    } else if pure_cameras.len() > 1 {
        Err(ShakeError::MultiplePureCameras)
    } else {
        Ok(pure_cameras[0])
    }
}

/// The shake step of one frame, for all shaky cameras.
///
/// `pure_cameras` holds the pose of every pure camera that is registered.
/// Unless it holds exactly one, the step fails and touches no camera.
/// Otherwise every shaky camera takes its step, and the result tells for each,
/// in the order of `shaky`, what is left to do for it.
pub fn shake_cameras(pure_cameras: &Vec<Transform>, shaky: &mut Vec<ShakyCamera>) -> (outcome: Result<
    Vec<ShakeAction>,
    ShakeError,
>)
    ensures
        match single_pure(pure_cameras@) {
            Ok(pure) => outcome is Ok && stepped(
                old(shaky)@,
                pure,
                final(shaky)@,
                outcome->Ok_0@,
            ),
            Err(error) => outcome == Err::<Vec<ShakeAction>, ShakeError>(error) && final(shaky)@
                == old(shaky)@,
        },
{
    let pure = match find_pure(pure_cameras) {
        Ok(pure) => pure,
        Err(error) => {
            return Err(error);
        },
    };
    let count: usize = shaky.len();
    let mut actions: Vec<ShakeAction> = Vec::new();
    let mut at: usize = 0;
    while at < count
        invariant
            at <= count,
            count == old(shaky)@.len(),
            shaky@.len() == count,
            actions@.len() == at,
            forall|i: int| 0 <= i < at ==> #[trigger] shaky@[i] == old(shaky)@[i].shaken(pure),
            forall|i: int| at <= i < count ==> #[trigger] shaky@[i] == old(shaky)@[i],
            forall|i: int| 0 <= i < at ==> old(shaky)@[i].may_answer(#[trigger] actions@[i]),
        decreases count - at,
    {
        let mut camera: ShakyCamera = shaky[at];
        let action = camera.shake(&pure);
        shaky.set(at, camera);
        actions.push(action);
        at += 1;
    }
    Ok(actions)
}

/// A camera whose trauma is zero ends the step on the pure pose, component for
/// component, and disabled.
pub proof fn lemma_rest_snaps_to_pure(camera: ShakyCamera, pure: Transform)
    requires
        camera.trauma.value.is_zero(),
    ensures
        camera.shaken(pure).transform == pure,
        !camera.shaken(pure).shaker.enabled,
        forall|seed: u32| camera.action(seed) == ShakeAction::Snap,
{
}

/// A camera whose trauma is above zero ends the step enabled and is to be
/// displaced; however it is then displaced, it keeps the depth of the pure
/// pose.
pub proof fn lemma_trauma_enables(
    camera: ShakyCamera,
    pure: Transform,
    seed: u32,
    x: Scalar,
    y: Scalar,
    rotation: Rotation,
)
    requires
        camera.trauma.value.is_positive(),
    ensures
        camera.shaken(pure).shaker.enabled,
        camera.shaken(pure).transform == camera.transform,
        camera.action(seed) == ShakeAction::Displace(NoiseChannels::from_seed(seed)),
        camera.shaken(pure).displaced(pure, x, y, rotation).transform.translation.z
            == pure.translation.z,
        camera.shaken(pure).displaced(pure, x, y, rotation).shaker.enabled,
{
}

/// A camera whose trauma is neither zero nor above it is left as it is, and
/// is to be eased back exactly if it is enabled.
pub proof fn lemma_stray_trauma_holds(camera: ShakyCamera, pure: Transform, seed: u32)
    requires
        !camera.trauma.value.is_positive(),
        !camera.trauma.value.is_zero(),
    ensures
        camera.shaken(pure) == camera,
        camera.shaker.enabled ==> camera.action(seed) == ShakeAction::Relax,
        !camera.shaker.enabled ==> camera.action(seed) == ShakeAction::Hold,
{
}

/// The step changes neither the trauma nor the limits of a camera, and a
/// second step after the same pure pose changes nothing that the first has
/// not changed.
pub proof fn lemma_step_keeps_settings(camera: ShakyCamera, pure: Transform)
    ensures
        camera.shaken(pure).trauma == camera.trauma,
        camera.shaken(pure).shaker.shake == camera.shaker.shake,
        camera.shaken(pure).shaker.max_angle == camera.shaker.max_angle,
        camera.shaken(pure).shaker.max_offset == camera.shaker.max_offset,
        camera.shaker.wf() ==> camera.shaken(pure).shaker.wf(),
        camera.shaken(pure).shaken(pure) == camera.shaken(pure),
{
}

/// After a decay step whose subtraction came out as a number, the trauma is
/// zero or above it: the camera is displaced or snapped, never left astray.
pub proof fn lemma_decayed_camera_is_never_astray(camera: ShakyCamera, lowered: Scalar, seed: u32)
    requires
        !lowered.is_nan(),
    ensures
        ({
            let decayed = ShakyCamera { trauma: camera.trauma.decayed_to(lowered), ..camera };
            decayed.action(seed) == ShakeAction::Snap || decayed.action(seed)
                == ShakeAction::Displace(NoiseChannels::from_seed(seed))
        }),
{
}

} // verus!
