use bevy_camera_shake::shake::{find_pure, shake_cameras};
use bevy_camera_shake::{
    CameraShakePreset, CameraShaker2d, NoiseChannels, Rotation, Scalar, ShakeAction, ShakeError,
    ShakyCamera, Transform, Translation, Trauma,
};

fn n(x: f32) -> Scalar {
    Scalar::from_bits(x.to_bits())
}

fn identity() -> Rotation {
    Rotation { x: n(0.0), y: n(0.0), z: n(0.0), w: n(1.0) }
}

fn at(x: f32, y: f32, z: f32) -> Transform {
    Transform { translation: Translation { x: n(x), y: n(y), z: n(z) }, rotation: identity() }
}

fn camera(value: f32, enabled: bool) -> ShakyCamera {
    let mut shaker = CameraShaker2d::new(n(0.5), n(0.5), n(50.0));
    shaker.enabled = enabled;
    ShakyCamera::new(at(3.0, 4.0, 5.0), Trauma::new(n(value), n(0.8)), shaker)
}

#[test]
fn new_shaker_is_not_enabled() {
    let shaker = CameraShaker2d::new(n(0.5), n(0.25), n(50.0));
    assert_eq!(shaker.shake, n(0.5));
    assert_eq!(shaker.max_angle, n(0.25));
    assert_eq!(shaker.max_offset, n(50.0));
    assert!(!shaker.enabled);
    assert!(shaker.is_valid());
}

#[test]
fn default_shaker_is_all_zero() {
    assert_eq!(CameraShaker2d::default(), CameraShaker2d::new(n(0.0), n(0.0), n(0.0)));
}

#[test]
fn negative_or_nan_limits_are_not_valid() {
    assert!(!CameraShaker2d::new(n(0.5), n(-0.25), n(50.0)).is_valid());
    assert!(!CameraShaker2d::new(n(0.5), n(0.25), n(-50.0)).is_valid());
    assert!(!CameraShaker2d::new(n(0.5), n(f32::NAN), n(50.0)).is_valid());
    assert!(CameraShaker2d::new(n(-1.0), n(0.0), n(-0.0)).is_valid());
}

#[test]
fn presets_are_three() {
    assert_ne!(CameraShakePreset::Earthquake, CameraShakePreset::Punch);
    assert_ne!(CameraShakePreset::Punch, CameraShakePreset::Custom);
    assert_ne!(CameraShakePreset::Earthquake, CameraShakePreset::Custom);
}

#[test]
fn camera_at_rest_snaps_to_the_pure_camera() {
    let pure = at(0.0, 1.0, 0.0);
    let mut cameras = vec![camera(0.0, true)];
    let actions = shake_cameras(&vec![pure], &mut cameras).unwrap();
    assert_eq!(actions, vec![ShakeAction::Snap]);
    assert_eq!(cameras[0].transform.translation, Translation { x: n(0.0), y: n(1.0), z: n(0.0) });
    assert_eq!(cameras[0].transform.rotation, identity());
    assert_eq!(cameras[0].transform, pure);
    assert!(!cameras[0].shaker.enabled);
}

#[test]
fn no_pure_camera_is_an_error() {
    let before = vec![camera(0.7, false)];
    let mut cameras = before.clone();
    let outcome = shake_cameras(&Vec::new(), &mut cameras);
    assert_eq!(outcome, Err(ShakeError::NoPureCamera));
    assert_eq!(cameras, before);
    assert_eq!(find_pure(&Vec::new()), Err(ShakeError::NoPureCamera));
}

#[test]
fn two_pure_cameras_are_an_error() {
    let before = vec![camera(0.0, true), camera(0.7, false)];
    let mut cameras = before.clone();
    let pure = vec![at(0.0, 1.0, 0.0), at(0.0, 1.0, 0.0)];
    assert_eq!(shake_cameras(&pure, &mut cameras), Err(ShakeError::MultiplePureCameras));
    assert_eq!(cameras, before);
    assert_eq!(find_pure(&pure), Err(ShakeError::MultiplePureCameras));
}

#[test]
fn one_pure_camera_is_found() {
    assert_eq!(find_pure(&vec![at(1.0, 2.0, 3.0)]), Ok(at(1.0, 2.0, 3.0)));
}

#[test]
fn no_shaky_camera_is_no_error() {
    let mut cameras = Vec::new();
    assert_eq!(shake_cameras(&vec![at(0.0, 1.0, 0.0)], &mut cameras), Ok(Vec::new()));
}

#[test]
fn trauma_enables_and_asks_for_a_displacement() {
    let pure = at(0.0, 1.0, 0.0);
    let mut shaky = camera(0.7, false);
    let action = shaky.shake_with(&pure, 41);
    assert_eq!(action, ShakeAction::Displace(NoiseChannels::from_seed(41)));
    assert!(shaky.shaker.enabled);
    assert_eq!(shaky.transform, at(3.0, 4.0, 5.0));
    assert_eq!(shaky.trauma, Trauma::new(n(0.7), n(0.8)));
}

#[test]
fn shake_draws_a_seed_only_under_trauma() {
    let pure = at(0.0, 1.0, 0.0);
    let mut shaky = camera(1.0, false);
    match shaky.shake(&pure) {
        ShakeAction::Displace(channels) => {
            assert!(channels.seed < u32::MAX);
            assert_eq!(channels, NoiseChannels::from_seed(channels.seed));
        }
        other => panic!("{other:?}"),
    }
    assert!(shaky.shaker.enabled);

    let mut resting = camera(-0.0, true);
    assert_eq!(resting.shake(&pure), ShakeAction::Snap);
    assert_eq!(resting.transform, pure);
    assert!(!resting.shaker.enabled);
}

#[test]
fn stray_trauma_relaxes_an_enabled_camera() {
    let pure = at(0.0, 1.0, 0.0);
    for value in [-0.5f32, f32::NAN, f32::NEG_INFINITY] {
        let mut enabled = camera(value, true);
        let before = enabled;
        assert_eq!(enabled.shake_with(&pure, 3), ShakeAction::Relax);
        assert_eq!(enabled.transform, before.transform);
        assert!(enabled.shaker.enabled);

        let mut disabled = camera(value, false);
        assert_eq!(disabled.shake_with(&pure, 3), ShakeAction::Hold);
        assert_eq!(disabled.transform, before.transform);
        assert!(!disabled.shaker.enabled);
    }
}

#[test]
fn every_camera_takes_its_step() {
    let pure = at(0.0, 1.0, 0.0);
    let mut cameras = vec![camera(0.4, false), camera(0.0, true), camera(-1.0, true), camera(-1.0, false)];
    let actions = shake_cameras(&vec![pure], &mut cameras).unwrap();
    assert_eq!(actions.len(), 4);
    assert!(matches!(actions[0], ShakeAction::Displace(_)));
    assert_eq!(actions[1], ShakeAction::Snap);
    assert_eq!(actions[2], ShakeAction::Relax);
    assert_eq!(actions[3], ShakeAction::Hold);
    assert!(cameras[0].shaker.enabled);
    assert_eq!(cameras[0].transform, at(3.0, 4.0, 5.0));
    assert!(!cameras[1].shaker.enabled);
    assert_eq!(cameras[1].transform, pure);
    assert_eq!(cameras[2], camera(-1.0, true));
    assert_eq!(cameras[3], camera(-1.0, false));
}

#[test]
fn camera_goes_from_rest_to_shake_and_back() {
    let pure = at(0.0, 1.0, 0.0);
    let mut shaky = camera(0.0, false);
    assert_eq!(shaky.shake_with(&pure, 1), ShakeAction::Snap);
    assert!(!shaky.shaker.enabled);
    shaky.trauma.value = n(0.3);
    assert!(matches!(shaky.shake_with(&pure, 1), ShakeAction::Displace(_)));
    assert!(shaky.shaker.enabled);
    shaky.trauma.decay_to(n(0.3 - 0.8 * 1.0));
    assert_eq!(shaky.shake_with(&pure, 1), ShakeAction::Snap);
    assert!(!shaky.shaker.enabled);
    assert_eq!(shaky.transform, pure);
}

#[test]
fn displacement_keeps_the_depth_of_the_pure_camera() {
    let pure = at(0.0, 1.0, 7.0);
    let mut shaky = camera(0.7, false);
    shaky.shake_with(&pure, 5);
    let turned = Rotation { x: n(0.0), y: n(0.0), z: n(0.1), w: n(0.99) };
    shaky.displace(&pure, n(0.0 + 2.5), n(1.0 - 1.5), turned);
    assert_eq!(shaky.transform.translation, Translation { x: n(2.5), y: n(-0.5), z: n(7.0) });
    assert_eq!(shaky.transform.rotation, turned);
    assert!(shaky.shaker.enabled);
    assert_eq!(shaky.trauma, Trauma::new(n(0.7), n(0.8)));
    assert_eq!(pure.moved_in_plane(n(2.5), n(-0.5), turned), shaky.transform);
}
