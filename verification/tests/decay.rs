use bevy_camera_shake::{Scalar, Trauma};

fn num(x: f32) -> Scalar {
    Scalar::from_bits(x.to_bits())
}

fn float(s: Scalar) -> f32 {
    f32::from_bits(s.to_bits())
}

/// One decay step as a host runs it: the subtraction in hardware arithmetic,
/// the rest in the library.
fn decay_step(trauma: &mut Trauma, dt: f32) {
    let lowered = float(trauma.value) - float(trauma.decay) * dt;
    trauma.decay_to(num(lowered));
}

#[test]
fn new_takes_the_numbers_as_they_are() {
    let trauma = Trauma::new(num(1.5), num(-2.0));
    assert_eq!(float(trauma.value), 1.5);
    assert_eq!(float(trauma.decay), -2.0);
}

#[test]
fn default_trauma_is_at_rest() {
    let trauma = Trauma::default();
    assert_eq!(trauma, Trauma::new(num(0.0), num(0.0)));
}

#[test]
fn decay_lowers_the_value() {
    let mut trauma = Trauma::new(num(0.8), num(0.5));
    decay_step(&mut trauma, 1.0);
    assert_eq!(float(trauma.value), 0.3);
    assert_eq!(trauma.value.to_bits(), 0.3f32.to_bits());
    assert_eq!(float(trauma.decay), 0.5);
}

#[test]
fn decay_stops_at_zero() {
    let mut trauma = Trauma::new(num(0.2), num(0.5));
    decay_step(&mut trauma, 1.0);
    assert_eq!(trauma.value.to_bits(), 0.0f32.to_bits());
    assert_eq!(float(trauma.decay), 0.5);
}

#[test]
fn decay_without_time_changes_nothing() {
    for value in [0.0f32, 0.25, 0.8, 1.0] {
        let mut trauma = Trauma::new(num(value), num(0.5));
        decay_step(&mut trauma, 0.0);
        assert_eq!(trauma, Trauma::new(num(value), num(0.5)));
    }
}

#[test]
fn decay_keeps_the_value_in_the_interval() {
    for value in [0.0f32, 0.1, 0.5, 1.0] {
        for decay in [0.0f32, 0.3, 4.0] {
            for dt in [0.0f32, 0.016, 1.0, 100.0] {
                let mut trauma = Trauma::new(num(value), num(decay));
                decay_step(&mut trauma, dt);
                let expected = (value - decay * dt).clamp(0.0, 1.0);
                assert_eq!(trauma.value.to_bits(), expected.to_bits());
                assert!((0.0..=1.0).contains(&float(trauma.value)));
            }
        }
    }
}

#[test]
fn decay_corrects_an_overshoot() {
    let mut trauma = Trauma::new(num(1.4), num(0.1));
    decay_step(&mut trauma, 1.0);
    assert_eq!(float(trauma.value), 1.0);

    let mut below = Trauma::new(num(-3.0), num(0.1));
    decay_step(&mut below, 1.0);
    assert_eq!(below.value.to_bits(), 0.0f32.to_bits());
}

#[test]
fn decay_to_nan_stays_nan() {
    let mut trauma = Trauma::new(num(0.5), num(0.5));
    trauma.decay_to(num(f32::NAN));
    assert!(trauma.value.is_nan());
    assert_eq!(float(trauma.decay), 0.5);
}
