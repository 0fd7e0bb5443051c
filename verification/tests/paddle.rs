use surface_dial_daemon::controller::controls::paddle::{apply_delta, apply_falloff, Paddle};

const CAP: i32 = 250;
const FALLOFF_DIV: i32 = 10;

// apply_delta tests

#[test]
fn delta_accumulates_same_direction() {
    let (v, ld) = apply_delta(0, 0, 5, CAP);
    assert_eq!(v, 5);
    assert_eq!(ld, 5);

    let (v, ld) = apply_delta(v, ld, 3, CAP);
    assert_eq!(v, 8);
    assert_eq!(ld, 3);
}

#[test]
fn delta_resets_on_direction_change() {
    // establish positive velocity
    let (v, ld) = apply_delta(20, 5, 5, CAP);
    assert_eq!(v, 25);

    // reverse direction
    let (v, _ld) = apply_delta(v, ld, -1, CAP);
    // velocity reset to 0 before applying -1
    assert_eq!(v, -1);
}

#[test]
fn delta_clamped_to_cap() {
    let (v, _) = apply_delta(245, 1, 10, CAP);
    assert_eq!(v, CAP);
}

#[test]
fn delta_clamped_to_negative_cap() {
    let (v, _) = apply_delta(-245, -1, -10, CAP);
    assert_eq!(v, -CAP);
}

#[test]
fn first_delta_from_zero_does_not_reset() {
    // last_delta=0, delta positive: (0<0)==(0<0) so no reset
    let (v, _) = apply_delta(0, 0, 7, CAP);
    assert_eq!(v, 7);
}

// apply_falloff tests

#[test]
fn falloff_reduces_positive_velocity() {
    let v = apply_falloff(50, FALLOFF_DIV, CAP);
    // falloff = 50/10 + 1 = 6; 50 - 6 = 44
    assert_eq!(v, 44);
}

#[test]
fn falloff_reduces_negative_velocity() {
    let v = apply_falloff(-50, FALLOFF_DIV, CAP);
    // falloff = 50/10 + 1 = 6; -50 + 6 = -44
    assert_eq!(v, -44);
}

#[test]
fn falloff_on_zero_stays_zero() {
    assert_eq!(apply_falloff(0, FALLOFF_DIV, CAP), 0);
}

#[test]
fn falloff_small_velocity_goes_to_zero() {
    // velocity=1: falloff = 1/10 + 1 = 1; 1 - 1 = 0
    assert_eq!(apply_falloff(1, FALLOFF_DIV, CAP), 0);
    assert_eq!(apply_falloff(-1, FALLOFF_DIV, CAP), 0);
}

#[test]
fn falloff_result_clamped() {
    // shouldn't happen in practice but verify clamp is applied
    assert!(apply_falloff(CAP, FALLOFF_DIV, CAP) <= CAP);
}

// ControlModeMeta tests

#[test]
fn paddle_meta() {
    let meta = Paddle::new().meta();
    assert_eq!(meta.name, "Paddle");
    assert!(!meta.haptics);
    assert_eq!(meta.steps, 3600);
}
