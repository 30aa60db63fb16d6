use std::cell::Cell;

use pogo::input::{handle_input, steer, Turn, ROTATION_SPEED};
use pogo::units::SCALE;

fn add(angle: i32, step: i32) -> i32 {
    angle + step
}

#[test]
fn rotation_speed_is_nine_hundredths() {
    assert_eq!(ROTATION_SPEED, 9);
    assert_eq!(ROTATION_SPEED as f32 / SCALE as f32, 0.09);
}

#[test]
fn turns_have_opposite_steps() {
    assert_eq!(Turn::Left.rotation(), 9);
    assert_eq!(Turn::Right.rotation(), -9);
}

#[test]
fn keys_choose_the_turn() {
    assert_eq!(steer(true, false), Some(Turn::Left));
    assert_eq!(steer(false, true), Some(Turn::Right));
    assert_eq!(steer(true, true), Some(Turn::Left));
    assert_eq!(steer(false, false), None);
}

#[test]
fn left_turns_by_the_rotation_speed() {
    assert_eq!(handle_input(100, true, false, add), 109);
}

#[test]
fn right_turns_back_by_the_rotation_speed() {
    assert_eq!(handle_input(100, false, true, add), 91);
}

#[test]
fn both_keys_turn_left() {
    let out = handle_input(100, true, true, add);
    assert_eq!(out, 100 + ROTATION_SPEED);
    assert_ne!(out, 100);
    assert_ne!(out, 100 - ROTATION_SPEED);
}

#[test]
fn no_key_no_turn() {
    let calls = Cell::new(0u32);
    let counting = |angle: i32, step: i32| {
        calls.set(calls.get() + 1);
        angle + step
    };
    assert_eq!(handle_input(100, false, false, counting), 100);
    assert_eq!(calls.get(), 0);
}

#[test]
fn a_held_key_turns_once_per_tick() {
    let calls = Cell::new(0u32);
    let counting = |angle: i32, step: i32| {
        calls.set(calls.get() + 1);
        angle + step
    };
    assert_eq!(handle_input(0, true, true, counting), 9);
    assert_eq!(calls.get(), 1);
}

#[test]
fn turns_compose_with_the_orientation() {
    let mut angle = -4;
    for _ in 0..3 {
        angle = handle_input(angle, true, false, add);
    }
    assert_eq!(angle, 23);
    angle = handle_input(angle, false, true, add);
    assert_eq!(angle, 14);
}

#[test]
fn a_quaternion_turns_by_the_step() {
    // Rotation about the depth axis as (z, w); composing adds half angles.
    let rotate = |q: (f32, f32), step: i32| {
        let half = step as f32 / SCALE as f32 / 2.0;
        let (z, w) = (half.sin(), half.cos());
        (z * q.1 + w * q.0, w * q.1 - z * q.0)
    };
    let out = handle_input((0.0f32, 1.0f32), true, true, rotate);
    assert!((out.0 - 0.045f32.sin()).abs() < 1e-6);
    assert!((out.1 - 0.045f32.cos()).abs() < 1e-6);
    let back = handle_input(out, false, true, rotate);
    assert!(back.0.abs() < 1e-6);
    assert!((back.1 - 1.0).abs() < 1e-6);
}
