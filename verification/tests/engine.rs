use bevy::prelude::{Quat, Vec3};

use pogo::bounce::{handle_collision, BounceStrategy};
use pogo::event::CollisionEvent;
use pogo::input::handle_input;
use pogo::layers::{is_player, CollisionLayers, Layer};
use pogo::units::SCALE;

/// A layer given by its bits.
struct Bits(u32);

impl heron::PhysicsLayer for Bits {
    fn to_bits(&self) -> u32 {
        self.0
    }

    fn all_bits() -> u32 {
        3
    }
}

fn scalar(hundredths: i32) -> f32 {
    hundredths as f32 / SCALE as f32
}

fn angle_from_orientation(rotation: Quat) -> f32 {
    if rotation.z >= 0. {
        -(2. * rotation.w.acos())
    } else {
        2. * rotation.w.acos()
    }
}

fn direction_from_angle(angle: f32, magnitude: f32) -> Vec3 {
    Vec3::new(angle.sin() * magnitude, angle.cos() * magnitude, 0.)
}

fn bounce(strategy: BounceStrategy, velocity: Vec3, rotation: Quat) -> Vec3 {
    match strategy {
        BounceStrategy::Steered { height, turn_ratio } => {
            let angle = angle_from_orientation(rotation);
            let new_dir = direction_from_angle(angle, velocity.length());
            let mut out = velocity;
            out.y = -out.y;
            out += new_dir * scalar(turn_ratio);
            out.normalize_or_zero() * scalar(height)
        }
        BounceStrategy::Damped { damping } => {
            let mut out = velocity;
            out.y = -out.y / scalar(damping);
            out
        }
    }
}

fn rotate(rotation: Quat, hundredths: i32) -> Quat {
    Quat::from_rotation_z(scalar(hundredths)) * rotation
}

fn patterns() -> Vec<u32> {
    vec![0, 1, 2, 3, 4, 5, 6, 7, 0x8000_0000, 0x8000_0002, 0xffff_fffd, u32::MAX]
}

fn landing() -> Vec<CollisionEvent> {
    vec![CollisionEvent::started(
        CollisionLayers::default(),
        CollisionLayers::new(Layer::Player, Layer::World),
    )]
}

#[test]
fn layers_are_built_as_the_physics_engine_builds_them() {
    let none = heron::CollisionLayers::none();
    assert_eq!(
        CollisionLayers::none(),
        CollisionLayers::from_bits(none.groups_bits(), none.masks_bits())
    );
    let all = heron::CollisionLayers::default();
    assert_eq!(
        CollisionLayers::default(),
        CollisionLayers::from_bits(all.groups_bits(), all.masks_bits())
    );
    for group in [Layer::World, Layer::Player] {
        for mask in [Layer::World, Layer::Player] {
            let theirs =
                heron::CollisionLayers::new(Bits(group.to_bits()), Bits(mask.to_bits()));
            let ours = CollisionLayers::new(group, mask);
            assert_eq!(ours.groups, theirs.groups_bits());
            assert_eq!(ours.masks, theirs.masks_bits());
        }
    }
    assert_eq!(Layer::all_bits(), Layer::World.to_bits() | Layer::Player.to_bits());
}

#[test]
fn membership_agrees_with_the_physics_engine() {
    for groups in patterns() {
        for masks in patterns() {
            let ours = CollisionLayers::from_bits(groups, masks);
            let theirs = heron::CollisionLayers::from_bits(groups, masks);
            for layer in [Layer::World, Layer::Player] {
                assert_eq!(
                    ours.contains_group(layer),
                    theirs.contains_group(Bits(layer.to_bits()))
                );
                assert_eq!(
                    ours.contains_mask(layer),
                    theirs.contains_mask(Bits(layer.to_bits()))
                );
            }
            assert_eq!(
                is_player(ours),
                theirs.contains_group(Bits(2)) && !theirs.contains_group(Bits(1))
            );
        }
    }
}

#[test]
fn interaction_agrees_with_the_physics_engine() {
    for a_groups in patterns() {
        for a_masks in patterns() {
            for b_groups in patterns() {
                for b_masks in patterns() {
                    let ours = CollisionLayers::from_bits(a_groups, a_masks)
                        .interacts_with(CollisionLayers::from_bits(b_groups, b_masks));
                    let theirs = heron::CollisionLayers::from_bits(a_groups, a_masks)
                        .interacts_with(heron::CollisionLayers::from_bits(b_groups, b_masks));
                    assert_eq!(ours, theirs);
                }
            }
        }
    }
}

#[test]
fn an_unturned_body_faces_up() {
    assert_eq!(angle_from_orientation(Quat::IDENTITY), 0.);
    assert_eq!(direction_from_angle(0., 300.), Vec3::new(0., 300., 0.));
}

#[test]
fn a_turned_body_faces_where_it_was_turned() {
    for angle in [0.09f32, -0.09, 1.0, -1.0, 3.0, -3.0] {
        let rotation = Quat::from_rotation_z(angle);
        let facing = direction_from_angle(angle_from_orientation(rotation), 1.);
        let up = rotation * Vec3::Y;
        assert!((facing - up).length() < 1e-3, "{} {:?} {:?}", angle, facing, up);
    }
}

#[test]
fn a_vertical_fall_bounces_straight_up() {
    let out = handle_collision(
        &landing(),
        BounceStrategy::steered(),
        Quat::IDENTITY,
        Vec3::new(0., -300., 0.),
        bounce,
    );
    assert!((out - Vec3::new(0., 350., 0.)).length() < 1e-3, "{:?}", out);
}

#[test]
fn a_bounce_leaves_at_bounce_height() {
    for (velocity, angle) in [
        (Vec3::new(120., -250., 0.), 0.3f32),
        (Vec3::new(-40., -10., 0.), -1.2),
        (Vec3::new(0.5, -900., 0.), 2.5),
    ] {
        let out = handle_collision(
            &landing(),
            BounceStrategy::steered(),
            Quat::from_rotation_z(angle),
            velocity,
            bounce,
        );
        assert!((out.length() - 350.).abs() < 1e-3, "{:?}", out);
        assert_eq!(out.z, 0.);
    }
}

#[test]
fn a_body_at_rest_stays_at_rest() {
    let out = handle_collision(
        &landing(),
        BounceStrategy::steered(),
        Quat::from_rotation_z(0.4),
        Vec3::ZERO,
        bounce,
    );
    assert_eq!(out, Vec3::ZERO);
}

#[test]
fn steering_left_then_landing_bounces_left() {
    let mut rotation = Quat::IDENTITY;
    for _ in 0..5 {
        rotation = handle_input(rotation, true, true, rotate);
    }
    assert!((rotation.z - 0.225f32.sin()).abs() < 1e-5);
    assert!((rotation.w - 0.225f32.cos()).abs() < 1e-5);
    let out = handle_collision(
        &landing(),
        BounceStrategy::steered(),
        rotation,
        Vec3::new(0., -300., 0.),
        bounce,
    );
    assert!(out.x < 0. && out.y > 0., "{:?}", out);
    assert!((out.length() - 350.).abs() < 1e-3);
    let sum = Vec3::new(-300. * 0.45f32.sin(), 300. + 300. * 0.45f32.cos(), 0.);
    assert!((out - sum.normalize() * 350.).length() < 1e-2, "{:?}", out);
}

#[test]
fn steering_right_undoes_steering_left() {
    let left = handle_input(Quat::IDENTITY, true, false, rotate);
    let back = handle_input(left, false, true, rotate);
    assert!(back.angle_between(Quat::IDENTITY) < 1e-4);
    let idle = handle_input(left, false, false, rotate);
    assert_eq!(idle, left);
}

#[test]
fn a_damped_landing_keeps_the_sideways_speed() {
    let out = handle_collision(
        &landing(),
        BounceStrategy::damped(),
        Quat::from_rotation_z(1.),
        Vec3::new(10., -110., 0.),
        bounce,
    );
    assert_eq!(out.x, 10.);
    assert!((out.y - 100.).abs() < 1e-3);
}
