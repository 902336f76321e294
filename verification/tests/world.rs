//! The floor.
use cc_render::world::{lowest_foot_y, GroundFinder, GroundStep};
use glam::Vec3;
use std::collections::HashMap;

#[test]
fn lowest_foot_y_picks_min() {
    let translations: HashMap<usize, Vec3> = [
        (7, Vec3::new(0.1, 0.05, 0.0)),
        (8, Vec3::new(-0.1, 0.04, 0.0)),
        (10, Vec3::new(0.1, 0.02, 0.05)),
        (11, Vec3::new(-0.1, 0.03, 0.05)),
    ]
    .into_iter()
    .collect();
    let y = lowest_foot_y(
        &|i: usize| translations.get(&i).map(|v| v.y),
        &|a: f32, b: f32| a.min(b),
    )
    .unwrap();
    assert!((y - 0.02).abs() < 1e-5, "expected 0.02, got {}", y);
}

#[test]
fn lowest_foot_y_returns_none_when_no_bones() {
    let y = lowest_foot_y(&|_: usize| None::<f32>, &|a: f32, b: f32| a.min(b));
    assert!(y.is_none());
}

#[test]
fn lowest_foot_y_skips_missing_bones() {
    let translations: HashMap<usize, Vec3> =
        [(10, Vec3::new(0.0, -0.05, 0.0))].into_iter().collect();
    let y = lowest_foot_y(
        &|i: usize| translations.get(&i).map(|v| v.y),
        &|a: f32, b: f32| a.min(b),
    )
    .unwrap();
    assert!((y - (-0.05)).abs() < 1e-5);
}

#[test]
fn only_ankles_and_feet_count() {
    let y = lowest_foot_y(
        &|i: usize| if i == 9 { Some(-5) } else { Some(i as i32) },
        &|a: i32, b: i32| a.min(b),
    );
    assert_eq!(y, Some(7));
}

#[test]
fn the_floor_is_looked_for_once() {
    let close = |a: f32, b: f32| (a - b).abs() < 1e-4;
    let mut g = GroundFinder::new(false);
    assert_eq!(g.step(false, Some(1.0), 0.0, &close), GroundStep::Wait);
    assert_eq!(g.step(true, Some(1.0), 0.0, &close), GroundStep::Move(1.0));
    assert_eq!(g.step(true, Some(2.0), 1.0, &close), GroundStep::Wait);
    let mut same = GroundFinder::new(false);
    assert_eq!(same.step(true, Some(0.00001), 0.0, &close), GroundStep::Keep);
    let mut none = GroundFinder::new(false);
    assert_eq!(none.step(true, None, 0.0, &close), GroundStep::Keep);
    assert!(!none.searching);
    let mut given = GroundFinder::new(true);
    assert_eq!(given.step(true, Some(1.0), 0.0, &close), GroundStep::Wait);
}

#[test]
fn no_other_joint_is_asked_for() {
    let y = lowest_foot_y(
        &|i: usize| match i {
            7 | 8 | 10 | 11 => Some(i),
            _ => panic!("joint {i} was asked for"),
        },
        &|a: usize, b: usize| a.min(b),
    );
    assert_eq!(y, Some(7));
}
