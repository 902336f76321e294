//! Whole-body motion and what the camera makes of it.
use cc_render::camera::{enclose, FollowCamera};
use cc_render::motion::{bone_directions, place_pose, retarget_pose, root_position};
use cc_render::overlay::joint_lines;
use cc_render::props::{mesh_step, MeshStep};
use cc_render::retarget::{bind_data, RetargetMode};
use cc_render::smpl;
use glam::{Quat, Vec3};

fn product(a: Quat, b: Quat) -> Quat {
    a * b
}

fn inverse(a: Quat) -> Quat {
    a.inverse()
}

#[test]
fn each_mode_has_its_own_rule() {
    let own: [Quat; 22] = std::array::from_fn(|i| Quat::from_rotation_x(0.1 * i as f32));
    let mut chain = [Quat::IDENTITY; 22];
    for i in 1..22 {
        let p = smpl::parent(i).unwrap();
        chain[i] = chain[p] * own[p];
    }
    let data = bind_data(&own, &chain, Quat::IDENTITY, &product, &inverse);
    let mut dq = [Quat::IDENTITY; 22];
    dq[3] = Quat::from_rotation_z(0.4);
    let run = |mode: RetargetMode| {
        retarget_pose(
            mode,
            &dq,
            &data,
            Quat::IDENTITY,
            Quat::IDENTITY,
            true,
            &product,
            &inverse,
            &|_: usize, q: Quat| q.inverse(),
            &|_: usize, _: Quat, _: Quat, _: Quat| Quat::from_rotation_y(0.2),
        )
    };
    let local = run(RetargetMode::Local);
    assert!(local[3].abs_diff_eq(own[3] * dq[3], 1e-5));
    let world = run(RetargetMode::World);
    let want = (chain[3]).inverse() * (dq[3] * chain[3] * own[3]);
    assert!(world[3].abs_diff_eq(want, 1e-5));
    let axis = run(RetargetMode::AxisMatch);
    let want = (chain[3]).inverse() * (dq[3].inverse() * chain[3] * own[3]);
    assert!(axis[3].abs_diff_eq(want, 1e-5));
    let chained = run(RetargetMode::AxisMatchChained);
    let want = Quat::from_rotation_y(0.2) * own[0];
    assert!(chained[0].abs_diff_eq(want, 1e-5));
    assert!(chained[15].abs_diff_eq(own[15], 1e-4));
}

#[test]
fn the_root_moves_with_the_pose() {
    let plus = |a: Vec3, b: Vec3| a + b;
    let minus = |a: Vec3, b: Vec3| a - b;
    let back = Quat::from_rotation_y(std::f32::consts::FRAC_PI_2).inverse();
    let inward = |a: Vec3| back * a;
    let rest = Vec3::new(0.0, 1.0, 0.0);
    let first = Vec3::new(5.0, 5.0, 5.0);
    assert_eq!(root_position(rest, first, first, &plus, &minus, &inward), rest);
    let moved = root_position(rest, first + Vec3::X, first, &plus, &minus, &inward);
    assert!(moved.abs_diff_eq(rest + back * Vec3::X, 1e-6));
}

#[test]
fn bones_point_at_their_children() {
    let at: [i32; 22] = std::array::from_fn(|i| if i == 5 { 2 } else { i as i32 });
    let d = bone_directions(
        &at,
        &|a: i32, b: i32| if a == b { None } else { Some(b - a) },
        &|i: usize| 1000 + i as i32,
    );
    assert_eq!(d[0], 3);
    assert_eq!(d[2], 1002);
    assert_eq!(d[9], 3);
    assert_eq!(d[15], 1015);
    assert_eq!(d[21], 1021);
}

#[test]
fn a_box_holds_the_known_joints() {
    let at = |i: usize| if i < 10 { Some(i as i32 * 7 % 11) } else { None };
    let low = |a: i32, b: i32| a.min(b);
    let high = |a: i32, b: i32| a.max(b);
    assert_eq!(enclose(&vec![1, 2, 3, 15], &at, &low, &high), Some((3, 10, 3)));
    assert_eq!(enclose(&vec![15], &at, &low, &high), None);
    assert_eq!(enclose(&vec![], &at, &low, &high), None);
}

#[test]
fn the_camera_keeps_its_offset() {
    let plus = |a: i32, b: i32| a + b;
    let minus = |a: i32, b: i32| a - b;
    let mut c = FollowCamera::default();
    assert_eq!(c.step(10, 13, &plus, &minus), None);
    assert_eq!(c.step(10, 13, &plus, &minus), Some(13));
    assert_eq!(c.step(20, 13, &plus, &minus), Some(23));
    assert_eq!(c.offset, Some(3));
}

#[test]
fn skeleton_lines_join_known_joints() {
    let mut at: [Option<usize>; 22] = [None; 22];
    assert!(joint_lines(&at).is_empty());
    for i in [0, 1, 4, 9] {
        at[i] = Some(i);
    }
    assert_eq!(joint_lines(&at), vec![(0, 1), (1, 4)]);
    let all: [Option<usize>; 22] = std::array::from_fn(Some);
    assert_eq!(joint_lines(&all).len(), 21);
}

#[test]
fn a_placeholder_waits_for_its_meshes() {
    assert_eq!(mesh_step(false, 3), MeshStep::Wait);
    assert_eq!(mesh_step(true, 0), MeshStep::Keep);
    assert_eq!(mesh_step(true, 3), MeshStep::Replace);
}

#[test]
fn a_pose_is_placed_with_its_root() {
    let own: [Quat; 22] = std::array::from_fn(|i| Quat::from_rotation_x(0.1 * i as f32));
    let chain = [Quat::from_rotation_y(0.5); 22];
    let data = bind_data(&own, &chain, Quat::IDENTITY, &product, &inverse);
    let mut dq = [Quat::IDENTITY; 22];
    dq[3] = Quat::from_rotation_z(0.4);
    let place = place_pose(
        RetargetMode::Local,
        &dq,
        &data,
        Quat::IDENTITY,
        Quat::IDENTITY,
        true,
        &product,
        &inverse,
        &|_: usize, q: Quat| q,
        &|_: usize, _: Quat, _: Quat, _: Quat| Quat::IDENTITY,
        Vec3::new(0.0, 1.0, 0.0),
        Vec3::new(3.0, 0.0, 0.0),
        Vec3::new(1.0, 0.0, 0.0),
        &|a: Vec3, b: Vec3| a + b,
        &|a: Vec3, b: Vec3| a - b,
        &|v: Vec3| v * 10.0,
    );
    assert_eq!(place.root, Vec3::new(20.0, 1.0, 0.0));
    assert!(place.rotations[3].abs_diff_eq(own[3] * dq[3], 1e-6));
    assert!(place.rotations[4].abs_diff_eq(own[4], 1e-6));
}
