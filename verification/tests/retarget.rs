//! Body poses on the avatar's skeleton.
use cc_render::hierarchy::parent_chain_world_rotation;
use cc_render::retarget::{
    bind_data, fk_retarget_smpl_to_cc5, fk_retarget_smpl_to_cc5_axis_match_chained,
    fk_retarget_smpl_to_cc5_with_align, retarget_axis_match, retarget_local, retarget_mode,
    swing_and_twist, BindData, RetargetMode,
};
use cc_render::smpl;
use glam::{Quat, Vec3};

fn product(a: Quat, b: Quat) -> Quat {
    a * b
}

fn inverse(a: Quat) -> Quat {
    a.inverse()
}

fn ident_local() -> [Quat; 22] {
    [Quat::IDENTITY; 22]
}

fn rest(
    own_rest_local: [Quat; 22],
    cc5_rest_world: [Quat; 22],
    inter_rest: [Quat; 22],
    pelvis_parent_chain_rest: Quat,
) -> BindData<Quat> {
    let mut parent_chain_rest = [Quat::IDENTITY; 22];
    parent_chain_rest[0] = pelvis_parent_chain_rest;
    BindData {
        own_rest_local,
        parent_chain_rest,
        cc5_rest_world,
        inter_rest,
    }
}

fn axis(i: usize) -> Vec3 {
    let a = smpl::bone_axis(i);
    Vec3::new(a[0] as f32, a[1] as f32, a[2] as f32)
}

fn twist_about(q: Quat, axis: Vec3) -> f32 {
    2.0 * (q.x * axis.x + q.y * axis.y + q.z * axis.z).atan2(q.w)
}

/// Rotation that makes the carried bone point where the joint points, on a rig
/// whose bones point as the joints do at rest.
fn turn(i: usize, delta: Quat, joint_world: Quat, joint_local: Quat) -> Quat {
    let direction = |v: Vec3| Some(v.normalize_or_zero()).filter(|v| v.length_squared() > 1e-8);
    swing_and_twist(
        direction(delta * axis(i)),
        direction(joint_world * axis(i)),
        Some(twist_about(joint_local, axis(i))).filter(|angle| angle.abs() > 1e-6),
        &Quat::from_rotation_arc,
        &Quat::from_axis_angle,
        &product,
        Quat::IDENTITY,
    )
}

#[test]
fn identity_pose_against_identity_rest_yields_identity() {
    let data = rest(ident_local(), ident_local(), ident_local(), Quat::IDENTITY);
    let out = fk_retarget_smpl_to_cc5(&ident_local(), &data, Quat::IDENTITY, &product, &inverse);
    for q in out.iter() {
        assert!(q.abs_diff_eq(Quat::IDENTITY, 1e-5));
    }
}

fn bind_pose() -> ([Quat; 22], [Quat; 22], [Quat; 22], Quat) {
    let own_rest_local: [Quat; 22] = std::array::from_fn(|i| {
        // Distinct, small rotations around mixed axes.
        let angle = 0.07 * (i as f32 + 1.0);
        let axis = Vec3::new(
            ((i % 3) as f32 - 1.0).max(0.1),
            (((i + 1) % 3) as f32 - 1.0).max(0.1),
            (((i + 2) % 3) as f32 - 1.0).max(0.1),
        )
        .normalize();
        Quat::from_axis_angle(axis, angle)
    });
    let mut parent_chain_rest: [Quat; 22] = [Quat::IDENTITY; 22];
    let mut cc5_rest_world: [Quat; 22] = [Quat::IDENTITY; 22];
    let scene_root_rest = Quat::from_axis_angle(Vec3::Y, std::f32::consts::FRAC_PI_4);
    for i in 0..22 {
        parent_chain_rest[i] = match smpl::parent(i) {
            None => scene_root_rest,
            Some(p) => cc5_rest_world[p],
        };
        cc5_rest_world[i] = parent_chain_rest[i] * own_rest_local[i];
    }
    (
        own_rest_local,
        parent_chain_rest,
        cc5_rest_world,
        scene_root_rest,
    )
}

#[test]
fn identity_pose_against_real_rest_returns_bind_locals() {
    let (own_rest_local, _, cc5_rest_world, scene_root_rest) = bind_pose();
    let inter_rest = [Quat::IDENTITY; 22];
    let data = rest(own_rest_local, cc5_rest_world, inter_rest, scene_root_rest);
    let out = fk_retarget_smpl_to_cc5(&ident_local(), &data, Quat::IDENTITY, &product, &inverse);
    for i in 0..22 {
        assert!(
            out[i].abs_diff_eq(own_rest_local[i], 1e-4),
            "joint {i}: got {:?}, want {:?}",
            out[i],
            own_rest_local[i],
        );
    }
}

#[test]
fn intermediate_bone_rest_collapses_to_bind_pose() {
    // Pelvis (SMPL 0) → L_Hip (SMPL 1). Insert a virtual non-mapped
    // intermediate with non-identity rest rotation between them.
    let pelvis_own = Quat::from_axis_angle(Vec3::Y, 0.3);
    let lhip_own = Quat::from_axis_angle(Vec3::X, -0.2);
    let inter_world = Quat::from_axis_angle(Vec3::Z, 0.5);

    let mut own_rest_local = [Quat::IDENTITY; 22];
    own_rest_local[0] = pelvis_own;
    own_rest_local[1] = lhip_own;

    let pelvis_parent_chain = Quat::IDENTITY;
    let mut parent_chain_rest = [Quat::IDENTITY; 22];
    parent_chain_rest[0] = pelvis_parent_chain;
    // L_Hip's parent chain is pelvis_world * inter_world
    parent_chain_rest[1] = pelvis_parent_chain * pelvis_own * inter_world;

    let data = bind_data(
        &own_rest_local,
        &parent_chain_rest,
        Quat::IDENTITY,
        &product,
        &inverse,
    );
    assert!(data.inter_rest[1].abs_diff_eq(inter_world, 1e-5));

    let out = fk_retarget_smpl_to_cc5(&ident_local(), &data, Quat::IDENTITY, &product, &inverse);
    // Even with the intermediate, identity SMPL → bind locals.
    assert!(out[0].abs_diff_eq(pelvis_own, 1e-4));
    assert!(out[1].abs_diff_eq(lhip_own, 1e-4));
}

#[test]
fn axis_match_chained_preserves_y_twist_at_pelvis() {
    let theta = 45.0_f32.to_radians();
    let q_spin = Quat::from_rotation_y(theta);
    let mut joint_quats = ident_local();
    joint_quats[0] = q_spin;

    let data = rest(ident_local(), ident_local(), ident_local(), Quat::IDENTITY);
    let out = fk_retarget_smpl_to_cc5_axis_match_chained(
        &joint_quats,
        &data,
        Quat::IDENTITY,
        Quat::IDENTITY,
        false,
        &product,
        &inverse,
        &turn,
    );

    assert!(
        out[0].abs_diff_eq(q_spin, 1e-4),
        "pelvis Y-twist should produce cc5_local[0]={:?}, got {:?}",
        q_spin,
        out[0],
    );
}

#[test]
fn every_rule_keeps_the_bind_pose_at_rest() {
    let (own, chain, _, _) = bind_pose();
    let data = bind_data(&own, &chain, Quat::IDENTITY, &product, &inverse);
    let local = retarget_local(&ident_local(), &data, Quat::IDENTITY, &product);
    let axis = retarget_axis_match(
        &ident_local(),
        &data,
        Quat::IDENTITY,
        true,
        &product,
        &inverse,
        &|_: usize, q: Quat| q,
    );
    let chained = fk_retarget_smpl_to_cc5_axis_match_chained(
        &ident_local(),
        &data,
        Quat::IDENTITY,
        Quat::IDENTITY,
        true,
        &product,
        &inverse,
        &|_: usize, _: Quat, _: Quat, _: Quat| Quat::IDENTITY,
    );
    for i in 0..22 {
        assert!(local[i].abs_diff_eq(own[i], 1e-4));
        assert!(axis[i].abs_diff_eq(own[i], 1e-4));
        assert!(chained[i].abs_diff_eq(own[i], 1e-4));
    }
}

#[test]
fn frozen_leaves_keep_their_own_rotation() {
    let (own, chain, _, _) = bind_pose();
    let data = bind_data(&own, &chain, Quat::IDENTITY, &product, &inverse);
    let mut dq = ident_local();
    dq[20] = Quat::from_rotation_x(1.0);
    dq[18] = Quat::from_rotation_x(0.5);
    let frozen = retarget_axis_match(
        &dq,
        &data,
        Quat::IDENTITY,
        true,
        &product,
        &inverse,
        &|_: usize, q: Quat| q,
    );
    assert!(frozen[20].abs_diff_eq(own[20], 1e-4));
    assert!(!frozen[18].abs_diff_eq(own[18], 1e-2));
    let free = retarget_axis_match(
        &dq,
        &data,
        Quat::IDENTITY,
        false,
        &product,
        &inverse,
        &|_: usize, q: Quat| q,
    );
    assert!(!free[20].abs_diff_eq(own[20], 1e-2));
}

#[test]
fn alignment_turns_the_pelvis_only() {
    let (own, chain, _, _) = bind_pose();
    let data = bind_data(&own, &chain, Quat::IDENTITY, &product, &inverse);
    let align = Quat::from_rotation_y(1.0);
    let world =
        fk_retarget_smpl_to_cc5_with_align(&ident_local(), &data, align, &product, &inverse);
    let want = chain[0].inverse() * (align * data.cc5_rest_world[0]);
    assert!(world[0].abs_diff_eq(want, 1e-4));
    for i in 1..22 {
        assert!(world[i].abs_diff_eq(own[i], 1e-4));
    }
    let local = retarget_local(&ident_local(), &data, align, &product);
    assert!(local[0].abs_diff_eq(own[0] * align, 1e-5));
    assert!(local[5].abs_diff_eq(own[5], 1e-5));
}

#[test]
fn modes_go_by_name() {
    assert_eq!(retarget_mode(None), RetargetMode::AxisMatchChained);
    assert_eq!(retarget_mode(Some("local")), RetargetMode::Local);
    assert_eq!(retarget_mode(Some("axis_match")), RetargetMode::AxisMatch);
    assert_eq!(
        retarget_mode(Some("axis_match_chained")),
        RetargetMode::AxisMatchChained
    );
    assert_eq!(retarget_mode(Some("world")), RetargetMode::World);
    assert_eq!(retarget_mode(Some("LOCAL")), RetargetMode::World);
}

#[test]
fn the_skeleton_is_a_tree() {
    let parents: Vec<i32> = (0..22)
        .map(|i| smpl::parent(i).map(|p| p as i32).unwrap_or(-1))
        .collect();
    assert_eq!(
        parents,
        vec![-1, 0, 0, 0, 1, 2, 3, 4, 5, 6, 7, 8, 9, 9, 9, 12, 13, 14, 16, 17, 18, 19]
    );
    let children: Vec<i32> = (0..22)
        .map(|i| smpl::primary_child(i).map(|p| p as i32).unwrap_or(-1))
        .collect();
    assert_eq!(
        children,
        vec![3, 4, 5, 6, 7, 8, 9, 10, 11, 12, -1, -1, 15, 16, 17, -1, 18, 19, 20, 21, -1, -1]
    );
    assert_eq!(smpl::smpl_name(0), "Pelvis");
    assert_eq!(smpl::cc5_name(0), "CC_Base_Hip");
    assert_eq!(smpl::smpl_name(12), "Neck");
    assert_eq!(smpl::cc5_name(12), "CC_Base_NeckTwist01");
    assert_eq!(smpl::smpl_name(21), "R_Wrist");
    assert_eq!(smpl::cc5_name(21), "CC_Base_R_Hand");
    assert_eq!(smpl::bone_axis(7), [0, 0, 1]);
    assert_eq!(smpl::bone_axis(14), [-1, 0, 0]);
    assert_eq!(smpl::bone_axis(1), [0, -1, 0]);
}

#[test]
fn a_chain_turns_from_the_root_down() {
    let a = Quat::from_rotation_x(0.4);
    let b = Quat::from_rotation_y(0.7);
    let world = parent_chain_world_rotation(
        &vec![Some(b), None, Some(a)],
        Quat::IDENTITY,
        &product,
    );
    assert!(world.abs_diff_eq(a * b, 1e-6));
    assert!(!world.abs_diff_eq(b * a, 1e-3));
    let none = parent_chain_world_rotation(&vec![], Quat::IDENTITY, &product);
    assert_eq!(none, Quat::IDENTITY);
}

fn some_pose() -> [Quat; 22] {
    std::array::from_fn(|i| {
        Quat::from_axis_angle(Vec3::new(1.0, i as f32, 2.0).normalize(), 0.1 + 0.05 * i as f32)
    })
}

fn accumulated(dq: &[Quat; 22], first: Quat) -> [Quat; 22] {
    let mut world = [Quat::IDENTITY; 22];
    for i in 0..22 {
        world[i] = match smpl::parent(i) {
            None => first * dq[i],
            Some(p) => world[p] * dq[i],
        };
    }
    world
}

fn shown(data: &BindData<Quat>, local: &[Quat; 22]) -> [Quat; 22] {
    let mut world = [Quat::IDENTITY; 22];
    for i in 0..22 {
        world[i] = match smpl::parent(i) {
            None => data.parent_chain_rest[0] * local[i],
            Some(p) => world[p] * data.inter_rest[i] * local[i],
        };
    }
    world
}

fn rig() -> BindData<Quat> {
    let (own, chain, _, _) = bind_pose();
    bind_data(&own, &chain, Quat::IDENTITY, &product, &inverse)
}

#[test]
fn a_posed_avatar_shows_the_pose_on_top_of_its_bind_pose() {
    let data = rig();
    let align = Quat::from_rotation_y(1.0);
    let local =
        fk_retarget_smpl_to_cc5_with_align(&some_pose(), &data, align, &product, &inverse);
    let joints = accumulated(&some_pose(), align);
    for (i, world) in shown(&data, &local).iter().enumerate() {
        assert!(world.abs_diff_eq(joints[i] * data.cc5_rest_world[i], 1e-4));
    }
}

#[test]
fn alignment_turns_every_bone_in_the_world() {
    let data = rig();
    let align = Quat::from_rotation_y(0.7);
    let plain = fk_retarget_smpl_to_cc5(&some_pose(), &data, Quat::IDENTITY, &product, &inverse);
    let aligned =
        fk_retarget_smpl_to_cc5_with_align(&some_pose(), &data, align, &product, &inverse);
    let (a, b) = (shown(&data, &plain), shown(&data, &aligned));
    for i in 0..22 {
        assert!(b[i].abs_diff_eq(align * a[i], 1e-4));
    }
}

#[test]
fn locals_of_the_other_rules_add_up_along_the_tree() {
    let data = rig();
    let reaxis = |_: usize, q: Quat| q;
    let axis_rule = retarget_axis_match(
        &some_pose(),
        &data,
        Quat::IDENTITY,
        false,
        &product,
        &inverse,
        &reaxis,
    );
    let joints = accumulated(&some_pose(), Quat::IDENTITY);
    for (i, world) in shown(&data, &axis_rule).iter().enumerate() {
        assert!(world.abs_diff_eq(joints[i] * data.cc5_rest_world[i], 1e-4));
    }
    // With a turn that undoes how far the parent has turned and puts the joint's
    // rotation in its place, the chained rule shows the same.
    let follow = |_: usize, delta: Quat, world: Quat, _: Quat| world * delta.inverse();
    let chained = fk_retarget_smpl_to_cc5_axis_match_chained(
        &some_pose(),
        &data,
        Quat::IDENTITY,
        Quat::IDENTITY,
        false,
        &product,
        &inverse,
        &follow,
    );
    for (i, world) in shown(&data, &chained).iter().enumerate() {
        assert!(world.abs_diff_eq(joints[i] * data.cc5_rest_world[i], 1e-3));
    }
}

#[test]
fn a_bone_swings_and_then_twists() {
    let turn = |from: Option<Vec3>, to: Option<Vec3>, angle: Option<f32>| {
        swing_and_twist(
            from,
            to,
            angle,
            &Quat::from_rotation_arc,
            &Quat::from_axis_angle,
            &product,
            Quat::IDENTITY,
        )
    };
    let (x, y) = (Some(Vec3::X), Some(Vec3::Y));
    let swing = Quat::from_rotation_arc(Vec3::X, Vec3::Y);
    assert!(turn(x, y, None).abs_diff_eq(swing, 1e-6));
    assert!((turn(x, y, Some(0.5)) * Vec3::X).abs_diff_eq(Vec3::Y, 1e-5));
    assert!(turn(x, y, Some(0.5)).abs_diff_eq(Quat::from_rotation_y(0.5) * swing, 1e-6));
    assert!(turn(y, y, None).abs_diff_eq(Quat::IDENTITY, 1e-6));
    assert!(turn(None, y, Some(0.5)).abs_diff_eq(Quat::from_rotation_y(0.5), 1e-6));
    assert_eq!(turn(x, None, Some(0.5)), Quat::IDENTITY);
}
