//! What holds of the operations that pose face and body, told by what goes in and what
//! comes out.
use crate::arkit;
use crate::arkit::BlendshapeFrame;
use crate::face;
use crate::face::{FaceDrive, FacePins, WeightOps};
use crate::face_laws;
use crate::json::Num;
use crate::morph;
use crate::morph::PartReport;
use crate::morph_laws;
use crate::morph_map::ArkitMap;
use crate::motion;
use crate::motion::Placement;
use crate::renderer::{ArkitPose, SkeletalPose};
use crate::retarget;
use crate::retarget::{BindData, RetargetMode};
use crate::retarget_laws;
use crate::secondary::{BoneWrite, JiggleBone, JiggleMode};
use crate::skeleton::DriveStep;
use vstd::prelude::*;

verus! {

/// The eyes of an unpinned face follow their own channels: each pitch is up less down
/// of the same eye, and the yaws count towards the avatar's right. Equal weights up and
/// down give equal pitches.
pub proof fn law_face_drive_turns_the_eyes<
    W: Copy,
    C: Fn(W) -> W,
    M: Fn(W, W) -> W,
    N: Fn(W) -> W,
>(
    pose: &ArkitPose<W>,
    pins: &FacePins<W>,
    ops: WeightOps<W>,
    clamp: &C,
    minus: &M,
    negate: &N,
    r: FaceDrive<W>,
    up: (W, W),
    down: (W, W),
    inward: (W, W),
    outward: (W, W),
)
    requires
        call_ensures(
            face::face_drive::<W, C, M, N>,
            (pose, pins, ops.zero, clamp, minus, negate),
            r,
        ),
        forall|a: W, o: W| #[trigger] call_ensures(*clamp, (a,), o) ==> o == (ops.clamp)(a),
        forall|a: W, b: W, o: W| #[trigger]
            call_ensures(*minus, (a, b), o) ==> o == (ops.minus)(a, b),
        forall|a: W, o: W| #[trigger] call_ensures(*negate, (a,), o) ==> o == (ops.negate)(a),
        face_laws::reads(pose.weights@, "eyeLookUpLeft"@, ops.zero, up.0),
        face_laws::reads(pose.weights@, "eyeLookUpRight"@, ops.zero, up.1),
        face_laws::reads(pose.weights@, "eyeLookDownLeft"@, ops.zero, down.0),
        face_laws::reads(pose.weights@, "eyeLookDownRight"@, ops.zero, down.1),
        face_laws::reads(pose.weights@, "eyeLookInLeft"@, ops.zero, inward.0),
        face_laws::reads(pose.weights@, "eyeLookInRight"@, ops.zero, inward.1),
        face_laws::reads(pose.weights@, "eyeLookOutLeft"@, ops.zero, outward.0),
        face_laws::reads(pose.weights@, "eyeLookOutRight"@, ops.zero, outward.1),
    ensures
        pins.eye_pitch is None ==> {
            &&& r.left_pitch == (ops.minus)((ops.clamp)(up.0), (ops.clamp)(down.0))
            &&& r.right_pitch == (ops.minus)((ops.clamp)(up.1), (ops.clamp)(down.1))
            &&& up.0 == up.1 && down.0 == down.1 ==> r.left_pitch == r.right_pitch
        },
        pins.eye_yaw is None ==> {
            &&& r.left_yaw == (ops.minus)((ops.clamp)(inward.0), (ops.clamp)(outward.0))
            &&& r.right_yaw == (ops.minus)((ops.clamp)(outward.1), (ops.clamp)(inward.1))
        },
        pins.eye_pitch matches Some(p) ==> r.left_pitch == p && r.right_pitch == p,
        pins.eye_yaw matches Some(p) ==> r.left_yaw == p && r.right_yaw == (ops.negate)(p),
{
    let args = (pose, pins, ops.zero, clamp, minus, negate);
    assert(args.0 == pose && args.1 == pins && args.2 == ops.zero);
    assert(args.3 == clamp && args.4 == minus && args.5 == negate);
    face_laws::law_supplied_arithmetic(*clamp, *minus, *negate, ops);
    assert(face::computes(*clamp, *minus, *negate, ops));
    if pins.eye_pitch is None {
        face_laws::law_eyes_look_up_and_down(*pose, *pins, ops, up.0, down.0, up.1, down.1);
    }
    if pins.eye_yaw is None {
        face_laws::law_eyes_look_sideways(
            *pose,
            *pins,
            ops,
            inward.0,
            outward.0,
            inward.1,
            outward.1,
        );
    }
}

/// Jaw, upper lip and tongue follow their own channels.
pub proof fn law_face_drive_moves_the_mouth<
    W: Copy,
    C: Fn(W) -> W,
    M: Fn(W, W) -> W,
    N: Fn(W) -> W,
>(
    pose: &ArkitPose<W>,
    pins: &FacePins<W>,
    ops: WeightOps<W>,
    clamp: &C,
    minus: &M,
    negate: &N,
    r: FaceDrive<W>,
    open: W,
    forward: W,
    left: W,
    right: W,
    shrug: W,
    tongue: W,
)
    requires
        call_ensures(
            face::face_drive::<W, C, M, N>,
            (pose, pins, ops.zero, clamp, minus, negate),
            r,
        ),
        forall|a: W, o: W| #[trigger] call_ensures(*clamp, (a,), o) ==> o == (ops.clamp)(a),
        forall|a: W, b: W, o: W| #[trigger]
            call_ensures(*minus, (a, b), o) ==> o == (ops.minus)(a, b),
        forall|a: W, o: W| #[trigger] call_ensures(*negate, (a,), o) ==> o == (ops.negate)(a),
        pins.jaw_open is None,
        face_laws::reads(pose.weights@, "jawOpen"@, ops.zero, open),
        face_laws::reads(pose.weights@, "jawForward"@, ops.zero, forward),
        face_laws::reads(pose.weights@, "jawLeft"@, ops.zero, left),
        face_laws::reads(pose.weights@, "jawRight"@, ops.zero, right),
        face_laws::reads(pose.weights@, "mouthShrugUpper"@, ops.zero, shrug),
        face_laws::reads(pose.weights@, "tongueOut"@, ops.zero, tongue),
    ensures
        r.jaw_open == (ops.clamp)(open),
        r.jaw_forward == (ops.clamp)(forward),
        r.jaw_side == (ops.minus)((ops.clamp)(right), (ops.clamp)(left)),
        r.upper_lip == (ops.clamp)(shrug),
        r.tongue_out == (ops.clamp)(tongue),
{
    let args = (pose, pins, ops.zero, clamp, minus, negate);
    assert(args.0 == pose && args.1 == pins && args.2 == ops.zero);
    assert(args.3 == clamp && args.4 == minus && args.5 == negate);
    face_laws::law_supplied_arithmetic(*clamp, *minus, *negate, ops);
    assert(face::computes(*clamp, *minus, *negate, ops));
    face_laws::law_jaw_lip_and_tongue(
        *pose,
        *pins,
        ops,
        open,
        forward,
        left,
        right,
        shrug,
        tongue,
    );
}

/// The chained retargeting poses the avatar so that every bone is turned by what its
/// own joint asks for, on top of its bind rotation carried along by the bone above.
pub proof fn law_chained_retargeting<
    Q: Copy,
    M: Fn(Q, Q) -> Q,
    I: Fn(Q) -> Q,
    T: Fn(usize, Q, Q, Q) -> Q,
>(
    dq: &[Q; 22],
    data: &BindData<Q>,
    align: Q,
    one: Q,
    freeze: bool,
    compose: &M,
    inv: &I,
    turn: &T,
    r: [Q; 22],
    m: spec_fn(Q, Q) -> Q,
    v: spec_fn(Q) -> Q,
    t: spec_fn(int, Q, Q, Q) -> Q,
    joints: Seq<Q>,
    bones: Seq<Q>,
    i: int,
)
    requires
        call_ensures(
            retarget::fk_retarget_smpl_to_cc5_axis_match_chained::<Q, M, I, T>,
            (dq, data, align, one, freeze, compose, inv, turn),
            r,
        ),
        forall|a: Q, b: Q, o: Q| #[trigger] call_ensures(*compose, (a, b), o) ==> o == m(a, b),
        forall|a: Q, o: Q| #[trigger] call_ensures(*inv, (a,), o) ==> o == v(a),
        forall|k: usize, a: Q, b: Q, c: Q, o: Q| #[trigger]
            call_ensures(*turn, (k, a, b, c), o) ==> o == t(k as int, a, b, c),
        retarget::is_group(m, v, one),
        retarget_laws::body_turned(joints, m, dq@, align),
        retarget_laws::avatar_shows(bones, m, *data, |k: int| r@[k]),
        0 <= i < 22,
    ensures
        i == 0 ==> bones[0] == m(
            t(0, one, joints[0], m(align, dq@[0])),
            data.cc5_rest_world@[0],
        ),
        i > 0 && !(freeze && retarget_laws::ends_a_limb(i)) ==> {
            let p = retarget_laws::joint_above(i);
            let carried = m(bones[p], v(data.cc5_rest_world@[p]));
            bones[i] == m(t(i, carried, joints[i], dq@[i]), m(carried, data.cc5_rest_world@[i]))
        },
        freeze && retarget_laws::ends_a_limb(i) ==> r@[i] == data.own_rest_local@[i],
{
    let args = (dq, data, align, one, freeze, compose, inv, turn);
    assert(args.0 == dq && args.1 == data && args.2 == align && args.3 == one);
    assert(args.4 == freeze && args.5 == compose && args.6 == inv && args.7 == turn);
    assert(retarget::composes(*compose, m));
    assert(retarget::inverts(*inv, v));
    assert(retarget::turns(*turn, t));
    let local = |k: int| retarget::chained_local(m, v, t, *data, dq@, align, one, freeze, k);
    assert forall|k: int| 0 <= k < 22 implies #[trigger] r@[k] == local(k) by {}
    assert(retarget_laws::avatar_shows(bones, m, *data, local)) by {
        assert(r@[0] == local(0));
        assert forall|k: int| 1 <= k < 22 implies #[trigger] bones[k] == m(
            m(bones[retarget_laws::joint_above(k)], data.inter_rest@[k]),
            local(k),
        ) by {
            assert(r@[k] == local(k));
        }
    }
    retarget_laws::law_chained_avatar_follows_its_own_joints(
        m,
        v,
        t,
        one,
        *data,
        dq@,
        align,
        freeze,
        joints,
        bones,
        i,
    );
    assert(r@[i] == local(i));
}

/// The world retargeting poses the avatar so that every bone shows its joint's world
/// rotation on top of its bind rotation.
pub proof fn law_world_retargeting<Q: Copy, M: Fn(Q, Q) -> Q, I: Fn(Q) -> Q>(
    dq: &[Q; 22],
    data: &BindData<Q>,
    align: Q,
    one: Q,
    compose: &M,
    inv: &I,
    r: [Q; 22],
    m: spec_fn(Q, Q) -> Q,
    v: spec_fn(Q) -> Q,
    joints: Seq<Q>,
    bones: Seq<Q>,
    i: int,
)
    requires
        call_ensures(
            retarget::fk_retarget_smpl_to_cc5_with_align::<Q, M, I>,
            (dq, data, align, compose, inv),
            r,
        ) || (align == one && call_ensures(
            retarget::fk_retarget_smpl_to_cc5::<Q, M, I>,
            (dq, data, one, compose, inv),
            r,
        )),
        forall|a: Q, b: Q, o: Q| #[trigger] call_ensures(*compose, (a, b), o) ==> o == m(a, b),
        forall|a: Q, o: Q| #[trigger] call_ensures(*inv, (a,), o) ==> o == v(a),
        retarget::is_group(m, v, one),
        retarget_laws::body_turned(joints, m, dq@, align),
        retarget_laws::avatar_shows(bones, m, *data, |k: int| r@[k]),
        0 <= i < 22,
    ensures
        bones[i] == m(joints[i], data.cc5_rest_world@[i]),
{
    let args = (dq, data, align, compose, inv);
    assert(args.0 == dq && args.1 == data && args.2 == align);
    assert(args.3 == compose && args.4 == inv);
    assert(retarget::composes(*compose, m));
    assert(retarget::inverts(*inv, v));
    let local = |k: int| retarget::world_local(m, v, *data, dq@, align, k);
    assert forall|k: int| 0 <= k < 22 implies #[trigger] r@[k] == local(k) by {}
    assert(retarget_laws::avatar_shows(bones, m, *data, local)) by {
        assert(r@[0] == local(0));
        assert forall|k: int| 1 <= k < 22 implies #[trigger] bones[k] == m(
            m(bones[retarget_laws::joint_above(k)], data.inter_rest@[k]),
            local(k),
        ) by {
            assert(r@[k] == local(k));
        }
    }
    retarget_laws::law_world_avatar_follows_its_own_joints(
        m,
        v,
        one,
        *data,
        dq@,
        align,
        joints,
        bones,
        i,
    );
}

/// The root of a placed pose stands off its rest by as much as the pose has gone from
/// its anchor, and the rotations are those of the mode.
pub proof fn law_placed_root<
    Q: Copy,
    V,
    M: Fn(Q, Q) -> Q,
    I: Fn(Q) -> Q,
    X: Fn(usize, Q) -> Q,
    T: Fn(usize, Q, Q, Q) -> Q,
    P: Fn(V, V) -> V,
    D: Fn(V, V) -> V,
    N: Fn(V) -> V,
>(
    mode: RetargetMode,
    dq: &[Q; 22],
    data: &BindData<Q>,
    align: Q,
    one: Q,
    freeze: bool,
    compose: &M,
    inv: &I,
    reaxis: &X,
    turn: &T,
    root_rest: V,
    root: V,
    anchor: V,
    plus: &P,
    minus: &D,
    inward: &N,
    r: Placement<Q, V>,
    p: spec_fn(V, V) -> V,
    d: spec_fn(V, V) -> V,
    n: spec_fn(V) -> V,
)
    requires
        call_ensures(
            motion::place_pose::<Q, V, M, I, X, T, P, D, N>,
            (
                mode,
                dq,
                data,
                align,
                one,
                freeze,
                compose,
                inv,
                reaxis,
                turn,
                root_rest,
                root,
                anchor,
                plus,
                minus,
                inward,
            ),
            r,
        ),
        forall|a: V, b: V, o: V| #[trigger] call_ensures(*plus, (a, b), o) ==> o == p(a, b),
        forall|a: V, b: V, o: V| #[trigger] call_ensures(*minus, (a, b), o) ==> o == d(a, b),
        forall|a: V, o: V| #[trigger] call_ensures(*inward, (a,), o) ==> o == n(a),
    ensures
        r.root == p(root_rest, n(d(root, anchor))),
{
    let args = (
        mode,
        dq,
        data,
        align,
        one,
        freeze,
        compose,
        inv,
        reaxis,
        turn,
        root_rest,
        root,
        anchor,
        plus,
        minus,
        inward,
    );
    assert(args.10 == root_rest && args.11 == root && args.12 == anchor);
    assert(args.13 == plus && args.14 == minus && args.15 == inward);
    assert(retarget::composes(*plus, p));
    assert(retarget::composes(*minus, d));
    assert(retarget::inverts(*inward, n));
}

/// The weights of a mesh are the contributions of the pose added up, and the report
/// counts them.
pub proof fn law_mesh_weights<W: Copy, L: Fn(W) -> bool, M: Fn(W, W, Num) -> W>(
    pose: &ArkitPose<W>,
    map: &ArkitMap,
    targets: &Vec<String>,
    mesh: &str,
    zero: W,
    live: &L,
    mix: &M,
    r: (Vec<W>, PartReport),
    l: spec_fn(W) -> bool,
    m: spec_fn(W, W, Num) -> W,
)
    requires
        call_ensures(
            morph::mesh_weights::<W, L, M>,
            (pose, map, targets, mesh, zero, live, mix),
            r,
        ),
        forall|w: W, o: bool| #[trigger] call_ensures(*live, (w,), o) ==> o == l(w),
        forall|a: W, b: W, f: Num, o: W| #[trigger]
            call_ensures(*mix, (a, b, f), o) ==> o == m(a, b, f),
    ensures
        r.0@.len() == targets@.len(),
        r.1.targets == targets@.len(),
        r.1.hits == morph_laws::parts_of(pose.weights@, *map, targets@, mesh@, l).len(),
        r.0@ == morph::blended(
            Seq::new(targets@.len(), |i: int| zero),
            morph_laws::parts_of(pose.weights@, *map, targets@, mesh@, l),
            m,
        ),
{
    let args = (pose, map, targets, mesh, zero, live, mix);
    assert(args.0 == pose && args.1 == map && args.2 == targets && args.3 == mesh);
    assert(args.4 == zero && args.5 == live && args.6 == mix);
    assert(morph::sorts_out(*live, l));
    assert(morph::mixes(*mix, m));
}


/// The axis retargeting poses the avatar so that every bone shows its joint's world
/// rotation in its own axes on top of its bind rotation.
pub proof fn law_axis_retargeting<
    Q: Copy,
    M: Fn(Q, Q) -> Q,
    I: Fn(Q) -> Q,
    T: Fn(usize, Q) -> Q,
>(
    dq: &[Q; 22],
    data: &BindData<Q>,
    align: Q,
    one: Q,
    freeze: bool,
    compose: &M,
    inv: &I,
    reaxis: &T,
    r: [Q; 22],
    m: spec_fn(Q, Q) -> Q,
    v: spec_fn(Q) -> Q,
    x: spec_fn(int, Q) -> Q,
    joints: Seq<Q>,
    bones: Seq<Q>,
    i: int,
)
    requires
        call_ensures(
            retarget::retarget_axis_match::<Q, M, I, T>,
            (dq, data, align, freeze, compose, inv, reaxis),
            r,
        ),
        forall|a: Q, b: Q, o: Q| #[trigger] call_ensures(*compose, (a, b), o) ==> o == m(a, b),
        forall|a: Q, o: Q| #[trigger] call_ensures(*inv, (a,), o) ==> o == v(a),
        forall|k: usize, a: Q, o: Q| #[trigger]
            call_ensures(*reaxis, (k, a), o) ==> o == x(k as int, a),
        retarget::is_group(m, v, one),
        retarget_laws::body_turned(joints, m, dq@, align),
        retarget_laws::avatar_shows(bones, m, *data, |k: int| r@[k]),
        0 <= i < 22,
    ensures
        !(freeze && retarget_laws::ends_a_limb(i)) ==> bones[i] == m(
            x(i, joints[i]),
            data.cc5_rest_world@[i],
        ),
        freeze && retarget_laws::ends_a_limb(i) ==> r@[i] == data.own_rest_local@[i],
{
    let args = (dq, data, align, freeze, compose, inv, reaxis);
    assert(args.0 == dq && args.1 == data && args.2 == align && args.3 == freeze);
    assert(args.4 == compose && args.5 == inv && args.6 == reaxis);
    assert(retarget::composes(*compose, m));
    assert(retarget::inverts(*inv, v));
    assert(retarget::reaxes(*reaxis, x));
    let local = |k: int| retarget::axis_local(m, v, x, *data, dq@, align, freeze, k);
    assert forall|k: int| 0 <= k < 22 implies #[trigger] r@[k] == local(k) by {}
    assert(retarget_laws::avatar_shows(bones, m, *data, local)) by {
        assert(r@[0] == local(0));
        assert forall|k: int| 1 <= k < 22 implies #[trigger] bones[k] == m(
            m(bones[retarget_laws::joint_above(k)], data.inter_rest@[k]),
            local(k),
        ) by {
            assert(r@[k] == local(k));
        }
    }
    retarget_laws::law_axis_avatar_follows_its_own_joints(
        m,
        v,
        x,
        one,
        *data,
        dq@,
        align,
        freeze,
        joints,
        bones,
        i,
    );
    assert(r@[i] == local(i));
}

/// The local retargeting turns every bone from its own bind rotation by its own joint,
/// the pelvis with the alignment before it.
pub proof fn law_local_retargeting<Q: Copy, M: Fn(Q, Q) -> Q>(
    dq: &[Q; 22],
    data: &BindData<Q>,
    align: Q,
    compose: &M,
    r: [Q; 22],
    m: spec_fn(Q, Q) -> Q,
    i: int,
)
    requires
        call_ensures(retarget::retarget_local::<Q, M>, (dq, data, align, compose), r),
        forall|a: Q, b: Q, o: Q| #[trigger] call_ensures(*compose, (a, b), o) ==> o == m(a, b),
        0 <= i < 22,
    ensures
        i == 0 ==> r@[0] == m(data.own_rest_local@[0], m(align, dq@[0])),
        i > 0 ==> r@[i] == m(data.own_rest_local@[i], dq@[i]),
{
    let args = (dq, data, align, compose);
    assert(args.0 == dq && args.1 == data && args.2 == align && args.3 == compose);
    assert(retarget::composes(*compose, m));
    assert(r@[i] == retarget::local_rule(m, *data, dq@, align, i));
}

/// A mode poses by its own operation: what it gives is what the operation of that name
/// gives.
pub proof fn law_modes_pose_by_their_rules<
    Q: Copy,
    M: Fn(Q, Q) -> Q,
    I: Fn(Q) -> Q,
    X: Fn(usize, Q) -> Q,
    T: Fn(usize, Q, Q, Q) -> Q,
>(
    mode: RetargetMode,
    dq: &[Q; 22],
    data: &BindData<Q>,
    align: Q,
    one: Q,
    freeze: bool,
    compose: &M,
    inv: &I,
    reaxis: &X,
    turn: &T,
    r: [Q; 22],
    m: spec_fn(Q, Q) -> Q,
    v: spec_fn(Q) -> Q,
    x: spec_fn(int, Q) -> Q,
    t: spec_fn(int, Q, Q, Q) -> Q,
    i: int,
)
    requires
        call_ensures(
            motion::retarget_pose::<Q, M, I, X, T>,
            (mode, dq, data, align, one, freeze, compose, inv, reaxis, turn),
            r,
        ),
        forall|a: Q, b: Q, o: Q| #[trigger] call_ensures(*compose, (a, b), o) ==> o == m(a, b),
        forall|a: Q, o: Q| #[trigger] call_ensures(*inv, (a,), o) ==> o == v(a),
        forall|k: usize, a: Q, o: Q| #[trigger]
            call_ensures(*reaxis, (k, a), o) ==> o == x(k as int, a),
        forall|k: usize, a: Q, b: Q, c: Q, o: Q| #[trigger]
            call_ensures(*turn, (k, a, b, c), o) ==> o == t(k as int, a, b, c),
        0 <= i < 22,
    ensures
        mode == RetargetMode::World ==> r@[i] == retarget::world_local(m, v, *data, dq@, align, i),
        mode == RetargetMode::Local ==> r@[i] == retarget::local_rule(m, *data, dq@, align, i),
        mode == RetargetMode::AxisMatch ==> r@[i] == retarget::axis_local(
            m,
            v,
            x,
            *data,
            dq@,
            align,
            freeze,
            i,
        ),
        mode == RetargetMode::AxisMatchChained ==> r@[i] == retarget::chained_local(
            m,
            v,
            t,
            *data,
            dq@,
            align,
            one,
            freeze,
            i,
        ),
{
    let args = (mode, dq, data, align, one, freeze, compose, inv, reaxis, turn);
    assert(args.0 == mode && args.1 == dq && args.2 == data && args.3 == align);
    assert(args.4 == one && args.5 == freeze && args.6 == compose && args.7 == inv);
    assert(args.8 == reaxis && args.9 == turn);
    assert(retarget::composes(*compose, m));
    assert(retarget::inverts(*inv, v));
    assert(retarget::reaxes(*reaxis, x));
    assert(retarget::turns(*turn, t));
    assert(r@[i] == r@[i]);
}

/// A derived bind pose hangs together along the tree.
pub proof fn law_bind_pose_is_derived<Q: Copy, M: Fn(Q, Q) -> Q, I: Fn(Q) -> Q>(
    own: &[Q; 22],
    chain: &[Q; 22],
    one: Q,
    compose: &M,
    inv: &I,
    r: BindData<Q>,
    m: spec_fn(Q, Q) -> Q,
    v: spec_fn(Q) -> Q,
    i: int,
)
    requires
        call_ensures(retarget::bind_data::<Q, M, I>, (own, chain, one, compose, inv), r),
        forall|a: Q, b: Q, o: Q| #[trigger] call_ensures(*compose, (a, b), o) ==> o == m(a, b),
        forall|a: Q, o: Q| #[trigger] call_ensures(*inv, (a,), o) ==> o == v(a),
        retarget::is_group(m, v, one),
        0 <= i < 22,
    ensures
        r.own_rest_local@[i] == own@[i],
        r.parent_chain_rest@[i] == chain@[i],
        r.cc5_rest_world@[i] == m(chain@[i], own@[i]),
        i > 0 ==> m(r.cc5_rest_world@[retarget_laws::joint_above(i)], r.inter_rest@[i])
            == chain@[i],
        i == 0 ==> r.inter_rest@[i] == one,
{
    let args = (own, chain, one, compose, inv);
    assert(args.0 == own && args.1 == chain && args.2 == one);
    assert(args.3 == compose && args.4 == inv);
    assert(retarget::composes(*compose, m));
    assert(retarget::inverts(*inv, v));
    retarget_laws::law_bind_pose_hangs_together(m, v, one, r, own@, chain@, i);
}

/// A bone is swung from where it points to where it is to point and then twisted about
/// where it is to point; what is not known is left out.
pub proof fn law_turn_of_a_bone<
    Q: Copy,
    D: Copy,
    A: Copy,
    R: Fn(D, D) -> Q,
    B: Fn(D, A) -> Q,
    M: Fn(Q, Q) -> Q,
>(
    from: Option<D>,
    to: Option<D>,
    angle: Option<A>,
    arc: &R,
    about: &B,
    compose: &M,
    one: Q,
    r: Q,
    g: spec_fn(D, D) -> Q,
    h: spec_fn(D, A) -> Q,
    m: spec_fn(Q, Q) -> Q,
)
    requires
        call_ensures(
            retarget::swing_and_twist::<Q, D, A, R, B, M>,
            (from, to, angle, arc, about, compose, one),
            r,
        ),
        forall|a: D, b: D, o: Q| #[trigger] call_ensures(*arc, (a, b), o) ==> o == g(a, b),
        forall|a: D, b: A, o: Q| #[trigger] call_ensures(*about, (a, b), o) ==> o == h(a, b),
        forall|a: Q, b: Q, o: Q| #[trigger] call_ensures(*compose, (a, b), o) ==> o == m(a, b),
        forall|q: Q| #[trigger] m(one, q) == q,
        forall|q: Q| #[trigger] m(q, one) == q,
    ensures
        from is Some && to is Some && angle is Some ==> r == m(
            h(to->0, angle->0),
            g(from->0, to->0),
        ),
        from is Some && to is Some && angle is None ==> r == g(from->0, to->0),
        from is None && to is Some && angle is Some ==> r == h(to->0, angle->0),
        from is None && angle is None ==> r == one,
        to is None ==> r == one,
{
    let args = (from, to, angle, arc, about, compose, one);
    assert(args.0 == from && args.1 == to && args.2 == angle && args.3 == arc);
    assert(args.4 == about && args.5 == compose && args.6 == one);
    assert(retarget::rotates(*arc, g));
    assert(retarget::rotates(*about, h));
    assert(retarget::composes(*compose, m));
}

/// Every bone points from its joint to the joint below it, along the spine where there
/// are several, and by its fallback where there is none or the two coincide.
pub proof fn law_directions_of_bones<
    P: Copy,
    D: Copy,
    F: Fn(P, P) -> Option<D>,
    G: Fn(usize) -> D,
>(
    at: &[P; 22],
    toward: &F,
    fallback: &G,
    r: [D; 22],
    f: spec_fn(P, P) -> Option<D>,
    g: spec_fn(int) -> D,
    i: int,
    c: int,
)
    requires
        call_ensures(motion::bone_directions::<P, D, F, G>, (at, toward, fallback), r),
        forall|a: P, b: P, o: Option<D>| #[trigger]
            call_ensures(*toward, (a, b), o) ==> o == f(a, b),
        forall|k: usize, o: D| #[trigger] call_ensures(*fallback, (k,), o) ==> o == g(k as int),
        0 <= i < 22,
        1 <= c < 22,
        retarget_laws::joint_above(c) == i,
        i == 0 ==> c == 3,
        i == 9 ==> c == 12,
    ensures
        f(at@[i], at@[c]) matches Some(d) ==> r@[i] == d,
        f(at@[i], at@[c]) is None ==> r@[i] == g(i),
        retarget_laws::ends_a_limb(c) ==> r@[c] == g(c),
{
    let args = (at, toward, fallback);
    assert(args.0 == at && args.1 == toward && args.2 == fallback);
    assert(motion::points(*toward, f));
    assert(motion::supplies(*fallback, g));
    retarget_laws::law_bones_point_down_the_tree(at@, f, g, i, c);
    assert(r@[i] == motion::direction_of(at@, f, g, i));
    assert(r@[c] == motion::direction_of(at@, f, g, c));
}

/// The root goes as far from its rest as the pose has gone from its anchor.
pub proof fn law_root_is_placed<V, P: Fn(V, V) -> V, M: Fn(V, V) -> V, N: Fn(V) -> V>(
    rest: V,
    root: V,
    anchor: V,
    plus: &P,
    minus: &M,
    inward: &N,
    r: V,
    p: spec_fn(V, V) -> V,
    d: spec_fn(V, V) -> V,
    n: spec_fn(V) -> V,
)
    requires
        call_ensures(
            motion::root_position::<V, P, M, N>,
            (rest, root, anchor, plus, minus, inward),
            r,
        ),
        forall|a: V, b: V, o: V| #[trigger] call_ensures(*plus, (a, b), o) ==> o == p(a, b),
        forall|a: V, b: V, o: V| #[trigger] call_ensures(*minus, (a, b), o) ==> o == d(a, b),
        forall|a: V, o: V| #[trigger] call_ensures(*inward, (a,), o) ==> o == n(a),
    ensures
        r == p(rest, n(d(root, anchor))),
{
    let args = (rest, root, anchor, plus, minus, inward);
    assert(args.0 == rest && args.1 == root && args.2 == anchor);
    assert(args.3 == plus && args.4 == minus && args.5 == inward);
    assert(retarget::composes(*plus, p));
    assert(retarget::composes(*minus, d));
    assert(retarget::inverts(*inward, n));
}

/// What a step of the driver writes to the bones.
pub proof fn law_step_is_written<
    Q: Copy,
    V,
    F: Fn(SkeletalPose, [Num; 3]) -> Placement<Q, V>,
>(
    step: DriveStep,
    data: &BindData<Q>,
    root_rest: V,
    posed: &F,
    r: Option<Placement<Q, V>>,
)
    requires
        call_ensures(motion::placement::<Q, V, F>, (step, data, root_rest, posed), r),
    ensures
        step is Nothing ==> r is None,
        step is Rest ==> (r matches Some(p) && p.rotations == data.own_rest_local && p.root
            == root_rest),
        step matches DriveStep::Apply { pose, anchor, .. } ==> (r matches Some(p) && call_ensures(
            *posed,
            (pose, anchor),
            p,
        )),
{
}

/// The part of a mesh that its parent mirrors has as many targets as the parent has
/// weights, and there is one where any part has.
pub proof fn law_part_is_mirrored(
    parts: &Vec<PartReport>,
    parent_len: usize,
    r: Option<usize>,
    at: int,
)
    requires
        call_ensures(morph::mirror, (parts, parent_len), r),
    ensures
        r matches Some(k) ==> k < parts@.len() && parts@[k as int].targets == parent_len,
        0 <= at < parts@.len() && parts@[at].targets == parent_len ==> r is Some,
        r is Some == morph::mirrored(parts@, parent_len as nat).1 is Some,
        r matches Some(k) ==> morph::mirrored(parts@, parent_len as nat).1 == Some(k as nat),
{
    morph::law_mirror_fits(parts@, parent_len as nat);
    if 0 <= at < parts@.len() && parts@[at].targets == parent_len {
        morph::law_fitting_part_is_mirrored(parts@, parent_len as nat, at);
    }
}

/// A facial frame is given the names of its channels.
pub proof fn law_frame_is_named<W, C: Fn(Num) -> W>(
    frame: &BlendshapeFrame,
    names: &Vec<String>,
    clamp: &C,
    r: ArkitPose<W>,
    i: int,
)
    requires
        call_ensures(arkit::frame_to_pose::<W, C>, (frame, names, clamp), r),
        0 <= i < names@.len(),
    ensures
        r.pts_ms == frame.pts_ms,
        r.weights@.len() == names@.len(),
        r.weights@[i].0@ == names@[i]@,
        call_ensures(*clamp, (frame.arkit_52@[i],), r.weights@[i].1),
{
}

/// A turning bone takes its body's rotation, a shifting one stands off its bind position
/// by as much as its body stands off the anchor.
pub proof fn law_bone_is_written_back<Q, V: Copy, P: Fn(V, V) -> V, M: Fn(V, V) -> V>(
    bone: &JiggleBone<Q, V>,
    rotation: Q,
    body: V,
    anchor: V,
    plus: &P,
    minus: &M,
    r: BoneWrite<Q, V>,
    p: spec_fn(V, V) -> V,
    d: spec_fn(V, V) -> V,
)
    requires
        call_ensures(
            JiggleBone::<Q, V>::writeback::<P, M>,
            (bone, rotation, body, anchor, plus, minus),
            r,
        ),
        forall|a: V, b: V, o: V| #[trigger] call_ensures(*plus, (a, b), o) ==> o == p(a, b),
        forall|a: V, b: V, o: V| #[trigger] call_ensures(*minus, (a, b), o) ==> o == d(a, b),
    ensures
        bone.mode == JiggleMode::Rotation ==> r == BoneWrite::<Q, V>::Rotation(rotation),
        bone.mode == JiggleMode::Translation ==> r == BoneWrite::<Q, V>::Translation(
            p(bone.bone_bind_translation, d(body, anchor)),
        ),
{
    let args = (bone, rotation, body, anchor, plus, minus);
    assert(args.0 == bone && args.1 == rotation && args.2 == body && args.3 == anchor);
    assert(args.4 == plus && args.5 == minus);
    assert(retarget::composes(*plus, p));
    assert(retarget::composes(*minus, d));
}

} // verus!
