//! What holds of retargeting, told by the avatar that is seen: the world rotations
//! of its bones once the local rotations are written.
use crate::motion;
use crate::retarget;
use crate::retarget::{BindData, RetargetMode};
use crate::smpl;
use vstd::prelude::*;

verus! {

/// The joint above joint `i` of the body: hips and lowest spine joint hang on the
/// pelvis, collars on the upper spine, every other joint on the one of its side.
pub open spec fn joint_above(i: int) -> int {
    if i < 3 {
        0
    } else if i < 13 {
        i - 3
    } else if i < 15 {
        9
    } else if i < 18 {
        i - 3
    } else {
        i - 2
    }
}

/// Feet, head and wrists.
pub open spec fn ends_a_limb(i: int) -> bool {
    i == 10 || i == 11 || i == 15 || i == 20 || i == 21
}

/// `joints` are the world rotations of a body whose joints are turned by `dq`, with
/// the pelvis turned by `align` first.
pub open spec fn body_turned<Q>(
    joints: Seq<Q>,
    m: spec_fn(Q, Q) -> Q,
    dq: Seq<Q>,
    align: Q,
) -> bool {
    &&& joints.len() == 22
    &&& joints[0] == m(align, dq[0])
    &&& forall|i: int|
        1 <= i < 22 ==> #[trigger] joints[i] == m(joints[joint_above(i)], dq[i])
}

/// `bones` are the world rotations of an avatar with the local rotations `local`.
pub open spec fn avatar_shows<Q>(
    bones: Seq<Q>,
    m: spec_fn(Q, Q) -> Q,
    data: BindData<Q>,
    local: spec_fn(int) -> Q,
) -> bool {
    &&& bones.len() == 22
    &&& bones[0] == m(data.parent_chain_rest@[0], local(0))
    &&& forall|i: int|
        1 <= i < 22 ==> #[trigger] bones[i] == m(
            m(bones[joint_above(i)], data.inter_rest@[i]),
            local(i),
        )
}

/// The tree of the joints.
pub proof fn law_joint_tree(i: int)
    requires
        0 <= i < 22,
    ensures
        i == 0 ==> smpl::parent_of(i) is None,
        i > 0 ==> smpl::parent_of(i) == Some(joint_above(i)),
        ends_a_limb(i) <==> smpl::child_of(i) is None,
        smpl::child_of(0) == Some(3int),
        smpl::child_of(9) == Some(12int),
        smpl::child_of(i) matches Some(c) ==> i < c < 22 && joint_above(c) == i,
{
}

/// Spine, neck and head point up, thighs and shins down, feet forward, the left
/// arm to the left and the right arm to the right.
pub proof fn law_joint_axes(i: int)
    requires
        0 <= i < 22,
    ensures
        (i % 3 == 0 && i <= 15) ==> smpl::axis_of(i) == seq![0i8, 1i8, 0i8],
        (i == 1 || i == 2 || i == 4 || i == 5) ==> smpl::axis_of(i) == seq![0i8, -1i8, 0i8],
        (i == 7 || i == 8 || i == 10 || i == 11) ==> smpl::axis_of(i) == seq![0i8, 0i8, 1i8],
        (i == 13 || i == 16 || i == 18 || i == 20) ==> smpl::axis_of(i) == seq![1i8, 0i8, 0i8],
        (i == 14 || i == 17 || i == 19 || i == 21) ==> smpl::axis_of(i) == seq![-1i8, 0i8, 0i8],
{
}

/// Which bone of the avatar follows which joint of the body.
pub proof fn law_bones_follow_joints()
    ensures
        smpl::name_of(0) == "Pelvis"@ && smpl::bone_of(0) == "CC_Base_Hip"@,
        smpl::name_of(1) == "L_Hip"@ && smpl::bone_of(1) == "CC_Base_L_Thigh"@,
        smpl::name_of(2) == "R_Hip"@ && smpl::bone_of(2) == "CC_Base_R_Thigh"@,
        smpl::name_of(3) == "Spine1"@ && smpl::bone_of(3) == "CC_Base_Waist"@,
        smpl::name_of(4) == "L_Knee"@ && smpl::bone_of(4) == "CC_Base_L_Calf"@,
        smpl::name_of(5) == "R_Knee"@ && smpl::bone_of(5) == "CC_Base_R_Calf"@,
        smpl::name_of(6) == "Spine2"@ && smpl::bone_of(6) == "CC_Base_Spine01"@,
        smpl::name_of(7) == "L_Ankle"@ && smpl::bone_of(7) == "CC_Base_L_Foot"@,
        smpl::name_of(8) == "R_Ankle"@ && smpl::bone_of(8) == "CC_Base_R_Foot"@,
        smpl::name_of(9) == "Spine3"@ && smpl::bone_of(9) == "CC_Base_Spine02"@,
        smpl::name_of(10) == "L_Foot"@ && smpl::bone_of(10) == "CC_Base_L_ToeBase"@,
        smpl::name_of(11) == "R_Foot"@ && smpl::bone_of(11) == "CC_Base_R_ToeBase"@,
        smpl::name_of(12) == "Neck"@ && smpl::bone_of(12) == "CC_Base_NeckTwist01"@,
        smpl::name_of(13) == "L_Collar"@ && smpl::bone_of(13) == "CC_Base_L_Clavicle"@,
        smpl::name_of(14) == "R_Collar"@ && smpl::bone_of(14) == "CC_Base_R_Clavicle"@,
        smpl::name_of(15) == "Head"@ && smpl::bone_of(15) == "CC_Base_Head"@,
        smpl::name_of(16) == "L_Shoulder"@ && smpl::bone_of(16) == "CC_Base_L_Upperarm"@,
        smpl::name_of(17) == "R_Shoulder"@ && smpl::bone_of(17) == "CC_Base_R_Upperarm"@,
        smpl::name_of(18) == "L_Elbow"@ && smpl::bone_of(18) == "CC_Base_L_Forearm"@,
        smpl::name_of(19) == "R_Elbow"@ && smpl::bone_of(19) == "CC_Base_R_Forearm"@,
        smpl::name_of(20) == "L_Wrist"@ && smpl::bone_of(20) == "CC_Base_L_Hand"@,
        smpl::name_of(21) == "R_Wrist"@ && smpl::bone_of(21) == "CC_Base_R_Hand"@,
{
}

/// What the supplied functions stand for, argument by argument.
pub proof fn law_supplied_functions<
    Q,
    M: Fn(Q, Q) -> Q,
    I: Fn(Q) -> Q,
    X: Fn(usize, Q) -> Q,
    T: Fn(usize, Q, Q, Q) -> Q,
>(
    compose: M,
    m: spec_fn(Q, Q) -> Q,
    inv: I,
    v: spec_fn(Q) -> Q,
    reaxis: X,
    x: spec_fn(int, Q) -> Q,
    turn: T,
    t: spec_fn(int, Q, Q, Q) -> Q,
)
    ensures
        retarget::composes(compose, m) <==> forall|a: Q, b: Q, r: Q| #[trigger]
            call_ensures(compose, (a, b), r) ==> r == m(a, b),
        retarget::inverts(inv, v) <==> forall|a: Q, r: Q| #[trigger]
            call_ensures(inv, (a,), r) ==> r == v(a),
        retarget::reaxes(reaxis, x) <==> forall|i: usize, a: Q, r: Q| #[trigger]
            call_ensures(reaxis, (i, a), r) ==> r == x(i as int, a),
        retarget::turns(turn, t) <==> forall|i: usize, a: Q, b: Q, c: Q, r: Q| #[trigger]
            call_ensures(turn, (i, a, b, c), r) ==> r == t(i as int, a, b, c),
{
}

/// The world rotations of a body are determined by its joints.
proof fn lemma_joints<Q>(
    joints: Seq<Q>,
    m: spec_fn(Q, Q) -> Q,
    dq: Seq<Q>,
    align: Q,
    i: int,
)
    requires
        body_turned(joints, m, dq, align),
        0 <= i < 22,
    ensures
        retarget::smpl_world(m, dq, align, i) == joints[i],
    decreases i,
{
    if i > 0 {
        lemma_joints(joints, m, dq, align, joint_above(i));
    }
}

/// So are those of an avatar by its local rotations.
proof fn lemma_bones<Q>(
    bones: Seq<Q>,
    m: spec_fn(Q, Q) -> Q,
    data: BindData<Q>,
    local: spec_fn(int) -> Q,
    i: int,
)
    requires
        avatar_shows(bones, m, data, local),
        0 <= i < 22,
    ensures
        retarget::posed_world(m, data, local, i) == bones[i],
    decreases i,
{
    if i > 0 {
        lemma_bones(bones, m, data, local, joint_above(i));
    }
}

/// In the chained mode every bone of the avatar that is seen is carried along by
/// how far the bone above it has turned from its bind rotation, and is then turned
/// by what its own joint asks for: the turn is made of the joint's world rotation
/// and of the joint's own local rotation, so a roll of a joint about its axis is
/// seen at its own bone. Limb ends that are frozen keep their own bind rotation.
pub proof fn law_chained_avatar_follows_its_own_joints<Q>(
    m: spec_fn(Q, Q) -> Q,
    v: spec_fn(Q) -> Q,
    t: spec_fn(int, Q, Q, Q) -> Q,
    one: Q,
    data: BindData<Q>,
    dq: Seq<Q>,
    align: Q,
    freeze: bool,
    joints: Seq<Q>,
    bones: Seq<Q>,
    i: int,
)
    requires
        retarget::is_group(m, v, one),
        body_turned(joints, m, dq, align),
        avatar_shows(
            bones,
            m,
            data,
            |k: int| retarget::chained_local(m, v, t, data, dq, align, one, freeze, k),
        ),
        0 <= i < 22,
    ensures
        i == 0 ==> bones[0] == m(
            t(0, one, joints[0], m(align, dq[0])),
            data.cc5_rest_world@[0],
        ),
        i > 0 && !(freeze && ends_a_limb(i)) ==> {
            let p = joint_above(i);
            let carried = m(bones[p], v(data.cc5_rest_world@[p]));
            bones[i] == m(t(i, carried, joints[i], dq[i]), m(carried, data.cc5_rest_world@[i]))
        },
        freeze && ends_a_limb(i) ==> retarget::chained_local(
            m,
            v,
            t,
            data,
            dq,
            align,
            one,
            freeze,
            i,
        ) == data.own_rest_local@[i],
{
    let local = |k: int| retarget::chained_local(m, v, t, data, dq, align, one, freeze, k);
    lemma_joints(joints, m, dq, align, i);
    lemma_bones(bones, m, data, local, i);
    retarget::law_chained_rule_is_shown(m, v, t, one, data, dq, align, freeze, i);
    assert(retarget::neutral_at(m, one, data.cc5_rest_world@[i]));
    if i > 0 {
        let p = joint_above(i);
        lemma_bones(bones, m, data, local, p);
        retarget::law_chained_rule_is_shown(m, v, t, one, data, dq, align, freeze, p);
        if freeze && ends_a_limb(i) {
            retarget::law_frozen_bones_stay_chained(m, v, t, one, data, dq, align, i);
        }
    }
}

/// The roll of a single joint is seen at that joint's bone and carried on by the
/// bones below it, which are not rolled a second time: with every other joint at
/// rest, and a turn that answers with the joint's own roll, the bone shows the roll
/// on top of its bind rotation, and so does the bone right below it.
pub proof fn law_roll_is_seen_at_its_own_bone<Q>(
    m: spec_fn(Q, Q) -> Q,
    v: spec_fn(Q) -> Q,
    t: spec_fn(int, Q, Q, Q) -> Q,
    one: Q,
    data: BindData<Q>,
    dq: Seq<Q>,
    joints: Seq<Q>,
    bones: Seq<Q>,
    i: int,
    c: int,
)
    requires
        retarget::is_group(m, v, one),
        body_turned(joints, m, dq, one),
        avatar_shows(
            bones,
            m,
            data,
            |k: int| retarget::chained_local(m, v, t, data, dq, one, one, false, k),
        ),
        1 <= i < 22,
        1 <= c < 22,
        joint_above(c) == i,
        dq[c] == one,
        forall|k: int, a: Q, b: Q, own: Q| #[trigger] t(k, a, b, own) == own,
        bones[joint_above(i)] == data.cc5_rest_world@[joint_above(i)],
    ensures
        bones[i] == m(dq[i], data.cc5_rest_world@[i]),
        bones[c] == m(dq[i], data.cc5_rest_world@[c]),
{
    let p = joint_above(i);
    let (rest_p, rest_i, rest_c) = (
        data.cc5_rest_world@[p],
        data.cc5_rest_world@[i],
        data.cc5_rest_world@[c],
    );
    law_chained_avatar_follows_its_own_joints(
        m,
        v,
        t,
        one,
        data,
        dq,
        one,
        false,
        joints,
        bones,
        i,
    );
    law_chained_avatar_follows_its_own_joints(
        m,
        v,
        t,
        one,
        data,
        dq,
        one,
        false,
        joints,
        bones,
        c,
    );
    assert(retarget::undone_at(m, v, one, rest_p));
    assert(retarget::neutral_at(m, one, rest_i));
    let carried = m(bones[i], v(rest_i));
    assert(retarget::assoc_at(m, dq[i], rest_i, v(rest_i)));
    assert(retarget::undone_at(m, v, one, rest_i));
    assert(retarget::neutral_at(m, one, dq[i]));
    assert(carried == dq[i]);
    assert(retarget::neutral_at(m, one, m(carried, rest_c)));
}

/// In the axis mode every bone of the avatar that is seen shows its joint's world
/// rotation, brought to the bone's axes, on top of its bind rotation. Limb ends that
/// are frozen keep their own bind rotation.
pub proof fn law_axis_avatar_follows_its_own_joints<Q>(
    m: spec_fn(Q, Q) -> Q,
    v: spec_fn(Q) -> Q,
    x: spec_fn(int, Q) -> Q,
    one: Q,
    data: BindData<Q>,
    dq: Seq<Q>,
    align: Q,
    freeze: bool,
    joints: Seq<Q>,
    bones: Seq<Q>,
    i: int,
)
    requires
        retarget::is_group(m, v, one),
        body_turned(joints, m, dq, align),
        avatar_shows(
            bones,
            m,
            data,
            |k: int| retarget::axis_local(m, v, x, data, dq, align, freeze, k),
        ),
        0 <= i < 22,
    ensures
        !(freeze && ends_a_limb(i)) ==> bones[i] == m(x(i, joints[i]), data.cc5_rest_world@[i]),
        freeze && ends_a_limb(i) ==> retarget::axis_local(m, v, x, data, dq, align, freeze, i)
            == data.own_rest_local@[i],
{
    let local = |k: int| retarget::axis_local(m, v, x, data, dq, align, freeze, k);
    lemma_joints(joints, m, dq, align, i);
    lemma_bones(bones, m, data, local, i);
    retarget::law_axis_rule_is_shown(m, v, x, one, data, dq, align, freeze, i);
    if freeze && ends_a_limb(i) {
        retarget::law_frozen_bones_stay_axis(m, v, x, one, data, dq, align, i);
    }
}

/// In the world mode every bone of the avatar that is seen shows its joint's world
/// rotation on top of its bind rotation.
pub proof fn law_world_avatar_follows_its_own_joints<Q>(
    m: spec_fn(Q, Q) -> Q,
    v: spec_fn(Q) -> Q,
    one: Q,
    data: BindData<Q>,
    dq: Seq<Q>,
    align: Q,
    joints: Seq<Q>,
    bones: Seq<Q>,
    i: int,
)
    requires
        retarget::is_group(m, v, one),
        body_turned(joints, m, dq, align),
        avatar_shows(
            bones,
            m,
            data,
            |k: int| retarget::world_local(m, v, data, dq, align, k),
        ),
        0 <= i < 22,
    ensures
        bones[i] == m(joints[i], data.cc5_rest_world@[i]),
{
    let local = |k: int| retarget::world_local(m, v, data, dq, align, k);
    lemma_joints(joints, m, dq, align, i);
    lemma_bones(bones, m, data, local, i);
    retarget::law_world_rule_is_shown(m, v, one, data, dq, align, i);
}

/// In the local mode every bone keeps its own bind rotation and is turned from
/// there by its own joint, the pelvis with the alignment before it.
pub proof fn law_local_mode_turns_from_bind<Q>(
    m: spec_fn(Q, Q) -> Q,
    data: BindData<Q>,
    dq: Seq<Q>,
    align: Q,
    i: int,
)
    requires
        0 <= i < 22,
    ensures
        i == 0 ==> retarget::local_rule(m, data, dq, align, i) == m(
            data.own_rest_local@[0],
            m(align, dq[0]),
        ),
        i > 0 ==> retarget::local_rule(m, data, dq, align, i) == m(
            data.own_rest_local@[i],
            dq[i],
        ),
{
}

/// The bind pose of an avatar: each bone's world rotation is what lies above it
/// followed by its own rotation, and what lies above a bone is the world rotation
/// of the bone of the joint above followed by what is between the two.
pub proof fn law_bind_pose_hangs_together<Q>(
    m: spec_fn(Q, Q) -> Q,
    v: spec_fn(Q) -> Q,
    one: Q,
    data: BindData<Q>,
    own: Seq<Q>,
    chain: Seq<Q>,
    i: int,
)
    requires
        retarget::is_group(m, v, one),
        retarget::bind_of(data, own, chain, m, v, one),
        0 <= i < 22,
    ensures
        data.own_rest_local@[i] == own[i],
        data.parent_chain_rest@[i] == chain[i],
        data.cc5_rest_world@[i] == m(chain[i], own[i]),
        i > 0 ==> m(data.cc5_rest_world@[joint_above(i)], data.inter_rest@[i]) == chain[i],
        i == 0 ==> data.inter_rest@[i] == one,
{
    if i > 0 {
        let p = joint_above(i);
        let above = data.cc5_rest_world@[p];
        assert(data.inter_rest@[i] == m(v(above), chain[i]));
        assert(retarget::assoc_at(m, above, v(above), chain[i]));
        assert(retarget::undone_at(m, v, one, above));
        assert(retarget::neutral_at(m, one, chain[i]));
    }
}

/// Which words choose a mode.
pub proof fn law_mode_names(s: Seq<char>)
    ensures
        retarget::mode_named(None) == RetargetMode::AxisMatchChained,
        retarget::mode_named(Some("local"@)) == RetargetMode::Local,
        retarget::mode_named(Some("axis_match"@)) == RetargetMode::AxisMatch,
        retarget::mode_named(Some("axis_match_chained"@)) == RetargetMode::AxisMatchChained,
        s != "local"@ && s != "axis_match"@ && s != "axis_match_chained"@
            ==> retarget::mode_named(Some(s)) == RetargetMode::World,
{
    reveal_strlit("local");
    reveal_strlit("axis_match");
    reveal_strlit("axis_match_chained");
    assert("local"@.len() == 5 && "axis_match"@.len() == 10);
    assert("axis_match_chained"@.len() == 18);
}

/// Each mode poses the avatar by its own rule.
pub proof fn law_mode_chooses_its_rule<Q>(
    m: spec_fn(Q, Q) -> Q,
    v: spec_fn(Q) -> Q,
    x: spec_fn(int, Q) -> Q,
    t: spec_fn(int, Q, Q, Q) -> Q,
    data: BindData<Q>,
    dq: Seq<Q>,
    align: Q,
    one: Q,
    freeze: bool,
    i: int,
)
    ensures
        motion::local_by_mode(RetargetMode::World, m, v, x, t, data, dq, align, one, freeze, i)
            == retarget::world_local(m, v, data, dq, align, i),
        motion::local_by_mode(RetargetMode::Local, m, v, x, t, data, dq, align, one, freeze, i)
            == retarget::local_rule(m, data, dq, align, i),
        motion::local_by_mode(RetargetMode::AxisMatch, m, v, x, t, data, dq, align, one, freeze, i)
            == retarget::axis_local(m, v, x, data, dq, align, freeze, i),
        motion::local_by_mode(
            RetargetMode::AxisMatchChained,
            m,
            v,
            x,
            t,
            data,
            dq,
            align,
            one,
            freeze,
            i,
        ) == retarget::chained_local(m, v, t, data, dq, align, one, freeze, i),
{
}

/// The root goes as far from its rest as the pose has gone from its anchor, seen in
/// the frame of the bones above; two poses that have gone equally far put it at the
/// same place.
pub proof fn law_root_goes_as_far_as_the_pose<V>(
    rest: V,
    root: V,
    anchor: V,
    other_root: V,
    other_anchor: V,
    gone: V,
    plus: spec_fn(V, V) -> V,
    minus: spec_fn(V, V) -> V,
    inward: spec_fn(V) -> V,
)
    requires
        minus(root, anchor) == gone,
        minus(other_root, other_anchor) == gone,
    ensures
        motion::root_moved(rest, root, anchor, plus, minus, inward) == plus(rest, inward(gone)),
        motion::root_moved(rest, root, anchor, plus, minus, inward) == motion::root_moved(
            rest,
            other_root,
            other_anchor,
            plus,
            minus,
            inward,
        ),
{
}

/// A bone points from its joint to the joint below it, along the spine where there
/// are several; limb ends, and joints that coincide with the one below, point by
/// their fallback.
pub proof fn law_bones_point_down_the_tree<P, D>(
    at: Seq<P>,
    f: spec_fn(P, P) -> Option<D>,
    g: spec_fn(int) -> D,
    i: int,
    c: int,
)
    requires
        0 <= i < 22,
        1 <= c < 22,
        joint_above(c) == i,
        i == 0 ==> c == 3,
        i == 9 ==> c == 12,
    ensures
        f(at[i], at[c]) matches Some(d) ==> motion::direction_of(at, f, g, i) == d,
        f(at[i], at[c]) is None ==> motion::direction_of(at, f, g, i) == g(i),
        ends_a_limb(c) ==> motion::direction_of(at, f, g, c) == g(c),
{
}

/// The turn of a bone: first the swing from where it points to where it is to
/// point, then the twist about where it is to point; what is not known is left out.
pub proof fn law_swing_then_twist<Q, D, A>(
    a: D,
    b: D,
    angle: A,
    from: Option<D>,
    turned: Option<A>,
    arc: spec_fn(D, D) -> Q,
    about: spec_fn(D, A) -> Q,
    m: spec_fn(Q, Q) -> Q,
    one: Q,
)
    requires
        forall|q: Q| #[trigger] m(one, q) == q,
        forall|q: Q| #[trigger] m(q, one) == q,
    ensures
        retarget::swung_and_twisted(Some(a), Some(b), Some(angle), arc, about, m, one) == m(
            about(b, angle),
            arc(a, b),
        ),
        retarget::swung_and_twisted(Some(a), Some(b), None::<A>, arc, about, m, one) == arc(a, b),
        retarget::swung_and_twisted(None::<D>, Some(b), Some(angle), arc, about, m, one) == about(
            b,
            angle,
        ),
        retarget::swung_and_twisted(None::<D>, Some(b), None::<A>, arc, about, m, one) == one,
        retarget::swung_and_twisted(from, None::<D>, turned, arc, about, m, one) == one,
{
}

} // verus!
