//! A body pose on the whole avatar: rotations, root position and where the bones
//! point.
use crate::json::Num;
use crate::renderer::SkeletalPose;
use crate::retarget;
use crate::retarget::{BindData, RetargetMode};
use crate::skeleton::DriveStep;
use crate::smpl;
use vstd::prelude::*;

verus! {

/// Local rotation of a bone under the rule of a mode.
pub open spec fn local_by_mode<Q>(
    mode: RetargetMode,
    m: spec_fn(Q, Q) -> Q,
    v: spec_fn(Q) -> Q,
    x: spec_fn(int, Q) -> Q,
    t: spec_fn(int, Q, Q, Q) -> Q,
    data: BindData<Q>,
    dq: Seq<Q>,
    align: Q,
    one: Q,
    freeze: bool,
    i: int,
) -> Q {
    match mode {
        RetargetMode::World => retarget::world_local(m, v, data, dq, align, i),
        RetargetMode::Local => retarget::local_rule(m, data, dq, align, i),
        RetargetMode::AxisMatch => retarget::axis_local(m, v, x, data, dq, align, freeze, i),
        RetargetMode::AxisMatchChained => retarget::chained_local(
            m,
            v,
            t,
            data,
            dq,
            align,
            one,
            freeze,
            i,
        ),
    }
}

/// Local rotations of the bones for a pose, by the rule of a mode.
pub fn retarget_pose<
    Q: Copy,
    M: Fn(Q, Q) -> Q,
    I: Fn(Q) -> Q,
    X: Fn(usize, Q) -> Q,
    T: Fn(usize, Q, Q, Q) -> Q,
>(
    mode: RetargetMode,
    dq: &[Q; 22],
    data: &BindData<Q>,
    align: Q,
    one: Q,
    freeze_leaves: bool,
    compose: &M,
    inv: &I,
    reaxis: &X,
    turn: &T,
) -> (r: [Q; 22])
    requires
        forall|a: Q, b: Q| call_requires(*compose, (a, b)),
        forall|a: Q| call_requires(*inv, (a,)),
        forall|i: usize, a: Q| i < 22 ==> call_requires(*reaxis, (i, a)),
        forall|i: usize, a: Q, b: Q, c: Q| i < 22 ==> call_requires(*turn, (i, a, b, c)),
    ensures
        forall|
            m: spec_fn(Q, Q) -> Q,
            v: spec_fn(Q) -> Q,
            x: spec_fn(int, Q) -> Q,
            t: spec_fn(int, Q, Q, Q) -> Q,
            i: int,
        |
            #![trigger retarget::composes(*compose, m), retarget::inverts(*inv, v), retarget::reaxes(*reaxis, x), retarget::turns(*turn, t), r@[i]]
            retarget::composes(*compose, m) && retarget::inverts(*inv, v) && retarget::reaxes(
                *reaxis,
                x,
            ) && retarget::turns(*turn, t) && 0 <= i < 22 ==> r@[i] == local_by_mode(
                mode,
                m,
                v,
                x,
                t,
                *data,
                dq@,
                align,
                one,
                freeze_leaves,
                i,
            ),
{
    match mode {
        RetargetMode::World => retarget::fk_retarget_smpl_to_cc5_with_align(
            dq,
            data,
            align,
            compose,
            inv,
        ),
        RetargetMode::Local => retarget::retarget_local(dq, data, align, compose),
        RetargetMode::AxisMatch => retarget::retarget_axis_match(
            dq,
            data,
            align,
            freeze_leaves,
            compose,
            inv,
            reaxis,
        ),
        RetargetMode::AxisMatchChained => retarget::fk_retarget_smpl_to_cc5_axis_match_chained(
            dq,
            data,
            align,
            one,
            freeze_leaves,
            compose,
            inv,
            turn,
        ),
    }
}

/// Position of the root bone: where it rests, moved by how far the pose has gone
/// from its anchor, seen in the frame of the bones above.
pub open spec fn root_moved<V>(
    rest: V,
    root: V,
    anchor: V,
    plus: spec_fn(V, V) -> V,
    minus: spec_fn(V, V) -> V,
    inward: spec_fn(V) -> V,
) -> V {
    plus(rest, inward(minus(root, anchor)))
}

/// Position of the root bone. `inward` turns a direction in the world into the
/// frame of the bones above.
pub fn root_position<V, P: Fn(V, V) -> V, M: Fn(V, V) -> V, N: Fn(V) -> V>(
    rest: V,
    root: V,
    anchor: V,
    plus: &P,
    minus: &M,
    inward: &N,
) -> (r: V)
    requires
        forall|a: V, b: V| call_requires(*plus, (a, b)),
        forall|a: V, b: V| call_requires(*minus, (a, b)),
        forall|a: V| call_requires(*inward, (a,)),
    ensures
        forall|p: spec_fn(V, V) -> V, m: spec_fn(V, V) -> V, n: spec_fn(V) -> V|
            #![trigger retarget::composes(*plus, p), retarget::composes(*minus, m), retarget::inverts(*inward, n)]
            retarget::composes(*plus, p) && retarget::composes(*minus, m) && retarget::inverts(
                *inward,
                n,
            ) ==> r == root_moved(rest, root, anchor, p, m, n),
{
    let gone: V = minus(root, anchor);
    let turned: V = inward(gone);
    plus(rest, turned)
}

/// The first pose of a stream leaves the root where it rests.
pub proof fn law_stream_starts_at_rest<V>(
    rest: V,
    root: V,
    plus: spec_fn(V, V) -> V,
    minus: spec_fn(V, V) -> V,
    inward: spec_fn(V) -> V,
    zero: V,
)
    requires
        minus(root, root) == zero,
        inward(zero) == zero,
        plus(rest, zero) == rest,
    ensures
        root_moved(rest, root, root, plus, minus, inward) == rest,
{
}

/// What to write to the driven bones: their local rotations and the root's
/// position.
#[derive(Clone, Copy, Debug)]
pub struct Placement<Q, V> {
    pub rotations: [Q; 22],
    pub root: V,
}

/// What to write for one pose: the rotations by the rule of a mode, and the root's
/// position.
pub fn place_pose<
    Q: Copy,
    V,
    M: Fn(Q, Q) -> Q,
    I: Fn(Q) -> Q,
    X: Fn(usize, Q) -> Q,
    T: Fn(usize, Q, Q, Q) -> Q,
    P: Fn(V, V) -> V,
    D: Fn(V, V) -> V,
    N: Fn(V) -> V,
>(
    mode: RetargetMode,
    dq: &[Q; 22],
    data: &BindData<Q>,
    align: Q,
    one: Q,
    freeze_leaves: bool,
    compose: &M,
    inv: &I,
    reaxis: &X,
    turn: &T,
    root_rest: V,
    root: V,
    anchor: V,
    plus: &P,
    minus: &D,
    inward: &N,
) -> (r: Placement<Q, V>)
    requires
        forall|a: Q, b: Q| call_requires(*compose, (a, b)),
        forall|a: Q| call_requires(*inv, (a,)),
        forall|i: usize, a: Q| i < 22 ==> call_requires(*reaxis, (i, a)),
        forall|i: usize, a: Q, b: Q, c: Q| i < 22 ==> call_requires(*turn, (i, a, b, c)),
        forall|a: V, b: V| call_requires(*plus, (a, b)),
        forall|a: V, b: V| call_requires(*minus, (a, b)),
        forall|a: V| call_requires(*inward, (a,)),
    ensures
        forall|
            m: spec_fn(Q, Q) -> Q,
            v: spec_fn(Q) -> Q,
            x: spec_fn(int, Q) -> Q,
            t: spec_fn(int, Q, Q, Q) -> Q,
            i: int,
        |
            #![trigger retarget::composes(*compose, m), retarget::inverts(*inv, v), retarget::reaxes(*reaxis, x), retarget::turns(*turn, t), r.rotations@[i]]
            retarget::composes(*compose, m) && retarget::inverts(*inv, v) && retarget::reaxes(
                *reaxis,
                x,
            ) && retarget::turns(*turn, t) && 0 <= i < 22 ==> r.rotations@[i] == local_by_mode(
                mode,
                m,
                v,
                x,
                t,
                *data,
                dq@,
                align,
                one,
                freeze_leaves,
                i,
            ),
        forall|p: spec_fn(V, V) -> V, d: spec_fn(V, V) -> V, n: spec_fn(V) -> V|
            #![trigger retarget::composes(*plus, p), retarget::composes(*minus, d), retarget::inverts(*inward, n)]
            retarget::composes(*plus, p) && retarget::composes(*minus, d) && retarget::inverts(
                *inward,
                n,
            ) ==> r.root == root_moved(root_rest, root, anchor, p, d, n),
{
    let rotations: [Q; 22] = retarget_pose(
        mode,
        dq,
        data,
        align,
        one,
        freeze_leaves,
        compose,
        inv,
        reaxis,
        turn,
    );
    let place: V = root_position(root_rest, root, anchor, plus, minus, inward);
    Placement { rotations, root: place }
}

/// `written` is what a step of the driver writes: nothing, the bind pose with the
/// root at rest, or what `posed` makes of a pose and its anchor.
pub open spec fn writes<Q, V, F: Fn(SkeletalPose, [Num; 3]) -> Placement<Q, V>>(
    step: DriveStep,
    data: BindData<Q>,
    root_rest: V,
    posed: F,
    written: Option<Placement<Q, V>>,
) -> bool {
    match step {
        DriveStep::Nothing => written is None,
        DriveStep::Rest => written == Some(
            Placement { rotations: data.own_rest_local, root: root_rest },
        ),
        DriveStep::Apply { pose, anchor, .. } => written matches Some(p) && call_ensures(
            posed,
            (pose, anchor),
            p,
        ),
    }
}

/// What a step of the driver writes to the bones, if it writes anything.
pub fn placement<Q: Copy, V, F: Fn(SkeletalPose, [Num; 3]) -> Placement<Q, V>>(
    step: DriveStep,
    data: &BindData<Q>,
    root_rest: V,
    posed: &F,
) -> (r: Option<Placement<Q, V>>)
    requires
        forall|pose: SkeletalPose, anchor: [Num; 3]| call_requires(*posed, (pose, anchor)),
    ensures
        writes(step, *data, root_rest, *posed, r),
{
    match step {
        DriveStep::Nothing => None,
        DriveStep::Rest => Some(
            Placement { rotations: data.own_rest_local, root: root_rest },
        ),
        DriveStep::Apply { pose, anchor, .. } => Some(posed(pose, anchor)),
    }
}

/// What a function of two positions answers.
pub open spec fn points<P, D, F: Fn(P, P) -> Option<D>>(
    toward: F,
    f: spec_fn(P, P) -> Option<D>,
) -> bool {
    forall|a: P, b: P, r: Option<D>| #[trigger] call_ensures(toward, (a, b), r) ==> r == f(a, b)
}

/// What a function of a joint answers.
pub open spec fn supplies<D, G: Fn(usize) -> D>(fallback: G, g: spec_fn(int) -> D) -> bool {
    forall|i: usize, r: D| #[trigger] call_ensures(fallback, (i,), r) ==> r == g(i as int)
}

/// Where a bone points: from its joint to that of its primary child, and its
/// fallback where it has no such child or the two coincide.
pub open spec fn direction_of<P, D>(
    at: Seq<P>,
    f: spec_fn(P, P) -> Option<D>,
    g: spec_fn(int) -> D,
    i: int,
) -> D {
    match smpl::child_of(i) {
        Some(c) => match f(at[i], at[c]) {
            Some(d) => d,
            None => g(i),
        },
        None => g(i),
    }
}

/// Where every bone points. `toward` gives the direction from one position to
/// another, if there is one.
pub fn bone_directions<P: Copy, D: Copy, F: Fn(P, P) -> Option<D>, G: Fn(usize) -> D>(
    at: &[P; 22],
    toward: &F,
    fallback: &G,
) -> (r: [D; 22])
    requires
        forall|a: P, b: P| call_requires(*toward, (a, b)),
        forall|i: usize| i < 22 ==> call_requires(*fallback, (i,)),
    ensures
        forall|f: spec_fn(P, P) -> Option<D>, g: spec_fn(int) -> D, i: int|
            #![trigger points(*toward, f), supplies(*fallback, g), r@[i]]
            points(*toward, f) && supplies(*fallback, g) && 0 <= i < 22 ==> r@[i] == direction_of(
                at@,
                f,
                g,
                i,
            ),
{
    let first: D = bone_direction(0, at, toward, fallback);
    let mut out: [D; 22] = [first;22];
    let mut i: usize = 1;
    while i < 22
        invariant
            1 <= i <= 22,
            forall|a: P, b: P| call_requires(*toward, (a, b)),
            forall|i: usize| i < 22 ==> call_requires(*fallback, (i,)),
            forall|f: spec_fn(P, P) -> Option<D>, g: spec_fn(int) -> D, k: int|
                #![trigger points(*toward, f), supplies(*fallback, g), out@[k]]
                points(*toward, f) && supplies(*fallback, g) && 0 <= k < i ==> out@[k]
                    == direction_of(at@, f, g, k),
        decreases 22 - i,
    {
        out[i] = bone_direction(i, at, toward, fallback);
        i = i + 1;
    }
    out
}

/// Where one bone points.
fn bone_direction<P: Copy, D, F: Fn(P, P) -> Option<D>, G: Fn(usize) -> D>(
    i: usize,
    at: &[P; 22],
    toward: &F,
    fallback: &G,
) -> (r: D)
    requires
        i < 22,
        forall|a: P, b: P| call_requires(*toward, (a, b)),
        forall|i: usize| i < 22 ==> call_requires(*fallback, (i,)),
    ensures
        forall|f: spec_fn(P, P) -> Option<D>, g: spec_fn(int) -> D|
            #![trigger points(*toward, f), supplies(*fallback, g)]
            points(*toward, f) && supplies(*fallback, g) ==> r == direction_of(
                at@,
                f,
                g,
                i as int,
            ),
{
    match smpl::primary_child(i) {
        Some(c) => {
            let found: Option<D> = toward(at[i], at[c]);
            match found {
                Some(d) => d,
                None => fallback(i),
            }
        },
        None => fallback(i),
    }
}

} // verus!
