//! Retargeting: local rotations of the pose stream become local rotations of
//! the avatar's bones.
//!
//! The functions here say which rotations are composed with which, along the
//! kinematic tree. How two rotations are composed and how one is inverted is
//! left to functions that the caller supplies, as is the geometry of aligning
//! one bone direction with another.
use crate::smpl;
use crate::text;
use vstd::prelude::*;

verus! {

/// What a composition function computes.
pub open spec fn composes<Q, M: Fn(Q, Q) -> Q>(compose: M, m: spec_fn(Q, Q) -> Q) -> bool {
    forall|a: Q, b: Q, r: Q| #[trigger] call_ensures(compose, (a, b), r) ==> r == m(a, b)
}

/// What an inversion function computes.
pub open spec fn inverts<Q, I: Fn(Q) -> Q>(inv: I, v: spec_fn(Q) -> Q) -> bool {
    forall|a: Q, r: Q| #[trigger] call_ensures(inv, (a,), r) ==> r == v(a)
}

/// What a function that turns one bone computes.
pub open spec fn turns<Q, T: Fn(usize, Q, Q, Q) -> Q>(
    turn: T,
    t: spec_fn(int, Q, Q, Q) -> Q,
) -> bool {
    forall|i: usize, a: Q, b: Q, c: Q, r: Q| #[trigger]
        call_ensures(turn, (i, a, b, c), r) ==> r == t(i as int, a, b, c)
}

/// What a function that re-axes the rotation of one bone computes.
pub open spec fn reaxes<Q, T: Fn(usize, Q) -> Q>(reaxis: T, t: spec_fn(int, Q) -> Q) -> bool {
    forall|i: usize, a: Q, r: Q| #[trigger]
        call_ensures(reaxis, (i, a), r) ==> r == t(i as int, a)
}

/// The bind pose of an avatar, per driven bone.
#[derive(Clone, Copy, Debug)]
pub struct BindData<Q> {
    /// The bone's own local rotation.
    pub own_rest_local: [Q; 22],
    /// World rotation of everything above the bone.
    pub parent_chain_rest: [Q; 22],
    /// World rotation of the bone.
    pub cc5_rest_world: [Q; 22],
    /// What lies between the bone and the bone of its parent joint.
    pub inter_rest: [Q; 22],
}

/// The bind pose that follows from each bone's own rotation and the rotation of
/// everything above it.
pub open spec fn bind_of<Q>(
    data: BindData<Q>,
    own: Seq<Q>,
    chain: Seq<Q>,
    m: spec_fn(Q, Q) -> Q,
    v: spec_fn(Q) -> Q,
    one: Q,
) -> bool {
    &&& data.own_rest_local@ == own
    &&& data.parent_chain_rest@ == chain
    &&& forall|i: int|
        0 <= i < 22 ==> (#[trigger] data.cc5_rest_world@[i]) == m(chain[i], own[i])
    &&& forall|i: int|
        0 <= i < 22 ==> (#[trigger] data.inter_rest@[i]) == match smpl::parent_of(i) {
            Some(p) => m(v(m(chain[p], own[p])), chain[i]),
            None => one,
        }
}

/// Derives the bind pose.
pub fn bind_data<Q: Copy, M: Fn(Q, Q) -> Q, I: Fn(Q) -> Q>(
    own: &[Q; 22],
    chain: &[Q; 22],
    one: Q,
    compose: &M,
    inv: &I,
) -> (r: BindData<Q>)
    requires
        forall|a: Q, b: Q| call_requires(*compose, (a, b)),
        forall|a: Q| call_requires(*inv, (a,)),
    ensures
        forall|m: spec_fn(Q, Q) -> Q, v: spec_fn(Q) -> Q| #[trigger]
            composes(*compose, m) && #[trigger] inverts(*inv, v) ==> bind_of(
                r,
                own@,
                chain@,
                m,
                v,
                one,
            ),
{
    let mut world: [Q; 22] = [one;22];
    let mut i: usize = 0;
    while i < 22
        invariant
            i <= 22,
            forall|a: Q, b: Q| call_requires(*compose, (a, b)),
            forall|m: spec_fn(Q, Q) -> Q, k: int|
                #![trigger composes(*compose, m), world@[k]]
                composes(*compose, m) && 0 <= k < i ==> world@[k] == m(chain@[k], own@[k]),
        decreases 22 - i,
    {
        world[i] = compose(chain[i], own[i]);
        i = i + 1;
    }
    let mut inter: [Q; 22] = [one;22];
    let mut j: usize = 0;
    while j < 22
        invariant
            j <= 22,
            forall|a: Q, b: Q| call_requires(*compose, (a, b)),
            forall|a: Q| call_requires(*inv, (a,)),
            forall|m: spec_fn(Q, Q) -> Q, k: int|
                #![trigger composes(*compose, m), world@[k]]
                composes(*compose, m) && 0 <= k < 22 ==> world@[k] == m(chain@[k], own@[k]),
            forall|m: spec_fn(Q, Q) -> Q, v: spec_fn(Q) -> Q, k: int|
                #![trigger composes(*compose, m), inverts(*inv, v), inter@[k]]
                composes(*compose, m) && inverts(*inv, v) && 0 <= k < j ==> inter@[k]
                    == match smpl::parent_of(k) {
                    Some(p) => m(v(m(chain@[p], own@[p])), chain@[k]),
                    None => one,
                },
        decreases 22 - j,
    {
        match smpl::parent(j) {
            Some(p) => {
                let back: Q = inv(world[p]);
                inter[j] = compose(back, chain[j]);
            },
            None => {
                inter[j] = one;
            },
        }
        j = j + 1;
    }
    BindData {
        own_rest_local: *own,
        parent_chain_rest: *chain,
        cc5_rest_world: world,
        inter_rest: inter,
    }
}

/// World rotation of a joint in the pose stream.
pub open spec fn smpl_world<Q>(m: spec_fn(Q, Q) -> Q, dq: Seq<Q>, align: Q, i: int) -> Q
    decreases i,
{
    match smpl::parent_of(i) {
        Some(p) => if 0 <= p < i {
            m(smpl_world(m, dq, align, p), dq[i])
        } else {
            dq[i]
        },
        None => m(align, dq[i]),
    }
}

/// World rotation of a bone's parent in the animated avatar, given the world
/// rotation of the bone of the parent joint.
pub open spec fn parent_world<Q>(
    m: spec_fn(Q, Q) -> Q,
    data: BindData<Q>,
    above: spec_fn(int) -> Q,
    i: int,
) -> Q {
    match smpl::parent_of(i) {
        Some(p) => m(above(p), data.inter_rest@[i]),
        None => data.parent_chain_rest@[0],
    }
}

/// World rotation of a bone when the joint's world rotation is put on top of
/// the bind pose.
pub open spec fn world_rule<Q>(
    m: spec_fn(Q, Q) -> Q,
    data: BindData<Q>,
    dq: Seq<Q>,
    align: Q,
    i: int,
) -> Q {
    m(smpl_world(m, dq, align, i), data.cc5_rest_world@[i])
}

/// Local rotation of a bone under the world rule.
pub open spec fn world_local<Q>(
    m: spec_fn(Q, Q) -> Q,
    v: spec_fn(Q) -> Q,
    data: BindData<Q>,
    dq: Seq<Q>,
    align: Q,
    i: int,
) -> Q {
    m(
        v(parent_world(m, data, |p: int| world_rule(m, data, dq, align, p), i)),
        world_rule(m, data, dq, align, i),
    )
}

/// World rule without alignment.
pub fn fk_retarget_smpl_to_cc5<Q: Copy, M: Fn(Q, Q) -> Q, I: Fn(Q) -> Q>(
    dq: &[Q; 22],
    data: &BindData<Q>,
    one: Q,
    compose: &M,
    inv: &I,
) -> (r: [Q; 22])
    requires
        forall|a: Q, b: Q| call_requires(*compose, (a, b)),
        forall|a: Q| call_requires(*inv, (a,)),
    ensures
        forall|m: spec_fn(Q, Q) -> Q, v: spec_fn(Q) -> Q, i: int|
            #![trigger composes(*compose, m), inverts(*inv, v), r@[i]]
            composes(*compose, m) && inverts(*inv, v) && 0 <= i < 22 ==> r@[i] == world_local(
                m,
                v,
                *data,
                dq@,
                one,
                i,
            ),
{
    fk_retarget_smpl_to_cc5_with_align(dq, data, one, compose, inv)
}

/// World rule: every joint's world rotation, accumulated along the tree from an
/// alignment at the pelvis, is put on top of the bone's bind rotation, and the
/// result is made local to the animated parent.
pub fn fk_retarget_smpl_to_cc5_with_align<Q: Copy, M: Fn(Q, Q) -> Q, I: Fn(Q) -> Q>(
    dq: &[Q; 22],
    data: &BindData<Q>,
    align: Q,
    compose: &M,
    inv: &I,
) -> (r: [Q; 22])
    requires
        forall|a: Q, b: Q| call_requires(*compose, (a, b)),
        forall|a: Q| call_requires(*inv, (a,)),
    ensures
        forall|m: spec_fn(Q, Q) -> Q, v: spec_fn(Q) -> Q, i: int|
            #![trigger composes(*compose, m), inverts(*inv, v), r@[i]]
            composes(*compose, m) && inverts(*inv, v) && 0 <= i < 22 ==> r@[i] == world_local(
                m,
                v,
                *data,
                dq@,
                align,
                i,
            ),
{
    let mut w_smpl: [Q; 22] = [align;22];
    let mut w_cc5: [Q; 22] = [align;22];
    let mut out: [Q; 22] = [align;22];
    let mut i: usize = 0;
    while i < 22
        invariant
            i <= 22,
            forall|a: Q, b: Q| call_requires(*compose, (a, b)),
            forall|a: Q| call_requires(*inv, (a,)),
            forall|m: spec_fn(Q, Q) -> Q, k: int|
                #![trigger composes(*compose, m), w_smpl@[k]]
                composes(*compose, m) && 0 <= k < i ==> w_smpl@[k] == smpl_world(m, dq@, align, k),
            forall|m: spec_fn(Q, Q) -> Q, k: int|
                #![trigger composes(*compose, m), w_cc5@[k]]
                composes(*compose, m) && 0 <= k < i ==> w_cc5@[k] == world_rule(
                    m,
                    *data,
                    dq@,
                    align,
                    k,
                ),
            forall|m: spec_fn(Q, Q) -> Q, v: spec_fn(Q) -> Q, k: int|
                #![trigger composes(*compose, m), inverts(*inv, v), out@[k]]
                composes(*compose, m) && inverts(*inv, v) && 0 <= k < i ==> out@[k] == world_local(
                    m,
                    v,
                    *data,
                    dq@,
                    align,
                    k,
                ),
        decreases 22 - i,
    {
        match smpl::parent(i) {
            Some(p) => {
                w_smpl[i] = compose(w_smpl[p], dq[i]);
                w_cc5[i] = compose(w_smpl[i], data.cc5_rest_world[i]);
                let above: Q = compose(w_cc5[p], data.inter_rest[i]);
                let back: Q = inv(above);
                out[i] = compose(back, w_cc5[i]);
            },
            None => {
                w_smpl[i] = compose(align, dq[i]);
                w_cc5[i] = compose(w_smpl[i], data.cc5_rest_world[i]);
                let back: Q = inv(data.parent_chain_rest[0]);
                out[i] = compose(back, w_cc5[i]);
            },
        }
        i = i + 1;
    }
    out
}

/// Local rotation of a bone under the local rule.
pub open spec fn local_rule<Q>(
    m: spec_fn(Q, Q) -> Q,
    data: BindData<Q>,
    dq: Seq<Q>,
    align: Q,
    i: int,
) -> Q {
    m(
        data.own_rest_local@[i],
        if i == 0 {
            m(align, dq[i])
        } else {
            dq[i]
        },
    )
}

/// Local rule: the joint's rotation is put on top of the bone's own rotation.
pub fn retarget_local<Q: Copy, M: Fn(Q, Q) -> Q>(
    dq: &[Q; 22],
    data: &BindData<Q>,
    align: Q,
    compose: &M,
) -> (r: [Q; 22])
    requires
        forall|a: Q, b: Q| call_requires(*compose, (a, b)),
    ensures
        forall|m: spec_fn(Q, Q) -> Q, i: int|
            #![trigger composes(*compose, m), r@[i]]
            composes(*compose, m) && 0 <= i < 22 ==> r@[i] == local_rule(m, *data, dq@, align, i),
{
    let mut out: [Q; 22] = [align;22];
    let mut i: usize = 0;
    while i < 22
        invariant
            i <= 22,
            forall|a: Q, b: Q| call_requires(*compose, (a, b)),
            forall|m: spec_fn(Q, Q) -> Q, k: int|
                #![trigger composes(*compose, m), out@[k]]
                composes(*compose, m) && 0 <= k < i ==> out@[k] == local_rule(
                    m,
                    *data,
                    dq@,
                    align,
                    k,
                ),
        decreases 22 - i,
    {
        let turned: Q = if i == 0 {
            compose(align, dq[i])
        } else {
            dq[i]
        };
        out[i] = compose(data.own_rest_local[i], turned);
        i = i + 1;
    }
    out
}

/// A bone without children that is kept at its bind rotation.
pub open spec fn is_frozen(freeze: bool, i: int) -> bool {
    freeze && smpl::child_of(i) is None && smpl::parent_of(i) is Some
}

/// World rotation of a bone under the axis rule: the joint's world rotation is
/// re-axed for the bone and put on top of the bind rotation; frozen bones
/// follow their parent.
pub open spec fn axis_rule<Q>(
    m: spec_fn(Q, Q) -> Q,
    t: spec_fn(int, Q) -> Q,
    data: BindData<Q>,
    dq: Seq<Q>,
    align: Q,
    freeze: bool,
    i: int,
) -> Q
    decreases i,
{
    match smpl::parent_of(i) {
        Some(p) => if is_frozen(freeze, i) && 0 <= p < i {
            m(
                m(axis_rule(m, t, data, dq, align, freeze, p), data.inter_rest@[i]),
                data.own_rest_local@[i],
            )
        } else {
            m(t(i, smpl_world(m, dq, align, i)), data.cc5_rest_world@[i])
        },
        None => m(t(i, smpl_world(m, dq, align, i)), data.cc5_rest_world@[i]),
    }
}

/// Local rotation of a bone under the axis rule.
pub open spec fn axis_local<Q>(
    m: spec_fn(Q, Q) -> Q,
    v: spec_fn(Q) -> Q,
    t: spec_fn(int, Q) -> Q,
    data: BindData<Q>,
    dq: Seq<Q>,
    align: Q,
    freeze: bool,
    i: int,
) -> Q {
    m(
        v(parent_world(m, data, |p: int| axis_rule(m, t, data, dq, align, freeze, p), i)),
        axis_rule(m, t, data, dq, align, freeze, i),
    )
}

/// Axis rule. `reaxis` turns a world rotation of the pose stream into the axes
/// of one bone.
pub fn retarget_axis_match<Q: Copy, M: Fn(Q, Q) -> Q, I: Fn(Q) -> Q, T: Fn(usize, Q) -> Q>(
    dq: &[Q; 22],
    data: &BindData<Q>,
    align: Q,
    freeze_leaves: bool,
    compose: &M,
    inv: &I,
    reaxis: &T,
) -> (r: [Q; 22])
    requires
        forall|a: Q, b: Q| call_requires(*compose, (a, b)),
        forall|a: Q| call_requires(*inv, (a,)),
        forall|i: usize, a: Q| i < 22 ==> call_requires(*reaxis, (i, a)),
    ensures
        forall|m: spec_fn(Q, Q) -> Q, v: spec_fn(Q) -> Q, t: spec_fn(int, Q) -> Q, i: int|
            #![trigger composes(*compose, m), inverts(*inv, v), reaxes(*reaxis, t), r@[i]]
            composes(*compose, m) && inverts(*inv, v) && reaxes(*reaxis, t) && 0 <= i < 22 ==> r@[i]
                == axis_local(m, v, t, *data, dq@, align, freeze_leaves, i),
{
    let mut w_smpl: [Q; 22] = [align;22];
    let mut w_cc5: [Q; 22] = [align;22];
    let mut out: [Q; 22] = [align;22];
    let mut i: usize = 0;
    while i < 22
        invariant
            i <= 22,
            forall|a: Q, b: Q| call_requires(*compose, (a, b)),
            forall|a: Q| call_requires(*inv, (a,)),
            forall|i: usize, a: Q| i < 22 ==> call_requires(*reaxis, (i, a)),
            forall|m: spec_fn(Q, Q) -> Q, k: int|
                #![trigger composes(*compose, m), w_smpl@[k]]
                composes(*compose, m) && 0 <= k < i ==> w_smpl@[k] == smpl_world(m, dq@, align, k),
            forall|m: spec_fn(Q, Q) -> Q, t: spec_fn(int, Q) -> Q, k: int|
                #![trigger composes(*compose, m), reaxes(*reaxis, t), w_cc5@[k]]
                composes(*compose, m) && reaxes(*reaxis, t) && 0 <= k < i ==> w_cc5@[k] == axis_rule(
                    m,
                    t,
                    *data,
                    dq@,
                    align,
                    freeze_leaves,
                    k,
                ),
            forall|m: spec_fn(Q, Q) -> Q, v: spec_fn(Q) -> Q, t: spec_fn(int, Q) -> Q, k: int|
                #![trigger composes(*compose, m), inverts(*inv, v), reaxes(*reaxis, t), out@[k]]
                composes(*compose, m) && inverts(*inv, v) && reaxes(*reaxis, t) && 0 <= k < i
                    ==> out@[k] == axis_local(m, v, t, *data, dq@, align, freeze_leaves, k),
        decreases 22 - i,
    {
        let leaf: bool = smpl::primary_child(i).is_none();
        match smpl::parent(i) {
            Some(p) => {
                w_smpl[i] = compose(w_smpl[p], dq[i]);
                let above: Q = compose(w_cc5[p], data.inter_rest[i]);
                if freeze_leaves && leaf {
                    w_cc5[i] = compose(above, data.own_rest_local[i]);
                } else {
                    let turned: Q = reaxis(i, w_smpl[i]);
                    w_cc5[i] = compose(turned, data.cc5_rest_world[i]);
                }
                let back: Q = inv(above);
                out[i] = compose(back, w_cc5[i]);
            },
            None => {
                w_smpl[i] = compose(align, dq[i]);
                let turned: Q = reaxis(i, w_smpl[i]);
                w_cc5[i] = compose(turned, data.cc5_rest_world[i]);
                let back: Q = inv(data.parent_chain_rest[0]);
                out[i] = compose(back, w_cc5[i]);
            },
        }
        i = i + 1;
    }
    out
}

/// The rotation of a joint with the alignment folded in at the pelvis.
pub open spec fn aligned<Q>(m: spec_fn(Q, Q) -> Q, dq: Seq<Q>, align: Q, i: int) -> Q {
    if i == 0 {
        m(align, dq[i])
    } else {
        dq[i]
    }
}

/// World rotation of a bone under the chained rule: the bind rotation is carried
/// along by how far the parent has turned, then turned so that the bone points
/// where the joint points; frozen bones follow their parent.
pub open spec fn chained_rule<Q>(
    m: spec_fn(Q, Q) -> Q,
    v: spec_fn(Q) -> Q,
    t: spec_fn(int, Q, Q, Q) -> Q,
    data: BindData<Q>,
    dq: Seq<Q>,
    align: Q,
    one: Q,
    freeze: bool,
    i: int,
) -> Q
    decreases i,
{
    match smpl::parent_of(i) {
        Some(p) => if 0 <= p < i {
            let above = chained_rule(m, v, t, data, dq, align, one, freeze, p);
            if is_frozen(freeze, i) {
                m(m(above, data.inter_rest@[i]), data.own_rest_local@[i])
            } else {
                let delta = m(above, v(data.cc5_rest_world@[p]));
                m(
                    t(i, delta, smpl_world(m, dq, align, i), aligned(m, dq, align, i)),
                    m(delta, data.cc5_rest_world@[i]),
                )
            }
        } else {
            one
        },
        None => m(
            t(i, one, smpl_world(m, dq, align, i), aligned(m, dq, align, i)),
            m(one, data.cc5_rest_world@[i]),
        ),
    }
}

/// Local rotation of a bone under the chained rule.
pub open spec fn chained_local<Q>(
    m: spec_fn(Q, Q) -> Q,
    v: spec_fn(Q) -> Q,
    t: spec_fn(int, Q, Q, Q) -> Q,
    data: BindData<Q>,
    dq: Seq<Q>,
    align: Q,
    one: Q,
    freeze: bool,
    i: int,
) -> Q {
    m(
        v(
            parent_world(
                m,
                data,
                |p: int| chained_rule(m, v, t, data, dq, align, one, freeze, p),
                i,
            ),
        ),
        chained_rule(m, v, t, data, dq, align, one, freeze, i),
    )
}

/// Chained rule. `turn` gives, for one bone, the rotation that makes the carried
/// bone point where the joint points, twist about the bone's own axis included;
/// it is handed how far the parent has turned, the joint's world rotation and
/// the joint's local rotation.
pub fn fk_retarget_smpl_to_cc5_axis_match_chained<
    Q: Copy,
    M: Fn(Q, Q) -> Q,
    I: Fn(Q) -> Q,
    T: Fn(usize, Q, Q, Q) -> Q,
>(
    dq: &[Q; 22],
    data: &BindData<Q>,
    align: Q,
    one: Q,
    freeze_leaves: bool,
    compose: &M,
    inv: &I,
    turn: &T,
) -> (r: [Q; 22])
    requires
        forall|a: Q, b: Q| call_requires(*compose, (a, b)),
        forall|a: Q| call_requires(*inv, (a,)),
        forall|i: usize, a: Q, b: Q, c: Q| i < 22 ==> call_requires(*turn, (i, a, b, c)),
    ensures
        forall|m: spec_fn(Q, Q) -> Q, v: spec_fn(Q) -> Q, t: spec_fn(int, Q, Q, Q) -> Q, i: int|
            #![trigger composes(*compose, m), inverts(*inv, v), turns(*turn, t), r@[i]]
            composes(*compose, m) && inverts(*inv, v) && turns(*turn, t) && 0 <= i < 22 ==> r@[i]
                == chained_local(m, v, t, *data, dq@, align, one, freeze_leaves, i),
{
    let mut w_smpl: [Q; 22] = [one;22];
    let mut w_cc5: [Q; 22] = [one;22];
    let mut out: [Q; 22] = [one;22];
    let mut i: usize = 0;
    while i < 22
        invariant
            i <= 22,
            forall|a: Q, b: Q| call_requires(*compose, (a, b)),
            forall|a: Q| call_requires(*inv, (a,)),
            forall|i: usize, a: Q, b: Q, c: Q| i < 22 ==> call_requires(*turn, (i, a, b, c)),
            forall|m: spec_fn(Q, Q) -> Q, k: int|
                #![trigger composes(*compose, m), w_smpl@[k]]
                composes(*compose, m) && 0 <= k < i ==> w_smpl@[k] == smpl_world(m, dq@, align, k),
            forall|m: spec_fn(Q, Q) -> Q, v: spec_fn(Q) -> Q, t: spec_fn(int, Q, Q, Q) -> Q, k: int|
                #![trigger composes(*compose, m), inverts(*inv, v), turns(*turn, t), w_cc5@[k]]
                composes(*compose, m) && inverts(*inv, v) && turns(*turn, t) && 0 <= k < i ==> w_cc5@[k]
                    == chained_rule(m, v, t, *data, dq@, align, one, freeze_leaves, k),
            forall|m: spec_fn(Q, Q) -> Q, v: spec_fn(Q) -> Q, t: spec_fn(int, Q, Q, Q) -> Q, k: int|
                #![trigger composes(*compose, m), inverts(*inv, v), turns(*turn, t), out@[k]]
                composes(*compose, m) && inverts(*inv, v) && turns(*turn, t) && 0 <= k < i ==> out@[k]
                    == chained_local(m, v, t, *data, dq@, align, one, freeze_leaves, k),
        decreases 22 - i,
    {
        let leaf: bool = smpl::primary_child(i).is_none();
        match smpl::parent(i) {
            Some(p) => {
                w_smpl[i] = compose(w_smpl[p], dq[i]);
                let above: Q = compose(w_cc5[p], data.inter_rest[i]);
                if freeze_leaves && leaf {
                    w_cc5[i] = compose(above, data.own_rest_local[i]);
                } else {
                    let unbind: Q = inv(data.cc5_rest_world[p]);
                    let delta: Q = compose(w_cc5[p], unbind);
                    let turned: Q = turn(i, delta, w_smpl[i], dq[i]);
                    let carried: Q = compose(delta, data.cc5_rest_world[i]);
                    w_cc5[i] = compose(turned, carried);
                }
                let back: Q = inv(above);
                out[i] = compose(back, w_cc5[i]);
            },
            None => {
                let first: Q = compose(align, dq[i]);
                w_smpl[i] = first;
                let turned: Q = turn(i, one, w_smpl[i], first);
                let carried: Q = compose(one, data.cc5_rest_world[i]);
                w_cc5[i] = compose(turned, carried);
                let back: Q = inv(data.parent_chain_rest[0]);
                out[i] = compose(back, w_cc5[i]);
            },
        }
        i = i + 1;
    }
    out
}

/// Composition is associative at `a`, `b`, `c`.
pub open spec fn assoc_at<Q>(m: spec_fn(Q, Q) -> Q, a: Q, b: Q, c: Q) -> bool {
    m(m(a, b), c) == m(a, m(b, c))
}

/// `one` is neutral at `a`.
pub open spec fn neutral_at<Q>(m: spec_fn(Q, Q) -> Q, one: Q, a: Q) -> bool {
    m(one, a) == a && m(a, one) == a
}

/// Inversion undoes `a`.
pub open spec fn undone_at<Q>(m: spec_fn(Q, Q) -> Q, v: spec_fn(Q) -> Q, one: Q, a: Q) -> bool {
    m(v(a), a) == one && m(a, v(a)) == one
}

/// Composition is associative, `one` is neutral, and inversion undoes.
pub open spec fn is_group<Q>(m: spec_fn(Q, Q) -> Q, v: spec_fn(Q) -> Q, one: Q) -> bool {
    &&& forall|a: Q, b: Q, c: Q| #[trigger] assoc_at(m, a, b, c)
    &&& forall|a: Q| #[trigger] neutral_at(m, one, a)
    &&& forall|a: Q| #[trigger] undone_at(m, v, one, a)
}

/// The unrotated pose.
pub open spec fn at_rest<Q>(dq: Seq<Q>, one: Q) -> bool {
    forall|i: int| 0 <= i < 22 ==> (#[trigger] dq[i]) == one
}

/// An unrotated pose has unrotated world rotations.
proof fn lemma_rest_world<Q>(
    m: spec_fn(Q, Q) -> Q,
    v: spec_fn(Q) -> Q,
    one: Q,
    dq: Seq<Q>,
    i: int,
)
    requires
        is_group(m, v, one),
        at_rest(dq, one),
        0 <= i < 22,
    ensures
        smpl_world(m, dq, one, i) == one,
    decreases i,
{
    assert(dq[i] == one);
    assert(neutral_at(m, one, one));
    smpl::law_parents_come_first(i);
    match smpl::parent_of(i) {
        Some(p) => {
            lemma_rest_world(m, v, one, dq, p);
        },
        None => {},
    }
}

/// In a group, `inv(c) * (c * o) == o` and `c * (inv(c) * o) == o`.
proof fn lemma_cancel<Q>(m: spec_fn(Q, Q) -> Q, v: spec_fn(Q) -> Q, one: Q, c: Q, o: Q)
    requires
        is_group(m, v, one),
    ensures
        m(v(c), m(c, o)) == o,
        m(c, m(v(c), o)) == o,
{
    assert(assoc_at(m, v(c), c, o));
    assert(assoc_at(m, c, v(c), o));
    assert(undone_at(m, v, one, c));
    assert(neutral_at(m, one, o));
}

/// What the bind pose says of one bone that has a parent.
proof fn lemma_bind_child<Q>(
    m: spec_fn(Q, Q) -> Q,
    v: spec_fn(Q) -> Q,
    one: Q,
    data: BindData<Q>,
    own: Seq<Q>,
    chain: Seq<Q>,
    i: int,
    p: int,
)
    requires
        is_group(m, v, one),
        bind_of(data, own, chain, m, v, one),
        0 <= i < 22,
        smpl::parent_of(i) == Some(p),
        0 <= p < 22,
    ensures
        m(data.cc5_rest_world@[p], data.inter_rest@[i]) == chain[i],
        m(v(chain[i]), data.cc5_rest_world@[i]) == own[i],
{
    let above = data.cc5_rest_world@[p];
    assert(above == m(chain[p], own[p]));
    assert(data.inter_rest@[i] == m(v(above), chain[i]));
    lemma_cancel(m, v, one, above, chain[i]);
    assert(data.cc5_rest_world@[i] == m(chain[i], own[i]));
    lemma_cancel(m, v, one, chain[i], own[i]);
}

/// The world rotations of the bind pose follow from each other: that of the pelvis
/// is what lies above it followed by its own rotation, that of any other bone is
/// that of its parent's bone, what lies between the two, and its own rotation.
pub open spec fn linked<Q>(data: BindData<Q>, m: spec_fn(Q, Q) -> Q) -> bool {
    forall|i: int|
        0 <= i < 22 ==> (#[trigger] data.cc5_rest_world@[i]) == m(
            match smpl::parent_of(i) {
                Some(p) => m(data.cc5_rest_world@[p], data.inter_rest@[i]),
                None => data.parent_chain_rest@[0],
            },
            data.own_rest_local@[i],
        )
}

/// A derived bind pose is linked.
pub proof fn law_bind_pose_is_linked<Q>(
    m: spec_fn(Q, Q) -> Q,
    v: spec_fn(Q) -> Q,
    one: Q,
    data: BindData<Q>,
    own: Seq<Q>,
    chain: Seq<Q>,
)
    requires
        is_group(m, v, one),
        bind_of(data, own, chain, m, v, one),
    ensures
        linked(data, m),
{
    assert forall|i: int| 0 <= i < 22 implies (#[trigger] data.cc5_rest_world@[i]) == m(
        match smpl::parent_of(i) {
            Some(p) => m(data.cc5_rest_world@[p], data.inter_rest@[i]),
            None => data.parent_chain_rest@[0],
        },
        data.own_rest_local@[i],
    ) by {
        smpl::law_parents_come_first(i);
        match smpl::parent_of(i) {
            Some(p) => {
                lemma_bind_child(m, v, one, data, own, chain, i, p);
                assert(data.cc5_rest_world@[i] == m(chain[i], own[i]));
            },
            None => {},
        }
    }
}

/// Under the world rule the unrotated pose leaves every bone at its own bind
/// rotation, whatever lies between the driven bones.
pub proof fn law_rest_pose_is_bind_pose<Q>(
    m: spec_fn(Q, Q) -> Q,
    v: spec_fn(Q) -> Q,
    one: Q,
    data: BindData<Q>,
    dq: Seq<Q>,
    i: int,
)
    requires
        is_group(m, v, one),
        linked(data, m),
        at_rest(dq, one),
        0 <= i < 22,
    ensures
        world_local(m, v, data, dq, one, i) == data.own_rest_local@[i],
{
    smpl::law_parents_come_first(i);
    lemma_rest_world(m, v, one, dq, i);
    assert(neutral_at(m, one, data.cc5_rest_world@[i]));
    match smpl::parent_of(i) {
        Some(p) => {
            lemma_rest_world(m, v, one, dq, p);
            assert(neutral_at(m, one, data.cc5_rest_world@[p]));
            lemma_cancel(m, v, one, m(data.cc5_rest_world@[p], data.inter_rest@[i]), data.own_rest_local@[i]);
        },
        None => {
            lemma_cancel(m, v, one, data.parent_chain_rest@[0], data.own_rest_local@[0]);
        },
    }
}

/// Under the local rule the unrotated pose leaves every bone at its own bind
/// rotation.
pub proof fn law_rest_pose_is_bind_pose_locally<Q>(
    m: spec_fn(Q, Q) -> Q,
    v: spec_fn(Q) -> Q,
    one: Q,
    data: BindData<Q>,
    dq: Seq<Q>,
    i: int,
)
    requires
        is_group(m, v, one),
        at_rest(dq, one),
        0 <= i < 22,
    ensures
        local_rule(m, data, dq, one, i) == data.own_rest_local@[i],
{
    assert(dq[i] == one);
    assert(neutral_at(m, one, one));
    assert(neutral_at(m, one, data.own_rest_local@[i]));
}

/// A frozen bone stays at its own bind rotation, whatever the pose: under the
/// chained rule.
pub proof fn law_frozen_bones_stay_chained<Q>(
    m: spec_fn(Q, Q) -> Q,
    v: spec_fn(Q) -> Q,
    t: spec_fn(int, Q, Q, Q) -> Q,
    one: Q,
    data: BindData<Q>,
    dq: Seq<Q>,
    align: Q,
    i: int,
)
    requires
        is_group(m, v, one),
        0 <= i < 22,
        is_frozen(true, i),
    ensures
        chained_local(m, v, t, data, dq, align, one, true, i) == data.own_rest_local@[i],
{
    smpl::law_parents_come_first(i);
    let p = smpl::parent_of(i)->0;
    let above = m(
        chained_rule(m, v, t, data, dq, align, one, true, p),
        data.inter_rest@[i],
    );
    lemma_cancel(m, v, one, above, data.own_rest_local@[i]);
}

/// A frozen bone stays at its own bind rotation, whatever the pose: under the
/// axis rule.
pub proof fn law_frozen_bones_stay_axis<Q>(
    m: spec_fn(Q, Q) -> Q,
    v: spec_fn(Q) -> Q,
    t: spec_fn(int, Q) -> Q,
    one: Q,
    data: BindData<Q>,
    dq: Seq<Q>,
    align: Q,
    i: int,
)
    requires
        is_group(m, v, one),
        0 <= i < 22,
        is_frozen(true, i),
    ensures
        axis_local(m, v, t, data, dq, align, true, i) == data.own_rest_local@[i],
{
    smpl::law_parents_come_first(i);
    let p = smpl::parent_of(i)->0;
    let above = m(axis_rule(m, t, data, dq, align, true, p), data.inter_rest@[i]);
    lemma_cancel(m, v, one, above, data.own_rest_local@[i]);
}

/// Under the chained rule the unrotated pose leaves every bone at its own bind
/// rotation, provided that bones which already point the right way are not
/// turned.
pub proof fn law_rest_pose_is_bind_pose_chained<Q>(
    m: spec_fn(Q, Q) -> Q,
    v: spec_fn(Q) -> Q,
    t: spec_fn(int, Q, Q, Q) -> Q,
    one: Q,
    data: BindData<Q>,
    dq: Seq<Q>,
    freeze: bool,
    i: int,
)
    requires
        is_group(m, v, one),
        linked(data, m),
        at_rest(dq, one),
        forall|k: int| 0 <= k < 22 ==> #[trigger] t(k, one, one, one) == one,
        0 <= i < 22,
    ensures
        chained_rule(m, v, t, data, dq, one, one, freeze, i) == data.cc5_rest_world@[i],
        chained_local(m, v, t, data, dq, one, one, freeze, i) == data.own_rest_local@[i],
    decreases i,
{
    smpl::law_parents_come_first(i);
    lemma_rest_world(m, v, one, dq, i);
    let rest = data.cc5_rest_world@[i];
    assert(dq[i] == one);
    assert(neutral_at(m, one, one));
    assert(neutral_at(m, one, rest));
    assert(t(i, one, one, one) == one);
    match smpl::parent_of(i) {
        Some(p) => {
            law_rest_pose_is_bind_pose_chained(m, v, t, one, data, dq, freeze, p);
            let above = m(data.cc5_rest_world@[p], data.inter_rest@[i]);
            lemma_cancel(m, v, one, above, data.own_rest_local@[i]);
            assert(undone_at(m, v, one, data.cc5_rest_world@[p]));
            assert(rest == m(above, data.own_rest_local@[i]));
        },
        None => {
            lemma_cancel(m, v, one, data.parent_chain_rest@[0], data.own_rest_local@[0]);
        },
    }
}

/// Under the axis rule the unrotated pose leaves every bone at its own bind
/// rotation, provided that re-axing leaves the unrotated rotation alone.
pub proof fn law_rest_pose_is_bind_pose_axis<Q>(
    m: spec_fn(Q, Q) -> Q,
    v: spec_fn(Q) -> Q,
    t: spec_fn(int, Q) -> Q,
    one: Q,
    data: BindData<Q>,
    dq: Seq<Q>,
    freeze: bool,
    i: int,
)
    requires
        is_group(m, v, one),
        linked(data, m),
        at_rest(dq, one),
        forall|k: int| 0 <= k < 22 ==> #[trigger] t(k, one) == one,
        0 <= i < 22,
    ensures
        axis_rule(m, t, data, dq, one, freeze, i) == data.cc5_rest_world@[i],
        axis_local(m, v, t, data, dq, one, freeze, i) == data.own_rest_local@[i],
    decreases i,
{
    smpl::law_parents_come_first(i);
    lemma_rest_world(m, v, one, dq, i);
    let rest = data.cc5_rest_world@[i];
    assert(neutral_at(m, one, rest));
    assert(t(i, one) == one);
    match smpl::parent_of(i) {
        Some(p) => {
            law_rest_pose_is_bind_pose_axis(m, v, t, one, data, dq, freeze, p);
            let above = m(data.cc5_rest_world@[p], data.inter_rest@[i]);
            lemma_cancel(m, v, one, above, data.own_rest_local@[i]);
            assert(rest == m(above, data.own_rest_local@[i]));
        },
        None => {
            lemma_cancel(m, v, one, data.parent_chain_rest@[0], data.own_rest_local@[0]);
        },
    }
}

/// World rotation of a bone of an avatar whose driven bones have these local
/// rotations and whose other bones are as in the bind pose.
pub open spec fn posed_world<Q>(
    m: spec_fn(Q, Q) -> Q,
    data: BindData<Q>,
    local: spec_fn(int) -> Q,
    i: int,
) -> Q
    decreases i,
{
    match smpl::parent_of(i) {
        Some(p) => if 0 <= p < i {
            m(m(posed_world(m, data, local, p), data.inter_rest@[i]), local(i))
        } else {
            local(i)
        },
        None => m(data.parent_chain_rest@[0], local(i)),
    }
}

/// Rotations that were made local to their animated parents add up, along the
/// tree, to the world rotations that they were made from.
proof fn lemma_locals_reach<Q>(
    m: spec_fn(Q, Q) -> Q,
    v: spec_fn(Q) -> Q,
    one: Q,
    data: BindData<Q>,
    world: spec_fn(int) -> Q,
    local: spec_fn(int) -> Q,
    i: int,
)
    requires
        is_group(m, v, one),
        forall|k: int|
            0 <= k < 22 ==> #[trigger] local(k) == m(
                v(parent_world(m, data, world, k)),
                world(k),
            ),
        0 <= i < 22,
    ensures
        posed_world(m, data, local, i) == world(i),
    decreases i,
{
    smpl::law_parents_come_first(i);
    assert(local(i) == m(v(parent_world(m, data, world, i)), world(i)));
    lemma_cancel(m, v, one, parent_world(m, data, world, i), world(i));
    match smpl::parent_of(i) {
        Some(p) => {
            lemma_locals_reach(m, v, one, data, world, local, p);
        },
        None => {},
    }
}

/// An avatar posed by the world rule shows the joint's world rotation on top of
/// every bone's bind rotation.
pub proof fn law_world_rule_is_shown<Q>(
    m: spec_fn(Q, Q) -> Q,
    v: spec_fn(Q) -> Q,
    one: Q,
    data: BindData<Q>,
    dq: Seq<Q>,
    align: Q,
    i: int,
)
    requires
        is_group(m, v, one),
        0 <= i < 22,
    ensures
        posed_world(m, data, |k: int| world_local(m, v, data, dq, align, k), i) == m(
            smpl_world(m, dq, align, i),
            data.cc5_rest_world@[i],
        ),
{
    let world = |k: int| world_rule(m, data, dq, align, k);
    let local = |k: int| world_local(m, v, data, dq, align, k);
    assert forall|k: int| 0 <= k < 22 implies #[trigger] local(k) == m(
        v(parent_world(m, data, world, k)),
        world(k),
    ) by {}
    lemma_locals_reach(m, v, one, data, world, local, i);
}

/// An avatar posed by the axis rule shows that rule's world rotations.
pub proof fn law_axis_rule_is_shown<Q>(
    m: spec_fn(Q, Q) -> Q,
    v: spec_fn(Q) -> Q,
    t: spec_fn(int, Q) -> Q,
    one: Q,
    data: BindData<Q>,
    dq: Seq<Q>,
    align: Q,
    freeze: bool,
    i: int,
)
    requires
        is_group(m, v, one),
        0 <= i < 22,
    ensures
        posed_world(m, data, |k: int| axis_local(m, v, t, data, dq, align, freeze, k), i)
            == axis_rule(m, t, data, dq, align, freeze, i),
{
    let world = |k: int| axis_rule(m, t, data, dq, align, freeze, k);
    let local = |k: int| axis_local(m, v, t, data, dq, align, freeze, k);
    assert forall|k: int| 0 <= k < 22 implies #[trigger] local(k) == m(
        v(parent_world(m, data, world, k)),
        world(k),
    ) by {}
    lemma_locals_reach(m, v, one, data, world, local, i);
}

/// An avatar posed by the chained rule shows that rule's world rotations.
pub proof fn law_chained_rule_is_shown<Q>(
    m: spec_fn(Q, Q) -> Q,
    v: spec_fn(Q) -> Q,
    t: spec_fn(int, Q, Q, Q) -> Q,
    one: Q,
    data: BindData<Q>,
    dq: Seq<Q>,
    align: Q,
    freeze: bool,
    i: int,
)
    requires
        is_group(m, v, one),
        0 <= i < 22,
    ensures
        posed_world(
            m,
            data,
            |k: int| chained_local(m, v, t, data, dq, align, one, freeze, k),
            i,
        ) == chained_rule(m, v, t, data, dq, align, one, freeze, i),
{
    let world = |k: int| chained_rule(m, v, t, data, dq, align, one, freeze, k);
    let local = |k: int| chained_local(m, v, t, data, dq, align, one, freeze, k);
    assert forall|k: int| 0 <= k < 22 implies #[trigger] local(k) == m(
        v(parent_world(m, data, world, k)),
        world(k),
    ) by {}
    lemma_locals_reach(m, v, one, data, world, local, i);
}

/// Under the world rule an alignment at the pelvis turns the whole avatar: every
/// bone is turned by it in world space.
pub proof fn law_alignment_turns_everything<Q>(
    m: spec_fn(Q, Q) -> Q,
    v: spec_fn(Q) -> Q,
    one: Q,
    data: BindData<Q>,
    dq: Seq<Q>,
    align: Q,
    i: int,
)
    requires
        is_group(m, v, one),
        0 <= i < 22,
    ensures
        smpl_world(m, dq, align, i) == m(align, smpl_world(m, dq, one, i)),
        world_rule(m, data, dq, align, i) == m(align, world_rule(m, data, dq, one, i)),
    decreases i,
{
    smpl::law_parents_come_first(i);
    match smpl::parent_of(i) {
        Some(p) => {
            law_alignment_turns_everything(m, v, one, data, dq, align, p);
            assert(assoc_at(m, align, smpl_world(m, dq, one, p), dq[i]));
        },
        None => {
            assert(neutral_at(m, one, dq[i]));
        },
    }
    assert(assoc_at(m, align, smpl_world(m, dq, one, i), data.cc5_rest_world@[i]));
}

/// How a pose is carried over to the avatar.
#[derive(Clone, Copy, Debug, PartialEq, Eq, Structural)]
pub enum RetargetMode {
    World,
    Local,
    AxisMatch,
    AxisMatchChained,
}

/// The mode that a setting names: chained where there is no setting, the world
/// rule for a name that is not known.
pub open spec fn mode_named(setting: Option<Seq<char>>) -> RetargetMode {
    match setting {
        None => RetargetMode::AxisMatchChained,
        Some(s) => if s == "local"@ {
            RetargetMode::Local
        } else if s == "axis_match"@ {
            RetargetMode::AxisMatch
        } else if s == "axis_match_chained"@ {
            RetargetMode::AxisMatchChained
        } else {
            RetargetMode::World
        },
    }
}

/// The mode that a setting names.
pub fn retarget_mode(setting: Option<&str>) -> (r: RetargetMode)
    ensures
        r == mode_named(
            match setting {
                Some(s) => Some(s@),
                None => None,
            },
        ),
{
    match setting {
        None => RetargetMode::AxisMatchChained,
        Some(s) => if text::same(s, "local") {
            RetargetMode::Local
        } else if text::same(s, "axis_match") {
            RetargetMode::AxisMatch
        } else if text::same(s, "axis_match_chained") {
            RetargetMode::AxisMatchChained
        } else {
            RetargetMode::World
        },
    }
}

/// What a function of two directions, or of a direction and an angle, computes.
pub open spec fn rotates<D, A, Q, F: Fn(D, A) -> Q>(f: F, g: spec_fn(D, A) -> Q) -> bool {
    forall|a: D, b: A, r: Q| #[trigger] call_ensures(f, (a, b), r) ==> r == g(a, b)
}

/// The turn of a bone: a swing from where it points to where it is to point, where
/// both are known, and then a twist around where it is to point, where there is
/// one.
pub open spec fn swung_and_twisted<Q, D, A>(
    from: Option<D>,
    to: Option<D>,
    angle: Option<A>,
    arc: spec_fn(D, D) -> Q,
    about: spec_fn(D, A) -> Q,
    m: spec_fn(Q, Q) -> Q,
    one: Q,
) -> Q {
    let swing = match (from, to) {
        (Some(a), Some(b)) => arc(a, b),
        _ => one,
    };
    let twist = match (to, angle) {
        (Some(b), Some(t)) => about(b, t),
        _ => one,
    };
    m(twist, swing)
}

/// The turn of a bone. `arc` gives the shortest rotation from one direction to
/// another and `about` the rotation around a direction.
pub fn swing_and_twist<
    Q: Copy,
    D: Copy,
    A: Copy,
    R: Fn(D, D) -> Q,
    B: Fn(D, A) -> Q,
    M: Fn(Q, Q) -> Q,
>(
    from: Option<D>,
    to: Option<D>,
    angle: Option<A>,
    arc: &R,
    about: &B,
    compose: &M,
    one: Q,
) -> (r: Q)
    requires
        forall|a: D, b: D| call_requires(*arc, (a, b)),
        forall|a: D, t: A| call_requires(*about, (a, t)),
        forall|a: Q, b: Q| call_requires(*compose, (a, b)),
    ensures
        forall|g: spec_fn(D, D) -> Q, h: spec_fn(D, A) -> Q, m: spec_fn(Q, Q) -> Q|
            #![trigger rotates(*arc, g), rotates(*about, h), composes(*compose, m)]
            rotates(*arc, g) && rotates(*about, h) && composes(*compose, m) ==> r
                == swung_and_twisted(from, to, angle, g, h, m, one),
{
    let swing: Q = match (from, to) {
        (Some(a), Some(b)) => arc(a, b),
        _ => one,
    };
    let twist: Q = match (to, angle) {
        (Some(b), Some(t)) => about(b, t),
        _ => one,
    };
    compose(twist, swing)
}

/// A bone that points where it is to point and has no twist is not turned.
pub proof fn law_aligned_bone_is_not_turned<Q, D, A>(
    d: D,
    arc: spec_fn(D, D) -> Q,
    about: spec_fn(D, A) -> Q,
    m: spec_fn(Q, Q) -> Q,
    one: Q,
)
    requires
        arc(d, d) == one,
        m(one, one) == one,
    ensures
        swung_and_twisted(Some(d), Some(d), None::<A>, arc, about, m, one) == one,
{
}

} // verus!
