//! The avatar's bind pose, noted once.
use crate::hierarchy;
use crate::retarget;
use crate::retarget::BindData;
use crate::secondary;
use crate::skeleton;
use crate::smpl;
use vstd::prelude::*;

verus! {

/// A noted bind pose: the entities of the driven bones and how they rest.
#[derive(Clone, Copy, Debug)]
pub struct Captured<Q> {
    pub entities: [u64; 22],
    pub data: BindData<Q>,
}

/// The bind pose, once it has been noted.
#[derive(Clone, Copy, Debug)]
pub struct BindCapture<Q> {
    pub pose: Option<Captured<Q>>,
}

/// How a bone rests: its own rotation and that of everything above it.
#[derive(Clone, Copy, Debug, PartialEq, Eq)]
pub struct BoneRest<Q> {
    pub own: Q,
    pub above: Q,
}

/// What a lookup of bones answers.
pub open spec fn tells<Q, R: Fn(u64) -> Option<BoneRest<Q>>>(
    rest: R,
    f: spec_fn(u64) -> Option<BoneRest<Q>>,
) -> bool {
    forall|e: u64, r: Option<BoneRest<Q>>| #[trigger] call_ensures(rest, (e,), r) ==> r == f(e)
}

/// The entity of a driven bone.
pub open spec fn bone_entity(named: Seq<(u64, Seq<char>)>, i: int) -> u64 {
    skeleton::last_named(named, smpl::bone_of(i))->0
}

/// All driven bones are among the named entities and have a rotation.
pub open spec fn complete<Q>(
    named: Seq<(u64, Seq<char>)>,
    f: spec_fn(u64) -> Option<BoneRest<Q>>,
) -> bool {
    &&& skeleton::all_found(named)
    &&& forall|i: int| 0 <= i < 22 ==> f(#[trigger] bone_entity(named, i)) is Some
}

/// `c` is the bind pose of the driven bones among the named entities.
pub open spec fn captures<Q>(
    c: Captured<Q>,
    named: Seq<(u64, Seq<char>)>,
    f: spec_fn(u64) -> Option<BoneRest<Q>>,
    m: spec_fn(Q, Q) -> Q,
    v: spec_fn(Q) -> Q,
    one: Q,
) -> bool {
    &&& forall|i: int| 0 <= i < 22 ==> (#[trigger] c.entities@[i]) == bone_entity(named, i)
    &&& retarget::bind_of(
        c.data,
        Seq::new(22, |i: int| (f(bone_entity(named, i))->0).own),
        Seq::new(22, |i: int| (f(bone_entity(named, i))->0).above),
        m,
        v,
        one,
    )
}

impl<Q> Default for BindCapture<Q> {
    fn default() -> (r: Self)
        ensures
            r.pose is None,
    {
        BindCapture { pose: None }
    }
}

impl<Q: Copy> BindCapture<Q> {
    /// Notes the bind pose once every driven bone of the avatar is there and has
    /// a rotation; until then, and from then on, nothing changes. Returns whether
    /// the pose has been noted just now.
    pub fn capture<
        P: Fn(u64) -> Option<u64>,
        R: Fn(u64) -> Option<BoneRest<Q>>,
        M: Fn(Q, Q) -> Q,
        I: Fn(Q) -> Q,
    >(
        &mut self,
        named: &Vec<(u64, String)>,
        parent: &P,
        avatars: &Vec<u64>,
        rest: &R,
        one: Q,
        compose: &M,
        inv: &I,
    ) -> (r: bool)
        requires
            forall|e: u64| call_requires(*parent, (e,)),
            forall|e: u64| call_requires(*rest, (e,)),
            forall|a: Q, b: Q| call_requires(*compose, (a, b)),
            forall|a: Q| call_requires(*inv, (a,)),
        ensures
            old(self).pose is Some ==> !r,
            !r ==> *final(self) == *old(self),
            r ==> final(self).pose is Some,
            forall|p: spec_fn(u64) -> Option<u64>, f: spec_fn(u64) -> Option<BoneRest<Q>>|
                #![trigger hierarchy::answers(*parent, p), tells(*rest, f)]
                hierarchy::answers(*parent, p) && tells(*rest, f) ==> r == (old(self).pose is None
                    && complete(
                    hierarchy::avatar_part(secondary::named(named@), p, avatars@),
                    f,
                )),
            forall|
                p: spec_fn(u64) -> Option<u64>,
                f: spec_fn(u64) -> Option<BoneRest<Q>>,
                m: spec_fn(Q, Q) -> Q,
                v: spec_fn(Q) -> Q,
            |
                #![trigger hierarchy::answers(*parent, p), tells(*rest, f), retarget::composes(*compose, m), retarget::inverts(*inv, v)]
                hierarchy::answers(*parent, p) && tells(*rest, f) && retarget::composes(
                    *compose,
                    m,
                ) && retarget::inverts(*inv, v) && r ==> captures(
                    final(self).pose->0,
                    hierarchy::avatar_part(secondary::named(named@), p, avatars@),
                    f,
                    m,
                    v,
                    one,
                ),
    {
        if self.pose.is_some() {
            return false;
        }
        let own_named: Vec<(u64, String)> = hierarchy::under_avatar(named, parent, avatars);
        let ghost part = secondary::named(own_named@);
        let entities: [u64; 22] = match skeleton::find_bones(&own_named) {
            Some(bones) => bones,
            None => return false,
        };
        assert forall|i: int| 0 <= i < 22 implies entities@[i] == #[trigger] bone_entity(
            part,
            i,
        ) by {
            assert(Some(entities@[i]) == skeleton::last_named(part, smpl::bone_of(i)));
        }
        let mut own: [Q; 22] = [one;22];
        let mut chain: [Q; 22] = [one;22];
        let ghost mut found: Seq<BoneRest<Q>> = Seq::empty();
        let mut i: usize = 0;
        while i < 22
            invariant
                i <= 22,
                skeleton::all_found(part),
                *self == *old(self),
                self.pose is None,
                part == secondary::named(own_named@),
                forall|p: spec_fn(u64) -> Option<u64>| #[trigger]
                    hierarchy::answers(*parent, p) ==> part == hierarchy::avatar_part(
                        secondary::named(named@),
                        p,
                        avatars@,
                    ),
                forall|e: u64| call_requires(*rest, (e,)),
                forall|k: int|
                    0 <= k < 22 ==> entities@[k] == #[trigger] bone_entity(part, k),
                found.len() == i,
                forall|k: int| 0 <= k < i ==> own@[k] == (#[trigger] found[k]).own,
                forall|k: int| 0 <= k < i ==> chain@[k] == (#[trigger] found[k]).above,
                forall|f: spec_fn(u64) -> Option<BoneRest<Q>>, k: int|
                    #![trigger tells(*rest, f), found[k]]
                    tells(*rest, f) && 0 <= k < i ==> f(bone_entity(part, k)) == Some(found[k]),
            decreases 22 - i,
        {
            let answer: Option<BoneRest<Q>> = rest(entities[i]);
            assert(entities@[i as int] == bone_entity(part, i as int));
            match answer {
                Some(bone) => {
                    own[i] = bone.own;
                    chain[i] = bone.above;
                    proof {
                        found = found.push(bone);
                    }
                },
                None => return false,
            }
            i = i + 1;
        }
        let data: BindData<Q> = retarget::bind_data(&own, &chain, one, compose, inv);
        self.pose = Some(Captured { entities, data });
        proof {
            assert forall|f: spec_fn(u64) -> Option<BoneRest<Q>>| #[trigger]
                tells(*rest, f) implies own@ == Seq::new(
                22,
                |i: int| (f(bone_entity(part, i))->0).own,
            ) && chain@ == Seq::new(22, |i: int| (f(bone_entity(part, i))->0).above) && complete(
                part,
                f,
            ) by {
                assert forall|i: int| 0 <= i < 22 implies f(#[trigger] bone_entity(part, i))
                    == Some(found[i]) by {}
                assert forall|i: int| 0 <= i < 22 implies own@[i] == found[i].own && chain@[i]
                    == found[i].above by {}
                assert(own@ =~= Seq::new(22, |i: int| (f(bone_entity(part, i))->0).own));
                assert(chain@ =~= Seq::new(22, |i: int| (f(bone_entity(part, i))->0).above));
            }
        }
        true
    }
}

/// In a noted bind pose every bone's world rotation is what is above it followed
/// by its own, nothing lies above the root bone's joint, and what lies between a
/// bone and the bone of its parent joint takes the one to what is above the other.
pub proof fn law_captured_pose_is_consistent<Q>(
    c: Captured<Q>,
    named: Seq<(u64, Seq<char>)>,
    f: spec_fn(u64) -> Option<BoneRest<Q>>,
    m: spec_fn(Q, Q) -> Q,
    v: spec_fn(Q) -> Q,
    one: Q,
    i: int,
)
    requires
        captures(c, named, f, m, v, one),
        0 <= i < 22,
    ensures
        c.data.cc5_rest_world@[i] == m(
            c.data.parent_chain_rest@[i],
            c.data.own_rest_local@[i],
        ),
        match smpl::parent_of(i) {
            None => c.data.inter_rest@[i] == one,
            Some(p) => c.data.inter_rest@[i] == m(
                v(c.data.cc5_rest_world@[p]),
                c.data.parent_chain_rest@[i],
            ),
        },
{
    smpl::law_parents_come_first(i);
}

} // verus!
