//! What holds of finding and driving the bones, told by their names.
use crate::bind;
use crate::bind::{BoneRest, Captured};
use crate::json::Num;
use crate::motion;
use crate::motion::Placement;
use crate::renderer::SkeletalPose;
use crate::retarget;
use crate::retarget::BindData;
use crate::retarget_laws;
use crate::secondary;
use crate::skeleton;
use crate::skeleton::{DriveStep, QueueItem, SkeletalDriver};
use crate::smpl;
use vstd::prelude::*;

verus! {

/// No entity has this name.
pub open spec fn unnamed(list: Seq<(u64, String)>, name: Seq<char>) -> bool {
    forall|j: int| 0 <= j < list.len() ==> (#[trigger] list[j]).1@ != name
}

/// Entity number `k` is the first of this name.
pub open spec fn first_of(list: Seq<(u64, String)>, name: Seq<char>, k: int) -> bool {
    &&& 0 <= k < list.len()
    &&& list[k].1@ == name
    &&& forall|j: int| 0 <= j < k ==> (#[trigger] list[j]).1@ != name
}

/// Entity number `k` is the last of this name.
pub open spec fn last_of(list: Seq<(u64, String)>, name: Seq<char>, k: int) -> bool {
    &&& 0 <= k < list.len()
    &&& list[k].1@ == name
    &&& forall|j: int| k < j < list.len() ==> (#[trigger] list[j]).1@ != name
}

/// Entities are found by name: the first, or the last, of those that have it.
pub proof fn law_entities_by_name(list: Seq<(u64, String)>, name: Seq<char>, k: int)
    ensures
        first_of(list, name, k) ==> skeleton::first_named(secondary::named(list), name) == Some(
            list[k].0,
        ),
        last_of(list, name, k) ==> skeleton::last_named(secondary::named(list), name) == Some(
            list[k].0,
        ),
        unnamed(list, name) ==> skeleton::first_named(secondary::named(list), name) is None
            && skeleton::last_named(secondary::named(list), name) is None,
{
    if first_of(list, name, k) || unnamed(list, name) {
        lemma_first(list, name, k);
    }
    if last_of(list, name, k) || unnamed(list, name) {
        lemma_last(list, name, k);
    }
}

proof fn lemma_first(list: Seq<(u64, String)>, name: Seq<char>, k: int)
    requires
        first_of(list, name, k) || unnamed(list, name),
    ensures
        first_of(list, name, k) ==> skeleton::first_named(secondary::named(list), name) == Some(
            list[k].0,
        ),
        unnamed(list, name) ==> skeleton::first_named(secondary::named(list), name) is None,
    decreases list.len(),
{
    if list.len() > 0 {
        let all = secondary::named(list);
        assert(all[0] == (list[0].0, list[0].1@));
        if list[0].1@ != name {
            let rest = list.subrange(1, list.len() as int);
            assert(all.subrange(1, all.len() as int) =~= secondary::named(rest));
            if first_of(list, name, k) {
                assert(rest[k - 1] == list[k]);
                assert forall|j: int| 0 <= j < k - 1 implies (#[trigger] rest[j]).1@ != name by {
                    assert(rest[j] == list[j + 1]);
                }
                assert(first_of(rest, name, k - 1));
            } else {
                assert forall|j: int| 0 <= j < rest.len() implies (#[trigger] rest[j]).1@
                    != name by {
                    assert(rest[j] == list[j + 1]);
                }
            }
            lemma_first(rest, name, k - 1);
            if unnamed(list, name) {
                assert(unnamed(rest, name)) by {
                    assert forall|j: int| 0 <= j < rest.len() implies (#[trigger] rest[j]).1@
                        != name by {
                        assert(rest[j] == list[j + 1]);
                    }
                }
            }
        }
    }
}

proof fn lemma_last(list: Seq<(u64, String)>, name: Seq<char>, k: int)
    requires
        last_of(list, name, k) || unnamed(list, name),
    ensures
        last_of(list, name, k) ==> skeleton::last_named(secondary::named(list), name) == Some(
            list[k].0,
        ),
        unnamed(list, name) ==> skeleton::last_named(secondary::named(list), name) is None,
    decreases list.len(),
{
    if list.len() > 0 {
        let all = secondary::named(list);
        let n = list.len() - 1;
        let init = list.drop_last();
        assert(all.last() == (list[n].0, list[n].1@));
        assert(all.drop_last() =~= secondary::named(init));
        if list[n].1@ != name {
            if last_of(list, name, k) {
                assert(init[k] == list[k]);
                assert forall|j: int| k < j < init.len() implies (#[trigger] init[j]).1@ != name by {
                    assert(init[j] == list[j]);
                }
                assert(last_of(init, name, k));
            }
            if unnamed(list, name) {
                assert forall|j: int| 0 <= j < init.len() implies (#[trigger] init[j]).1@
                    != name by {
                    assert(init[j] == list[j]);
                }
                assert(unnamed(init, name));
            }
            lemma_last(init, name, k);
        }
    }
}

/// The driven bones are there when each of the 22 names is, and one that is missing is
/// enough to find none.
pub proof fn law_every_bone_is_needed(list: Seq<(u64, String)>, at: spec_fn(int) -> int, i: int)
    requires
        0 <= i < 22,
    ensures
        (forall|b: int| 0 <= b < 22 ==> last_of(list, smpl::bone_of(b), #[trigger] at(b)))
            ==> skeleton::all_found(secondary::named(list)) && bind::bone_entity(
            secondary::named(list),
            i,
        ) == list[at(i)].0,
        unnamed(list, smpl::bone_of(i)) ==> !skeleton::all_found(secondary::named(list)),
{
    let all = secondary::named(list);
    if forall|b: int| 0 <= b < 22 ==> last_of(list, smpl::bone_of(b), #[trigger] at(b)) {
        assert forall|b: int| 0 <= b < 22 implies skeleton::last_named(
            all,
            #[trigger] smpl::bone_of(b),
        ) is Some by {
            assert(last_of(list, smpl::bone_of(b), at(b)));
            law_entities_by_name(list, smpl::bone_of(b), at(b));
        }
        assert(last_of(list, smpl::bone_of(i), at(i)));
        law_entities_by_name(list, smpl::bone_of(i), at(i));
    }
    if unnamed(list, smpl::bone_of(i)) {
        law_entities_by_name(list, smpl::bone_of(i), 0);
        assert(skeleton::last_named(all, smpl::bone_of(i)) is None);
    }
}

/// The face needs its jaw; of its other bones each is found by its own name or left
/// out.
pub proof fn law_face_bones_by_name(named: Seq<(u64, Seq<char>)>)
    ensures
        skeleton::face_of(named) is Some == skeleton::first_named(named, "CC_Base_JawRoot"@) is Some,
        skeleton::face_of(named) matches Some(f) ==> {
            &&& Some(f.jaw_root) == skeleton::first_named(named, "CC_Base_JawRoot"@)
            &&& f.l_eye == skeleton::first_named(named, "CC_Base_L_Eye"@)
            &&& f.r_eye == skeleton::first_named(named, "CC_Base_R_Eye"@)
            &&& f.upper_jaw == skeleton::first_named(named, "CC_Base_UpperJaw"@)
            &&& f.tongue1 == skeleton::first_named(named, "CC_Base_Tongue01"@)
            &&& f.tongue2 == skeleton::first_named(named, "CC_Base_Tongue02"@)
            &&& f.tongue3 == skeleton::first_named(named, "CC_Base_Tongue03"@)
        },
{
}

/// A queued pose is put on at once. It anchors the stream and holds the animation
/// where it is the first of its stream, and leaves both alone where it is not.
pub proof fn law_pose_is_put_on(d: SkeletalDriver, p: SkeletalPose)
    ensures
        ({
            let (next, step) = skeleton::driven(d, QueueItem::Pose(p));
            &&& next.active && next.last_pose == Some(p)
            &&& !d.active ==> next.anchor == Some(p.root_pos) && step == (DriveStep::Apply {
                pose: p,
                anchor: p.root_pos,
                pause: true,
            })
            &&& d.active ==> (d.anchor matches Some(a) ==> next.anchor == Some(a) && step == (
            DriveStep::Apply { pose: p, anchor: a, pause: false }))
        }),
{
}

/// An empty queue holds the last pose, and does nothing where there is none; the end
/// of a stream brings a driven avatar to rest and forgets pose and anchor.
pub proof fn law_queue_without_a_pose(d: SkeletalDriver)
    ensures
        d.last_pose is None ==> skeleton::driven(d, QueueItem::Empty) == (d, DriveStep::Nothing),
        (d.active && d.last_pose is Some && d.anchor is Some) ==> skeleton::driven(
            d,
            QueueItem::Empty,
        ) == (
            d,
            (DriveStep::Apply { pose: d.last_pose->0, anchor: d.anchor->0, pause: false }),
        ),
        ({
            let (next, step) = skeleton::driven(d, QueueItem::Clear);
            &&& next.last_pose is None
            &&& !next.active
            &&& d.active ==> step is Rest && next.anchor is None
            &&& !d.active ==> step is Nothing && next.anchor == d.anchor
        }),
        !skeleton::idle().active,
        skeleton::idle().anchor is None,
        skeleton::idle().last_pose is None,
{
}

/// What is written to the bones: nothing where nothing is done, the bind pose with the
/// root at rest where a stream ends, and what the pose asks for where one is put on.
pub proof fn law_steps_are_written<Q, V, F: Fn(SkeletalPose, [Num; 3]) -> Placement<Q, V>>(
    pose: SkeletalPose,
    anchor: [Num; 3],
    pause: bool,
    data: BindData<Q>,
    root_rest: V,
    posed: F,
    w: Option<Placement<Q, V>>,
)
    ensures
        motion::writes(DriveStep::Nothing, data, root_rest, posed, w) <==> w is None,
        motion::writes(DriveStep::Rest, data, root_rest, posed, w) <==> (w matches Some(p)
            && p.rotations == data.own_rest_local && p.root == root_rest),
        motion::writes(
            (DriveStep::Apply { pose, anchor, pause }),
            data,
            root_rest,
            posed,
            w,
        ) <==> (w matches Some(p) && call_ensures(posed, (pose, anchor), p)),
{
}

/// A noted bind pose holds, bone by bone, the entity found under the bone's name and
/// the rotations that the lookup tells for that entity.
pub proof fn law_bind_pose_is_that_of_its_bones<Q>(
    c: Captured<Q>,
    named: Seq<(u64, Seq<char>)>,
    f: spec_fn(u64) -> Option<BoneRest<Q>>,
    m: spec_fn(Q, Q) -> Q,
    v: spec_fn(Q) -> Q,
    one: Q,
    i: int,
)
    requires
        retarget::is_group(m, v, one),
        bind::complete(named, f),
        bind::captures(c, named, f, m, v, one),
        0 <= i < 22,
    ensures
        Some(c.entities@[i]) == skeleton::last_named(named, smpl::bone_of(i)),
        (f(c.entities@[i]) matches Some(rest) && {
            &&& c.data.own_rest_local@[i] == rest.own
            &&& c.data.parent_chain_rest@[i] == rest.above
            &&& c.data.cc5_rest_world@[i] == m(rest.above, rest.own)
            &&& i > 0 ==> m(
                c.data.cc5_rest_world@[retarget_laws::joint_above(i)],
                c.data.inter_rest@[i],
            ) == rest.above
        }),
{
    assert(c.entities@[i] == bind::bone_entity(named, i));
    assert(f(bind::bone_entity(named, i)) is Some);
    assert(skeleton::last_named(named, smpl::bone_of(i)) is Some);
    retarget_laws::law_bind_pose_hangs_together(
        m,
        v,
        one,
        c.data,
        Seq::new(22, |k: int| (f(bind::bone_entity(named, k))->0).own),
        Seq::new(22, |k: int| (f(bind::bone_entity(named, k))->0).above),
        i,
    );
}

/// The bind pose can be noted exactly where all bones are found and each has a
/// rotation.
pub proof fn law_when_a_bind_pose_is_complete<Q>(
    named: Seq<(u64, Seq<char>)>,
    f: spec_fn(u64) -> Option<BoneRest<Q>>,
    i: int,
)
    requires
        0 <= i < 22,
    ensures
        bind::complete(named, f) ==> (skeleton::last_named(named, smpl::bone_of(i)) matches Some(
            e,
        ) && f(e) is Some),
        skeleton::last_named(named, smpl::bone_of(i)) is None ==> !bind::complete(named, f),
        (skeleton::last_named(named, smpl::bone_of(i)) matches Some(e) && f(e) is None)
            ==> !bind::complete(named, f),
{
    assert(bind::complete(named, f) ==> f(bind::bone_entity(named, i)) is Some);
    assert(bind::complete(named, f) ==> skeleton::last_named(named, smpl::bone_of(i)) is Some);
}

/// Lists of named entities are spoken of by exactly what they hold, in order.
pub proof fn law_names_by_contents(list: Seq<(u64, String)>, i: int)
    ensures
        secondary::named(list).len() == list.len(),
        0 <= i < list.len() ==> secondary::named(list)[i] == (list[i].0, list[i].1@),
{
}

} // verus!
