//! The driven bones of the avatar, and the stream of body poses.
use crate::json::Num;
use crate::renderer::SkeletalPose;
use crate::secondary;
use crate::smpl;
use crate::text;
use vstd::prelude::*;

verus! {

/// The entity of this name; the last one where there are several.
pub open spec fn last_named(named: Seq<(u64, Seq<char>)>, name: Seq<char>) -> Option<u64>
    decreases named.len(),
{
    if named.len() == 0 {
        None
    } else if named.last().1 == name {
        Some(named.last().0)
    } else {
        last_named(named.drop_last(), name)
    }
}

/// The entity of this name; the first one where there are several.
pub open spec fn first_named(named: Seq<(u64, Seq<char>)>, name: Seq<char>) -> Option<u64>
    decreases named.len(),
{
    if named.len() == 0 {
        None
    } else if named[0].1 == name {
        Some(named[0].0)
    } else {
        first_named(named.subrange(1, named.len() as int), name)
    }
}

/// The entity of this name; the last one where there are several.
pub fn find_last(named: &Vec<(u64, String)>, name: &str) -> (r: Option<u64>)
    ensures
        r == last_named(secondary::named(named@), name@),
{
    let ghost all = secondary::named(named@);
    let mut n: usize = named.len();
    assert(all.take(n as int) =~= all);
    while n > 0
        invariant
            n <= named.len(),
            all == secondary::named(named@),
            last_named(all, name@) == last_named(all.take(n as int), name@),
        decreases n,
    {
        assert(all.take(n as int).last() == (named@[n - 1].0, named@[n - 1].1@));
        assert(all.take(n as int).drop_last() =~= all.take(n - 1));
        if text::same(named[n - 1].1.as_str(), name) {
            return Some(named[n - 1].0);
        }
        n = n - 1;
    }
    None
}

/// The entity of this name; the first one where there are several.
pub fn find_first(named: &Vec<(u64, String)>, name: &str) -> (r: Option<u64>)
    ensures
        r == first_named(secondary::named(named@), name@),
{
    let ghost all = secondary::named(named@);
    let mut i: usize = 0;
    assert(all.subrange(0, all.len() as int) =~= all);
    while i < named.len()
        invariant
            i <= named.len(),
            all == secondary::named(named@),
            first_named(all, name@) == first_named(
                all.subrange(i as int, all.len() as int),
                name@,
            ),
        decreases named.len() - i,
    {
        let ghost rest = all.subrange(i as int, all.len() as int);
        assert(rest[0] == (named@[i as int].0, named@[i as int].1@));
        if text::same(named[i].1.as_str(), name) {
            return Some(named[i].0);
        }
        assert(rest.subrange(1, rest.len() as int) =~= all.subrange(i + 1, all.len() as int));
        i = i + 1;
    }
    None
}

/// All 22 driven bones are there.
pub open spec fn all_found(named: Seq<(u64, Seq<char>)>) -> bool {
    forall|i: int| 0 <= i < 22 ==> last_named(named, #[trigger] smpl::bone_of(i)) is Some
}

/// Finds the driven bones among the avatar's named entities; none before all of
/// them are there.
pub fn find_bones(named: &Vec<(u64, String)>) -> (r: Option<[u64; 22]>)
    ensures
        r is Some == all_found(secondary::named(named@)),
        r matches Some(bones) ==> forall|i: int|
            0 <= i < 22 ==> Some(#[trigger] bones@[i]) == last_named(
                secondary::named(named@),
                smpl::bone_of(i),
            ),
{
    let ghost all = secondary::named(named@);
    let mut bones: [u64; 22] = [0u64;22];
    let mut i: usize = 0;
    while i < 22
        invariant
            i <= 22,
            all == secondary::named(named@),
            forall|k: int| 0 <= k < i ==> last_named(all, #[trigger] smpl::bone_of(k)) is Some,
            forall|k: int|
                0 <= k < i ==> Some(#[trigger] bones@[k]) == last_named(all, smpl::bone_of(k)),
        decreases 22 - i,
    {
        match find_last(named, smpl::cc5_name(i)) {
            Some(e) => {
                bones[i] = e;
            },
            None => {
                assert(last_named(all, smpl::bone_of(i as int)) is None);
                return None;
            },
        }
        i = i + 1;
    }
    Some(bones)
}

/// Bones of the face that are driven directly. Only the jaw is required.
#[derive(Clone, Copy, Debug, PartialEq, Eq, Structural)]
pub struct FaceBones {
    pub jaw_root: u64,
    pub l_eye: Option<u64>,
    pub r_eye: Option<u64>,
    pub upper_jaw: Option<u64>,
    pub tongue1: Option<u64>,
    pub tongue2: Option<u64>,
    pub tongue3: Option<u64>,
}

/// The bones of the face among some named entities.
pub open spec fn face_of(named: Seq<(u64, Seq<char>)>) -> Option<FaceBones> {
    match first_named(named, "CC_Base_JawRoot"@) {
        None => None,
        Some(jaw_root) => Some(
            FaceBones {
                jaw_root,
                l_eye: first_named(named, "CC_Base_L_Eye"@),
                r_eye: first_named(named, "CC_Base_R_Eye"@),
                upper_jaw: first_named(named, "CC_Base_UpperJaw"@),
                tongue1: first_named(named, "CC_Base_Tongue01"@),
                tongue2: first_named(named, "CC_Base_Tongue02"@),
                tongue3: first_named(named, "CC_Base_Tongue03"@),
            },
        ),
    }
}

/// Finds the bones of the face among the avatar's named entities.
pub fn find_face_bones(named: &Vec<(u64, String)>) -> (r: Option<FaceBones>)
    ensures
        r == face_of(secondary::named(named@)),
{
    match find_first(named, "CC_Base_JawRoot") {
        None => None,
        Some(jaw_root) => Some(
            FaceBones {
                jaw_root,
                l_eye: find_first(named, "CC_Base_L_Eye"),
                r_eye: find_first(named, "CC_Base_R_Eye"),
                upper_jaw: find_first(named, "CC_Base_UpperJaw"),
                tongue1: find_first(named, "CC_Base_Tongue01"),
                tongue2: find_first(named, "CC_Base_Tongue02"),
                tongue3: find_first(named, "CC_Base_Tongue03"),
            },
        ),
    }
}

/// What the queue of body poses gives in one tick.
#[derive(Clone, Copy, Debug)]
pub enum QueueItem {
    Pose(SkeletalPose),
    /// The stream has ended.
    Clear,
    /// Nothing is queued.
    Empty,
}

/// What to do with the avatar in one tick.
#[derive(Clone, Copy, Debug)]
pub enum DriveStep {
    /// Leave it alone.
    Nothing,
    /// The stream has ended: put every driven bone back into its bind pose and
    /// the root where it rests, then let the baked animation go on.
    Rest,
    /// Put it into this pose; the root moves relative to `anchor`. Hold the
    /// baked animation first where `pause` says so.
    Apply { pose: SkeletalPose, anchor: [Num; 3], pause: bool },
}

/// Follows the stream of body poses.
#[derive(Clone, Copy, Debug)]
pub struct SkeletalDriver {
    pub active: bool,
    pub anchor: Option<[Num; 3]>,
    pub last_pose: Option<SkeletalPose>,
}

/// A driver that has seen no pose.
pub open spec fn idle() -> SkeletalDriver {
    SkeletalDriver { active: false, anchor: None, last_pose: None }
}

/// The driver and what to do after one tick.
pub open spec fn driven(d: SkeletalDriver, item: QueueItem) -> (SkeletalDriver, DriveStep) {
    match item {
        QueueItem::Clear => if d.active {
            (idle(), DriveStep::Rest)
        } else {
            (SkeletalDriver { last_pose: None, ..d }, DriveStep::Nothing)
        },
        _ => {
            let latest = match item {
                QueueItem::Pose(p) => Some(p),
                _ => d.last_pose,
            };
            match latest {
                None => (d, DriveStep::Nothing),
                Some(pose) => {
                    let anchor = if d.active && d.anchor is Some {
                        d.anchor->0
                    } else {
                        pose.root_pos
                    };
                    (
                        SkeletalDriver { active: true, anchor: Some(anchor), last_pose: Some(pose) },
                        DriveStep::Apply { pose, anchor, pause: !d.active },
                    )
                },
            }
        },
    }
}

/// A driver is active exactly while it has a pose and an anchor.
pub open spec fn consistent(d: SkeletalDriver) -> bool {
    d.active == d.last_pose is Some && d.active == d.anchor is Some
}

impl Default for SkeletalDriver {
    fn default() -> (r: Self)
        ensures
            r == idle(),
    {
        SkeletalDriver { active: false, anchor: None, last_pose: None }
    }
}

impl SkeletalDriver {
    /// Takes at most one item off the queue per tick, so that poses play in
    /// order; without a new pose the last one is held.
    pub fn step(&mut self, item: QueueItem) -> (r: DriveStep)
        ensures
            (*final(self), r) == driven(*old(self), item),
    {
        match item {
            QueueItem::Clear => {
                self.last_pose = None;
                if self.active {
                    self.active = false;
                    self.anchor = None;
                    DriveStep::Rest
                } else {
                    DriveStep::Nothing
                }
            },
            _ => {
                if let QueueItem::Pose(p) = item {
                    self.last_pose = Some(p);
                }
                match self.last_pose {
                    None => DriveStep::Nothing,
                    Some(pose) => {
                        let pause: bool = !self.active;
                        if pause {
                            self.active = true;
                            self.anchor = None;
                        }
                        let anchor: [Num; 3] = match self.anchor {
                            Some(a) => a,
                            None => pose.root_pos,
                        };
                        self.anchor = Some(anchor);
                        DriveStep::Apply { pose, anchor, pause }
                    },
                }
            },
        }
    }
}

/// A fresh driver is consistent, and every tick keeps it so.
pub proof fn law_driver_stays_consistent(d: SkeletalDriver, item: QueueItem)
    requires
        consistent(d),
    ensures
        consistent(idle()),
        consistent(driven(d, item).0),
{
}

/// The driver after a series of ticks.
pub open spec fn driven_all(d: SkeletalDriver, items: Seq<QueueItem>) -> SkeletalDriver
    decreases items.len(),
{
    if items.len() == 0 {
        d
    } else {
        driven(driven_all(d, items.drop_last()), items.last()).0
    }
}

/// What is done in each of a series of ticks.
pub open spec fn steps(d: SkeletalDriver, items: Seq<QueueItem>) -> Seq<DriveStep>
    decreases items.len(),
{
    if items.len() == 0 {
        Seq::empty()
    } else {
        steps(d, items.drop_last()).push(
            driven(driven_all(d, items.drop_last()), items.last()).1,
        )
    }
}

/// Every queued pose is applied in the tick that takes it off the queue, so that
/// poses play in the order in which they were queued and none is left out.
pub proof fn law_poses_play_in_order(d: SkeletalDriver, items: Seq<QueueItem>, i: int)
    requires
        0 <= i < items.len(),
    ensures
        steps(d, items).len() == items.len(),
        items[i] matches QueueItem::Pose(queued) ==> steps(d, items)[i] matches DriveStep::Apply {
            pose,
            ..
        } && pose == queued,
    decreases items.len(),
{
    let init = items.drop_last();
    if i < init.len() {
        law_poses_play_in_order(d, init, i);
        assert(init[i] == items[i]);
    } else if init.len() > 0 {
        law_poses_play_in_order(d, init, 0);
    } else {
        reveal_with_fuel(steps, 2);
    }
}

/// Between poses the last one is held.
pub proof fn law_last_pose_is_held(d: SkeletalDriver)
    requires
        consistent(d),
        d.active,
    ensures
        driven(d, QueueItem::Empty).0 == d,
        driven(d, QueueItem::Empty).1 matches DriveStep::Apply { pose, pause, .. } && Some(pose)
            == d.last_pose && !pause,
{
}

/// The anchor of a stream is the root of its first pose, until the stream ends.
pub proof fn law_anchor_is_first_root(first: SkeletalPose, items: Seq<QueueItem>)
    requires
        forall|i: int| 0 <= i < items.len() ==> !((#[trigger] items[i]) is Clear),
    ensures
        driven_all(driven(idle(), QueueItem::Pose(first)).0, items).anchor == Some(first.root_pos),
        driven_all(driven(idle(), QueueItem::Pose(first)).0, items).active,
    decreases items.len(),
{
    if items.len() > 0 {
        let init = items.drop_last();
        assert forall|i: int| 0 <= i < init.len() implies !((#[trigger] init[i]) is Clear) by {
            assert(init[i] == items[i]);
        }
        law_anchor_is_first_root(first, init);
        assert(!(items[items.len() - 1] is Clear));
    }
}

/// The end of a running stream brings the avatar to rest, and the next stream has
/// an anchor of its own.
pub proof fn law_stream_end_is_rest(d: SkeletalDriver, next: SkeletalPose)
    requires
        d.active,
    ensures
        driven(d, QueueItem::Clear) == (idle(), DriveStep::Rest),
        driven(driven(d, QueueItem::Clear).0, QueueItem::Empty).1 is Nothing,
        driven(driven(d, QueueItem::Clear).0, QueueItem::Pose(next)).1 == (DriveStep::Apply {
            pose: next,
            anchor: next.root_pos,
            pause: true,
        }),
{
}

/// The baked animation is held when a stream starts and let go when it ends, and
/// at no other time.
pub proof fn law_animation_is_held_during_streams(d: SkeletalDriver, item: QueueItem)
    requires
        consistent(d),
    ensures
        (driven(d, item).1 is Rest) == (d.active && !driven(d, item).0.active),
        (driven(d, item).1 matches DriveStep::Apply { pause: true, .. }) == (!d.active && driven(
            d,
            item,
        ).0.active),
{
}

} // verus!
