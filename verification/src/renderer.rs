//! Values exchanged with the render thread: poses going in, frames and scene
//! state coming out.
//!
//! Types that carry measurements are generic in the number type: the library
//! passes measurements on and never computes with them.
use crate::json::{Json, JsonView, Num};
use vstd::prelude::*;

verus! {

/// One set of facial weights: channel name and activation.
#[derive(Clone, Debug)]
pub struct ArkitPose<W> {
    pub weights: Vec<(String, W)>,
    /// Source-side presentation time in milliseconds.
    pub pts_ms: u64,
}

impl<W> ArkitPose<W> {
    /// The rest face: no channel is driven.
    pub open spec fn is_rest(self) -> bool {
        self.weights@.len() == 0 && self.pts_ms == 0
    }
}

impl<W> Default for ArkitPose<W> {
    fn default() -> (r: Self)
        ensures
            r.is_rest(),
    {
        ArkitPose { weights: Vec::new(), pts_ms: 0 }
    }
}

/// One frame of body pose: a parent-local quaternion per joint, the world
/// position of the pelvis, and the presentation time.
#[derive(Clone, Copy, Debug)]
pub struct SkeletalPose {
    /// `x, y, z, w` per joint.
    pub joint_quats: [[Num; 4]; 22],
    /// World-space pelvis position in metres.
    pub root_pos: [Num; 3],
    pub pts_ms: u64,
}

/// The number zero.
pub open spec fn zero() -> Num {
    Num::Unsigned(0)
}

/// The number one.
pub open spec fn one() -> Num {
    Num::Unsigned(1)
}

impl SkeletalPose {
    /// Every joint unrotated, the pelvis at the origin.
    pub open spec fn is_rest(self) -> bool {
        &&& forall|i: int|
            #![trigger self.joint_quats@[i]]
            0 <= i < 22 ==> self.joint_quats@[i]@ == seq![zero(), zero(), zero(), one()]
        &&& self.root_pos@ == seq![zero(), zero(), zero()]
        &&& self.pts_ms == 0
    }

    /// The unrotated pose.
    pub fn rest() -> (r: Self)
        ensures
            r.is_rest(),
    {
        let z = Num::Unsigned(0);
        let quat = [z, z, z, Num::Unsigned(1)];
        assert(quat@ =~= seq![zero(), zero(), zero(), one()]);
        let root_pos = [z, z, z];
        assert(root_pos@ =~= seq![zero(), zero(), zero()]);
        SkeletalPose { joint_quats: [quat;22], root_pos, pts_ms: 0 }
    }
}

impl Default for SkeletalPose {
    fn default() -> (r: Self)
        ensures
            r.is_rest(),
    {
        SkeletalPose::rest()
    }
}

/// `v` is an array of exactly `n` numbers.
pub open spec fn numbers(v: JsonView, n: nat) -> bool {
    &&& v is Array
    &&& (v->Array_0).len() == n
    &&& forall|k: int| 0 <= k < n ==> (#[trigger] (v->Array_0)[k]) is Number
}

/// The numbers of an array of numbers.
pub open spec fn numbers_of(v: JsonView) -> Seq<Num> {
    (v->Array_0).map_values(|x: JsonView| x->Number_0)
}

/// The member `key` is an array of 22 arrays of four numbers.
pub open spec fn has_quats(v: JsonView) -> bool {
    &&& v.get("joint_quats_xyzw"@) matches Some(a)
    &&& a is Array
    &&& (a->Array_0).len() == 22
    &&& forall|i: int| 0 <= i < 22 ==> numbers(#[trigger] (a->Array_0)[i], 4)
}

/// The pelvis position of a pose envelope is missing or three numbers.
pub open spec fn has_root(v: JsonView) -> bool {
    v.get("root_pos"@) matches Some(a) ==> numbers(a, 3)
}

/// The presentation time of a pose envelope is missing or a natural number.
pub open spec fn has_pts(v: JsonView) -> bool {
    v.get("pts_ms"@) matches Some(p) ==> p.as_u64() is Some
}

/// `v` has the form of a pose envelope.
pub open spec fn has_pose(v: JsonView) -> bool {
    has_quats(v) && has_root(v) && has_pts(v)
}

/// The pelvis position of a pose envelope; the origin if it is missing.
pub open spec fn root_of(v: JsonView) -> Seq<Num> {
    match v.get("root_pos"@) {
        Some(a) => numbers_of(a),
        None => seq![zero(), zero(), zero()],
    }
}

/// The presentation time of a pose envelope; zero if it is missing.
pub open spec fn pts_of(v: JsonView) -> u64 {
    match v.get("pts_ms"@) {
        Some(p) => p.as_u64()->0,
        None => 0,
    }
}

/// `pose` is what the envelope `v` says.
pub open spec fn pose_of(v: JsonView, pose: SkeletalPose) -> bool {
    &&& has_pose(v)
    &&& forall|i: int|
        #![trigger pose.joint_quats@[i]]
        0 <= i < 22 ==> pose.joint_quats@[i]@ == numbers_of(
            ((v.get("joint_quats_xyzw"@)->0)->Array_0)[i],
        )
    &&& pose.root_pos@ == root_of(v)
    &&& pose.pts_ms == pts_of(v)
}

/// Reads an array of exactly four numbers.
pub fn four_numbers(v: &Json) -> (r: Option<[Num; 4]>)
    ensures
        r is Some == numbers(v@, 4),
        r matches Some(a) ==> a@ == numbers_of(v@),
{
    match v.as_array() {
        None => None,
        Some(items) => {
            if items.len() != 4 {
                return None;
            }
            assert(items@[0]@ == (v@->Array_0)[0]);
            assert(items@[1]@ == (v@->Array_0)[1]);
            assert(items@[2]@ == (v@->Array_0)[2]);
            assert(items@[3]@ == (v@->Array_0)[3]);
            match (
                items[0].as_number(),
                items[1].as_number(),
                items[2].as_number(),
                items[3].as_number(),
            ) {
                (Some(x), Some(y), Some(z), Some(w)) => {
                    let a = [x, y, z, w];
                    assert(a@ =~= numbers_of(v@));
                    Some(a)
                },
                _ => None,
            }
        },
    }
}

/// Reads an array of exactly three numbers.
pub fn three_numbers(v: &Json) -> (r: Option<[Num; 3]>)
    ensures
        r is Some == numbers(v@, 3),
        r matches Some(a) ==> a@ == numbers_of(v@),
{
    match v.as_array() {
        None => None,
        Some(items) => {
            if items.len() != 3 {
                return None;
            }
            assert(items@[0]@ == (v@->Array_0)[0]);
            assert(items@[1]@ == (v@->Array_0)[1]);
            assert(items@[2]@ == (v@->Array_0)[2]);
            match (items[0].as_number(), items[1].as_number(), items[2].as_number()) {
                (Some(x), Some(y), Some(z)) => {
                    let a = [x, y, z];
                    assert(a@ =~= numbers_of(v@));
                    Some(a)
                },
                _ => None,
            }
        },
    }
}

/// The pelvis position of a pose envelope; `None` where it is ill-formed.
fn read_root(v: &Json) -> (r: Option<[Num; 3]>)
    ensures
        r is Some == has_root(v@),
        r matches Some(root) ==> root@ == root_of(v@),
{
    match v.get("root_pos") {
        Some(a) => three_numbers(a),
        None => {
            let z = Num::Unsigned(0);
            let origin = [z, z, z];
            assert(origin@ =~= root_of(v@));
            Some(origin)
        },
    }
}

/// The presentation time of a pose envelope; `None` where it is ill-formed.
fn read_pts(v: &Json) -> (r: Option<u64>)
    ensures
        r is Some == has_pts(v@),
        r matches Some(pts) ==> pts == pts_of(v@),
{
    match v.get("pts_ms") {
        Some(p) => p.as_u64(),
        None => Some(0),
    }
}

/// Reads a `skeletal_pose` envelope; `None` on any structural problem. The member
/// `joint_quats_xyzw` is an array of 22 arrays of four numbers. A missing
/// `root_pos` reads as the origin and a missing `pts_ms` as zero; where they are
/// given, they are three numbers and a natural number.
pub fn skeletal_pose_from_json(v: &Json) -> (r: Option<SkeletalPose>)
    ensures
        r is Some == has_pose(v@),
        r matches Some(pose) ==> pose_of(v@, pose),
{
    let quats = match v.get("joint_quats_xyzw") {
        Some(q) => q,
        None => return None,
    };
    let rows = match quats.as_array() {
        Some(rows) => rows,
        None => return None,
    };
    if rows.len() != 22 {
        return None;
    }
    let z = Num::Unsigned(0);
    let mut joint_quats: [[Num; 4]; 22] = [[z, z, z, z];22];
    let mut i: usize = 0;
    while i < 22
        invariant
            i <= 22,
            rows@.len() == 22,
            v@.get("joint_quats_xyzw"@) == Some(quats@),
            quats@ is Array,
            (quats@->Array_0).len() == 22,
            forall|k: int| 0 <= k < 22 ==> (#[trigger] rows@[k])@ == (quats@->Array_0)[k],
            forall|k: int| 0 <= k < i ==> numbers(#[trigger] (quats@->Array_0)[k], 4),
            forall|k: int|
                #![trigger joint_quats@[k]]
                0 <= k < i ==> joint_quats@[k]@ == numbers_of((quats@->Array_0)[k]),
        decreases 22 - i,
    {
        assert(rows@[i as int]@ == (quats@->Array_0)[i as int]);
        match four_numbers(&rows[i]) {
            Some(q) => {
                joint_quats[i] = q;
            },
            None => return None,
        }
        i = i + 1;
    }
    match (read_root(v), read_pts(v)) {
        (Some(root_pos), Some(pts_ms)) => Some(SkeletalPose { joint_quats, root_pos, pts_ms }),
        _ => None,
    }
}

/// One rendered picture, four bytes per pixel, rows without padding.
#[derive(Debug)]
pub struct RenderedFrame {
    pub pixels: Vec<u8>,
    pub width: u32,
    pub height: u32,
    /// Presentation time of the pose that the picture shows.
    pub pts_ms: u64,
}

/// One of the avatar's hands.
#[derive(Clone, Copy, Debug, PartialEq, Eq, Hash, Structural)]
pub enum Hand {
    Left,
    Right,
}

/// Asks one hand to reach for a prop and hold it.
#[derive(Clone, Debug)]
pub struct GrabCmd<F> {
    pub hand: Hand,
    pub target: String,
    pub palm_offset_override: Option<[F; 3]>,
}

/// A command on the grab channel.
#[derive(Clone, Debug)]
pub enum GrabOrRelease<F> {
    Grab(GrabCmd<F>),
    Release(Hand),
}

/// A prop held by a hand.
#[derive(Clone, Debug)]
pub struct GrabSnapshot {
    pub hand: Hand,
    pub prop: String,
}

/// A grab that came to nothing, and why.
#[derive(Clone, Debug)]
pub struct GrabFailure {
    pub hand: Hand,
    pub target: String,
    pub reason: String,
}

/// Where a prop is held, in its own frame.
#[derive(Clone, Debug)]
pub struct GraspAnchor<F> {
    pub local_offset: [F; 3],
    pub local_rotation: [F; 4],
}

/// The shape of a prop.
#[derive(Clone, Debug)]
pub enum PropShape<F> {
    Box { half_extents: [F; 3] },
    Sphere { radius: F },
    Capsule { radius: F, half_height: F },
    MeshGlb { path: String, scale: F },
}

/// Asks for a prop to be put into the scene, replacing one of the same id.
#[derive(Clone, Debug)]
pub struct PropCmd<F> {
    pub id: String,
    pub shape: PropShape<F>,
    pub initial_transform: [[F; 4]; 4],
    pub mass_kg: F,
    pub grasp: Option<GraspAnchor<F>>,
    pub friction: F,
    pub restitution: F,
}

/// A prop as it stands in the scene.
#[derive(Clone, Debug)]
pub struct PropSnapshot<F> {
    pub id: String,
    pub transform: [[F; 4]; 4],
    pub aabb_min: [F; 3],
    pub aabb_max: [F; 3],
    pub grasp_world: Option<[[F; 4]; 4]>,
    pub loading: bool,
}

/// What the render thread tells about the scene.
#[derive(Clone, Debug)]
pub struct SceneState<F> {
    pub props: Vec<PropSnapshot<F>>,
    pub grabs: Vec<GrabSnapshot>,
    pub failed_grabs: Vec<GrabFailure>,
    pub pts_ms: u64,
}

impl<F> Default for SceneState<F> {
    fn default() -> (r: Self)
        ensures
            r.props@.len() == 0,
            r.grabs@.len() == 0,
            r.failed_grabs@.len() == 0,
            r.pts_ms == 0,
    {
        SceneState { props: Vec::new(), grabs: Vec::new(), failed_grabs: Vec::new(), pts_ms: 0 }
    }
}

} // verus!
