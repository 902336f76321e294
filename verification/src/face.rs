//! How far the face bones turn: jaw, eyes and tongue are moved by bones, not by
//! morph targets.
use crate::morph;
use crate::renderer::ArkitPose;
use crate::text;
use vstd::prelude::*;
use vstd::string::*;

verus! {

/// Activations of the face bones; a full turn of each is set elsewhere.
#[derive(Clone, Copy, Debug, PartialEq, Eq)]
pub struct FaceDrive<W> {
    pub jaw_open: W,
    /// To the avatar's right.
    pub jaw_side: W,
    pub jaw_forward: W,
    pub upper_lip: W,
    pub left_pitch: W,
    pub left_yaw: W,
    pub right_pitch: W,
    pub right_yaw: W,
    pub tongue_out: W,
}

/// Activations that are held whatever the pose says.
#[derive(Clone, Copy, Debug, PartialEq, Eq)]
pub struct FacePins<W> {
    pub jaw_open: Option<W>,
    pub eye_pitch: Option<W>,
    /// To the avatar's right, for both eyes.
    pub eye_yaw: Option<W>,
}

/// Arithmetic on weights.
#[verifier::reject_recursive_types(W)]
pub struct WeightOps<W> {
    pub zero: W,
    /// Into the unit interval.
    pub clamp: spec_fn(W) -> W,
    pub minus: spec_fn(W, W) -> W,
    pub negate: spec_fn(W) -> W,
}

/// The weight of a channel's first entry; `zero` for a channel that is not
/// driven.
pub open spec fn weight_of<W>(weights: Seq<(Seq<char>, W)>, channel: Seq<char>, zero: W) -> W
    decreases weights.len(),
{
    if weights.len() == 0 {
        zero
    } else if weights[0].0 == channel {
        weights[0].1
    } else {
        weight_of(weights.subrange(1, weights.len() as int), channel, zero)
    }
}

/// A channel's activation.
pub open spec fn activation<W>(
    weights: Seq<(Seq<char>, W)>,
    channel: Seq<char>,
    ops: WeightOps<W>,
) -> W {
    (ops.clamp)(weight_of(weights, channel, ops.zero))
}

/// How far one channel outweighs another.
pub open spec fn excess<W>(
    weights: Seq<(Seq<char>, W)>,
    channel: Seq<char>,
    other: Seq<char>,
    ops: WeightOps<W>,
) -> W {
    (ops.minus)(activation(weights, channel, ops), activation(weights, other, ops))
}

/// What the face bones do for a set of weights. An eye that looks inwards turns
/// towards the other eye, so that the two sides count in and out the opposite
/// way round.
pub open spec fn drive_of<W>(
    weights: Seq<(Seq<char>, W)>,
    pins: FacePins<W>,
    ops: WeightOps<W>,
) -> FaceDrive<W> {
    FaceDrive {
        jaw_open: match pins.jaw_open {
            Some(w) => w,
            None => activation(weights, "jawOpen"@, ops),
        },
        jaw_side: excess(weights, "jawRight"@, "jawLeft"@, ops),
        jaw_forward: activation(weights, "jawForward"@, ops),
        upper_lip: activation(weights, "mouthShrugUpper"@, ops),
        left_pitch: match pins.eye_pitch {
            Some(w) => w,
            None => excess(weights, "eyeLookUpLeft"@, "eyeLookDownLeft"@, ops),
        },
        left_yaw: match pins.eye_yaw {
            Some(w) => w,
            None => excess(weights, "eyeLookInLeft"@, "eyeLookOutLeft"@, ops),
        },
        right_pitch: match pins.eye_pitch {
            Some(w) => w,
            None => excess(weights, "eyeLookUpRight"@, "eyeLookDownRight"@, ops),
        },
        right_yaw: match pins.eye_yaw {
            Some(w) => (ops.negate)(w),
            None => excess(weights, "eyeLookOutRight"@, "eyeLookInRight"@, ops),
        },
        tongue_out: activation(weights, "tongueOut"@, ops),
    }
}

/// The closures do the arithmetic of `ops`.
pub open spec fn computes<W, C: Fn(W) -> W, M: Fn(W, W) -> W, N: Fn(W) -> W>(
    clamp: C,
    minus: M,
    negate: N,
    ops: WeightOps<W>,
) -> bool {
    &&& forall|a: W, r: W| #[trigger] call_ensures(clamp, (a,), r) ==> r == (ops.clamp)(a)
    &&& forall|a: W, b: W, r: W| #[trigger]
        call_ensures(minus, (a, b), r) ==> r == (ops.minus)(a, b)
    &&& forall|a: W, r: W| #[trigger] call_ensures(negate, (a,), r) ==> r == (ops.negate)(a)
}

/// The weight of a channel.
fn find_weight<W: Copy>(weights: &Vec<(String, W)>, channel: &str, zero: W) -> (r: W)
    ensures
        r == weight_of(morph::weights_view(weights@), channel@, zero),
{
    let ghost all = morph::weights_view(weights@);
    let mut i: usize = 0;
    assert(all.subrange(0, all.len() as int) =~= all);
    while i < weights.len()
        invariant
            i <= weights.len(),
            all == morph::weights_view(weights@),
            weight_of(all, channel@, zero) == weight_of(
                all.subrange(i as int, all.len() as int),
                channel@,
                zero,
            ),
        decreases weights.len() - i,
    {
        let ghost rest = all.subrange(i as int, all.len() as int);
        assert(rest[0] == (weights@[i as int].0@, weights@[i as int].1));
        assert(rest.subrange(1, rest.len() as int) =~= all.subrange(i + 1, all.len() as int));
        if text::same(weights[i].0.as_str(), channel) {
            return weights[i].1;
        }
        i = i + 1;
    }
    zero
}

/// What the face bones do for a pose. A channel without a weight counts as zero,
/// so that the rest pose brings the bones back to rest.
pub fn face_drive<W: Copy, C: Fn(W) -> W, M: Fn(W, W) -> W, N: Fn(W) -> W>(
    pose: &ArkitPose<W>,
    pins: &FacePins<W>,
    zero: W,
    clamp: &C,
    minus: &M,
    negate: &N,
) -> (r: FaceDrive<W>)
    requires
        forall|a: W| call_requires(*clamp, (a,)),
        forall|a: W, b: W| call_requires(*minus, (a, b)),
        forall|a: W| call_requires(*negate, (a,)),
    ensures
        forall|ops: WeightOps<W>| #[trigger]
            computes(*clamp, *minus, *negate, ops) && ops.zero == zero ==> r == drive_of(
                morph::weights_view(pose.weights@),
                *pins,
                ops,
            ),
{
    let jaw_open: W = match pins.jaw_open {
        Some(w) => w,
        None => clamp(find_weight(&pose.weights, "jawOpen", zero)),
    };
    let right: W = clamp(find_weight(&pose.weights, "jawRight", zero));
    let left: W = clamp(find_weight(&pose.weights, "jawLeft", zero));
    let jaw_side: W = minus(right, left);
    let jaw_forward: W = clamp(find_weight(&pose.weights, "jawForward", zero));
    let upper_lip: W = clamp(find_weight(&pose.weights, "mouthShrugUpper", zero));
    let left_pitch: W = match pins.eye_pitch {
        Some(w) => w,
        None => {
            let up: W = clamp(find_weight(&pose.weights, "eyeLookUpLeft", zero));
            let down: W = clamp(find_weight(&pose.weights, "eyeLookDownLeft", zero));
            minus(up, down)
        },
    };
    let left_yaw: W = match pins.eye_yaw {
        Some(w) => w,
        None => {
            let inwards: W = clamp(find_weight(&pose.weights, "eyeLookInLeft", zero));
            let outwards: W = clamp(find_weight(&pose.weights, "eyeLookOutLeft", zero));
            minus(inwards, outwards)
        },
    };
    let right_pitch: W = match pins.eye_pitch {
        Some(w) => w,
        None => {
            let up: W = clamp(find_weight(&pose.weights, "eyeLookUpRight", zero));
            let down: W = clamp(find_weight(&pose.weights, "eyeLookDownRight", zero));
            minus(up, down)
        },
    };
    let right_yaw: W = match pins.eye_yaw {
        Some(w) => negate(w),
        None => {
            let outwards: W = clamp(find_weight(&pose.weights, "eyeLookOutRight", zero));
            let inwards: W = clamp(find_weight(&pose.weights, "eyeLookInRight", zero));
            minus(outwards, inwards)
        },
    };
    let tongue_out: W = clamp(find_weight(&pose.weights, "tongueOut", zero));
    FaceDrive {
        jaw_open,
        jaw_side,
        jaw_forward,
        upper_lip,
        left_pitch,
        left_yaw,
        right_pitch,
        right_yaw,
        tongue_out,
    }
}

/// The axis that the jaw opens around.
#[derive(Clone, Copy, Debug, PartialEq, Eq, Structural)]
pub enum Axis {
    X,
    Y,
    Z,
}

/// The axis that a setting names.
pub open spec fn axis_named(name: Option<Seq<char>>) -> Axis {
    if name == Some("y"@) {
        Axis::Y
    } else if name == Some("z"@) {
        Axis::Z
    } else {
        Axis::X
    }
}

/// The axis of its own frame that the jaw opens around: `x` unless the setting
/// names another.
pub fn jaw_axis(setting: Option<&str>) -> (r: Axis)
    ensures
        r == axis_named(
            match setting {
                Some(s) => Some(s@),
                None => None,
            },
        ),
{
    match setting {
        Some(s) => {
            if text::same(s, "y") {
                Axis::Y
            } else if text::same(s, "z") {
                Axis::Z
            } else {
                Axis::X
            }
        },
        None => Axis::X,
    }
}

/// Share of one of the three tongue bones in the tongue's turn, in hundredths.
pub fn tongue_share(bone: usize) -> (r: u8)
    requires
        bone < 3,
    ensures
        r == share_of(bone as int),
{
    if bone == 0 {
        50
    } else if bone == 1 {
        35
    } else {
        15
    }
}

/// Share of a tongue bone in the tongue's turn, in hundredths.
pub open spec fn share_of(bone: int) -> u8 {
    if bone == 0 {
        50
    } else if bone == 1 {
        35
    } else {
        15
    }
}

/// The three tongue bones make the whole turn between them, the root most of it.
pub proof fn law_tongue_shares()
    ensures
        share_of(0) + share_of(1) + share_of(2) == 100,
        share_of(0) > share_of(1) > share_of(2),
{
}

/// A pinned yaw turns both eyes the same way on the avatar: the right eye's own
/// count is the left one's, negated.
pub proof fn law_pinned_eyes_look_together<W>(
    weights: Seq<(Seq<char>, W)>,
    pins: FacePins<W>,
    ops: WeightOps<W>,
)
    requires
        pins.eye_yaw is Some,
        pins.eye_pitch is Some,
    ensures
        drive_of(weights, pins, ops).right_yaw == (ops.negate)(
            drive_of(weights, pins, ops).left_yaw,
        ),
        drive_of(weights, pins, ops).right_pitch == drive_of(weights, pins, ops).left_pitch,
{
}

/// A pose without weights brings every face bone back to rest, as far as nothing
/// is pinned.
pub proof fn law_rest_pose_rests_the_face<W>(pins: FacePins<W>, ops: WeightOps<W>)
    requires
        (ops.clamp)(ops.zero) == ops.zero,
        (ops.minus)(ops.zero, ops.zero) == ops.zero,
    ensures
        ({
            let d = drive_of(Seq::<(Seq<char>, W)>::empty(), pins, ops);
            &&& pins.jaw_open is None ==> d.jaw_open == ops.zero
            &&& d.jaw_side == ops.zero
            &&& d.jaw_forward == ops.zero
            &&& d.upper_lip == ops.zero
            &&& pins.eye_pitch is None ==> d.left_pitch == ops.zero && d.right_pitch == ops.zero
            &&& pins.eye_yaw is None ==> d.left_yaw == ops.zero && d.right_yaw == ops.zero
            &&& d.tongue_out == ops.zero
        }),
{
}

} // verus!
