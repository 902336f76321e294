//! What holds of the face bones, told by the weights of a pose.
use crate::face;
use crate::face::{Axis, FacePins, WeightOps};
use crate::morph;
use crate::renderer::ArkitPose;
use vstd::prelude::*;

verus! {

/// `w` is the weight of a channel in a list: that of the channel's first entry, and
/// `zero` where it has none.
pub open spec fn reads<W>(weights: Seq<(String, W)>, channel: Seq<char>, zero: W, w: W) -> bool {
    ||| w == zero && forall|k: int| 0 <= k < weights.len() ==> (#[trigger] weights[k]).0@ != channel
    ||| exists|k: int|
        0 <= k < weights.len() && (#[trigger] weights[k]).0@ == channel && weights[k].1 == w
            && forall|j: int| 0 <= j < k ==> (#[trigger] weights[j]).0@ != channel
}

/// A channel's weight is that of its first entry, and `zero` where it has none.
pub proof fn law_first_entry_counts<W>(
    weights: Seq<(String, W)>,
    channel: Seq<char>,
    zero: W,
    w: W,
)
    requires
        reads(weights, channel, zero, w),
    ensures
        face::weight_of(morph::weights_view(weights), channel, zero) == w,
    decreases weights.len(),
{
    let all = morph::weights_view(weights);
    if weights.len() > 0 {
        assert(all[0] == (weights[0].0@, weights[0].1));
        if weights[0].0@ != channel {
            let rest = weights.subrange(1, weights.len() as int);
            assert(all.subrange(1, all.len() as int) =~= morph::weights_view(rest));
            if exists|k: int|
                0 <= k < weights.len() && (#[trigger] weights[k]).0@ == channel && weights[k].1 == w
                    && forall|j: int| 0 <= j < k ==> (#[trigger] weights[j]).0@ != channel {
                let k = choose|k: int|
                    0 <= k < weights.len() && (#[trigger] weights[k]).0@ == channel && weights[k].1
                        == w && forall|j: int| 0 <= j < k ==> (#[trigger] weights[j]).0@ != channel;
                assert(rest[k - 1] == weights[k]);
                assert forall|j: int| 0 <= j < k - 1 implies (#[trigger] rest[j]).0@ != channel by {
                    assert(rest[j] == weights[j + 1]);
                }
            } else {
                assert forall|k: int| 0 <= k < rest.len() implies (#[trigger] rest[k]).0@
                    != channel by {
                    assert(rest[k] == weights[k + 1]);
                }
            }
            assert(reads(rest, channel, zero, w));
            law_first_entry_counts(rest, channel, zero, w);
        }
    }
}

/// Each eye looks up by what its own up channel has over its own down channel. Equal
/// weights on both sides turn both eyes alike, and a pose that drives nothing but
/// one eye's up channel turns that eye up.
pub proof fn law_eyes_look_up_and_down<W>(
    pose: ArkitPose<W>,
    pins: FacePins<W>,
    ops: WeightOps<W>,
    up_left: W,
    down_left: W,
    up_right: W,
    down_right: W,
)
    requires
        pins.eye_pitch is None,
        reads(pose.weights@, "eyeLookUpLeft"@, ops.zero, up_left),
        reads(pose.weights@, "eyeLookDownLeft"@, ops.zero, down_left),
        reads(pose.weights@, "eyeLookUpRight"@, ops.zero, up_right),
        reads(pose.weights@, "eyeLookDownRight"@, ops.zero, down_right),
    ensures
        ({
            let d = face::drive_of(morph::weights_view(pose.weights@), pins, ops);
            &&& d.left_pitch == (ops.minus)((ops.clamp)(up_left), (ops.clamp)(down_left))
            &&& d.right_pitch == (ops.minus)((ops.clamp)(up_right), (ops.clamp)(down_right))
            &&& up_left == up_right && down_left == down_right ==> d.left_pitch == d.right_pitch
        }),
{
    law_first_entry_counts(pose.weights@, "eyeLookUpLeft"@, ops.zero, up_left);
    law_first_entry_counts(pose.weights@, "eyeLookDownLeft"@, ops.zero, down_left);
    law_first_entry_counts(pose.weights@, "eyeLookUpRight"@, ops.zero, up_right);
    law_first_entry_counts(pose.weights@, "eyeLookDownRight"@, ops.zero, down_right);
}

/// Each eye looks to the avatar's right by what the channel towards that side has
/// over the other: inwards over outwards for the left eye, outwards over inwards for
/// the right. A gaze to one side, inwards with one eye and equally far outwards with
/// the other, turns both eyes alike.
pub proof fn law_eyes_look_sideways<W>(
    pose: ArkitPose<W>,
    pins: FacePins<W>,
    ops: WeightOps<W>,
    in_left: W,
    out_left: W,
    in_right: W,
    out_right: W,
)
    requires
        pins.eye_yaw is None,
        reads(pose.weights@, "eyeLookInLeft"@, ops.zero, in_left),
        reads(pose.weights@, "eyeLookOutLeft"@, ops.zero, out_left),
        reads(pose.weights@, "eyeLookInRight"@, ops.zero, in_right),
        reads(pose.weights@, "eyeLookOutRight"@, ops.zero, out_right),
    ensures
        ({
            let d = face::drive_of(morph::weights_view(pose.weights@), pins, ops);
            &&& d.left_yaw == (ops.minus)((ops.clamp)(in_left), (ops.clamp)(out_left))
            &&& d.right_yaw == (ops.minus)((ops.clamp)(out_right), (ops.clamp)(in_right))
            &&& in_left == out_right && out_left == in_right ==> d.left_yaw == d.right_yaw
        }),
{
    law_first_entry_counts(pose.weights@, "eyeLookInLeft"@, ops.zero, in_left);
    law_first_entry_counts(pose.weights@, "eyeLookOutLeft"@, ops.zero, out_left);
    law_first_entry_counts(pose.weights@, "eyeLookInRight"@, ops.zero, in_right);
    law_first_entry_counts(pose.weights@, "eyeLookOutRight"@, ops.zero, out_right);
}

/// The jaw opens, goes forward and to the avatar's right, the upper lip shrugs and
/// the tongue comes out, each by its own channel; a jaw that is pulled to both sides
/// equally far goes to neither.
pub proof fn law_jaw_lip_and_tongue<W>(
    pose: ArkitPose<W>,
    pins: FacePins<W>,
    ops: WeightOps<W>,
    open: W,
    forward: W,
    left: W,
    right: W,
    shrug: W,
    tongue: W,
)
    requires
        pins.jaw_open is None,
        reads(pose.weights@, "jawOpen"@, ops.zero, open),
        reads(pose.weights@, "jawForward"@, ops.zero, forward),
        reads(pose.weights@, "jawLeft"@, ops.zero, left),
        reads(pose.weights@, "jawRight"@, ops.zero, right),
        reads(pose.weights@, "mouthShrugUpper"@, ops.zero, shrug),
        reads(pose.weights@, "tongueOut"@, ops.zero, tongue),
    ensures
        ({
            let d = face::drive_of(morph::weights_view(pose.weights@), pins, ops);
            &&& d.jaw_open == (ops.clamp)(open)
            &&& d.jaw_forward == (ops.clamp)(forward)
            &&& d.jaw_side == (ops.minus)((ops.clamp)(right), (ops.clamp)(left))
            &&& d.upper_lip == (ops.clamp)(shrug)
            &&& d.tongue_out == (ops.clamp)(tongue)
        }),
{
    law_first_entry_counts(pose.weights@, "jawOpen"@, ops.zero, open);
    law_first_entry_counts(pose.weights@, "jawForward"@, ops.zero, forward);
    law_first_entry_counts(pose.weights@, "jawLeft"@, ops.zero, left);
    law_first_entry_counts(pose.weights@, "jawRight"@, ops.zero, right);
    law_first_entry_counts(pose.weights@, "mouthShrugUpper"@, ops.zero, shrug);
    law_first_entry_counts(pose.weights@, "tongueOut"@, ops.zero, tongue);
}

/// What is pinned does not depend on the pose, and a pin touches nothing but what it
/// pins.
pub proof fn law_pins_hold<W>(
    weights: Seq<(Seq<char>, W)>,
    free: FacePins<W>,
    pins: FacePins<W>,
    ops: WeightOps<W>,
)
    requires
        free.jaw_open is None && free.eye_pitch is None && free.eye_yaw is None,
    ensures
        ({
            let d = face::drive_of(weights, pins, ops);
            let f = face::drive_of(weights, free, ops);
            &&& pins.jaw_open matches Some(p) ==> d.jaw_open == p
            &&& pins.eye_pitch matches Some(p) ==> d.left_pitch == p && d.right_pitch == p
            &&& pins.eye_yaw matches Some(p) ==> d.left_yaw == p && d.right_yaw == (ops.negate)(p)
            &&& pins.jaw_open is None ==> d.jaw_open == f.jaw_open
            &&& pins.eye_pitch is None ==> d.left_pitch == f.left_pitch && d.right_pitch
                == f.right_pitch
            &&& pins.eye_yaw is None ==> d.left_yaw == f.left_yaw && d.right_yaw == f.right_yaw
            &&& d.jaw_side == f.jaw_side && d.jaw_forward == f.jaw_forward
            &&& d.upper_lip == f.upper_lip && d.tongue_out == f.tongue_out
        }),
{
}

/// What the supplied arithmetic stands for, argument by argument.
pub proof fn law_supplied_arithmetic<W, C: Fn(W) -> W, M: Fn(W, W) -> W, N: Fn(W) -> W>(
    clamp: C,
    minus: M,
    negate: N,
    ops: WeightOps<W>,
)
    ensures
        face::computes(clamp, minus, negate, ops) <==> {
            &&& forall|a: W, r: W| #[trigger] call_ensures(clamp, (a,), r) ==> r == (ops.clamp)(a)
            &&& forall|a: W, b: W, r: W| #[trigger]
                call_ensures(minus, (a, b), r) ==> r == (ops.minus)(a, b)
            &&& forall|a: W, r: W| #[trigger]
                call_ensures(negate, (a,), r) ==> r == (ops.negate)(a)
        },
{
}

/// Which words choose the jaw's axis, and how the tongue's turn is shared out.
pub proof fn law_jaw_axis_and_tongue_shares(name: Seq<char>)
    ensures
        face::axis_named(None) == Axis::X,
        face::axis_named(Some("y"@)) == Axis::Y,
        face::axis_named(Some("z"@)) == Axis::Z,
        name != "y"@ && name != "z"@ ==> face::axis_named(Some(name)) == Axis::X,
        face::share_of(0) == 50,
        face::share_of(1) == 35,
        face::share_of(2) == 15,
{
    reveal_strlit("y");
    reveal_strlit("z");
    assert("y"@[0] == 'y');
    assert("z"@[0] == 'z');
}

} // verus!
