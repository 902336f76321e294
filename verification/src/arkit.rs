//! Facial weight frames: 52 channels in a fixed order.
use crate::json::{Json, JsonView, Num};
use crate::renderer;
use crate::renderer::ArkitPose;
use vstd::prelude::*;
use vstd::string::*;

verus! {

/// Number of facial channels.
pub const CHANNELS: usize = 52;

/// The names of the facial channels, in channel order.
pub open spec fn channels() -> Seq<Seq<char>> {
    seq![
        "eyeBlinkLeft"@,
        "eyeLookDownLeft"@,
        "eyeLookInLeft"@,
        "eyeLookOutLeft"@,
        "eyeLookUpLeft"@,
        "eyeSquintLeft"@,
        "eyeWideLeft"@,
        "eyeBlinkRight"@,
        "eyeLookDownRight"@,
        "eyeLookInRight"@,
        "eyeLookOutRight"@,
        "eyeLookUpRight"@,
        "eyeSquintRight"@,
        "eyeWideRight"@,
        "jawForward"@,
        "jawLeft"@,
        "jawRight"@,
        "jawOpen"@,
        "mouthClose"@,
        "mouthFunnel"@,
        "mouthPucker"@,
        "mouthLeft"@,
        "mouthRight"@,
        "mouthSmileLeft"@,
        "mouthSmileRight"@,
        "mouthFrownLeft"@,
        "mouthFrownRight"@,
        "mouthDimpleLeft"@,
        "mouthDimpleRight"@,
        "mouthStretchLeft"@,
        "mouthStretchRight"@,
        "mouthRollLower"@,
        "mouthRollUpper"@,
        "mouthShrugLower"@,
        "mouthShrugUpper"@,
        "mouthPressLeft"@,
        "mouthPressRight"@,
        "mouthLowerDownLeft"@,
        "mouthLowerDownRight"@,
        "mouthUpperUpLeft"@,
        "mouthUpperUpRight"@,
        "browDownLeft"@,
        "browDownRight"@,
        "browInnerUp"@,
        "browOuterUpLeft"@,
        "browOuterUpRight"@,
        "cheekPuff"@,
        "cheekSquintLeft"@,
        "cheekSquintRight"@,
        "noseSneerLeft"@,
        "noseSneerRight"@,
        "tongueOut"@,
    ]
}

/// The names of the facial channels, in channel order.
pub fn channel_names() -> (r: Vec<String>)
    ensures
        r@.len() == CHANNELS,
        r@.map_values(|s: String| s@) == channels(),
{
    let mut names: Vec<String> = Vec::new();
    names.push("eyeBlinkLeft".to_owned());
    names.push("eyeLookDownLeft".to_owned());
    names.push("eyeLookInLeft".to_owned());
    names.push("eyeLookOutLeft".to_owned());
    names.push("eyeLookUpLeft".to_owned());
    names.push("eyeSquintLeft".to_owned());
    names.push("eyeWideLeft".to_owned());
    names.push("eyeBlinkRight".to_owned());
    names.push("eyeLookDownRight".to_owned());
    names.push("eyeLookInRight".to_owned());
    names.push("eyeLookOutRight".to_owned());
    names.push("eyeLookUpRight".to_owned());
    names.push("eyeSquintRight".to_owned());
    names.push("eyeWideRight".to_owned());
    names.push("jawForward".to_owned());
    names.push("jawLeft".to_owned());
    names.push("jawRight".to_owned());
    names.push("jawOpen".to_owned());
    names.push("mouthClose".to_owned());
    names.push("mouthFunnel".to_owned());
    names.push("mouthPucker".to_owned());
    names.push("mouthLeft".to_owned());
    names.push("mouthRight".to_owned());
    names.push("mouthSmileLeft".to_owned());
    names.push("mouthSmileRight".to_owned());
    names.push("mouthFrownLeft".to_owned());
    names.push("mouthFrownRight".to_owned());
    names.push("mouthDimpleLeft".to_owned());
    names.push("mouthDimpleRight".to_owned());
    names.push("mouthStretchLeft".to_owned());
    names.push("mouthStretchRight".to_owned());
    names.push("mouthRollLower".to_owned());
    names.push("mouthRollUpper".to_owned());
    names.push("mouthShrugLower".to_owned());
    names.push("mouthShrugUpper".to_owned());
    names.push("mouthPressLeft".to_owned());
    names.push("mouthPressRight".to_owned());
    names.push("mouthLowerDownLeft".to_owned());
    names.push("mouthLowerDownRight".to_owned());
    names.push("mouthUpperUpLeft".to_owned());
    names.push("mouthUpperUpRight".to_owned());
    names.push("browDownLeft".to_owned());
    names.push("browDownRight".to_owned());
    names.push("browInnerUp".to_owned());
    names.push("browOuterUpLeft".to_owned());
    names.push("browOuterUpRight".to_owned());
    names.push("cheekPuff".to_owned());
    names.push("cheekSquintLeft".to_owned());
    names.push("cheekSquintRight".to_owned());
    names.push("noseSneerLeft".to_owned());
    names.push("noseSneerRight".to_owned());
    names.push("tongueOut".to_owned());
    assert(names@.map_values(|s: String| s@) =~= channels());
    names
}

/// One frame of facial weights in channel order.
#[derive(Clone, Copy, Debug)]
pub struct BlendshapeFrame {
    pub arkit_52: [Num; 52],
    pub pts_ms: u64,
}

/// `v` holds 52 numbers under `arkit_52` and a natural number under `pts_ms`.
pub open spec fn has_frame(v: JsonView) -> bool {
    &&& v.get("arkit_52"@) matches Some(a) && renderer::numbers(a, 52)
    &&& v.get("pts_ms"@) matches Some(p) && p.as_u64() is Some
}

/// `frame` is what the envelope `v` says.
pub open spec fn frame_of(v: JsonView, frame: BlendshapeFrame) -> bool {
    &&& has_frame(v)
    &&& frame.arkit_52@ == renderer::numbers_of(v.get("arkit_52"@)->0)
    &&& frame.pts_ms == (v.get("pts_ms"@)->0).as_u64()->0
}

impl BlendshapeFrame {
    /// Reads a `blendshapes` envelope; `None` on any structural problem.
    pub fn from_json(v: &Json) -> (r: Option<BlendshapeFrame>)
        ensures
            r is Some == has_frame(v@),
            r matches Some(frame) ==> frame_of(v@, frame),
    {
        let channels = match v.get("arkit_52") {
            Some(a) => a,
            None => return None,
        };
        let items = match channels.as_array() {
            Some(items) => items,
            None => return None,
        };
        if items.len() != 52 {
            return None;
        }
        let mut arkit_52: [Num; 52] = [Num::Unsigned(0);52];
        let mut i: usize = 0;
        while i < 52
            invariant
                i <= 52,
                items@.len() == 52,
                v@.get("arkit_52"@) == Some(channels@),
                channels@ is Array,
                (channels@->Array_0).len() == 52,
                forall|k: int| 0 <= k < 52 ==> (#[trigger] items@[k])@ == (channels@->Array_0)[k],
                forall|k: int| 0 <= k < i ==> (#[trigger] (channels@->Array_0)[k]) is Number,
                forall|k: int|
                    0 <= k < i ==> (#[trigger] arkit_52@[k]) == (channels@->Array_0)[k]->Number_0,
            decreases 52 - i,
        {
            assert(items@[i as int]@ == (channels@->Array_0)[i as int]);
            match items[i].as_number() {
                Some(n) => {
                    arkit_52[i] = n;
                },
                None => return None,
            }
            i = i + 1;
        }
        assert(arkit_52@ =~= renderer::numbers_of(channels@));
        match v.get("pts_ms") {
            Some(p) => match p.as_u64() {
                Some(pts_ms) => Some(BlendshapeFrame { arkit_52, pts_ms }),
                None => None,
            },
            None => None,
        }
    }
}

/// `pose` drives each named channel with what `clamp` makes of its weight.
pub open spec fn driven_by<W, C: Fn(Num) -> W>(
    pose: ArkitPose<W>,
    frame: BlendshapeFrame,
    names: Seq<String>,
    clamp: C,
) -> bool {
    &&& pose.pts_ms == frame.pts_ms
    &&& pose.weights@.len() == names.len()
    &&& forall|i: int|
        #![trigger pose.weights@[i]]
        0 <= i < names.len() ==> pose.weights@[i].0@ == names[i]@ && call_ensures(
            clamp,
            (frame.arkit_52@[i],),
            pose.weights@[i].1,
        )
}

/// Gives every channel its name; `clamp` brings a weight into the unit interval.
pub fn frame_to_pose<W, C: Fn(Num) -> W>(
    frame: &BlendshapeFrame,
    names: &Vec<String>,
    clamp: &C,
) -> (pose: ArkitPose<W>)
    requires
        names@.len() == CHANNELS,
        forall|n: Num| call_requires(*clamp, (n,)),
    ensures
        driven_by(pose, *frame, names@, *clamp),
{
    let mut weights: Vec<(String, W)> = Vec::with_capacity(names.len());
    let mut i: usize = 0;
    while i < names.len()
        invariant
            i <= names.len(),
            names@.len() == 52,
            weights@.len() == i,
            forall|n: Num| call_requires(*clamp, (n,)),
            forall|k: int|
                #![trigger weights@[k]]
                0 <= k < i ==> weights@[k].0@ == names@[k]@ && call_ensures(
                    *clamp,
                    (frame.arkit_52@[k],),
                    weights@[k].1,
                ),
        decreases names.len() - i,
    {
        let w: W = clamp(frame.arkit_52[i]);
        weights.push((names[i].clone(), w));
        i = i + 1;
    }
    ArkitPose { weights, pts_ms: frame.pts_ms }
}

} // verus!
