//! Camera settings: which part of the body to frame, and coordinates in text.
use crate::retarget;
use crate::text;
use vstd::prelude::*;
use vstd::string::*;

verus! {

/// A part of the body that the camera can frame.
#[derive(Clone, Copy, Debug, PartialEq, Eq, Structural)]
pub enum BodyPart {
    Head,
    Face,
    Neck,
    Torso,
    UpperBody,
    Arms,
    LeftArm,
    RightArm,
    Legs,
    LeftLeg,
    RightLeg,
    Hands,
    LeftHand,
    RightHand,
    Pelvis,
    Feet,
    Shoulders,
    Chest,
    Butt,
}

/// How to frame a part of the body: the joints to enclose, and how far the box
/// around them is widened, in centimetres.
#[derive(Debug)]
pub struct FocusPreset {
    pub joints: Vec<usize>,
    pub pad_below_cm: u32,
    pub pad_above_cm: u32,
    pub pad_horiz_cm: u32,
    /// Look at the avatar from behind.
    pub view_from_back: bool,
}

/// How to frame a part of the body, as plain mathematics.
#[verifier::ext_equal]
pub struct PresetView {
    pub joints: Seq<usize>,
    pub below: u32,
    pub above: u32,
    pub horiz: u32,
    pub back: bool,
}

impl View for FocusPreset {
    type V = PresetView;

    open spec fn view(&self) -> PresetView {
        PresetView {
            joints: self.joints@,
            below: self.pad_below_cm,
            above: self.pad_above_cm,
            horiz: self.pad_horiz_cm,
            back: self.view_from_back,
        }
    }
}

/// The part of the body that a lower-case name stands for.
pub open spec fn part_named(key: Seq<char>) -> Option<BodyPart> {
    if key == "head"@ {
        Some(BodyPart::Head)
    } else if key == "face"@ {
        Some(BodyPart::Face)
    } else if key == "neck"@ {
        Some(BodyPart::Neck)
    } else if key == "torso"@ {
        Some(BodyPart::Torso)
    } else if key == "upper"@ || key == "upper_body"@ || key == "upper-body"@ {
        Some(BodyPart::UpperBody)
    } else if key == "arms"@ {
        Some(BodyPart::Arms)
    } else if key == "l_arm"@ || key == "left_arm"@ || key == "larm"@ {
        Some(BodyPart::LeftArm)
    } else if key == "r_arm"@ || key == "right_arm"@ || key == "rarm"@ {
        Some(BodyPart::RightArm)
    } else if key == "legs"@ {
        Some(BodyPart::Legs)
    } else if key == "l_leg"@ || key == "left_leg"@ || key == "lleg"@ {
        Some(BodyPart::LeftLeg)
    } else if key == "r_leg"@ || key == "right_leg"@ || key == "rleg"@ {
        Some(BodyPart::RightLeg)
    } else if key == "hands"@ {
        Some(BodyPart::Hands)
    } else if key == "l_hand"@ || key == "left_hand"@ || key == "lhand"@ {
        Some(BodyPart::LeftHand)
    } else if key == "r_hand"@ || key == "right_hand"@ || key == "rhand"@ {
        Some(BodyPart::RightHand)
    } else if key == "pelvis"@ || key == "hip"@ || key == "hips"@ {
        Some(BodyPart::Pelvis)
    } else if key == "feet"@ {
        Some(BodyPart::Feet)
    } else if key == "shoulders"@ {
        Some(BodyPart::Shoulders)
    } else if key == "chest"@ || key == "breasts"@ || key == "bust"@ || key == "torso_upper"@ || key
        == "torso-upper"@ {
        Some(BodyPart::Chest)
    } else if key == "butt"@ || key == "buttocks"@ || key == "glutes"@ || key == "rear"@ {
        Some(BodyPart::Butt)
    } else {
        None
    }
}

/// A preset seen from the front.
pub open spec fn front(joints: Seq<usize>, below: u32, above: u32, horiz: u32) -> PresetView {
    PresetView { joints, below, above, horiz, back: false }
}

/// How a part of the body is framed.
pub open spec fn preset_for(part: BodyPart) -> PresetView {
    match part {
        BodyPart::Head => front(seq![12usize, 15], 5, 32, 20),
        BodyPart::Face => front(seq![15usize], 5, 28, 16),
        BodyPart::Neck => front(seq![12usize, 15], 10, 18, 18),
        BodyPart::Torso => front(seq![0usize, 3, 6, 9, 12], 10, 10, 18),
        BodyPart::UpperBody => front(
            seq![6usize, 9, 12, 13, 14, 15, 16, 17, 18, 19, 20, 21],
            8,
            18,
            10,
        ),
        BodyPart::Arms => front(seq![16usize, 17, 18, 19, 20, 21], 10, 10, 10),
        BodyPart::LeftArm => front(seq![16usize, 18, 20], 10, 10, 10),
        BodyPart::RightArm => front(seq![17usize, 19, 21], 10, 10, 10),
        BodyPart::Legs => front(seq![1usize, 2, 4, 5, 7, 8, 10, 11], 10, 10, 12),
        BodyPart::LeftLeg => front(seq![1usize, 4, 7, 10], 10, 10, 10),
        BodyPart::RightLeg => front(seq![2usize, 5, 8, 11], 10, 10, 10),
        BodyPart::Hands => front(seq![20usize, 21], 10, 10, 10),
        BodyPart::LeftHand => front(seq![20usize], 10, 10, 10),
        BodyPart::RightHand => front(seq![21usize], 10, 10, 10),
        BodyPart::Pelvis => front(seq![0usize], 20, 20, 20),
        BodyPart::Feet => front(seq![10usize, 11], 10, 10, 10),
        BodyPart::Shoulders => front(seq![13usize, 14, 16, 17], 12, 12, 12),
        BodyPart::Chest => front(seq![9usize, 13, 14], 18, 5, 22),
        BodyPart::Butt => PresetView {
            joints: seq![0usize, 1, 2],
            below: 22,
            above: 10,
            horiz: 20,
            back: true,
        },
    }
}

/// Whether the lower-case form of `s` is one of the names.
fn is_one_of(s: &str, a: &str, b: &str, c: &str) -> (r: bool)
    ensures
        r == (text::ascii_lower(s@) == a@ || text::ascii_lower(s@) == b@ || text::ascii_lower(s@)
            == c@),
{
    text::lower_is(s, a) || text::lower_is(s, b) || text::lower_is(s, c)
}

/// The part of the body that a name stands for, in any case.
pub fn body_part(name: &str) -> (r: Option<BodyPart>)
    ensures
        r == part_named(text::ascii_lower(name@)),
{
    if text::lower_is(name, "head") {
        Some(BodyPart::Head)
    } else if text::lower_is(name, "face") {
        Some(BodyPart::Face)
    } else if text::lower_is(name, "neck") {
        Some(BodyPart::Neck)
    } else if text::lower_is(name, "torso") {
        Some(BodyPart::Torso)
    } else if is_one_of(name, "upper", "upper_body", "upper-body") {
        Some(BodyPart::UpperBody)
    } else if text::lower_is(name, "arms") {
        Some(BodyPart::Arms)
    } else if is_one_of(name, "l_arm", "left_arm", "larm") {
        Some(BodyPart::LeftArm)
    } else if is_one_of(name, "r_arm", "right_arm", "rarm") {
        Some(BodyPart::RightArm)
    } else if text::lower_is(name, "legs") {
        Some(BodyPart::Legs)
    } else if is_one_of(name, "l_leg", "left_leg", "lleg") {
        Some(BodyPart::LeftLeg)
    } else if is_one_of(name, "r_leg", "right_leg", "rleg") {
        Some(BodyPart::RightLeg)
    } else if text::lower_is(name, "hands") {
        Some(BodyPart::Hands)
    } else if is_one_of(name, "l_hand", "left_hand", "lhand") {
        Some(BodyPart::LeftHand)
    } else if is_one_of(name, "r_hand", "right_hand", "rhand") {
        Some(BodyPart::RightHand)
    } else if is_one_of(name, "pelvis", "hip", "hips") {
        Some(BodyPart::Pelvis)
    } else if text::lower_is(name, "feet") {
        Some(BodyPart::Feet)
    } else if text::lower_is(name, "shoulders") {
        Some(BodyPart::Shoulders)
    } else if is_one_of(name, "chest", "breasts", "bust") || is_one_of(
        name,
        "torso_upper",
        "torso-upper",
        "chest",
    ) {
        Some(BodyPart::Chest)
    } else if is_one_of(name, "butt", "buttocks", "glutes") || text::lower_is(name, "rear") {
        Some(BodyPart::Butt)
    } else {
        None
    }
}

/// How a part of the body is framed.
pub fn preset_of(part: BodyPart) -> (r: FocusPreset)
    ensures
        r@ == preset_for(part),
{
    let (joints, pads, back): (Vec<usize>, (u32, u32, u32), bool) = match part {
        BodyPart::Head => (vec![12, 15], (5, 32, 20), false),
        BodyPart::Face => (vec![15], (5, 28, 16), false),
        BodyPart::Neck => (vec![12, 15], (10, 18, 18), false),
        BodyPart::Torso => (vec![0, 3, 6, 9, 12], (10, 10, 18), false),
        BodyPart::UpperBody => (
            vec![6, 9, 12, 13, 14, 15, 16, 17, 18, 19, 20, 21],
            (8, 18, 10),
            false,
        ),
        BodyPart::Arms => (vec![16, 17, 18, 19, 20, 21], (10, 10, 10), false),
        BodyPart::LeftArm => (vec![16, 18, 20], (10, 10, 10), false),
        BodyPart::RightArm => (vec![17, 19, 21], (10, 10, 10), false),
        BodyPart::Legs => (vec![1, 2, 4, 5, 7, 8, 10, 11], (10, 10, 12), false),
        BodyPart::LeftLeg => (vec![1, 4, 7, 10], (10, 10, 10), false),
        BodyPart::RightLeg => (vec![2, 5, 8, 11], (10, 10, 10), false),
        BodyPart::Hands => (vec![20, 21], (10, 10, 10), false),
        BodyPart::LeftHand => (vec![20], (10, 10, 10), false),
        BodyPart::RightHand => (vec![21], (10, 10, 10), false),
        BodyPart::Pelvis => (vec![0], (20, 20, 20), false),
        BodyPart::Feet => (vec![10, 11], (10, 10, 10), false),
        BodyPart::Shoulders => (vec![13, 14, 16, 17], (12, 12, 12), false),
        BodyPart::Chest => (vec![9, 13, 14], (18, 5, 22), false),
        BodyPart::Butt => (vec![0, 1, 2], (22, 10, 20), true),
    };
    let r = FocusPreset {
        joints,
        pad_below_cm: pads.0,
        pad_above_cm: pads.1,
        pad_horiz_cm: pads.2,
        view_from_back: back,
    };
    assert(r@ =~= preset_for(part));
    r
}

/// The preset that a setting asks for.
pub open spec fn focus_of(setting: Option<Seq<char>>) -> Option<PresetView> {
    match setting {
        None => None,
        Some(s) => match part_named(text::ascii_lower(text::trimmed(s))) {
            Some(part) => Some(preset_for(part)),
            None => None,
        },
    }
}

/// The preset that a setting asks for, whatever its case and the white space
/// around it; none where there is no setting or its name is not known.
pub fn focus_spec(setting: Option<&str>) -> (r: Option<FocusPreset>)
    ensures
        match r {
            Some(p) => focus_of(
                match setting {
                    Some(s) => Some(s@),
                    None => None,
                },
            ) == Some(p@),
            None => focus_of(
                match setting {
                    Some(s) => Some(s@),
                    None => None,
                },
            ) is None,
        },
{
    match setting {
        None => None,
        Some(s) => {
            let name: String = text::trim(s);
            match body_part(name.as_str()) {
                Some(part) => Some(preset_of(part)),
                None => None,
            }
        },
    }
}

/// Every preset encloses only joints that exist.
pub proof fn law_presets_name_joints(part: BodyPart, i: int)
    requires
        0 <= i < preset_for(part).joints.len(),
    ensures
        preset_for(part).joints[i] < 22,
{
}

/// Every preset encloses at least one joint.
pub proof fn law_presets_are_not_empty(part: BodyPart)
    ensures
        preset_for(part).joints.len() > 0,
{
}

/// Only the rear view looks from behind.
pub proof fn law_only_rear_looks_from_behind(part: BodyPart)
    ensures
        preset_for(part).back == (part == BodyPart::Butt),
{
}

/// `out` is what `parse` makes of some text.
pub open spec fn parses_to<T, P: Fn(&str) -> Option<T>>(
    parse: P,
    t: Seq<char>,
    out: Option<T>,
) -> bool {
    exists|s: &str| #[trigger] call_ensures(parse, (s,), out) && s@ == t
}

/// Reads three values separated by commas, with white space around each.
/// `parse` reads one of them.
pub fn parse_triplet<T, P: Fn(&str) -> Option<T>>(s: &str, parse: &P) -> (r: Option<(T, T, T)>)
    requires
        forall|piece: &str| call_requires(*parse, (piece,)),
    ensures
        ({
            let parts = text::pieces(s@, ',');
            match r {
                Some(v) => {
                    &&& parts.len() == 3
                    &&& parses_to(*parse, text::trimmed(parts[0]), Some(v.0))
                    &&& parses_to(*parse, text::trimmed(parts[1]), Some(v.1))
                    &&& parses_to(*parse, text::trimmed(parts[2]), Some(v.2))
                },
                None => {
                    ||| parts.len() != 3
                    ||| parses_to(*parse, text::trimmed(parts[0]), None)
                    ||| parses_to(*parse, text::trimmed(parts[1]), None)
                    ||| parses_to(*parse, text::trimmed(parts[2]), None)
                },
            }
        }),
{
    let parts: Vec<String> = text::split(s, ',');
    if parts.len() != 3 {
        return None;
    }
    let a: String = text::trim(parts[0].as_str());
    let b: String = text::trim(parts[1].as_str());
    let c: String = text::trim(parts[2].as_str());
    let x: Option<T> = parse(a.as_str());
    assert(parses_to(*parse, a@, x));
    let y: Option<T> = parse(b.as_str());
    assert(parses_to(*parse, b@, y));
    let z: Option<T> = parse(c.as_str());
    assert(parses_to(*parse, c@, z));
    match (x, y, z) {
        (Some(x), Some(y), Some(z)) => Some((x, y, z)),
        _ => None,
    }
}

/// Ticks to wait after the bind pose before the camera is fitted.
pub const FIT_SETTLE_TICKS: u32 = 6;

/// Decides when the camera is fitted to the avatar, once.
#[derive(Clone, Copy, Debug, PartialEq, Eq, Structural)]
pub struct FitGate {
    pub done: bool,
    pub settle_ticks: u32,
}

impl Default for FitGate {
    fn default() -> (r: Self)
        ensures
            !r.done,
            r.settle_ticks == 0,
    {
        FitGate { done: false, settle_ticks: 0 }
    }
}

impl FitGate {
    /// Whether to try to fit now. A gate that is not enabled is done for good;
    /// an enabled one waits for the bind pose and some ticks after it.
    pub fn poll(&mut self, enabled: bool, captured: bool) -> (r: bool)
        ensures
            final(self).done == (old(self).done || !enabled),
            final(self).settle_ticks == (if !old(self).done && enabled && captured
                && old(self).settle_ticks < u32::MAX {
                old(self).settle_ticks + 1
            } else {
                old(self).settle_ticks as int
            }),
            r == (!old(self).done && enabled && captured && final(self).settle_ticks
                >= FIT_SETTLE_TICKS),
    {
        if self.done {
            return false;
        }
        if !enabled {
            self.done = true;
            return false;
        }
        if !captured {
            return false;
        }
        self.settle_ticks = self.settle_ticks.saturating_add(1);
        self.settle_ticks >= FIT_SETTLE_TICKS
    }

    /// The camera has been fitted.
    pub fn finish(&mut self)
        ensures
            final(self).done,
            final(self).settle_ticks == old(self).settle_ticks,
    {
        self.done = true;
    }
}

/// What a lookup of positions answers.
pub open spec fn locates<P, R: Fn(usize) -> Option<P>>(
    resolve: R,
    at: spec_fn(usize) -> Option<P>,
) -> bool {
    forall|i: usize, r: Option<P>| #[trigger] call_ensures(resolve, (i,), r) ==> r == at(i)
}

/// The box around the known positions of some joints, and how many there are.
pub open spec fn enclosed<P>(
    joints: Seq<usize>,
    at: spec_fn(usize) -> Option<P>,
    lo: spec_fn(P, P) -> P,
    hi: spec_fn(P, P) -> P,
) -> Option<(P, P, nat)>
    decreases joints.len(),
{
    if joints.len() == 0 {
        None
    } else {
        match (enclosed(joints.drop_last(), at, lo, hi), at(joints.last())) {
            (Some((a, b, n)), Some(p)) => Some((lo(a, p), hi(b, p), n + 1)),
            (Some(so_far), None) => Some(so_far),
            (None, Some(p)) => Some((p, p, 1)),
            (None, None) => None,
        }
    }
}

/// The box around the known positions of some joints, and how many there are;
/// none while no position is known. `lower` and `upper` give the corner of two
/// positions.
pub fn enclose<P: Copy, R: Fn(usize) -> Option<P>, L: Fn(P, P) -> P, U: Fn(P, P) -> P>(
    joints: &Vec<usize>,
    resolve: &R,
    lower: &L,
    upper: &U,
) -> (r: Option<(P, P, usize)>)
    requires
        forall|i: usize| joints@.contains(i) ==> call_requires(*resolve, (i,)),
        forall|a: P, b: P| call_requires(*lower, (a, b)),
        forall|a: P, b: P| call_requires(*upper, (a, b)),
    ensures
        forall|at: spec_fn(usize) -> Option<P>, lo: spec_fn(P, P) -> P, hi: spec_fn(P, P) -> P|
            #![trigger locates(*resolve, at), retarget::composes(*lower, lo), retarget::composes(*upper, hi)]
            locates(*resolve, at) && retarget::composes(*lower, lo) && retarget::composes(
                *upper,
                hi,
            ) ==> match r {
                Some(found) => enclosed(joints@, at, lo, hi) == Some(
                    (found.0, found.1, found.2 as nat),
                ),
                None => enclosed(joints@, at, lo, hi) is None,
            },
{
    let mut found: Option<(P, P, usize)> = None;
    let mut i: usize = 0;
    assert(joints@.take(0) =~= Seq::<usize>::empty());
    while i < joints.len()
        invariant
            i <= joints.len(),
            found matches Some(f) ==> f.2 <= i,
            forall|i: usize| joints@.contains(i) ==> call_requires(*resolve, (i,)),
            forall|a: P, b: P| call_requires(*lower, (a, b)),
            forall|a: P, b: P| call_requires(*upper, (a, b)),
            forall|at: spec_fn(usize) -> Option<P>, lo: spec_fn(P, P) -> P, hi: spec_fn(P, P) -> P|
                #![trigger locates(*resolve, at), retarget::composes(*lower, lo), retarget::composes(*upper, hi)]
                locates(*resolve, at) && retarget::composes(*lower, lo) && retarget::composes(
                    *upper,
                    hi,
                ) ==> match found {
                    Some(f) => enclosed(joints@.take(i as int), at, lo, hi) == Some(
                        (f.0, f.1, f.2 as nat),
                    ),
                    None => enclosed(joints@.take(i as int), at, lo, hi) is None,
                },
        decreases joints.len() - i,
    {
        assert(joints@.take(i + 1).drop_last() =~= joints@.take(i as int));
        assert(joints@.contains(joints@[i as int]));
        let known: Option<P> = resolve(joints[i]);
        found = match (found, known) {
            (Some((a, b, n)), Some(p)) => Some((lower(a, p), upper(b, p), n + 1)),
            (Some(so_far), None) => Some(so_far),
            (None, Some(p)) => Some((p, p, 1)),
            (None, None) => None,
        };
        i = i + 1;
    }
    assert(joints@.take(joints@.len() as int) =~= joints@);
    found
}

/// On whole numbers, the box holds every known position.
pub proof fn law_box_holds_all(joints: Seq<usize>, at: spec_fn(usize) -> Option<int>, k: int)
    requires
        0 <= k < joints.len(),
        at(joints[k]) is Some,
    ensures
        enclosed(
            joints,
            at,
            |a: int, b: int|
                if a <= b {
                    a
                } else {
                    b
                },
            |a: int, b: int|
                if a >= b {
                    a
                } else {
                    b
                },
        ) matches Some(found) && found.0 <= at(joints[k])->0 <= found.1,
    decreases joints.len(),
{
    if k < joints.len() - 1 {
        assert(joints.drop_last()[k] == joints[k]);
        law_box_holds_all(joints.drop_last(), at, k);
    }
}

/// Keeps the camera at the distance from its subject that it had at first.
#[derive(Clone, Copy, Debug, PartialEq, Eq)]
pub struct FollowCamera<V> {
    /// From the subject to the camera.
    pub offset: Option<V>,
}

impl<V> Default for FollowCamera<V> {
    fn default() -> (r: Self)
        ensures
            r.offset is None,
    {
        FollowCamera { offset: None }
    }
}

/// Where the camera is to go, and the offset that is kept.
pub open spec fn followed<V>(
    offset: Option<V>,
    subject: V,
    camera: V,
    plus: spec_fn(V, V) -> V,
    minus: spec_fn(V, V) -> V,
) -> (Option<V>, Option<V>) {
    match offset {
        None => (None, Some(minus(camera, subject))),
        Some(o) => (Some(plus(subject, o)), Some(o)),
    }
}

impl<V: Copy> FollowCamera<V> {
    /// Where the camera is to go; the first time it stays and its offset is
    /// noted.
    pub fn step<P: Fn(V, V) -> V, M: Fn(V, V) -> V>(
        &mut self,
        subject: V,
        camera: V,
        plus: &P,
        minus: &M,
    ) -> (r: Option<V>)
        requires
            forall|a: V, b: V| call_requires(*plus, (a, b)),
            forall|a: V, b: V| call_requires(*minus, (a, b)),
        ensures
            r is Some == old(self).offset is Some,
            final(self).offset is Some,
            forall|p: spec_fn(V, V) -> V, m: spec_fn(V, V) -> V| #[trigger]
                retarget::composes(*plus, p) && #[trigger] retarget::composes(*minus, m) ==> (
                    r,
                    final(self).offset,
                ) == followed(old(self).offset, subject, camera, p, m),
    {
        match self.offset {
            None => {
                self.offset = Some(minus(camera, subject));
                None
            },
            Some(o) => Some(plus(subject, o)),
        }
    }
}

/// A subject that has not moved leaves the camera where it was.
pub proof fn law_still_subject_still_camera<V>(
    subject: V,
    camera: V,
    plus: spec_fn(V, V) -> V,
    minus: spec_fn(V, V) -> V,
)
    requires
        plus(subject, minus(camera, subject)) == camera,
    ensures
        followed(
            followed(None, subject, camera, plus, minus).1,
            subject,
            camera,
            plus,
            minus,
        ).0 == Some(camera),
{
}

} // verus!
