//! What holds of the camera, told by settings and joints.
use crate::camera;
use crate::camera::{BodyPart, FocusPreset};
use crate::text;
use vstd::prelude::*;

verus! {

/// How the names are spelled.
proof fn lemma_spelled()
    ensures
        "head"@.len() == 4 && "head"@[0] == 'h' && "head"@[1] == 'e' && "head"@[2] == 'a',
        "face"@.len() == 4 && "face"@[0] == 'f' && "face"@[1] == 'a' && "face"@[2] == 'c',
        "neck"@.len() == 4 && "neck"@[0] == 'n' && "neck"@[1] == 'e' && "neck"@[2] == 'c',
        "torso"@.len() == 5 && "torso"@[0] == 't' && "torso"@[1] == 'o' && "torso"@[2] == 'r',
        "upper"@.len() == 5 && "upper"@[0] == 'u' && "upper"@[1] == 'p' && "upper"@[2] == 'p',
        "upper_body"@.len() == 10 && "upper_body"@[0] == 'u' && "upper_body"@[1] == 'p'
            && "upper_body"@[2] == 'p' && "upper_body"@[5] == '_' && "upper_body"@[6] == 'b',
        "upper-body"@.len() == 10 && "upper-body"@[0] == 'u' && "upper-body"@[1] == 'p'
            && "upper-body"@[2] == 'p' && "upper-body"@[5] == '-' && "upper-body"@[6] == 'b',
        "arms"@.len() == 4 && "arms"@[0] == 'a' && "arms"@[1] == 'r' && "arms"@[2] == 'm',
        "l_arm"@.len() == 5 && "l_arm"@[0] == 'l' && "l_arm"@[1] == '_' && "l_arm"@[2] == 'a',
        "left_arm"@.len() == 8 && "left_arm"@[0] == 'l' && "left_arm"@[1] == 'e'
            && "left_arm"@[2] == 'f' && "left_arm"@[5] == 'a' && "left_arm"@[6] == 'r',
        "larm"@.len() == 4 && "larm"@[0] == 'l' && "larm"@[1] == 'a' && "larm"@[2] == 'r',
        "r_arm"@.len() == 5 && "r_arm"@[0] == 'r' && "r_arm"@[1] == '_' && "r_arm"@[2] == 'a',
        "right_arm"@.len() == 9 && "right_arm"@[0] == 'r' && "right_arm"@[1] == 'i'
            && "right_arm"@[2] == 'g' && "right_arm"@[5] == '_' && "right_arm"@[6] == 'a',
        "rarm"@.len() == 4 && "rarm"@[0] == 'r' && "rarm"@[1] == 'a' && "rarm"@[2] == 'r',
        "legs"@.len() == 4 && "legs"@[0] == 'l' && "legs"@[1] == 'e' && "legs"@[2] == 'g',
        "l_leg"@.len() == 5 && "l_leg"@[0] == 'l' && "l_leg"@[1] == '_' && "l_leg"@[2] == 'l',
        "left_leg"@.len() == 8 && "left_leg"@[0] == 'l' && "left_leg"@[1] == 'e'
            && "left_leg"@[2] == 'f' && "left_leg"@[5] == 'l' && "left_leg"@[6] == 'e',
        "lleg"@.len() == 4 && "lleg"@[0] == 'l' && "lleg"@[1] == 'l' && "lleg"@[2] == 'e',
        "r_leg"@.len() == 5 && "r_leg"@[0] == 'r' && "r_leg"@[1] == '_' && "r_leg"@[2] == 'l',
        "right_leg"@.len() == 9 && "right_leg"@[0] == 'r' && "right_leg"@[1] == 'i'
            && "right_leg"@[2] == 'g' && "right_leg"@[5] == '_' && "right_leg"@[6] == 'l',
        "rleg"@.len() == 4 && "rleg"@[0] == 'r' && "rleg"@[1] == 'l' && "rleg"@[2] == 'e',
        "hands"@.len() == 5 && "hands"@[0] == 'h' && "hands"@[1] == 'a' && "hands"@[2] == 'n',
        "l_hand"@.len() == 6 && "l_hand"@[0] == 'l' && "l_hand"@[1] == '_'
            && "l_hand"@[2] == 'h' && "l_hand"@[5] == 'd',
        "left_hand"@.len() == 9 && "left_hand"@[0] == 'l' && "left_hand"@[1] == 'e'
            && "left_hand"@[2] == 'f' && "left_hand"@[5] == 'h' && "left_hand"@[6] == 'a',
        "lhand"@.len() == 5 && "lhand"@[0] == 'l' && "lhand"@[1] == 'h' && "lhand"@[2] == 'a',
        "r_hand"@.len() == 6 && "r_hand"@[0] == 'r' && "r_hand"@[1] == '_'
            && "r_hand"@[2] == 'h' && "r_hand"@[5] == 'd',
        "right_hand"@.len() == 10 && "right_hand"@[0] == 'r' && "right_hand"@[1] == 'i'
            && "right_hand"@[2] == 'g' && "right_hand"@[5] == '_' && "right_hand"@[6] == 'h',
        "rhand"@.len() == 5 && "rhand"@[0] == 'r' && "rhand"@[1] == 'h' && "rhand"@[2] == 'a',
        "pelvis"@.len() == 6 && "pelvis"@[0] == 'p' && "pelvis"@[1] == 'e'
            && "pelvis"@[2] == 'l' && "pelvis"@[5] == 's',
        "hip"@.len() == 3 && "hip"@[0] == 'h' && "hip"@[1] == 'i' && "hip"@[2] == 'p',
        "hips"@.len() == 4 && "hips"@[0] == 'h' && "hips"@[1] == 'i' && "hips"@[2] == 'p',
        "feet"@.len() == 4 && "feet"@[0] == 'f' && "feet"@[1] == 'e' && "feet"@[2] == 'e',
        "shoulders"@.len() == 9 && "shoulders"@[0] == 's' && "shoulders"@[1] == 'h'
            && "shoulders"@[2] == 'o' && "shoulders"@[5] == 'd' && "shoulders"@[6] == 'e',
        "chest"@.len() == 5 && "chest"@[0] == 'c' && "chest"@[1] == 'h' && "chest"@[2] == 'e',
        "breasts"@.len() == 7 && "breasts"@[0] == 'b' && "breasts"@[1] == 'r'
            && "breasts"@[2] == 'e' && "breasts"@[5] == 't' && "breasts"@[6] == 's',
        "bust"@.len() == 4 && "bust"@[0] == 'b' && "bust"@[1] == 'u' && "bust"@[2] == 's',
        "torso_upper"@.len() == 11 && "torso_upper"@[0] == 't' && "torso_upper"@[1] == 'o'
            && "torso_upper"@[2] == 'r' && "torso_upper"@[5] == '_' && "torso_upper"@[6] == 'u',
        "torso-upper"@.len() == 11 && "torso-upper"@[0] == 't' && "torso-upper"@[1] == 'o'
            && "torso-upper"@[2] == 'r' && "torso-upper"@[5] == '-' && "torso-upper"@[6] == 'u',
        "butt"@.len() == 4 && "butt"@[0] == 'b' && "butt"@[1] == 'u' && "butt"@[2] == 't',
        "buttocks"@.len() == 8 && "buttocks"@[0] == 'b' && "buttocks"@[1] == 'u'
            && "buttocks"@[2] == 't' && "buttocks"@[5] == 'c' && "buttocks"@[6] == 'k',
        "glutes"@.len() == 6 && "glutes"@[0] == 'g' && "glutes"@[1] == 'l'
            && "glutes"@[2] == 'u' && "glutes"@[5] == 's',
        "rear"@.len() == 4 && "rear"@[0] == 'r' && "rear"@[1] == 'e' && "rear"@[2] == 'a',
{
    reveal_strlit("head");
    reveal_strlit("face");
    reveal_strlit("neck");
    reveal_strlit("torso");
    reveal_strlit("upper");
    reveal_strlit("upper_body");
    reveal_strlit("upper-body");
    reveal_strlit("arms");
    reveal_strlit("l_arm");
    reveal_strlit("left_arm");
    reveal_strlit("larm");
    reveal_strlit("r_arm");
    reveal_strlit("right_arm");
    reveal_strlit("rarm");
    reveal_strlit("legs");
    reveal_strlit("l_leg");
    reveal_strlit("left_leg");
    reveal_strlit("lleg");
    reveal_strlit("r_leg");
    reveal_strlit("right_leg");
    reveal_strlit("rleg");
    reveal_strlit("hands");
    reveal_strlit("l_hand");
    reveal_strlit("left_hand");
    reveal_strlit("lhand");
    reveal_strlit("r_hand");
    reveal_strlit("right_hand");
    reveal_strlit("rhand");
    reveal_strlit("pelvis");
    reveal_strlit("hip");
    reveal_strlit("hips");
    reveal_strlit("feet");
    reveal_strlit("shoulders");
    reveal_strlit("chest");
    reveal_strlit("breasts");
    reveal_strlit("bust");
    reveal_strlit("torso_upper");
    reveal_strlit("torso-upper");
    reveal_strlit("butt");
    reveal_strlit("buttocks");
    reveal_strlit("glutes");
    reveal_strlit("rear");
}

/// Which names stand for which part of the body.
pub proof fn law_body_part_names()
    ensures
        camera::part_named("head"@) == Some(BodyPart::Head),
        camera::part_named("face"@) == Some(BodyPart::Face),
        camera::part_named("neck"@) == Some(BodyPart::Neck),
        camera::part_named("torso"@) == Some(BodyPart::Torso),
        camera::part_named("upper"@) == Some(BodyPart::UpperBody),
        camera::part_named("upper_body"@) == Some(BodyPart::UpperBody),
        camera::part_named("upper-body"@) == Some(BodyPart::UpperBody),
        camera::part_named("arms"@) == Some(BodyPart::Arms),
        camera::part_named("l_arm"@) == Some(BodyPart::LeftArm),
        camera::part_named("left_arm"@) == Some(BodyPart::LeftArm),
        camera::part_named("larm"@) == Some(BodyPart::LeftArm),
        camera::part_named("r_arm"@) == Some(BodyPart::RightArm),
        camera::part_named("right_arm"@) == Some(BodyPart::RightArm),
        camera::part_named("rarm"@) == Some(BodyPart::RightArm),
        camera::part_named("legs"@) == Some(BodyPart::Legs),
        camera::part_named("l_leg"@) == Some(BodyPart::LeftLeg),
        camera::part_named("left_leg"@) == Some(BodyPart::LeftLeg),
        camera::part_named("lleg"@) == Some(BodyPart::LeftLeg),
        camera::part_named("r_leg"@) == Some(BodyPart::RightLeg),
        camera::part_named("right_leg"@) == Some(BodyPart::RightLeg),
        camera::part_named("rleg"@) == Some(BodyPart::RightLeg),
        camera::part_named("hands"@) == Some(BodyPart::Hands),
        camera::part_named("l_hand"@) == Some(BodyPart::LeftHand),
        camera::part_named("left_hand"@) == Some(BodyPart::LeftHand),
        camera::part_named("lhand"@) == Some(BodyPart::LeftHand),
        camera::part_named("r_hand"@) == Some(BodyPart::RightHand),
        camera::part_named("right_hand"@) == Some(BodyPart::RightHand),
        camera::part_named("rhand"@) == Some(BodyPart::RightHand),
        camera::part_named("pelvis"@) == Some(BodyPart::Pelvis),
        camera::part_named("hip"@) == Some(BodyPart::Pelvis),
        camera::part_named("hips"@) == Some(BodyPart::Pelvis),
        camera::part_named("feet"@) == Some(BodyPart::Feet),
        camera::part_named("shoulders"@) == Some(BodyPart::Shoulders),
        camera::part_named("chest"@) == Some(BodyPart::Chest),
        camera::part_named("breasts"@) == Some(BodyPart::Chest),
        camera::part_named("bust"@) == Some(BodyPart::Chest),
        camera::part_named("torso_upper"@) == Some(BodyPart::Chest),
        camera::part_named("torso-upper"@) == Some(BodyPart::Chest),
        camera::part_named("butt"@) == Some(BodyPart::Butt),
        camera::part_named("buttocks"@) == Some(BodyPart::Butt),
        camera::part_named("glutes"@) == Some(BodyPart::Butt),
        camera::part_named("rear"@) == Some(BodyPart::Butt),
{
    lemma_spelled();
}

/// Any other name stands for none.
pub proof fn law_other_names_stand_for_nothing(key: Seq<char>)
    requires
        key != "head"@,
        key != "face"@,
        key != "neck"@,
        key != "torso"@,
        key != "upper"@,
        key != "upper_body"@,
        key != "upper-body"@,
        key != "arms"@,
        key != "l_arm"@,
        key != "left_arm"@,
        key != "larm"@,
        key != "r_arm"@,
        key != "right_arm"@,
        key != "rarm"@,
        key != "legs"@,
        key != "l_leg"@,
        key != "left_leg"@,
        key != "lleg"@,
        key != "r_leg"@,
        key != "right_leg"@,
        key != "rleg"@,
        key != "hands"@,
        key != "l_hand"@,
        key != "left_hand"@,
        key != "lhand"@,
        key != "r_hand"@,
        key != "right_hand"@,
        key != "rhand"@,
        key != "pelvis"@,
        key != "hip"@,
        key != "hips"@,
        key != "feet"@,
        key != "shoulders"@,
        key != "chest"@,
        key != "breasts"@,
        key != "bust"@,
        key != "torso_upper"@,
        key != "torso-upper"@,
        key != "butt"@,
        key != "buttocks"@,
        key != "glutes"@,
        key != "rear"@,
    ensures
        camera::part_named(key) is None,
{
}

/// `part` is framed by these joints, widened below, above and to the sides by so many
/// centimetres.
pub open spec fn framed(
    part: BodyPart,
    joints: Seq<usize>,
    below: int,
    above: int,
    horiz: int,
) -> bool {
    let p = camera::preset_for(part);
    p.joints == joints && p.below == below && p.above == above && p.horiz == horiz
}

/// How each part of the body is framed.
pub proof fn law_frames()
    ensures
        framed(BodyPart::Head, seq![12usize, 15], 5, 32, 20),
        framed(BodyPart::Face, seq![15usize], 5, 28, 16),
        framed(BodyPart::Neck, seq![12usize, 15], 10, 18, 18),
        framed(BodyPart::Torso, seq![0usize, 3, 6, 9, 12], 10, 10, 18),
        framed(BodyPart::UpperBody, seq![6usize, 9, 12, 13, 14, 15, 16, 17, 18, 19, 20, 21], 8, 18, 10),
        framed(BodyPart::Arms, seq![16usize, 17, 18, 19, 20, 21], 10, 10, 10),
        framed(BodyPart::LeftArm, seq![16usize, 18, 20], 10, 10, 10),
        framed(BodyPart::RightArm, seq![17usize, 19, 21], 10, 10, 10),
        framed(BodyPart::Legs, seq![1usize, 2, 4, 5, 7, 8, 10, 11], 10, 10, 12),
        framed(BodyPart::LeftLeg, seq![1usize, 4, 7, 10], 10, 10, 10),
        framed(BodyPart::RightLeg, seq![2usize, 5, 8, 11], 10, 10, 10),
        framed(BodyPart::Hands, seq![20usize, 21], 10, 10, 10),
        framed(BodyPart::LeftHand, seq![20usize], 10, 10, 10),
        framed(BodyPart::RightHand, seq![21usize], 10, 10, 10),
        framed(BodyPart::Pelvis, seq![0usize], 20, 20, 20),
        framed(BodyPart::Feet, seq![10usize, 11], 10, 10, 10),
        framed(BodyPart::Shoulders, seq![13usize, 14, 16, 17], 12, 12, 12),
        framed(BodyPart::Chest, seq![9usize, 13, 14], 18, 5, 22),
        framed(BodyPart::Butt, seq![0usize, 1, 2], 22, 10, 20),
{
}

/// Left and right are framed alike: each joint of a left limb has the joint right
/// behind it in the right limb, and both limbs together are the pair.
pub proof fn law_limbs_are_framed_alike(i: int)
    ensures
        ({
            let left = camera::preset_for(BodyPart::LeftArm);
            let right = camera::preset_for(BodyPart::RightArm);
            let both = camera::preset_for(BodyPart::Arms);
            &&& left.joints.len() == 3 && right.joints.len() == 3 && both.joints.len() == 6
            &&& 0 <= i < 3 ==> right.joints[i] == left.joints[i] + 1
            &&& 0 <= i < 3 ==> both.joints[2 * i] == left.joints[i] && both.joints[2 * i + 1]
                == right.joints[i]
        }),
        ({
            let left = camera::preset_for(BodyPart::LeftLeg);
            let right = camera::preset_for(BodyPart::RightLeg);
            let both = camera::preset_for(BodyPart::Legs);
            &&& left.joints.len() == 4 && right.joints.len() == 4 && both.joints.len() == 8
            &&& 0 <= i < 4 ==> right.joints[i] == left.joints[i] + 1
            &&& 0 <= i < 4 ==> both.joints[2 * i] == left.joints[i] && both.joints[2 * i + 1]
                == right.joints[i]
        }),
{
}

/// A setting asks for the preset of the part that its name, without the white space
/// around it and in lower case, stands for; without a setting nothing is asked for.
pub proof fn law_setting_asks_for_its_part(s: Seq<char>)
    ensures
        camera::focus_of(None) is None,
        camera::part_named(text::ascii_lower(text::trimmed(s))) matches Some(part)
            ==> camera::focus_of(Some(s)) == Some(camera::preset_for(part)),
        camera::part_named(text::ascii_lower(text::trimmed(s))) is None ==> camera::focus_of(
            Some(s),
        ) is None,
{
}

/// A preset is spoken of by exactly what it holds.
pub proof fn law_preset_by_contents(p: FocusPreset)
    ensures
        p@.joints == p.joints@,
        p@.below == p.pad_below_cm,
        p@.above == p.pad_above_cm,
        p@.horiz == p.pad_horiz_cm,
        p@.back == p.view_from_back,
{
}

/// The camera is fitted from the sixth tick after the bind pose on.
pub proof fn law_fit_waits_six_ticks()
    ensures
        camera::FIT_SETTLE_TICKS == 6,
{
}

/// The box grows joint by joint: a joint whose position is not known leaves it alone,
/// the first known position is the box, and each further one widens both corners and
/// is counted.
pub proof fn law_box_grows_joint_by_joint<P>(
    joints: Seq<usize>,
    j: usize,
    at: spec_fn(usize) -> Option<P>,
    lo: spec_fn(P, P) -> P,
    hi: spec_fn(P, P) -> P,
)
    ensures
        camera::enclosed(Seq::empty(), at, lo, hi) is None,
        at(j) is None ==> camera::enclosed(joints.push(j), at, lo, hi) == camera::enclosed(
            joints,
            at,
            lo,
            hi,
        ),
        at(j) matches Some(p) ==> match camera::enclosed(joints, at, lo, hi) {
            None => camera::enclosed(joints.push(j), at, lo, hi) == Some((p, p, 1nat)),
            Some((a, b, n)) => camera::enclosed(joints.push(j), at, lo, hi) == Some(
                (lo(a, p), hi(b, p), n + 1),
            ),
        },
{
    assert(joints.push(j).drop_last() =~= joints);
}

/// The camera stays when it is first asked, and from then on keeps the offset that it
/// had then from its subject, wherever the subject goes.
pub proof fn law_camera_keeps_its_offset<V>(
    subject: V,
    camera: V,
    later: V,
    somewhere: V,
    plus: spec_fn(V, V) -> V,
    minus: spec_fn(V, V) -> V,
)
    ensures
        ({
            let (first, kept) = camera::followed(None, subject, camera, plus, minus);
            let (next, still) = camera::followed(kept, later, somewhere, plus, minus);
            &&& first is None
            &&& next == Some(plus(later, minus(camera, subject)))
            &&& still == kept
        }),
{
}

/// What the supplied functions stand for.
pub proof fn law_supplied_lookups<P, T, R: Fn(usize) -> Option<P>, F: Fn(&str) -> Option<T>>(
    resolve: R,
    at: spec_fn(usize) -> Option<P>,
    parse: F,
    t: Seq<char>,
    out: Option<T>,
)
    ensures
        camera::locates(resolve, at) <==> forall|i: usize, r: Option<P>| #[trigger]
            call_ensures(resolve, (i,), r) ==> r == at(i),
        camera::parses_to(parse, t, out) <==> exists|s: &str| #[trigger]
            call_ensures(parse, (s,), out) && s@ == t,
{
}

} // verus!
