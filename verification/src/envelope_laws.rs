//! What holds of envelopes, told by the documents that come in.
use crate::arkit;
use crate::arkit::BlendshapeFrame;
use crate::envelope;
use crate::json;
use crate::json::{Json, JsonView, Num};
use crate::renderer;
use crate::renderer::{ArkitPose, SkeletalPose};
use vstd::prelude::*;

verus! {

/// Member number `k` is the first called `key`, and its value is `x`.
pub open spec fn first_at(
    ms: Seq<(Seq<char>, JsonView)>,
    key: Seq<char>,
    x: JsonView,
    k: int,
) -> bool {
    &&& 0 <= k < ms.len()
    &&& ms[k].0 == key
    &&& ms[k].1 == x
    &&& forall|j: int| 0 <= j < k ==> (#[trigger] ms[j]).0 != key
}

/// No member is called `key`.
pub open spec fn lacks(ms: Seq<(Seq<char>, JsonView)>, key: Seq<char>) -> bool {
    forall|j: int| 0 <= j < ms.len() ==> (#[trigger] ms[j]).0 != key
}

/// `x` is the value of the first member called `key` of the object `v`.
pub open spec fn member_is(v: JsonView, key: Seq<char>, x: JsonView) -> bool {
    v is Object && exists|k: int| #[trigger] first_at(v->Object_0, key, x, k)
}

/// `v` is no object, or an object without a member called `key`.
pub open spec fn member_missing(v: JsonView, key: Seq<char>) -> bool {
    v is Object ==> lacks(v->Object_0, key)
}

/// `v` is an array of exactly these numbers.
pub open spec fn lists(v: JsonView, nums: Seq<Num>) -> bool {
    v matches JsonView::Array(items) && items.len() == nums.len() && forall|k: int|
        0 <= k < nums.len() ==> #[trigger] items[k] == JsonView::Number(nums[k])
}

/// A member is found by its name, the first one where several have it.
pub proof fn law_members_by_name(v: JsonView, key: Seq<char>, x: JsonView)
    ensures
        member_is(v, key, x) ==> v.get(key) == Some(x),
        member_missing(v, key) ==> v.get(key) is None,
        v.get(key) is None ==> member_missing(v, key),
{
    match v {
        JsonView::Object(ms) => lemma_first_member(ms, key, x),
        _ => {},
    }
}

proof fn lemma_first_member(ms: Seq<(Seq<char>, JsonView)>, key: Seq<char>, x: JsonView)
    ensures
        (exists|k: int| #[trigger] first_at(ms, key, x, k)) ==> json::lookup(ms, key) == Some(x),
        lacks(ms, key) <==> json::lookup(ms, key) is None,
    decreases ms.len(),
{
    if ms.len() > 0 {
        let rest = ms.subrange(1, ms.len() as int);
        lemma_first_member(rest, key, x);
        if ms[0].0 != key {
            if exists|k: int| #[trigger] first_at(ms, key, x, k) {
                let k = choose|k: int| #[trigger] first_at(ms, key, x, k);
                assert(rest[k - 1] == ms[k]);
                assert forall|j: int| 0 <= j < k - 1 implies (#[trigger] rest[j]).0 != key by {
                    assert(rest[j] == ms[j + 1]);
                }
                assert(first_at(rest, key, x, k - 1));
            }
            if lacks(ms, key) {
                assert forall|j: int| 0 <= j < rest.len() implies (#[trigger] rest[j]).0 != key by {
                    assert(rest[j] == ms[j + 1]);
                }
            }
            if lacks(rest, key) {
                assert forall|j: int| 0 <= j < ms.len() implies (#[trigger] ms[j]).0 != key by {
                    if j > 0 {
                        assert(rest[j - 1] == ms[j]);
                    }
                }
            }
        } else {
            if exists|k: int| #[trigger] first_at(ms, key, x, k) {
                let k = choose|k: int| #[trigger] first_at(ms, key, x, k);
                assert(k == 0) by {
                    if k > 0 {
                        assert(ms[0].0 != key);
                    }
                }
            }
            assert(!lacks(ms, key)) by {
                assert(ms[0].0 == key);
            }
        }
    }
}

/// A document is spoken of by exactly what it holds, in order.
pub proof fn law_documents_by_contents(
    b: bool,
    n: Num,
    s: String,
    items: Vec<Json>,
    members: Vec<(String, Json)>,
    i: int,
)
    ensures
        json::contents(Json::Null) is Null,
        json::contents(Json::Bool(b)) == JsonView::Bool(b),
        json::contents(Json::Number(n)) == JsonView::Number(n),
        json::contents(Json::Str(s)) == JsonView::Str(s@),
        (json::contents(Json::Array(items)) matches JsonView::Array(xs) && xs.len() == items@.len()
            && (0 <= i < xs.len() ==> xs[i] == items@[i]@)),
        (json::contents(Json::Object(members)) matches JsonView::Object(ms) && ms.len()
            == members@.len() && (0 <= i < ms.len() ==> ms[i] == (
            members@[i].0@,
            members@[i].1@,
        ))),
{
}

/// A value is read as what it is and as nothing else.
pub proof fn law_values_by_type(v: JsonView)
    ensures
        v matches JsonView::Str(s) ==> v.as_str() == Some(s),
        v.as_str() is Some == v is Str,
        v matches JsonView::Array(a) ==> v.as_array() == Some(a),
        v.as_array() is Some == v is Array,
        v matches JsonView::Object(m) ==> v.as_object() == Some(m),
        v.as_object() is Some == v is Object,
        v matches JsonView::Bool(b) ==> v.as_bool() == Some(b),
        v.as_bool() is Some == v is Bool,
        v matches JsonView::Number(n) ==> v.as_number() == Some(n),
        v.as_number() is Some == v is Number,
        v matches JsonView::Number(Num::Unsigned(n)) ==> v.as_u64() == Some(n),
        (v.as_u64() matches Some(n) ==> v == JsonView::Number(Num::Unsigned(n))),
{
}

/// A number that fits an unsigned word is one, else one that fits a signed word is
/// negative, and any other is a double.
pub proof fn law_number_readings(n: u64, m: i64, signed: Option<i64>, bits: u64)
    ensures
        json::number_of(Some(n), signed, bits) == Num::Unsigned(n),
        json::number_of(None, Some(m), bits) == Num::Negative(m),
        json::number_of(None, None, bits) == Num::Double(bits),
{
}

/// `v` names a kind and does not address the barge-in port.
pub open spec fn names_kind(v: JsonView, name: Seq<char>) -> bool {
    &&& !member_is(v, "__aux_port__"@, JsonView::Str("barge_in"@))
    &&& member_is(v, "kind"@, JsonView::Str(name))
}

/// An envelope interrupts exactly where it addresses the barge-in port, whatever else
/// it says, or is of the kind `barge_in`.
pub proof fn law_what_interrupts(v: JsonView)
    ensures
        member_is(v, "__aux_port__"@, JsonView::Str("barge_in"@)) ==> envelope::request(v)
            is BargeIn,
        names_kind(v, "barge_in"@) ==> envelope::request(v) is BargeIn,
        envelope::request(v) is BargeIn ==> member_is(
            v,
            "__aux_port__"@,
            JsonView::Str("barge_in"@),
        ) || member_is(v, "kind"@, JsonView::Str("barge_in"@)),
        member_is(v, "__aux_port__"@, JsonView::Str("barge_in"@)) <==> envelope::aux_port(v)
            == Some("barge_in"@),
{
    lemma_port(v);
    lemma_kind(v, "barge_in"@);
    lemma_kind_names();
    if envelope::request(v) is BargeIn && envelope::aux_port(v) != Some("barge_in"@) {
        assert(envelope::kind(v) == "barge_in"@);
        lemma_kind_back(v, "barge_in"@);
    }
}

proof fn lemma_kind_names()
    ensures
        "blendshapes"@ != "skeletal_pose"@,
        "blendshapes"@ != "barge_in"@,
        "skeletal_pose"@ != "barge_in"@,
        "blendshapes"@.len() == 11,
        "skeletal_pose"@.len() == 13,
        "barge_in"@.len() == 8,
        ""@.len() == 0,
{
    reveal_strlit("blendshapes");
    reveal_strlit("skeletal_pose");
    reveal_strlit("barge_in");
    reveal_strlit("");
    assert("blendshapes"@.len() == 11);
    assert("skeletal_pose"@.len() == 13);
    assert("barge_in"@.len() == 8);
}

/// A found member is the first of its name.
proof fn lemma_found(v: JsonView, key: Seq<char>)
    requires
        v.get(key) is Some,
    ensures
        member_is(v, key, v.get(key)->0),
{
    let ms = v->Object_0;
    lemma_found_in(ms, key);
}

proof fn lemma_found_in(ms: Seq<(Seq<char>, JsonView)>, key: Seq<char>)
    requires
        json::lookup(ms, key) is Some,
    ensures
        exists|k: int| #[trigger] first_at(ms, key, json::lookup(ms, key)->0, k),
    decreases ms.len(),
{
    let x = json::lookup(ms, key)->0;
    if ms[0].0 == key {
        assert(first_at(ms, key, x, 0));
    } else {
        let rest = ms.subrange(1, ms.len() as int);
        lemma_found_in(rest, key);
        let k = choose|k: int| #[trigger] first_at(rest, key, x, k);
        assert(ms[k + 1] == rest[k]);
        assert forall|j: int| 0 <= j < k + 1 implies (#[trigger] ms[j]).0 != key by {
            if j > 0 {
                assert(rest[j - 1] == ms[j]);
            }
        }
        assert(first_at(ms, key, x, k + 1));
    }
}

proof fn lemma_port(v: JsonView)
    ensures
        member_is(v, "__aux_port__"@, JsonView::Str("barge_in"@)) <==> envelope::aux_port(v)
            == Some("barge_in"@),
{
    law_members_by_name(v, "__aux_port__"@, JsonView::Str("barge_in"@));
    if envelope::aux_port(v) == Some("barge_in"@) {
        lemma_found(v, "__aux_port__"@);
    }
}

proof fn lemma_kind(v: JsonView, name: Seq<char>)
    ensures
        member_is(v, "kind"@, JsonView::Str(name)) ==> envelope::kind(v) == name,
{
    law_members_by_name(v, "kind"@, JsonView::Str(name));
}

proof fn lemma_kind_back(v: JsonView, name: Seq<char>)
    requires
        envelope::kind(v) == name,
        name.len() > 0,
    ensures
        member_is(v, "kind"@, JsonView::Str(name)),
{
    lemma_kind_names();
    if v.get("kind"@) is Some {
        lemma_found(v, "kind"@);
    }
}

/// A `blendshapes` envelope with 52 numbers and a time drives the face with exactly
/// these numbers at that time.
pub proof fn law_face_envelope(v: JsonView, a: JsonView, nums: Seq<Num>, pts: u64)
    requires
        names_kind(v, "blendshapes"@),
        member_is(v, "arkit_52"@, a),
        lists(a, nums),
        nums.len() == 52,
        member_is(v, "pts_ms"@, JsonView::Number(Num::Unsigned(pts))),
    ensures
        envelope::request(v) is Blendshapes,
        forall|f: BlendshapeFrame|
            #![trigger arkit::frame_of(v, f)]
            arkit::frame_of(v, f) <==> f.arkit_52@ == nums && f.pts_ms == pts,
{
    lemma_port(v);
    lemma_kind(v, "blendshapes"@);
    law_members_by_name(v, "arkit_52"@, a);
    law_members_by_name(v, "pts_ms"@, JsonView::Number(Num::Unsigned(pts)));
    assert(renderer::numbers(a, 52));
    assert(renderer::numbers_of(a) =~= nums);
    assert(arkit::has_frame(v));
}

/// A `blendshapes` envelope without its time, or whose weights are not a list of 52
/// numbers, asks for nothing.
pub proof fn law_broken_face_envelope(v: JsonView, a: JsonView, k: int)
    requires
        names_kind(v, "blendshapes"@),
        member_missing(v, "pts_ms"@) || member_missing(v, "arkit_52"@) || (member_is(
            v,
            "arkit_52"@,
            a,
        ) && (!(a is Array) || (a->Array_0).len() != 52 || (0 <= k < 52 && !((a->Array_0)[k]
            is Number)))),
    ensures
        envelope::request(v) is Nothing,
{
    lemma_port(v);
    lemma_kind(v, "blendshapes"@);
    law_members_by_name(v, "pts_ms"@, a);
    law_members_by_name(v, "arkit_52"@, a);
}

/// A `skeletal_pose` envelope with 22 quaternions drives the body with exactly these,
/// at the position and time that it gives, and at the origin and at zero where it
/// gives none.
pub proof fn law_body_envelope(
    v: JsonView,
    a: JsonView,
    quats: Seq<Seq<Num>>,
    root: JsonView,
    at: Seq<Num>,
    pts: u64,
)
    requires
        names_kind(v, "skeletal_pose"@),
        member_is(v, "joint_quats_xyzw"@, a),
        a is Array,
        (a->Array_0).len() == 22,
        quats.len() == 22,
        forall|i: int|
            0 <= i < 22 ==> lists((a->Array_0)[i], #[trigger] quats[i]) && quats[i].len() == 4,
        (member_is(v, "root_pos"@, root) && lists(root, at) && at.len() == 3) || (member_missing(
            v,
            "root_pos"@,
        ) && at == seq![Num::Unsigned(0), Num::Unsigned(0), Num::Unsigned(0)]),
        member_is(v, "pts_ms"@, JsonView::Number(Num::Unsigned(pts))) || (member_missing(
            v,
            "pts_ms"@,
        ) && pts == 0),
    ensures
        envelope::request(v) is Skeletal,
        forall|p: SkeletalPose|
            #![trigger renderer::pose_of(v, p)]
            renderer::pose_of(v, p) ==> {
                &&& forall|i: int| 0 <= i < 22 ==> (#[trigger] p.joint_quats@[i])@ == quats[i]
                &&& p.root_pos@ == at
                &&& p.pts_ms == pts
            },
{
    lemma_port(v);
    lemma_kind(v, "skeletal_pose"@);
    lemma_kind_names();
    law_members_by_name(v, "joint_quats_xyzw"@, a);
    law_members_by_name(v, "root_pos"@, root);
    law_members_by_name(v, "pts_ms"@, JsonView::Number(Num::Unsigned(pts)));
    assert forall|i: int| 0 <= i < 22 implies renderer::numbers(#[trigger] (a->Array_0)[i], 4)
        && renderer::numbers_of((a->Array_0)[i]) == quats[i] by {
        let row = (a->Array_0)[i];
        assert(lists(row, quats[i]));
        assert forall|k: int| 0 <= k < 4 implies (#[trigger] (row->Array_0)[k]) is Number by {
            assert((row->Array_0)[k] == JsonView::Number(quats[i][k]));
        }
        assert(renderer::numbers_of(row) =~= quats[i]);
    }
    if member_is(v, "root_pos"@, root) {
        if lists(root, at) && at.len() == 3 {
            assert(renderer::numbers(root, 3));
            assert(renderer::numbers_of(root) =~= at);
        }
    }
    assert forall|p: SkeletalPose|
        #![trigger renderer::pose_of(v, p)]
        renderer::pose_of(v, p) implies {
        &&& forall|i: int| 0 <= i < 22 ==> (#[trigger] p.joint_quats@[i])@ == quats[i]
        &&& p.root_pos@ == at
        &&& p.pts_ms == pts
    } by {
        assert forall|i: int| 0 <= i < 22 implies (#[trigger] p.joint_quats@[i])@ == quats[i] by {
            assert(renderer::numbers_of((a->Array_0)[i]) == quats[i]);
        }
    }
}

/// A `skeletal_pose` envelope without 22 rows of four numbers, or whose position is
/// not three numbers, or whose time is no natural number, asks for nothing.
pub proof fn law_broken_body_envelope(v: JsonView, a: JsonView, i: int, k: int)
    requires
        names_kind(v, "skeletal_pose"@),
        ({
            ||| member_missing(v, "joint_quats_xyzw"@)
            ||| member_is(v, "joint_quats_xyzw"@, a) && {
                ||| !(a is Array)
                ||| (a->Array_0).len() != 22
                ||| 0 <= i < 22 && {
                    let row = (a->Array_0)[i];
                    !(row is Array) || (row->Array_0).len() != 4 || (0 <= k < 4 && !((
                    row->Array_0)[k] is Number))
                }
            }
            ||| member_is(v, "root_pos"@, a) && {
                ||| !(a is Array)
                ||| (a->Array_0).len() != 3
                ||| 0 <= k < 3 && !((a->Array_0)[k] is Number)
            }
            ||| member_is(v, "pts_ms"@, a) && !(a matches JsonView::Number(Num::Unsigned(_)))
        }),
    ensures
        envelope::request(v) is Nothing,
{
    lemma_port(v);
    lemma_kind(v, "skeletal_pose"@);
    lemma_kind_names();
    law_members_by_name(v, "joint_quats_xyzw"@, a);
    law_members_by_name(v, "root_pos"@, a);
    law_members_by_name(v, "pts_ms"@, a);
    if renderer::has_pose(v) && member_is(v, "joint_quats_xyzw"@, a) && a is Array && (
    a->Array_0).len() == 22 && 0 <= i < 22 {
        assert(renderer::numbers((a->Array_0)[i], 4));
    }
}

/// An envelope of any other kind, or of none, asks for nothing.
pub proof fn law_unknown_kinds(v: JsonView, name: Seq<char>)
    requires
        !member_is(v, "__aux_port__"@, JsonView::Str("barge_in"@)),
        member_missing(v, "kind"@) || (names_kind(v, name) && name != "blendshapes"@ && name
            != "skeletal_pose"@ && name != "barge_in"@),
    ensures
        envelope::request(v) is Nothing,
{
    lemma_port(v);
    lemma_kind(v, name);
    lemma_kind_names();
    law_members_by_name(v, "kind"@, v);
}

/// The kind of an envelope decides what is read out of it.
pub proof fn law_kind_decides(v: JsonView)
    ensures
        names_kind(v, "blendshapes"@) ==> (envelope::request(v) is Blendshapes)
            == arkit::has_frame(v) && (envelope::request(v) is Nothing) == !arkit::has_frame(v),
        names_kind(v, "skeletal_pose"@) ==> (envelope::request(v) is Skeletal)
            == renderer::has_pose(v) && (envelope::request(v) is Nothing) == !renderer::has_pose(v),
{
    lemma_port(v);
    lemma_kind(v, "blendshapes"@);
    lemma_kind(v, "skeletal_pose"@);
    lemma_kind_names();
}

/// A facial frame drives the channels in their order, each under its name and with
/// what the clamp makes of its number, at the frame's time.
pub proof fn law_channels_in_order<W, C: Fn(Num) -> W>(
    pose: ArkitPose<W>,
    frame: BlendshapeFrame,
    names: Seq<String>,
    clamp: C,
    i: int,
)
    requires
        arkit::driven_by(pose, frame, names, clamp),
        0 <= i < names.len(),
    ensures
        pose.weights@.len() == names.len(),
        pose.pts_ms == frame.pts_ms,
        pose.weights@[i].0@ == names[i]@,
        call_ensures(clamp, (frame.arkit_52@[i],), pose.weights@[i].1),
{
}

/// At rest no channel is driven, every joint is unrotated and the pelvis is at the
/// origin.
pub proof fn law_rest_poses<W>(face: ArkitPose<W>, body: SkeletalPose, i: int)
    requires
        0 <= i < 22,
    ensures
        face.is_rest() <==> face.weights@.len() == 0 && face.pts_ms == 0,
        body.is_rest() ==> {
            &&& body.joint_quats@[i]@ == seq![
                Num::Unsigned(0),
                Num::Unsigned(0),
                Num::Unsigned(0),
                Num::Unsigned(1),
            ]
            &&& body.root_pos@ == seq![Num::Unsigned(0), Num::Unsigned(0), Num::Unsigned(0)]
            &&& body.pts_ms == 0
        },
{
}

/// The place of every facial channel.
pub proof fn law_channel_table()
    ensures
        arkit::channels().len() == 52,
        arkit::CHANNELS == 52,
        arkit::channels()[0] == "eyeBlinkLeft"@,
        arkit::channels()[1] == "eyeLookDownLeft"@,
        arkit::channels()[2] == "eyeLookInLeft"@,
        arkit::channels()[3] == "eyeLookOutLeft"@,
        arkit::channels()[4] == "eyeLookUpLeft"@,
        arkit::channels()[5] == "eyeSquintLeft"@,
        arkit::channels()[6] == "eyeWideLeft"@,
        arkit::channels()[7] == "eyeBlinkRight"@,
        arkit::channels()[8] == "eyeLookDownRight"@,
        arkit::channels()[9] == "eyeLookInRight"@,
        arkit::channels()[10] == "eyeLookOutRight"@,
        arkit::channels()[11] == "eyeLookUpRight"@,
        arkit::channels()[12] == "eyeSquintRight"@,
        arkit::channels()[13] == "eyeWideRight"@,
        arkit::channels()[14] == "jawForward"@,
        arkit::channels()[15] == "jawLeft"@,
        arkit::channels()[16] == "jawRight"@,
        arkit::channels()[17] == "jawOpen"@,
        arkit::channels()[18] == "mouthClose"@,
        arkit::channels()[19] == "mouthFunnel"@,
        arkit::channels()[20] == "mouthPucker"@,
        arkit::channels()[21] == "mouthLeft"@,
        arkit::channels()[22] == "mouthRight"@,
        arkit::channels()[23] == "mouthSmileLeft"@,
        arkit::channels()[24] == "mouthSmileRight"@,
        arkit::channels()[25] == "mouthFrownLeft"@,
        arkit::channels()[26] == "mouthFrownRight"@,
        arkit::channels()[27] == "mouthDimpleLeft"@,
        arkit::channels()[28] == "mouthDimpleRight"@,
        arkit::channels()[29] == "mouthStretchLeft"@,
        arkit::channels()[30] == "mouthStretchRight"@,
        arkit::channels()[31] == "mouthRollLower"@,
        arkit::channels()[32] == "mouthRollUpper"@,
        arkit::channels()[33] == "mouthShrugLower"@,
        arkit::channels()[34] == "mouthShrugUpper"@,
        arkit::channels()[35] == "mouthPressLeft"@,
        arkit::channels()[36] == "mouthPressRight"@,
        arkit::channels()[37] == "mouthLowerDownLeft"@,
        arkit::channels()[38] == "mouthLowerDownRight"@,
        arkit::channels()[39] == "mouthUpperUpLeft"@,
        arkit::channels()[40] == "mouthUpperUpRight"@,
        arkit::channels()[41] == "browDownLeft"@,
        arkit::channels()[42] == "browDownRight"@,
        arkit::channels()[43] == "browInnerUp"@,
        arkit::channels()[44] == "browOuterUpLeft"@,
        arkit::channels()[45] == "browOuterUpRight"@,
        arkit::channels()[46] == "cheekPuff"@,
        arkit::channels()[47] == "cheekSquintLeft"@,
        arkit::channels()[48] == "cheekSquintRight"@,
        arkit::channels()[49] == "noseSneerLeft"@,
        arkit::channels()[50] == "noseSneerRight"@,
        arkit::channels()[51] == "tongueOut"@,
{
}

} // verus!
