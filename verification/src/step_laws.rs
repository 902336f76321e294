//! What holds of the smaller operations, told by what goes in and what comes out.
use crate::audio::AudioBuf;
use crate::cc5_json;
use crate::cc5_json::{Cc5BreastTuning, Cc5Physics, Cc5Shape};
use crate::cc5_query;
use crate::envelope;
use crate::envelope_laws;
use crate::face;
use crate::glb;
use crate::grab;
use crate::grab::{FsmTransition, GrabFsms, GrabState};
use crate::grab_laws;
use crate::json;
use crate::json::{Json, JsonView, Num};
use crate::list;
use crate::morph;
use crate::morph::Part;
use crate::morph_map;
use crate::morph_map::ArkitMap;
use crate::node;
use crate::node::{CcRenderNode, Emission, ReadyStep, RendererCmd};
use crate::node_laws;
use crate::overlay;
use crate::path_laws;
use crate::paths;
use crate::pattern;
use crate::picture_laws;
use crate::props::PropRegistry;
use crate::renderer;
use crate::renderer::{GrabOrRelease, Hand, RenderedFrame};
use crate::retarget_laws;
use crate::scene_laws;
use crate::secondary;
use crate::secondary_laws;
use crate::sidecar;
use crate::sidecar::SidecarRaw;
use crate::skeleton;
use crate::skeleton_laws;
use crate::text;
use vstd::prelude::*;

verus! {

/// Readiness is announced in the first step that finds it.
pub proof fn law_readiness_step<S: Copy>(node: &mut CcRenderNode<S>, ready: bool, r: ReadyStep)
    requires
        call_ensures(CcRenderNode::<S>::poll_ready, (node, ready), r),
    ensures
        !ready ==> r == ReadyStep::Discard && final(node)@ == old(node)@,
        ready && !old(node)@.announced ==> r == ReadyStep::Announce && final(node)@.announced,
        ready && old(node)@.announced ==> r == ReadyStep::Proceed && final(node)@ == old(node)@,
        final(node)@.audio == old(node)@.audio,
        final(node)@.frames == old(node)@.frames,
{
    node_laws::law_ready_report(old(node)@);
}

/// A tick plans all pictures of a live node whose queue holds speech, whatever the time
/// since the last packet, and none of a node without audio or without a visible face.
pub proof fn law_planning_step<S: Copy>(
    node: &mut CcRenderNode<S>,
    frames: Vec<RenderedFrame>,
    queue_depth: usize,
    now: u64,
    plan: Vec<RenderedFrame>,
)
    requires
        call_ensures(CcRenderNode::<S>::begin_tick, (node, frames, queue_depth, now), plan),
        !old(node)@.realtime,
    ensures
        ({
            let st = old(node)@;
            let visible = st.first_bs matches Some(t) && now >= t + 50_000_000;
            let queued = st.audio.sample_rate > 0 && st.audio.samples.len() > 0;
            let spoke = st.last_audio matches Some(t) && now < t + 500_000_000;
            let moved = st.last_skel matches Some(t) && now < t + 500_000_000;
            let live = queued || spoke || moved || queue_depth > 0;
            &&& st.last_audio is Some && visible && live ==> plan@ == frames@
            &&& st.last_audio is None || !visible || !live ==> plan@.len() == 0
        }),
        final(node)@.frames == old(node)@.frames,
        final(node)@.audio.emitted == old(node)@.audio.emitted,
{
    node_laws::law_paired_tick_plans_while_live(old(node)@, frames@, queue_depth as nat, now);
}

/// One emission: the picture under the next number, with the oldest queued samples; or
/// nothing where no sound can be paired with it.
pub proof fn law_emission_step<S: Copy>(
    node: &mut CcRenderNode<S>,
    frame: RenderedFrame,
    r: Option<Emission<S>>,
    j: int,
)
    requires
        call_ensures(CcRenderNode::<S>::emit, (node, frame), r),
        old(node)@.wf(),
    ensures
        ({
            let st = old(node)@;
            let (f, rate) = (st.frames, st.audio.sample_rate);
            let n = ((f + 1) * rate) / st.fps - (f * rate) / st.fps;
            &&& st.realtime ==> r is Some
            &&& !st.realtime ==> r is Some == (rate > 0 && n > 0)
            &&& r is None ==> final(node)@ == st
            &&& r matches Some(e) ==> {
                &&& e.video.pixels@ == frame.pixels@
                &&& e.video.frame_number == f
                &&& e.video.timestamp_us == (f * 1_000_000) / st.fps
                &&& final(node)@.frames == f + 1
                &&& e.audio is None == st.realtime
                &&& e.audio matches Some(a) ==> {
                    &&& a.samples@.len() == n
                    &&& 0 <= j < n && j < st.audio.samples.len() ==> a.samples@[j]
                        == st.audio.samples[j]
                    &&& st.audio.samples.len() <= j < n ==> a.samples@[j]
                        == old(node).spec_silence()
                }
            }
        }),
{
    let st = old(node)@;
    node::lemma_samples_mono(st.frames, st.frames + 1, st.audio.sample_rate, st.fps);
    if r is Some {
        node_laws::law_emission_carries_its_sound(st, frame, old(node).spec_silence(), r->0);
        node_laws::law_emission_moves_one_picture_on(st);
    }
}

/// A barge-in pushes the rest face, then the end of the body poses.
pub proof fn law_barge_in_step<S: Copy, W>(
    node: &mut CcRenderNode<S>,
    cmds: Vec<RendererCmd<W>>,
)
    requires
        call_ensures(CcRenderNode::<S>::barge_in::<W>, (node,), cmds),
    ensures
        cmds@.len() == 2,
        (cmds@[0] matches RendererCmd::Pose(p) && p.weights@.len() == 0),
        (cmds@[1] matches RendererCmd::Skeletal(s) && s is None),
        final(node)@.audio.samples.len() == 0,
        final(node)@.anchor is None,
        final(node)@.frames == old(node)@.frames,
        final(node)@.audio.emitted == old(node)@.audio.emitted,
{
}

/// One step of a hand: its command first, then reach, then time.
pub proof fn law_hand_step<F: Copy>(
    state: &GrabState<F>,
    reached: bool,
    dt: u64,
    cmd: Option<&GrabOrRelease<F>>,
    hand: Hand,
    timeout: u64,
    r: FsmTransition<F>,
)
    requires
        call_ensures(grab::step_fsm::<F>, (state, reached, dt, cmd, hand, timeout), r),
    ensures
        cmd matches Some(GrabOrRelease::Grab(g)) ==> (g.hand == hand ==> (
        r matches FsmTransition::StartPursuit { target, palm_override } && target@ == g.target@
            && palm_override == g.palm_offset_override)),
        cmd matches Some(GrabOrRelease::Release(h)) ==> (*h == hand ==> r is DetachIdle),
        (cmd is None || grab_laws::addressee(*cmd->0) != hand) ==> match state {
            GrabState::Pursuing { target, elapsed_ns, .. } => {
                &&& reached ==> (r matches FsmTransition::Attach { target: t } && t@ == target@)
                &&& !reached && *elapsed_ns + dt >= timeout ==> (
                r matches FsmTransition::Failed { reason, target: t } && reason@ == "timeout"@
                    && t@ == target@)
                &&& !reached && *elapsed_ns + dt < timeout ==> r is NoChange
            },
            _ => r is NoChange,
        },
{
    assert(r@ is StartPursuit == r is StartPursuit);
    assert(r@ is Attach == r is Attach);
    assert(r@ is Failed == r is Failed);
}

/// The hand that holds a prop is told, the left one where both do.
pub proof fn law_holding_hand<F>(fsms: &GrabFsms<F>, target: &str, r: Option<Hand>)
    requires
        call_ensures(grab::attached_hand_for::<F>, (fsms, target), r),
    ensures
        ({
            let left = fsms.left matches GrabState::Attached { target: t, .. } && t@ == target@;
            let right = fsms.right matches GrabState::Attached { target: t, .. } && t@ == target@;
            &&& left ==> r == Some(Hand::Left)
            &&& !left && right ==> r == Some(Hand::Right)
            &&& !left && !right ==> r is None
        }),
{
    grab_laws::law_holder(*fsms, target@);
}

/// A listed prop is found, an unlisted one is not; failures are told of.
pub proof fn law_prop_questions(
    list: &PropRegistry,
    id: &str,
    e: Option<u64>,
    n: usize,
    failed: bool,
)
    requires
        call_ensures(PropRegistry::get, (list, id), e),
        call_ensures(PropRegistry::len, (list,), n),
        call_ensures(PropRegistry::has_failures, (list,), failed),
    ensures
        list@.by_id.dom().contains(id@) ==> e == Some(list@.by_id[id@]),
        !list@.by_id.dom().contains(id@) ==> e is None,
        n == list@.by_id.dom().len(),
        failed == (list@.failures.len() > 0),
{
}

/// What a sample queue tells of itself, and a new one holds nothing.
pub proof fn law_queue_questions<S: Copy>(
    q: &AudioBuf<S>,
    fresh: AudioBuf<S>,
    rate: u32,
    len: usize,
    empty: bool,
    out: u64,
)
    requires
        call_ensures(AudioBuf::<S>::new, (), fresh),
        call_ensures(AudioBuf::<S>::sample_rate, (q,), rate),
        call_ensures(AudioBuf::<S>::len, (q,), len),
        call_ensures(AudioBuf::<S>::is_empty, (q,), empty),
        call_ensures(AudioBuf::<S>::samples_emitted, (q,), out),
    ensures
        fresh@.samples.len() == 0 && fresh@.sample_rate == 0 && fresh@.emitted == 0,
        rate == q@.sample_rate,
        len == q@.samples.len(),
        empty == (q@.samples.len() == 0),
        out == q@.emitted,
{
}

/// Texts are the same where their characters are; a name in any case is compared in
/// lower case.
pub proof fn law_text_comparisons(
    a: &str,
    b: &str,
    same: bool,
    lower: bool,
    chars: Vec<char>,
    c: char,
    space: bool,
    small: char,
)
    requires
        call_ensures(text::same, (a, b), same),
        call_ensures(text::lower_is, (a, b), lower),
        call_ensures(text::chars_of, (a,), chars),
        call_ensures(text::space, (c,), space),
        call_ensures(text::lower, (c,), small),
    ensures
        same == (a@ == b@),
        lower == (text::ascii_lower(a@) == b@),
        chars@ == a@,
        c == ' ' || c == '\t' || c == '\n' || c == '\r' ==> space,
        0x21 <= c as u32 <= 0x7e ==> !space,
        65 <= c as u32 <= 90 ==> small as u32 == c as u32 + 32,
        !(65 <= c as u32 <= 90) ==> small == c,
{
}

/// A reversed list has the same elements, last first.
pub proof fn law_reversed<T>(v: Vec<T>, r: Vec<T>, i: int)
    requires
        call_ensures(list::reversed::<T>, (v,), r),
    ensures
        r@.len() == v@.len(),
        0 <= i < v@.len() ==> r@[i] == v@[v@.len() - 1 - i],
{
}

/// Documents are parsed as the parser reads them, and read by name and type.
pub proof fn law_document_questions(
    source: &str,
    doc: Result<Json, serde_json::Error>,
    v: &Json,
    key: &str,
    x: Option<&Json>,
    s: Option<&str>,
    n: Option<Num>,
    u: Option<u64>,
    b: Option<bool>,
)
    requires
        call_ensures(Json::parse, (source,), doc),
        call_ensures(Json::get, (v, key), x),
        call_ensures(Json::as_str, (v,), s),
        call_ensures(Json::as_number, (v,), n),
        call_ensures(Json::as_u64, (v,), u),
        call_ensures(Json::as_bool, (v,), b),
    ensures
        doc is Ok == json::parsed(source@) is Some,
        doc matches Ok(d) ==> json::parsed(source@) == Some(d@),
        envelope_laws::member_missing(v@, key@) ==> x is None,
        x matches Some(y) ==> v@.get(key@) == Some(y@),
        x is None ==> envelope_laws::member_missing(v@, key@),
        v@ matches JsonView::Str(t) ==> (s matches Some(w) && w@ == t),
        !(v@ is Str) ==> s is None,
        v@ matches JsonView::Number(m) ==> n == Some(m),
        !(v@ is Number) ==> n is None,
        v@ matches JsonView::Number(Num::Unsigned(m)) ==> u == Some(m),
        v@ matches JsonView::Bool(c) ==> b == Some(c),
        !(v@ is Bool) ==> b is None,
{
    envelope_laws::law_members_by_name(v@, key@, v@);
}

/// An envelope is asked whether it addresses the barge-in port.
pub proof fn law_barge_in_port(v: &Json, r: bool)
    requires
        call_ensures(envelope::is_barge_in_port, (v,), r),
    ensures
        r == envelope_laws::member_is(v@, "__aux_port__"@, JsonView::Str("barge_in"@)),
{
    envelope_laws::law_what_interrupts(v@);
}

/// Records of the data files are read as they stand.
pub proof fn law_records_are_read(
    v: &Json,
    shape: Option<Cc5Shape>,
    tuning: Option<Cc5BreastTuning>,
    physics: Cc5Physics,
    side: Option<SidecarRaw>,
    map: Option<ArkitMap>,
    key: &str,
    at: usize,
    field: Option<&Json>,
    three: Option<[Num; 3]>,
    four: Option<[Num; 4]>,
)
    requires
        call_ensures(cc5_json::read_shape, (v,), shape),
        call_ensures(cc5_json::read_tuning, (v,), tuning),
        call_ensures(cc5_json::read_physics, (v,), physics),
        call_ensures(sidecar::read_sidecar, (v,), side),
        call_ensures(morph_map::read_map, (v,), map),
        call_ensures(cc5_json::read_field, (v, key, at), field),
        call_ensures(renderer::three_numbers, (v,), three),
        call_ensures(renderer::four_numbers, (v,), four),
    ensures
        shape is Some == cc5_json::shape_of(v@) is Some,
        shape matches Some(s) ==> cc5_json::shape_of(v@) == Some(s@),
        tuning == cc5_json::tuning_of(v@),
        physics@ == cc5_json::physics_of(v@),
        side is Some == sidecar::sidecar_of(v@) is Some,
        side matches Some(s) ==> sidecar::sidecar_of(v@) == Some(s@),
        map is Some == morph_map::map_of(v@) is Some,
        map matches Some(m) ==> morph_map::map_of(v@) == Some(m@),
        field is Some == cc5_json::field(v@, key@, at as nat) is Some,
        field matches Some(x) ==> cc5_json::field(v@, key@, at as nat) == Some(x@),
        three matches Some(a) ==> envelope_laws::lists(v@, a@),
        four matches Some(a) ==> envelope_laws::lists(v@, a@),
{
    if three is Some {
        let a = (three->0)@;
        assert(forall|k: int| 0 <= k < 3 ==> a[k] == (#[trigger] (v@->Array_0)[k])->Number_0);
    }
    if four is Some {
        let a = (four->0)@;
        assert(forall|k: int| 0 <= k < 4 ==> a[k] == (#[trigger] (v@->Array_0)[k])->Number_0);
    }
}

/// A lower-case name is that of a body surface or of a garment by what it contains.
pub proof fn law_name_questions(lower: &str, body: bool, garment: bool)
    requires
        call_ensures(cc5_query::is_body_name, (lower,), body),
        call_ensures(cc5_query::is_garment_name, (lower,), garment),
    ensures
        body == (text::contains(lower@, "body"@) || text::contains(lower@, "skin"@)
            || text::contains(lower@, "torso"@)),
        garment == (text::contains(lower@, "sweater"@) || text::contains(lower@, "shirt"@)
            || text::contains(lower@, "pants"@) || text::contains(lower@, "dress"@)
            || text::contains(lower@, "cloth"@)),
{
}

/// The tongue's three bones share its turn.
pub proof fn law_tongue_is_shared(a: u8, b: u8, c: u8)
    requires
        call_ensures(face::tongue_share, (0usize,), a),
        call_ensures(face::tongue_share, (1usize,), b),
        call_ensures(face::tongue_share, (2usize,), c),
    ensures
        a == 50 && b == 35 && c == 15,
{
}

/// Names and directories are put together and taken apart again.
pub proof fn law_path_operations(
    name: &str,
    stem: String,
    dir: &str,
    joined: String,
    base: Seq<char>,
    ext: Seq<char>,
)
    requires
        call_ensures(paths::file_stem, (name,), stem),
        call_ensures(paths::join, (dir, name), joined),
        forall|i: int| 0 <= i < ext.len() ==> #[trigger] ext[i] != '.',
    ensures
        name@ == base.push('.') + ext && base.len() > 0 ==> stem@ == base,
        name@ == ext ==> stem@ == ext,
        dir@.len() == 0 ==> joined@ == name@,
        dir@.len() > 0 && dir@.last() != '/' ==> joined@ == path_laws::beneath(dir@, name@),
        dir@.len() > 0 && dir@.last() == '/' ==> joined@ == dir@ + name@,
{
    path_laws::law_stem_is_the_base(base, ext);
    path_laws::law_joined_with_one_separator(dir@, name@);
    if dir@.len() == 0 {
        assert(dir@ + name@ =~= name@);
    }
}

/// Environment maps are sought at these places, in this order.
pub proof fn law_envmap_order(
    setting: &str,
    cwd: &str,
    dir: &str,
    r: Vec<String>,
    k: int,
)
    requires
        call_ensures(paths::envmap_candidates, (Some(setting), Some(cwd), dir), r),
        0 <= k < paths::upwards(cwd@).len(),
    ensures
        r@.len() == paths::upwards(cwd@).len() + 2,
        r@[0]@ == setting@,
        r@[1 + k]@ == paths::joined(
            paths::joined(paths::upwards(cwd@)[k], "avatars"@),
            "env"@,
        ),
        r@[r@.len() - 1]@ == paths::joined(dir@, "env"@),
{
    path_laws::law_where_environment_maps_are_sought(setting@, cwd@, dir@, k);
    let all = sidecar::strings_view(r@);
    assert(all.len() == r@.len());
    assert(all[0] == r@[0]@ && all[1 + k] == r@[1 + k]@);
    assert(all[r@.len() - 1] == r@[r@.len() - 1]@);
}

/// The materials of a document are named in order.
pub proof fn law_materials_are_named(
    root: &Json,
    names: Vec<String>,
    items: Seq<JsonView>,
    i: int,
    name: Seq<char>,
)
    requires
        call_ensures(glb::material_names, (root,), names),
        envelope_laws::member_is(root@, "materials"@, JsonView::Array(items)),
    ensures
        names@.len() == items.len(),
        0 <= i < items.len() && envelope_laws::member_is(
            items[i],
            "name"@,
            JsonView::Str(name),
        ) ==> names@[i]@ == name,
{
    picture_laws::law_material_names(root@, items, i, name, root@);
    let all = sidecar::strings_view(names@);
    assert(all.len() == names@.len());
    assert(0 <= i < names@.len() ==> all[i] == names@[i]@);
}

/// A name matches a list of compiled patterns when one of them finds a match, and a list
/// compiles to the patterns that can be compiled, in order.
pub proof fn law_patterns_are_matched(
    patterns: &Vec<regex::Regex>,
    name: &str,
    r: bool,
    texts: &Vec<String>,
    compiled: Vec<regex::Regex>,
    i: int,
)
    requires
        call_ensures(pattern::any_match, (patterns, name), r),
        call_ensures(pattern::compile_all, (texts,), compiled),
    ensures
        0 <= i < patterns@.len() && pattern::matched_by(patterns@[i]).contains(name@) ==> r,
        patterns@.len() == 0 ==> !r,
        0 <= i < texts@.len() && secondary_laws::finds(texts@[i]@, name@) ==> pattern::hit(
            pattern::all_matched(compiled@),
            name@,
        ),
{
    let langs = pattern::all_matched(patterns@);
    if 0 <= i < patterns@.len() {
        assert(langs[i] == pattern::matched_by(patterns@[i]));
    }
    let all = sidecar::strings_view(texts@);
    secondary_laws::law_one_match_is_enough(all, name@);
    if 0 <= i < texts@.len() {
        assert(all[i] == texts@[i]@);
    }
}

/// Bones are detected in order, each that a pattern finds and no other.
pub proof fn law_bones_are_detected(
    bones: &Vec<(u64, String)>,
    patterns: &Vec<regex::Regex>,
    r: Vec<(u64, String)>,
    k: int,
    i: int,
)
    requires
        call_ensures(secondary::detect_chains, (bones, patterns), r),
        0 <= k < bones@.len(),
        0 <= i < patterns@.len(),
        pattern::matched_by(patterns@[i]).contains(bones@[k].1@),
    ensures
        exists|j: int|
            0 <= j < r@.len() && (#[trigger] r@[j]).0 == bones@[k].0 && r@[j].1@ == bones@[k].1@,
{
    let all = secondary::named(bones@);
    let langs = pattern::all_matched(patterns@);
    assert(langs[i] == pattern::matched_by(patterns@[i]));
    assert(all[k] == (bones@[k].0, bones@[k].1@));
    secondary::law_matches_detected(all, langs, k);
    let found = secondary::named(r@);
    let j = choose|j: int| 0 <= j < found.len() && found[j] == all[k];
    assert(found[j] == (r@[j].0, r@[j].1@));
}

/// Entities are found by name, the last or the first of those that have it.
pub proof fn law_name_searches(
    named: &Vec<(u64, String)>,
    name: &str,
    last: Option<u64>,
    first: Option<u64>,
    k: int,
)
    requires
        call_ensures(skeleton::find_last, (named, name), last),
        call_ensures(skeleton::find_first, (named, name), first),
    ensures
        skeleton_laws::last_of(named@, name@, k) ==> last == Some(named@[k].0),
        skeleton_laws::first_of(named@, name@, k) ==> first == Some(named@[k].0),
        skeleton_laws::unnamed(named@, name@) ==> last is None && first is None,
{
    skeleton_laws::law_entities_by_name(named@, name@, k);
}

/// The lines of a skeleton of which only a joint and the one above it are known are the
/// one between the two.
pub proof fn law_single_line<P: Copy>(at: &[Option<P>; 22], r: Vec<(P, P)>, i: int)
    requires
        call_ensures(overlay::joint_lines::<P>, (at,), r),
        1 <= i < 22,
        forall|k: int|
            0 <= k < 22 && k != i && k != retarget_laws::joint_above(i) ==> (
            #[trigger] at@[k]) is None,
        at@[i] is Some,
        at@[retarget_laws::joint_above(i)] is Some,
    ensures
        r@ == seq![(at@[retarget_laws::joint_above(i)]->0, at@[i]->0)],
{
    lemma_lines(at@, i, 22);
}

proof fn lemma_lines<P>(at: Seq<Option<P>>, i: int, n: nat)
    requires
        at.len() == 22,
        n <= 22,
        1 <= i < 22,
        forall|k: int|
            0 <= k < 22 && k != i && k != retarget_laws::joint_above(i) ==> (
            #[trigger] at[k]) is None,
        at[i] is Some,
        at[retarget_laws::joint_above(i)] is Some,
    ensures
        n <= i ==> overlay::lines_of(at, n).len() == 0,
        n > i ==> overlay::lines_of(at, n) == seq![
            (at[retarget_laws::joint_above(i)]->0, at[i]->0),
        ],
    decreases n,
{
    if n > 0 {
        let k = (n - 1) as nat;
        lemma_lines(at, i, k);
        scene_laws::law_skeleton_lines(at, k);
        if k != i {
            assert(k == 0 || at[k as int] is None || at[retarget_laws::joint_above(k as int)]
                is None);
        } else {
            assert(overlay::lines_of(at, n) =~= seq![
                (at[retarget_laws::joint_above(i)]->0, at[i]->0),
            ]);
        }
    }
}

/// Blending one contribution mixes it into its target and leaves the others at zero.
pub proof fn law_single_contribution<W: Copy, M: Fn(W, W, Num) -> W>(
    n: usize,
    zero: W,
    parts: &Vec<Part<W>>,
    mix: &M,
    r: Vec<W>,
    m: spec_fn(W, W, Num) -> W,
    i: int,
)
    requires
        call_ensures(morph::blend::<W, M>, (n, zero, parts, mix), r),
        forall|a: W, b: W, f: Num, o: W| #[trigger]
            call_ensures(*mix, (a, b, f), o) ==> o == m(a, b, f),
        parts@.len() == 1,
        parts@[0].at < n,
        0 <= i < n,
    ensures
        r@.len() == n,
        i == parts@[0].at ==> r@[i] == m(zero, parts@[0].weight, parts@[0].factor),
        i != parts@[0].at ==> r@[i] == zero,
{
    let args = (n, zero, parts, mix);
    assert(args.0 == n && args.1 == zero && args.2 == parts && args.3 == mix);
    assert(morph::mixes(*mix, m));
    reveal_with_fuel(morph::blended, 2);
}

} // verus!
