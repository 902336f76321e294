//! What holds of the node's operations, told by what goes in and what comes out.
use crate::arkit;
use crate::audio;
use crate::envelope;
use crate::envelope_laws;
use crate::json::{Json, JsonView, Num};
use crate::node;
use crate::node::{CcRenderConfig, CcRenderNode, NodeState, Packet, RendererCmd, TickOutput};
use crate::node_laws;
use crate::renderer;
use crate::renderer::RenderedFrame;
use vstd::prelude::*;

verus! {

/// Samples that belong to the first `frames` pictures.
pub open spec fn clocked<S>(st: NodeState<S>, frames: nat) -> int {
    ((frames * st.audio.sample_rate) / st.fps) as int
}

/// Samples that a tick passes over before its first picture: those before the pose
/// that this picture shows, where the node has no anchor.
pub open spec fn passed_over<S>(st: NodeState<S>, pts_ms: u64) -> int {
    if st.anchor is None {
        (pts_ms * st.audio.sample_rate) / 1000
    } else {
        0
    }
}

/// A paired tick of a ready node with visible facial frames and queued speech emits
/// every rendered picture, numbered on from the last, and with each picture the
/// stretch of the queued speech that the clock gives to it: the sample that is heard
/// at a place is the one queued at that place, and silence where the queue has ended.
/// How long ago the last packet came does not matter.
pub proof fn law_tick_pairs_pictures_with_speech<S: Copy>(
    node: &mut CcRenderNode<S>,
    frames: Vec<RenderedFrame>,
    queue_depth: usize,
    now: u64,
    out: TickOutput<S>,
    i: int,
    j: int,
)
    requires
        call_ensures(CcRenderNode::<S>::tick, (node, true, frames, queue_depth, now), out),
        old(node)@.wf(),
        !old(node)@.realtime,
        old(node)@.last_audio is Some,
        old(node)@.first_bs matches Some(t) && now >= t + 50_000_000,
        old(node)@.audio.sample_rate >= old(node)@.fps,
        old(node)@.audio.samples.len() > 0,
        0 <= i < frames@.len(),
        (frames@[0].pts_ms * old(node)@.audio.sample_rate) / 1000 <= usize::MAX,
    ensures
        out.emissions@.len() == frames@.len(),
        ({
            let st = old(node)@;
            let e = out.emissions@[i];
            let f = st.frames + i as nat;
            let start = passed_over(st, frames@[0].pts_ms) + clocked(st, f) - clocked(
                st,
                st.frames,
            );
            &&& e.video.pixels@ == frames@[i].pixels@
            &&& e.video.width == frames@[i].width
            &&& e.video.height == frames@[i].height
            &&& e.video.frame_number == f
            &&& e.video.timestamp_us == (f * 1_000_000) / st.fps
            &&& e.video.stream_id@ == st.stream_id
            &&& e.audio matches Some(a) && {
                &&& a.samples@.len() == clocked(st, f + 1) - clocked(st, f)
                &&& a.samples@.len() >= 1
                &&& a.sample_rate == st.audio.sample_rate
                &&& a.channels == 1
                &&& a.timestamp_us == (clocked(st, f) * 1_000_000) / st.audio.sample_rate as int
                &&& 0 <= j < a.samples@.len() && start + j < st.audio.samples.len()
                    ==> a.samples@[j] == st.audio.samples[start + j]
                &&& 0 <= j < a.samples@.len() && start + j >= st.audio.samples.len()
                    ==> a.samples@[j] == old(node).spec_silence()
            }
        }),
        final(node)@.frames == old(node)@.frames + frames@.len(),
{
    let st = old(node)@;
    let silence = old(node).spec_silence();
    let polled = node::polled(st, true).1;
    let (plan, start) = node::planned(polled, frames@, queue_depth as nat, now);
    node_laws::law_paired_tick_plans_while_live(polled, frames@, queue_depth as nat, now);
    node_laws::law_sound_starts_with_the_pose(polled, frames@, queue_depth as nat, now);
    node_laws::law_queued_speech_plays_out(st, frames@, queue_depth as nat, now);
    assert(start.wf());
    node_laws::law_fast_sound_never_stops_a_tick(start, plan.len());
    let here = start.advanced(i as nat);
    node_laws::law_advanced_stays_valid(start, i as nat);
    node_laws::law_sound_is_gapless(start, i as nat, silence);
    node_laws::law_emission_carries_its_sound(here, plan[i], silence, out.emissions@[i]);
    node_laws::law_fast_sound_never_stops_a_tick(here, 0);
    node::lemma_samples_mono(st.frames, st.frames + i as nat, st.audio.sample_rate, st.fps);
    let lead = passed_over(st, frames@[0].pts_ms);
    assert(lead >= 0) by (nonlinear_arith)
        requires
            lead == (frames@[0].pts_ms * st.audio.sample_rate) / 1000 || lead == 0,
            frames@[0].pts_ms >= 0,
            st.audio.sample_rate >= 0,
    ;
    let q = st.audio.samples;
    let rest = start.audio.samples;
    assert(forall|k: int|
        0 <= k && lead + k < q.len() ==> k < rest.len() && #[trigger] rest[k] == q[lead + k]);
    assert(rest.len() == (if lead >= q.len() {
        0
    } else {
        q.len() - lead
    }));
}

/// A tick that does not find the renderer ready emits, announces and changes nothing.
pub proof fn law_tick_before_ready<S: Copy>(
    node: &mut CcRenderNode<S>,
    frames: Vec<RenderedFrame>,
    queue_depth: usize,
    now: u64,
    out: TickOutput<S>,
)
    requires
        call_ensures(CcRenderNode::<S>::tick, (node, false, frames, queue_depth, now), out),
    ensures
        out.emissions@.len() == 0,
        !out.announce,
        final(node)@ == old(node)@,
{
}

/// The first tick that finds the renderer ready says so, and no later one does.
pub proof fn law_tick_announces_once<S: Copy>(
    node: &mut CcRenderNode<S>,
    frames: Vec<RenderedFrame>,
    queue_depth: usize,
    now: u64,
    out: TickOutput<S>,
)
    requires
        call_ensures(CcRenderNode::<S>::tick, (node, true, frames, queue_depth, now), out),
        old(node)@.wf(),
    ensures
        out.announce == !old(node)@.announced,
        final(node)@.announced,
{
    let (plan, start) = node::planned(
        node::polled(old(node)@, true).1,
        frames@,
        queue_depth as nat,
        now,
    );
    node_laws::law_emissions_keep_the_rest(start, plan.len());
}

/// A paired tick emits nothing before audio and a facial frame have come, while the
/// first facial frame is younger than 50 ms, and once the queue is empty, both inputs
/// have been quiet for half a second and no body pose waits.
pub proof fn law_tick_is_silent<S: Copy>(
    node: &mut CcRenderNode<S>,
    frames: Vec<RenderedFrame>,
    queue_depth: usize,
    now: u64,
    out: TickOutput<S>,
)
    requires
        call_ensures(CcRenderNode::<S>::tick, (node, true, frames, queue_depth, now), out),
        old(node)@.wf(),
        !old(node)@.realtime,
        ({
            let st = old(node)@;
            ||| st.last_audio is None
            ||| st.first_bs is None
            ||| st.first_bs matches Some(t) && now < t + 50_000_000
            ||| {
                &&& st.audio.samples.len() == 0
                &&& st.last_audio matches Some(t) ==> now >= t + 500_000_000
                &&& st.last_skel matches Some(t) ==> now >= t + 500_000_000
                &&& queue_depth == 0
            }
        }),
    ensures
        out.emissions@.len() == 0,
        final(node)@.audio == old(node)@.audio,
        final(node)@.frames == old(node)@.frames,
        final(node)@.anchor == old(node)@.anchor,
{
    let polled = node::polled(old(node)@, true).1;
    node_laws::law_paired_tick_plans_while_live(polled, frames@, queue_depth as nat, now);
    let (plan, start) = node::planned(polled, frames@, queue_depth as nat, now);
    assert(plan.len() == 0);
}

/// Without pairing a tick emits the latest picture alone, with no sound, and leaves the
/// queue of samples as it is.
pub proof fn law_tick_without_pairing<S: Copy>(
    node: &mut CcRenderNode<S>,
    frames: Vec<RenderedFrame>,
    queue_depth: usize,
    now: u64,
    out: TickOutput<S>,
)
    requires
        call_ensures(CcRenderNode::<S>::tick, (node, true, frames, queue_depth, now), out),
        old(node)@.wf(),
        old(node)@.realtime,
        frames@.len() >= 1,
        old(node)@.stale + frames@.len() - 1 <= u64::MAX,
    ensures
        out.emissions@.len() == 1,
        out.emissions@[0].audio is None,
        out.emissions@[0].video.pixels@ == frames@[frames@.len() - 1].pixels@,
        out.emissions@[0].video.frame_number == old(node)@.frames,
        out.emissions@[0].video.timestamp_us == (old(node)@.frames * 1_000_000) / old(node)@.fps,
        final(node)@.audio == old(node)@.audio,
        final(node)@.frames == old(node)@.frames + 1,
        final(node)@.stale == old(node)@.stale + frames@.len() - 1,
{
    let polled = node::polled(old(node)@, true).1;
    let (plan, start) = node::planned(polled, frames@, queue_depth as nat, now);
    node_laws::law_realtime_counts_stale(polled, frames@, queue_depth as nat, now);
    node_laws::law_tick_stops_only_for_lack_of_sound(start, plan.len());
    reveal_with_fuel(NodeState::after, 2);
    node_laws::law_emission_carries_its_sound(
        start,
        plan[0],
        old(node).spec_silence(),
        out.emissions@[0],
    );
    assert(start.advanced(0) == start);
}

/// A mono packet is queued as it is behind what is queued, and its arrival is noted.
pub proof fn law_speech_is_queued<S: Copy, W, M: Fn(&[S]) -> S, C: Fn(Num) -> W>(
    node: &mut CcRenderNode<S>,
    samples: Vec<S>,
    rate: u32,
    now: u64,
    names: &Vec<String>,
    mix: M,
    clamp: &C,
    cmds: Vec<RendererCmd<W>>,
)
    requires
        call_ensures(
            CcRenderNode::<S>::process_streaming::<W, M, C>,
            (
                node,
                &(Packet::Audio { samples, sample_rate: rate, channels: 1 }),
                now,
                names,
                mix,
                clamp,
            ),
            cmds,
        ),
    ensures
        cmds@.len() == 0,
        final(node)@.audio.samples == old(node)@.audio.samples + samples@,
        old(node)@.audio.sample_rate == 0 ==> final(node)@.audio.sample_rate == rate,
        old(node)@.audio.sample_rate != 0 ==> final(node)@.audio.sample_rate
            == old(node)@.audio.sample_rate,
        final(node)@.last_audio == Some(now),
        final(node)@.first_bs == old(node)@.first_bs,
        final(node)@.frames == old(node)@.frames,
        final(node)@.audio.emitted == old(node)@.audio.emitted,
{
    node_laws::law_packet_is_queued_behind(old(node)@, samples@, rate as nat, now);
}

/// A facial envelope pushes one pose, which drives each channel with what the clamp
/// makes of its number at the envelope's time, and starts the grace where it is the
/// first.
pub proof fn law_face_is_pushed<S: Copy, W, M: Fn(&[S]) -> S, C: Fn(Num) -> W>(
    node: &mut CcRenderNode<S>,
    v: Json,
    a: JsonView,
    nums: Seq<Num>,
    pts: u64,
    now: u64,
    names: &Vec<String>,
    mix: M,
    clamp: &C,
    cmds: Vec<RendererCmd<W>>,
    i: int,
)
    requires
        call_ensures(
            CcRenderNode::<S>::process_streaming::<W, M, C>,
            (node, &Packet::<S>::Json(v), now, names, mix, clamp),
            cmds,
        ),
        names@.len() == 52,
        envelope_laws::names_kind(v@, "blendshapes"@),
        envelope_laws::member_is(v@, "arkit_52"@, a),
        envelope_laws::lists(a, nums),
        nums.len() == 52,
        envelope_laws::member_is(v@, "pts_ms"@, JsonView::Number(Num::Unsigned(pts))),
        0 <= i < 52,
    ensures
        cmds@.len() == 1,
        (cmds@[0] matches RendererCmd::Pose(p) && {
            &&& p.pts_ms == pts
            &&& p.weights@.len() == 52
            &&& p.weights@[i].0@ == names@[i]@
            &&& call_ensures(*clamp, (nums[i],), p.weights@[i].1)
        }),
        old(node)@.first_bs is None ==> final(node)@.first_bs == Some(now),
        old(node)@.first_bs is Some ==> final(node)@.first_bs == old(node)@.first_bs,
        final(node)@.audio == old(node)@.audio,
        final(node)@.last_audio == old(node)@.last_audio,
{
    envelope_laws::law_face_envelope(v@, a, nums, pts);
    node_laws::law_first_face_and_last_body(old(node)@, now, now);
    assert(envelope::request(v@) is Blendshapes);
    let pose = cmds@[0]->Pose_0;
    let f = choose|f: arkit::BlendshapeFrame| #[trigger]
        arkit::frame_of(v@, f) && arkit::driven_by(pose, f, names@, *clamp);
    assert(arkit::frame_of(v@, f));
    envelope_laws::law_channels_in_order(pose, f, names@, *clamp, i);
}

/// An interruption, by port or by kind, empties the queue, loses the anchor and pushes
/// the rest face and the end of the body poses, in this order; the clock goes on.
pub proof fn law_interruption<S: Copy, W, M: Fn(&[S]) -> S, C: Fn(Num) -> W>(
    node: &mut CcRenderNode<S>,
    v: Json,
    now: u64,
    names: &Vec<String>,
    mix: M,
    clamp: &C,
    cmds: Vec<RendererCmd<W>>,
)
    requires
        call_ensures(
            CcRenderNode::<S>::process_streaming::<W, M, C>,
            (node, &Packet::<S>::Json(v), now, names, mix, clamp),
            cmds,
        ),
        envelope_laws::member_is(v@, "__aux_port__"@, JsonView::Str("barge_in"@))
            || envelope_laws::names_kind(v@, "barge_in"@),
    ensures
        cmds@.len() == 2,
        (cmds@[0] matches RendererCmd::Pose(p) && p.weights@.len() == 0),
        (cmds@[1] matches RendererCmd::Skeletal(s) && s is None),
        final(node)@.audio.samples.len() == 0,
        final(node)@.anchor is None,
        final(node)@.frames == old(node)@.frames,
        final(node)@.audio.emitted == old(node)@.audio.emitted,
        final(node)@.audio.sample_rate == old(node)@.audio.sample_rate,
        final(node)@.first_bs == old(node)@.first_bs,
        final(node)@.last_audio == old(node)@.last_audio,
{
    envelope_laws::law_what_interrupts(v@);
    node_laws::law_barge_in_forgets_queue_and_anchor(old(node)@);
}

/// A body envelope pushes the pose that it gives and notes its arrival.
pub proof fn law_body_is_pushed<S: Copy, W, M: Fn(&[S]) -> S, C: Fn(Num) -> W>(
    node: &mut CcRenderNode<S>,
    v: Json,
    now: u64,
    names: &Vec<String>,
    mix: M,
    clamp: &C,
    cmds: Vec<RendererCmd<W>>,
)
    requires
        call_ensures(
            CcRenderNode::<S>::process_streaming::<W, M, C>,
            (node, &Packet::<S>::Json(v), now, names, mix, clamp),
            cmds,
        ),
        envelope::request(v@) is Skeletal,
    ensures
        cmds@.len() == 1,
        (cmds@[0] matches RendererCmd::Skeletal(Some(p)) && renderer::pose_of(v@, p)),
        final(node)@.last_skel == Some(now),
        final(node)@.audio == old(node)@.audio,
        final(node)@.first_bs == old(node)@.first_bs,
        final(node)@.last_audio == old(node)@.last_audio,
{
    node_laws::law_first_face_and_last_body(old(node)@, now, now);
}

/// Other packets, and envelopes that ask for nothing, push and change nothing.
pub proof fn law_other_packets_are_ignored<S: Copy, W, M: Fn(&[S]) -> S, C: Fn(Num) -> W>(
    node: &mut CcRenderNode<S>,
    packet: &Packet<S>,
    now: u64,
    names: &Vec<String>,
    mix: M,
    clamp: &C,
    cmds: Vec<RendererCmd<W>>,
)
    requires
        call_ensures(
            CcRenderNode::<S>::process_streaming::<W, M, C>,
            (node, packet, now, names, mix, clamp),
            cmds,
        ),
        packet is Other || (packet matches Packet::Json(v) && envelope::request(v@) is Nothing),
    ensures
        cmds@.len() == 0,
        final(node)@ == old(node)@,
{
}

/// An out-of-band message interrupts exactly where it addresses the barge-in port.
pub proof fn law_control_message<S: Copy, W>(
    node: &mut CcRenderNode<S>,
    message: &Json,
    r: Option<Vec<RendererCmd<W>>>,
)
    requires
        call_ensures(CcRenderNode::<S>::process_control_message::<W>, (node, message), r),
    ensures
        r is Some == envelope_laws::member_is(
            message@,
            "__aux_port__"@,
            JsonView::Str("barge_in"@),
        ),
        r matches Some(cmds) ==> {
            &&& cmds@.len() == 2
            &&& cmds@[0] matches RendererCmd::Pose(p) && p.weights@.len() == 0
            &&& cmds@[1] matches RendererCmd::Skeletal(s) && s is None
            &&& final(node)@.audio.samples.len() == 0
            &&& final(node)@.anchor is None
            &&& final(node)@.frames == old(node)@.frames
        },
        r is None ==> final(node)@ == old(node)@,
{
    envelope_laws::law_what_interrupts(message@);
}

/// A new node is blank, and keeps its settings and its silence.
pub proof fn law_new_node<S: Copy>(config: CcRenderConfig, silence: S, node: CcRenderNode<S>)
    requires
        call_ensures(CcRenderNode::<S>::new, (config, silence), node),
    ensures
        node@.frames == 0,
        node@.audio.samples.len() == 0,
        node@.audio.sample_rate == 0,
        node@.last_audio is None,
        node@.last_skel is None,
        node@.first_bs is None,
        node@.anchor is None,
        !node@.announced,
        node@.realtime == config.realtime_mode,
        node@.stream_id == config.video_stream_id@,
        config.fps >= 1 ==> node@.fps == config.fps,
        node.spec_config() == config,
        node.spec_silence() == silence,
        node@.wf(),
{
    node_laws::law_new_node_is_blank::<S>(config);
}

/// Whether the clocks stay in range is answered by arithmetic on the pictures to come.
pub proof fn law_clock_check<S: Copy>(node: &CcRenderNode<S>, n: usize, r: bool)
    requires
        call_ensures(CcRenderNode::<S>::clock_in_range, (node, n), r),
    ensures
        ({
            let st = node@;
            let total = st.frames + n as nat;
            let samples = audio::samples_through(total, st.audio.sample_rate, st.fps);
            r == (total * 1_000_000 <= u64::MAX && total * st.audio.sample_rate <= u64::MAX
                && samples <= usize::MAX && samples * 1_000_000 <= u64::MAX)
        }),
{
}

} // verus!
