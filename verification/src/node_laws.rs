//! What holds of the streaming node as a whole.
use crate::audio;
use crate::node;
use crate::node::{CcRenderConfig, NodeState, ReadyStep, FIRST_BS_APPLY_GRACE_NS, TAIL_QUIET_NS};
use crate::renderer::RenderedFrame;
use vstd::prelude::*;

verus! {

/// What can happen to a node.
pub enum NodeEvent<S> {
    /// A packet of samples, mixed down to mono.
    Heard { mono: Seq<S>, rate: nat, now: u64 },
    /// A facial frame.
    Face { now: u64 },
    /// A body pose.
    Body { now: u64 },
    BargeIn,
    /// A tick with what the renderer reports in it.
    Tick { ready: bool, frames: Seq<RenderedFrame>, queue_depth: nat, now: u64 },
}

/// The node after an event.
pub open spec fn happened<S>(st: NodeState<S>, e: NodeEvent<S>) -> NodeState<S> {
    match e {
        NodeEvent::Heard { mono, rate, now } => st.heard(mono, rate, now),
        NodeEvent::Face { now } => st.saw_face(now),
        NodeEvent::Body { now } => st.saw_body(now),
        NodeEvent::BargeIn => st.barged_in(),
        NodeEvent::Tick { ready, frames, queue_depth, now } => if ready {
            let (plan, start) = node::planned(
                node::polled(st, true).1,
                frames,
                queue_depth,
                now,
            );
            start.after(plan.len())
        } else {
            st
        },
    }
}

/// How many pictures an event emits.
pub open spec fn shown<S>(st: NodeState<S>, e: NodeEvent<S>) -> nat {
    match e {
        NodeEvent::Tick { ready: true, frames, queue_depth, now } => {
            let (plan, start) = node::planned(
                node::polled(st, true).1,
                frames,
                queue_depth,
                now,
            );
            start.emits(plan.len())
        },
        _ => 0,
    }
}

/// The samples that an event emits, chunk after chunk.
pub open spec fn sounded<S>(st: NodeState<S>, e: NodeEvent<S>, silence: S) -> Seq<S> {
    match e {
        NodeEvent::Tick { ready: true, frames, queue_depth, now } => {
            let start = node::planned(node::polled(st, true).1, frames, queue_depth, now).1;
            if st.realtime {
                Seq::empty()
            } else {
                sound(start, shown(st, e), silence)
            }
        },
        _ => Seq::empty(),
    }
}

/// Whether an event announces readiness.
pub open spec fn announces<S>(st: NodeState<S>, e: NodeEvent<S>) -> bool {
    e matches NodeEvent::Tick { ready, .. } && node::polled(st, ready).0 == ReadyStep::Announce
}

/// The node after a series of events.
pub open spec fn lived<S>(st: NodeState<S>, events: Seq<NodeEvent<S>>) -> NodeState<S>
    decreases events.len(),
{
    if events.len() == 0 {
        st
    } else {
        happened(lived(st, events.drop_last()), events.last())
    }
}

/// The samples that a series of events emits.
pub open spec fn played<S>(st: NodeState<S>, events: Seq<NodeEvent<S>>, silence: S) -> Seq<S>
    decreases events.len(),
{
    if events.len() == 0 {
        Seq::empty()
    } else {
        played(st, events.drop_last(), silence) + sounded(
            lived(st, events.drop_last()),
            events.last(),
            silence,
        )
    }
}

/// The samples of all packets in a series of events.
pub open spec fn spoken<S>(events: Seq<NodeEvent<S>>) -> Seq<S>
    decreases events.len(),
{
    if events.len() == 0 {
        Seq::empty()
    } else {
        match events.last() {
            NodeEvent::Heard { mono, .. } => spoken(events.drop_last()) + mono,
            _ => spoken(events.drop_last()),
        }
    }
}

/// How many pictures a series of events emits.
pub open spec fn pictures<S>(st: NodeState<S>, events: Seq<NodeEvent<S>>) -> nat
    decreases events.len(),
{
    if events.len() == 0 {
        0
    } else {
        pictures(st, events.drop_last()) + shown(lived(st, events.drop_last()), events.last())
    }
}

/// The number of the picture that a tick emits as its `k`th, counted from zero.
pub open spec fn picture_number<S>(
    st: NodeState<S>,
    frames: Seq<RenderedFrame>,
    queue_depth: nat,
    now: u64,
    k: nat,
) -> nat {
    node::planned(node::polled(st, true).1, frames, queue_depth, now).1.advanced(k).frames
}

/// How often a series of events announces readiness.
pub open spec fn announcements<S>(st: NodeState<S>, events: Seq<NodeEvent<S>>) -> nat
    decreases events.len(),
{
    if events.len() == 0 {
        0
    } else {
        announcements(st, events.drop_last()) + if announces(
            lived(st, events.drop_last()),
            events.last(),
        ) {
            1nat
        } else {
            0nat
        }
    }
}

/// Some tick of a series finds the renderer ready.
pub open spec fn some_ready<S>(events: Seq<NodeEvent<S>>) -> bool
    decreases events.len(),
{
    events.len() > 0 && (some_ready(events.drop_last()) || events.last() matches NodeEvent::Tick {
        ready: true,
        ..
    })
}

/// Whatever happens to a node, it stays valid: in particular its sound and its
/// pictures stay on one clock, across ticks, packets and barge-ins.
pub proof fn law_node_stays_valid<S>(st: NodeState<S>, events: Seq<NodeEvent<S>>)
    requires
        st.wf(),
    ensures
        lived(st, events).wf(),
        lived(st, events).realtime == st.realtime,
        lived(st, events).fps == st.fps,
    decreases events.len(),
{
    if events.len() > 0 {
        let before = lived(st, events.drop_last());
        law_node_stays_valid(st, events.drop_last());
        match events.last() {
            NodeEvent::Heard { mono, rate, now } => {
                node::lemma_new_format_keeps_wf(before, before.heard(mono, rate, now));
            },
            NodeEvent::Tick { ready, frames, queue_depth, now } => {
                if ready {
                    let (plan, start) = node::planned(
                        node::polled(before, true).1,
                        frames,
                        queue_depth,
                        now,
                    );
                    lemma_after_wf(start, plan.len());
                }
            },
            _ => {},
        }
    }
}

/// Emissions keep a node valid.
proof fn lemma_after_wf<S>(st: NodeState<S>, n: nat)
    requires
        st.wf(),
    ensures
        st.after(n).wf(),
        st.after(n).realtime == st.realtime,
        st.after(n).fps == st.fps,
    decreases n,
{
    if n > 0 && st.can_emit() {
        node::lemma_emitted_wf(st);
        lemma_after_wf(st.emitted(), (n - 1) as nat);
    }
}

/// A new node is valid.
pub proof fn law_new_node_is_valid<S>(config: CcRenderConfig)
    ensures
        NodeState::<S>::initial(config).wf(),
{
    let fps = NodeState::<S>::initial(config).fps;
    assert((0nat * 0nat) / fps == 0) by (nonlinear_arith)
        requires
            fps >= 1,
    ;
}

/// Every chunk holds exactly the samples of its picture, no matter what has
/// happened before; a barge-in changes nothing about that.
pub proof fn law_chunk_is_one_picture_long<S>(st: NodeState<S>)
    requires
        st.wf(),
        !st.realtime,
    ensures
        st.owed() == audio::samples_through(st.frames + 1, st.audio.sample_rate, st.fps)
            - audio::samples_through(st.frames, st.audio.sample_rate, st.fps),
        st.barged_in().owed() == st.owed(),
        st.barged_in().audio_ts() == st.audio_ts(),
        st.barged_in().video_ts() == st.video_ts(),
{
    node::lemma_samples_mono(st.frames, st.frames + 1, st.audio.sample_rate, st.fps);
}

/// The first sound after a barge-in is the start of what is said next.
pub proof fn law_new_speech_starts_at_once<S>(
    st: NodeState<S>,
    mono: Seq<S>,
    rate: nat,
    now: u64,
    silence: S,
)
    requires
        st.wf(),
        !st.realtime,
        st.audio.sample_rate != 0,
        st.owed() <= mono.len(),
    ensures
        ({
            let next = st.barged_in().heard(mono, rate, now).aligned(0);
            next.audio.chunk(next.owed(), silence) == mono.take(st.owed() as int)
        }),
{
    let next = st.barged_in().heard(mono, rate, now).aligned(0);
    assert(st.barged_in().heard(mono, rate, now).audio.samples =~= mono);
    assert(next.audio.samples =~= mono);
    assert(next.owed() == st.owed());
    assert(next.audio.chunk(next.owed(), silence) =~= mono.take(st.owed() as int));
}

/// The audio chunk of a picture never starts after the picture, and starts less
/// than one sample period and one microsecond before it.
pub proof fn law_timestamps_in_lockstep<S>(st: NodeState<S>)
    requires
        st.wf(),
        !st.realtime,
        st.audio.sample_rate >= 1,
    ensures
        st.audio_ts() <= st.video_ts(),
        (st.video_ts() - st.audio_ts()) * st.audio.sample_rate < 1_000_000
            + st.audio.sample_rate,
{
    let n = st.frames;
    let sr = st.audio.sample_rate;
    let fps = st.fps;
    let x = (n * sr) / fps;
    let a = (x * 1_000_000) / sr;
    let v = (n * 1_000_000) / fps;
    assert(x * fps <= n * sr && n * sr < x * fps + fps) by (nonlinear_arith)
        requires
            x == (n * sr) / fps,
            fps >= 1,
    ;
    assert(a * sr <= x * 1_000_000 && x * 1_000_000 < a * sr + sr) by (nonlinear_arith)
        requires
            a == (x * 1_000_000) / sr,
            sr >= 1,
    ;
    assert(v * fps <= n * 1_000_000 && n * 1_000_000 < v * fps + fps) by (nonlinear_arith)
        requires
            v == (n * 1_000_000) / fps,
            fps >= 1,
    ;
    assert(a * sr * fps <= n * 1_000_000 * sr) by (nonlinear_arith)
        requires
            a * sr <= x * 1_000_000,
            x * fps <= n * sr,
            fps >= 1,
    ;
    assert(a <= v) by (nonlinear_arith)
        requires
            a * sr * fps <= n * 1_000_000 * sr,
            n * 1_000_000 < v * fps + fps,
            sr >= 1,
            fps >= 1,
    ;
    assert(n * 1_000_000 * sr < (a * sr + sr + 1_000_000) * fps) by (nonlinear_arith)
        requires
            n * sr < x * fps + fps,
            x * 1_000_000 < a * sr + sr,
            fps >= 1,
    ;
    assert(v * sr * fps <= n * 1_000_000 * sr) by (nonlinear_arith)
        requires
            v * fps <= n * 1_000_000,
            sr >= 1,
    ;
    assert(v * sr < a * sr + sr + 1_000_000) by (nonlinear_arith)
        requires
            v * sr * fps <= n * 1_000_000 * sr,
            n * 1_000_000 * sr < (a * sr + sr + 1_000_000) * fps,
            fps >= 1,
    ;
    assert((v - a) * sr == v * sr - a * sr) by (nonlinear_arith);
}

/// The sound of the next `n` pictures, chunk after chunk.
pub open spec fn sound<S>(st: NodeState<S>, n: nat, silence: S) -> Seq<S>
    decreases n,
{
    if n == 0 {
        Seq::empty()
    } else {
        sound(st, (n - 1) as nat, silence) + st.advanced((n - 1) as nat).audio.chunk(
            st.advanced((n - 1) as nat).owed(),
            silence,
        )
    }
}

/// Whatever the number of pictures, their audio chunks laid end to end are the
/// queued samples in arrival order followed by silence: nothing is lost,
/// repeated or reordered.
pub proof fn law_sound_is_gapless<S>(st: NodeState<S>, n: nat, silence: S)
    requires
        !st.realtime,
    ensures
        sound(st, n, silence) == st.audio.chunk(
            (st.advanced(n).audio.emitted - st.audio.emitted) as nat,
            silence,
        ),
        st.advanced(n).audio.emitted >= st.audio.emitted,
        st.advanced(n).audio.samples == audio::drop_front(
            st.audio.samples,
            (st.advanced(n).audio.emitted - st.audio.emitted) as nat,
        ),
    decreases n,
{
    lemma_advanced_mode(st, n);
    if n == 0 {
        assert(st.audio.chunk(0, silence) =~= Seq::<S>::empty());
        assert(audio::drop_front(st.audio.samples, 0) =~= st.audio.samples);
    } else {
        let m = (n - 1) as nat;
        law_sound_is_gapless(st, m, silence);
        lemma_advanced_mode(st, m);
        let mid = st.advanced(m);
        let before = (mid.audio.emitted - st.audio.emitted) as nat;
        let more = mid.owed();
        assert(st.advanced(n) == mid.emitted());
        assert(st.audio.chunk(before, silence) + mid.audio.chunk(more, silence)
            =~= st.audio.chunk(before + more, silence));
        assert(mid.emitted().audio.samples =~= audio::drop_front(st.audio.samples, before + more));
    }
}

/// Emissions change neither the mode nor the picture rate nor the audio format.
proof fn lemma_advanced_mode<S>(st: NodeState<S>, n: nat)
    ensures
        st.advanced(n).realtime == st.realtime,
        st.advanced(n).fps == st.fps,
        st.advanced(n).audio.sample_rate == st.audio.sample_rate,
        st.advanced(n).frames == st.frames + n,
        st.realtime ==> st.advanced(n).audio == st.audio,
    decreases n,
{
    if n > 0 {
        lemma_advanced_mode(st, (n - 1) as nat);
    }
}

/// Pictures are numbered without gaps and their timestamps never go back.
pub proof fn law_pictures_in_order<S>(st: NodeState<S>, i: nat, j: nat)
    requires
        st.fps >= 1,
        i <= j,
    ensures
        st.advanced(i).frames == st.frames + i,
        st.advanced(i).video_ts() <= st.advanced(j).video_ts(),
{
    lemma_advanced_mode(st, i);
    lemma_advanced_mode(st, j);
    let a = (st.frames + i) * 1_000_000;
    let b = (st.frames + j) * 1_000_000;
    let f = st.fps;
    assert(a / f <= b / f) by (nonlinear_arith)
        requires
            a <= b,
            f >= 1,
    ;
}

/// Over everything that happens to a node, each picture's number is the number of
/// pictures emitted before it: a fresh node counts from zero, without a gap or a
/// repetition, across ticks and barge-ins.
pub proof fn law_numbers_have_no_gaps<S>(
    config: CcRenderConfig,
    events: Seq<NodeEvent<S>>,
    frames: Seq<RenderedFrame>,
    queue_depth: nat,
    now: u64,
    k: nat,
)
    ensures
        ({
            let fresh = NodeState::<S>::initial(config);
            let st = lived(fresh, events);
            &&& st.frames == pictures(fresh, events)
            &&& picture_number(st, frames, queue_depth, now, k) == pictures(fresh, events) + k
        }),
{
    let fresh = NodeState::<S>::initial(config);
    let st = lived(fresh, events);
    lemma_pictures_counted(fresh, events);
    lemma_advanced_mode(node::planned(node::polled(st, true).1, frames, queue_depth, now).1, k);
}

/// Whatever happens, the counter grows by the pictures emitted.
proof fn lemma_pictures_counted<S>(st: NodeState<S>, events: Seq<NodeEvent<S>>)
    ensures
        lived(st, events).frames == st.frames + pictures(st, events),
    decreases events.len(),
{
    if events.len() > 0 {
        let before = lived(st, events.drop_last());
        lemma_pictures_counted(st, events.drop_last());
        match events.last() {
            NodeEvent::Tick { ready: true, frames, queue_depth, now } => {
                let (plan, start) = node::planned(
                    node::polled(before, true).1,
                    frames,
                    queue_depth,
                    now,
                );
                lemma_after_is_advanced(start, plan.len());
                lemma_advanced_mode(start, start.emits(plan.len()));
            },
            _ => {},
        }
    }
}

/// In realtime mode a tick leaves the audio queue alone and emits at most one
/// picture, the latest.
pub proof fn law_realtime_is_video_only<S>(
    st: NodeState<S>,
    frames: Seq<RenderedFrame>,
    queue_depth: nat,
    now: u64,
)
    requires
        st.realtime,
    ensures
        ({
            let (plan, start) = node::planned(st, frames, queue_depth, now);
            &&& start.after(plan.len()).audio == st.audio
            &&& start.after(plan.len()).anchor == st.anchor
            &&& start.emits(plan.len()) == (if frames.len() == 0 {
                0nat
            } else {
                1nat
            })
            &&& frames.len() > 0 ==> plan == seq![frames.last()]
        }),
{
    reveal_with_fuel(NodeState::after, 2);
    reveal_with_fuel(NodeState::emits, 2);
}

/// Nothing is paired before both audio and a facial frame have arrived, nor
/// while the first facial frame is too fresh to be visible.
pub proof fn law_silent_before_inputs<S>(
    st: NodeState<S>,
    frames: Seq<RenderedFrame>,
    queue_depth: nat,
    now: u64,
)
    requires
        !st.realtime,
        st.last_audio is None || st.first_bs is None || node::within(
            st.first_bs,
            now,
            FIRST_BS_APPLY_GRACE_NS,
        ),
    ensures
        node::planned(st, frames, queue_depth, now).0.len() == 0,
        node::planned(st, frames, queue_depth, now).1 == st,
{
}

/// Emission stops once the queue is empty, both driving inputs have been quiet
/// for the tail, and no body pose is waiting.
pub proof fn law_stops_when_quiet<S>(st: NodeState<S>, frames: Seq<RenderedFrame>, now: u64)
    requires
        !st.realtime,
        st.audio.samples.len() == 0,
        !node::within(st.last_audio, now, TAIL_QUIET_NS),
        !node::within(st.last_skel, now, TAIL_QUIET_NS),
    ensures
        node::planned(st, frames, 0, now).0.len() == 0,
{
}

/// Emission goes on while a body pose is waiting, even though speech is over.
pub proof fn law_motion_plays_out<S>(
    st: NodeState<S>,
    frames: Seq<RenderedFrame>,
    queue_depth: nat,
    now: u64,
)
    requires
        !st.realtime,
        st.last_audio is Some,
        st.first_bs is Some,
        !node::within(st.first_bs, now, FIRST_BS_APPLY_GRACE_NS),
        queue_depth > 0,
    ensures
        node::planned(st, frames, queue_depth, now).0 == frames,
{
}

/// Every element of `s` is in `pool`.
spec fn drawn_from<S>(s: Seq<S>, pool: Seq<S>) -> bool {
    forall|i: int| 0 <= i < s.len() ==> pool.contains(#[trigger] s[i])
}

/// Every element of `s` is `silence` or in `pool`.
spec fn drawn_or_silent<S>(s: Seq<S>, pool: Seq<S>, silence: S) -> bool {
    forall|i: int| 0 <= i < s.len() ==> (#[trigger] s[i]) == silence || pool.contains(s[i])
}

/// A larger pool holds whatever a smaller one holds.
proof fn lemma_pool_grows<S>(s: Seq<S>, pool: Seq<S>, more: Seq<S>)
    ensures
        drawn_from(s, pool) ==> drawn_from(s, pool + more),
        drawn_from(more, pool + more),
{
    assert forall|x: S| pool.contains(x) implies (pool + more).contains(x) by {
        let k = choose|k: int| 0 <= k < pool.len() && pool[k] == x;
        assert((pool + more)[k] == x);
    }
    assert forall|i: int| 0 <= i < more.len() implies (pool + more).contains(
        #[trigger] more[i],
    ) by {
        assert((pool + more)[pool.len() + i] == more[i]);
    }
}

/// The emissions of a tick, counted from either end.
proof fn lemma_after_is_advanced<S>(st: NodeState<S>, n: nat)
    ensures
        st.after(n) == st.advanced(st.emits(n)),
    decreases n,
{
    if n > 0 && st.can_emit() {
        let m = (n - 1) as nat;
        lemma_after_is_advanced(st.emitted(), m);
        lemma_advanced_shift(st, st.emitted().emits(m));
    }
}

proof fn lemma_advanced_shift<S>(st: NodeState<S>, n: nat)
    ensures
        st.advanced(n + 1) == st.emitted().advanced(n),
    decreases n,
{
    reveal_with_fuel(NodeState::advanced, 2);
    if n > 0 {
        lemma_advanced_shift(st, (n - 1) as nat);
    }
}

/// Queue and sound of a tick hold nothing but what was queued before it, and
/// silence.
proof fn lemma_tick_draws<S>(
    st: NodeState<S>,
    frames: Seq<RenderedFrame>,
    queue_depth: nat,
    now: u64,
    pool: Seq<S>,
    silence: S,
)
    requires
        drawn_from(st.audio.samples, pool),
    ensures
        ({
            let e = NodeEvent::Tick { ready: true, frames, queue_depth, now };
            &&& drawn_from(happened(st, e).audio.samples, pool)
            &&& drawn_or_silent(sounded(st, e, silence), pool, silence)
        }),
{
    let (plan, start) = node::planned(node::polled(st, true).1, frames, queue_depth, now);
    assert(drawn_from(start.audio.samples, pool));
    lemma_after_is_advanced(start, plan.len());
    lemma_advanced_mode(start, start.emits(plan.len()));
    if !st.realtime {
        law_sound_is_gapless(start, start.emits(plan.len()), silence);
    }
}

/// After a barge-in nothing of the old speech is heard, whatever happens next:
/// every emitted sample is silence or comes from a packet that arrived later.
pub proof fn law_barge_in_silences<S>(
    st: NodeState<S>,
    events: Seq<NodeEvent<S>>,
    silence: S,
    i: int,
)
    requires
        0 <= i < played(st.barged_in(), events, silence).len(),
    ensures
        played(st.barged_in(), events, silence)[i] == silence || spoken(events).contains(
            played(st.barged_in(), events, silence)[i],
        ),
{
    lemma_only_later_speech(st, events, silence);
}

proof fn lemma_only_later_speech<S>(st: NodeState<S>, events: Seq<NodeEvent<S>>, silence: S)
    ensures
        drawn_from(lived(st.barged_in(), events).audio.samples, spoken(events)),
        drawn_or_silent(played(st.barged_in(), events, silence), spoken(events), silence),
    decreases events.len(),
{
    if events.len() > 0 {
        let init = events.drop_last();
        let before = lived(st.barged_in(), init);
        lemma_only_later_speech(st, init, silence);
        match events.last() {
            NodeEvent::Heard { mono, rate, now } => {
                let pool = spoken(init);
                lemma_pool_grows(before.audio.samples, pool, mono);
                assert forall|i: int|
                    0 <= i < played(st.barged_in(), init, silence).len() implies (
                #[trigger] played(st.barged_in(), init, silence)[i]) == silence || (pool
                    + mono).contains(played(st.barged_in(), init, silence)[i]) by {
                    let x = played(st.barged_in(), init, silence)[i];
                    if x != silence {
                        let k = choose|k: int| 0 <= k < pool.len() && pool[k] == x;
                        assert((pool + mono)[k] == x);
                    }
                }
                assert(played(st.barged_in(), events, silence) =~= played(
                    st.barged_in(),
                    init,
                    silence,
                ));
            },
            NodeEvent::Tick { ready, frames, queue_depth, now } => {
                if ready {
                    lemma_tick_draws(before, frames, queue_depth, now, spoken(init), silence);
                }
            },
            _ => {},
        }
    }
}

/// The first picture after the anchor was lost fixes it, and only the audio
/// before that picture's pose is dropped; later pictures drop nothing.
pub proof fn law_aligned_once<S>(st: NodeState<S>, first: u64, later: u64)
    ensures
        st.aligned(first).anchor is Some,
        st.aligned(first).aligned(later) == st.aligned(first),
        st.aligned(first).audio.emitted == st.audio.emitted,
{
}

/// Over everything that happens to a node, readiness is announced exactly once if
/// some tick finds the renderer ready, and never otherwise.
pub proof fn law_announced_once<S>(st: NodeState<S>, events: Seq<NodeEvent<S>>)
    requires
        !st.announced,
    ensures
        announcements(st, events) == (if some_ready(events) {
            1nat
        } else {
            0nat
        }),
        lived(st, events).announced == some_ready(events),
    decreases events.len(),
{
    if events.len() > 0 {
        let init = events.drop_last();
        let before = lived(st, init);
        law_announced_once(st, init);
        match events.last() {
            NodeEvent::Tick { ready: true, frames, queue_depth, now } => {
                let (plan, start) = node::planned(
                    node::polled(before, true).1,
                    frames,
                    queue_depth,
                    now,
                );
                lemma_after_announced(start, plan.len());
            },
            _ => {},
        }
    }
}

/// Emissions do not change what has been announced.
proof fn lemma_after_announced<S>(st: NodeState<S>, n: nat)
    ensures
        st.after(n).announced == st.announced,
    decreases n,
{
    if n > 0 && st.can_emit() {
        lemma_after_announced(st.emitted(), (n - 1) as nat);
    }
}

/// Before it is ready, the renderer's pictures are all discarded: a tick that
/// does not find it ready emits and changes nothing.
pub proof fn law_pre_roll_is_discarded<S>(
    st: NodeState<S>,
    frames: Seq<RenderedFrame>,
    queue_depth: nat,
    now: u64,
    silence: S,
)
    ensures
        ({
            let e = NodeEvent::Tick { ready: false, frames, queue_depth, now };
            &&& happened(st, e) == st
            &&& shown(st, e) == 0
            &&& sounded(st, e, silence).len() == 0
            &&& !announces(st, e)
        }),
{
}

/// Exactly when a paired tick emits: audio has been heard, the first facial frame
/// is at least 50 ms old, and queued speech, a packet or a body pose of the last
/// half second, or a waiting body pose keeps the node live. It then plans every
/// rendered picture, and otherwise none. Queued speech alone is enough, however
/// long ago it arrived.
pub proof fn law_paired_tick_plans_while_live<S>(
    st: NodeState<S>,
    frames: Seq<RenderedFrame>,
    queue_depth: nat,
    now: u64,
)
    requires
        !st.realtime,
    ensures
        ({
            let queued = st.audio.sample_rate > 0 && st.audio.samples.len() > 0;
            let spoke = st.last_audio matches Some(t) && now < t + 500_000_000;
            let moved = st.last_skel matches Some(t) && now < t + 500_000_000;
            let visible = st.first_bs matches Some(t) && now >= t + 50_000_000;
            let plan = node::planned(st, frames, queue_depth, now).0;
            &&& st.last_audio is Some && visible && queued ==> plan == frames
            &&& st.last_audio is Some && visible && spoke ==> plan == frames
            &&& st.last_audio is Some && visible && moved ==> plan == frames
            &&& st.last_audio is Some && visible && queue_depth > 0 ==> plan == frames
            &&& st.last_audio is None || !visible ==> plan.len() == 0
            &&& !queued && !spoke && !moved && queue_depth == 0 ==> plan.len() == 0
        }),
{
}

/// A speech burst plays to its end: as long as a sample is queued, every picture
/// rendered for a ready node with visible facial frames is emitted, whatever the
/// time since the last packet, and each picture takes its stretch of the queue.
pub proof fn law_queued_speech_plays_out<S>(
    st: NodeState<S>,
    frames: Seq<RenderedFrame>,
    queue_depth: nat,
    now: u64,
)
    requires
        st.wf(),
        !st.realtime,
        st.last_audio is Some,
        st.first_bs matches Some(t) && now >= t + 50_000_000,
        st.audio.sample_rate >= st.fps,
        st.audio.samples.len() > 0,
    ensures
        ({
            let e = NodeEvent::Tick { ready: true, frames, queue_depth, now };
            let n = frames.len();
            &&& shown(st, e) == n
            &&& happened(st, e).frames == st.frames + n
            &&& happened(st, e).audio.emitted - st.audio.emitted == ((st.frames + n)
                * st.audio.sample_rate) / st.fps - (st.frames * st.audio.sample_rate) / st.fps
        }),
{
    let polled = node::polled(st, true).1;
    let (plan, start) = node::planned(polled, frames, queue_depth, now);
    law_paired_tick_plans_while_live(polled, frames, queue_depth, now);
    law_fast_sound_never_stops_a_tick(start, plan.len());
    lemma_after_is_advanced(start, plan.len());
    lemma_advanced_mode(start, plan.len());
    lemma_after_wf(start, plan.len());
}

/// At a sample rate of at least the picture rate no planned picture is held back.
pub proof fn law_fast_sound_never_stops_a_tick<S>(st: NodeState<S>, n: nat)
    requires
        st.wf(),
        !st.realtime,
        st.audio.sample_rate >= st.fps,
    ensures
        st.emits(n) == n,
        st.owed() >= 1,
    decreases n,
{
    let (f, r, p) = (st.frames, st.audio.sample_rate, st.fps);
    assert((f * r) / p + 1 <= ((f + 1) * r) / p) by (nonlinear_arith)
        requires
            r >= p,
            p >= 1,
    ;
    if n > 0 {
        node::lemma_emitted_wf(st);
        law_fast_sound_never_stops_a_tick(st.emitted(), (n - 1) as nat);
    }
}

/// A tick emits a prefix of its plan, and stops early only where no sound can be
/// paired with the next picture: no sample rate is known yet, or the clock owes
/// that picture no sample. Without pairing it never stops.
pub proof fn law_tick_stops_only_for_lack_of_sound<S>(st: NodeState<S>, n: nat)
    requires
        st.wf(),
    ensures
        st.emits(n) <= n,
        st.realtime ==> st.emits(n) == n,
        st.emits(n) < n ==> {
            let f = st.frames + st.emits(n);
            let r = st.audio.sample_rate;
            r == 0 || ((f + 1) * r) / st.fps == (f * r) / st.fps
        },
        st.emits(n) > 0 && !st.realtime ==> st.audio.sample_rate > 0,
    decreases n,
{
    if n > 0 {
        if st.can_emit() {
            node::lemma_emitted_wf(st);
            law_tick_stops_only_for_lack_of_sound(st.emitted(), (n - 1) as nat);
        } else {
            node::lemma_samples_mono(
                st.frames,
                st.frames + 1,
                st.audio.sample_rate,
                st.fps,
            );
        }
    }
}

/// What goes out with a picture: the picture itself under the next number and at
/// that number's time, and beside it, where sound is paired, the oldest queued
/// samples, as many as the clock gives to one picture, silence where the queue is
/// too short, marked with the time of the sound before them.
pub proof fn law_emission_carries_its_sound<S>(
    st: NodeState<S>,
    frame: RenderedFrame,
    silence: S,
    e: node::Emission<S>,
)
    requires
        st.wf(),
        node::emission_of(st, frame, silence, e),
    ensures
        e.video.pixels@ == frame.pixels@,
        e.video.width == frame.width,
        e.video.height == frame.height,
        e.video.frame_number == st.frames,
        e.video.timestamp_us == (st.frames * 1_000_000) / st.fps,
        e.video.stream_id@ == st.stream_id,
        st.realtime ==> e.audio is None,
        !st.realtime ==> (e.audio matches Some(a) && {
            let (f, r) = (st.frames, st.audio.sample_rate);
            let q = st.audio.samples;
            &&& a.samples@.len() == ((f + 1) * r) / st.fps - (f * r) / st.fps
            &&& forall|i: int|
                0 <= i < a.samples@.len() && i < q.len() ==> #[trigger] a.samples@[i] == q[i]
            &&& forall|i: int|
                q.len() <= i < a.samples@.len() ==> #[trigger] a.samples@[i] == silence
            &&& a.sample_rate == r
            &&& a.channels == 1
            &&& a.timestamp_us == (((f * r) / st.fps) * 1_000_000) / r
        }),
{
    node::lemma_samples_mono(st.frames, st.frames + 1, st.audio.sample_rate, st.fps);
}

/// An emission moves the clock on by one picture, takes the sound of that picture
/// from the front of the queue, and touches nothing else.
pub proof fn law_emission_moves_one_picture_on<S>(st: NodeState<S>)
    requires
        st.wf(),
    ensures
        st.emitted().frames == st.frames + 1,
        st.emitted().stale == st.stale,
        st.emitted().anchor == st.anchor,
        st.emitted().announced == st.announced,
        st.emitted().last_audio == st.last_audio,
        st.emitted().last_skel == st.last_skel,
        st.emitted().first_bs == st.first_bs,
        st.emitted().stream_id == st.stream_id,
        st.realtime ==> st.emitted().audio == st.audio,
        !st.realtime ==> {
            let (f, r) = (st.frames, st.audio.sample_rate);
            let n = ((f + 1) * r) / st.fps - (f * r) / st.fps;
            let q = st.audio.samples;
            &&& n >= q.len() ==> st.emitted().audio.samples.len() == 0
            &&& n < q.len() ==> q == q.take(n) + st.emitted().audio.samples
            &&& st.emitted().audio.sample_rate == r
        },
{
    node::lemma_samples_mono(st.frames, st.frames + 1, st.audio.sample_rate, st.fps);
    if !st.realtime {
        let n = st.owed();
        let q = st.audio.samples;
        if n < q.len() {
            assert(q =~= q.take(n as int) + st.emitted().audio.samples);
        }
    }
}

/// The first picture that a live node plans after it lost its anchor fixes the
/// anchor and drops from the front of the queue the sound that lies before that
/// picture's pose, no more and no less; a node with an anchor drops nothing.
pub proof fn law_sound_starts_with_the_pose<S>(
    st: NodeState<S>,
    frames: Seq<RenderedFrame>,
    queue_depth: nat,
    now: u64,
)
    requires
        !st.realtime,
        frames.len() > 0,
        node::planned(st, frames, queue_depth, now).0 == frames,
        (frames[0].pts_ms * st.audio.sample_rate) / 1000 <= usize::MAX,
    ensures
        ({
            let next = node::planned(st, frames, queue_depth, now).1;
            let lead = (frames[0].pts_ms * st.audio.sample_rate) / 1000;
            let q = st.audio.samples;
            &&& st.anchor is Some ==> next == st
            &&& st.anchor is None ==> {
                &&& next.anchor == Some(frames[0].pts_ms)
                &&& lead >= q.len() ==> next.audio.samples.len() == 0
                &&& lead < q.len() ==> q == q.take(lead) + next.audio.samples
                &&& next.audio.sample_rate == st.audio.sample_rate
                &&& next.audio.emitted == st.audio.emitted
                &&& next.frames == st.frames
                &&& next.stale == st.stale
            }
        }),
{
    let next = node::planned(st, frames, queue_depth, now).1;
    let lead = (frames[0].pts_ms * st.audio.sample_rate) / 1000;
    let q = st.audio.samples;
    assert(lead >= 0) by (nonlinear_arith)
        requires
            lead == (frames[0].pts_ms * st.audio.sample_rate) / 1000,
            frames[0].pts_ms >= 0,
            st.audio.sample_rate >= 0,
    ;
    if frames[0].pts_ms == 0 || st.audio.sample_rate == 0 {
        assert(frames[0].pts_ms * st.audio.sample_rate == 0) by (nonlinear_arith)
            requires
                frames[0].pts_ms == 0 || st.audio.sample_rate == 0,
        ;
        assert(lead == 0);
    }
    if st.anchor is None && lead < q.len() {
        assert(q =~= q.take(lead) + next.audio.samples);
    }
}

/// Without pairing a tick plans the latest picture alone and counts the others as
/// stale, whether or not any input has arrived.
pub proof fn law_realtime_counts_stale<S>(
    st: NodeState<S>,
    frames: Seq<RenderedFrame>,
    queue_depth: nat,
    now: u64,
)
    requires
        st.realtime,
        frames.len() >= 1,
        st.stale + frames.len() - 1 <= u64::MAX,
    ensures
        ({
            let (plan, next) = node::planned(st, frames, queue_depth, now);
            &&& plan.len() == 1
            &&& plan[0] == frames[frames.len() - 1]
            &&& next.stale == st.stale + frames.len() - 1
            &&& next.frames == st.frames
            &&& next.audio == st.audio
            &&& next.anchor == st.anchor
        }),
{
}

/// A packet is queued behind what is there; the first one fixes the sample rate,
/// later ones leave it. Its arrival is noted and nothing else changes.
pub proof fn law_packet_is_queued_behind<S>(st: NodeState<S>, mono: Seq<S>, rate: nat, now: u64)
    ensures
        st.heard(mono, rate, now).audio.samples == st.audio.samples + mono,
        st.audio.sample_rate == 0 ==> st.heard(mono, rate, now).audio.sample_rate == rate,
        st.audio.sample_rate != 0 ==> st.heard(mono, rate, now).audio.sample_rate
            == st.audio.sample_rate,
        st.heard(mono, rate, now).audio.emitted == st.audio.emitted,
        st.heard(mono, rate, now).last_audio == Some(now),
        st.heard(mono, rate, now).last_skel == st.last_skel,
        st.heard(mono, rate, now).first_bs == st.first_bs,
        st.heard(mono, rate, now).anchor == st.anchor,
        st.heard(mono, rate, now).frames == st.frames,
        st.heard(mono, rate, now).announced == st.announced,
        st.heard(mono, rate, now).stale == st.stale,
        st.heard(mono, rate, now).realtime == st.realtime,
        st.heard(mono, rate, now).fps == st.fps,
        st.heard(mono, rate, now).stream_id == st.stream_id,
{
}

/// Of all facial frames only the first leaves its time, of body poses the last.
pub proof fn law_first_face_and_last_body<S>(st: NodeState<S>, t: u64, u: u64)
    ensures
        st.first_bs is None ==> st.saw_face(t).saw_face(u).first_bs == Some(t),
        st.first_bs is Some ==> st.saw_face(t) == st,
        st.saw_face(t).saw_face(u) == st.saw_face(t),
        st.saw_body(t).saw_body(u) == st.saw_body(u),
        st.saw_body(u).last_skel == Some(u),
        st.saw_face(t).audio == st.audio && st.saw_body(t).audio == st.audio,
        st.saw_face(t).last_audio == st.last_audio && st.saw_body(t).last_audio == st.last_audio,
        st.saw_face(t).last_skel == st.last_skel && st.saw_body(t).first_bs == st.first_bs,
        st.saw_face(t).anchor == st.anchor && st.saw_body(t).anchor == st.anchor,
        st.saw_face(t).frames == st.frames && st.saw_body(t).frames == st.frames,
{
}

/// A barge-in empties the queue and loses the anchor, and that is all: the clock,
/// the sample rate and the record of what has arrived go on.
pub proof fn law_barge_in_forgets_queue_and_anchor<S>(st: NodeState<S>)
    ensures
        st.barged_in().audio.samples.len() == 0,
        st.barged_in().anchor is None,
        st.barged_in().audio.sample_rate == st.audio.sample_rate,
        st.barged_in().audio.emitted == st.audio.emitted,
        st.barged_in().frames == st.frames,
        st.barged_in().first_bs == st.first_bs,
        st.barged_in().last_audio == st.last_audio,
        st.barged_in().last_skel == st.last_skel,
        st.barged_in().announced == st.announced,
        st.barged_in().stale == st.stale,
        st.barged_in().realtime == st.realtime,
        st.barged_in().fps == st.fps,
        st.barged_in().stream_id == st.stream_id,
{
}

/// A new node has seen, queued and emitted nothing, and runs at the configured
/// rate, at one picture a second where that is zero.
pub proof fn law_new_node_is_blank<S>(config: CcRenderConfig)
    ensures
        ({
            let st = NodeState::<S>::initial(config);
            &&& st.frames == 0 && st.stale == 0 && !st.announced
            &&& st.anchor is None && st.first_bs is None
            &&& st.last_audio is None && st.last_skel is None
            &&& st.audio.samples.len() == 0 && st.audio.sample_rate == 0 && st.audio.emitted == 0
            &&& st.realtime == config.realtime_mode
            &&& st.stream_id == config.video_stream_id@
            &&& config.fps >= 1 ==> st.fps == config.fps
            &&& config.fps == 0 ==> st.fps == 1
        }),
{
}

/// Readiness is announced by the first tick that finds the renderer ready, and no
/// report on readiness touches anything but that.
pub proof fn law_ready_report<S>(st: NodeState<S>)
    ensures
        node::polled(st, false) == (ReadyStep::Discard, st),
        st.announced ==> node::polled(st, true) == (ReadyStep::Proceed, st),
        !st.announced ==> {
            let (step, next) = node::polled(st, true);
            &&& step == ReadyStep::Announce
            &&& next.announced
            &&& next.audio == st.audio && next.frames == st.frames && next.anchor == st.anchor
            &&& next.first_bs == st.first_bs && next.last_audio == st.last_audio
            &&& next.last_skel == st.last_skel && next.stale == st.stale
            &&& next.fps == st.fps && next.realtime == st.realtime
            &&& next.stream_id == st.stream_id
        },
{
}

/// A tick of `n` pictures is accepted as long as the two presentation times and
/// the sample count behind them fit the machine's words.
pub proof fn law_clock_lasts<S>(st: NodeState<S>, n: nat)
    requires
        st.fps >= 1,
        (st.frames + n) * 1_000_000 <= u64::MAX,
        (st.frames + n) * st.audio.sample_rate <= u64::MAX,
        ((st.frames + n) * st.audio.sample_rate) / st.fps <= usize::MAX,
        (((st.frames + n) * st.audio.sample_rate) / st.fps) * 1_000_000 <= u64::MAX,
    ensures
        st.in_range(n),
{
}

/// A valid node stays valid, and keeps its mode, rate and format, over any number of
/// emissions.
pub proof fn law_advanced_stays_valid<S>(st: NodeState<S>, n: nat)
    requires
        st.wf(),
        st.realtime || st.audio.sample_rate > 0,
    ensures
        st.advanced(n).wf(),
        st.advanced(n).realtime == st.realtime,
        st.advanced(n).fps == st.fps,
        st.advanced(n).audio.sample_rate == st.audio.sample_rate,
        st.advanced(n).frames == st.frames + n,
        st.advanced(n).stream_id == st.stream_id,
    decreases n,
{
    if n > 0 {
        let m = (n - 1) as nat;
        law_advanced_stays_valid(st, m);
        let mid = st.advanced(m);
        node::lemma_samples_mono(mid.frames, mid.frames + 1, mid.audio.sample_rate, mid.fps);
    }
}

/// Emissions touch the clock and the queue and nothing else.
pub proof fn law_emissions_keep_the_rest<S>(st: NodeState<S>, n: nat)
    ensures
        st.after(n).announced == st.announced,
        st.after(n).anchor == st.anchor,
        st.after(n).last_audio == st.last_audio,
        st.after(n).last_skel == st.last_skel,
        st.after(n).first_bs == st.first_bs,
        st.after(n).stale == st.stale,
        st.after(n).stream_id == st.stream_id,
    decreases n,
{
    if n > 0 && st.can_emit() {
        law_emissions_keep_the_rest(st.emitted(), (n - 1) as nat);
    }
}

/// Without a rendered picture a tick plans nothing and changes nothing, and a paired
/// tick that plans nothing changes nothing either.
pub proof fn law_nothing_planned_nothing_changed<S>(
    st: NodeState<S>,
    frames: Seq<RenderedFrame>,
    queue_depth: nat,
    now: u64,
)
    ensures
        frames.len() == 0 ==> node::planned(st, frames, queue_depth, now).0.len() == 0,
        frames.len() == 0 ==> node::planned(st, frames, queue_depth, now).1 == st,
        !st.realtime && node::planned(st, frames, queue_depth, now).0.len() == 0
            ==> node::planned(st, frames, queue_depth, now).1 == st,
{
}

} // verus!
