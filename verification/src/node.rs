//! The streaming node: envelopes and audio go in, paired video and audio
//! come out.
//!
//! The node decides; the caller acts. Each step takes what the render thread
//! and the clock report and returns what to push to the renderer or to emit.
//! Instants are nanoseconds since any fixed origin.
use crate::arkit;
use crate::audio;
use crate::audio::{AudioBuf, AudioState};
use crate::envelope;
use crate::envelope::{RendererInput, Request};
use crate::json::{Json, Num};
use crate::list;
use crate::renderer;
use crate::renderer::{ArkitPose, RenderedFrame, SkeletalPose};
use vstd::prelude::*;

verus! {

/// Delay between the first facial frame and the first emitted picture.
pub const FIRST_BS_APPLY_GRACE_NS: u64 = 50_000_000;

/// How long pictures keep flowing after the last driving input.
pub const TAIL_QUIET_NS: u64 = 500_000_000;

/// Settings of a node. Paths are `/`-separated text.
#[derive(Clone, Debug)]
pub struct CcRenderConfig {
    pub glb_path: String,
    pub arkit_map_path: String,
    pub width: u32,
    pub height: u32,
    pub fps: u32,
    /// Stream id of every emitted picture.
    pub video_stream_id: String,
    /// Environment scene shown around the avatar.
    pub scene_glb_path: Option<String>,
    /// Emit pictures continuously once the renderer is ready, without pairing
    /// them with audio and without draining the audio queue.
    pub realtime_mode: bool,
}

impl Default for CcRenderConfig {
    fn default() -> (r: Self)
        ensures
            r.glb_path@ == ""@,
            r.arkit_map_path@ == ""@,
            r.width == 1280,
            r.height == 1280,
            r.fps == 30,
            r.video_stream_id@ == "avatar.video"@,
            r.scene_glb_path is None,
            r.realtime_mode == false,
    {
        CcRenderConfig {
            glb_path: "".to_owned(),
            arkit_map_path: "".to_owned(),
            width: 1280,
            height: 1280,
            fps: 30,
            video_stream_id: "avatar.video".to_owned(),
            scene_glb_path: None,
            realtime_mode: false,
        }
    }
}

/// The state of a node, as plain mathematics.
#[verifier::ext_equal]
pub struct NodeState<S> {
    /// Frames per second, at least one.
    pub fps: nat,
    pub realtime: bool,
    pub stream_id: Seq<char>,
    /// Pictures emitted so far.
    pub frames: nat,
    /// Presentation time of the first emitted picture since the last barge-in.
    pub anchor: Option<u64>,
    pub audio: AudioState<S>,
    /// Whether readiness has been announced.
    pub announced: bool,
    pub last_audio: Option<u64>,
    pub last_skel: Option<u64>,
    pub first_bs: Option<u64>,
    /// Pictures discarded as stale, modulo the machine word.
    pub stale: u64,
}

/// `now` is less than `span` after `t`.
pub open spec fn within(t: Option<u64>, now: u64, span: u64) -> bool {
    t matches Some(at) && now - at < span
}

impl<S> NodeState<S> {
    /// A node that has seen no input.
    pub open spec fn initial(config: CcRenderConfig) -> NodeState<S> {
        NodeState {
            fps: if config.fps >= 1 {
                config.fps as nat
            } else {
                1
            },
            realtime: config.realtime_mode,
            stream_id: config.video_stream_id@,
            frames: 0,
            anchor: None,
            audio: AudioState::empty(),
            announced: false,
            last_audio: None,
            last_skel: None,
            first_bs: None,
            stale: 0,
        }
    }

    /// Back to rest: no anchor, no queued audio.
    pub open spec fn barged_in(self) -> NodeState<S> {
        NodeState { anchor: None, audio: self.audio.flushed(), ..self }
    }

    /// A packet of mono samples has arrived.
    pub open spec fn heard(self, mono: Seq<S>, rate: nat, now: u64) -> NodeState<S> {
        NodeState { audio: self.audio.received(mono, rate), last_audio: Some(now), ..self }
    }

    /// A facial frame has arrived.
    pub open spec fn saw_face(self, now: u64) -> NodeState<S> {
        NodeState {
            first_bs: if self.first_bs is None {
                Some(now)
            } else {
                self.first_bs
            },
            ..self
        }
    }

    /// A body pose has arrived.
    pub open spec fn saw_body(self, now: u64) -> NodeState<S> {
        NodeState { last_skel: Some(now), ..self }
    }

    /// Whether a paired tick may emit: audio has been heard, the first facial
    /// frame has had time to be applied, and some input is still live.
    pub open spec fn live(self, queue_depth: nat, now: u64) -> bool {
        &&& self.last_audio is Some
        &&& self.first_bs is Some
        &&& !within(self.first_bs, now, FIRST_BS_APPLY_GRACE_NS)
        &&& {
            ||| self.audio.sample_rate != 0 && self.audio.samples.len() > 0
            ||| within(self.last_audio, now, TAIL_QUIET_NS)
            ||| within(self.last_skel, now, TAIL_QUIET_NS)
            ||| queue_depth > 0
        }
    }

    /// Samples that lie before presentation time `pts_ms`.
    pub open spec fn lead_in(self, pts_ms: u64) -> nat {
        if self.audio.sample_rate != 0 && pts_ms > 0 {
            (((pts_ms * self.audio.sample_rate) / 1000) as u128 as usize) as nat
        } else {
            0
        }
    }

    /// The first emission since a barge-in drops the audio that lies before the
    /// visible pose, so that sound and mouth start together.
    pub open spec fn aligned(self, pts_ms: u64) -> NodeState<S> {
        if self.anchor is Some {
            self
        } else {
            NodeState {
                anchor: Some(pts_ms),
                audio: self.audio.skipped(self.lead_in(pts_ms)),
                ..self
            }
        }
    }

    /// Samples owed with the next picture.
    pub open spec fn owed(self) -> nat {
        self.audio.owed(self.frames + 1, self.fps)
    }

    /// Whether the next picture can be emitted.
    pub open spec fn can_emit(self) -> bool {
        self.realtime || (self.audio.sample_rate != 0 && self.owed() > 0)
    }

    /// The state after one more picture, with its audio where audio is paired.
    pub open spec fn emitted(self) -> NodeState<S> {
        if self.realtime {
            NodeState { frames: self.frames + 1, ..self }
        } else {
            NodeState { frames: self.frames + 1, audio: self.audio.drained(self.owed()), ..self }
        }
    }

    /// Presentation time of the next picture in microseconds.
    pub open spec fn video_ts(self) -> nat {
        (self.frames * 1_000_000) / self.fps
    }

    /// Presentation time of the next audio chunk in microseconds.
    pub open spec fn audio_ts(self) -> nat {
        (self.audio.emitted * 1_000_000) / self.audio.sample_rate
    }

    /// The state after emitting as many of `n` pictures as can be emitted.
    pub open spec fn after(self, n: nat) -> NodeState<S>
        decreases n,
    {
        if n == 0 || !self.can_emit() {
            self
        } else {
            self.emitted().after((n - 1) as nat)
        }
    }

    /// How many of `n` pictures can be emitted one after the other.
    pub open spec fn emits(self, n: nat) -> nat
        decreases n,
    {
        if n == 0 || !self.can_emit() {
            0
        } else {
            1 + self.emitted().emits((n - 1) as nat)
        }
    }

    /// The state after exactly `n` emissions.
    pub open spec fn advanced(self, n: nat) -> NodeState<S>
        decreases n,
    {
        if n == 0 {
            self
        } else {
            self.advanced((n - 1) as nat).emitted()
        }
    }

    /// The clocks stay within machine words for `n` more pictures.
    pub open spec fn in_range(self, n: nat) -> bool {
        &&& (self.frames + n) * 1_000_000 <= u64::MAX
        &&& (self.frames + n) * self.audio.sample_rate <= u64::MAX
        &&& audio::samples_through(self.frames + n, self.audio.sample_rate, self.fps)
            <= usize::MAX
        &&& audio::samples_through(self.frames + n, self.audio.sample_rate, self.fps) * 1_000_000
            <= u64::MAX
    }

    /// The samples handed out are exactly those that belong to the pictures
    /// emitted.
    pub open spec fn on_clock(self) -> bool {
        self.audio.emitted == audio::samples_through(
            self.frames,
            self.audio.sample_rate,
            self.fps,
        )
    }

    /// A node that pairs sound is on its clock and has emitted nothing before the
    /// sample rate was known; one that does not has handed out no sample.
    pub open spec fn wf(self) -> bool {
        &&& self.fps >= 1
        &&& !self.realtime ==> self.on_clock()
        &&& !self.realtime && self.audio.sample_rate == 0 ==> self.frames == 0
        &&& self.realtime ==> self.audio.emitted == 0
    }
}

/// Packets on the reactive input.
#[derive(Debug)]
pub enum Packet<S> {
    /// Interleaved samples.
    Audio { samples: Vec<S>, sample_rate: u32, channels: u32 },
    Json(Json),
    /// Anything else; ignored.
    Other,
}

/// What to push to the renderer.
#[derive(Debug)]
pub enum RendererCmd<W> {
    Pose(ArkitPose<W>),
    /// `None` ends the stream of body poses.
    Skeletal(Option<SkeletalPose>),
}

/// An emitted picture.
#[derive(Debug)]
pub struct Video {
    pub pixels: Vec<u8>,
    pub width: u32,
    pub height: u32,
    pub frame_number: u64,
    pub timestamp_us: u64,
    pub stream_id: String,
}

/// An emitted chunk of mono audio.
#[derive(Debug)]
pub struct AudioChunk<S> {
    pub samples: Vec<S>,
    pub sample_rate: u32,
    pub channels: u32,
    pub timestamp_us: u64,
}

/// A picture and the audio that goes with it.
#[derive(Debug)]
pub struct Emission<S> {
    pub video: Video,
    pub audio: Option<AudioChunk<S>>,
}

/// The answer to a report on the renderer's readiness.
#[derive(Clone, Copy, Debug, PartialEq, Eq, Structural)]
pub enum ReadyStep {
    /// The scene is still loading: throw rendered pictures away.
    Discard,
    /// Tell the world once that the renderer is ready, then go on.
    Announce,
    /// Go on.
    Proceed,
}

/// The answer to a report on readiness, and the state after it.
pub open spec fn polled<S>(st: NodeState<S>, ready: bool) -> (ReadyStep, NodeState<S>) {
    if !ready {
        (ReadyStep::Discard, st)
    } else if !st.announced {
        (ReadyStep::Announce, NodeState { announced: true, ..st })
    } else {
        (ReadyStep::Proceed, st)
    }
}

/// The pictures a tick goes on to emit, given the pictures rendered since the
/// last tick, and the state before the first of them.
pub open spec fn planned<S>(
    st: NodeState<S>,
    frames: Seq<RenderedFrame>,
    queue_depth: nat,
    now: u64,
) -> (Seq<RenderedFrame>, NodeState<S>) {
    if frames.len() == 0 {
        (frames, st)
    } else if st.realtime {
        (
            seq![frames.last()],
            NodeState { stale: st.stale.wrapping_add((frames.len() - 1) as u64), ..st },
        )
    } else if st.live(queue_depth, now) {
        (frames, st.aligned(frames[0].pts_ms))
    } else {
        (Seq::empty(), st)
    }
}

/// `e` is the emission of `frame` in state `st`.
pub open spec fn emission_of<S>(
    st: NodeState<S>,
    frame: RenderedFrame,
    silence: S,
    e: Emission<S>,
) -> bool {
    &&& e.video.pixels@ == frame.pixels@
    &&& e.video.width == frame.width
    &&& e.video.height == frame.height
    &&& e.video.frame_number == st.frames
    &&& e.video.timestamp_us == st.video_ts()
    &&& e.video.stream_id@ == st.stream_id
    &&& e.audio is None == st.realtime
    &&& e.audio matches Some(a) ==> {
        &&& a.samples@ == st.audio.chunk(st.owed(), silence)
        &&& a.sample_rate == st.audio.sample_rate
        &&& a.channels == 1
        &&& a.timestamp_us == st.audio_ts()
    }
}

/// The pushes that bring the avatar back to rest.
pub open spec fn rest_cmds<W>(cmds: Seq<RendererCmd<W>>) -> bool {
    &&& cmds.len() == 2
    &&& cmds[0] matches RendererCmd::Pose(p) && p.is_rest()
    &&& cmds[1] == RendererCmd::<W>::Skeletal(None)
}

/// Everything that one tick sends out.
#[derive(Debug)]
pub struct TickOutput<S> {
    /// Whether readiness is announced.
    pub announce: bool,
    pub emissions: Vec<Emission<S>>,
}

/// The streaming node.
pub struct CcRenderNode<S> {
    config: CcRenderConfig,
    silence: S,
    frame_counter: u64,
    anchor_pts_ms: Option<u64>,
    audio_buf: AudioBuf<S>,
    ready_signaled: bool,
    last_audio_recv_at: Option<u64>,
    last_skel_recv_at: Option<u64>,
    first_bs_recv_at: Option<u64>,
    stale_frames_dropped: u64,
}

impl<S> View for CcRenderNode<S> {
    type V = NodeState<S>;

    closed spec fn view(&self) -> NodeState<S> {
        NodeState {
            fps: if self.config.fps >= 1 {
                self.config.fps as nat
            } else {
                1
            },
            realtime: self.config.realtime_mode,
            stream_id: self.config.video_stream_id@,
            frames: self.frame_counter as nat,
            anchor: self.anchor_pts_ms,
            audio: self.audio_buf@,
            announced: self.ready_signaled,
            last_audio: self.last_audio_recv_at,
            last_skel: self.last_skel_recv_at,
            first_bs: self.first_bs_recv_at,
            stale: self.stale_frames_dropped,
        }
    }
}

/// `now` is less than `span` after `t`.
fn is_within(t: Option<u64>, now: u64, span: u64) -> (r: bool)
    requires
        span > 0,
    ensures
        r == within(t, now, span),
{
    match t {
        Some(at) => now < at || now - at < span,
        None => false,
    }
}

impl<S: Copy> CcRenderNode<S> {
    /// The sample that stands for silence.
    pub closed spec fn spec_silence(&self) -> S {
        self.silence
    }

    /// The node's settings.
    pub closed spec fn spec_config(&self) -> CcRenderConfig {
        self.config
    }

    /// A node that has seen no input. `silence` is the sample used for padding.
    pub fn new(config: CcRenderConfig, silence: S) -> (node: Self)
        ensures
            node@ == NodeState::<S>::initial(config),
            node@.wf(),
            node.spec_config() == config,
            node.spec_silence() == silence,
    {
        let node = CcRenderNode {
            config,
            silence,
            frame_counter: 0,
            anchor_pts_ms: None,
            audio_buf: AudioBuf::new(),
            ready_signaled: false,
            last_audio_recv_at: None,
            last_skel_recv_at: None,
            first_bs_recv_at: None,
            stale_frames_dropped: 0,
        };
        assert(node@ =~= NodeState::<S>::initial(config));
        assert(0nat * 0nat / node@.fps == 0) by (nonlinear_arith)
            requires
                node@.fps >= 1,
        ;
        node
    }

    /// The node's settings.
    pub fn config(&self) -> (r: &CcRenderConfig)
        ensures
            *r == self.spec_config(),
    {
        &self.config
    }

    /// Name under which the node is registered.
    pub fn node_type(&self) -> (r: &'static str)
        ensures
            r@ == "CcRenderNode"@,
    {
        "CcRenderNode"
    }

    /// Pictures emitted so far.
    pub fn frames_emitted(&self) -> (r: u64)
        ensures
            r == self@.frames,
    {
        self.frame_counter
    }

    /// Pictures discarded as stale so far.
    pub fn stale_frames_dropped(&self) -> (r: u64)
        ensures
            r == self@.stale,
    {
        self.stale_frames_dropped
    }

    /// Samples waiting to be emitted.
    pub fn queued_samples(&self) -> (r: usize)
        ensures
            r == self@.audio.samples.len(),
    {
        self.audio_buf.len()
    }

    /// Rate at which the node is ticked when no media clock is bound.
    pub fn fallback_rate_hz(&self) -> (r: u32)
        ensures
            r == self@.fps,
    {
        if self.config.fps >= 1 {
            self.config.fps
        } else {
            1
        }
    }

    /// Takes one packet from the reactive input and returns what to push to
    /// the renderer, in order. `names` are the facial channels, `mix` reduces a
    /// frame of several channels to one sample, `clamp` brings a facial weight
    /// into the unit interval.
    pub fn process_streaming<W, M: Fn(&[S]) -> S, C: Fn(Num) -> W>(
        &mut self,
        packet: &Packet<S>,
        now: u64,
        names: &Vec<String>,
        mix: M,
        clamp: &C,
    ) -> (cmds: Vec<RendererCmd<W>>)
        requires
            old(self)@.wf(),
            names@.len() == arkit::CHANNELS,
            packet matches Packet::Audio { channels, .. } ==> *channels >= 1 && (forall|
                frame: &[S],
            |
                frame@.len() == *channels ==> call_requires(mix, (frame,))),
            forall|n: Num| call_requires(*clamp, (n,)),
        ensures
            final(self)@.wf(),
            final(self).spec_config() == old(self).spec_config(),
            final(self).spec_silence() == old(self).spec_silence(),
            match packet {
                Packet::Audio { samples, sample_rate, channels } => {
                    &&& cmds@.len() == 0
                    &&& *channels == 1 ==> final(self)@ == old(self)@.heard(
                        samples@,
                        *sample_rate as nat,
                        now,
                    )
                    &&& *channels != 1 ==> exists|mono: Seq<S>| #[trigger]
                        audio::mixed_down(samples@, *channels as nat, mix, mono) && final(self)@
                            == old(self)@.heard(
                            mono,
                            *sample_rate as nat,
                            now,
                        )
                },
                Packet::Json(v) => match envelope::request(v@) {
                    Request::Blendshapes => {
                        &&& final(self)@ == old(self)@.saw_face(now)
                        &&& cmds@.len() == 1
                        &&& cmds@[0] matches RendererCmd::Pose(pose) && exists|
                            f: arkit::BlendshapeFrame,
                        |
                            #[trigger]
                            arkit::frame_of(v@, f) && arkit::driven_by(pose, f, names@, *clamp)
                    },
                    Request::Skeletal => {
                        &&& final(self)@ == old(self)@.saw_body(now)
                        &&& cmds@.len() == 1
                        &&& cmds@[0] matches RendererCmd::Skeletal(Some(pose))
                            && renderer::pose_of(v@, pose)
                    },
                    Request::BargeIn => {
                        &&& final(self)@ == old(self)@.barged_in()
                        &&& rest_cmds(cmds@)
                    },
                    Request::Nothing => final(self)@ == old(self)@ && cmds@.len() == 0,
                },
                Packet::Other => final(self)@ == old(self)@ && cmds@.len() == 0,
            },
    {
        let ghost before = self@;
        let mut cmds: Vec<RendererCmd<W>> = Vec::new();
        match packet {
            Packet::Audio { samples, sample_rate, channels } => {
                self.last_audio_recv_at = Some(now);
                self.audio_buf.receive(samples.as_slice(), *sample_rate, *channels, mix);
                proof {
                    if *channels == 1 {
                        assert(self@ =~= before.heard(samples@, *sample_rate as nat, now));
                    } else {
                        let mono = choose|mono: Seq<S>| #[trigger]
                            audio::mixed_down(samples@, *channels as nat, mix, mono)
                                && self.audio_buf@ == before.audio.received(
                                mono,
                                *sample_rate as nat,
                            );
                        assert(self@ =~= before.heard(
                            mono,
                            *sample_rate as nat,
                            now,
                        ));
                    }
                    lemma_new_format_keeps_wf(before, self@);
                }
            },
            Packet::Json(v) => match envelope::decode_envelope(v) {
                Some(RendererInput::Blendshape(f)) => {
                    if self.first_bs_recv_at.is_none() {
                        self.first_bs_recv_at = Some(now);
                    }
                    let pose: ArkitPose<W> = arkit::frame_to_pose(&f, names, clamp);
                    cmds.push(RendererCmd::Pose(pose));
                    assert(self@ =~= before.saw_face(now));
                    assert(arkit::frame_of(v@, f));
                },
                Some(RendererInput::Skeletal(p)) => {
                    self.last_skel_recv_at = Some(now);
                    cmds.push(RendererCmd::Skeletal(Some(p)));
                    assert(self@ =~= before.saw_body(now));
                },
                Some(RendererInput::BargeIn) => {
                    cmds = self.barge_in();
                },
                None => {},
            },
            Packet::Other => {},
        }
        cmds
    }

    /// Snaps back to rest: forgets the anchor and the queued audio, and returns
    /// the pushes that end the pose streams.
    pub fn barge_in<W>(&mut self) -> (cmds: Vec<RendererCmd<W>>)
        requires
            old(self)@.wf(),
        ensures
            final(self)@.wf(),
            final(self).spec_config() == old(self).spec_config(),
            final(self).spec_silence() == old(self).spec_silence(),
            final(self)@ == old(self)@.barged_in(),
            rest_cmds(cmds@),
    {
        let mut cmds: Vec<RendererCmd<W>> = Vec::new();
        cmds.push(RendererCmd::Pose(ArkitPose::default()));
        cmds.push(RendererCmd::Skeletal(None));
        self.anchor_pts_ms = None;
        self.audio_buf.flush();
        assert(self@ =~= old(self)@.barged_in());
        cmds
    }

    /// Takes an out-of-band message. A barge-in is handled, with the pushes it
    /// asks for; anything else is left alone.
    pub fn process_control_message<W>(&mut self, message: &Json) -> (r: Option<Vec<RendererCmd<W>>>)
        requires
            old(self)@.wf(),
        ensures
            final(self)@.wf(),
            final(self).spec_config() == old(self).spec_config(),
            final(self).spec_silence() == old(self).spec_silence(),
            r is Some == (envelope::aux_port(message@) == Some("barge_in"@)),
            match r {
                Some(cmds) => rest_cmds(cmds@) && final(self)@ == old(self)@.barged_in(),
                None => final(self)@ == old(self)@,
            },
    {
        if envelope::is_barge_in_port(message) {
            Some(self.barge_in())
        } else {
            None
        }
    }

    /// First step of a tick: what the renderer's readiness means.
    pub fn poll_ready(&mut self, ready: bool) -> (r: ReadyStep)
        ensures
            r == polled(old(self)@, ready).0,
            final(self)@ == polled(old(self)@, ready).1,
            final(self).spec_config() == old(self).spec_config(),
            final(self).spec_silence() == old(self).spec_silence(),
    {
        if !ready {
            ReadyStep::Discard
        } else if !self.ready_signaled {
            self.ready_signaled = true;
            assert(self@ =~= polled(old(self)@, ready).1);
            ReadyStep::Announce
        } else {
            ReadyStep::Proceed
        }
    }

    /// Whether the clocks stay within machine words for `n` more pictures.
    pub fn clock_in_range(&self, n: usize) -> (r: bool)
        requires
            self@.wf(),
        ensures
            r == self@.in_range(n as nat),
    {
        let fps: u128 = self.fallback_rate_hz() as u128;
        let total: u128 = self.frame_counter as u128 + n as u128;
        let rate: u128 = self.audio_buf.sample_rate() as u128;
        let word: u128 = u64::MAX as u128;
        proof {
            assert(total * rate <= 0x2_0000_0000_0000_0000 * 0x1_0000_0000) by (nonlinear_arith)
                requires
                    total <= 0x2_0000_0000_0000_0000,
                    rate <= 0x1_0000_0000,
            ;
            assert((total * rate) / fps as int <= total * rate) by (nonlinear_arith)
                requires
                    fps >= 1,
                    total * rate >= 0,
            ;
            assert(total * rate >= 0) by (nonlinear_arith);
        }
        if total * 1_000_000 > word || total * rate > word {
            return false;
        }
        let samples: u128 = total * rate / fps;
        samples <= usize::MAX as u128 && samples * 1_000_000 <= word
    }

    /// Second step of a tick: takes the pictures rendered since the last tick
    /// and returns those to emit, in order. In realtime mode only the latest
    /// picture survives. Otherwise all survive while the inputs are live, and
    /// the first emission aligns the audio with the visible pose.
    pub fn begin_tick(
        &mut self,
        frames: Vec<RenderedFrame>,
        queue_depth: usize,
        now: u64,
    ) -> (plan: Vec<RenderedFrame>)
        requires
            old(self)@.wf(),
        ensures
            plan@ == planned(old(self)@, frames@, queue_depth as nat, now).0,
            final(self)@ == planned(old(self)@, frames@, queue_depth as nat, now).1,
            final(self)@.wf(),
            final(self).spec_config() == old(self).spec_config(),
            final(self).spec_silence() == old(self).spec_silence(),
    {
        let ghost before = self@;
        let ghost rendered = frames@;
        let mut frames: Vec<RenderedFrame> = frames;
        if frames.len() == 0 {
            return frames;
        }
        if self.config.realtime_mode {
            let surplus: usize = frames.len() - 1;
            self.stale_frames_dropped = self.stale_frames_dropped.wrapping_add(surplus as u64);
            let mut plan: Vec<RenderedFrame> = Vec::new();
            if let Some(latest) = frames.pop() {
                plan.push(latest);
            }
            assert(plan@ =~= seq![rendered.last()]);
            assert(self@ =~= planned(before, rendered, queue_depth as nat, now).1);
            return plan;
        }
        if !self.is_live(queue_depth, now) {
            return Vec::new();
        }
        if self.anchor_pts_ms.is_none() {
            let pts_ms: u64 = frames[0].pts_ms;
            let rate: u32 = self.audio_buf.sample_rate();
            if rate != 0 && pts_ms > 0 {
                assert(pts_ms * rate <= 0xffff_ffff_ffff_ffff * 0xffff_ffff) by (nonlinear_arith)
                    requires
                        pts_ms <= 0xffff_ffff_ffff_ffff,
                        rate <= 0xffff_ffff,
                ;
                assert(pts_ms * rate >= 0) by (nonlinear_arith);
                let lead: u128 = (pts_ms as u128 * rate as u128) / 1000;
                self.audio_buf.skip(lead as usize);
            } else {
                assert(before.audio.skipped(0) =~= before.audio);
            }
            self.anchor_pts_ms = Some(pts_ms);
            assert(self@ =~= before.aligned(rendered[0].pts_ms));
        }
        frames
    }

    /// Whether a paired tick may emit now.
    fn is_live(&self, queue_depth: usize, now: u64) -> (r: bool)
        ensures
            r == self@.live(queue_depth as nat, now),
    {
        if self.last_audio_recv_at.is_none() || self.first_bs_recv_at.is_none() {
            return false;
        }
        if is_within(self.first_bs_recv_at, now, FIRST_BS_APPLY_GRACE_NS) {
            return false;
        }
        (self.audio_buf.sample_rate() != 0 && !self.audio_buf.is_empty()) || is_within(
            self.last_audio_recv_at,
            now,
            TAIL_QUIET_NS,
        ) || is_within(self.last_skel_recv_at, now, TAIL_QUIET_NS) || queue_depth > 0
    }

    /// Third step of a tick, once per planned picture: the picture with its
    /// audio, or `None` where no audio can be paired and the tick ends.
    pub fn emit(&mut self, frame: RenderedFrame) -> (r: Option<Emission<S>>)
        requires
            old(self)@.wf(),
            old(self)@.in_range(1),
        ensures
            final(self)@.wf(),
            final(self).spec_config() == old(self).spec_config(),
            final(self).spec_silence() == old(self).spec_silence(),
            r is Some == old(self)@.can_emit(),
            match r {
                Some(e) => {
                    &&& emission_of(old(self)@, frame, old(self).spec_silence(), e)
                    &&& final(self)@ == old(self)@.emitted()
                },
                None => final(self)@ == old(self)@,
            },
    {
        let ghost before = self@;
        let fps: u64 = self.fallback_rate_hz() as u64;
        let number: u64 = self.frame_counter;
        proof {
            lemma_emit_range(before);
        }
        let audio: Option<AudioChunk<S>> = if self.config.realtime_mode {
            None
        } else {
            let rate: u64 = self.audio_buf.sample_rate() as u64;
            if rate == 0 {
                return None;
            }
            let total: u64 = ((number + 1) * rate) / fps;
            let already: u64 = self.audio_buf.samples_emitted();
            let want: u64 = if total >= already {
                total - already
            } else {
                0
            };
            if want == 0 {
                return None;
            }
            let timestamp_us: u64 = (already * 1_000_000) / rate;
            let samples: Vec<S> = self.audio_buf.drain(want as usize, self.silence);
            Some(AudioChunk { samples, sample_rate: rate as u32, channels: 1, timestamp_us })
        };
        self.frame_counter = number + 1;
        let video = Video {
            pixels: frame.pixels,
            width: frame.width,
            height: frame.height,
            frame_number: number,
            timestamp_us: (number * 1_000_000) / fps,
            stream_id: self.config.video_stream_id.clone(),
        };
        proof {
            assert(self@ =~= before.emitted());
            lemma_emitted_wf(before);
        }
        Some(Emission { video, audio })
    }

    /// One whole tick whose outputs are all accepted.
    pub fn tick(
        &mut self,
        ready: bool,
        frames: Vec<RenderedFrame>,
        queue_depth: usize,
        now: u64,
    ) -> (out: TickOutput<S>)
        requires
            old(self)@.wf(),
            old(self)@.in_range(frames@.len()),
        ensures
            final(self)@.wf(),
            final(self).spec_config() == old(self).spec_config(),
            final(self).spec_silence() == old(self).spec_silence(),
            out.announce == (polled(old(self)@, ready).0 == ReadyStep::Announce),
            !ready ==> out.emissions@.len() == 0 && final(self)@ == old(self)@,
            ready ==> ({
                let (plan, start) = planned(
                    polled(old(self)@, ready).1,
                    frames@,
                    queue_depth as nat,
                    now,
                );
                &&& final(self)@ == start.after(plan.len())
                &&& out.emissions@.len() == start.emits(plan.len())
                &&& forall|i: int|
                    0 <= i < out.emissions@.len() ==> emission_of(
                        start.advanced(i as nat),
                        plan[i],
                        old(self).spec_silence(),
                        #[trigger] out.emissions@[i],
                    )
            }),
    {
        let step: ReadyStep = self.poll_ready(ready);
        let announce: bool = step == ReadyStep::Announce;
        let mut emissions: Vec<Emission<S>> = Vec::new();
        if step == ReadyStep::Discard {
            return TickOutput { announce, emissions };
        }
        let ghost silence = old(self).spec_silence();
        let ghost rendered = frames@.len();
        let plan: Vec<RenderedFrame> = self.begin_tick(frames, queue_depth, now);
        let ghost planned_frames = plan@;
        let ghost start = self@;
        let ghost count = plan@.len();
        proof {
            lemma_in_range_mono(start, count, rendered);
        }
        let mut rest: Vec<RenderedFrame> = list::reversed(plan);
        while rest.len() > 0
            invariant
                self@.wf(),
                self.spec_config() == old(self).spec_config(),
                self.spec_silence() == silence,
                silence == old(self).spec_silence(),
                ready,
                announce == (polled(old(self)@, ready).0 == ReadyStep::Announce),
                planned(polled(old(self)@, ready).1, frames@, queue_depth as nat, now) == (
                    planned_frames,
                    start,
                ),
                planned_frames.len() == count,
                emissions@.len() + rest@.len() == count,
                start.in_range(count),
                start.fps >= 1,
                self@ == start.advanced(emissions@.len()),
                self@.fps == start.fps,
                self@.audio.sample_rate == start.audio.sample_rate,
                self@.frames == start.frames + emissions@.len(),
                start.after(count) == self@.after((count - emissions@.len()) as nat),
                start.emits(count) == emissions@.len() + self@.emits(
                    (count - emissions@.len()) as nat,
                ),
                forall|i: int|
                    0 <= i < rest@.len() ==> (#[trigger] rest@[i]) == planned_frames[count - 1 - i],
                forall|i: int|
                    0 <= i < emissions@.len() ==> emission_of(
                        start.advanced(i as nat),
                        planned_frames[i],
                        silence,
                        #[trigger] emissions@[i],
                    ),
            decreases rest.len(),
        {
            let ghost here = self@;
            let ghost done = emissions@.len();
            proof {
                lemma_in_range_step(start, here, done, count);
            }
            match rest.pop() {
                Some(frame) => {
                    assert(frame == planned_frames[done as int]);
                    match self.emit(frame) {
                        Some(e) => {
                            emissions.push(e);
                            assert(start.advanced((done + 1) as nat) == here.emitted());
                        },
                        None => {
                            return TickOutput { announce, emissions };
                        },
                    }
                },
                None => {},
            }
        }
        TickOutput { announce, emissions }
    }
}

/// Fixing the sample rate leaves the node on its clock.
pub proof fn lemma_new_format_keeps_wf<S>(before: NodeState<S>, after: NodeState<S>)
    requires
        before.wf(),
        after.fps == before.fps,
        after.frames == before.frames,
        after.realtime == before.realtime,
        after.audio.emitted == before.audio.emitted,
        before.audio.sample_rate != 0 ==> after.audio.sample_rate == before.audio.sample_rate,
    ensures
        after.wf(),
{
    if before.audio.sample_rate == 0 {
        let rate = after.audio.sample_rate;
        let fps = before.fps;
        assert((before.frames * 0nat) / fps == 0) by (nonlinear_arith)
            requires
                fps >= 1,
        ;
        assert((0nat * rate) / fps == 0) by (nonlinear_arith)
            requires
                fps >= 1,
        ;
    }
}

/// One emission stays within machine words.
proof fn lemma_emit_range<S>(st: NodeState<S>)
    requires
        st.wf(),
        st.in_range(1),
    ensures
        (st.frames + 1) * 1_000_000 <= u64::MAX,
        st.frames * 1_000_000 <= u64::MAX,
        (st.frames + 1) * st.audio.sample_rate <= u64::MAX,
        st.audio.emitted * 1_000_000 <= u64::MAX,
        st.audio.emitted <= audio::samples_through(
            st.frames + 1,
            st.audio.sample_rate,
            st.fps,
        ),
{
    lemma_samples_mono(st.frames, st.frames + 1, st.audio.sample_rate, st.fps);
}

/// More pictures never owe fewer samples.
pub proof fn lemma_samples_mono(a: nat, b: nat, rate: nat, fps: nat)
    requires
        a <= b,
        fps >= 1,
    ensures
        audio::samples_through(a, rate, fps) <= audio::samples_through(b, rate, fps),
{
    assert(a * rate <= b * rate) by (nonlinear_arith)
        requires
            a <= b,
    ;
    assert((a * rate) / fps <= (b * rate) / fps) by (nonlinear_arith)
        requires
            a * rate <= b * rate,
            fps >= 1,
    ;
}

/// An emission hands out exactly what was owed.
pub proof fn lemma_emitted_wf<S>(st: NodeState<S>)
    requires
        st.wf(),
        st.can_emit(),
    ensures
        st.emitted().wf(),
{
    lemma_samples_mono(st.frames, st.frames + 1, st.audio.sample_rate, st.fps);
}

/// A range that holds for more pictures holds for fewer.
proof fn lemma_in_range_mono<S>(st: NodeState<S>, n: nat, m: nat)
    requires
        st.fps >= 1,
        n <= m,
        st.in_range(m),
    ensures
        st.in_range(n),
{
    lemma_samples_mono(st.frames + n, st.frames + m, st.audio.sample_rate, st.fps);
    assert((st.frames + n) * st.audio.sample_rate <= (st.frames + m) * st.audio.sample_rate)
        by (nonlinear_arith)
        requires
            n <= m,
    ;
}

/// The range for a whole tick covers each of its emissions.
proof fn lemma_in_range_step<S>(start: NodeState<S>, here: NodeState<S>, done: nat, count: nat)
    requires
        start.fps >= 1,
        start.in_range(count),
        done < count,
        here.fps == start.fps,
        here.audio.sample_rate == start.audio.sample_rate,
        here.frames == start.frames + done,
    ensures
        here.in_range(1),
{
    lemma_in_range_mono(start, (done + 1) as nat, count);
}

} // verus!
