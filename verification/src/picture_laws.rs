//! What holds of pictures, settings and files, byte by byte and number by number.
use crate::audio;
use crate::capture;
use crate::config;
use crate::config::{GrabConfig, PhysicsConfig, PlayVolume, RendererConfig};
use crate::envelope_laws;
use crate::envelope_laws::{member_is, member_missing};
use crate::glb;
use crate::json;
use crate::json::{JsonView, Num};
use crate::manifest;
use crate::manifest::CcRenderManifestParams;
use crate::node::CcRenderConfig;
use vstd::prelude::*;

verus! {

/// A row of the copy buffer holds four bytes a pixel and is the shortest such row whose
/// length is a multiple of 256.
pub proof fn law_rows_are_padded_to_256(width: u32)
    ensures
        capture::tight_row(width) == 4 * width,
        capture::padded_row(width) % 256 == 0,
        4 * width <= capture::padded_row(width) < 4 * width + 256,
{
}

/// A stripped picture has four bytes a pixel, and each of them is the byte at the same
/// place of the same row in the copy buffer.
pub proof fn law_stripping_keeps_every_byte(
    view: Seq<u8>,
    width: u32,
    height: u32,
    row: int,
    col: int,
)
    requires
        0 <= row < height,
        0 <= col < 4 * width,
        (height - 1) * capture::padded_row(width) + 4 * width <= view.len(),
    ensures
        capture::stripped(view, width, height).len() == 4 * width * height,
        capture::stripped(view, width, height)[row * (4 * width) + col] == view[row
            * capture::padded_row(width) + col],
    decreases height,
{
    let w = 4 * width;
    let pad = capture::padded_row(width) as int;
    let h = height - 1;
    let upper = capture::stripped(view, width, h as u32);
    assert(h * pad >= 0) by (nonlinear_arith)
        requires
            h >= 0,
            pad >= 0,
    ;
    assert((h - 1) * pad <= h * pad) by (nonlinear_arith)
        requires
            pad >= 0,
    ;
    lemma_stripped_len(view, width, h as u32);
    assert(w * height == w * h + w) by (nonlinear_arith)
        requires
            h == height - 1,
    ;
    assert(h * w == w * h) by (nonlinear_arith);
    if row < h {
        law_stripping_keeps_every_byte(view, width, h as u32, row, col);
        assert(row * w + w <= h * w) by (nonlinear_arith)
            requires
                row + 1 <= h,
                w >= 0,
        ;
        assert(row * w + col >= 0) by (nonlinear_arith)
            requires
                row >= 0,
                w >= 0,
                col >= 0,
        ;
    }
}

proof fn lemma_stripped_len(view: Seq<u8>, width: u32, height: u32)
    requires
        height == 0 || (height - 1) * capture::padded_row(width) + 4 * width <= view.len(),
    ensures
        capture::stripped(view, width, height).len() == 4 * width * height,
    decreases height,
{
    let w = 4 * width;
    let pad = capture::padded_row(width) as int;
    if height == 0 {
        assert(w * 0 == 0) by (nonlinear_arith);
    } else {
        let h = height - 1;
        assert((h - 1) * pad <= h * pad && h * pad >= 0) by (nonlinear_arith)
            requires
                h >= 0,
                pad >= 0,
        ;
        lemma_stripped_len(view, width, h as u32);
        assert(w * height == w * h + w) by (nonlinear_arith)
            requires
                h == height - 1,
        ;
    }
}

/// A copy buffer holds a picture when it reaches to the last byte of the last row; the
/// padding behind that row may be missing.
pub proof fn law_buffers_may_lack_the_last_padding(len: nat, width: u32, height: u32)
    ensures
        capture::holds_rows(len, width, 0),
        height > 0 ==> capture::holds_rows(len, width, height) == ((height - 1)
            * capture::padded_row(width) + 4 * width <= len),
{
}

/// The mean of a channel is taken over the first 64 pixels, or over all where there are
/// fewer, rounded down, and is zero where there is none.
pub proof fn law_mean_of_the_first_pixels(pixels: Seq<u8>, channel: int, n: nat)
    ensures
        pixels.len() >= 256 ==> capture::sampled(pixels.len()) == 64,
        pixels.len() < 256 ==> capture::sampled(pixels.len()) == pixels.len() / 4,
        capture::channel_sum(pixels, channel, 0) == 0,
        capture::channel_sum(pixels, channel, n + 1) == capture::channel_sum(pixels, channel, n)
            + pixels[4 * n + channel],
        pixels.len() < 4 ==> capture::channel_mean(pixels, channel) == 0,
        pixels.len() >= 4 ==> {
            let k = capture::sampled(pixels.len());
            let sum = capture::channel_sum(pixels, channel, k);
            let mean = capture::channel_mean(pixels, channel);
            mean * k <= sum && sum < mean * k + k
        },
{
    if pixels.len() >= 4 {
        let k = capture::sampled(pixels.len());
        let sum = capture::channel_sum(pixels, channel, k);
        let mean = sum / k;
        assert(mean * k <= sum && sum < mean * k + k) by (nonlinear_arith)
            requires
                mean == sum / k,
                k >= 1,
        ;
    }
}

/// What the renderer and its physics are told unless someone says otherwise.
pub proof fn law_usual_settings(r: RendererConfig, p: PhysicsConfig, g: GrabConfig, n: u32)
    ensures
        config::at_least_one(0) == 1,
        n > 0 ==> config::at_least_one(n) == n,
        r.is_usual() ==> {
            &&& r.width == 1280 && r.height == 1280 && r.fps == 30
            &&& r.glb_path@.len() == 0 && r.arkit_map_path@.len() == 0
            &&& r.scene_glb_path is None && r.physics is None
        },
        p.is_usual() ==> {
            &&& p.gravity@ == seq![
                Num::Thousandths(0),
                Num::Thousandths(-9810i64),
                Num::Thousandths(0),
            ]
            &&& p.timestep_hz == 120 && p.max_substeps_per_frame == 4
            &&& p.ground_y is None && p.sidecar_path is None
            &&& p.play_volume == Some(PlayVolume::usual())
            &&& p.grab.is_usual()
        },
        PlayVolume::usual().half_extents_xz == Num::Thousandths(2000),
        PlayVolume::usual().ceiling_y == Num::Thousandths(3000),
        g.is_usual() ==> {
            &&& g.proximity_m == Num::Thousandths(50)
            &&& g.timeout_secs == Num::Thousandths(2000)
            &&& g.default_palm_offset@ == seq![
                Num::Thousandths(80),
                Num::Thousandths(0),
                Num::Thousandths(0),
            ]
        },
{
}

/// A node takes over from its manifest the paths, the stream id, the scene and the
/// mode as they are, and sizes and rate as they are unless they are zero.
pub proof fn law_manifest_is_taken_over(params: CcRenderManifestParams, c: CcRenderConfig)
    requires
        manifest::config_of(params, c),
    ensures
        Some(c.glb_path) == params.glb_path,
        Some(c.arkit_map_path) == params.arkit_map_path,
        c.video_stream_id == params.video_stream_id,
        c.scene_glb_path == params.scene_glb_path,
        c.realtime_mode == params.realtime_mode,
        params.width > 0 ==> c.width == params.width,
        params.height > 0 ==> c.height == params.height,
        params.framerate > 0 ==> c.fps == params.framerate,
        params.width == 0 ==> c.width == 1,
        params.height == 0 ==> c.height == 1,
        params.framerate == 0 ==> c.fps == 1,
{
}

/// The first chunk of a file holds JSON when the four bytes of its kind spell that
/// word; its length stands in the four bytes before, least significant first.
pub proof fn law_json_chunk_header(b: Seq<u8>, at: int)
    ensures
        glb::is_json_chunk(b) <==> b.len() >= 20 && b[16] == 74 && b[17] == 83 && b[18] == 79
            && b[19] == 78,
        glb::le_u32(b, at) == b[at] + 256 * (b[at + 1] + 256 * (b[at + 2] + 256 * b[at + 3])),
        glb::PREFIX_LEN == 20,
{
}

/// Materials are named in order, and one whose name is missing or no text has the empty
/// name; a document without a list of materials names none.
pub proof fn law_material_names(
    root: JsonView,
    items: Seq<JsonView>,
    i: int,
    name: Seq<char>,
    x: JsonView,
)
    ensures
        member_is(root, "materials"@, JsonView::Array(items)) ==> glb::names_in(root).len()
            == items.len(),
        member_is(root, "materials"@, JsonView::Array(items)) && 0 <= i < items.len() && member_is(
            items[i],
            "name"@,
            JsonView::Str(name),
        ) ==> glb::names_in(root)[i] == name,
        member_is(root, "materials"@, JsonView::Array(items)) && 0 <= i < items.len()
            && member_missing(items[i], "name"@) ==> glb::names_in(root)[i].len() == 0,
        member_missing(root, "materials"@) ==> glb::names_in(root).len() == 0,
        member_is(root, "materials"@, x) && !(x is Array) ==> glb::names_in(root).len() == 0,
        member_is(root, "materials"@, JsonView::Array(items)) && 0 <= i < items.len() && member_is(
            items[i],
            "name"@,
            x,
        ) && !(x is Str) ==> glb::names_in(root)[i].len() == 0,
{
    reveal_strlit("");
    envelope_laws::law_members_by_name(root, "materials"@, x);
    envelope_laws::law_members_by_name(root, "materials"@, JsonView::Array(items));
    if 0 <= i < items.len() {
        envelope_laws::law_members_by_name(items[i], "name"@, JsonView::Str(name));
        envelope_laws::law_members_by_name(items[i], "name"@, x);
    }
}

/// The materials of a file are those that its JSON chunk lists, which starts at byte 20
/// and has the length that the header says; a file that is cut short names none.
pub proof fn law_materials_of_a_file(head: Seq<u8>, chunk: Seq<u8>, rest: Seq<u8>, root: JsonView)
    requires
        head.len() == 20,
    ensures
        glb::is_json_chunk(head) && glb::le_u32(head, 12) == chunk.len() && json::parsed(
            glb::lossy(chunk),
        ) == Some(root) ==> glb::names_in_file(head + chunk + rest) == glb::names_in(root),
        glb::le_u32(head, 12) > chunk.len() ==> glb::names_in_file(head + chunk).len() == 0,
        !glb::is_json_chunk(head) ==> glb::names_in_file(head + chunk + rest).len() == 0,
        json::parsed(glb::lossy(chunk)) is None ==> glb::names_in_chunk(chunk).len() == 0,
{
    let file = head + chunk + rest;
    let short = head + chunk;
    assert(file.subrange(20, 20 + chunk.len() as int) =~= chunk);
    assert(forall|k: int| 0 <= k < 20 ==> file[k] == head[k]);
    assert(forall|k: int| 0 <= k < 20 ==> short[k] == head[k]);
    assert(glb::le_u32(file, 12) == glb::le_u32(head, 12));
    assert(glb::le_u32(short, 12) == glb::le_u32(head, 12));
}

/// The sample queue is first in, first out: what is handed out of a queue of one part
/// and another is the one part first, and silence comes only behind both.
pub proof fn law_queue_is_first_in_first_out<S>(
    q: audio::AudioState<S>,
    n: nat,
    silence: S,
    i: int,
)
    requires
        0 <= i < n,
    ensures
        q.chunk(n, silence).len() == n,
        i < q.samples.len() ==> q.chunk(n, silence)[i] == q.samples[i],
        i >= q.samples.len() ==> q.chunk(n, silence)[i] == silence,
        n <= q.samples.len() ==> q.samples == q.chunk(n, silence) + q.drained(n).samples,
        n > q.samples.len() ==> q.drained(n).samples.len() == 0,
        q.drained(n).emitted == q.emitted + n,
        q.drained(n).sample_rate == q.sample_rate,
        q.skipped(n).samples == q.drained(n).samples,
        q.skipped(n).emitted == q.emitted,
        q.skipped(n).sample_rate == q.sample_rate,
        q.flushed().samples.len() == 0,
        q.flushed().emitted == q.emitted,
        q.flushed().sample_rate == q.sample_rate,
{
    if n <= q.samples.len() {
        assert(q.samples =~= q.chunk(n, silence) + q.drained(n).samples);
    }
}

/// Mixing down makes one sample of each whole frame, in order, and drops a frame that
/// is cut short.
pub proof fn law_one_sample_per_frame<S, M: Fn(&[S]) -> S>(
    packet: Seq<S>,
    channels: nat,
    mix: M,
    mono: Seq<S>,
    k: int,
)
    requires
        channels >= 1,
        audio::mixed_down(packet, channels, mix, mono),
    ensures
        mono.len() * channels <= packet.len() < mono.len() * channels + channels,
        0 <= k < mono.len() ==> exists|frame: &[S]| #[trigger]
            call_ensures(mix, (frame,), mono[k]) && frame@ == packet.subrange(
                k * channels,
                (k + 1) * channels,
            ),
{
    let n = packet.len();
    let c = mono.len();
    assert(c * channels <= n && n < c * channels + channels) by (nonlinear_arith)
        requires
            c == n / channels,
            channels >= 1,
    ;
    if 0 <= k < mono.len() {
        assert((k + 1) * channels == k * channels + channels) by (nonlinear_arith);
        assert(audio::mixed_frame(packet, channels, mix, k, mono[k]));
        let frame = choose|frame: &[S]| #[trigger]
            call_ensures(mix, (frame,), mono[k]) && frame@ == packet.subrange(
                k * channels,
                k * channels + channels,
            );
        assert(call_ensures(mix, (frame,), mono[k]));
    }
}

} // verus!
