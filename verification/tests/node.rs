//! The streaming node.
use cc_render::arkit::channel_names;
use cc_render::json::{Json, Num};
use cc_render::manifest::{build_node, CcRenderManifestParams, CcRenderNodeFactory};
use cc_render::node::{
    CcRenderConfig, CcRenderNode, Emission, Packet, ReadyStep, RendererCmd, TickOutput,
};
use cc_render::renderer::{RenderedFrame, SkeletalPose};

const MS: u64 = 1_000_000;

fn value(n: Num) -> f64 {
    match n {
        Num::Unsigned(u) => u as f64,
        Num::Negative(i) => i as f64,
        Num::Double(bits) => f64::from_bits(bits),
        Num::Thousandths(t) => t as f64 / 1000.0,
    }
}

fn names() -> Vec<String> {
    (0..52).map(|i| format!("channel{i}")).collect()
}

fn mean(frame: &[f32]) -> f32 {
    frame.iter().sum::<f32>() / frame.len() as f32
}

fn clamp(n: Num) -> f32 {
    (value(n) as f32).clamp(0.0, 1.0)
}

fn node(realtime_mode: bool) -> CcRenderNode<f32> {
    let config = CcRenderConfig {
        realtime_mode,
        ..CcRenderConfig::default()
    };
    CcRenderNode::new(config, 0.0)
}

fn push(n: &mut CcRenderNode<f32>, packet: Packet<f32>, now: u64) -> Vec<RendererCmd<f32>> {
    n.process_streaming(&packet, now, &names(), mean, &clamp)
}

fn speech(samples: Vec<f32>, sample_rate: u32, channels: u32) -> Packet<f32> {
    Packet::Audio {
        samples,
        sample_rate,
        channels,
    }
}

fn json(s: &str) -> Packet<f32> {
    Packet::Json(Json::parse(s).unwrap())
}

fn face(pts_ms: u64) -> Packet<f32> {
    let weights: Vec<String> = (0..52).map(|i| format!("{}", i as f64 / 26.0 - 0.5)).collect();
    json(&format!(
        r#"{{"kind":"blendshapes","arkit_52":[{}],"pts_ms":{pts_ms}}}"#,
        weights.join(",")
    ))
}

fn body(pts_ms: u64) -> Packet<f32> {
    let quats = vec!["[0,0,0,1]"; 22].join(",");
    json(&format!(
        r#"{{"kind":"skeletal_pose","joint_quats_xyzw":[{quats}],"root_pos":[1,2.5,-3],"pts_ms":{pts_ms}}}"#
    ))
}

fn frames(pts: &[u64]) -> Vec<RenderedFrame> {
    pts.iter()
        .map(|p| RenderedFrame {
            pixels: vec![*p as u8; 4],
            width: 1,
            height: 1,
            pts_ms: *p,
        })
        .collect()
}

/// A node that has heard speech and seen a face at time zero.
fn started(samples: Vec<f32>, sample_rate: u32) -> CcRenderNode<f32> {
    let mut n = node(false);
    push(&mut n, speech(samples, sample_rate, 1), 0);
    push(&mut n, face(0), 0);
    n
}

fn samples_of(e: &Emission<f32>) -> &Vec<f32> {
    &e.audio.as_ref().unwrap().samples
}

#[test]
fn settings_have_defaults() {
    let c = CcRenderConfig::default();
    assert_eq!((c.width, c.height, c.fps), (1280, 1280, 30));
    assert_eq!(c.video_stream_id, "avatar.video");
    assert!(!c.realtime_mode);
    assert!(c.scene_glb_path.is_none());
    assert_eq!(node(false).fallback_rate_hz(), 30);
    let zero = CcRenderConfig {
        fps: 0,
        ..CcRenderConfig::default()
    };
    assert_eq!(CcRenderNode::new(zero, 0.0f32).fallback_rate_hz(), 1);
    assert_eq!(node(false).node_type(), "CcRenderNode");
}

#[test]
fn readiness_is_announced_once() {
    let mut n = node(false);
    assert_eq!(n.poll_ready(false), ReadyStep::Discard);
    assert_eq!(n.poll_ready(true), ReadyStep::Announce);
    assert_eq!(n.poll_ready(true), ReadyStep::Proceed);
    assert_eq!(n.poll_ready(false), ReadyStep::Discard);
    assert_eq!(n.poll_ready(true), ReadyStep::Proceed);
}

#[test]
fn pictures_before_readiness_are_discarded() {
    let mut n = started(vec![1.0; 100], 30);
    let out = n.tick(false, frames(&[1, 2]), 0, 100 * MS);
    assert!(!out.announce);
    assert!(out.emissions.is_empty());
    assert_eq!(n.frames_emitted(), 0);
}

#[test]
fn every_picture_carries_its_sound() {
    let mut n = started((1..=10).map(|i| i as f32).collect(), 90);
    let out: TickOutput<f32> = n.tick(true, frames(&[0, 0]), 0, 100 * MS);
    assert!(out.announce);
    assert_eq!(out.emissions.len(), 2);
    let first = &out.emissions[0];
    assert_eq!(samples_of(first), &vec![1.0, 2.0, 3.0]);
    assert_eq!(first.video.frame_number, 0);
    assert_eq!(first.video.timestamp_us, 0);
    assert_eq!(first.video.stream_id, "avatar.video");
    assert_eq!(first.audio.as_ref().unwrap().timestamp_us, 0);
    assert_eq!(first.audio.as_ref().unwrap().sample_rate, 90);
    assert_eq!(first.audio.as_ref().unwrap().channels, 1);
    let second = &out.emissions[1];
    assert_eq!(samples_of(second), &vec![4.0, 5.0, 6.0]);
    assert_eq!(second.video.timestamp_us, 33_333);
    assert_eq!(second.audio.as_ref().unwrap().timestamp_us, 33_333);
    let out = n.tick(true, frames(&[0, 0]), 0, 100 * MS);
    assert!(!out.announce);
    assert_eq!(samples_of(&out.emissions[0]), &vec![7.0, 8.0, 9.0]);
    // The queue runs dry: silence fills the chunk up.
    assert_eq!(samples_of(&out.emissions[1]), &vec![10.0, 0.0, 0.0]);
    assert_eq!(n.queued_samples(), 0);
    assert_eq!(n.frames_emitted(), 4);
}

#[test]
fn uneven_rates_stay_on_the_clock() {
    let mut n = started(vec![1.0; 100], 44);
    let out = n.tick(true, frames(&[0; 4]), 0, 100 * MS);
    let lens: Vec<usize> = out.emissions.iter().map(|e| samples_of(e).len()).collect();
    // 44/30, 88/30, 132/30 and 176/30 samples in all, rounded down.
    assert_eq!(lens, vec![1, 1, 2, 1]);
}

#[test]
fn a_picture_that_owes_no_sound_ends_the_tick() {
    let mut n = started(vec![1.0; 100], 20);
    let out = n.tick(true, frames(&[0, 0]), 0, 100 * MS);
    assert!(out.emissions.is_empty());
    assert_eq!(n.frames_emitted(), 0);
}

#[test]
fn nothing_is_emitted_before_speech_and_face() {
    let mut n = node(false);
    assert!(n.tick(true, frames(&[0]), 5, 100 * MS).emissions.is_empty());
    push(&mut n, face(0), 0);
    assert!(n.tick(true, frames(&[0]), 5, 100 * MS).emissions.is_empty());
    let mut n = node(false);
    push(&mut n, speech(vec![1.0; 10], 30, 1), 0);
    assert!(n.tick(true, frames(&[0]), 5, 100 * MS).emissions.is_empty());
    // The first face needs fifty milliseconds to be seen.
    push(&mut n, face(0), 100 * MS);
    assert!(n.tick(true, frames(&[0]), 5, 149 * MS).emissions.is_empty());
    assert_eq!(n.tick(true, frames(&[0]), 5, 150 * MS).emissions.len(), 1);
}

#[test]
fn emission_stops_when_everything_is_quiet() {
    let mut n = started(vec![1.0], 30);
    assert_eq!(n.tick(true, frames(&[0]), 0, 60 * MS).emissions.len(), 1);
    // Within the tail the picture goes on, with silence.
    let out = n.tick(true, frames(&[0]), 0, 499 * MS);
    assert_eq!(samples_of(&out.emissions[0]), &vec![0.0]);
    assert!(n.tick(true, frames(&[0]), 0, 500 * MS).emissions.is_empty());
    // Poses that still wait keep it going, and so does a fresh one.
    assert_eq!(n.tick(true, frames(&[0]), 1, 9000 * MS).emissions.len(), 1);
    push(&mut n, body(0), 9000 * MS);
    assert_eq!(n.tick(true, frames(&[0]), 0, 9400 * MS).emissions.len(), 1);
    assert!(n.tick(true, frames(&[0]), 0, 9500 * MS).emissions.is_empty());
}

#[test]
fn the_first_picture_aligns_the_sound() {
    let mut n = started((0..100).map(|i| i as f32).collect(), 1000);
    let out = n.tick(true, frames(&[20, 60]), 0, 100 * MS);
    assert_eq!(samples_of(&out.emissions[0])[0], 20.0);
    assert_eq!(samples_of(&out.emissions[0]).len(), 33);
    assert_eq!(samples_of(&out.emissions[1])[0], 53.0);
    let out = n.tick(true, frames(&[90]), 0, 100 * MS);
    assert_eq!(samples_of(&out.emissions[0])[0], 86.0);
}

#[test]
fn barge_in_silences_and_realigns() {
    let mut n = started(vec![1.0; 100], 30);
    n.tick(true, frames(&[0]), 0, 100 * MS);
    let cmds = push(&mut n, json(r#"{"kind":"barge_in"}"#), 110 * MS);
    assert_eq!(cmds.len(), 2);
    assert!(matches!(&cmds[0], RendererCmd::Pose(p) if p.weights.is_empty() && p.pts_ms == 0));
    assert!(matches!(cmds[1], RendererCmd::Skeletal(None)));
    assert_eq!(n.queued_samples(), 0);
    assert_eq!(n.frames_emitted(), 1);
    let out = n.tick(true, frames(&[0]), 0, 120 * MS);
    assert!(samples_of(&out.emissions[0]).iter().all(|s| *s == 0.0));
}

#[test]
fn sound_stays_on_the_clock_across_a_barge_in() {
    let mut n = started(vec![1.0; 1000], 90);
    assert_eq!(n.tick(true, frames(&[0; 5]), 0, 100 * MS).emissions.len(), 5);
    push(&mut n, json(r#"{"kind":"barge_in"}"#), 110 * MS);
    push(&mut n, speech((1..=100).map(|i| i as f32).collect(), 90, 1), 110 * MS);
    let out = n.tick(true, frames(&[0, 0]), 0, 120 * MS);
    let first = &out.emissions[0];
    assert_eq!(samples_of(first), &vec![1.0, 2.0, 3.0]);
    assert_eq!(first.video.frame_number, 5);
    assert_eq!(first.video.timestamp_us, 166_666);
    assert_eq!(first.audio.as_ref().unwrap().timestamp_us, 166_666);
    assert_eq!(samples_of(&out.emissions[1]), &vec![4.0, 5.0, 6.0]);
}

#[test]
fn pictures_are_numbered_without_gaps() {
    let mut n = started(vec![1.0; 100], 30);
    let mut numbers: Vec<u64> = Vec::new();
    for (k, count) in [2usize, 0, 3, 1].into_iter().enumerate() {
        if k == 2 {
            push(&mut n, json(r#"{"kind":"barge_in"}"#), 110 * MS);
            n.tick(false, frames(&[0, 0]), 0, 115 * MS);
        }
        let out = n.tick(true, frames(&vec![0; count]), 0, 120 * MS);
        numbers.extend(out.emissions.iter().map(|e| e.video.frame_number));
    }
    assert_eq!(numbers, vec![0, 1, 2, 3, 4, 5]);
    assert_eq!(n.frames_emitted(), 6);
}

#[test]
fn a_barge_in_before_anything_changes_nothing() {
    let mut n = node(false);
    push(&mut n, json(r#"{"kind":"barge_in"}"#), 0);
    push(&mut n, speech(vec![1.0, 3.0, 5.0, 7.0], 20, 2), 0);
    push(&mut n, face(0), 0);
    assert!(n.tick(true, frames(&[0]), 0, 60 * MS).emissions.is_empty());
    let config = CcRenderConfig {
        fps: 10,
        ..CcRenderConfig::default()
    };
    let mut n = CcRenderNode::new(config, 0.0);
    push(&mut n, speech(vec![1.0, 3.0, 5.0, 7.0], 20, 2), 0);
    push(&mut n, face(0), 0);
    let out = n.tick(true, frames(&[0]), 0, 60 * MS);
    let sound = out.emissions[0].audio.as_ref().unwrap();
    assert_eq!(sound.samples, vec![2.0, 6.0]);
    assert_eq!((sound.sample_rate, sound.channels), (20, 1));
}

#[test]
fn a_control_message_barges_in_too() {
    let mut n = started(vec![1.0; 100], 30);
    let other = Json::parse(r#"{"kind":"barge_in"}"#).unwrap();
    assert!(n.process_control_message::<f32>(&other).is_none());
    assert_eq!(n.queued_samples(), 100);
    let port = Json::parse(r#"{"__aux_port__":"barge_in"}"#).unwrap();
    let cmds: Vec<RendererCmd<f32>> = n.process_control_message(&port).unwrap();
    assert_eq!(cmds.len(), 2);
    assert_eq!(n.queued_samples(), 0);
}

#[test]
fn the_barge_in_port_wins_over_the_kind() {
    let mut n = node(false);
    let cmds = push(
        &mut n,
        json(r#"{"__aux_port__":"barge_in","kind":"skeletal_pose"}"#),
        0,
    );
    assert_eq!(cmds.len(), 2);
}

#[test]
fn a_face_becomes_named_weights() {
    let mut n = node(false);
    let cmds = push(&mut n, face(7), 0);
    assert_eq!(cmds.len(), 1);
    match &cmds[0] {
        RendererCmd::Pose(p) => {
            assert_eq!(p.pts_ms, 7);
            assert_eq!(p.weights.len(), 52);
            assert_eq!(p.weights[0], ("channel0".to_string(), 0.0));
            assert_eq!(p.weights[26].0, "channel26");
            assert!((p.weights[26].1 - 0.5).abs() < 1e-6);
            assert_eq!(p.weights[51].1, 1.0);
        }
        _ => panic!("expected a face"),
    }
}

#[test]
fn there_are_fifty_two_channels() {
    let names = channel_names();
    assert_eq!(names.len(), 52);
    assert_eq!(names[0], "eyeBlinkLeft");
    assert_eq!(names[17], "jawOpen");
    assert_eq!(names[51], "tongueOut");
    let mut sorted = names.clone();
    sorted.sort();
    sorted.dedup();
    assert_eq!(sorted.len(), 52);
}

#[test]
fn a_body_pose_is_passed_on() {
    let mut n = node(false);
    let cmds = push(&mut n, body(9), 0);
    match &cmds[0] {
        RendererCmd::Skeletal(Some(p)) => {
            assert_eq!(p.pts_ms, 9);
            assert_eq!(p.root_pos.map(value), [1.0, 2.5, -3.0]);
            assert_eq!(p.joint_quats[21].map(value), [0.0, 0.0, 0.0, 1.0]);
        }
        _ => panic!("expected a body pose"),
    }
    let rest = SkeletalPose::rest();
    assert_eq!(rest.joint_quats[0].map(value), [0.0, 0.0, 0.0, 1.0]);
    assert_eq!(rest.pts_ms, 0);
}

#[test]
fn malformed_envelopes_are_dropped() {
    let mut n = node(false);
    for s in [
        r#"{"kind":"blendshapes","arkit_52":[1,2],"pts_ms":0}"#,
        r#"{"kind":"blendshapes","pts_ms":0}"#,
        r#"{"kind":"skeletal_pose","joint_quats_xyzw":[[0,0,0,1]]}"#,
        r#"{"kind":"skeletal_pose"}"#,
        r#"{"kind":"emotion"}"#,
        r#"{"kind":7}"#,
        r#"[]"#,
        r#"null"#,
    ] {
        assert!(push(&mut n, json(s), 0).is_empty(), "{s}");
    }
    assert!(push(&mut n, Packet::Other, 0).is_empty());
    let pose = |rest: &str| {
        let quats = vec!["[0,0,0,1]"; 22].join(",");
        json(&format!(
            r#"{{"kind":"skeletal_pose","joint_quats_xyzw":[{quats}]{rest}}}"#
        ))
    };
    for rest in [
        r#","root_pos":[1,2],"pts_ms":40"#,
        r#","root_pos":[1,2,"3"]"#,
        r#","root_pos":null"#,
        r#","pts_ms":-1"#,
        r#","pts_ms":1.5"#,
        r#","pts_ms":null"#,
    ] {
        assert!(push(&mut n, pose(rest), 0).is_empty(), "{rest}");
    }
    match &push(&mut n, pose(""), 0)[0] {
        RendererCmd::Skeletal(Some(p)) => {
            assert_eq!(p.root_pos.map(value), [0.0; 3]);
            assert_eq!(p.pts_ms, 0);
        }
        _ => panic!("expected a body pose"),
    }
}

#[test]
fn several_channels_are_mixed_down() {
    let mut n = node(false);
    push(&mut n, speech(vec![1.0, 3.0, 5.0, 7.0, 9.0], 60, 2), 0);
    assert_eq!(n.queued_samples(), 2);
    push(&mut n, speech(vec![8.0], 48000, 1), 0);
    push(&mut n, face(0), 0);
    let out = n.tick(true, frames(&[0, 0]), 0, 100 * MS);
    // The first packet fixes the format.
    assert_eq!(samples_of(&out.emissions[0]), &vec![2.0, 6.0]);
    assert_eq!(out.emissions[0].audio.as_ref().unwrap().sample_rate, 60);
    assert_eq!(out.emissions[0].audio.as_ref().unwrap().channels, 1);
    assert_eq!(samples_of(&out.emissions[1]), &vec![8.0, 0.0]);
}

#[test]
fn realtime_emits_the_latest_picture_without_sound() {
    let mut n = node(true);
    push(&mut n, speech(vec![1.0; 100], 30, 1), 0);
    let out = n.tick(true, frames(&[1, 2, 3]), 0, 0);
    assert!(out.announce);
    assert_eq!(out.emissions.len(), 1);
    assert_eq!(out.emissions[0].video.pixels, vec![3u8; 4]);
    assert!(out.emissions[0].audio.is_none());
    assert_eq!(n.stale_frames_dropped(), 2);
    assert_eq!(n.queued_samples(), 100);
    assert!(n.tick(true, frames(&[]), 0, 0).emissions.is_empty());
    let out = n.tick(true, frames(&[4]), 0, 0);
    assert_eq!(out.emissions[0].video.frame_number, 1);
    assert_eq!(out.emissions[0].video.timestamp_us, 33_333);
}

#[test]
fn clocks_are_watched() {
    let n = started(vec![1.0; 100], 48000);
    assert!(n.clock_in_range(1_000_000));
    assert!(!n.clock_in_range(usize::MAX));
}

#[test]
fn manifests_need_both_paths() {
    let params = CcRenderManifestParams::default();
    assert_eq!((params.width, params.height, params.framerate), (1280, 1280, 30));
    assert_eq!(params.video_stream_id, "avatar.video");
    assert!(!params.realtime_mode);
    let factory = CcRenderNodeFactory::default();
    assert_eq!(factory.node_type(), "CcRenderNode");
    assert_eq!(
        factory.create(CcRenderManifestParams::default(), 0.0f32).err(),
        Some("CcRenderNode requires 'glb_path' (.alphabaked.glb)".to_string())
    );
    let no_map = CcRenderManifestParams {
        glb_path: Some("a.glb".into()),
        ..CcRenderManifestParams::default()
    };
    assert_eq!(
        build_node(no_map, 0.0f32).err(),
        Some("CcRenderNode requires 'arkit_map_path' (resolved JSON)".to_string())
    );
    let full = CcRenderManifestParams {
        glb_path: Some("a.glb".into()),
        arkit_map_path: Some("a.json".into()),
        framerate: 0,
        width: 0,
        height: 0,
        realtime_mode: true,
        ..CcRenderManifestParams::default()
    };
    let n = build_node(full, 0.0f32).ok().unwrap();
    assert_eq!((n.config().width, n.config().height, n.config().fps), (1, 1, 1));
    assert_eq!(n.config().glb_path, "a.glb");
    assert_eq!(n.config().arkit_map_path, "a.json");
    assert!(n.config().realtime_mode);
}
