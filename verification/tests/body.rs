//! Face, colliders and settings of the body.
use cc_render::adapter::{choose_adapter, AdapterError};
use cc_render::cc5_json::load as load_physics;
use cc_render::colliders::{plan_bodies, plan_collider, ColliderPlan};
use cc_render::config::{GrabConfig, PhysicsConfig, PlayVolume, RendererConfig};
use cc_render::face::{face_drive, jaw_axis, tongue_share, Axis, FacePins};
use cc_render::json::{Json, Num};
use cc_render::morph::{
    blend, contributions, mesh_weights, mirror, with_override, PartReport,
};
use cc_render::morph_map::{load_arkit_map, MapError};
use cc_render::renderer::ArkitPose;
use cc_render::sidecar::BodyColliderOverride;

fn value(n: Num) -> f64 {
    match n {
        Num::Unsigned(u) => u as f64,
        Num::Negative(i) => i as f64,
        Num::Double(bits) => f64::from_bits(bits),
        Num::Thousandths(t) => t as f64 / 1000.0,
    }
}

fn face(weights: &[(&str, f32)]) -> ArkitPose<f32> {
    ArkitPose {
        weights: weights.iter().map(|(n, w)| (n.to_string(), *w)).collect(),
        pts_ms: 3,
    }
}

const MAP: &str = r#"{"mapping":{
    "jawOpen":[{"morph":"Jaw_Open","weight":0.5,"meshes":["Body","Teeth"]},
               {"morph":"Mouth","weight":1,"meshes":["Body"]}],
    "smile":[{"morph":"Mouth","weight":1.0,"meshes":["Body"]},
             {"morph":"Missing","weight":1.0,"meshes":["Body"]}]}}"#;

fn strings(names: &[&str]) -> Vec<String> {
    names.iter().map(|s| s.to_string()).collect()
}

fn live(w: f32) -> bool {
    w.is_finite() && w != 0.0
}

fn mix(a: f32, w: f32, f: Num) -> f32 {
    (a + w * value(f) as f32).clamp(0.0, 1.0)
}

#[test]
fn channels_drive_their_morph_targets() {
    let map = load_arkit_map(MAP).unwrap();
    let pose = face(&[("jawOpen", 0.8), ("smile", 0.1), ("frown", 1.0), ("blink", 0.0)]);
    let targets = strings(&["Brow", "Mouth", "Jaw_Open"]);
    let parts = contributions(&pose, &map, &targets, "Body", &live);
    let at: Vec<usize> = parts.iter().map(|p| p.at).collect();
    assert_eq!(at, vec![2, 1, 1]);
    let w = blend(3, 0.0, &parts, &mix);
    assert_eq!(w[0], 0.0);
    assert!((w[1] - 0.9).abs() < 1e-6);
    assert!((w[2] - 0.4).abs() < 1e-6);
    let teeth = contributions(&pose, &map, &targets, "Teeth", &live);
    assert_eq!(teeth.len(), 1);
    assert!(contributions(&pose, &map, &targets, "Hair", &live).is_empty());
    let idle = contributions(&face(&[("jawOpen", 0.0)]), &map, &targets, "Body", &live);
    assert!(idle.is_empty());
    assert_eq!(blend(3, 0.0, &idle, &mix), vec![0.0; 3]);
}

#[test]
fn a_mesh_gets_its_weights_in_one_go() {
    let map = load_arkit_map(MAP).unwrap();
    let targets = strings(&["Brow", "Mouth", "Jaw_Open"]);
    let pose = face(&[("jawOpen", 0.8), ("smile", 0.1)]);
    let (w, report) = mesh_weights(&pose, &map, &targets, "Body", 0.0, &live, &mix);
    assert_eq!(w[0], 0.0);
    assert!((w[1] - 0.9).abs() < 1e-6);
    assert!((w[2] - 0.4).abs() < 1e-6);
    assert_eq!(report, PartReport { hits: 3, targets: 3 });
    let (w, report) = mesh_weights(&face(&[]), &map, &targets, "Body", 0.0, &live, &mix);
    assert_eq!(w, vec![0.0; 3]);
    assert_eq!(report, PartReport { hits: 0, targets: 3 });
}

#[test]
fn of_equal_target_names_the_last_counts() {
    let map = load_arkit_map(MAP).unwrap();
    let pose = face(&[("smile", 1.0)]);
    let parts = contributions(&pose, &map, &strings(&["Mouth", "Mouth"]), "Body", &live);
    assert_eq!(parts.len(), 1);
    assert_eq!(parts[0].at, 1);
}

#[test]
fn tables_are_read_strictly() {
    assert!(matches!(load_arkit_map("{"), Err(MapError::Syntax(_))));
    for s in [
        "{}",
        "[]",
        r#"{"mapping":[]}"#,
        r#"{"mapping":{"a":{}}}"#,
        r#"{"mapping":{"a":[{"morph":"m","weight":1}]}}"#,
        r#"{"mapping":{"a":[{"morph":"m","weight":"1","meshes":[]}]}}"#,
        r#"{"mapping":{"a":[{"morph":"m","weight":1,"meshes":[1]}]}}"#,
        r#"{"mapping":{"a":[{"weight":1,"meshes":[]}]}}"#,
    ] {
        assert!(matches!(load_arkit_map(s), Err(MapError::IllTyped)), "{s}");
    }
    assert!(load_arkit_map(r#"{"mapping":{},"extra":1}"#)
        .unwrap()
        .mapping
        .is_empty());
}

#[test]
fn the_parent_mirrors_a_fitting_part() {
    let p = |hits: usize, targets: usize| PartReport { hits, targets };
    assert_eq!(mirror(&vec![], 3), None);
    assert_eq!(mirror(&vec![p(5, 2)], 3), None);
    assert_eq!(mirror(&vec![p(0, 3)], 3), Some(0));
    assert_eq!(mirror(&vec![p(5, 2), p(1, 3)], 3), Some(1));
    assert_eq!(mirror(&vec![p(2, 3), p(2, 3)], 3), Some(0));
    assert_eq!(mirror(&vec![p(2, 3), p(4, 3)], 3), Some(1));
    assert_eq!(mirror(&vec![p(2, 3), p(4, 2), p(3, 3)], 3), Some(0));
}

#[test]
fn an_override_drives_one_channel() {
    let pose = face(&[("a", 0.5)]);
    let o = with_override(pose, Some("jawOpen"), 2.0);
    assert_eq!(o.weights, vec![("jawOpen".to_string(), 2.0)]);
    assert_eq!(o.pts_ms, 3);
    assert_eq!(with_override(face(&[("a", 0.5)]), Some(""), 2.0).weights.len(), 1);
    assert_eq!(with_override(face(&[("a", 0.5)]), None, 2.0).weights[0].0, "a");
}

const NO_PINS: FacePins<f32> = FacePins {
    jaw_open: None,
    eye_pitch: None,
    eye_yaw: None,
};

#[test]
fn the_face_bones_follow_the_weights() {
    let clamp = |w: f32| w.clamp(0.0, 1.0);
    let minus = |a: f32, b: f32| a - b;
    let negate = |a: f32| -a;
    let pose = face(&[
        ("jawOpen", 2.0),
        ("jawRight", 0.75),
        ("jawLeft", 0.25),
        ("eyeLookUpLeft", 0.5),
        ("eyeLookInLeft", 0.25),
        ("eyeLookOutRight", 0.5),
        ("eyeLookInRight", 0.125),
        ("tongueOut", 0.5),
    ]);
    let d = face_drive(&pose, &NO_PINS, 0.0, &clamp, &minus, &negate);
    assert_eq!(d.jaw_open, 1.0);
    assert_eq!(d.jaw_side, 0.5);
    assert_eq!(d.jaw_forward, 0.0);
    assert_eq!(d.left_pitch, 0.5);
    assert_eq!(d.left_yaw, 0.25);
    assert_eq!(d.right_yaw, 0.375);
    assert_eq!(d.right_pitch, 0.0);
    assert_eq!(d.tongue_out, 0.5);
    let pins = FacePins {
        jaw_open: Some(0.25),
        eye_pitch: Some(0.5),
        eye_yaw: Some(0.75),
    };
    let d = face_drive(&pose, &pins, 0.0, &clamp, &minus, &negate);
    assert_eq!(d.jaw_open, 0.25);
    assert_eq!((d.left_pitch, d.right_pitch), (0.5, 0.5));
    assert_eq!((d.left_yaw, d.right_yaw), (0.75, -0.75));
    let d = face_drive(&face(&[]), &NO_PINS, 0.0, &clamp, &minus, &negate);
    assert_eq!((d.jaw_open, d.jaw_side, d.jaw_forward, d.upper_lip), (0.0, 0.0, 0.0, 0.0));
    assert_eq!((d.left_pitch, d.left_yaw), (0.0, 0.0));
    assert_eq!((d.right_pitch, d.right_yaw), (0.0, 0.0));
    assert_eq!(d.tongue_out, 0.0);
}

#[test]
fn jaw_and_tongue_have_fixed_shares() {
    assert_eq!(jaw_axis(None), Axis::X);
    assert_eq!(jaw_axis(Some("y")), Axis::Y);
    assert_eq!(jaw_axis(Some("z")), Axis::Z);
    assert_eq!(jaw_axis(Some("x")), Axis::X);
    assert_eq!(jaw_axis(Some("w")), Axis::X);
    assert_eq!([tongue_share(0), tongue_share(1), tongue_share(2)], [50, 35, 15]);
}

const SHAPES: &str = r#"{"a":{"Object":{"a":{"Physics":{"Collision Shapes":{"CC_Base_Hip":{
    "1":{"Bound Type":"Capsule","Bone Active":false,"WorldTranslate":[0,0,0],
         "WorldRotationQ":[0,0,0,1],"Radius":1,"Capsule Length":1,"Friction":0.9},
    "2":{"Bound Type":"Box","WorldTranslate":[0,0,0],"WorldRotationQ":[0,0,0,1],"Friction":0.2},
    "3":{"Bound Type":"Capsule","WorldTranslate":[0,0,0],
         "WorldRotationQ":[0,0,0,1],"Radius":1,"Capsule Length":1,"Friction":0.3}},
    "CC_Base_Head":{
    "1":{"Bound Type":"Capsule","Bone Active":false,"WorldTranslate":[0,0,0],
         "WorldRotationQ":[0,0,0,1],"Radius":1,"Capsule Length":1}}}}}}}}"#;

#[test]
fn the_sidecar_comes_before_the_avatar_and_the_fit() {
    let physics = load_physics(Some(SHAPES)).unwrap().unwrap();
    let hip = physics.shapes_on("CC_Base_Hip");
    match plan_collider(&vec![], "Pelvis", hip).unwrap() {
        ColliderPlan::Compound { shapes, friction } => {
            assert_eq!(shapes.len(), 2);
            assert_eq!(value(friction), 0.2);
        }
        _ => panic!("expected a compound"),
    }
    let ball = BodyColliderOverride::Sphere {
        radius: Num::Unsigned(1),
    };
    let words = vec![("Pelvis".to_string(), Some(ball)), ("Head".to_string(), None)];
    let p = plan_collider(&words, "Pelvis", hip).unwrap();
    assert!(matches!(p, ColliderPlan::Override(o) if o == ball));
    assert_eq!(value(plan_collider(&words, "Pelvis", hip).unwrap().friction()), 0.4);
    assert!(plan_collider(&words, "Head", hip).is_none());
    assert!(matches!(
        plan_collider(&words, "Neck", None),
        Some(ColliderPlan::AutoFit)
    ));
    assert!(matches!(
        plan_collider(&vec![], "Head", physics.shapes_on("CC_Base_Head")),
        Some(ColliderPlan::AutoFit)
    ));
}

#[test]
fn every_bone_of_the_body_gets_one_collider() {
    let physics = load_physics(Some(SHAPES)).unwrap().unwrap();
    let mut bones: [Option<u64>; 22] = [None; 22];
    bones[0] = Some(50);
    bones[4] = Some(54);
    bones[15] = Some(65);
    let words = vec![("Head".to_string(), None)];
    let plans = plan_bodies(&bones, &words, Some(&physics));
    let at: Vec<(usize, u64)> = plans.iter().map(|p| (p.0, p.1)).collect();
    assert_eq!(at, vec![(0, 50), (4, 54)]);
    assert!(matches!(plans[0].2, ColliderPlan::Compound { .. }));
    assert!(matches!(plans[1].2, ColliderPlan::AutoFit));
    assert!(matches!(
        plan_bodies(&bones, &words, None)[0].2,
        ColliderPlan::AutoFit
    ));
}

#[test]
fn physics_has_defaults() {
    let c = PhysicsConfig::default();
    assert_eq!(c.gravity.map(value), [0.0, -9.81, 0.0]);
    assert_eq!((c.timestep_hz, c.max_substeps_per_frame), (120, 4));
    assert_eq!((c.steps_per_second(), c.substeps()), (120, 4));
    assert!(c.ground_y.is_none());
    assert!(c.sidecar_path.is_none());
    let v: PlayVolume = c.play_volume.unwrap();
    assert_eq!((value(v.half_extents_xz), value(v.ceiling_y)), (2.0, 3.0));
    let g = GrabConfig::default();
    assert_eq!(value(g.proximity_m), 0.05);
    assert_eq!(value(g.timeout_secs), 2.0);
    assert_eq!(g.default_palm_offset.map(value), [0.08, 0.0, 0.0]);
    let zero = PhysicsConfig {
        timestep_hz: 0,
        max_substeps_per_frame: 0,
        ..PhysicsConfig::default()
    };
    assert_eq!((zero.steps_per_second(), zero.substeps()), (1, 1));
}

#[test]
fn the_renderer_has_defaults() {
    let c = RendererConfig::default();
    assert_eq!((c.width, c.height, c.fps), (1280, 1280, 30));
    assert!(c.physics.is_none());
    assert_eq!(c.frame_interval_ms(), 33);
    let zero = RendererConfig {
        fps: 0,
        ..RendererConfig::default()
    };
    assert_eq!(zero.frames_per_second(), 1);
    assert_eq!(zero.frame_interval_ms(), 1000);
}

#[test]
fn adapters_go_by_number() {
    assert_eq!(choose_adapter(0, 0), Err(AdapterError::NoneVisible));
    assert_eq!(choose_adapter(2, 1), Ok(1));
    assert_eq!(
        choose_adapter(2, 2),
        Err(AdapterError::OutOfRange { count: 2, index: 2 })
    );
}

#[test]
fn documents_are_read_level_by_level() {
    let j = Json::parse(r#"{"a":[1,-2,2.5,"x",true,null],"b":{"c":18446744073709551615}}"#).unwrap();
    let a = j.get("a").unwrap().as_array().unwrap();
    assert_eq!(a[0].as_number(), Some(Num::Unsigned(1)));
    assert_eq!(a[1].as_number(), Some(Num::Negative(-2)));
    assert_eq!(a[2].as_number(), Some(Num::Double(2.5f64.to_bits())));
    assert_eq!(a[3].as_str(), Some("x"));
    assert_eq!(a[4].as_bool(), Some(true));
    assert!(matches!(a[5], Json::Null));
    assert_eq!(a[1].as_u64(), None);
    let c = j.get("b").unwrap().get("c").unwrap();
    assert_eq!(c.as_u64(), Some(u64::MAX));
    assert!(j.get("z").is_none());
    assert!(a[0].get("z").is_none());
    assert_eq!(j.as_object().unwrap().len(), 2);
    assert!(Json::parse("{\"a\":}").is_err());
}
