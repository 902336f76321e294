//! The physics sidecar.
use cc_render::json::Num;
use cc_render::paths::resolve_sidecar_path;
use cc_render::sidecar::{
    default_jiggle_patterns, load, BodyColliderOverride, SidecarError, SidecarRaw,
};

fn value(n: Num) -> f64 {
    match n {
        Num::Unsigned(u) => u as f64,
        Num::Negative(i) => i as f64,
        Num::Double(bits) => f64::from_bits(bits),
        Num::Thousandths(t) => t as f64 / 1000.0,
    }
}

fn entry(s: &SidecarRaw, joint: &str) -> Option<BodyColliderOverride> {
    s.body_colliders_override
        .iter()
        .find(|(name, _)| name == joint)
        .unwrap()
        .1
}

#[test]
fn loads_v1_with_all_sections() {
    let f = r#"{
            "version": 1,
            "palm_offset_local": [0.08, 0.0, 0.0],
            "body_colliders_override": {
                "Head": { "shape": "capsule", "radius": 0.10, "half_height": 0.06 },
                "L_Hand": null
            },
            "secondary_motion": {
                "auto_detect_patterns": ["^Hair_.*"],
                "chains_override": [
                    { "root_bone": "Hair_Front", "stiffness": 40.0, "damping": 3.0, "mass_per_link": 0.06, "collider_radius": 0.02 }
                ]
            },
            "play_volume": { "half_extents_xz": 2.5, "ceiling_y": 3.5 }
        }"#;
    let parsed = load(Some(f)).unwrap().unwrap();
    assert_eq!(parsed.version, 1);
    assert_eq!(parsed.palm_offset_local.map(|p| p.map(value)), Some([0.08, 0.0, 0.0]));
    assert!(entry(&parsed, "L_Hand").is_none());
    match &entry(&parsed, "Head") {
        Some(BodyColliderOverride::Capsule {
            radius,
            half_height,
        }) => {
            assert!((value(*radius) - 0.10).abs() < 1e-6);
            assert!((value(*half_height) - 0.06).abs() < 1e-6);
        }
        other => panic!("expected Head capsule, got {:?}", other),
    }
    let sm = parsed.secondary_motion.unwrap();
    assert_eq!(sm.auto_detect_patterns, vec!["^Hair_.*".to_string()]);
    assert_eq!(sm.chains_override.len(), 1);
    let pv = parsed.play_volume.unwrap();
    assert!((value(pv.half_extents_xz) - 2.5).abs() < 1e-6);
}

#[test]
fn missing_sections_use_defaults() {
    let f = r#"{"version": 1}"#;
    let parsed = load(Some(f)).unwrap().unwrap();
    assert_eq!(parsed.version, 1);
    assert!(parsed.palm_offset_local.is_none());
    assert!(parsed.body_colliders_override.is_empty());
    assert!(parsed.secondary_motion.is_none());
    assert!(parsed.play_volume.is_none());
}

#[test]
fn sidecar_missing_file_returns_none() {
    let result = load(None).unwrap();
    assert!(result.is_none());
}

#[test]
fn unsupported_version_errors() {
    let f = r#"{"version": 999}"#;
    let err = load(Some(f)).unwrap_err();
    assert!(err.message().contains("unsupported version"));
}

#[test]
fn malformed_json_errors() {
    let f = r#"{"version": "one""#;
    let err = load(Some(f)).unwrap_err();
    // Just confirm we surface a parse error, not an opaque success.
    let s = err.message().to_lowercase();
    assert!(
        s.contains("expected") || s.contains("parse") || s.contains("invalid"),
        "expected parse-error message, got: {}",
        err.message()
    );
}

#[test]
fn resolve_sidecar_path_appends_suffix() {
    let p = resolve_sidecar_path("/avatars/assistant.alphabaked.glb", None);
    assert_eq!(
        p,
        "/avatars/assistant.alphabaked.glb.physics.json"
    );
}

#[test]
fn resolve_sidecar_path_explicit_wins() {
    let p = resolve_sidecar_path(
        "/avatars/assistant.glb",
        Some("/custom/path.json"),
    );
    assert_eq!(p, "/custom/path.json");
}

#[test]
fn version_defaults_to_zero_and_is_refused() {
    assert!(matches!(
        load(Some("{}")),
        Err(SidecarError::UnsupportedVersion(0))
    ));
    assert!(matches!(
        load(Some(r#"{"version": 2}"#)),
        Err(SidecarError::UnsupportedVersion(2))
    ));
}

#[test]
fn each_error_has_its_own_message() {
    assert!(matches!(load(Some("nope")), Err(SidecarError::Syntax(_))));
    assert_eq!(load(Some("nope")).unwrap_err().message(), "parse error");
    assert!(matches!(
        load(Some(r#"{"version": -1}"#)),
        Err(SidecarError::IllTyped)
    ));
    assert_eq!(
        load(Some(r#"{"version": 1.5}"#)).unwrap_err().message(),
        "invalid or missing field"
    );
    assert!(matches!(
        load(Some(r#"{"version": 1, "play_volume": {"ceiling_y": 2}}"#)),
        Err(SidecarError::IllTyped)
    ));
    assert!(matches!(
        load(Some(r#"{"version": 1, "palm_offset_local": [1, 2]}"#)),
        Err(SidecarError::IllTyped)
    ));
    assert!(matches!(
        load(Some(
            r#"{"version": 1, "body_colliders_override": {"Head": {"shape": "cube"}}}"#
        )),
        Err(SidecarError::IllTyped)
    ));
    assert!(matches!(
        load(Some(r#"{"version": 1, "secondary_motion": {"chains_override": [{}]}}"#)),
        Err(SidecarError::IllTyped)
    ));
}

#[test]
fn chains_have_default_values() {
    let s = load(Some(
        r#"{"version": 1, "secondary_motion": {"chains_override": [{"root_bone": "X"}]}}"#,
    ))
    .unwrap()
    .unwrap();
    let motion = s.secondary_motion.unwrap();
    assert_eq!(motion.auto_detect_patterns, default_jiggle_patterns());
    assert_eq!(motion.auto_detect_patterns.len(), 4);
    assert_eq!(motion.auto_detect_patterns[1], ".*Breast.*");
    let c = &motion.chains_override[0];
    assert_eq!(c.root_bone, "X");
    assert_eq!(value(c.stiffness), 30.0);
    assert_eq!(value(c.damping), 2.5);
    assert_eq!(value(c.mass_per_link), 0.05);
    assert_eq!(value(c.collider_radius), 0.015);
}

#[test]
fn null_sections_count_as_missing() {
    let s = load(Some(
        r#"{"version": 1, "palm_offset_local": null, "secondary_motion": null, "play_volume": null}"#,
    ))
    .unwrap()
    .unwrap();
    assert!(s.palm_offset_local.is_none());
    assert!(s.secondary_motion.is_none());
    assert!(s.play_volume.is_none());
    let ball = load(Some(
        r#"{"version": 1, "body_colliders_override": {"Neck": {"shape": "sphere", "radius": 2}}}"#,
    ))
    .unwrap()
    .unwrap();
    assert_eq!(
        entry(&ball, "Neck"),
        Some(BodyColliderOverride::Sphere {
            radius: Num::Unsigned(2)
        })
    );
}
