//! The avatar's own physics file.
use cc_render::cc5_json::{load, read_shape, Cc5Physics, Cc5Shape, Cc5SoftPhysics};
use cc_render::json::{Json, Num};
use cc_render::paths::resolve_cc5_json_path;

fn value(n: Num) -> f64 {
    match n {
        Num::Unsigned(u) => u as f64,
        Num::Negative(i) => i as f64,
        Num::Double(bits) => f64::from_bits(bits),
        Num::Thousandths(t) => t as f64 / 1000.0,
    }
}

fn largest_m(radii: &Vec<Num>) -> Option<f64> {
    let max = radii
        .iter()
        .map(|r| value(*r))
        .fold(f64::NEG_INFINITY, f64::max);
    if max.is_finite() && max > 0.0 {
        Some(max * 0.01)
    } else {
        None
    }
}

fn soft(p: &Cc5Physics, mesh: &str) -> Cc5SoftPhysics {
    p.soft_physics_by_mesh
        .iter()
        .find(|(name, _)| name == mesh)
        .unwrap()
        .1
}

#[test]
fn loads_dual_capsule_hip() {
    // Mirrors the structure of avatars/alika_v2.json.
    let f = r#"{
      "alika_v2": {
        "Object": {
          "alika_v2": {
            "Physics": {
              "Collision Shapes": {
                "CC_Base_Hip": {
                  "Capsule": {
                    "Bone Active": true,
                    "Bound Type": "Capsule",
                    "WorldTranslate": [-5.43, 0.92, 106.30],
                    "WorldRotationQ": [0.81, 0.07, -0.10, 0.57],
                    "Radius": 6.81,
                    "Capsule Length": 28.67,
                    "Friction": 0.05,
                    "Elasticity": 0.5
                  },
                  "Capsule(0)": {
                    "Bone Active": true,
                    "Bound Type": "Capsule",
                    "WorldTranslate": [5.43, 0.92, 106.30],
                    "WorldRotationQ": [0.81, -0.07, 0.10, 0.57],
                    "Radius": 6.81,
                    "Capsule Length": 28.67,
                    "Friction": 0.05,
                    "Elasticity": 0.5
                  }
                },
                "CC_Base_Pelvis": {},
                "CC_Base_R_Eye": {
                  "Box": {
                    "Bound Type": "Box",
                    "WorldTranslate": [3.0, 1.0, 165.0],
                    "WorldRotationQ": [0.0, 0.0, 0.0, 1.0],
                    "Friction": 0.4,
                    "Elasticity": 0.1
                  }
                }
              }
            }
          }
        }
      }
    }"#;
    let physics = load(Some(f)).unwrap().unwrap();
    let hip = physics
        .shapes_on("CC_Base_Hip")
        .expect("CC_Base_Hip should be present");
    assert_eq!(hip.len(), 2, "CC_Base_Hip should have 2 capsules");
    match &hip[0] {
        Cc5Shape::Capsule {
            radius,
            capsule_length,
            ..
        } => {
            assert!((value(*radius) - 6.81).abs() < 1e-3);
            assert!((value(*capsule_length) - 28.67).abs() < 1e-3);
        }
        _ => panic!("expected Capsule"),
    }
    let pelvis = physics.shapes_on("CC_Base_Pelvis").unwrap();
    assert!(pelvis.is_empty(), "empty bone vec");
    let eye = physics.shapes_on("CC_Base_R_Eye").unwrap();
    assert_eq!(eye.len(), 1);
    assert!(matches!(eye[0], Cc5Shape::Box { .. }));
}

#[test]
fn cc5_json_missing_file_returns_none() {
    let result = load(None).unwrap();
    assert!(result.is_none());
}

#[test]
fn empty_root_returns_empty() {
    let f = "{}";
    let p = load(Some(f)).unwrap().unwrap();
    assert!(p.by_bone.is_empty());
}

#[test]
fn missing_physics_block_returns_empty() {
    let f = r#"{"avatar":{"Object":{"avatar":{"Type":"Standard"}}}}"#;
    let p = load(Some(f)).unwrap().unwrap();
    assert!(p.by_bone.is_empty());
}

#[test]
fn resolve_cc5_json_path_strips_ext() {
    let p = resolve_cc5_json_path("/avatars/alika_v2.glb").unwrap();
    assert_eq!(p, "/avatars/alika_v2.json");
}

#[test]
fn resolve_cc5_json_path_with_dotted_stem() {
    // `assistant.alphabaked.glb` -> `assistant.alphabaked.json` (CC5
    // sibling convention strips ONLY the last extension).
    let p = resolve_cc5_json_path("/avatars/assistant.alphabaked.glb").unwrap();
    assert_eq!(p, "/avatars/assistant.alphabaked.json");
}

#[test]
fn loads_soft_physics_for_hair() {
    // Mirrors structure of avatars/assistant.json's Hair material.
    let f = r#"{
      "test": {
        "Object": {
          "test": {
            "Physics": {
              "Collision Shapes": {},
              "Soft Physics": {
                "Meshes": {
                  "Side_part_wavy": {
                    "Materials": {
                      "Hair_Transparency": {
                        "Mass": 1.5,
                        "Damping": 0.25,
                        "Drag": 0.20,
                        "Stiffness Frequency": 8.0
                      }
                    }
                  },
                  "Sweater": {
                    "Materials": {
                      "Cloth": {
                        "Mass": 1.0,
                        "Damping": 0.5,
                        "Drag": 0.0,
                        "Stiffness Frequency": 10.0
                      }
                    }
                  }
                }
              }
            }
          }
        }
      }
    }"#;
    let p = load(Some(f)).unwrap().unwrap();
    let hair_sp = soft(&p, "Side_part_wavy");
    assert!((value(hair_sp.mass) - 1.5).abs() < 1e-5);
    assert!((value(hair_sp.damping) - 0.25).abs() < 1e-5);
    assert!((value(hair_sp.drag) - 0.20).abs() < 1e-5);
    assert!((value(hair_sp.stiffness_freq_hz) - 8.0).abs() < 1e-5);

    // hair_soft_physics() prefers a mesh whose name contains "hair".
    // Side_part_wavy doesn't, so fallback rule (skip cloth-y names)
    // should pick Side_part_wavy over Sweater.
    let picked = p.hair_soft_physics().unwrap();
    assert!(
        (value(picked.stiffness_freq_hz) - 8.0).abs() < 1e-5,
        "picked Side_part_wavy values, not Sweater"
    );
}

#[test]
fn chest_radius_picks_largest_spine_capsule() {
    let f = r#"{
      "test": {
        "Object": {
          "test": {
            "Physics": {
              "Collision Shapes": {
                "CC_Base_Spine02": {
                  "Capsule": {
                    "Bound Type": "Capsule",
                    "WorldTranslate": [0,0,0],
                    "WorldRotationQ": [0,0,0,1],
                    "Radius": 8.5,
                    "Capsule Length": 20.0
                  },
                  "Capsule(0)": {
                    "Bound Type": "Capsule",
                    "WorldTranslate": [0,0,0],
                    "WorldRotationQ": [0,0,0,1],
                    "Radius": 7.0,
                    "Capsule Length": 20.0
                  }
                },
                "CC_Base_Hip": {
                  "Capsule": {
                    "Bound Type": "Capsule",
                    "WorldTranslate": [0,0,0],
                    "WorldRotationQ": [0,0,0,1],
                    "Radius": 12.0,
                    "Capsule Length": 25.0
                  }
                }
              }
            }
          }
        }
      }
    }"#;
    let p = load(Some(f)).unwrap().unwrap();
    // Spine02 wins priority over Hip even though Hip is larger.
    // Returns max-radius Spine02 capsule (8.5 cm), converted to m.
    let r = p.chest_radius_m(&largest_m).unwrap();
    assert!((r - 0.085).abs() < 1e-5, "expected 0.085 m, got {}", r);
}

#[test]
fn chest_radius_falls_back_when_spine_missing() {
    let f = r#"{
      "test": {
        "Object": {
          "test": {
            "Physics": {
              "Collision Shapes": {
                "CC_Base_Hip": {
                  "Capsule": {
                    "Bound Type": "Capsule",
                    "WorldTranslate": [0,0,0],
                    "WorldRotationQ": [0,0,0,1],
                    "Radius": 12.0,
                    "Capsule Length": 25.0
                  }
                }
              }
            }
          }
        }
      }
    }"#;
    let p = load(Some(f)).unwrap().unwrap();
    let r = p.chest_radius_m(&largest_m).unwrap();
    assert!((r - 0.12).abs() < 1e-5);
}

#[test]
fn chest_radius_returns_none_without_capsules() {
    let f = r#"{"test":{"Object":{"test":{"Physics":{"Collision Shapes":{}}}}}}"#;
    let p = load(Some(f)).unwrap().unwrap();
    assert!(p.chest_radius_m(&largest_m).is_none());
}

#[test]
fn breast_capsule_radius_reads_left_or_right() {
    let f = r#"{
      "test": { "Object": { "test": { "Physics": { "Collision Shapes": {
        "CC_Base_R_Breast": {
          "Capsule": {
            "Bound Type": "Capsule",
            "WorldTranslate": [0,0,0], "WorldRotationQ": [0,0,0,1],
            "Radius": 5.5, "Capsule Length": 6.0
          }
        }
      }}}}}}"#;
    let p = load(Some(f)).unwrap().unwrap();
    let r = p.breast_capsule_radius_m(&largest_m).unwrap();
    assert!((r - 0.055).abs() < 1e-5, "expected 0.055 m, got {}", r);
}

#[test]
fn breast_capsule_radius_none_when_empty_or_absent() {
    let f = r#"{"test":{"Object":{"test":{"Physics":{"Collision Shapes":{
        "CC_Base_L_Breast": {}, "CC_Base_R_Breast": {}
    }}}}}}"#;
    let p = load(Some(f)).unwrap().unwrap();
    assert!(p.breast_capsule_radius_m(&largest_m).is_none());
}

#[test]
fn body_soft_physics_picks_body_mesh() {
    let f = r#"{
      "test": { "Object": { "test": { "Physics": {
        "Collision Shapes": {},
        "Soft Physics": { "Meshes": {
          "CC_Base_Body": { "Materials": { "Std_Skin_Body": {
            "Mass": 2.4, "Damping": 1.0, "Drag": 0.0, "Stiffness Frequency": 6.0
          }}},
          "Sweater": { "Materials": { "Cloth": {
            "Mass": 1.0, "Damping": 0.5, "Drag": 0.0, "Stiffness Frequency": 10.0
          }}}
        }}
      }}}}}"#;
    let p = load(Some(f)).unwrap().unwrap();
    let body = p.body_soft_physics().expect("body soft physics found");
    assert!((value(body.mass) - 2.4).abs() < 1e-5);
    assert!((value(body.stiffness_freq_hz) - 6.0).abs() < 1e-5);
}

#[test]
fn breast_tuning_block_parses() {
    let f = r#"{
      "test": { "Object": { "test": { "Physics": {
        "Collision Shapes": {},
        "Breast Tuning": {
          "Mass": 0.5,
          "Linear Stiffness": 120.0,
          "Linear Damping": 5.0,
          "Translation Limit": 0.05
        }
      }}}}}"#;
    let p = load(Some(f)).unwrap().unwrap();
    let bt = p.breast_tuning.expect("breast tuning block parsed");
    assert!((value(bt.mass.unwrap()) - 0.5).abs() < 1e-5);
    assert!((value(bt.linear_stiffness.unwrap()) - 120.0).abs() < 1e-5);
    assert!((value(bt.linear_damping.unwrap()) - 5.0).abs() < 1e-5);
    assert!((value(bt.translation_limit.unwrap()) - 0.05).abs() < 1e-5);
}

#[test]
fn breast_tuning_partial_block_uses_some_for_set_keys() {
    let f = r#"{
      "test": { "Object": { "test": { "Physics": {
        "Collision Shapes": {},
        "Breast Tuning": { "Mass": 1.0 }
      }}}}}"#;
    let p = load(Some(f)).unwrap().unwrap();
    let bt = p.breast_tuning.unwrap();
    assert_eq!(bt.mass.map(value), Some(1.0));
    assert!(bt.linear_stiffness.is_none());
    assert!(bt.linear_damping.is_none());
    assert!(bt.translation_limit.is_none());
}

#[test]
fn breast_tuning_absent_when_no_block() {
    let f = r#"{"test":{"Object":{"test":{"Physics":{"Collision Shapes":{}}}}}}"#;
    let p = load(Some(f)).unwrap().unwrap();
    assert!(p.breast_tuning.is_none());
}

#[test]
fn text_that_is_no_json_is_an_error() {
    assert!(load(Some("{\"a\": ")).is_err());
    assert!(load(Some("")).is_err());
}

#[test]
fn shape_fields_have_defaults() {
    let v = Json::parse(
        r#"{"Bound Type":"Capsule","WorldTranslate":[1,-2,3.5],"WorldRotationQ":[0,0,0,1],
            "Radius":4,"Capsule Length":5}"#,
    )
    .unwrap();
    match read_shape(&v).unwrap() {
        Cc5Shape::Capsule {
            bone_active,
            world_translate,
            world_rotation_q,
            radius,
            capsule_length,
            friction,
            elasticity,
        } => {
            assert!(bone_active);
            assert_eq!(world_translate.map(value), [1.0, -2.0, 3.5]);
            assert_eq!(world_rotation_q.map(value), [0.0, 0.0, 0.0, 1.0]);
            assert_eq!(value(radius), 4.0);
            assert_eq!(value(capsule_length), 5.0);
            assert_eq!(value(friction), 0.4);
            assert_eq!(value(elasticity), 0.1);
        }
        _ => panic!("expected a capsule"),
    }
}

#[test]
fn malformed_shapes_are_skipped() {
    let missing = Json::parse(r#"{"Bound Type":"Capsule","WorldTranslate":[0,0,0]}"#).unwrap();
    assert!(read_shape(&missing).is_none());
    let unknown = Json::parse(
        r#"{"Bound Type":"Cone","WorldTranslate":[0,0,0],"WorldRotationQ":[0,0,0,1]}"#,
    )
    .unwrap();
    assert!(read_shape(&unknown).is_none());
    let short = Json::parse(
        r#"{"Bound Type":"Box","WorldTranslate":[0,0],"WorldRotationQ":[0,0,0,1]}"#,
    )
    .unwrap();
    assert!(read_shape(&short).is_none());
    let null_extents = Json::parse(
        r#"{"Bound Type":"Box","WorldTranslate":[0,0,0],"WorldRotationQ":[0,0,0,1],
            "Extents":null}"#,
    )
    .unwrap();
    assert!(matches!(
        read_shape(&null_extents),
        Some(Cc5Shape::Box { extents: None, .. })
    ));
    let f = r#"{"a":{"Object":{"a":{"Physics":{"Collision Shapes":{
        "CC_Base_Hip":{"x":{"Bound Type":"Cone"}},"CC_Base_Head":7}}}}}}"#;
    let p = load(Some(f)).unwrap().unwrap();
    assert!(p.shapes_on("CC_Base_Hip").unwrap().is_empty());
    assert!(p.shapes_on("CC_Base_Head").is_none());
}

#[test]
fn mesh_names_are_compared_without_case() {
    let f = r#"{"a":{"Object":{"a":{"Physics":{"Collision Shapes":{},
        "Soft Physics":{"Meshes":{
            "BODY_\u00c9":{"Materials":{"m":{"Mass":3}}},
            "Long_HAIR":{"Materials":{"m":{"Mass":2}}},
            "Bare":{"Materials":{}}}}}}}}}"#;
    let p = load(Some(f)).unwrap().unwrap();
    assert_eq!(value(p.body_soft_physics().unwrap().mass), 3.0);
    let hair = p.hair_soft_physics().unwrap();
    assert_eq!(value(hair.mass), 2.0);
    assert_eq!(value(hair.damping), 0.5);
    assert_eq!(value(hair.drag), 0.0);
    assert_eq!(value(hair.stiffness_freq_hz), 10.0);
    assert_eq!(p.soft_physics_by_mesh.len(), 2);
}

#[test]
fn only_garments_means_no_hair() {
    let f = r#"{"a":{"Object":{"a":{"Physics":{"Collision Shapes":{},
        "Soft Physics":{"Meshes":{
            "Sweater":{"Materials":{"m":{}}},
            "T_Shirt":{"Materials":{"m":{}}}}}}}}}}"#;
    let p = load(Some(f)).unwrap().unwrap();
    assert!(p.hair_soft_physics().is_none());
    assert!(p.body_soft_physics().is_none());
}

#[test]
fn blocks_are_read_without_collision_shapes() {
    let f = r#"{"t":{"Object":{"t":{"Physics":{
        "Soft Physics":{"Meshes":{"Hair":{"Materials":{"m":{"Mass":2.0}}}}},
        "Breast Tuning":{"Mass":1.0}}}}}}"#;
    let p = load(Some(f)).unwrap().unwrap();
    assert!(p.by_bone.is_empty());
    let tuning = p.breast_tuning.unwrap();
    assert_eq!(tuning.mass.map(value), Some(1.0));
    assert!(tuning.linear_stiffness.is_none());
    assert!(tuning.linear_damping.is_none());
    assert!(tuning.translation_limit.is_none());
    assert_eq!(value(p.hair_soft_physics().unwrap().mass), 2.0);
}

#[test]
fn an_ill_typed_tuning_block_is_ignored() {
    let f = r#"{"a":{"Object":{"a":{"Physics":{"Collision Shapes":{},
        "Breast Tuning":{"Mass":"heavy"}}}}}}"#;
    assert!(load(Some(f)).unwrap().unwrap().breast_tuning.is_none());
}
